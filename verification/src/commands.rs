//! Text composition for the informational commands.
//!
//! The help text is selected by command name; the about text is composed
//! from values the caller obtained (host name, configured base URI, the
//! service version from a status lookup).  Both are pure: the caller only
//! delivers the returned block.

use vstd::prelude::*;
use vstd::string::*;

verus! {

/// The help text for the `about` command.
pub open spec fn about_help_spec() -> Seq<char> {
    "\n!about\n\nLearn more about this bot.\n"@
}

/// The help text for the `help` command.
pub open spec fn help_help_spec() -> Seq<char> {
    "\n!help [<COMMAND>]\n\nGet help using this bot.\n"@
}

/// The help text for the `validity` command.
pub open spec fn validity_help_spec() -> Seq<char> {
    "\n!validity <AS NUMBER> <PREFIX>\n\nDescribes whether the route announcement given by its origin AS number and\naddress prefix is RPKI valid, invalid, or not found.\n\n<AS NUMBER> can optionally be prefixed by 'AS' (case insensitive).\n"@
}

/// The command overview shown when no command name is given.
pub open spec fn general_help_spec() -> Seq<char> {
    "\nCommands:\n  !about     About this bot\n  !help      Shows this message\n  !validity  Describes the RPKI validity of a route announcement\n\nType !help command for more info on a command.\n"@
}

/// The help text for a command name: the command's own text for a known
/// name, a line naming the unknown command otherwise, and the overview
/// when no name is given.
pub open spec fn help_text_spec(command_name: Option<Seq<char>>) -> Seq<char> {
    match command_name {
        None => general_help_spec(),
        Some(c) => if c == "about"@ {
            about_help_spec()
        } else if c == "help"@ {
            help_help_spec()
        } else if c == "validity"@ {
            validity_help_spec()
        } else {
            "Unknown command '"@ + c + "'"@
        },
    }
}

/// Select the help text for an optional command name.
pub fn help_text(command_name: Option<&str>) -> (r: String)
    ensures
        command_name is None ==> r@ == help_text_spec(None),
        command_name matches Some(c) ==> r@ == help_text_spec(Some(c@)),
{
    match command_name {
        None => String::from_str(
            "\nCommands:\n  !about     About this bot\n  !help      Shows this message\n  !validity  Describes the RPKI validity of a route announcement\n\nType !help command for more info on a command.\n",
        ),
        Some(c) => {
            let c_string = c.to_owned();
            if c_string == String::from_str("about") {
                String::from_str("\n!about\n\nLearn more about this bot.\n")
            } else if c_string == String::from_str("help") {
                String::from_str("\n!help [<COMMAND>]\n\nGet help using this bot.\n")
            } else if c_string == String::from_str("validity") {
                String::from_str(
                    "\n!validity <AS NUMBER> <PREFIX>\n\nDescribes whether the route announcement given by its origin AS number and\naddress prefix is RPKI valid, invalid, or not found.\n\n<AS NUMBER> can optionally be prefixed by 'AS' (case insensitive).\n",
                )
            } else {
                let mut r = String::from_str("Unknown command '");
                r.append(c);
                r.append("'");
                proof {
                    assert(r@ =~= "Unknown command '"@ + c@ + "'"@);
                }
                r
            }
        },
    }
}

/// The about text, composed from the bot version, the host name, the
/// configured service base URI and the service version.
pub open spec fn about_text_spec(
    bot_version: Seq<char>,
    host_fqdn: Seq<char>,
    base_uri: Seq<char>,
    service_version: Seq<char>,
) -> Seq<char> {
    "\nROVer - an open source bot by NLnet Labs for in-chat feedback about the state of the RPKI.\n\nROVer Version  : "@
        + bot_version + "\nHost FQDN      : "@ + host_fqdn + "\nService URI    : "@ + base_uri
        + "\nService Version: "@ + service_version
        + "\n\nSee https://github.com/NLnetLabs/ROVer for more information.\n"@
}

/// Compose the about text.
pub fn about_text(
    bot_version: &str,
    host_fqdn: &str,
    base_uri: &str,
    service_version: &str,
) -> (r: String)
    ensures
        r@ == about_text_spec(bot_version@, host_fqdn@, base_uri@, service_version@),
{
    let mut r = String::from_str(
        "\nROVer - an open source bot by NLnet Labs for in-chat feedback about the state of the RPKI.\n\nROVer Version  : ",
    );
    r.append(bot_version);
    r.append("\nHost FQDN      : ");
    r.append(host_fqdn);
    r.append("\nService URI    : ");
    r.append(base_uri);
    r.append("\nService Version: ");
    r.append(service_version);
    r.append("\n\nSee https://github.com/NLnetLabs/ROVer for more information.\n");
    proof {
        assert(r@ =~= about_text_spec(bot_version@, host_fqdn@, base_uri@, service_version@));
    }
    r
}

} // verus!
