use rover::client::{
    as_overview_url, interpret_status_response, interpret_validity_response, status_url,
    validity_url, HttpOutcome, RegistryError, StatusError, ValidityError,
};
use rover::commands::{about_text, help_text};
use rover::digits::u16_to_string;

#[test]
fn status_codes_render_in_decimal() {
    assert_eq!(u16_to_string(0), "0");
    assert_eq!(u16_to_string(7), "7");
    assert_eq!(u16_to_string(404), "404");
    assert_eq!(u16_to_string(65535), "65535");
}

#[test]
fn status_error_messages() {
    assert_eq!(
        StatusError::RemoteStatus(500).message(),
        "Status check failed: Status code 500"
    );
    assert_eq!(
        StatusError::Unreachable.message(),
        "Status check failed: Unable to contact the service"
    );
    assert_eq!(
        StatusError::MalformedResponse("oops".to_string()).message(),
        "Status check failed: Bad response: oops"
    );
}

#[test]
fn validity_error_messages() {
    assert_eq!(
        ValidityError::BadInput.message(),
        "Validity check failed: Invalid AS number or prefix"
    );
    assert_eq!(
        ValidityError::RemoteStatus(502).message(),
        "Validity check failed: Status code 502"
    );
    assert_eq!(
        ValidityError::Unreachable.message(),
        "Validity check failed: Unable to contact the service"
    );
    assert_eq!(
        ValidityError::MalformedResponse("oops".to_string()).message(),
        "Validity check failed: Bad response: oops"
    );
}

#[test]
fn registry_error_messages() {
    assert_eq!(
        RegistryError::RemoteStatus(429).message(),
        "RIPEstat AS Overview failed: Status code 429"
    );
    assert_eq!(
        RegistryError::Unreachable.message(),
        "RIPEstat AS Overview failed: Unable to contact the service"
    );
    assert_eq!(
        RegistryError::MalformedResponse("oops".to_string()).message(),
        "RIPEstat AS Overview failed: Bad response: oops"
    );
    assert_eq!(
        RegistryError::BadStatus("maintenance".to_string()).message(),
        "RIPEstat AS Overview failed: Bad response status: maintenance"
    );
}

#[test]
fn urls_are_built_from_their_parts() {
    assert_eq!(status_url("https://host"), "https://host/api/v1/status");
    assert_eq!(
        validity_url("https://host", "43996", "5.57.16.0/24"),
        "https://host/api/v1/validity/AS43996/5.57.16.0/24"
    );
    assert_eq!(
        as_overview_url("43996"),
        "https://stat.ripe.net/data/as-overview/data.json?resource=AS43996&sourceapp=ROVer"
    );
}

#[test]
fn status_outcome_mapping() {
    let ok = interpret_status_response(HttpOutcome::Response {
        code: 200,
        body: r#"{"last_update_done":"t","version":"v"}"#.to_string(),
    })
    .unwrap();
    assert_eq!(&ok.last_update_done, "t");
    assert_eq!(&ok.version, "v");

    assert_eq!(
        interpret_status_response(HttpOutcome::Unreachable),
        Err(StatusError::Unreachable)
    );
    assert_eq!(
        interpret_status_response(HttpOutcome::Response { code: 503, body: String::new() }),
        Err(StatusError::RemoteStatus(503))
    );
    assert!(matches!(
        interpret_status_response(HttpOutcome::Response {
            code: 200,
            body: "not json".to_string()
        }),
        Err(StatusError::MalformedResponse(_))
    ));
}

#[test]
fn validity_outcome_mapping_treats_400_as_bad_input() {
    assert_eq!(
        interpret_validity_response(HttpOutcome::Response { code: 400, body: String::new() }),
        Err(ValidityError::BadInput)
    );
    assert_eq!(
        interpret_validity_response(HttpOutcome::Response { code: 500, body: String::new() }),
        Err(ValidityError::RemoteStatus(500))
    );
    assert_eq!(
        interpret_validity_response(HttpOutcome::Unreachable),
        Err(ValidityError::Unreachable)
    );
}

#[test]
fn help_text_selects_by_command_name() {
    assert_eq!(help_text(Some("about")), "\n!about\n\nLearn more about this bot.\n");
    assert_eq!(help_text(Some("help")), "\n!help [<COMMAND>]\n\nGet help using this bot.\n");
    assert!(help_text(Some("validity")).contains("!validity <AS NUMBER> <PREFIX>"));
    assert_eq!(help_text(Some("frobnicate")), "Unknown command 'frobnicate'");
    assert!(help_text(None).contains("!validity  Describes the RPKI validity of a route announcement"));
}

#[test]
fn about_text_lists_the_configured_values() {
    let text = about_text("1.2.3", "bot.example", "https://host", "0.9.0");
    assert!(text.contains("ROVer Version  : 1.2.3\n"));
    assert!(text.contains("Host FQDN      : bot.example\n"));
    assert!(text.contains("Service URI    : https://host\n"));
    assert!(text.contains("Service Version: 0.9.0\n"));
}
