//! Interpretation of the HTTP outcomes of the three service calls.
//!
//! The caller performs a GET and reports either the response status code
//! with its body text, or that no response was obtained.  The functions
//! here map that outcome to a typed result with the error taxonomy of each
//! endpoint, and build the request URLs.

use vstd::prelude::*;
use vstd::string::*;
use crate::decode::{
    decode_overview_body, decode_status_body, decode_validity_body, overview_rep_of,
    overview_shape_ok, shape_detail_spec, status_rep_of, status_shape_ok, validity_rep_of,
    validity_shape_ok,
};
use crate::digits::{dec_str_spec, u16_to_string};
use crate::json::json_of;
use crate::types::{StatusResponse, ValidityResponse};

verus! {

/// What a single GET produced: a response (any status code, with its body
/// text), or no response at all (connection failure, DNS failure, timeout).
#[derive(Clone, Debug)]
pub enum HttpOutcome {
    Response { code: u16, body: String },
    Unreachable,
}

/// A successful HTTP status code.
pub open spec fn is_success_code(code: u16) -> bool {
    200 <= code < 300
}

/// Failure of the freshness/status call.
#[derive(Clone, Debug, PartialEq, Eq)]
pub enum StatusError {
    RemoteStatus(u16),
    Unreachable,
    MalformedResponse(String),
}

impl StatusError {
    /// The one-line user-facing message for this error.
    pub open spec fn message_spec(self) -> Seq<char> {
        match self {
            StatusError::RemoteStatus(code) => "Status check failed: Status code "@ + dec_str_spec(
                code as nat,
            ),
            StatusError::Unreachable => "Status check failed: Unable to contact the service"@,
            StatusError::MalformedResponse(d) => "Status check failed: Bad response: "@ + d@,
        }
    }

    /// Render the error as its one-line message.
    pub fn message(&self) -> (r: String)
        ensures
            r@ == self.message_spec(),
    {
        match self {
            StatusError::RemoteStatus(code) => {
                let mut r = String::from_str("Status check failed: Status code ");
                let num = u16_to_string(*code);
                r.append(num.as_str());
                r
            },
            StatusError::Unreachable => String::from_str(
                "Status check failed: Unable to contact the service",
            ),
            StatusError::MalformedResponse(d) => {
                let mut r = String::from_str("Status check failed: Bad response: ");
                r.append(d.as_str());
                r
            },
        }
    }
}

/// Failure of the route-validity call.
#[derive(Clone, Debug, PartialEq, Eq)]
pub enum ValidityError {
    BadInput,
    RemoteStatus(u16),
    Unreachable,
    MalformedResponse(String),
}

impl ValidityError {
    /// The one-line user-facing message for this error.
    pub open spec fn message_spec(self) -> Seq<char> {
        match self {
            ValidityError::BadInput => "Validity check failed: Invalid AS number or prefix"@,
            ValidityError::RemoteStatus(code) => "Validity check failed: Status code "@
                + dec_str_spec(code as nat),
            ValidityError::Unreachable => "Validity check failed: Unable to contact the service"@,
            ValidityError::MalformedResponse(d) => "Validity check failed: Bad response: "@ + d@,
        }
    }

    /// Render the error as its one-line message.
    pub fn message(&self) -> (r: String)
        ensures
            r@ == self.message_spec(),
    {
        match self {
            ValidityError::BadInput => String::from_str(
                "Validity check failed: Invalid AS number or prefix",
            ),
            ValidityError::RemoteStatus(code) => {
                let mut r = String::from_str("Validity check failed: Status code ");
                let num = u16_to_string(*code);
                r.append(num.as_str());
                r
            },
            ValidityError::Unreachable => String::from_str(
                "Validity check failed: Unable to contact the service",
            ),
            ValidityError::MalformedResponse(d) => {
                let mut r = String::from_str("Validity check failed: Bad response: ");
                r.append(d.as_str());
                r
            },
        }
    }
}

/// Failure of the registry AS-overview call; never fatal for the report.
#[derive(Clone, Debug, PartialEq, Eq)]
pub enum RegistryError {
    RemoteStatus(u16),
    Unreachable,
    MalformedResponse(String),
    BadStatus(String),
}

impl RegistryError {
    /// The one-line user-facing message for this error.
    pub open spec fn message_spec(self) -> Seq<char> {
        match self {
            RegistryError::RemoteStatus(code) => "RIPEstat AS Overview failed: Status code "@
                + dec_str_spec(code as nat),
            RegistryError::Unreachable => "RIPEstat AS Overview failed: Unable to contact the service"@,
            RegistryError::MalformedResponse(d) => "RIPEstat AS Overview failed: Bad response: "@
                + d@,
            RegistryError::BadStatus(s) => "RIPEstat AS Overview failed: Bad response status: "@
                + s@,
        }
    }

    /// Render the error as its one-line message.
    pub fn message(&self) -> (r: String)
        ensures
            r@ == self.message_spec(),
    {
        match self {
            RegistryError::RemoteStatus(code) => {
                let mut r = String::from_str("RIPEstat AS Overview failed: Status code ");
                let num = u16_to_string(*code);
                r.append(num.as_str());
                r
            },
            RegistryError::Unreachable => String::from_str(
                "RIPEstat AS Overview failed: Unable to contact the service",
            ),
            RegistryError::MalformedResponse(d) => {
                let mut r = String::from_str("RIPEstat AS Overview failed: Bad response: ");
                r.append(d.as_str());
                r
            },
            RegistryError::BadStatus(s) => {
                let mut r = String::from_str("RIPEstat AS Overview failed: Bad response status: ");
                r.append(s.as_str());
                r
            },
        }
    }
}

/// The freshness/status endpoint URL under a service base URI.
pub open spec fn status_url_spec(base: Seq<char>) -> Seq<char> {
    base + "/api/v1/status"@
}

/// Build the freshness/status endpoint URL.
pub fn status_url(base: &str) -> (r: String)
    ensures
        r@ == status_url_spec(base@),
{
    let mut r = base.to_owned();
    r.append("/api/v1/status");
    r
}

/// The route-validity endpoint URL for a bare AS number and a prefix.
pub open spec fn validity_url_spec(base: Seq<char>, asn: Seq<char>, prefix: Seq<char>) -> Seq<
    char,
> {
    base + "/api/v1/validity/AS"@ + asn + "/"@ + prefix
}

/// Build the route-validity endpoint URL.
pub fn validity_url(base: &str, asn: &str, prefix: &str) -> (r: String)
    ensures
        r@ == validity_url_spec(base@, asn@, prefix@),
{
    let mut r = base.to_owned();
    r.append("/api/v1/validity/AS");
    r.append(asn);
    r.append("/");
    r.append(prefix);
    proof {
        assert(r@ =~= validity_url_spec(base@, asn@, prefix@));
    }
    r
}

/// The registry AS-overview URL for a bare AS number.
pub open spec fn as_overview_url_spec(asn: Seq<char>) -> Seq<char> {
    "https://stat.ripe.net/data/as-overview/data.json?resource=AS"@ + asn + "&sourceapp=ROVer"@
}

/// Build the registry AS-overview URL.
pub fn as_overview_url(asn: &str) -> (r: String)
    ensures
        r@ == as_overview_url_spec(asn@),
{
    let mut r = String::from_str("https://stat.ripe.net/data/as-overview/data.json?resource=AS");
    r.append(asn);
    r.append("&sourceapp=ROVer");
    proof {
        assert(r@ =~= as_overview_url_spec(asn@));
    }
    r
}

/// Map the outcome of the freshness/status GET to a typed result: no
/// response is `Unreachable`, a non-2xx code is `RemoteStatus`, and a 2xx
/// body is decoded, with any decode failure as `MalformedResponse`.
pub fn interpret_status_response(outcome: HttpOutcome) -> (r: Result<StatusResponse, StatusError>)
    ensures
        outcome is Unreachable ==> r == Err::<StatusResponse, StatusError>(
            StatusError::Unreachable,
        ),
        outcome matches HttpOutcome::Response { code, body } ==> {
            &&& !is_success_code(code) ==> r == Err::<StatusResponse, StatusError>(
                StatusError::RemoteStatus(code),
            )
            &&& is_success_code(code) ==> {
                &&& json_of(body@) is None ==> (r matches Err(e) && e is MalformedResponse)
                &&& json_of(body@) matches Some(j) ==> {
                    &&& status_shape_ok(j) ==> (r matches Ok(st) && st.deep_view()
                        == status_rep_of(j))
                    &&& !status_shape_ok(j) ==> (r matches Err(e) && e matches
                        StatusError::MalformedResponse(d) && d@ == shape_detail_spec())
                }
            }
        },
{
    match outcome {
        HttpOutcome::Unreachable => Err(StatusError::Unreachable),
        HttpOutcome::Response { code, body } => {
            if !(200 <= code && code < 300) {
                Err(StatusError::RemoteStatus(code))
            } else {
                match decode_status_body(body.as_str()) {
                    Ok(st) => Ok(st),
                    Err(d) => Err(StatusError::MalformedResponse(d)),
                }
            }
        },
    }
}

/// Map the outcome of the route-validity GET to a typed result: as for the
/// status call, except that a 400 response is the caller's own bad input.
pub fn interpret_validity_response(outcome: HttpOutcome) -> (r: Result<
    ValidityResponse,
    ValidityError,
>)
    ensures
        outcome is Unreachable ==> r == Err::<ValidityResponse, ValidityError>(
            ValidityError::Unreachable,
        ),
        outcome matches HttpOutcome::Response { code, body } ==> {
            &&& code == 400 ==> r == Err::<ValidityResponse, ValidityError>(
                ValidityError::BadInput,
            )
            &&& !is_success_code(code) && code != 400 ==> r == Err::<
                ValidityResponse,
                ValidityError,
            >(ValidityError::RemoteStatus(code))
            &&& is_success_code(code) ==> {
                &&& json_of(body@) is None ==> (r matches Err(e) && e is MalformedResponse)
                &&& json_of(body@) matches Some(j) ==> {
                    &&& validity_shape_ok(j) ==> (r matches Ok(v) && v.deep_view()
                        == validity_rep_of(j))
                    &&& !validity_shape_ok(j) ==> (r matches Err(e) && e matches
                        ValidityError::MalformedResponse(d) && d@ == shape_detail_spec())
                }
            }
        },
{
    match outcome {
        HttpOutcome::Unreachable => Err(ValidityError::Unreachable),
        HttpOutcome::Response { code, body } => {
            if code == 400 {
                Err(ValidityError::BadInput)
            } else if !(200 <= code && code < 300) {
                Err(ValidityError::RemoteStatus(code))
            } else {
                match decode_validity_body(body.as_str()) {
                    Ok(v) => Ok(v),
                    Err(d) => Err(ValidityError::MalformedResponse(d)),
                }
            }
        },
    }
}

/// Map the outcome of the registry AS-overview GET to the holder name on
/// file: decode the body, reject a response-level status other than `ok`,
/// and hand back the holder name, which the registry may itself omit.
pub fn interpret_overview_response(outcome: HttpOutcome) -> (r: Result<
    Option<String>,
    RegistryError,
>)
    ensures
        outcome is Unreachable ==> r == Err::<Option<String>, RegistryError>(
            RegistryError::Unreachable,
        ),
        outcome matches HttpOutcome::Response { code, body } ==> {
            &&& !is_success_code(code) ==> r == Err::<Option<String>, RegistryError>(
                RegistryError::RemoteStatus(code),
            )
            &&& is_success_code(code) ==> {
                &&& json_of(body@) is None ==> (r matches Err(e) && e is MalformedResponse)
                &&& json_of(body@) matches Some(j) ==> {
                    &&& !overview_shape_ok(j) ==> (r matches Err(e) && e matches
                        RegistryError::MalformedResponse(d) && d@ == shape_detail_spec())
                    &&& overview_shape_ok(j) && overview_rep_of(j).status == "ok"@ ==> (r matches
                        Ok(h) && h.deep_view() == overview_rep_of(j).holder)
                    &&& overview_shape_ok(j) && overview_rep_of(j).status != "ok"@ ==> (r matches
                        Err(e) && e matches RegistryError::BadStatus(s) && s@ == overview_rep_of(
                        j,
                    ).status)
                }
            }
        },
{
    match outcome {
        HttpOutcome::Unreachable => Err(RegistryError::Unreachable),
        HttpOutcome::Response { code, body } => {
            if !(200 <= code && code < 300) {
                Err(RegistryError::RemoteStatus(code))
            } else {
                match decode_overview_body(body.as_str()) {
                    Ok(overview) => {
                        if overview.status == String::from_str("ok") {
                            Ok(overview.data.holder)
                        } else {
                            Err(RegistryError::BadStatus(overview.status))
                        }
                    },
                    Err(d) => Err(RegistryError::MalformedResponse(d)),
                }
            }
        },
    }
}

} // verus!
