//! The orchestrator: sequencing of the lookup session.
//!
//! A session runs through up to three GETs — freshness status, route
//! validity, AS holder name — with distinct failure policies: a status or
//! validity failure ends the session with that error's message, while a
//! registry failure of any kind merely drops the holder-name line from the
//! report.  The caller performs each requested GET and hands the outcome
//! back; the functions here decide everything else.

use vstd::prelude::*;
use crate::client::{
    as_overview_url, as_overview_url_spec, interpret_overview_response,
    interpret_status_response, interpret_validity_response, is_success_code, status_url,
    status_url_spec, validity_url, validity_url_spec, HttpOutcome, StatusError, ValidityError,
};
use crate::decode::{
    overview_rep_of, overview_shape_ok, shape_detail_spec, status_rep_of, status_shape_ok,
    validity_rep_of, validity_shape_ok,
};
use crate::json::json_of;
use crate::normalize::{normalize, strip_as_spec, InputError};
use crate::render::{render_validity_report, report_spec};
use crate::types::ValidityResponse;

verus! {

/// The immutable per-process configuration: the validation service base
/// URI, constructed once and passed into every session.
pub struct Config {
    pub base_uri: String,
}

/// What the caller is asked to do next: perform a GET on a URL and report
/// its outcome, or deliver the finished reply text.
pub enum Action {
    Get(String),
    Reply(String),
}

/// The state of one lookup session between GETs.
pub enum Session {
    AwaitingStatus { as_number: String, prefix: String },
    AwaitingValidity { as_number: String, prefix: String, last_update: String },
    AwaitingHolder { report_data: ValidityResponse, last_update: String },
    Finished,
}

/// The holder name an AS-overview outcome contributes to the report:
/// present only when the call succeeded with a well-shaped body whose
/// response-level status is `ok` and the registry has a name on file.
pub open spec fn holder_of_outcome(outcome: HttpOutcome) -> Option<Seq<char>> {
    match outcome {
        HttpOutcome::Unreachable => None,
        HttpOutcome::Response { code, body } => if !is_success_code(code) {
            None
        } else {
            match json_of(body@) {
                None => None,
                Some(j) => if overview_shape_ok(j) && overview_rep_of(j).status == "ok"@ {
                    overview_rep_of(j).holder
                } else {
                    None
                },
            }
        },
    }
}

/// Whether an AS-overview outcome counts as a successful registry lookup.
pub open spec fn registry_lookup_ok(outcome: HttpOutcome) -> bool {
    match outcome {
        HttpOutcome::Unreachable => false,
        HttpOutcome::Response { code, body } => is_success_code(code) && match json_of(body@) {
            None => false,
            Some(j) => overview_shape_ok(j) && overview_rep_of(j).status == "ok"@,
        },
    }
}

/// Start a lookup session from the two raw command tokens.  A missing
/// argument yields the reply naming it, with no GET requested; otherwise
/// the freshness status GET is requested first.
pub fn start_validity_check(
    config: &Config,
    as_token: Option<&str>,
    prefix_token: Option<&str>,
) -> (r: (Session, Action))
    ensures
        as_token is None ==> {
            &&& r.0 is Finished
            &&& r.1 matches Action::Reply(m)
            &&& m@ == InputError::MissingAsNumber.message_spec()
        },
        as_token is Some && prefix_token is None ==> {
            &&& r.0 is Finished
            &&& r.1 matches Action::Reply(m)
            &&& m@ == InputError::MissingPrefix.message_spec()
        },
        as_token matches Some(a) ==> prefix_token matches Some(p) ==> {
            &&& r.0 matches Session::AwaitingStatus { as_number, prefix }
            &&& as_number@ == strip_as_spec(a@)
            &&& prefix@ == p@
            &&& r.1 matches Action::Get(u)
            &&& u@ == status_url_spec(config.base_uri@)
        },
{
    match normalize(as_token, prefix_token) {
        Err(e) => (Session::Finished, Action::Reply(e.message())),
        Ok((as_number, prefix)) => {
            let url = status_url(config.base_uri.as_str());
            (Session::AwaitingStatus { as_number, prefix }, Action::Get(url))
        },
    }
}

/// Advance a session with the outcome of the GET it last requested.
///
/// In the status stage, any failure ends the session with the status
/// error's message; success requests the validity GET.  In the validity
/// stage, any failure ends the session with the validity error's message
/// (a 400 response being the fixed bad-input message); success requests
/// the registry GET.  In the holder stage, the session always ends with
/// the full rendered report, with the holder name exactly when the
/// registry lookup succeeded.
pub fn advance_validity_check(config: &Config, session: Session, outcome: HttpOutcome) -> (r: (
    Session,
    Action,
))
    requires
        !(session is Finished),
    ensures
        session matches Session::AwaitingStatus { as_number, prefix } ==> {
            &&& outcome is Unreachable ==> {
                &&& r.0 is Finished
                &&& r.1 matches Action::Reply(m)
                &&& m@ == StatusError::Unreachable.message_spec()
            }
            &&& outcome matches HttpOutcome::Response { code, body } ==> {
                &&& !is_success_code(code) ==> {
                    &&& r.0 is Finished
                    &&& r.1 matches Action::Reply(m)
                    &&& m@ == StatusError::RemoteStatus(code).message_spec()
                }
                &&& is_success_code(code) ==> {
                    &&& json_of(body@) is None ==> {
                        &&& r.0 is Finished
                        &&& r.1 matches Action::Reply(m)
                        &&& exists|d: Seq<char>|
                            m@ == "Status check failed: Bad response: "@ + d
                    }
                    &&& json_of(body@) matches Some(j) ==> {
                        &&& !status_shape_ok(j) ==> {
                            &&& r.0 is Finished
                            &&& r.1 matches Action::Reply(m)
                            &&& m@ == "Status check failed: Bad response: "@ + shape_detail_spec()
                        }
                        &&& status_shape_ok(j) ==> {
                            &&& r.0 matches Session::AwaitingValidity {
                                as_number: a2,
                                prefix: p2,
                                last_update,
                            }
                            &&& a2@ == as_number@
                            &&& p2@ == prefix@
                            &&& last_update@ == status_rep_of(j).last_update_done
                            &&& r.1 matches Action::Get(u)
                            &&& u@ == validity_url_spec(config.base_uri@, as_number@, prefix@)
                        }
                    }
                }
            }
        },
        session matches Session::AwaitingValidity { as_number, prefix, last_update } ==> {
            &&& outcome is Unreachable ==> {
                &&& r.0 is Finished
                &&& r.1 matches Action::Reply(m)
                &&& m@ == ValidityError::Unreachable.message_spec()
            }
            &&& outcome matches HttpOutcome::Response { code, body } ==> {
                &&& code == 400 ==> {
                    &&& r.0 is Finished
                    &&& r.1 matches Action::Reply(m)
                    &&& m@ == ValidityError::BadInput.message_spec()
                }
                &&& !is_success_code(code) && code != 400 ==> {
                    &&& r.0 is Finished
                    &&& r.1 matches Action::Reply(m)
                    &&& m@ == ValidityError::RemoteStatus(code).message_spec()
                }
                &&& is_success_code(code) ==> {
                    &&& json_of(body@) is None ==> {
                        &&& r.0 is Finished
                        &&& r.1 matches Action::Reply(m)
                        &&& exists|d: Seq<char>|
                            m@ == "Validity check failed: Bad response: "@ + d
                    }
                    &&& json_of(body@) matches Some(j) ==> {
                        &&& !validity_shape_ok(j) ==> {
                            &&& r.0 is Finished
                            &&& r.1 matches Action::Reply(m)
                            &&& m@ == "Validity check failed: Bad response: "@
                                + shape_detail_spec()
                        }
                        &&& validity_shape_ok(j) ==> {
                            &&& r.0 matches Session::AwaitingHolder { report_data, last_update: lu }
                            &&& report_data.deep_view() == validity_rep_of(j)
                            &&& lu@ == last_update@
                            &&& r.1 matches Action::Get(u)
                            &&& u@ == as_overview_url_spec(as_number@)
                        }
                    }
                }
            }
        },
        session matches Session::AwaitingHolder { report_data, last_update } ==> {
            &&& r.0 is Finished
            &&& r.1 matches Action::Reply(m)
            &&& m@ == report_spec(
                report_data.deep_view(),
                holder_of_outcome(outcome),
                last_update@,
            )
        },
{
    match session {
        Session::AwaitingStatus { as_number, prefix } => {
            match interpret_status_response(outcome) {
                Err(e) => {
                    let m = e.message();
                    proof {
                        match e {
                            StatusError::MalformedResponse(d) => {
                                assert(m@ == "Status check failed: Bad response: "@ + d@);
                            },
                            _ => {},
                        }
                    }
                    (Session::Finished, Action::Reply(m))
                },
                Ok(st) => {
                    let url = validity_url(
                        config.base_uri.as_str(),
                        as_number.as_str(),
                        prefix.as_str(),
                    );
                    (
                        Session::AwaitingValidity {
                            as_number,
                            prefix,
                            last_update: st.last_update_done,
                        },
                        Action::Get(url),
                    )
                },
            }
        },
        Session::AwaitingValidity { as_number, prefix, last_update } => {
            match interpret_validity_response(outcome) {
                Err(e) => {
                    let m = e.message();
                    proof {
                        match e {
                            ValidityError::MalformedResponse(d) => {
                                assert(m@ == "Validity check failed: Bad response: "@ + d@);
                            },
                            _ => {},
                        }
                    }
                    (Session::Finished, Action::Reply(m))
                },
                Ok(report_data) => {
                    let url = as_overview_url(as_number.as_str());
                    (Session::AwaitingHolder { report_data, last_update }, Action::Get(url))
                },
            }
        },
        Session::AwaitingHolder { report_data, last_update } => {
            let holder = match interpret_overview_response(outcome) {
                Ok(h) => h,
                Err(_) => None,
            };
            proof {
                assert(holder.deep_view() == holder_of_outcome(outcome));
            }
            let report = render_validity_report(report_data, holder, last_update);
            (Session::Finished, Action::Reply(report))
        },
        Session::Finished => unreached(),
    }
}

/// Law: a registry lookup failure of any kind — no response, a non-2xx
/// code, an undecodable or ill-shaped body, or a response-level status
/// other than `ok` — contributes no holder name, so the session still ends
/// with the complete report, merely without its holder-name line.
pub proof fn lemma_registry_failure_keeps_report(outcome: HttpOutcome)
    requires
        !registry_lookup_ok(outcome),
    ensures
        holder_of_outcome(outcome) is None,
{
}

} // verus!
