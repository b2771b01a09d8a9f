//! The per-request decisions of the proxy, apart from the I/O that they
//! steer: whether to refuse a request outright or to send it on.
use vstd::prelude::*;

use crate::access::{decision, opt_view, Decision, deny_request};
use crate::settings::Settings;
use crate::text::{str_eq, string_views};

verus! {

/// Status of the reply to a client that access control refuses.
pub const DENIED_STATUS: u16 = 401;

/// Status of the reply to a `CONNECT` request, which is not tunnelled.
pub const METHOD_REJECTED_STATUS: u16 = 405;

/// Status of the reply when the upstream call fails (DNS, connection, TLS,
/// time-out); such a call is never retried.
pub const UPSTREAM_FAILURE_STATUS: u16 = 502;

/// What the proxy does with a request it has received.
#[derive(Clone, Copy, Debug, PartialEq, Eq, Structural)]
pub enum Step {
    /// Reply with the denial status and an empty body; nothing is sent on.
    Deny,
    /// Reply with the method-rejected status; nothing is sent on.
    RejectMethod,
    /// Rebuild the request, send it to its host and relay the sanitized
    /// response.
    Dispatch,
}

impl Step {
    /// The status that the proxy replies with itself, or `None` when the
    /// request goes upstream.
    pub fn status(&self) -> (r: Option<u16>)
        ensures
            r == match self {
                Step::Deny => Some(DENIED_STATUS),
                Step::RejectMethod => Some(METHOD_REJECTED_STATUS),
                Step::Dispatch => None::<u16>,
            },
    {
        match self {
            Step::Deny => Some(DENIED_STATUS),
            Step::RejectMethod => Some(METHOD_REJECTED_STATUS),
            Step::Dispatch => None,
        }
    }
}

/// The step for a request from peer `remote` with method token `method`:
/// access control comes first; then, where the mode refuses it, `CONNECT`.
pub open spec fn step_for(
    remote: Option<Seq<char>>,
    method: Seq<char>,
    settings: Settings,
    rejects_connect: bool,
) -> Step {
    if decision(remote, string_views(settings.only_allow@), string_views(settings.only_deny@))
        == Decision::Deny {
        Step::Deny
    } else if rejects_connect && method == "CONNECT"@ {
        Step::RejectMethod
    } else {
        Step::Dispatch
    }
}

/// Decides the step for one request.
pub fn next_step(settings: &Settings, remote: Option<&str>, method: &str, rejects_connect: bool) -> (r:
    Step)
    ensures
        r == step_for(opt_view(remote), method@, *settings, rejects_connect),
{
    if deny_request(remote, settings) {
        return Step::Deny;
    }
    proof {
        reveal_strlit("CONNECT");
    }
    if rejects_connect && str_eq(method, "CONNECT") {
        Step::RejectMethod
    } else {
        Step::Dispatch
    }
}

} // verus!
