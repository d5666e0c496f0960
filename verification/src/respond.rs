//! Rendering of a probe's outcome as an HTTP reply, and the two halves of
//! one request's decision logic.
//!
//! [`handle_request`] takes the raw query parameter and either settles the
//! request at once (missing parameter, malformed URL, unsupported scheme)
//! or hands back the validated address and chosen transport; after the
//! surrounding service has performed the connection attempt,
//! [`conclude`] turns its result into the final reply.

use vstd::prelude::*;

use crate::probe::ProbeOutcome;
use crate::probe::Transport;
use crate::probe::dispatch;
use crate::probe::invalid_scheme_message;
use crate::probe::plain_scheme;
use crate::probe::scheme_supported;
use crate::probe::secure_scheme;
use crate::probe::settle;
use crate::target::Address;
use crate::target::InvalidAddressError;
use crate::target::invalid_url_message;
use crate::target::url_parse_err_of;
use crate::target::url_parse_ok;
use crate::target::url_scheme_of;
use crate::target::validate;

verus! {

/// The status text of a reply for a successful probe.
pub open spec fn success_status() -> Seq<char> {
    "success"@
}

/// The status text of every failing reply.
pub open spec fn failed_status() -> Seq<char> {
    "failed"@
}

/// The fixed diagnostic for a request that lacks the target parameter.
pub open spec fn missing_param_message() -> Seq<char> {
    "url parameter is required"@
}

/// One HTTP reply: the status code, the `status` field of the JSON body,
/// and its optional `error` field.
#[derive(Debug)]
pub struct HttpReply {
    pub code: u16,
    pub status: String,
    pub error: Option<String>,
}

/// What a reply holds, stated over plain values.
pub open spec fn reply_is(r: HttpReply, code: int, status: Seq<char>, error: Option<
    Seq<char>,
>) -> bool {
    &&& r.code == code
    &&& r.status@ == status
    &&& match (r.error, error) {
        (Option::None, Option::None) => true,
        (Option::Some(m), Option::Some(e)) => m@ == e,
        _ => false,
    }
}

/// Everything one request can come to before rendering.
pub enum RequestOutcome {
    MissingParam,
    BadAddress(InvalidAddressError),
    Probed(ProbeOutcome),
}

/// Renders an outcome as the reply the service sends: `200`/`success`
/// for a completed probe, `400`/`failed` for bad input, `404`/`failed`
/// for a probe that did not complete, the diagnostic passed through
/// verbatim.
pub fn render(outcome: RequestOutcome) -> (r: HttpReply)
    ensures
        outcome is MissingParam ==> reply_is(r, 400, failed_status(), Some(
            missing_param_message(),
        )),
        outcome matches RequestOutcome::BadAddress(e) ==> reply_is(r, 400, failed_status(), Some(
            e.message@,
        )),
        outcome matches RequestOutcome::Probed(ProbeOutcome::Success) ==> reply_is(r, 200,
            success_status(), None),
        outcome matches RequestOutcome::Probed(ProbeOutcome::Failure { message }) ==> reply_is(r,
            404, failed_status(), Some(message@)),
{
    match outcome {
        RequestOutcome::MissingParam => HttpReply {
            code: 400,
            status: "failed".to_owned(),
            error: Some("url parameter is required".to_owned()),
        },
        RequestOutcome::BadAddress(e) => HttpReply {
            code: 400,
            status: "failed".to_owned(),
            error: Some(e.message),
        },
        RequestOutcome::Probed(ProbeOutcome::Success) => HttpReply {
            code: 200,
            status: "success".to_owned(),
            error: None,
        },
        RequestOutcome::Probed(ProbeOutcome::Failure { message }) => HttpReply {
            code: 404,
            status: "failed".to_owned(),
            error: Some(message),
        },
    }
}

/// The view of the optional query parameter.
pub open spec fn param_view(p: Option<&str>) -> Option<Seq<char>> {
    match p {
        Option::Some(s) => Option::Some(s@),
        Option::None => Option::None,
    }
}

/// The status code of the reply one request ends in, as a function of
/// the raw parameter and of whether the connection attempt completed.
pub open spec fn spec_reply_code(param: Option<Seq<char>>, attempt_ok: bool) -> int {
    match param {
        Option::None => 400,
        Option::Some(raw) => if !url_parse_ok(raw) {
            400
        } else if !scheme_supported(url_scheme_of(raw)) {
            404
        } else if attempt_ok {
            200
        } else {
            404
        },
    }
}

/// Decides everything about one request that needs no network: a missing
/// parameter or a malformed URL is settled as a `400` reply carrying its
/// diagnostic, an unsupported scheme as the `404` reply carrying exactly
/// `Invalid scheme: <scheme>`; otherwise the validated address and its
/// transport are handed back for the connection attempt.
pub fn handle_request(param: Option<&str>) -> (r: Result<(Address, Transport), HttpReply>)
    ensures
        param is None ==> (r matches Err(rep) && reply_is(rep, 400, failed_status(), Some(
            missing_param_message(),
        ))),
        param matches Some(raw) ==> {
            &&& !url_parse_ok(raw@) ==> (r matches Err(rep) && reply_is(rep, 400, failed_status(),
                Some(invalid_url_message(url_parse_err_of(raw@)))))
            &&& url_parse_ok(raw@) && !scheme_supported(url_scheme_of(raw@)) ==> (r matches Err(
                rep,
            ) && reply_is(rep, 404, failed_status(), Some(
                invalid_scheme_message(url_scheme_of(raw@)),
            )))
            &&& url_parse_ok(raw@) && scheme_supported(url_scheme_of(raw@)) ==> (r matches Ok(p)
                && p.0.scheme_spec() == url_scheme_of(raw@) && (p.1 is Plain <==> url_scheme_of(
                raw@,
            ) == plain_scheme()) && (p.1 is Secure <==> url_scheme_of(raw@) == secure_scheme()))
        },
        r matches Err(rep) ==> rep.code == spec_reply_code(param_view(param), true) && rep.code
            == spec_reply_code(param_view(param), false),
        r is Ok ==> spec_reply_code(param_view(param), true) == 200 && spec_reply_code(
            param_view(param),
            false,
        ) == 404,
{
    let raw = match param {
        Some(raw) => raw,
        None => {
            return Err(render(RequestOutcome::MissingParam));
        },
    };
    let addr = match validate(raw) {
        Ok(a) => a,
        Err(e) => {
            return Err(render(RequestOutcome::BadAddress(e)));
        },
    };
    match dispatch(&addr) {
        Ok(t) => Ok((addr, t)),
        Err(o) => Err(render(RequestOutcome::Probed(o))),
    }
}

/// Turns the result of the connection attempt into the final reply: a
/// completed handshake is the `200`/`success` reply, and any error the
/// `404`/`failed` reply carrying the attempt's diagnostic verbatim.
pub fn conclude(attempt: Result<(), String>) -> (r: HttpReply)
    ensures
        attempt is Ok ==> reply_is(r, 200, success_status(), None),
        attempt matches Err(m) ==> reply_is(r, 404, failed_status(), Some(m@)),
{
    render(RequestOutcome::Probed(settle(attempt)))
}

/// Repeating a probe of the same target is idempotent in reply class: if
/// the endpoint answers two attempts alike, the two requests end in the
/// same status code, whatever the attempts' diagnostic texts.
pub proof fn lemma_reply_idempotent(param: Option<Seq<char>>, ok1: bool, ok2: bool)
    requires
        ok1 == ok2,
    ensures
        spec_reply_code(param, ok1) == spec_reply_code(param, ok2),
{
}

} // verus!
