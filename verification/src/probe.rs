//! Scheme dispatch and outcome translation for one probe attempt.
//!
//! A probe is a single connection-plus-handshake attempt with no retry.
//! [`dispatch`] decides, from the validated address alone, which transport
//! to use or that the scheme is unsupported; the surrounding service then
//! performs the attempt and hands its result to [`settle`], which
//! normalizes it into a [`ProbeOutcome`].

use vstd::prelude::*;

use crate::target::Address;

verus! {

/// The two supported transport modes, a closed enumeration: a plaintext
/// connection, or an encrypted channel with default platform trust.
#[derive(Clone, Copy, Debug, PartialEq, Eq, Structural)]
pub enum Transport {
    Plain,
    Secure,
}

/// The result of one probe attempt: success carries nothing, failure a
/// diagnostic suitable for direct display (not for programmatic matching).
#[derive(Debug)]
pub enum ProbeOutcome {
    Success,
    Failure { message: String },
}

/// The scheme that selects the plaintext transport.
pub open spec fn plain_scheme() -> Seq<char> {
    "ws"@
}

/// The scheme that selects the encrypted transport.
pub open spec fn secure_scheme() -> Seq<char> {
    "wss"@
}

/// Whether a scheme selects one of the two supported transports.
pub open spec fn scheme_supported(s: Seq<char>) -> bool {
    s == plain_scheme() || s == secure_scheme()
}

/// The diagnostic produced for an address whose scheme is unsupported.
pub open spec fn invalid_scheme_message(scheme: Seq<char>) -> Seq<char> {
    "Invalid scheme: "@ + scheme
}

/// Whether one probe succeeds, as a function of the target's scheme and
/// of whether the single connection-plus-handshake attempt completed.
pub open spec fn spec_probe_succeeds(scheme: Seq<char>, attempt_ok: bool) -> bool {
    scheme_supported(scheme) && attempt_ok
}

/// Selects the transport for a validated address, or rejects its scheme.
///
/// `ws` selects the plaintext transport and `wss` the encrypted one; any
/// other scheme is a failure whose message is exactly
/// `Invalid scheme: <scheme>`.
pub fn dispatch(addr: &Address) -> (r: Result<Transport, ProbeOutcome>)
    ensures
        r is Ok <==> scheme_supported(addr.scheme_spec()),
        addr.scheme_spec() == plain_scheme() ==> r == Ok::<Transport, ProbeOutcome>(
            Transport::Plain,
        ),
        addr.scheme_spec() == secure_scheme() ==> r == Ok::<Transport, ProbeOutcome>(
            Transport::Secure,
        ),
        !scheme_supported(addr.scheme_spec()) ==> (r matches Err(o) && o matches
            ProbeOutcome::Failure { message } && message@ == invalid_scheme_message(
            addr.scheme_spec(),
        )),
{
    let scheme = addr.scheme();
    let plain: String = "ws".to_owned();
    let secure: String = "wss".to_owned();
    proof {
        reveal_strlit("ws");
        reveal_strlit("wss");
        assert(plain_scheme().len() == 2);
        assert(secure_scheme().len() == 3);
        assert(plain_scheme() != secure_scheme());
    }
    if *scheme == plain {
        Ok(Transport::Plain)
    } else if *scheme == secure {
        Ok(Transport::Secure)
    } else {
        let prefix: String = "Invalid scheme: ".to_owned();
        Err(ProbeOutcome::Failure { message: prefix.concat(scheme.as_str()) })
    }
}

/// Normalizes the result of the single connection-plus-handshake attempt:
/// a completed handshake is `Success`, and any error collapses to
/// `Failure` carrying the attempt's diagnostic verbatim.
pub fn settle(attempt: Result<(), String>) -> (r: ProbeOutcome)
    ensures
        r is Success <==> attempt is Ok,
        attempt matches Err(m) ==> (r matches ProbeOutcome::Failure { message } && message@
            == m@),
{
    match attempt {
        Ok(()) => ProbeOutcome::Success,
        Err(m) => ProbeOutcome::Failure { message: m },
    }
}

/// A target with a supported scheme whose connection-plus-handshake
/// attempt completes yields a successful probe, on either transport.
pub proof fn lemma_completed_handshake_succeeds(scheme: Seq<char>)
    requires
        scheme_supported(scheme),
    ensures
        spec_probe_succeeds(scheme, true),
{
}

/// An attempt that ends in any error — refused connection, failed name
/// resolution, or a rejected upgrade — yields a failed probe, whatever
/// the scheme.
pub proof fn lemma_failed_attempt_fails(scheme: Seq<char>)
    ensures
        !spec_probe_succeeds(scheme, false),
{
}

/// Probing is idempotent in outcome class: two probes of the same target
/// whose attempts end the same way succeed or fail alike, whatever the
/// attempts' diagnostic texts.
pub proof fn lemma_probe_idempotent(scheme: Seq<char>, ok1: bool, ok2: bool)
    requires
        ok1 == ok2,
    ensures
        spec_probe_succeeds(scheme, ok1) == spec_probe_succeeds(scheme, ok2),
{
}

} // verus!
