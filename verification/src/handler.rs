//! The per-delivery decision: whether a request's headers, body and the
//! configuration allow its command to be dispatched, and the one response
//! every path returns.

use vstd::prelude::*;

use crate::config::{HookConfig, spec_command_for};
use crate::signature::{decode_signature_header, spec_decode_signature, spec_verify, verify_signature};

verus! {

/// The HTTP response of a delivery. Every delivery gets the same one — no
/// content — so the response reveals nothing of headers, events or secrets.
pub struct HookResponse {
    /// The HTTP status code.
    pub status: u16,
    /// The response body.
    pub body: Vec<u8>,
}

/// A header value as a sequence, or nothing where the header is absent.
pub open spec fn header_view(h: Option<&[u8]>) -> Option<Seq<u8>> {
    match h {
        Some(s) => Some(s@),
        None => None,
    }
}

/// The command a delivery dispatches, or nothing. A command is dispatched
/// exactly when both headers are present, the signature header decodes, the
/// event has a configured command, and the decoded digest verifies against
/// the body under the secret.
pub open spec fn spec_hook_decision(
    commands: Seq<(Seq<u8>, Seq<char>)>,
    secret: Seq<u8>,
    event: Option<Seq<u8>>,
    signature_header: Option<Seq<u8>>,
    body: Seq<u8>,
) -> Option<Seq<char>> {
    match (event, signature_header) {
        (Some(e), Some(sh)) => match spec_decode_signature(sh) {
            Some(digest) => match spec_command_for(commands, e) {
                Some(c) => if spec_verify(body, secret, digest) {
                    Some(c)
                } else {
                    None
                },
                None => None,
            },
            None => None,
        },
        _ => None,
    }
}

/// Handle one delivery: decide which command, if any, it dispatches, and
/// build the response. The response is the same no-content one on every
/// path, whatever the headers, table or signature held.
pub fn handle_hook<'a>(
    config: &'a HookConfig,
    event: Option<&[u8]>,
    signature_header: Option<&[u8]>,
    body: &[u8],
) -> (r: (HookResponse, Option<&'a String>))
    ensures
        r.0.status == 204,
        r.0.body@ == Seq::<u8>::empty(),
        match r.1 {
            Some(c) => spec_hook_decision(
                config.commands_view(),
                config.secret@,
                header_view(event),
                header_view(signature_header),
                body@,
            ) == Some(c@),
            None => spec_hook_decision(
                config.commands_view(),
                config.secret@,
                header_view(event),
                header_view(signature_header),
                body@,
            ) is None,
        },
{
    let dispatch: Option<&'a String> = match (event, signature_header) {
        (Some(e), Some(sh)) => match decode_signature_header(sh) {
            Some(digest) => match config.command_for(e) {
                Some(command) => if verify_signature(
                    body,
                    config.secret.as_slice(),
                    digest.as_slice(),
                ) {
                    Some(command)
                } else {
                    None
                },
                None => None,
            },
            None => None,
        },
        _ => None,
    };
    (HookResponse { status: 204, body: Vec::new() }, dispatch)
}

/// Law: a delivery missing either required header dispatches nothing.
pub proof fn lemma_missing_header_no_dispatch(
    commands: Seq<(Seq<u8>, Seq<char>)>,
    secret: Seq<u8>,
    event: Option<Seq<u8>>,
    signature_header: Option<Seq<u8>>,
    body: Seq<u8>,
)
    requires
        event is None || signature_header is None,
    ensures
        spec_hook_decision(commands, secret, event, signature_header, body) is None,
{
}

/// Law: an event with no configured command dispatches nothing, however
/// valid the signature.
pub proof fn lemma_unknown_event_no_dispatch(
    commands: Seq<(Seq<u8>, Seq<char>)>,
    secret: Seq<u8>,
    event: Seq<u8>,
    signature_header: Seq<u8>,
    body: Seq<u8>,
)
    requires
        spec_command_for(commands, event) is None,
    ensures
        spec_hook_decision(commands, secret, Some(event), Some(signature_header), body) is None,
{
}

} // verus!
