//! The outbound side: the request body sent to the backend, and how a
//! forwarding attempt can fail. The single POST itself is network work
//! that the process's transport layer performs with this body.

use vstd::prelude::*;

use crate::json::key_payload;
use crate::json::key_signature;
use crate::json::push_key_payload;
use crate::json::push_key_signature;
use crate::json::push_quoted;
use crate::json::quoted;
use crate::record::canonical_record;
use crate::record::TelemetryRecordView;
use crate::signer::SignedEnvelope;

verus! {

/// Why delivery to the backend failed: the backend answered with a
/// non-success status, or the request never completed (connection
/// refused, timeout, malformed response).
#[derive(Clone, Copy, PartialEq, Eq, Structural, Debug)]
pub enum ForwardError {
    /// The backend answered with this non-success HTTP status.
    NonSuccessStatus(u16),
    /// The request failed below HTTP: no usable response came back.
    Transport,
}

/// The canonical bytes of the outbound body:
/// `{"payload":<canonical record>,"signature":"<base64 text>"}`.
pub open spec fn canonical_envelope(r: TelemetryRecordView, sig: Seq<u8>) -> Seq<u8> {
    key_payload() + canonical_record(r) + key_signature() + quoted(sig) + seq![125u8]
}

/// Delivers signed envelopes to the backend with a single attempt.
pub struct Forwarder;

impl Forwarder {
    /// The exact body of the one POST to the backend for `envelope`.
    pub fn request_body(envelope: &SignedEnvelope) -> (out: Vec<u8>)
        ensures
            out@ == canonical_envelope(envelope.payload@, envelope.signature@),
    {
        let mut out: Vec<u8> = Vec::new();
        push_key_payload(&mut out);
        let canonical = envelope.payload.canonical_bytes();
        crate::json::push_all(&mut out, &canonical);
        push_key_signature(&mut out);
        push_quoted(&mut out, &envelope.signature);
        out.push(125);
        assert(out@ =~= canonical_envelope(envelope.payload@, envelope.signature@));
        out
    }
}

} // verus!
