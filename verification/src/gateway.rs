//! The gateway handler: the one decision path from an inbound record to
//! a response, with signing and forwarding only after acceptance.
//!
//! A request moves from received to rejected (validation failed: no
//! signing, no forwarding) or through validated and signed to the
//! forwarding attempt; exactly one response goes back either way, and
//! per current policy the forwarding outcome does not change it.

use vstd::prelude::*;

use crate::forward::ForwardError;
use crate::keystore::KeyPair;
use crate::record::TelemetryRecord;
use crate::signer::spec_signature;
use crate::signer::SignedEnvelope;
use crate::signer::Signer;
use crate::validate::spec_verdict;
use crate::validate::ValidationError;
use crate::validate::Validator;

verus! {

/// The response body for an accepted record: `OK`.
pub open spec fn ok_text() -> Seq<u8> {
    seq![79u8, 75u8]
}

/// The response body when the record carries no measurements
/// (`Nenhuma medição encontrada`, UTF-8 bytes).
pub open spec fn empty_measurements_text() -> Seq<u8> {
    seq![78u8, 101u8, 110u8, 104u8, 117u8, 109u8, 97u8, 32u8, 109u8, 101u8, 100u8, 105u8, 195u8, 167u8, 195u8, 163u8, 111u8, 32u8, 101u8, 110u8, 99u8, 111u8, 110u8, 116u8, 114u8, 97u8, 100u8, 97u8]
}

/// The response body when a required field is empty
/// (`Campo obrigatório ausente`, UTF-8 bytes).
pub open spec fn missing_field_text() -> Seq<u8> {
    seq![67u8, 97u8, 109u8, 112u8, 111u8, 32u8, 111u8, 98u8, 114u8, 105u8, 103u8, 97u8, 116u8, 195u8, 179u8, 114u8, 105u8, 111u8, 32u8, 97u8, 117u8, 115u8, 101u8, 110u8, 116u8, 101u8]
}

/// The rejection message for each validation error.
pub open spec fn rejection_text(e: ValidationError) -> Seq<u8> {
    match e {
        ValidationError::EmptyMeasurements => empty_measurements_text(),
        ValidationError::MissingField(_) => missing_field_text(),
    }
}

/// What the gateway decided for one inbound record: rejected with the
/// validation error, or accepted with the signed envelope to forward.
pub enum IngestDecision {
    Rejected(ValidationError),
    Accepted(SignedEnvelope),
}

/// Orchestrates validator, signer and forwarder for one request.
pub struct GatewayHandler;

impl GatewayHandler {
    /// Decides one inbound record: a record the validator rejects is
    /// rejected with that error and nothing is signed — the rejection
    /// carries no envelope, so no forwarding can follow; an accepted
    /// record is signed unconditionally and the envelope carries the
    /// record unchanged with its owed signature text.
    pub fn handle(record: TelemetryRecord, key: &KeyPair) -> (d: IngestDecision)
        requires
            key.wf(),
        ensures
            spec_verdict(record@) matches Err(e) ==> d == IngestDecision::Rejected(e),
            spec_verdict(record@) is Ok ==> (d matches IngestDecision::Accepted(env)
                && env.payload == record
                && env.signature@ == spec_signature(key.key(), record@)),
    {
        match Validator::accept(&record) {
            Err(e) => IngestDecision::Rejected(e),
            Ok(()) => IngestDecision::Accepted(Signer::sign(record, key)),
        }
    }

    /// The one response for a decision: `OK` on acceptance, the
    /// rejection message otherwise.
    pub fn response_body(d: &IngestDecision) -> (r: Vec<u8>)
        ensures
            d is Accepted ==> r@ == ok_text(),
            d matches IngestDecision::Rejected(e) ==> r@ == rejection_text(*e),
    {
        let mut r: Vec<u8> = Vec::new();
        match d {
            IngestDecision::Accepted(_) => {
                r.push(79);
                r.push(75);
                assert(r@ =~= ok_text());
            },
            IngestDecision::Rejected(ValidationError::EmptyMeasurements) => {
                r.push(78);
                r.push(101);
                r.push(110);
                r.push(104);
                r.push(117);
                r.push(109);
                r.push(97);
                r.push(32);
                r.push(109);
                r.push(101);
                r.push(100);
                r.push(105);
                r.push(195);
                r.push(167);
                r.push(195);
                r.push(163);
                r.push(111);
                r.push(32);
                r.push(101);
                r.push(110);
                r.push(99);
                r.push(111);
                r.push(110);
                r.push(116);
                r.push(114);
                r.push(97);
                r.push(100);
                r.push(97);
                assert(r@ =~= empty_measurements_text());
            },
            IngestDecision::Rejected(ValidationError::MissingField(_)) => {
                r.push(67);
                r.push(97);
                r.push(109);
                r.push(112);
                r.push(111);
                r.push(32);
                r.push(111);
                r.push(98);
                r.push(114);
                r.push(105);
                r.push(103);
                r.push(97);
                r.push(116);
                r.push(195);
                r.push(179);
                r.push(114);
                r.push(105);
                r.push(111);
                r.push(32);
                r.push(97);
                r.push(117);
                r.push(115);
                r.push(101);
                r.push(110);
                r.push(116);
                r.push(101);
                assert(r@ =~= missing_field_text());
            },
        }
        r
    }

    /// The response after the forwarding attempt for an accepted record:
    /// `OK` whatever the outcome. Acknowledgment means accepted and
    /// signed, not durably delivered; a failure is only observed.
    pub fn acknowledge(forward_result: &Result<(), ForwardError>) -> (r: Vec<u8>)
        ensures
            r@ == ok_text(),
    {
        let mut r: Vec<u8> = Vec::new();
        r.push(79);
        r.push(75);
        assert(r@ =~= ok_text());
        r
    }
}

} // verus!
