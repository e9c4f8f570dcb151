//! Structural acceptance check on an incoming telemetry record.

use vstd::prelude::*;

use crate::record::TelemetryRecord;
use crate::record::TelemetryRecordView;

verus! {

/// A required text field of the record.
#[derive(Clone, Copy, PartialEq, Eq, Structural, Debug)]
pub enum FieldName {
    DeviceId,
    SiteId,
    Version,
    MsgType,
}

/// Why a record was rejected.
#[derive(Clone, Copy, PartialEq, Eq, Structural, Debug)]
pub enum ValidationError {
    /// The record carries no measurement at all.
    EmptyMeasurements,
    /// The named required field is empty.
    MissingField(FieldName),
}

/// The validator's verdict on a record: measurements must be non-empty,
/// then `device_id`, `site_id`, `version` and `msg_type` must be
/// non-empty, checked in that order; the first failure decides.
pub open spec fn spec_verdict(r: TelemetryRecordView) -> Result<(), ValidationError> {
    if r.measurements.len() == 0 {
        Err(ValidationError::EmptyMeasurements)
    } else if r.device_id.len() == 0 {
        Err(ValidationError::MissingField(FieldName::DeviceId))
    } else if r.site_id.len() == 0 {
        Err(ValidationError::MissingField(FieldName::SiteId))
    } else if r.version.len() == 0 {
        Err(ValidationError::MissingField(FieldName::Version))
    } else if r.msg_type.len() == 0 {
        Err(ValidationError::MissingField(FieldName::MsgType))
    } else {
        Ok(())
    }
}

/// Structural acceptance: deterministic, no side effects.
pub struct Validator;

impl Validator {
    /// Accepts exactly the records whose verdict is `Ok`: non-empty
    /// measurements and non-empty required fields; the error names the
    /// first check that failed. `seq` has no upper bound to check.
    pub fn accept(record: &TelemetryRecord) -> (r: Result<(), ValidationError>)
        ensures
            r == spec_verdict(record@),
            r is Ok <==> {
                &&& record@.measurements.len() > 0
                &&& record@.device_id.len() > 0
                &&& record@.site_id.len() > 0
                &&& record@.version.len() > 0
                &&& record@.msg_type.len() > 0
            },
    {
        if record.measurements.len() == 0 {
            Err(ValidationError::EmptyMeasurements)
        } else if record.device_id.len() == 0 {
            Err(ValidationError::MissingField(FieldName::DeviceId))
        } else if record.site_id.len() == 0 {
            Err(ValidationError::MissingField(FieldName::SiteId))
        } else if record.version.len() == 0 {
            Err(ValidationError::MissingField(FieldName::Version))
        } else if record.msg_type.len() == 0 {
            Err(ValidationError::MissingField(FieldName::MsgType))
        } else {
            Ok(())
        }
    }
}

/// A record without measurements is always rejected as
/// `EmptyMeasurements`, before any other check is reached; the gateway
/// therefore never signs or forwards such a record.
pub proof fn lemma_empty_measurements_rejected(r: TelemetryRecordView)
    requires
        r.measurements.len() == 0,
    ensures
        spec_verdict(r) == Err::<(), ValidationError>(ValidationError::EmptyMeasurements),
{
}

} // verus!
