use sensor_gateway::record::Measurement;
use sensor_gateway::record::TelemetryRecord;
use sensor_gateway::validate::FieldName;
use sensor_gateway::validate::ValidationError;
use sensor_gateway::validate::Validator;

fn measurement(parameter: &str, value: &str, unit: &str) -> Measurement {
    Measurement {
        parameter: parameter.as_bytes().to_vec(),
        value: value.as_bytes().to_vec(),
        unit: unit.as_bytes().to_vec(),
    }
}

fn sample_record() -> TelemetryRecord {
    TelemetryRecord {
        version: b"1.0".to_vec(),
        msg_type: b"reading".to_vec(),
        device_id: b"dev-1".to_vec(),
        site_id: b"site-A".to_vec(),
        sent_at: b"2024-01-01T00:00:00Z".to_vec(),
        seq_no: 1,
        measurements: vec![measurement("temp", "21.5", "C")],
    }
}

#[test]
fn accepts_complete_record() {
    let record = sample_record();
    assert_eq!(Validator::accept(&record), Ok(()));
}

#[test]
fn rejects_empty_measurements() {
    let mut record = sample_record();
    record.measurements = vec![];
    assert_eq!(
        Validator::accept(&record),
        Err(ValidationError::EmptyMeasurements)
    );
}

#[test]
fn empty_measurements_outranks_missing_fields() {
    let mut record = sample_record();
    record.measurements = vec![];
    record.device_id = vec![];
    record.version = vec![];
    assert_eq!(
        Validator::accept(&record),
        Err(ValidationError::EmptyMeasurements)
    );
}

#[test]
fn rejects_missing_device_id() {
    let mut record = sample_record();
    record.device_id = vec![];
    assert_eq!(
        Validator::accept(&record),
        Err(ValidationError::MissingField(FieldName::DeviceId))
    );
}

#[test]
fn rejects_missing_site_id() {
    let mut record = sample_record();
    record.site_id = vec![];
    assert_eq!(
        Validator::accept(&record),
        Err(ValidationError::MissingField(FieldName::SiteId))
    );
}

#[test]
fn rejects_missing_version() {
    let mut record = sample_record();
    record.version = vec![];
    assert_eq!(
        Validator::accept(&record),
        Err(ValidationError::MissingField(FieldName::Version))
    );
}

#[test]
fn rejects_missing_msg_type() {
    let mut record = sample_record();
    record.msg_type = vec![];
    assert_eq!(
        Validator::accept(&record),
        Err(ValidationError::MissingField(FieldName::MsgType))
    );
}

#[test]
fn missing_field_order_is_declaration_order() {
    let mut record = sample_record();
    record.site_id = vec![];
    record.msg_type = vec![];
    assert_eq!(
        Validator::accept(&record),
        Err(ValidationError::MissingField(FieldName::SiteId))
    );
}

#[test]
fn seq_has_no_upper_bound() {
    let mut record = sample_record();
    record.seq_no = u64::MAX;
    assert_eq!(Validator::accept(&record), Ok(()));
}
