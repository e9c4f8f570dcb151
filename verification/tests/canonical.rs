use sensor_gateway::record::Measurement;
use sensor_gateway::record::TelemetryRecord;

fn measurement(parameter: &str, value: &str, unit: &str) -> Measurement {
    Measurement {
        parameter: parameter.as_bytes().to_vec(),
        value: value.as_bytes().to_vec(),
        unit: unit.as_bytes().to_vec(),
    }
}

fn sample_record() -> TelemetryRecord {
    TelemetryRecord {
        version: b"1.0".to_vec(),
        msg_type: b"reading".to_vec(),
        device_id: b"dev-1".to_vec(),
        site_id: b"site-A".to_vec(),
        sent_at: b"2024-01-01T00:00:00Z".to_vec(),
        seq_no: 1,
        measurements: vec![measurement("temp", "21.5", "C")],
    }
}

#[test]
fn canonical_form_of_sample_record() {
    let record = sample_record();
    let expected = "{\"version\":\"1.0\",\"msg_type\":\"reading\",\"device_id\":\"dev-1\",\"site_id\":\"site-A\",\"sent_at\":\"2024-01-01T00:00:00Z\",\"seq\":1,\"measurements\":[{\"parameter\":\"temp\",\"value\":21.5,\"unit\":\"C\"}]}";
    assert_eq!(record.canonical_bytes(), expected.as_bytes().to_vec());
}

#[test]
fn canonical_form_joins_measurements_with_commas() {
    let mut record = sample_record();
    record.measurements = vec![
        measurement("temp", "21.5", "C"),
        measurement("hum", "40", "%"),
        measurement("pres", "101.3", "kPa"),
    ];
    record.seq_no = 1234567890;
    let expected = "{\"version\":\"1.0\",\"msg_type\":\"reading\",\"device_id\":\"dev-1\",\"site_id\":\"site-A\",\"sent_at\":\"2024-01-01T00:00:00Z\",\"seq\":1234567890,\"measurements\":[{\"parameter\":\"temp\",\"value\":21.5,\"unit\":\"C\"},{\"parameter\":\"hum\",\"value\":40,\"unit\":\"%\"},{\"parameter\":\"pres\",\"value\":101.3,\"unit\":\"kPa\"}]}";
    assert_eq!(record.canonical_bytes(), expected.as_bytes().to_vec());
}

#[test]
fn canonical_form_renders_the_largest_seq() {
    let mut record = sample_record();
    record.seq_no = u64::MAX;
    let canonical = String::from_utf8(record.canonical_bytes()).unwrap();
    assert!(canonical.contains("\"seq\":18446744073709551615,"));
}

#[test]
fn canonical_form_escapes_strings() {
    let mut record = sample_record();
    record.device_id = b"dev\"1\\a".to_vec();
    record.site_id = b"line\nbreak\ttab".to_vec();
    record.sent_at = vec![0x01, 0x1f, b'Z'];
    record.measurements = vec![measurement("temp", "-3.5e2", "C")];
    let expected = "{\"version\":\"1.0\",\"msg_type\":\"reading\",\"device_id\":\"dev\\\"1\\\\a\",\"site_id\":\"line\\nbreak\\ttab\",\"sent_at\":\"\\u0001\\u001fZ\",\"seq\":1,\"measurements\":[{\"parameter\":\"temp\",\"value\":-3.5e2,\"unit\":\"C\"}]}";
    assert_eq!(record.canonical_bytes(), expected.as_bytes().to_vec());
}

#[test]
fn canonical_escaping_matches_serde_json() {
    let text = "quote\" back\\ bell\u{8} tab\t nl\n ff\u{c} cr\r ctl\u{1} uni\u{e7}";
    let mut record = sample_record();
    record.device_id = text.as_bytes().to_vec();
    let expected_field = serde_json::to_string(&serde_json::Value::from(text)).unwrap();
    let canonical = String::from_utf8(record.canonical_bytes()).unwrap();
    assert!(canonical.contains(&format!("\"device_id\":{}", expected_field)));
}
