use sensor_gateway::forward::ForwardError;
use sensor_gateway::forward::Forwarder;
use sensor_gateway::gateway::GatewayHandler;
use sensor_gateway::gateway::IngestDecision;
use sensor_gateway::keystore::KeyPair;
use sensor_gateway::record::Measurement;
use sensor_gateway::record::TelemetryRecord;
use sensor_gateway::signer::verify_record;
use sensor_gateway::validate::ValidationError;

fn sample_record() -> TelemetryRecord {
    TelemetryRecord {
        version: b"1.0".to_vec(),
        msg_type: b"reading".to_vec(),
        device_id: b"dev-1".to_vec(),
        site_id: b"site-A".to_vec(),
        sent_at: b"2024-01-01T00:00:00Z".to_vec(),
        seq_no: 1,
        measurements: vec![Measurement {
            parameter: b"temp".to_vec(),
            value: b"21.5".to_vec(),
            unit: b"C".to_vec(),
        }],
    }
}

#[test]
fn valid_record_is_accepted_signed_and_answered_ok() {
    let key = KeyPair::new_random();
    let decision = GatewayHandler::handle(sample_record(), &key);
    match &decision {
        IngestDecision::Accepted(envelope) => {
            assert_eq!(envelope.payload.canonical_bytes(), sample_record().canonical_bytes());
            assert!(verify_record(
                &envelope.payload,
                &envelope.signature,
                &key.public_key()
            ));
        }
        IngestDecision::Rejected(_) => panic!("a complete record must be accepted"),
    }
    assert_eq!(GatewayHandler::response_body(&decision), b"OK".to_vec());
}

#[test]
fn record_without_measurements_is_rejected_and_not_signed() {
    let key = KeyPair::new_random();
    let mut record = sample_record();
    record.measurements = vec![];
    let decision = GatewayHandler::handle(record, &key);
    match &decision {
        IngestDecision::Rejected(e) => assert_eq!(*e, ValidationError::EmptyMeasurements),
        IngestDecision::Accepted(_) => {
            panic!("an empty record must not reach the signer or the forwarder")
        }
    }
    assert_eq!(
        GatewayHandler::response_body(&decision),
        "Nenhuma medição encontrada".as_bytes().to_vec()
    );
}

#[test]
fn record_with_missing_field_is_rejected() {
    let key = KeyPair::new_random();
    let mut record = sample_record();
    record.device_id = vec![];
    let decision = GatewayHandler::handle(record, &key);
    assert!(matches!(decision, IngestDecision::Rejected(_)));
    assert_eq!(
        GatewayHandler::response_body(&decision),
        "Campo obrigatório ausente".as_bytes().to_vec()
    );
}

#[test]
fn forwarding_failure_still_acknowledges_ok() {
    // The submitter's acknowledgment means accepted-and-signed: an
    // unreachable backend does not change the response.
    let refused: Result<(), ForwardError> = Err(ForwardError::Transport);
    assert_eq!(GatewayHandler::acknowledge(&refused), b"OK".to_vec());
    let bad_status: Result<(), ForwardError> = Err(ForwardError::NonSuccessStatus(503));
    assert_eq!(GatewayHandler::acknowledge(&bad_status), b"OK".to_vec());
    let delivered: Result<(), ForwardError> = Ok(());
    assert_eq!(GatewayHandler::acknowledge(&delivered), b"OK".to_vec());
}

#[test]
fn request_body_wraps_payload_and_signature() {
    let key = KeyPair::new_random();
    let decision = GatewayHandler::handle(sample_record(), &key);
    let envelope = match decision {
        IngestDecision::Accepted(envelope) => envelope,
        IngestDecision::Rejected(_) => panic!("a complete record must be accepted"),
    };
    let body = Forwarder::request_body(&envelope);
    let expected = [
        b"{\"payload\":".to_vec(),
        sample_record().canonical_bytes(),
        b",\"signature\":\"".to_vec(),
        envelope.signature.clone(),
        b"\"}".to_vec(),
    ]
    .concat();
    assert_eq!(body, expected);

    // The body itself must be JSON that the backend can parse.
    let parsed: serde_json::Value = serde_json::from_slice(&body).unwrap();
    assert_eq!(
        parsed["signature"].as_str().unwrap().as_bytes(),
        envelope.signature.as_slice()
    );
    assert_eq!(parsed["payload"]["device_id"].as_str().unwrap(), "dev-1");
    assert_eq!(parsed["payload"]["seq"].as_u64().unwrap(), 1);
}
