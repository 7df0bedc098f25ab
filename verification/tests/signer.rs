//! Framing for the external signing helper, exercised against the real
//! base64 encoder.

use orb_core::secure_element::{parse_sign_response, sign_request_payload, SignError};

#[test]
fn payload_is_padded_base64() {
    let payload = sign_request_payload(&b"Hello world".to_vec());
    assert_eq!(payload, b"SGVsbG8gd29ybGQ=".to_vec());
}

#[test]
fn empty_payload_is_empty() {
    let payload = sign_request_payload(&Vec::new());
    assert!(payload.is_empty());
}

#[test]
fn successful_run_round_trips_the_signature() {
    let signature = vec![0u8, 255, 7, 42, 99];
    let stdout = sign_request_payload(&signature);
    let parsed = parse_sign_response(true, Some(0), &stdout);
    assert_eq!(parsed, Ok(signature));
}

#[test]
fn failed_exit_reports_its_code() {
    let parsed = parse_sign_response(false, Some(3), &Vec::new());
    assert_eq!(parsed, Err(SignError::NonZeroExit(3)));
}

#[test]
fn signal_termination_is_reported() {
    let parsed = parse_sign_response(false, None, &Vec::new());
    assert_eq!(parsed, Err(SignError::TerminatedBySignal));
}

#[test]
fn garbage_output_is_rejected() {
    let parsed = parse_sign_response(true, Some(0), &b"!!! not base64".to_vec());
    assert_eq!(parsed, Err(SignError::InvalidOutput));
}
