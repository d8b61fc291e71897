//! The relay engine: in-band escape detection on the client→backend
//! direction and unmodified pass-through on the backend→client direction.

use touchppp::relay::{EscapeDetector, RelayEngine, RelayVerdict};

#[test]
fn plain_traffic_is_forwarded_unmodified() {
    let mut r = RelayEngine::start();
    match r.on_client_chunk(b"hello ppp") {
        RelayVerdict::Forward(v) => assert_eq!(v, b"hello ppp".to_vec()),
        RelayVerdict::Halt => panic!("plain traffic must not end the relay"),
    }
    assert!(r.active);
    assert_eq!(r.client_to_backend, 9);
    assert_eq!(r.backend_to_client, 0);
}

#[test]
fn plus_escape_ends_relay_and_drops_chunk() {
    let mut r = RelayEngine::start();
    match r.on_client_chunk(b"abc+++def") {
        RelayVerdict::Halt => {}
        RelayVerdict::Forward(_) => panic!("+++ must end the relay"),
    }
    assert!(!r.active);
    assert_eq!(r.client_to_backend, 0);
}

#[test]
fn plus_escape_split_across_chunks_still_ends_relay() {
    let mut r = RelayEngine::start();
    assert!(matches!(r.on_client_chunk(b"+"), RelayVerdict::Forward(_)));
    assert!(matches!(r.on_client_chunk(b"+"), RelayVerdict::Forward(_)));
    assert!(matches!(r.on_client_chunk(b"+"), RelayVerdict::Halt));
    assert!(!r.active);
}

#[test]
fn in_band_at_command_ends_relay() {
    let mut r = RelayEngine::start();
    assert!(matches!(r.on_client_chunk(b"ATH0\r"), RelayVerdict::Halt));
    assert!(!r.active);
}

#[test]
fn at_command_split_across_chunks_ends_relay() {
    let mut r = RelayEngine::start();
    assert!(matches!(r.on_client_chunk(b"AT"), RelayVerdict::Forward(_)));
    assert!(matches!(r.on_client_chunk(b"H0\r"), RelayVerdict::Halt));
}

#[test]
fn non_at_line_does_not_end_relay() {
    let mut r = RelayEngine::start();
    assert!(matches!(
        r.on_client_chunk(b"GET / HTTP/1.0\r"),
        RelayVerdict::Forward(_)
    ));
    assert!(r.active);
}

#[test]
fn backend_bytes_pass_through_exactly() {
    let mut r = RelayEngine::start();
    let payload: Vec<u8> = vec![0x00, 0xff, b'+', b'+', b'+', 0x0d, b'A', b'T', 0x7f, 0x42];
    assert_eq!(payload.len(), 10);
    let out = r.on_backend_chunk(&payload);
    assert_eq!(out, payload);
    assert_eq!(r.backend_to_client, 10);
    assert!(r.active);
}

#[test]
fn backend_direction_never_triggers_escape() {
    let mut r = RelayEngine::start();
    let out = r.on_backend_chunk(b"+++ATH0\r");
    assert_eq!(out, b"+++ATH0\r".to_vec());
    assert!(r.active);
}

#[test]
fn counters_report_per_direction() {
    let mut r = RelayEngine::start();
    assert!(matches!(r.on_client_chunk(b"abcd"), RelayVerdict::Forward(_)));
    r.on_backend_chunk(b"xy");
    assert!(matches!(r.on_client_chunk(b"ef"), RelayVerdict::Forward(_)));
    assert_eq!(r.client_to_backend, 6);
    assert_eq!(r.backend_to_client, 2);
    r.finish();
    assert!(!r.active);
    assert_eq!(r.client_to_backend, 6);
    assert_eq!(r.backend_to_client, 2);
}

#[test]
fn detector_accumulates_like_the_interpreter() {
    let mut d = EscapeDetector::new();
    assert!(!d.scan_chunk(b"xyATw"));
    assert_eq!(d.line, b"ATw".to_vec());
    assert!(!d.scan_chunk(&[0x00]));
    assert_eq!(d.line.len(), 0);
}

#[test]
fn detector_resets_line_at_carriage_return() {
    let mut d = EscapeDetector::new();
    assert!(!d.scan_chunk(b"++data\r"));
    assert_eq!(d.line.len(), 0);
    assert_eq!(d.plus_run, 0);
}
