//! The result-code table and the emitter's framing.

use touchppp::codes::long_for;
use touchppp::emitter::frame_result;

#[test]
fn known_codes_read_their_long_text() {
    assert_eq!(long_for(b"0"), b"OK".to_vec());
    assert_eq!(long_for(b"1"), b"CONNECT".to_vec());
    assert_eq!(long_for(b"2"), b"RING".to_vec());
    assert_eq!(long_for(b"3"), b"NO CARRIER".to_vec());
    assert_eq!(long_for(b"4"), b"ERROR".to_vec());
    assert_eq!(long_for(b"19"), b"CONNECT 115200".to_vec());
    assert_eq!(long_for(b"67"), b"COMPRESSION: V.42 bis".to_vec());
    assert_eq!(long_for(b"79"), b"CARRIER 33600".to_vec());
    assert_eq!(long_for(b"162"), b"CARRIER 56000".to_vec());
    assert_eq!(long_for(b"+F4"), b"+FCERROR".to_vec());
    assert_eq!(
        long_for(b"V69420_WEBTV-K56_DLP"),
        b"V69420_WEBTV-K56_DLP".to_vec()
    );
}

#[test]
fn unknown_codes_fall_back_to_ok() {
    assert_eq!(long_for(b"999"), b"OK".to_vec());
    assert_eq!(long_for(b"xyz"), b"OK".to_vec());
    assert_eq!(long_for(b""), b"OK".to_vec());
    assert_eq!(long_for(b"21"), b"OK".to_vec());
}

#[test]
fn verbose_frame_uses_long_text() {
    assert_eq!(frame_result(b"2", true, false), b"RING\r\n".to_vec());
    assert_eq!(
        frame_result(b"162", true, false),
        b"CARRIER 56000\r\n".to_vec()
    );
}

#[test]
fn terse_frame_uses_short_code_bytes() {
    assert_eq!(frame_result(b"2", false, false), b"2\r\n".to_vec());
    assert_eq!(frame_result(b"162", false, false), b"162\r\n".to_vec());
}

#[test]
fn leading_blank_line_precedes_body() {
    assert_eq!(frame_result(b"0", true, true), b"\r\nOK\r\n".to_vec());
    assert_eq!(frame_result(b"0", false, true), b"\r\n0\r\n".to_vec());
}

#[test]
fn unknown_code_verbose_frame_is_ok() {
    assert_eq!(frame_result(b"QZ", true, false), b"OK\r\n".to_vec());
}
