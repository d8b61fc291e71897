//! The AT command interpreter: echo, command-line accumulation, toggles,
//! and the two negotiation families.

use touchppp::session::{Action, Session};

fn sent(acts: &[Action]) -> Vec<Vec<u8>> {
    let mut out = Vec::new();
    for a in acts {
        if let Action::SendBytes(v) = a {
            out.push(v.clone());
        }
    }
    out
}

fn has_start_relay(acts: &[Action]) -> bool {
    acts.iter().any(|a| matches!(a, Action::StartRelay))
}

#[test]
fn firmware_info_echoes_and_identifies() {
    let mut s = Session::new();
    let acts = s.process_chunk(b"ATI3\r");
    let msgs = sent(&acts);
    assert_eq!(msgs.len(), 2);
    assert_eq!(msgs[0], b"ATI3\r".to_vec());
    assert_eq!(msgs[1], b"\r\nV69420_WEBTV-K56_DLP\r\n".to_vec());
    assert!(s.is_56k_modem);
    assert!(s.is_56k_connect);
    assert!(!has_start_relay(&acts));
}

#[test]
fn dial_setup_replies_ok_without_relay() {
    let mut s = Session::new();
    assert!(s.is_webtvos);
    let acts = s.process_chunk(b"ATDT5551234\r");
    let msgs = sent(&acts);
    assert_eq!(msgs.len(), 2);
    assert_eq!(msgs[0], b"ATDT5551234\r".to_vec());
    assert_eq!(msgs[1], b"OK\r\n".to_vec());
    assert!(!has_start_relay(&acts));
}

#[test]
fn data_mode_emits_56k_connect_sequence_and_starts_relay() {
    let mut s = Session::new();
    s.process_chunk(b"ATI3\r");
    s.process_chunk(b"ATDT5551234\r");
    let acts = s.process_chunk(b"ATD\r");
    let msgs = sent(&acts);
    assert_eq!(msgs.len(), 4);
    assert_eq!(msgs[0], b"ATD\r".to_vec());
    assert_eq!(msgs[1], b"CARRIER 56000\r\n".to_vec());
    assert_eq!(msgs[2], b"COMPRESSION: V.42 bis\r\n".to_vec());
    assert_eq!(msgs[3], b"CONNECT 115200\r\n".to_vec());
    assert!(matches!(acts.last(), Some(Action::StartRelay)));
}

#[test]
fn data_mode_without_56k_reports_slower_carrier() {
    let mut s = Session::new();
    let acts = s.process_chunk(b"ATD\r");
    let msgs = sent(&acts);
    assert_eq!(msgs[1], b"CARRIER 33600\r\n".to_vec());
    assert!(has_start_relay(&acts));
}

#[test]
fn alternate_family_dial_rings_then_connects() {
    let mut s = Session::new();
    s.process_chunk(b"ATF0\r");
    assert!(!s.is_webtvos);
    let acts = s.process_chunk(b"ATDT5551234\r");
    let msgs = sent(&acts);
    assert_eq!(msgs.len(), 3);
    assert_eq!(msgs[0], b"ATDT5551234\r".to_vec());
    assert_eq!(msgs[1], b"RING\r\n".to_vec());
    assert_eq!(msgs[2], b"CONNECT\r\n".to_vec());
    assert!(matches!(acts[2], Action::Pause));
    assert!(matches!(acts[4], Action::Pause));
    assert!(matches!(acts[5], Action::StartRelay));
    assert_eq!(acts.len(), 6);
}

#[test]
fn unrecognized_command_gets_ok_with_leading_blank() {
    let mut s = Session::new();
    let acts = s.process_chunk(b"ATX9\r");
    let msgs = sent(&acts);
    assert_eq!(msgs.len(), 2);
    assert_eq!(msgs[1], b"\r\nOK\r\n".to_vec());
}

#[test]
fn verbose_toggle_is_sticky_until_retoggled() {
    let mut s = Session::new();
    s.process_chunk(b"ATV0\r");
    assert!(!s.verbose_results);
    let acts = s.process_chunk(b"ATX9\r");
    let msgs = sent(&acts);
    assert_eq!(msgs[1], b"\r\n0\r\n".to_vec());
    assert!(!s.verbose_results);
    s.process_chunk(b"ATV1\r");
    assert!(s.verbose_results);
}

#[test]
fn echo_toggle_is_sticky_until_retoggled() {
    let mut s = Session::new();
    s.process_chunk(b"ATE0\r");
    assert!(!s.echo_enabled);
    let acts = s.process_chunk(b"ATX9\r");
    let msgs = sent(&acts);
    assert_eq!(msgs.len(), 1);
    assert_eq!(msgs[0], b"\r\nOK\r\n".to_vec());
    assert!(!s.echo_enabled);
    s.process_chunk(b"ATE1\r");
    assert!(s.echo_enabled);
    let acts = s.process_chunk(b"ATX9\r");
    assert_eq!(sent(&acts)[0], b"ATX9\r".to_vec());
}

#[test]
fn reserved_numbers_never_connect_at_56k() {
    for number in [&b"ATDT18006138199\r"[..], &b"ATDT18004653537\r"[..]] {
        let mut s = Session::new();
        s.process_chunk(b"ATI3\r");
        assert!(s.is_56k_connect);
        s.process_chunk(number);
        assert!(!s.is_56k_connect);
        let acts = s.process_chunk(b"ATD\r");
        assert_eq!(sent(&acts)[1], b"CARRIER 33600\r\n".to_vec());
    }
}

#[test]
fn softmodem_profiles_disable_56k_connect() {
    let mut s = Session::new();
    s.process_chunk(b"ATI3\r");
    s.process_chunk(b"ATS51=31\r");
    assert!(s.is_56k_modem);
    assert!(!s.is_56k_connect);

    let mut s = Session::new();
    s.process_chunk(b"ATI3\r");
    s.process_chunk(b"AT+MS=11,1\r");
    assert!(!s.is_56k_connect);
}

#[test]
fn command_line_respects_bound_and_resets() {
    let mut s = Session::new();
    let mut chunk = b"AT".to_vec();
    chunk.extend(std::iter::repeat(b'X').take(47));
    s.process_chunk(&chunk);
    assert_eq!(s.command_line.len(), 49);
    s.process_chunk(b"XX");
    assert_eq!(s.command_line.len(), 0);
}

#[test]
fn byte_outside_printable_range_resets_line() {
    let mut s = Session::new();
    s.process_chunk(b"AT");
    assert_eq!(s.command_line, b"AT".to_vec());
    s.process_chunk(&[0x00]);
    assert_eq!(s.command_line.len(), 0);
    s.process_chunk(&[0x80, b'A', b'T']);
    assert_eq!(s.command_line, b"AT".to_vec());
}

#[test]
fn non_command_prefix_resets_line() {
    let mut s = Session::new();
    s.process_chunk(b"XY");
    assert_eq!(s.command_line.len(), 0);
    s.process_chunk(b"++");
    assert_eq!(s.command_line, b"++".to_vec());
}

#[test]
fn line_split_across_chunks_completes_on_terminator() {
    let mut s = Session::new();
    let acts = s.process_chunk(b"ATI");
    assert!(sent(&acts).len() == 1);
    let acts = s.process_chunk(b"3\r");
    let msgs = sent(&acts);
    assert_eq!(msgs[1], b"\r\nV69420_WEBTV-K56_DLP\r\n".to_vec());
    assert!(s.is_56k_modem);
}

#[test]
fn line_feed_also_terminates() {
    let mut s = Session::new();
    let acts = s.process_chunk(b"ATX9\n");
    assert_eq!(sent(&acts)[1], b"\r\nOK\r\n".to_vec());
    assert_eq!(s.command_line.len(), 0);
}

#[test]
fn empty_chunk_does_nothing() {
    let mut s = Session::new();
    let acts = s.process_chunk(b"");
    assert!(acts.is_empty());
}

#[test]
fn echo_skipped_when_first_byte_unprintable() {
    let mut s = Session::new();
    let acts = s.process_chunk(&[0x01, b'A', b'T']);
    assert!(sent(&acts).is_empty());
}
