//! Backend-target resolution: invocation-string splitting and address
//! qualification.

use touchppp::backend::{qualify_address, select_backend, split_command, BackendPlan};

#[test]
fn invocation_splits_into_executable_and_arguments() {
    let parts = split_command(b"/usr/sbin/pppd notty noauth");
    assert_eq!(parts.len(), 3);
    assert_eq!(parts[0], b"/usr/sbin/pppd".to_vec());
    assert_eq!(parts[1], b"notty".to_vec());
    assert_eq!(parts[2], b"noauth".to_vec());
}

#[test]
fn single_token_invocation_has_no_arguments() {
    let parts = split_command(b"pppd");
    assert_eq!(parts.len(), 1);
    assert_eq!(parts[0], b"pppd".to_vec());
}

#[test]
fn doubled_spaces_keep_empty_fields() {
    let parts = split_command(b"a  b");
    assert_eq!(parts.len(), 3);
    assert_eq!(parts[0], b"a".to_vec());
    assert_eq!(parts[1], b"".to_vec());
    assert_eq!(parts[2], b"b".to_vec());
}

#[test]
fn bare_port_gets_loopback_host() {
    assert_eq!(qualify_address(b"2323"), b"127.0.0.1:2323".to_vec());
    assert_eq!(qualify_address(b"1122"), b"127.0.0.1:1122".to_vec());
}

#[test]
fn host_and_port_pass_unchanged() {
    assert_eq!(
        qualify_address(b"ppp.example.net:2323"),
        b"ppp.example.net:2323".to_vec()
    );
    assert_eq!(qualify_address(b"10.0.0.7:99"), b"10.0.0.7:99".to_vec());
}

#[test]
fn process_invocation_takes_precedence_over_dialing() {
    match select_backend(b"pppd notty", b"2323") {
        BackendPlan::Spawn(parts) => {
            assert_eq!(parts[0], b"pppd".to_vec());
            assert_eq!(parts[1], b"notty".to_vec());
        }
        BackendPlan::Dial(_) => panic!("a configured process must be spawned"),
    }
}

#[test]
fn empty_invocation_dials_the_remote() {
    match select_backend(b"", b"2323") {
        BackendPlan::Dial(addr) => assert_eq!(addr, b"127.0.0.1:2323".to_vec()),
        BackendPlan::Spawn(_) => panic!("nothing to spawn without an invocation"),
    }
}
