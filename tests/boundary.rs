use safe_ffi::config::ConfigDir;
use safe_ffi::dispatch::{CallState, Delivery, Dispatcher, Outcome};
use safe_ffi::marshal::{decode, decode_optional, encode};
use safe_ffi::protocol::{
    BoundaryError, Envelope, ErrorKind, ENCODING_ERROR_CODE, INTERNAL_FAULT_CODE,
    INVALID_UTF8_CODE, NULL_INPUT_CODE, OK_CODE,
};
use safe_ffi::{app_is_mock, app_set_config_dir_path, auth_app, connect_app};

fn bytes(s: &str) -> Option<Vec<u8>> {
    Some(s.as_bytes().to_vec())
}

fn running() -> Dispatcher {
    let mut d = Dispatcher::new();
    d.begin();
    d
}

#[test]
fn test_not_mock_build() {
    assert_eq!(app_is_mock(), false);
}

#[test]
fn auth_app_valid_arguments_proceed() {
    let q = auth_app(bytes("net.app"), bytes("App"), bytes("Vendor"), bytes("https://x"))
        .ok()
        .unwrap();
    assert_eq!(q.app_id, "net.app");
    assert_eq!(q.app_name, "App");
    assert_eq!(q.app_vendor, "Vendor");
    assert_eq!(q.endpoint, Some("https://x".to_string()));
}

#[test]
fn auth_app_answers_once_on_success() {
    let mut d = running();
    let payload = encode("credential").ok().unwrap();
    match d.settle(Outcome::Completed(Ok(payload))) {
        Delivery::Success(p) => assert_eq!(p, b"credential\0".to_vec()),
        Delivery::Failure(_) => panic!("expected success"),
    }
    assert_eq!(d.deliveries, 1);
    assert_eq!(d.state, CallState::Succeeded);
    assert!(d.is_settled());
}

#[test]
fn auth_app_invalid_app_id_is_invalid_utf8() {
    let r = auth_app(Some(vec![0x61, 0xff]), bytes("App"), bytes("Vendor"), None);
    assert_eq!(r.err().unwrap().kind, ErrorKind::InvalidUtf8);
}

#[test]
fn auth_app_checks_arguments_in_order() {
    let r = auth_app(bytes("id"), None, Some(vec![0xc0, 0x80]), None);
    assert_eq!(r.err().unwrap().kind, ErrorKind::NullInput);
    let r = auth_app(bytes("id"), bytes("App"), Some(vec![0xc0, 0x80]), None);
    assert_eq!(r.err().unwrap().kind, ErrorKind::InvalidUtf8);
}

#[test]
fn auth_app_null_endpoint_is_absent() {
    let q = auth_app(bytes("id"), bytes("App"), bytes("Vendor"), None).ok().unwrap();
    assert_eq!(q.endpoint, None);
}

#[test]
fn auth_app_null_app_id_is_null_input() {
    let r = auth_app(None, bytes("App"), bytes("Vendor"), None);
    assert_eq!(r.err().unwrap().kind, ErrorKind::NullInput);
}

#[test]
fn connect_app_fault_answers_once() {
    let mut d = running();
    match d.settle::<u64>(Outcome::Faulted) {
        Delivery::Failure(env) => {
            assert_eq!(env.error_code, INTERNAL_FAULT_CODE);
            assert_eq!(env.description, Some("internal fault".to_string()));
        }
        Delivery::Success(_) => panic!("expected failure"),
    }
    assert_eq!(d.deliveries, 1);
    assert_eq!(d.state, CallState::Failed);
}

#[test]
fn domain_error_passes_through() {
    let mut d = running();
    let e = BoundaryError::new(ErrorKind::Domain(-200), "no such file".to_string());
    match d.settle::<u64>(Outcome::Completed(Err(e))) {
        Delivery::Failure(env) => {
            assert_eq!(env.error_code, -200);
            assert_eq!(env.description, Some("no such file".to_string()));
        }
        Delivery::Success(_) => panic!("expected failure"),
    }
    assert_eq!(d.state, CallState::Failed);
}

#[test]
fn connect_app_arguments() {
    let q = connect_app(bytes("id"), None).ok().unwrap();
    assert_eq!(q.app_id, "id");
    assert_eq!(q.auth_credentials, None);
    let q = connect_app(bytes("id"), bytes("cred")).ok().unwrap();
    assert_eq!(q.auth_credentials, Some("cred".to_string()));
    let r = connect_app(None, bytes("cred"));
    assert_eq!(r.err().unwrap().kind, ErrorKind::NullInput);
}

#[test]
fn config_dir_last_write_is_read() {
    let path = app_set_config_dir_path(bytes("/tmp/x")).ok().unwrap();
    let mut c = ConfigDir::new();
    assert_eq!(c.path(), None);
    c.set("/tmp/old".to_string());
    c.set(path);
    assert_eq!(c.path(), Some("/tmp/x".to_string()));
}

#[test]
fn config_dir_path_null_is_rejected() {
    let r = app_set_config_dir_path(None);
    assert_eq!(r.err().unwrap().kind, ErrorKind::NullInput);
}

#[test]
fn decode_keeps_multibyte_text() {
    let s = decode(bytes("h\u{e9}llo \u{1f600}")).ok().unwrap();
    assert_eq!(s, "h\u{e9}llo \u{1f600}");
    assert_eq!(decode(Some(vec![])).ok().unwrap(), "");
}

#[test]
fn decode_rejects_surrogates_and_overlong_forms() {
    assert_eq!(decode(Some(vec![0xed, 0xa0, 0x80])).err().unwrap().kind, ErrorKind::InvalidUtf8);
    assert_eq!(decode(Some(vec![0xc1, 0xbf])).err().unwrap().kind, ErrorKind::InvalidUtf8);
}

#[test]
fn decode_optional_never_fails() {
    assert_eq!(decode_optional(None), None);
    assert_eq!(decode_optional(Some(vec![0xff])), None);
    assert_eq!(decode_optional(bytes("x")), Some("x".to_string()));
}

#[test]
fn encode_appends_terminator() {
    assert_eq!(encode("ab").ok().unwrap(), vec![97, 98, 0]);
    assert_eq!(encode("").ok().unwrap(), vec![0]);
    assert_eq!(encode("\u{e9}").ok().unwrap(), vec![0xc3, 0xa9, 0]);
}

#[test]
fn encode_rejects_embedded_nul() {
    let e = encode("a\0b").err().unwrap();
    assert_eq!(e.kind, ErrorKind::EncodingError);
}

#[test]
fn codes_of_each_kind() {
    assert_eq!(ErrorKind::NullInput.code(), NULL_INPUT_CODE);
    assert_eq!(ErrorKind::InvalidUtf8.code(), INVALID_UTF8_CODE);
    assert_eq!(ErrorKind::EncodingError.code(), ENCODING_ERROR_CODE);
    assert_eq!(ErrorKind::InternalFault.code(), INTERNAL_FAULT_CODE);
    assert_eq!(ErrorKind::Domain(-77).code(), -77);
    assert!(Envelope::ok().is_ok());
    assert_eq!(Envelope::ok().error_code, OK_CODE);
    let env = Envelope::of_error(BoundaryError::new(ErrorKind::InvalidUtf8, "bad".to_string()));
    assert!(!env.is_ok());
    assert_eq!(env.error_code, INVALID_UTF8_CODE);
}

#[test]
fn errors_compare_by_kind() {
    let a = BoundaryError::new(ErrorKind::NullInput, "one".to_string());
    let b = BoundaryError::new(ErrorKind::NullInput, "two".to_string());
    let c = BoundaryError::new(ErrorKind::InvalidUtf8, "one".to_string());
    assert!(a.same_error(&b));
    assert!(!a.same_error(&c));
}

#[test]
fn encode_then_decode_round_trip() {
    let mut b = encode("h\u{e9}llo").ok().unwrap();
    assert_eq!(b.pop(), Some(0));
    assert_eq!(decode(Some(b)).ok().unwrap(), "h\u{e9}llo");
}
