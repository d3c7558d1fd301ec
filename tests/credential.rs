use authproxy::credential::credential_from_output;
use authproxy::error::ProxyError;

#[test]
fn successful_output_is_trimmed() {
    let token = credential_from_output(Some(0), b"  secret-token\n".to_vec()).unwrap();
    assert_eq!(token, "secret-token");
}

#[test]
fn unicode_output_is_decoded() {
    let token = credential_from_output(Some(0), "\u{3000}jeton-é\t\r\n".as_bytes().to_vec()).unwrap();
    assert_eq!(token, "jeton-é");
}

#[test]
fn exit_status_two_is_a_subprocess_failure() {
    let r = credential_from_output(Some(2), b"oops".to_vec());
    match r {
        Err(ProxyError::SubprocessFailed { status, output }) => {
            assert_eq!(status, Some(2));
            assert_eq!(output, b"oops".to_vec());
        }
        other => panic!("unexpected {:?}", other),
    }
}

#[test]
fn killed_command_is_a_subprocess_failure() {
    let r = credential_from_output(None, Vec::new());
    assert!(matches!(r, Err(ProxyError::SubprocessFailed { status: None, .. })));
}

#[test]
fn non_utf8_output_is_rejected() {
    let r = credential_from_output(Some(0), vec![0x66, 0xff, 0x0a]);
    assert!(matches!(r, Err(ProxyError::InvalidCredentialOutput)));
}

#[test]
fn empty_output_gives_empty_token() {
    assert_eq!(credential_from_output(Some(0), b"\n".to_vec()).unwrap(), "");
}
