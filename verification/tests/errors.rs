use keyring::decode_secret;
use keyring::decode_secret_text;
use keyring::ErrorCause;
use keyring::KeyringError;
use keyring::KeyringResult;

#[test]
fn no_backend_message_is_fixed() {
    let e = KeyringError::NoBackendFound;
    assert_eq!(e.message(), "Keyring error: No Backend Found");
    assert_eq!(e.description(), "No Backend Found");
}

#[test]
fn no_password_message_is_fixed() {
    let e = KeyringError::NoPasswordFound;
    assert_eq!(e.message(), "Keyring Error: No Password Found");
    assert_eq!(e.description(), "No Password Found");
}

#[test]
fn causeless_variants_have_no_cause() {
    assert!(KeyringError::NoBackendFound.cause().is_none());
    assert!(KeyringError::NoPasswordFound.cause().is_none());
}

#[test]
fn backend_error_round_trips_through_conversion() {
    let native = secret_service::Error::NoResult;
    let native_text = format!("{}", native);
    let e = KeyringError::from(native);
    assert!(matches!(e, KeyringError::SecretServiceError(_)));
    match e.cause() {
        Some(ErrorCause::SecretService(w)) => {
            assert_eq!(format!("{}", w), native_text);
        }
        _ => panic!("a backend failure must expose its native error as the cause"),
    }
    assert_eq!(e.message(), format!("Secret Service Error: {}", native_text));
    assert_eq!(e.description(), native_text);
}

#[test]
fn backend_error_message_has_backend_prefix() {
    let e = KeyringError::from(secret_service::Error::Locked);
    let m = e.message();
    assert!(m.starts_with("Secret Service Error: "));
    assert_eq!(m, "Secret Service Error: SS Error: object locked");
}

#[test]
fn missing_secret_result_contract() {
    let r: KeyringResult<String> = Err(KeyringError::NoPasswordFound);
    assert!(r.is_err());
    let e = r.unwrap_err();
    assert!(matches!(e, KeyringError::NoPasswordFound));
    assert_eq!(e.message(), "Keyring Error: No Password Found");
}

#[test]
fn missing_backend_result_contract() {
    let store: KeyringResult<()> = Err(KeyringError::NoBackendFound);
    let retrieve: KeyringResult<String> = Err(KeyringError::NoBackendFound);
    let delete: KeyringResult<()> = Err(KeyringError::NoBackendFound);
    for e in [store.unwrap_err(), retrieve.unwrap_err(), delete.unwrap_err()] {
        assert!(matches!(e, KeyringError::NoBackendFound));
        assert_eq!(e.message(), "Keyring error: No Backend Found");
    }
}

#[test]
fn invalid_payload_fails_with_parse_cause() {
    let e = decode_secret(vec![0xFF]).unwrap_err();
    let expected = String::from_utf8(vec![0xFF]).unwrap_err();
    match &e {
        KeyringError::Parse(d) => {
            assert_eq!(d.as_bytes(), expected.as_bytes());
            assert_eq!(d.utf8_error(), expected.utf8_error());
        }
        _ => panic!("an invalid payload must fail with Parse"),
    }
    match e.cause() {
        Some(ErrorCause::Parse(d)) => {
            assert_eq!(d.as_bytes(), &[0xFF]);
            assert_eq!(d.utf8_error(), expected.utf8_error());
        }
        _ => panic!("a Parse failure must expose the decode error as its cause"),
    }
}

#[test]
fn parse_message_contains_decode_error_text() {
    let d = String::from_utf8(vec![0x68, 0xFF, 0x68]).unwrap_err();
    let detail = format!("{}", d);
    let e = KeyringError::from(d);
    assert_eq!(e.description(), detail);
    assert_eq!(e.message(), format!("Keyring Parse Error: {}", detail));
    assert!(e.message().contains(&detail));
}

#[test]
fn borrowed_payload_fails_with_unicode_cause() {
    let bytes = [0x61, 0x62, 0xFF];
    let e = decode_secret_text(&bytes).unwrap_err();
    let expected = std::str::from_utf8(&bytes).unwrap_err();
    match &e {
        KeyringError::Unicode(u) => {
            assert_eq!(u, &expected);
            assert_eq!(u.valid_up_to(), 2);
        }
        _ => panic!("an invalid borrowed payload must fail with Unicode"),
    }
    assert_eq!(e.message(), format!("Keyring Unicode Error: {}", expected));
    match e.cause() {
        Some(ErrorCause::Unicode(u)) => assert_eq!(u, &expected),
        _ => panic!("a Unicode failure must expose the decode error as its cause"),
    }
}

#[test]
fn valid_payload_decodes() {
    assert_eq!(decode_secret(b"hunter2".to_vec()).unwrap(), "hunter2");
    assert_eq!(decode_secret_text(b"swordfish").unwrap(), "swordfish");
}
