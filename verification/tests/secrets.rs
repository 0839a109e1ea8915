use totp_engine::error::EngineError;
use totp_engine::secret::Secret;
use totp_engine::store::SecretStore;

#[test]
fn secret_bytes_are_the_utf8_of_its_text() {
    assert_eq!(Secret::from_external("0123").as_bytes(), &[0x30, 0x31, 0x32, 0x33]);
    assert_eq!(Secret::from_external("\x30\x31\x32\x33").as_bytes(), b"0123");
    assert_eq!(Secret::from_external("é").as_bytes(), &[0xc3, 0xa9]);
    assert_eq!(Secret::from_external("").as_bytes(), &[] as &[u8]);
}

#[test]
fn secret_text_round_trips() {
    for text in ["0123", "123", "JBSWY3DPEHPK3PXP", "é", "s3cr3t-κλειδί", " ", "\0", "\u{10ffff}"] {
        let secret = Secret::from_external(text);
        assert_eq!(secret.to_external(), text);
        assert_eq!(Secret::from_external(&secret.to_external()).as_bytes(), secret.as_bytes());
        assert_eq!(secret.as_bytes(), text.as_bytes());
    }
}

#[test]
fn secret_clone_keeps_the_bytes() {
    let secret = Secret::from_external("0123");
    let copy = secret.clone();
    assert_eq!(copy.as_bytes(), secret.as_bytes());
    assert_eq!(copy.to_external(), "0123");
}

#[test]
fn only_the_empty_secret_is_unusable() {
    assert!(!Secret::from_external("").is_usable());
    assert!(Secret::from_external("0").is_usable());
    assert!(Secret::from_external(" ").is_usable());
    assert!(Secret::from_external("0123").is_usable());
}

#[test]
fn store_starts_with_the_given_secret() {
    let store = SecretStore::new(Secret::from_external("0123")).unwrap();
    assert_eq!(store.read().as_bytes(), b"0123");
}

#[test]
fn store_refuses_to_start_empty() {
    assert_eq!(SecretStore::new(Secret::from_external("")).err(), Some(EngineError::InvalidSecret));
}

#[test]
fn store_replaces_the_whole_secret() {
    let mut store = SecretStore::new(Secret::from_external("0123")).unwrap();
    assert_eq!(store.replace(Secret::from_external("a much longer secret")), Ok(()));
    assert_eq!(store.read().as_bytes(), b"a much longer secret");
    assert_eq!(store.replace(Secret::from_external("x")), Ok(()));
    assert_eq!(store.read().as_bytes(), b"x");
}

#[test]
fn store_keeps_its_secret_when_given_an_empty_one() {
    let mut store = SecretStore::new(Secret::from_external("0123")).unwrap();
    assert_eq!(store.replace(Secret::from_external("")), Err(EngineError::InvalidSecret));
    assert_eq!(store.read().as_bytes(), b"0123");
}

#[test]
fn store_hands_out_copies() {
    let mut store = SecretStore::new(Secret::from_external("old")).unwrap();
    let held = store.read();
    store.replace(Secret::from_external("new")).unwrap();
    assert_eq!(held.as_bytes(), b"old");
    assert_eq!(store.read().as_bytes(), b"new");
}
