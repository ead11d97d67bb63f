use linux_keyutils::{
    decode_error, default_credential_builder, CredentialError, CredentialPersistence, Key,
    KernelRequest, KeyError, KeyRing, KeySerialId, KeyutilsCredential,
};

fn credential(persistent: bool) -> KeyutilsCredential {
    let session = KeyRing::from_id(KeySerialId::new(10));
    let persistent = if persistent {
        Some(KeyRing::from_id(KeySerialId::new(20)))
    } else {
        None
    };
    KeyutilsCredential::new_with_target(session, persistent, None, "service", "user").unwrap()
}

#[test]
fn test_persistence() {
    assert!(matches!(
        default_credential_builder().persistence(),
        CredentialPersistence::UntilReboot
    ))
}

#[test]
fn test_invalid_parameter() {
    let session = KeyRing::from_id(KeySerialId::new(10));
    let credential = KeyutilsCredential::new_with_target(session, None, Some(""), "service", "user");
    assert!(
        matches!(credential, Err(CredentialError::Invalid(_, _))),
        "Created entry with empty target"
    );
}

#[test]
fn test_empty_password() {
    let entry = credential(true);
    assert!(
        matches!(entry.set_password_request(""), Err(CredentialError::Invalid(_, _))),
        "Able to set empty password"
    );
}

#[test]
fn test_empty_secret_never_reaches_the_kernel() {
    // An empty secret is rejected before any kernel operation is planned.
    let entry = credential(true);
    match entry.set_secret_request(&[]) {
        Err(CredentialError::Invalid(what, why)) => {
            assert_eq!(what, "secret");
            assert_eq!(why, "cannot be empty");
        }
        other => panic!("unexpected outcome: {:?}", other),
    }
}

#[test]
fn test_synthesized_description() {
    let entry = credential(false);
    assert_eq!(entry.description, "keyring-rs:user@service");

    let session = KeyRing::from_id(KeySerialId::new(10));
    let explicit =
        KeyutilsCredential::new_with_target(session, None, Some("my-target"), "service", "user")
            .unwrap();
    assert_eq!(explicit.description, "my-target");
}

#[test]
fn test_set_secret_request_targets_session() {
    let entry = credential(true);
    match entry.set_secret_request("p\u{e4}ssword".as_bytes()).unwrap() {
        KernelRequest::AddUserKey { keyring, description, payload } => {
            assert_eq!(keyring.as_raw_id(), 10);
            assert_eq!(description, "keyring-rs:user@service");
            assert_eq!(payload, "p\u{e4}ssword".as_bytes().to_vec());
        }
        other => panic!("unexpected request: {:?}", other),
    }
}

#[test]
fn test_get_secret_relinks_both_keyrings() {
    let entry = credential(true);
    match entry.search_request().unwrap() {
        KernelRequest::SearchUserKey { keyring, description } => {
            assert_eq!(keyring.as_raw_id(), 10);
            assert_eq!(description, "keyring-rs:user@service");
        }
        other => panic!("unexpected request: {:?}", other),
    }

    let key = KeyutilsCredential::search_result(Ok(777)).unwrap();
    assert_eq!(key.get_id().as_raw_id(), 777);

    match entry.relink_session_request(key) {
        KernelRequest::Link { id, keyring } => {
            assert_eq!(id.as_raw_id(), 777);
            assert_eq!(keyring.as_raw_id(), 10);
        }
        other => panic!("unexpected request: {:?}", other),
    }
    match entry.relink_persistent_request(key).unwrap() {
        KernelRequest::Link { id, keyring } => {
            assert_eq!(id.as_raw_id(), 777);
            assert_eq!(keyring.as_raw_id(), 20);
        }
        other => panic!("unexpected request: {:?}", other),
    }
    match entry.read_request(key) {
        KernelRequest::ReadPayload { id } => assert_eq!(id.as_raw_id(), 777),
        other => panic!("unexpected request: {:?}", other),
    }

    // Without a persistent keyring there is nothing to re-link.
    let entry = credential(false);
    assert!(entry.relink_persistent_request(key).is_none());
}

#[test]
fn test_search_error_collapses_to_no_entry() {
    // The kernel reports different codes for "gone" depending on how far
    // invalidation has progressed; all collapse to no-entry.
    for code in [126, 13, 128, 127] {
        assert_eq!(
            KeyutilsCredential::search_result(Err(code)).unwrap_err(),
            CredentialError::NoEntry
        );
    }
    // Anything else keeps its kind.
    assert_eq!(
        KeyutilsCredential::search_result(Err(12)).unwrap_err(),
        CredentialError::PlatformFailure(KeyError::OutOfMemory)
    );
}

#[test]
fn test_delete_then_search_plans() {
    let entry = credential(true);
    let key = KeyutilsCredential::search_result(Ok(777)).unwrap();
    match entry.invalidate_request(key) {
        KernelRequest::Invalidate { id } => assert_eq!(id.as_raw_id(), 777),
        other => panic!("unexpected request: {:?}", other),
    }
    // Once the key is invalidated the kernel reports it gone to the next
    // search, which surfaces as the no-entry category.
    assert_eq!(
        KeyutilsCredential::search_result(Err(126)).unwrap_err(),
        CredentialError::NoEntry
    );
}

#[test]
fn test_decode_password_utf8() {
    // The decoded password holds the characters the bytes encode: the
    // byte count and character count differ for multi-byte content.
    let secret = "\u{3053}\u{306e}key".as_bytes().to_vec();
    assert_eq!(secret.len(), 9);
    let password = KeyutilsCredential::decode_password(secret).unwrap();
    assert_eq!(password, "\u{3053}\u{306e}key");
    assert_eq!(password.chars().count(), 5);

    assert_eq!(
        KeyutilsCredential::decode_password(vec![0xff, 0xfe]).unwrap_err(),
        CredentialError::BadEncoding
    );
}

#[test]
fn test_decode_error_mapping() {
    assert_eq!(decode_error(KeyError::KeyDoesNotExist), CredentialError::NoEntry);
    assert_eq!(decode_error(KeyError::AccessDenied), CredentialError::NoEntry);
    assert_eq!(decode_error(KeyError::KeyRevoked), CredentialError::NoEntry);
    assert_eq!(decode_error(KeyError::KeyExpired), CredentialError::NoEntry);
    match decode_error(KeyError::InvalidDescription) {
        CredentialError::Invalid(what, why) => {
            assert_eq!(what, "description");
            assert_eq!(why, "rejected by platform");
        }
        other => panic!("unexpected mapping: {:?}", other),
    }
    match decode_error(KeyError::InvalidArguments) {
        CredentialError::Invalid(what, why) => {
            assert_eq!(what, "password");
            assert_eq!(why, "rejected by platform");
        }
        other => panic!("unexpected mapping: {:?}", other),
    }
    assert_eq!(
        decode_error(KeyError::QuotaExceeded),
        CredentialError::PlatformFailure(KeyError::QuotaExceeded)
    );
}

#[test]
fn test_unit_result_decoding() {
    assert!(KeyutilsCredential::unit_result(Ok(0)).is_ok());
    assert_eq!(
        KeyutilsCredential::unit_result(Err(13)).unwrap_err(),
        CredentialError::NoEntry
    );
}
