use linux_keyutils::{
    Key, KeyError, KeyRing, KeyRingIdentifier, KernelRequest, KeyPermissions, KeySerialId,
};

#[test]
fn test_from_raw_id() {
    let raw: i32 = 0x12345;
    let _key = Key::from_id(raw.into());
}

#[test]
fn test_key_requests_carry_the_id() {
    let key = Key::from_id(KeySerialId::new(42));
    assert_eq!(key.get_id().as_raw_id(), 42);

    match key.read_request() {
        KernelRequest::ReadPayload { id } => assert_eq!(id.as_raw_id(), 42),
        other => panic!("unexpected request: {:?}", other),
    }
    match key.invalidate_request() {
        KernelRequest::Invalidate { id } => assert_eq!(id.as_raw_id(), 42),
        other => panic!("unexpected request: {:?}", other),
    }
    match key.revoke_request() {
        KernelRequest::Revoke { id } => assert_eq!(id.as_raw_id(), 42),
        other => panic!("unexpected request: {:?}", other),
    }
    match key.set_timeout_request(300) {
        KernelRequest::SetTimeout { id, seconds } => {
            assert_eq!(id.as_raw_id(), 42);
            assert_eq!(seconds, 300);
        }
        other => panic!("unexpected request: {:?}", other),
    }
}

#[test]
fn test_update_request_copies_payload() {
    let key = Key::from_id(KeySerialId::new(7));
    match key.update_request(b"wow") {
        KernelRequest::UpdatePayload { id, payload } => {
            assert_eq!(id.as_raw_id(), 7);
            assert_eq!(payload, b"wow".to_vec());
        }
        other => panic!("unexpected request: {:?}", other),
    }
}

#[test]
fn test_set_perms_request_mask() {
    let key = Key::from_id(KeySerialId::new(7));
    match key.set_perms_request(KeyPermissions::from_u32(0x3f3f0000)) {
        KernelRequest::SetPerm { id, mask } => {
            assert_eq!(id.as_raw_id(), 7);
            assert_eq!(mask, 0x3f3f0000);
        }
        other => panic!("unexpected request: {:?}", other),
    }
}

#[test]
fn test_chown_request_sentinels() {
    let key = Key::from_id(KeySerialId::new(7));
    match key.chown_request(Some(1000), None) {
        KernelRequest::Chown { id, uid, gid } => {
            assert_eq!(id.as_raw_id(), 7);
            assert_eq!(uid, 1000);
            assert_eq!(gid, u32::MAX);
        }
        other => panic!("unexpected request: {:?}", other),
    }
    match key.chown_request(None, Some(5)) {
        KernelRequest::Chown { uid, gid, .. } => {
            assert_eq!(uid, u32::MAX);
            assert_eq!(gid, 5);
        }
        other => panic!("unexpected request: {:?}", other),
    }
}

#[test]
fn test_reject_request_fixed_reason() {
    let key = Key::from_id(KeySerialId::new(9));
    match key.reject_request(60) {
        KernelRequest::Reject { id, seconds, reason_code } => {
            assert_eq!(id.as_raw_id(), 9);
            assert_eq!(seconds, 60);
            // EKEYREJECTED, the fixed reason the kernel reports to searchers
            assert_eq!(reason_code, 129);
        }
        other => panic!("unexpected request: {:?}", other),
    }
}

#[test]
fn test_search_request_and_result() {
    let ring = KeyRing::from_id(KeySerialId::new(100));
    match ring.search_request("test_search").unwrap() {
        KernelRequest::SearchUserKey { keyring, description } => {
            assert_eq!(keyring.as_raw_id(), 100);
            assert_eq!(description, "test_search");
        }
        other => panic!("unexpected request: {:?}", other),
    }

    // A found key decodes to its handle; the no-key OS error decodes to
    // the key-does-not-exist kind.
    let found = KeyRing::key_result(Ok(555)).unwrap();
    assert_eq!(found.get_id().as_raw_id(), 555);
    assert_eq!(KeyRing::key_result(Err(126)).unwrap_err(), KeyError::KeyDoesNotExist);
    // An identifier too large for a serial is itself invalid.
    assert_eq!(
        KeyRing::key_result(Ok(u64::MAX)).unwrap_err(),
        KeyError::InvalidIdentifier
    );
}

#[test]
fn test_add_key_request_rejects_nul() {
    let ring = KeyRing::from_id(KeySerialId::new(100));
    match ring.add_key_request("my-new-key", b"secret").unwrap() {
        KernelRequest::AddUserKey { keyring, description, payload } => {
            assert_eq!(keyring.as_raw_id(), 100);
            assert_eq!(description, "my-new-key");
            assert_eq!(payload, b"secret".to_vec());
        }
        other => panic!("unexpected request: {:?}", other),
    }
    assert_eq!(
        ring.add_key_request("bad\0name", b"secret").unwrap_err(),
        KeyError::InvalidDescription
    );
}

#[test]
fn test_from_special_id_request() {
    let req = KeyRing::from_special_id_request(KeyRingIdentifier::Session, false);
    match req {
        KernelRequest::GetKeyRingId { special, create } => {
            assert_eq!(special, -3);
            assert!(!create);
        }
        other => panic!("unexpected request: {:?}", other),
    }
    let ring = KeyRing::from_id_result(Ok(77)).unwrap();
    assert_eq!(ring.get_id().as_raw_id(), 77);
    // Resolving a keyring that does not exist surfaces the OS error kind.
    assert_eq!(KeyRing::from_id_result(Err(126)).unwrap_err(), KeyError::KeyDoesNotExist);
}

#[test]
fn test_get_persistent_request() {
    match KeyRing::get_persistent_request(KeyRingIdentifier::Session) {
        KernelRequest::GetPersistent { uid, link_with } => {
            assert_eq!(uid, u32::MAX);
            assert_eq!(link_with, -3);
        }
        other => panic!("unexpected request: {:?}", other),
    }
}

#[test]
fn test_error_from_code_mapping() {
    assert_eq!(KeyError::from_code(13), KeyError::AccessDenied);
    assert_eq!(KeyError::from_code(122), KeyError::QuotaExceeded);
    assert_eq!(KeyError::from_code(14), KeyError::BadAddress);
    assert_eq!(KeyError::from_code(22), KeyError::InvalidArguments);
    assert_eq!(KeyError::from_code(127), KeyError::KeyExpired);
    assert_eq!(KeyError::from_code(128), KeyError::KeyRevoked);
    assert_eq!(KeyError::from_code(129), KeyError::KeyRejected);
    assert_eq!(KeyError::from_code(12), KeyError::OutOfMemory);
    assert_eq!(KeyError::from_code(126), KeyError::KeyDoesNotExist);
    assert_eq!(KeyError::from_code(95), KeyError::OperationNotSupported);
    assert_eq!(KeyError::from_code(4242), KeyError::Unknown(4242));
}
