use linux_keyutils::text::u32_to_hex8;
use linux_keyutils::{
    links_from_bytes, Key, KeyError, KeyRing, KeySerialId, KeyType, LinkNode, Links, Metadata,
};

#[test]
fn test_parse_descriptor_round_trip() {
    // The kernel form: type;uid;gid;perm;description
    let meta = Metadata::parse("user;1000;1000;3f010000;my-key").unwrap();
    assert_eq!(meta.get_type(), KeyType::User);
    assert_eq!(meta.get_uid(), 1000);
    assert_eq!(meta.get_gid(), 1000);
    assert_eq!(meta.get_perms().bits(), 0x3f010000);
    assert_eq!(meta.get_description(), "my-key");

    // Re-serializing the permission field and re-parsing is idempotent.
    let field = u32_to_hex8(meta.get_perms().bits());
    assert_eq!(field, "3f010000");
    let again =
        Metadata::parse(&format!("user;1000;1000;{};my-key", field)).unwrap();
    assert_eq!(again.get_perms().bits(), meta.get_perms().bits());
}

#[test]
fn test_parse_keyring_descriptor() {
    let meta = Metadata::parse("keyring;0;0;3f1f0000;_tid").unwrap();
    assert_eq!(meta.get_type(), KeyType::KeyRing);
    assert_eq!(meta.get_uid(), 0);
    assert_eq!(meta.get_gid(), 0);
    assert_eq!(meta.get_perms().bits(), 0x3f1f0000);
    assert_eq!(meta.get_description(), "_tid");
}

#[test]
fn test_parse_description_keeps_punctuation() {
    // The description is the remainder of the record and may hold colons
    // and other punctuation.
    let meta = Metadata::parse("user;1;2;0;keyring-rs:alice@mail").unwrap();
    assert_eq!(meta.get_description(), "keyring-rs:alice@mail");
}

#[test]
fn test_parse_rejects_malformed_descriptors() {
    // Missing fields
    assert_eq!(
        Metadata::parse("user;1000;1000;3f010000").unwrap_err(),
        KeyError::InvalidDescription
    );
    // Unknown type tag
    assert_eq!(
        Metadata::parse("trusted;1000;1000;3f010000;k").unwrap_err(),
        KeyError::InvalidDescription
    );
    // Non-decimal uid
    assert_eq!(
        Metadata::parse("user;10x0;1000;3f010000;k").unwrap_err(),
        KeyError::InvalidDescription
    );
    // Non-hexadecimal permission mask
    assert_eq!(
        Metadata::parse("user;1000;1000;3g010000;k").unwrap_err(),
        KeyError::InvalidDescription
    );
    // Overflowing uid
    assert_eq!(
        Metadata::parse("user;4294967296;1000;3f010000;k").unwrap_err(),
        KeyError::InvalidDescription
    );
    // Empty record
    assert_eq!(Metadata::parse("").unwrap_err(), KeyError::InvalidDescription);
}

#[test]
fn test_parse_numeral_edges() {
    // The largest mask and uid still parse.
    let meta = Metadata::parse("user;4294967295;0;ffffffff;k").unwrap();
    assert_eq!(meta.get_uid(), u32::MAX);
    assert_eq!(meta.get_perms().bits(), u32::MAX);
    // Uppercase hexadecimal digits are accepted.
    let meta = Metadata::parse("user;0;0;3F010000;k").unwrap();
    assert_eq!(meta.get_perms().bits(), 0x3f010000);
}

#[test]
fn test_from_describe_strips_nul() {
    let meta = Metadata::from_describe(b"user;1000;1000;3f010000;my-key\0").unwrap();
    assert_eq!(meta.get_type(), KeyType::User);
    assert_eq!(meta.get_description(), "my-key");

    // Without the terminating NUL the buffer is malformed.
    assert_eq!(
        Metadata::from_describe(b"user;1000;1000;3f010000;my-key").unwrap_err(),
        KeyError::InvalidDescription
    );
    // An interior NUL is malformed too.
    assert_eq!(
        Metadata::from_describe(b"user;10\x0000;1000;3f010000;k\0").unwrap_err(),
        KeyError::InvalidDescription
    );
    // Bytes that are not UTF-8 are rejected, not decoded loosely.
    assert_eq!(
        Metadata::from_describe(b"user;1;1;0;\xff\xfe\0").unwrap_err(),
        KeyError::InvalidDescription
    );
}

#[test]
fn test_from_describe_multibyte_description() {
    // A non-ASCII description decodes through the UTF-8 conversion: the
    // byte buffer and the resulting characters differ in length.
    let bytes = "user;1000;1000;3f010000;\u{3053}\u{306e}key\0".as_bytes();
    let meta = Metadata::from_describe(bytes).unwrap();
    assert_eq!(meta.get_description(), "\u{3053}\u{306e}key");
    assert_eq!(meta.get_description().chars().count(), 5);
}

#[test]
fn test_hex_serialization_exact() {
    assert_eq!(u32_to_hex8(0), "00000000");
    assert_eq!(u32_to_hex8(0x3f010000), "3f010000");
    assert_eq!(u32_to_hex8(u32::MAX), "ffffffff");
    assert_eq!(u32_to_hex8(0x0000_00ab), "000000ab");
}

#[test]
fn test_key_type_tags() {
    assert_eq!(KeyType::KeyRing.tag(), "keyring");
    assert_eq!(KeyType::User.tag(), "user");
    assert_eq!(KeyType::Logon.tag(), "logon");
    assert_eq!(KeyType::BigKey.tag(), "big_key");
    for t in [KeyType::KeyRing, KeyType::User, KeyType::Logon, KeyType::BigKey] {
        assert_eq!(KeyType::from_tag(t.tag()).unwrap(), t);
    }
    assert_eq!(KeyType::from_tag("trusted").unwrap_err(), KeyError::InvalidIdentifier);
}

#[test]
fn test_links_from_bytes_little_endian() {
    let bytes = [0x39u8, 0x30, 0x00, 0x00, 0x01, 0x00, 0x00, 0x80, 0xaa];
    let ids = links_from_bytes(&bytes);
    // Two whole words; the trailing byte is dropped.
    assert_eq!(ids.len(), 2);
    assert_eq!(ids[0].as_raw_id(), 12345);
    assert_eq!(ids[1].as_raw_id(), -2147483647);
}

#[test]
fn test_link_node_classification() {
    let ring_meta = Metadata::parse("keyring;0;0;3f1f0000;_ses").unwrap();
    let key_meta = Metadata::parse("user;0;0;3f010000;k").unwrap();
    let logon_meta = Metadata::parse("logon;0;0;3f010000;k").unwrap();

    let id = KeySerialId::new(5);
    let node = LinkNode::from_metadata(id, &ring_meta).unwrap();
    assert_eq!(node.as_ring().unwrap().get_id(), id);
    assert!(node.as_key().is_none());

    let node = LinkNode::from_metadata(id, &key_meta).unwrap();
    assert_eq!(node.as_key().unwrap().get_id(), id);
    assert!(node.as_ring().is_none());

    // Other node types are unsupported, not a hard failure of a listing.
    assert_eq!(
        LinkNode::from_metadata(id, &logon_meta).unwrap_err(),
        KeyError::OperationNotSupported
    );
}

#[test]
fn test_links_containment() {
    let key_a = Key::from_id(KeySerialId::new(1));
    let key_b = Key::from_id(KeySerialId::new(2));
    let ring_c = KeyRing::from_id(KeySerialId::new(3));
    let links = Links::new(vec![
        LinkNode::Key(key_a),
        LinkNode::KeyRing(ring_c),
    ]);

    assert_eq!(links.len(), 2);
    assert!(links.contains(&key_a));
    assert!(links.contains(&ring_c));
    assert!(!links.contains(&key_b));
    // Same identifier, different variant: not equal.
    assert!(!links.contains(&KeyRing::from_id(KeySerialId::new(1))));

    let node = links.get(&key_a).unwrap();
    assert_eq!(node.as_key().unwrap(), key_a);
    assert!(links.get(&key_b).is_none());
}
