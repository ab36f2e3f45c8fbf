use asset_codec::errors::CodecError;
use asset_codec::ids::Identifier;
use asset_codec::registry::decode_payload;
use asset_codec::registry::list_entries;
use asset_codec::registry::PluginPayload;
use asset_codec::registry::RegistryEntry;

/// A buffer holding an opaque prefix of `hlen` bytes, a two-entry registry
/// and the two payloads the entries point at.
fn registry_buffer() -> (Vec<u8>, usize) {
    let hlen: usize = 10;
    let mut buf = vec![0x55u8; hlen];
    buf.extend_from_slice(&[2, 0, 0, 0]); // entry count
    // entries start at 14; payloads start at 14 + 2 * 37 = 88
    buf.push(0); // kind: freeze
    buf.extend_from_slice(&[5; 32]);
    buf.extend_from_slice(&[88, 0, 0, 0]);
    buf.push(3); // kind: edition
    buf.extend_from_slice(&[6; 32]);
    buf.extend_from_slice(&[90, 0, 0, 0]);
    buf.extend_from_slice(&[0, 1]); // payload at 88: freeze, frozen
    buf.extend_from_slice(&[3, 42, 0, 0, 0]); // payload at 90: edition 42
    (buf, hlen)
}

#[test]
fn list_entries_reads_the_declared_entries() {
    let (buf, hlen) = registry_buffer();
    let entries = list_entries(&buf, hlen).unwrap();
    assert_eq!(entries.len(), 2);
    assert_eq!(entries[0].kind, 0);
    assert_eq!(entries[0].authority, Identifier::from_bytes(vec![5; 32]));
    assert_eq!(entries[0].offset, 88);
    assert_eq!(entries[1].kind, 3);
    assert_eq!(entries[1].authority, Identifier::from_bytes(vec![6; 32]));
    assert_eq!(entries[1].offset, 90);
}

#[test]
fn payloads_decode_independently_in_any_order() {
    let (buf, hlen) = registry_buffer();
    let entries = list_entries(&buf, hlen).unwrap();
    // Decode second then first...
    let second_first = decode_payload(&buf, &entries[1]).unwrap();
    let first_second = decode_payload(&buf, &entries[0]).unwrap();
    // ...and first then second; each entry's payload is the same either way.
    let first_alone = decode_payload(&buf, &entries[0]).unwrap();
    let second_alone = decode_payload(&buf, &entries[1]).unwrap();
    assert_eq!(first_second, first_alone);
    assert_eq!(second_first, second_alone);
    assert_eq!(first_alone, PluginPayload::Freeze { frozen: true });
    assert_eq!(second_alone, PluginPayload::Edition { number: 42 });
}

#[test]
fn registry_count_past_end_is_malformed() {
    let (mut buf, hlen) = registry_buffer();
    buf[hlen] = 3; // three declared entries cannot fit
    assert_eq!(
        list_entries(&buf, hlen).unwrap_err(),
        CodecError::MalformedRegistry
    );
}

#[test]
fn registry_count_prefix_past_end_is_malformed() {
    let buf = vec![0u8; 10];
    assert_eq!(
        list_entries(&buf, 8).unwrap_err(),
        CodecError::MalformedRegistry
    );
}

#[test]
fn empty_registry_lists_no_entries() {
    let mut buf = vec![0x55u8; 6];
    buf.extend_from_slice(&[0, 0, 0, 0]);
    let entries = list_entries(&buf, 6).unwrap();
    assert_eq!(entries.len(), 0);
}

#[test]
fn payload_unknown_tag_is_malformed() {
    let (buf, _) = registry_buffer();
    let entry = RegistryEntry {
        kind: 0,
        authority: Identifier::from_bytes(vec![0; 32]),
        offset: 0, // points at the 0x55 prefix: tag 0x55 names no plugin
    };
    assert_eq!(
        decode_payload(&buf, &entry).unwrap_err(),
        CodecError::MalformedRegistry
    );
}

#[test]
fn payload_offset_past_end_is_malformed() {
    let (buf, _) = registry_buffer();
    let entry = RegistryEntry {
        kind: 0,
        authority: Identifier::from_bytes(vec![0; 32]),
        offset: buf.len() as u32,
    };
    assert_eq!(
        decode_payload(&buf, &entry).unwrap_err(),
        CodecError::MalformedRegistry
    );
}

#[test]
fn unit_payloads_decode() {
    let buf = vec![1u8, 2u8];
    let burn = RegistryEntry {
        kind: 1,
        authority: Identifier::from_bytes(vec![0; 32]),
        offset: 0,
    };
    let transfer = RegistryEntry {
        kind: 2,
        authority: Identifier::from_bytes(vec![0; 32]),
        offset: 1,
    };
    assert_eq!(decode_payload(&buf, &burn).unwrap(), PluginPayload::Burn);
    assert_eq!(
        decode_payload(&buf, &transfer).unwrap(),
        PluginPayload::Transfer
    );
}
