use asset_codec::errors::CodecError;
use asset_codec::header::deser_asset_header;
use asset_codec::header::deser_collection_header;
use asset_codec::header::ser_asset_header;
use asset_codec::header::ser_collection_header;
use asset_codec::header::AssetHeader;
use asset_codec::header::CollectionHeader;
use asset_codec::header::UpdateAuthority;
use asset_codec::ids::Identifier;

fn id_of(b: u8) -> Identifier {
    Identifier::from_bytes(vec![b; 32])
}

#[test]
fn asset_header_round_trip() {
    let h = AssetHeader {
        owner: id_of(7),
        update_authority: UpdateAuthority::Address(id_of(9)),
        name: b"Cool Asset".to_vec(),
        uri: b"https://example.invalid/a.json".to_vec(),
        seq_num: Some(5),
    };
    let bytes = ser_asset_header(&h).unwrap();
    let (h2, hlen) = deser_asset_header(&bytes).unwrap();
    assert_eq!(hlen, bytes.len());
    assert_eq!(h2, h);
}

#[test]
fn asset_header_round_trip_unset_authority_no_seq() {
    let h = AssetHeader {
        owner: id_of(1),
        update_authority: UpdateAuthority::Unset,
        name: Vec::new(),
        uri: Vec::new(),
        seq_num: None,
    };
    let bytes = ser_asset_header(&h).unwrap();
    // tag + owner + authority tag + two empty length prefixes + absent seq tag
    assert_eq!(bytes.len(), 1 + 32 + 1 + 4 + 4 + 1);
    let (h2, hlen) = deser_asset_header(&bytes).unwrap();
    assert_eq!(hlen, bytes.len());
    assert_eq!(h2, h);
}

#[test]
fn collection_header_round_trip() {
    let h = CollectionHeader {
        update_authority: id_of(3),
        name: b"Collection".to_vec(),
        uri: b"ipfs://c".to_vec(),
        num_minted: 17,
        current_size: 1000,
    };
    let bytes = ser_collection_header(&h).unwrap();
    let (h2, hlen) = deser_collection_header(&bytes).unwrap();
    assert_eq!(hlen, bytes.len());
    assert_eq!(h2, h);
}

#[test]
fn asset_header_exact_layout() {
    let h = AssetHeader {
        owner: id_of(0xAB),
        update_authority: UpdateAuthority::Unset,
        name: vec![b'h', b'i'],
        uri: vec![b'u'],
        seq_num: Some(0x0102030405060708),
    };
    let bytes = ser_asset_header(&h).unwrap();
    let mut expected: Vec<u8> = Vec::new();
    expected.push(1); // asset discriminant
    expected.extend_from_slice(&[0xAB; 32]);
    expected.push(0); // authority: unset
    expected.extend_from_slice(&[2, 0, 0, 0]); // name length
    expected.extend_from_slice(b"hi");
    expected.extend_from_slice(&[1, 0, 0, 0]); // uri length
    expected.push(b'u');
    expected.push(1); // sequence number present
    expected.extend_from_slice(&[8, 7, 6, 5, 4, 3, 2, 1]); // little endian
    assert_eq!(bytes, expected);
}

#[test]
fn header_wrong_tag_is_malformed() {
    let mut bytes = vec![0u8; 100];
    bytes[0] = 9; // neither asset nor collection
    assert_eq!(
        deser_asset_header(&bytes).unwrap_err(),
        CodecError::MalformedHeader
    );
    assert_eq!(
        deser_collection_header(&bytes).unwrap_err(),
        CodecError::MalformedHeader
    );
}

#[test]
fn header_truncated_string_is_malformed() {
    let h = AssetHeader {
        owner: id_of(7),
        update_authority: UpdateAuthority::Unset,
        name: b"name".to_vec(),
        uri: b"uri".to_vec(),
        seq_num: None,
    };
    let mut bytes = ser_asset_header(&h).unwrap();
    // Declare a name length that runs past the end of the buffer.
    bytes[34] = 0xFF;
    assert_eq!(
        deser_asset_header(&bytes).unwrap_err(),
        CodecError::MalformedHeader
    );
}

#[test]
fn header_too_short_is_malformed() {
    let bytes = vec![1u8; 10]; // asset tag but no room for the owner
    assert_eq!(
        deser_asset_header(&bytes).unwrap_err(),
        CodecError::MalformedHeader
    );
}

#[test]
fn ser_header_rejects_wrong_width_identifier() {
    let h = AssetHeader {
        owner: Identifier::from_bytes(vec![1; 31]),
        update_authority: UpdateAuthority::Unset,
        name: Vec::new(),
        uri: Vec::new(),
        seq_num: None,
    };
    assert_eq!(ser_asset_header(&h).unwrap_err(), CodecError::FieldTooWide);
    let c = CollectionHeader {
        update_authority: Identifier::from_bytes(vec![1; 33]),
        name: Vec::new(),
        uri: Vec::new(),
        num_minted: 0,
        current_size: 0,
    };
    assert_eq!(
        ser_collection_header(&c).unwrap_err(),
        CodecError::FieldTooWide
    );
}
