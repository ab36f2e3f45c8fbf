use asset_codec::errors::CodecError;
use asset_codec::header::deser_asset_header;
use asset_codec::header::deser_collection_header;
use asset_codec::header::ser_asset_header;
use asset_codec::header::ser_collection_header;
use asset_codec::header::AssetHeader;
use asset_codec::header::CollectionHeader;
use asset_codec::header::UpdateAuthority;
use asset_codec::ids::Identifier;
use asset_codec::patch::patch_header_field;
use asset_codec::patch::patch_token_record;
use asset_codec::patch::HeaderMutation;
use asset_codec::patch::TokenRecordMutation;
use asset_codec::record::deser_token_record;
use asset_codec::record::ser_token_record;
use asset_codec::record::TokenRecord;
use asset_codec::record::TokenState;

fn id_of(b: u8) -> Identifier {
    Identifier::from_bytes(vec![b; 32])
}

fn asset_buffer_with_extension() -> (Vec<u8>, usize) {
    let h = AssetHeader {
        owner: id_of(7),
        update_authority: UpdateAuthority::Address(id_of(9)),
        name: b"Asset".to_vec(),
        uri: b"uri://x".to_vec(),
        seq_num: None,
    };
    let mut bytes = ser_asset_header(&h).unwrap();
    let hlen = bytes.len();
    bytes.extend_from_slice(&[0xAA, 0xBB, 0xCC, 0xDD, 0xEE, 0xFF, 0x01, 0x02]);
    (bytes, hlen)
}

#[test]
fn patch_asset_owner_preserves_length_and_extension() {
    let (bytes, hlen) = asset_buffer_with_extension();
    let total = bytes.len();
    let patched = patch_header_field(&bytes, HeaderMutation::SetOwner(id_of(0x42))).unwrap();
    assert_eq!(patched.len(), total);
    assert_eq!(&patched[hlen..], &bytes[hlen..]);
    let (h2, hlen2) = deser_asset_header(&patched).unwrap();
    assert_eq!(hlen2, hlen);
    assert_eq!(h2.owner, id_of(0x42));
    assert_eq!(h2.update_authority, UpdateAuthority::Address(id_of(9)));
    assert_eq!(h2.name, b"Asset".to_vec());
    assert_eq!(h2.uri, b"uri://x".to_vec());
    assert_eq!(h2.seq_num, None);
}

#[test]
fn patch_asset_authority_same_width_succeeds() {
    let (bytes, hlen) = asset_buffer_with_extension();
    let patched = patch_header_field(&bytes, HeaderMutation::SetAuthority(id_of(0x11))).unwrap();
    assert_eq!(patched.len(), bytes.len());
    let (h2, _) = deser_asset_header(&patched).unwrap();
    assert_eq!(h2.update_authority, UpdateAuthority::Address(id_of(0x11)));
    assert_eq!(&patched[hlen..], &bytes[hlen..]);
}

#[test]
fn patch_asset_authority_width_change_is_length_mismatch() {
    // An unset authority is one byte; setting an address would grow the
    // header and desynchronize the extension region, so the patch refuses.
    let h = AssetHeader {
        owner: id_of(7),
        update_authority: UpdateAuthority::Unset,
        name: b"n".to_vec(),
        uri: b"u".to_vec(),
        seq_num: None,
    };
    let mut bytes = ser_asset_header(&h).unwrap();
    bytes.extend_from_slice(&[9, 9, 9]);
    assert_eq!(
        patch_header_field(&bytes, HeaderMutation::SetAuthority(id_of(1))).unwrap_err(),
        CodecError::LengthMismatch
    );
}

#[test]
fn patch_collection_authority() {
    let h = CollectionHeader {
        update_authority: id_of(1),
        name: b"c".to_vec(),
        uri: b"u".to_vec(),
        num_minted: 4,
        current_size: 9,
    };
    let mut bytes = ser_collection_header(&h).unwrap();
    let hlen = bytes.len();
    bytes.extend_from_slice(&[7; 5]);
    let patched = patch_header_field(&bytes, HeaderMutation::SetAuthority(id_of(2))).unwrap();
    assert_eq!(patched.len(), bytes.len());
    assert_eq!(&patched[hlen..], &bytes[hlen..]);
    let (h2, _) = deser_collection_header(&patched).unwrap();
    assert_eq!(h2.update_authority, id_of(2));
    assert_eq!(h2.num_minted, 4);
    assert_eq!(h2.current_size, 9);
}

#[test]
fn patch_variable_width_fields_unsupported() {
    let (bytes, _) = asset_buffer_with_extension();
    assert_eq!(
        patch_header_field(&bytes, HeaderMutation::SetName(b"longer".to_vec())).unwrap_err(),
        CodecError::UnsupportedMutation
    );
    assert_eq!(
        patch_header_field(&bytes, HeaderMutation::SetUri(b"u2".to_vec())).unwrap_err(),
        CodecError::UnsupportedMutation
    );
}

#[test]
fn patch_owner_of_collection_unsupported() {
    let h = CollectionHeader {
        update_authority: id_of(1),
        name: Vec::new(),
        uri: Vec::new(),
        num_minted: 0,
        current_size: 0,
    };
    let bytes = ser_collection_header(&h).unwrap();
    assert_eq!(
        patch_header_field(&bytes, HeaderMutation::SetOwner(id_of(2))).unwrap_err(),
        CodecError::UnsupportedMutation
    );
}

#[test]
fn patch_garbage_is_malformed_header() {
    let bytes = vec![0u8; 40];
    assert_eq!(
        patch_header_field(&bytes, HeaderMutation::SetOwner(id_of(2))).unwrap_err(),
        CodecError::MalformedHeader
    );
}

#[test]
fn patch_wrong_width_owner_is_field_too_wide() {
    let (bytes, _) = asset_buffer_with_extension();
    let bad = Identifier::from_bytes(vec![1; 33]);
    assert_eq!(
        patch_header_field(&bytes, HeaderMutation::SetOwner(bad)).unwrap_err(),
        CodecError::FieldTooWide
    );
}

#[test]
fn locked_token_record_released_scenario() {
    // A locked, delegated token record is decoded, unlocked and stripped of
    // its delegate, and re-encoded: 80 bytes, unlocked state byte, all-zero
    // delegate slot.
    let r = TokenRecord {
        key: 19,
        bump: 5,
        state: TokenState::Locked,
        rule_set_revision: None,
        delegate: Some(id_of(0xD0)),
        delegate_role: None,
        locked_transfer: None,
    };
    let bytes = ser_token_record(&r).unwrap();
    assert_eq!(bytes[2], 1);
    let step1 = patch_token_record(&bytes, TokenRecordMutation::SetState(TokenState::Unlocked))
        .unwrap();
    let step2 = patch_token_record(&step1, TokenRecordMutation::SetDelegate(None)).unwrap();
    assert_eq!(step2.len(), 80);
    assert_eq!(step2[2], 0); // unlocked tag
    assert!(step2[12..45].iter().all(|b| *b == 0)); // delegate slot zeroed
    let r2 = deser_token_record(&step2).unwrap();
    assert_eq!(r2.state, TokenState::Unlocked);
    assert_eq!(r2.delegate, None);
    assert_eq!(r2.key, 19);
    assert_eq!(r2.bump, 5);
}

#[test]
fn patch_token_record_bump() {
    let r = TokenRecord {
        key: 19,
        bump: 5,
        state: TokenState::Unlocked,
        rule_set_revision: None,
        delegate: None,
        delegate_role: None,
        locked_transfer: None,
    };
    let bytes = ser_token_record(&r).unwrap();
    let patched = patch_token_record(&bytes, TokenRecordMutation::SetBump(200)).unwrap();
    let r2 = deser_token_record(&patched).unwrap();
    assert_eq!(r2.bump, 200);
    assert_eq!(r2.key, 19);
}
