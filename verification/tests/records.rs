use asset_codec::errors::CodecError;
use asset_codec::ids::Identifier;
use asset_codec::record::deser_ata;
use asset_codec::record::deser_token_record;
use asset_codec::record::ser_ata;
use asset_codec::record::ser_token_record;
use asset_codec::record::AtaRecord;
use asset_codec::record::AtaState;
use asset_codec::record::DelegateRole;
use asset_codec::record::TokenRecord;
use asset_codec::record::TokenState;

fn id_of(b: u8) -> Identifier {
    Identifier::from_bytes(vec![b; 32])
}

#[test]
fn token_record_round_trip_all_present() {
    let r = TokenRecord {
        key: 19,
        bump: 254,
        state: TokenState::Listed,
        rule_set_revision: Some(3),
        delegate: Some(id_of(4)),
        delegate_role: Some(DelegateRole::Staking),
        locked_transfer: Some(id_of(5)),
    };
    let bytes = ser_token_record(&r).unwrap();
    assert_eq!(bytes.len(), 80);
    let r2 = deser_token_record(&bytes).unwrap();
    assert_eq!(r2, r);
}

#[test]
fn token_record_round_trip_all_absent() {
    let r = TokenRecord {
        key: 19,
        bump: 7,
        state: TokenState::Unlocked,
        rule_set_revision: None,
        delegate: None,
        delegate_role: None,
        locked_transfer: None,
    };
    let bytes = ser_token_record(&r).unwrap();
    assert_eq!(bytes.len(), 80);
    let r2 = deser_token_record(&bytes).unwrap();
    assert_eq!(r2, r);
}

#[test]
fn token_record_absent_slots_are_zero_filled() {
    let r = TokenRecord {
        key: 19,
        bump: 255,
        state: TokenState::Locked,
        rule_set_revision: None,
        delegate: None,
        delegate_role: None,
        locked_transfer: None,
    };
    let bytes = ser_token_record(&r).unwrap();
    let mut expected = vec![0u8; 80];
    expected[0] = 19;
    expected[1] = 255;
    expected[2] = 1; // locked
    assert_eq!(bytes, expected);
}

#[test]
fn token_record_exact_layout_with_values() {
    let r = TokenRecord {
        key: 19,
        bump: 1,
        state: TokenState::Unlocked,
        rule_set_revision: Some(2),
        delegate: Some(id_of(9)),
        delegate_role: Some(DelegateRole::LockedTransfer),
        locked_transfer: None,
    };
    let bytes = ser_token_record(&r).unwrap();
    let mut expected: Vec<u8> = vec![19, 1, 0];
    expected.push(1); // revision present
    expected.extend_from_slice(&[2, 0, 0, 0, 0, 0, 0, 0]);
    expected.push(1); // delegate present
    expected.extend_from_slice(&[9; 32]);
    expected.extend_from_slice(&[1, 5]); // role present, locked-transfer role
    expected.push(0); // locked transfer absent
    expected.extend_from_slice(&[0; 32]);
    assert_eq!(bytes, expected);
}

#[test]
fn token_record_truncated() {
    let bytes = vec![0u8; 79];
    assert_eq!(
        deser_token_record(&bytes).unwrap_err(),
        CodecError::TruncatedRecord
    );
}

#[test]
fn token_record_bad_state_byte() {
    let mut bytes = vec![0u8; 80];
    bytes[2] = 3;
    assert_eq!(
        deser_token_record(&bytes).unwrap_err(),
        CodecError::MalformedRecord
    );
}

#[test]
fn token_record_bad_presence_tag() {
    let mut bytes = vec![0u8; 80];
    bytes[12] = 2; // delegate presence tag out of domain
    assert_eq!(
        deser_token_record(&bytes).unwrap_err(),
        CodecError::MalformedRecord
    );
}

#[test]
fn token_record_bad_role_byte() {
    let mut bytes = vec![0u8; 80];
    bytes[45] = 1;
    bytes[46] = 6; // no such role
    assert_eq!(
        deser_token_record(&bytes).unwrap_err(),
        CodecError::MalformedRecord
    );
}

#[test]
fn token_record_trailing_bytes_are_ignored() {
    let r = TokenRecord {
        key: 19,
        bump: 3,
        state: TokenState::Unlocked,
        rule_set_revision: None,
        delegate: None,
        delegate_role: None,
        locked_transfer: None,
    };
    let mut bytes = ser_token_record(&r).unwrap();
    bytes.extend_from_slice(&[0xEE; 13]);
    assert_eq!(deser_token_record(&bytes).unwrap(), r);
}

#[test]
fn ser_token_record_rejects_wrong_width_delegate() {
    let r = TokenRecord {
        key: 19,
        bump: 0,
        state: TokenState::Unlocked,
        rule_set_revision: None,
        delegate: Some(Identifier::from_bytes(vec![1; 31])),
        delegate_role: None,
        locked_transfer: None,
    };
    assert_eq!(ser_token_record(&r).unwrap_err(), CodecError::FieldTooWide);
}

#[test]
fn ata_round_trip_all_present() {
    let r = AtaRecord {
        mint: id_of(1),
        owner: id_of(2),
        amount: 1_000_000,
        delegate: Some(id_of(3)),
        state: AtaState::Frozen,
        is_native: Some(42),
        delegated_amount: 55,
        close_authority: Some(id_of(4)),
    };
    let bytes = ser_ata(&r).unwrap();
    assert_eq!(bytes.len(), 165);
    let r2 = deser_ata(&bytes).unwrap();
    assert_eq!(r2, r);
}

#[test]
fn ata_exact_layout() {
    let r = AtaRecord {
        mint: id_of(1),
        owner: id_of(2),
        amount: 258,
        delegate: Some(id_of(3)),
        state: AtaState::Initialized,
        is_native: None,
        delegated_amount: 0,
        close_authority: None,
    };
    let bytes = ser_ata(&r).unwrap();
    let mut expected: Vec<u8> = Vec::new();
    expected.extend_from_slice(&[1; 32]);
    expected.extend_from_slice(&[2; 32]);
    expected.extend_from_slice(&[2, 1, 0, 0, 0, 0, 0, 0]); // 258 little endian
    expected.extend_from_slice(&[1, 0, 0, 0]); // delegate present
    expected.extend_from_slice(&[3; 32]);
    expected.push(1); // initialized
    expected.extend_from_slice(&[0; 12]); // absent native slot
    expected.extend_from_slice(&[0; 8]); // delegated amount
    expected.extend_from_slice(&[0; 36]); // absent close authority slot
    assert_eq!(bytes, expected);
}

#[test]
fn ata_truncated() {
    let bytes = vec![0u8; 164];
    assert_eq!(deser_ata(&bytes).unwrap_err(), CodecError::TruncatedRecord);
}

#[test]
fn ata_bad_presence_tag() {
    let mut bytes = vec![0u8; 165];
    bytes[72] = 1;
    bytes[73] = 1; // tag bytes beyond the first must be zero
    assert_eq!(deser_ata(&bytes).unwrap_err(), CodecError::MalformedRecord);
}

#[test]
fn ata_bad_state_byte() {
    let mut bytes = vec![0u8; 165];
    bytes[108] = 3;
    assert_eq!(deser_ata(&bytes).unwrap_err(), CodecError::MalformedRecord);
}
