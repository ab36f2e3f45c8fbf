use base64::Engine;

use asset_codec::errors::CodecError;
use asset_codec::header::deser_asset_header;
use asset_codec::header::ser_asset_header;
use asset_codec::header::AssetHeader;
use asset_codec::header::UpdateAuthority;
use asset_codec::ids::Identifier;
use asset_codec::patch::HeaderMutation;
use asset_codec::record::deser_token_record;
use asset_codec::record::ser_ata;
use asset_codec::record::ser_token_record;
use asset_codec::record::AtaRecord;
use asset_codec::record::AtaState;
use asset_codec::record::DelegateRole;
use asset_codec::record::TokenRecord;
use asset_codec::record::TokenState;
use asset_codec::store::close_account_info;
use asset_codec::store::prepare_ata_transfer;
use asset_codec::store::prepare_header_patch;
use asset_codec::store::prepare_token_record_release;
use asset_codec::store::GetAccountInfoResponse;
use asset_codec::transport::b64_to_bytes;
use asset_codec::transport::bytes_to_hex;
use asset_codec::transport::check_key_valid;
use asset_codec::transport::key_from_str;

fn id_of(b: u8) -> Identifier {
    Identifier::from_bytes(vec![b; 32])
}

fn response_with(bytes: &[u8]) -> GetAccountInfoResponse {
    GetAccountInfoResponse {
        lamports: 1_461_600,
        data: vec![
            base64::engine::general_purpose::STANDARD.encode(bytes),
            "base64".to_string(),
        ],
        owner: "CoREENxT6tW1HoK8ypY1SxRMZTcVPm7R94rH4PZNhX7d".to_string(),
        executable: false,
        rent_epoch: 361,
        space: bytes.len() as u64,
    }
}

#[test]
fn b64_to_bytes_decodes() {
    assert_eq!(b64_to_bytes("AQID").unwrap(), vec![1, 2, 3]);
}

#[test]
fn b64_to_bytes_rejects_bad_text() {
    assert_eq!(
        b64_to_bytes("!not base64!").unwrap_err(),
        CodecError::StoreUnavailable
    );
}

#[test]
fn bytes_to_hex_encodes_lowercase_pairs() {
    assert_eq!(bytes_to_hex(&vec![0x01, 0xFE, 0x00]).unwrap(), "01fe00");
}

#[test]
fn key_parsing_round_trip() {
    // The all-ones text is the base58 form of 32 zero bytes.
    let id = key_from_str("11111111111111111111111111111111").unwrap();
    assert_eq!(id, Identifier::from_bytes(vec![0; 32]));
    assert!(check_key_valid("11111111111111111111111111111111").is_ok());
}

#[test]
fn key_parsing_rejects_bad_text() {
    assert_eq!(
        check_key_valid("not a key!").unwrap_err(),
        CodecError::InvalidKey
    );
    assert_eq!(key_from_str("").unwrap_err(), CodecError::InvalidKey);
}

#[test]
fn absent_account_is_record_absent() {
    // A missing record is a distinguishable outcome; nothing is decoded.
    assert_eq!(
        prepare_header_patch(None, HeaderMutation::SetOwner(id_of(1))).unwrap_err(),
        CodecError::RecordAbsent
    );
    assert_eq!(
        prepare_ata_transfer(None, id_of(1)).unwrap_err(),
        CodecError::RecordAbsent
    );
    assert_eq!(
        prepare_token_record_release(None, 3).unwrap_err(),
        CodecError::RecordAbsent
    );
}

#[test]
fn response_without_data_is_store_unavailable() {
    let mut resp = response_with(&[1, 2, 3]);
    resp.data.clear();
    assert_eq!(
        prepare_header_patch(Some(resp), HeaderMutation::SetOwner(id_of(1))).unwrap_err(),
        CodecError::StoreUnavailable
    );
}

#[test]
fn response_with_bad_base64_is_store_unavailable() {
    let mut resp = response_with(&[1, 2, 3]);
    resp.data[0] = "???".to_string();
    assert_eq!(
        prepare_header_patch(Some(resp), HeaderMutation::SetOwner(id_of(1))).unwrap_err(),
        CodecError::StoreUnavailable
    );
}

#[test]
fn prepare_header_patch_full_flow() {
    let h = AssetHeader {
        owner: id_of(7),
        update_authority: UpdateAuthority::Address(id_of(9)),
        name: b"Asset".to_vec(),
        uri: b"uri".to_vec(),
        seq_num: None,
    };
    let mut bytes = ser_asset_header(&h).unwrap();
    let hlen = bytes.len();
    bytes.extend_from_slice(&[0xAB; 16]); // extension the codec must keep
    let resp = response_with(&bytes);
    let write = prepare_header_patch(Some(resp), HeaderMutation::SetOwner(id_of(0x42))).unwrap();
    assert_eq!(write.lamports, 1_461_600);
    assert_eq!(write.executable, false);
    assert_eq!(write.rent_epoch, 361);
    assert_eq!(
        write.owner,
        "CoREENxT6tW1HoK8ypY1SxRMZTcVPm7R94rH4PZNhX7d".to_string()
    );
    let sent = hex::decode(write.data.unwrap()).unwrap();
    assert_eq!(sent.len(), bytes.len());
    assert_eq!(&sent[hlen..], &bytes[hlen..]);
    let (h2, _) = deser_asset_header(&sent).unwrap();
    assert_eq!(h2.owner, id_of(0x42));
    assert_eq!(h2.name, b"Asset".to_vec());
}

#[test]
fn prepare_ata_transfer_full_flow() {
    let r = AtaRecord {
        mint: id_of(1),
        owner: id_of(2),
        amount: 1,
        delegate: Some(id_of(3)),
        state: AtaState::Frozen,
        is_native: None,
        delegated_amount: 0,
        close_authority: None,
    };
    let bytes = ser_ata(&r).unwrap();
    let resp = response_with(&bytes);
    let write = prepare_ata_transfer(Some(resp), id_of(0x66)).unwrap();
    let sent = hex::decode(write.data.unwrap()).unwrap();
    assert_eq!(sent.len(), 165);
    // New owner in place, delegate cleared, everything else kept.
    let expected = AtaRecord {
        owner: id_of(0x66),
        delegate: None,
        ..r
    };
    assert_eq!(sent, ser_ata(&expected).unwrap());
    // The record stays frozen: the transfer touches owner and delegate only.
    assert_eq!(sent[108], 2);
}

#[test]
fn prepare_token_record_release_full_flow() {
    let r = TokenRecord {
        key: 19,
        bump: 5,
        state: TokenState::Locked,
        rule_set_revision: Some(1),
        delegate: Some(id_of(3)),
        delegate_role: Some(DelegateRole::Transfer),
        locked_transfer: Some(id_of(4)),
    };
    let bytes = ser_token_record(&r).unwrap();
    let resp = response_with(&bytes);
    let write = prepare_token_record_release(Some(resp), 250).unwrap();
    let sent = hex::decode(write.data.unwrap()).unwrap();
    assert_eq!(sent.len(), 80);
    let rec = deser_token_record(&sent).unwrap();
    assert_eq!(rec.key, 19);
    assert_eq!(rec.bump, 250);
    assert_eq!(rec.state, TokenState::Unlocked);
    assert_eq!(rec.rule_set_revision, None);
    assert_eq!(rec.delegate, None);
    assert_eq!(rec.delegate_role, None);
    assert_eq!(rec.locked_transfer, None);
    // Every slot past the first three bytes is zero-filled.
    assert!(sent[3..].iter().all(|b| *b == 0));
}

#[test]
fn close_account_info_shape() {
    let w = close_account_info();
    assert_eq!(w.data, Some(String::new()));
    assert_eq!(w.executable, false);
    assert_eq!(w.lamports, 0);
    assert_eq!(w.owner, "11111111111111111111111111111111".to_string());
    assert_eq!(w.rent_epoch, 0);
}
