//! The account store boundary.
//!
//! The store itself is a remote collaborator reached over a transport the
//! library does not model. This module holds the shapes that cross that
//! boundary and the verified decision logic of each operation: given what
//! the store returned, produce either the exact write to send back or the
//! error that aborts the operation. The caller performs the fetch and the
//! write and hands the values across as they are.

use vstd::prelude::*;

use crate::errors::CodecError;
use crate::ids::Identifier;
use crate::patch::patch_header_field;
use crate::patch::release_token_record;
use crate::patch::spec_patch_header;
use crate::patch::spec_release_token_record;
use crate::patch::spec_transfer_ata;
use crate::patch::transfer_ata;
use crate::patch::HeaderMutation;
use crate::record::dec_ata_record;
use crate::record::dec_token_record;
use crate::record::deser_ata;
use crate::record::deser_token_record;
use crate::record::enc_ata_record;
use crate::record::enc_token_record;
use crate::record::ser_ata;
use crate::record::ser_token_record;
use crate::record::wf_ata_record;
use crate::transport::b64_decoded;
use crate::transport::b64_to_bytes;
use crate::transport::bytes_to_hex;
use crate::transport::hex_of;

verus! {

/// An error message of the store's wire protocol.
#[derive(Debug, Clone, PartialEq, Eq)]
pub struct RpcError {
    pub code: i32,
    pub message: String,
}

/// What the store returns for an existing account.
#[derive(Debug, Clone, PartialEq, Eq)]
pub struct GetAccountInfoResponse {
    pub lamports: u64,
    /// The account bytes and their encoding, usually `[data, "base64"]`.
    pub data: Vec<String>,
    pub owner: String,
    pub executable: bool,
    pub rent_epoch: u64,
    pub space: u64,
}

/// What the store accepts on its write path. The `data` text is
/// hex-encoded, unlike the base64 of the read path.
#[derive(Debug, Clone, PartialEq, Eq)]
pub struct SetAccountInfo {
    pub data: Option<String>,
    pub executable: bool,
    pub lamports: u64,
    pub owner: String,
    pub rent_epoch: u64,
}

/// The write that releases an account back to the system: no data, no
/// funds, owned by the system program.
pub fn close_account_info() -> (r: SetAccountInfo)
    ensures
        r.data is Some,
        r.data.unwrap()@ == ""@,
        r.executable == false,
        r.lamports == 0,
        r.owner@ == "11111111111111111111111111111111"@,
        r.rent_epoch == 0,
{
    proof {
        reveal_strlit("");
        assert(""@ =~= Seq::<char>::empty());
    }
    SetAccountInfo {
        data: Some(String::new()),
        executable: false,
        lamports: 0,
        owner: "11111111111111111111111111111111".to_owned(),
        rent_epoch: 0,
    }
}

/// Patches one header field of a fetched account and prepares the exact
/// write to send back: the patched bytes hex-encoded, every other account
/// property passed through unchanged.
///
/// An absent account is the distinguishable `RecordAbsent` outcome; no
/// decode is ever attempted for it. A response with no data entry, or with
/// text that is not valid base64, is `StoreUnavailable`. Everything else
/// follows the patch pipeline's own contract.
pub fn prepare_header_patch(resp: Option<GetAccountInfoResponse>, m: HeaderMutation) -> (r: Result<
    SetAccountInfo,
    CodecError,
>)
    ensures
        resp is None ==> r == Err::<SetAccountInfo, CodecError>(CodecError::RecordAbsent),
        resp is Some ==> {
            let rs = resp.unwrap();
            if rs.data@.len() == 0 {
                r == Err::<SetAccountInfo, CodecError>(CodecError::StoreUnavailable)
            } else {
                match b64_decoded(rs.data@[0]@) {
                    Option::None => r == Err::<SetAccountInfo, CodecError>(
                        CodecError::StoreUnavailable,
                    ),
                    Option::Some(bytes) => match spec_patch_header(bytes, m@) {
                        Result::Err(e) => r == Err::<SetAccountInfo, CodecError>(e),
                        Result::Ok(patched) => {
                            &&& r is Ok
                            &&& r.unwrap().data is Some
                            &&& r.unwrap().data.unwrap()@ == hex_of(patched)
                            &&& r.unwrap().executable == rs.executable
                            &&& r.unwrap().lamports == rs.lamports
                            &&& r.unwrap().owner@ == rs.owner@
                            &&& r.unwrap().rent_epoch == rs.rent_epoch
                        },
                    },
                }
            }
        },
{
    let rs = match resp {
        Option::Some(v) => v,
        Option::None => {
            return Err(CodecError::RecordAbsent);
        },
    };
    if rs.data.len() == 0 {
        return Err(CodecError::StoreUnavailable);
    }
    let bytes = match b64_to_bytes(rs.data[0].as_str()) {
        Ok(v) => v,
        Err(e) => {
            return Err(e);
        },
    };
    let patched = match patch_header_field(&bytes, m) {
        Ok(v) => v,
        Err(e) => {
            return Err(e);
        },
    };
    let hex_text = match bytes_to_hex(&patched) {
        Ok(v) => v,
        Err(e) => {
            return Err(e);
        },
    };
    Ok(
        SetAccountInfo {
            data: Some(hex_text),
            executable: rs.executable,
            lamports: rs.lamports,
            owner: rs.owner,
            rent_epoch: rs.rent_epoch,
        },
    )
}

/// The transfer pipeline of an associated token account record at the spec
/// level: decode, hand to the new owner, clear the delegate, re-encode.
pub open spec fn spec_ata_transfer_bytes(bytes: Seq<u8>, new_owner: Seq<u8>) -> Result<
    Seq<u8>,
    CodecError,
> {
    if bytes.len() < 165 {
        Err(CodecError::TruncatedRecord)
    } else {
        match dec_ata_record(bytes) {
            Option::None => Err(CodecError::MalformedRecord),
            Option::Some(rec) => {
                let r2 = spec_transfer_ata(rec, new_owner);
                if !wf_ata_record(r2) {
                    Err(CodecError::FieldTooWide)
                } else {
                    Ok(enc_ata_record(r2))
                }
            },
        }
    }
}

/// Rewrites a fetched associated token account record for its new owner:
/// the owner field is replaced, the delegate cleared, everything else kept,
/// and the write prepared exactly as `prepare_header_patch` does.
pub fn prepare_ata_transfer(
    resp: Option<GetAccountInfoResponse>,
    new_owner: Identifier,
) -> (r: Result<SetAccountInfo, CodecError>)
    ensures
        resp is None ==> r == Err::<SetAccountInfo, CodecError>(CodecError::RecordAbsent),
        resp is Some ==> {
            let rs = resp.unwrap();
            if rs.data@.len() == 0 {
                r == Err::<SetAccountInfo, CodecError>(CodecError::StoreUnavailable)
            } else {
                match b64_decoded(rs.data@[0]@) {
                    Option::None => r == Err::<SetAccountInfo, CodecError>(
                        CodecError::StoreUnavailable,
                    ),
                    Option::Some(bytes) => match spec_ata_transfer_bytes(bytes, new_owner@) {
                        Result::Err(e) => r == Err::<SetAccountInfo, CodecError>(e),
                        Result::Ok(out) => {
                            &&& r is Ok
                            &&& r.unwrap().data is Some
                            &&& r.unwrap().data.unwrap()@ == hex_of(out)
                            &&& r.unwrap().executable == rs.executable
                            &&& r.unwrap().lamports == rs.lamports
                            &&& r.unwrap().owner@ == rs.owner@
                            &&& r.unwrap().rent_epoch == rs.rent_epoch
                        },
                    },
                }
            }
        },
{
    let rs = match resp {
        Option::Some(v) => v,
        Option::None => {
            return Err(CodecError::RecordAbsent);
        },
    };
    if rs.data.len() == 0 {
        return Err(CodecError::StoreUnavailable);
    }
    let bytes = match b64_to_bytes(rs.data[0].as_str()) {
        Ok(v) => v,
        Err(e) => {
            return Err(e);
        },
    };
    let rec = match deser_ata(&bytes) {
        Ok(v) => v,
        Err(e) => {
            return Err(e);
        },
    };
    let rec2 = transfer_ata(rec, new_owner);
    let out = match ser_ata(&rec2) {
        Ok(v) => v,
        Err(e) => {
            return Err(e);
        },
    };
    let hex_text = match bytes_to_hex(&out) {
        Ok(v) => v,
        Err(e) => {
            return Err(e);
        },
    };
    Ok(
        SetAccountInfo {
            data: Some(hex_text),
            executable: rs.executable,
            lamports: rs.lamports,
            owner: rs.owner,
            rent_epoch: rs.rent_epoch,
        },
    )
}

/// The release pipeline of a token record at the spec level: decode,
/// unlock, clear every delegation field, replace the bump, re-encode. The
/// released record is always well formed, so encoding cannot fail.
pub open spec fn spec_token_record_release_bytes(bytes: Seq<u8>, bump: u8) -> Result<
    Seq<u8>,
    CodecError,
> {
    if bytes.len() < 80 {
        Err(CodecError::TruncatedRecord)
    } else {
        match dec_token_record(bytes) {
            Option::None => Err(CodecError::MalformedRecord),
            Option::Some(rec) => Ok(enc_token_record(spec_release_token_record(rec, bump))),
        }
    }
}

/// Rewrites a fetched token record as fully released: unlocked, re-bumped,
/// with no delegation left, and the write prepared exactly as
/// `prepare_header_patch` does.
pub fn prepare_token_record_release(resp: Option<GetAccountInfoResponse>, bump: u8) -> (r: Result<
    SetAccountInfo,
    CodecError,
>)
    ensures
        resp is None ==> r == Err::<SetAccountInfo, CodecError>(CodecError::RecordAbsent),
        resp is Some ==> {
            let rs = resp.unwrap();
            if rs.data@.len() == 0 {
                r == Err::<SetAccountInfo, CodecError>(CodecError::StoreUnavailable)
            } else {
                match b64_decoded(rs.data@[0]@) {
                    Option::None => r == Err::<SetAccountInfo, CodecError>(
                        CodecError::StoreUnavailable,
                    ),
                    Option::Some(bytes) => match spec_token_record_release_bytes(bytes, bump) {
                        Result::Err(e) => r == Err::<SetAccountInfo, CodecError>(e),
                        Result::Ok(out) => {
                            &&& r is Ok
                            &&& r.unwrap().data is Some
                            &&& r.unwrap().data.unwrap()@ == hex_of(out)
                            &&& r.unwrap().executable == rs.executable
                            &&& r.unwrap().lamports == rs.lamports
                            &&& r.unwrap().owner@ == rs.owner@
                            &&& r.unwrap().rent_epoch == rs.rent_epoch
                        },
                    },
                }
            }
        },
{
    let rs = match resp {
        Option::Some(v) => v,
        Option::None => {
            return Err(CodecError::RecordAbsent);
        },
    };
    if rs.data.len() == 0 {
        return Err(CodecError::StoreUnavailable);
    }
    let bytes = match b64_to_bytes(rs.data[0].as_str()) {
        Ok(v) => v,
        Err(e) => {
            return Err(e);
        },
    };
    let rec = match deser_token_record(&bytes) {
        Ok(v) => v,
        Err(e) => {
            return Err(e);
        },
    };
    let rec2 = release_token_record(rec, bump);
    let out = match ser_token_record(&rec2) {
        Ok(v) => v,
        Err(e) => {
            return Err(e);
        },
    };
    let hex_text = match bytes_to_hex(&out) {
        Ok(v) => v,
        Err(e) => {
            return Err(e);
        },
    };
    Ok(
        SetAccountInfo {
            data: Some(hex_text),
            executable: rs.executable,
            lamports: rs.lamports,
            owner: rs.owner,
            rent_epoch: rs.rent_epoch,
        },
    )
}

} // verus!
