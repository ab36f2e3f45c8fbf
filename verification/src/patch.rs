//! In-place patch engine.
//!
//! A patch decodes a buffer, applies a narrow mutation to fixed-width
//! scalar fields only, re-encodes, and splices the new header over the old
//! header region. The length-equality gate is a hard invariant: if the
//! re-encoded header does not have exactly the length the decoder reported,
//! the patch is refused, because splicing would silently corrupt every
//! offset recorded in the extension region.

use vstd::prelude::*;

use crate::errors::CodecError;
use crate::header::dec_asset_header;
use crate::header::dec_collection_header;
use crate::header::deser_asset_header;
use crate::header::deser_collection_header;
use crate::header::enc_asset_header;
use crate::header::enc_collection_header;
use crate::header::ser_asset_header;
use crate::header::ser_collection_header;
use crate::header::wf_asset_header;
use crate::header::wf_collection_header;
use crate::header::AssetHeader;
use crate::header::AssetHeaderV;
use crate::header::CollectionHeader;
use crate::header::CollectionHeaderV;
use crate::header::UpdateAuthority;
use crate::header::UpdateAuthorityV;
use crate::header::ASSET_TAG;
use crate::header::COLLECTION_TAG;
use crate::ids::view_opt_id;
use crate::ids::Identifier;
use crate::primitives::push_bytes;
use crate::primitives::read_bytes;
use crate::record::dec_ata_record;
use crate::record::dec_token_record;
use crate::record::deser_ata;
use crate::record::deser_token_record;
use crate::record::enc_ata_record;
use crate::record::enc_token_record;
use crate::record::ser_ata;
use crate::record::ser_token_record;
use crate::record::wf_ata_record;
use crate::record::wf_token_record;
use crate::record::AtaRecord;
use crate::record::AtaRecordV;
use crate::record::AtaState;
use crate::record::DelegateRole;
use crate::record::TokenRecord;
use crate::record::TokenRecordV;
use crate::record::TokenState;

verus! {

/// A decoded header of either supported kind.
#[derive(Debug, Clone, PartialEq, Eq)]
pub enum Header {
    Asset(AssetHeader),
    Collection(CollectionHeader),
}

/// Mathematical view of a header.
pub ghost enum HeaderV {
    Asset(AssetHeaderV),
    Collection(CollectionHeaderV),
}

impl View for Header {
    type V = HeaderV;

    open spec fn view(&self) -> HeaderV {
        match self {
            Header::Asset(h) => HeaderV::Asset(h@),
            Header::Collection(h) => HeaderV::Collection(h@),
        }
    }
}

pub open spec fn wf_header(h: HeaderV) -> bool {
    match h {
        HeaderV::Asset(a) => wf_asset_header(a),
        HeaderV::Collection(c) => wf_collection_header(c),
    }
}

pub open spec fn enc_header(h: HeaderV) -> Seq<u8> {
    match h {
        HeaderV::Asset(a) => enc_asset_header(a),
        HeaderV::Collection(c) => enc_collection_header(c),
    }
}

/// Decodes a header of either kind, keyed on the discriminant tag.
pub open spec fn dec_header(buf: Seq<u8>) -> Option<(HeaderV, int)> {
    match dec_asset_header(buf) {
        Option::Some((h, n)) => Some((HeaderV::Asset(h), n)),
        Option::None => match dec_collection_header(buf) {
            Option::Some((h, n)) => Some((HeaderV::Collection(h), n)),
            Option::None => None,
        },
    }
}

/// Round trip: decoding an encoded header of either kind gives back the
/// header and reports exactly the encoding's length as the header length.
pub proof fn lemma_header_round_trip(h: HeaderV)
    requires
        wf_header(h),
    ensures
        dec_header(enc_header(h)) == Some((h, enc_header(h).len() as int)),
{
    match h {
        HeaderV::Asset(a) => {
            crate::header::lemma_asset_header_round_trip(a);
        },
        HeaderV::Collection(c) => {
            crate::header::lemma_collection_header_round_trip(c);
            let e = enc_collection_header(c);
            assert(e[0] == COLLECTION_TAG);
            assert(dec_asset_header(e) is None);
        },
    }
}

/// A requested header mutation. Only the fixed-width scalar targets are
/// supported; name and uri are variable-width, and patching them would
/// desynchronize every offset in the extension region.
#[derive(Debug, Clone, PartialEq, Eq)]
pub enum HeaderMutation {
    /// Replace the owner of an asset.
    SetOwner(Identifier),
    /// Replace the update authority: the plain address of a collection, or
    /// the address variant of an asset's authority.
    SetAuthority(Identifier),
    /// Replace the name (refused: variable width).
    SetName(Vec<u8>),
    /// Replace the uri (refused: variable width).
    SetUri(Vec<u8>),
}

/// Mathematical view of a header mutation.
pub ghost enum HeaderMutationV {
    SetOwner(Seq<u8>),
    SetAuthority(Seq<u8>),
    SetName(Seq<u8>),
    SetUri(Seq<u8>),
}

impl View for HeaderMutation {
    type V = HeaderMutationV;

    open spec fn view(&self) -> HeaderMutationV {
        match self {
            HeaderMutation::SetOwner(id) => HeaderMutationV::SetOwner(id@),
            HeaderMutation::SetAuthority(id) => HeaderMutationV::SetAuthority(id@),
            HeaderMutation::SetName(s) => HeaderMutationV::SetName(s@),
            HeaderMutation::SetUri(s) => HeaderMutationV::SetUri(s@),
        }
    }
}

/// Applies a mutation to a header; `None` when the mutation targets a
/// variable-width field or a field the header's kind does not have.
pub open spec fn apply_header_mutation(h: HeaderV, m: HeaderMutationV) -> Option<HeaderV> {
    match m {
        HeaderMutationV::SetOwner(id) => match h {
            HeaderV::Asset(a) => Some(
                HeaderV::Asset(
                    AssetHeaderV {
                        owner: id,
                        update_authority: a.update_authority,
                        name: a.name,
                        uri: a.uri,
                        seq_num: a.seq_num,
                    },
                ),
            ),
            HeaderV::Collection(_) => None,
        },
        HeaderMutationV::SetAuthority(id) => match h {
            HeaderV::Asset(a) => Some(
                HeaderV::Asset(
                    AssetHeaderV {
                        owner: a.owner,
                        update_authority: UpdateAuthorityV::Address(id),
                        name: a.name,
                        uri: a.uri,
                        seq_num: a.seq_num,
                    },
                ),
            ),
            HeaderV::Collection(c) => Some(
                HeaderV::Collection(
                    CollectionHeaderV {
                        update_authority: id,
                        name: c.name,
                        uri: c.uri,
                        num_minted: c.num_minted,
                        current_size: c.current_size,
                    },
                ),
            ),
        },
        HeaderMutationV::SetName(_) => None,
        HeaderMutationV::SetUri(_) => None,
    }
}

/// The whole patch pipeline at the spec level: decode, mutate, re-encode,
/// gate on the header length, splice over the header region.
pub open spec fn spec_patch_header(buf: Seq<u8>, m: HeaderMutationV) -> Result<Seq<u8>, CodecError> {
    match dec_header(buf) {
        Option::None => Err(CodecError::MalformedHeader),
        Option::Some((h, hlen)) => match apply_header_mutation(h, m) {
            Option::None => Err(CodecError::UnsupportedMutation),
            Option::Some(h2) => if !wf_header(h2) {
                Err(CodecError::FieldTooWide)
            } else if enc_header(h2).len() != hlen {
                Err(CodecError::LengthMismatch)
            } else {
                Ok(enc_header(h2) + buf.skip(hlen))
            },
        },
    }
}

/// Patches one fixed-width scalar field of the header of `buf`, leaving the
/// extension region byte-for-byte untouched.
///
/// Succeeds exactly when the header decodes, the mutation targets a
/// fixed-width field of that header's kind, the new value fits its slot,
/// and re-encoding reproduces exactly the decoded header length.
pub fn patch_header_field(buf: &Vec<u8>, m: HeaderMutation) -> (r: Result<Vec<u8>, CodecError>)
    ensures
        r is Ok <==> spec_patch_header(buf@, m@) is Ok,
        r is Ok ==> r.unwrap()@ == spec_patch_header(buf@, m@).unwrap(),
        spec_patch_header(buf@, m@) is Err ==> r == Err::<Vec<u8>, CodecError>(
            spec_patch_header(buf@, m@)->Err_0,
        ),
        r is Ok ==> r.unwrap()@.len() == buf@.len(),
        r is Ok ==> {
            let hlen = dec_header(buf@).unwrap().1;
            &&& r.unwrap()@.skip(hlen) == buf@.skip(hlen)
            &&& r.unwrap()@.subrange(0, hlen) == enc_header(
                apply_header_mutation(dec_header(buf@).unwrap().0, m@).unwrap(),
            )
        },
{
    let n = buf.len();
    if n >= 1 && buf[0] == ASSET_TAG {
        let (h, hlen) = match deser_asset_header(buf) {
            Ok(v) => v,
            Err(e) => {
                return Err(e);
            },
        };
        let h2 = match m {
            HeaderMutation::SetOwner(id) => AssetHeader {
                owner: id,
                update_authority: h.update_authority,
                name: h.name,
                uri: h.uri,
                seq_num: h.seq_num,
            },
            HeaderMutation::SetAuthority(id) => AssetHeader {
                owner: h.owner,
                update_authority: UpdateAuthority::Address(id),
                name: h.name,
                uri: h.uri,
                seq_num: h.seq_num,
            },
            HeaderMutation::SetName(_) => {
                return Err(CodecError::UnsupportedMutation);
            },
            HeaderMutation::SetUri(_) => {
                return Err(CodecError::UnsupportedMutation);
            },
        };
        let enc = match ser_asset_header(&h2) {
            Ok(e) => e,
            Err(e) => {
                return Err(e);
            },
        };
        if enc.len() != hlen {
            return Err(CodecError::LengthMismatch);
        }
        let ghost hl = hlen as int;
        let tail = read_bytes(buf, hlen, n - hlen);
        let out = push_bytes(enc, &tail);
        proof {
            assert(out@.skip(hl) =~= buf@.skip(hl));
            assert(out@.subrange(0, hl) =~= enc_asset_header(h2@));
        }
        Ok(out)
    } else if n >= 1 && buf[0] == COLLECTION_TAG {
        let (h, hlen) = match deser_collection_header(buf) {
            Ok(v) => v,
            Err(e) => {
                return Err(e);
            },
        };
        let h2 = match m {
            HeaderMutation::SetAuthority(id) => CollectionHeader {
                update_authority: id,
                name: h.name,
                uri: h.uri,
                num_minted: h.num_minted,
                current_size: h.current_size,
            },
            HeaderMutation::SetOwner(_) => {
                return Err(CodecError::UnsupportedMutation);
            },
            HeaderMutation::SetName(_) => {
                return Err(CodecError::UnsupportedMutation);
            },
            HeaderMutation::SetUri(_) => {
                return Err(CodecError::UnsupportedMutation);
            },
        };
        let enc = match ser_collection_header(&h2) {
            Ok(e) => e,
            Err(e) => {
                return Err(e);
            },
        };
        if enc.len() != hlen {
            return Err(CodecError::LengthMismatch);
        }
        let ghost hl = hlen as int;
        let tail = read_bytes(buf, hlen, n - hlen);
        let out = push_bytes(enc, &tail);
        proof {
            assert(out@.skip(hl) =~= buf@.skip(hl));
            assert(out@.subrange(0, hl) =~= enc_collection_header(h2@));
        }
        Ok(out)
    } else {
        return Err(CodecError::MalformedHeader);
    }
}

/// Patch preserves length: whenever a header patch succeeds, the patched
/// buffer has exactly the length of the original.
pub proof fn lemma_patch_preserves_length(buf: Seq<u8>, m: HeaderMutationV)
    requires
        spec_patch_header(buf, m) is Ok,
    ensures
        spec_patch_header(buf, m).unwrap().len() == buf.len(),
{
    let (h, hlen) = dec_header(buf).unwrap();
    lemma_dec_header_len_bounds(buf);
}

/// Patch preserves the extension region: whenever a header patch succeeds,
/// every byte from the decoded header length on is unchanged.
pub proof fn lemma_patch_preserves_extension(buf: Seq<u8>, m: HeaderMutationV)
    requires
        spec_patch_header(buf, m) is Ok,
    ensures
        spec_patch_header(buf, m).unwrap().skip(dec_header(buf).unwrap().1) == buf.skip(
            dec_header(buf).unwrap().1,
        ),
{
    let (h, hlen) = dec_header(buf).unwrap();
    lemma_dec_header_len_bounds(buf);
    let h2 = apply_header_mutation(h, m).unwrap();
    let out = spec_patch_header(buf, m).unwrap();
    assert(out.skip(hlen) =~= buf.skip(hlen));
}

/// The header length a successful decode reports never exceeds the buffer
/// length, and is never negative.
pub proof fn lemma_dec_header_len_bounds(buf: Seq<u8>)
    requires
        dec_header(buf) is Some,
    ensures
        0 <= dec_header(buf).unwrap().1 <= buf.len(),
{
}

// ---------------------------------------------------------------------------
// Fixed-record patches. All fields of a fixed record are fixed-width, so no
// length-mismatch case exists and no splice is needed: the whole new record
// is returned at its fixed width.
// ---------------------------------------------------------------------------
/// A mutation of one token record field.
#[derive(Debug, Clone, PartialEq, Eq)]
pub enum TokenRecordMutation {
    SetState(TokenState),
    SetBump(u8),
    SetRuleSetRevision(Option<u64>),
    SetDelegate(Option<Identifier>),
    SetDelegateRole(Option<DelegateRole>),
    SetLockedTransfer(Option<Identifier>),
}

/// Mathematical view of a token record mutation.
pub ghost enum TokenRecordMutationV {
    SetState(TokenState),
    SetBump(u8),
    SetRuleSetRevision(Option<u64>),
    SetDelegate(Option<Seq<u8>>),
    SetDelegateRole(Option<DelegateRole>),
    SetLockedTransfer(Option<Seq<u8>>),
}

impl View for TokenRecordMutation {
    type V = TokenRecordMutationV;

    open spec fn view(&self) -> TokenRecordMutationV {
        match self {
            TokenRecordMutation::SetState(s) => TokenRecordMutationV::SetState(*s),
            TokenRecordMutation::SetBump(b) => TokenRecordMutationV::SetBump(*b),
            TokenRecordMutation::SetRuleSetRevision(o) => TokenRecordMutationV::SetRuleSetRevision(
                *o,
            ),
            TokenRecordMutation::SetDelegate(o) => TokenRecordMutationV::SetDelegate(
                view_opt_id(*o),
            ),
            TokenRecordMutation::SetDelegateRole(o) => TokenRecordMutationV::SetDelegateRole(*o),
            TokenRecordMutation::SetLockedTransfer(o) => TokenRecordMutationV::SetLockedTransfer(
                view_opt_id(*o),
            ),
        }
    }
}

/// Applies a token record mutation; every field is fixed-width, so every
/// mutation is supported.
pub open spec fn apply_token_record_mutation(
    r: TokenRecordV,
    m: TokenRecordMutationV,
) -> TokenRecordV {
    match m {
        TokenRecordMutationV::SetState(s) => TokenRecordV { state: s, ..r },
        TokenRecordMutationV::SetBump(b) => TokenRecordV { bump: b, ..r },
        TokenRecordMutationV::SetRuleSetRevision(o) => TokenRecordV { rule_set_revision: o, ..r },
        TokenRecordMutationV::SetDelegate(o) => TokenRecordV { delegate: o, ..r },
        TokenRecordMutationV::SetDelegateRole(o) => TokenRecordV { delegate_role: o, ..r },
        TokenRecordMutationV::SetLockedTransfer(o) => TokenRecordV { locked_transfer: o, ..r },
    }
}

/// The fixed-record patch pipeline for token records at the spec level.
pub open spec fn spec_patch_token_record(buf: Seq<u8>, m: TokenRecordMutationV) -> Result<
    Seq<u8>,
    CodecError,
> {
    if buf.len() < 80 {
        Err(CodecError::TruncatedRecord)
    } else {
        match dec_token_record(buf) {
            Option::None => Err(CodecError::MalformedRecord),
            Option::Some(r) => {
                let r2 = apply_token_record_mutation(r, m);
                if !wf_token_record(r2) {
                    Err(CodecError::FieldTooWide)
                } else {
                    Ok(enc_token_record(r2))
                }
            },
        }
    }
}

/// Patches one field of a token record and returns the whole re-encoded
/// record at its fixed width.
pub fn patch_token_record(buf: &Vec<u8>, m: TokenRecordMutation) -> (r: Result<Vec<u8>, CodecError>)
    ensures
        r is Ok <==> spec_patch_token_record(buf@, m@) is Ok,
        r is Ok ==> r.unwrap()@ == spec_patch_token_record(buf@, m@).unwrap(),
        spec_patch_token_record(buf@, m@) is Err ==> r == Err::<Vec<u8>, CodecError>(
            spec_patch_token_record(buf@, m@)->Err_0,
        ),
{
    let rec = match deser_token_record(buf) {
        Ok(v) => v,
        Err(e) => {
            return Err(e);
        },
    };
    let rec2 = match m {
        TokenRecordMutation::SetState(s) => TokenRecord { state: s, ..rec },
        TokenRecordMutation::SetBump(b) => TokenRecord { bump: b, ..rec },
        TokenRecordMutation::SetRuleSetRevision(o) => TokenRecord { rule_set_revision: o, ..rec },
        TokenRecordMutation::SetDelegate(o) => TokenRecord { delegate: o, ..rec },
        TokenRecordMutation::SetDelegateRole(o) => TokenRecord { delegate_role: o, ..rec },
        TokenRecordMutation::SetLockedTransfer(o) => TokenRecord { locked_transfer: o, ..rec },
    };
    ser_token_record(&rec2)
}

/// A mutation of one associated token account record field.
#[derive(Debug, Clone, PartialEq, Eq)]
pub enum AtaMutation {
    SetOwner(Identifier),
    SetAmount(u64),
    SetDelegate(Option<Identifier>),
    SetState(AtaState),
    SetIsNative(Option<u64>),
    SetDelegatedAmount(u64),
    SetCloseAuthority(Option<Identifier>),
}

/// Mathematical view of an associated token account record mutation.
pub ghost enum AtaMutationV {
    SetOwner(Seq<u8>),
    SetAmount(u64),
    SetDelegate(Option<Seq<u8>>),
    SetState(AtaState),
    SetIsNative(Option<u64>),
    SetDelegatedAmount(u64),
    SetCloseAuthority(Option<Seq<u8>>),
}

impl View for AtaMutation {
    type V = AtaMutationV;

    open spec fn view(&self) -> AtaMutationV {
        match self {
            AtaMutation::SetOwner(id) => AtaMutationV::SetOwner(id@),
            AtaMutation::SetAmount(a) => AtaMutationV::SetAmount(*a),
            AtaMutation::SetDelegate(o) => AtaMutationV::SetDelegate(view_opt_id(*o)),
            AtaMutation::SetState(s) => AtaMutationV::SetState(*s),
            AtaMutation::SetIsNative(o) => AtaMutationV::SetIsNative(*o),
            AtaMutation::SetDelegatedAmount(a) => AtaMutationV::SetDelegatedAmount(*a),
            AtaMutation::SetCloseAuthority(o) => AtaMutationV::SetCloseAuthority(view_opt_id(*o)),
        }
    }
}

/// Applies an associated token account record mutation; every field is
/// fixed-width, so every mutation is supported.
pub open spec fn apply_ata_mutation(r: AtaRecordV, m: AtaMutationV) -> AtaRecordV {
    match m {
        AtaMutationV::SetOwner(id) => AtaRecordV { owner: id, ..r },
        AtaMutationV::SetAmount(a) => AtaRecordV { amount: a, ..r },
        AtaMutationV::SetDelegate(o) => AtaRecordV { delegate: o, ..r },
        AtaMutationV::SetState(s) => AtaRecordV { state: s, ..r },
        AtaMutationV::SetIsNative(o) => AtaRecordV { is_native: o, ..r },
        AtaMutationV::SetDelegatedAmount(a) => AtaRecordV { delegated_amount: a, ..r },
        AtaMutationV::SetCloseAuthority(o) => AtaRecordV { close_authority: o, ..r },
    }
}

/// The fixed-record patch pipeline for associated token account records at
/// the spec level.
pub open spec fn spec_patch_ata(buf: Seq<u8>, m: AtaMutationV) -> Result<Seq<u8>, CodecError> {
    if buf.len() < 165 {
        Err(CodecError::TruncatedRecord)
    } else {
        match dec_ata_record(buf) {
            Option::None => Err(CodecError::MalformedRecord),
            Option::Some(r) => {
                let r2 = apply_ata_mutation(r, m);
                if !wf_ata_record(r2) {
                    Err(CodecError::FieldTooWide)
                } else {
                    Ok(enc_ata_record(r2))
                }
            },
        }
    }
}

/// Patches one field of an associated token account record and returns the
/// whole re-encoded record at its fixed width.
pub fn patch_ata(buf: &Vec<u8>, m: AtaMutation) -> (r: Result<Vec<u8>, CodecError>)
    ensures
        r is Ok <==> spec_patch_ata(buf@, m@) is Ok,
        r is Ok ==> r.unwrap()@ == spec_patch_ata(buf@, m@).unwrap(),
        spec_patch_ata(buf@, m@) is Err ==> r == Err::<Vec<u8>, CodecError>(
            spec_patch_ata(buf@, m@)->Err_0,
        ),
{
    let rec = match deser_ata(buf) {
        Ok(v) => v,
        Err(e) => {
            return Err(e);
        },
    };
    let rec2 = match m {
        AtaMutation::SetOwner(id) => AtaRecord { owner: id, ..rec },
        AtaMutation::SetAmount(a) => AtaRecord { amount: a, ..rec },
        AtaMutation::SetDelegate(o) => AtaRecord { delegate: o, ..rec },
        AtaMutation::SetState(s) => AtaRecord { state: s, ..rec },
        AtaMutation::SetIsNative(o) => AtaRecord { is_native: o, ..rec },
        AtaMutation::SetDelegatedAmount(a) => AtaRecord { delegated_amount: a, ..rec },
        AtaMutation::SetCloseAuthority(o) => AtaRecord { close_authority: o, ..rec },
    };
    ser_ata(&rec2)
}

// ---------------------------------------------------------------------------
// The combined record updates that a transfer performs.
// ---------------------------------------------------------------------------
/// The released form of a token record: unlocked, re-bumped, with every
/// delegation field cleared.
pub open spec fn spec_release_token_record(r: TokenRecordV, bump: u8) -> TokenRecordV {
    TokenRecordV {
        key: r.key,
        bump,
        state: TokenState::Unlocked,
        rule_set_revision: None,
        delegate: None,
        delegate_role: None,
        locked_transfer: None,
    }
}

/// Unlocks a token record and clears every delegation field, keeping only
/// the key byte and replacing the bump.
pub fn release_token_record(rec: TokenRecord, bump: u8) -> (r: TokenRecord)
    ensures
        r@ == spec_release_token_record(rec@, bump),
        r.wf(),
{
    TokenRecord {
        key: rec.key,
        bump,
        state: TokenState::Unlocked,
        rule_set_revision: None,
        delegate: None,
        delegate_role: None,
        locked_transfer: None,
    }
}

/// The transferred form of an associated token account record: the new
/// owner holds it and no delegation survives.
pub open spec fn spec_transfer_ata(r: AtaRecordV, new_owner: Seq<u8>) -> AtaRecordV {
    AtaRecordV { owner: new_owner, delegate: None, ..r }
}

/// Hands an associated token account record to a new owner and clears its
/// delegate; every other field is kept.
pub fn transfer_ata(rec: AtaRecord, new_owner: Identifier) -> (r: AtaRecord)
    ensures
        r@ == spec_transfer_ata(rec@, new_owner@),
{
    AtaRecord { owner: new_owner, delegate: None, ..rec }
}

} // verus!
