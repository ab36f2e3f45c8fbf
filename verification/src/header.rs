//! Header codec for asset and collection records.
//!
//! A header is the variable-length prefix of a record buffer: a one-byte
//! discriminant tag, fixed-width authority fields and length-prefixed name
//! and uri strings. Everything past the header (`headerLen` as reported by
//! the decoder) is extension data the header codec does not model and must
//! never touch.

use vstd::bytes::lemma_auto_spec_u32_to_from_le_bytes;
use vstd::bytes::lemma_auto_spec_u64_to_from_le_bytes;
use vstd::bytes::spec_u32_to_le_bytes;
use vstd::prelude::*;

use crate::errors::CodecError;
use crate::ids::Identifier;
use crate::primitives::dec_id;
use crate::primitives::dec_lp_bytes;
use crate::primitives::dec_opt_u64_var;
use crate::primitives::dec_u32;
use crate::primitives::dec_u8;
use crate::primitives::enc_lp_bytes;
use crate::primitives::enc_opt_u64_var;
use crate::primitives::lemma_dec_lp_bytes;
use crate::primitives::lemma_dec_opt_u64_var;
use crate::primitives::lemma_dec_u32;
use crate::primitives::push_byte;
use crate::primitives::push_bytes;
use crate::primitives::push_id;
use crate::primitives::push_u32_le;
use crate::primitives::push_u64_le;
use crate::primitives::read_bytes;
use crate::primitives::read_u32_le;
use crate::primitives::read_u64_le;

verus! {

/// Discriminant tag of an asset record.
pub const ASSET_TAG: u8 = 1;

/// Discriminant tag of a collection record.
pub const COLLECTION_TAG: u8 = 5;

/// The update authority of an asset: unset, a plain address, or the address
/// of the collection the asset belongs to.
#[derive(Debug, Clone, PartialEq, Eq)]
pub enum UpdateAuthority {
    Unset,
    Address(Identifier),
    Collection(Identifier),
}

/// Mathematical view of `UpdateAuthority`.
pub ghost enum UpdateAuthorityV {
    Unset,
    Address(Seq<u8>),
    Collection(Seq<u8>),
}

impl View for UpdateAuthority {
    type V = UpdateAuthorityV;

    open spec fn view(&self) -> UpdateAuthorityV {
        match self {
            UpdateAuthority::Unset => UpdateAuthorityV::Unset,
            UpdateAuthority::Address(id) => UpdateAuthorityV::Address(id@),
            UpdateAuthority::Collection(id) => UpdateAuthorityV::Collection(id@),
        }
    }
}

pub open spec fn wf_update_authority(ua: UpdateAuthorityV) -> bool {
    match ua {
        UpdateAuthorityV::Unset => true,
        UpdateAuthorityV::Address(a) => a.len() == 32,
        UpdateAuthorityV::Collection(a) => a.len() == 32,
    }
}

/// One tag byte, then the 32-byte address for the variants that carry one.
pub open spec fn enc_update_authority(ua: UpdateAuthorityV) -> Seq<u8> {
    match ua {
        UpdateAuthorityV::Unset => seq![0u8],
        UpdateAuthorityV::Address(a) => seq![1u8] + a,
        UpdateAuthorityV::Collection(a) => seq![2u8] + a,
    }
}

pub open spec fn dec_update_authority(buf: Seq<u8>, pos: int) -> Option<(UpdateAuthorityV, int)> {
    match dec_u8(buf, pos) {
        Option::None => None,
        Option::Some((tag, p)) => if tag == 0 {
            Some((UpdateAuthorityV::Unset, p))
        } else if tag == 1 {
            match dec_id(buf, p) {
                Option::None => None,
                Option::Some((a, p2)) => Some((UpdateAuthorityV::Address(a), p2)),
            }
        } else if tag == 2 {
            match dec_id(buf, p) {
                Option::None => None,
                Option::Some((a, p2)) => Some((UpdateAuthorityV::Collection(a), p2)),
            }
        } else {
            None
        },
    }
}

pub proof fn lemma_dec_update_authority(buf: Seq<u8>, pos: int, ua: UpdateAuthorityV)
    requires
        0 <= pos,
        wf_update_authority(ua),
        pos + enc_update_authority(ua).len() <= buf.len(),
        buf.subrange(pos, pos + enc_update_authority(ua).len()) == enc_update_authority(ua),
    ensures
        dec_update_authority(buf, pos) == Some((ua, pos + enc_update_authority(ua).len())),
{
    let e = enc_update_authority(ua);
    assert(buf[pos] == e[0]);
    match ua {
        UpdateAuthorityV::Unset => {},
        UpdateAuthorityV::Address(a) => {
            assert(buf.subrange(pos + 1, pos + 33) =~= a) by {
                assert(forall|i: int|
                    0 <= i < 32 ==> #[trigger] buf.subrange(pos + 1, pos + 33)[i] == buf.subrange(
                        pos,
                        pos + 33,
                    )[1 + i]);
            }
        },
        UpdateAuthorityV::Collection(a) => {
            assert(buf.subrange(pos + 1, pos + 33) =~= a) by {
                assert(forall|i: int|
                    0 <= i < 32 ==> #[trigger] buf.subrange(pos + 1, pos + 33)[i] == buf.subrange(
                        pos,
                        pos + 33,
                    )[1 + i]);
            }
        },
    }
}

/// Header of an asset record.
#[derive(Debug, Clone, PartialEq, Eq)]
pub struct AssetHeader {
    pub owner: Identifier,
    pub update_authority: UpdateAuthority,
    pub name: Vec<u8>,
    pub uri: Vec<u8>,
    pub seq_num: Option<u64>,
}

/// Mathematical view of an asset header.
pub ghost struct AssetHeaderV {
    pub owner: Seq<u8>,
    pub update_authority: UpdateAuthorityV,
    pub name: Seq<u8>,
    pub uri: Seq<u8>,
    pub seq_num: Option<u64>,
}

impl View for AssetHeader {
    type V = AssetHeaderV;

    open spec fn view(&self) -> AssetHeaderV {
        AssetHeaderV {
            owner: self.owner@,
            update_authority: self.update_authority@,
            name: self.name@,
            uri: self.uri@,
            seq_num: self.seq_num,
        }
    }
}

pub open spec fn wf_asset_header(h: AssetHeaderV) -> bool {
    &&& h.owner.len() == 32
    &&& wf_update_authority(h.update_authority)
    &&& h.name.len() <= u32::MAX
    &&& h.uri.len() <= u32::MAX
}

/// The encoded asset header: discriminant tag, owner, update authority,
/// name, uri, and an optional sequence number.
pub open spec fn enc_asset_header(h: AssetHeaderV) -> Seq<u8> {
    seq![ASSET_TAG] + h.owner + enc_update_authority(h.update_authority) + enc_lp_bytes(h.name)
        + enc_lp_bytes(h.uri) + enc_opt_u64_var(h.seq_num)
}

/// Decodes an asset header and reports the exact header length consumed.
pub open spec fn dec_asset_header(buf: Seq<u8>) -> Option<(AssetHeaderV, int)> {
    if buf.len() >= 1 && buf[0] == ASSET_TAG {
        match dec_id(buf, 1) {
            Option::None => None,
            Option::Some((owner, p1)) => match dec_update_authority(buf, p1) {
                Option::None => None,
                Option::Some((ua, p2)) => match dec_lp_bytes(buf, p2) {
                    Option::None => None,
                    Option::Some((name, p3)) => match dec_lp_bytes(buf, p3) {
                        Option::None => None,
                        Option::Some((uri, p4)) => match dec_opt_u64_var(buf, p4) {
                            Option::None => None,
                            Option::Some((sn, p5)) => Some(
                                (
                                    AssetHeaderV {
                                        owner,
                                        update_authority: ua,
                                        name,
                                        uri,
                                        seq_num: sn,
                                    },
                                    p5,
                                ),
                            ),
                        },
                    },
                },
            },
        }
    } else {
        None
    }
}

/// Header of a collection record.
#[derive(Debug, Clone, PartialEq, Eq)]
pub struct CollectionHeader {
    pub update_authority: Identifier,
    pub name: Vec<u8>,
    pub uri: Vec<u8>,
    pub num_minted: u32,
    pub current_size: u32,
}

/// Mathematical view of a collection header.
pub ghost struct CollectionHeaderV {
    pub update_authority: Seq<u8>,
    pub name: Seq<u8>,
    pub uri: Seq<u8>,
    pub num_minted: u32,
    pub current_size: u32,
}

impl View for CollectionHeader {
    type V = CollectionHeaderV;

    open spec fn view(&self) -> CollectionHeaderV {
        CollectionHeaderV {
            update_authority: self.update_authority@,
            name: self.name@,
            uri: self.uri@,
            num_minted: self.num_minted,
            current_size: self.current_size,
        }
    }
}

pub open spec fn wf_collection_header(h: CollectionHeaderV) -> bool {
    &&& h.update_authority.len() == 32
    &&& h.name.len() <= u32::MAX
    &&& h.uri.len() <= u32::MAX
}

/// The encoded collection header: discriminant tag, update authority, name,
/// uri, and the two fixed-width counters.
pub open spec fn enc_collection_header(h: CollectionHeaderV) -> Seq<u8> {
    seq![COLLECTION_TAG] + h.update_authority + enc_lp_bytes(h.name) + enc_lp_bytes(h.uri)
        + spec_u32_to_le_bytes(h.num_minted) + spec_u32_to_le_bytes(h.current_size)
}

/// Decodes a collection header and reports the exact header length consumed.
pub open spec fn dec_collection_header(buf: Seq<u8>) -> Option<(CollectionHeaderV, int)> {
    if buf.len() >= 1 && buf[0] == COLLECTION_TAG {
        match dec_id(buf, 1) {
            Option::None => None,
            Option::Some((ua, p1)) => match dec_lp_bytes(buf, p1) {
                Option::None => None,
                Option::Some((name, p2)) => match dec_lp_bytes(buf, p2) {
                    Option::None => None,
                    Option::Some((uri, p3)) => match dec_u32(buf, p3) {
                        Option::None => None,
                        Option::Some((nm, p4)) => match dec_u32(buf, p4) {
                            Option::None => None,
                            Option::Some((cs, p5)) => Some(
                                (
                                    CollectionHeaderV {
                                        update_authority: ua,
                                        name,
                                        uri,
                                        num_minted: nm,
                                        current_size: cs,
                                    },
                                    p5,
                                ),
                            ),
                        },
                    },
                },
            },
        }
    } else {
        None
    }
}

// ---------------------------------------------------------------------------
// Executable decoding helpers.
// ---------------------------------------------------------------------------
fn read_lp_bytes(buf: &Vec<u8>, pos: usize) -> (r: Option<(Vec<u8>, usize)>)
    ensures
        match r {
            Option::Some((v, p)) => dec_lp_bytes(buf@, pos as int) == Some((v@, p as int)),
            Option::None => dec_lp_bytes(buf@, pos as int) is None,
        },
{
    let n = buf.len();
    if n < 4 || pos > n - 4 {
        return None;
    }
    let len = read_u32_le(buf, pos) as usize;
    if len > n - (pos + 4) {
        return None;
    }
    let v = read_bytes(buf, pos + 4, len);
    Some((v, pos + 4 + len))
}

fn read_opt_u64_var(buf: &Vec<u8>, pos: usize) -> (r: Option<(Option<u64>, usize)>)
    ensures
        match r {
            Option::Some((v, p)) => dec_opt_u64_var(buf@, pos as int) == Some((v, p as int)),
            Option::None => dec_opt_u64_var(buf@, pos as int) is None,
        },
{
    let n = buf.len();
    if pos >= n {
        return None;
    }
    let tag = buf[pos];
    if tag == 0 {
        Some((None, pos + 1))
    } else if tag == 1 {
        if n - (pos + 1) < 8 {
            None
        } else {
            Some((Some(read_u64_le(buf, pos + 1)), pos + 9))
        }
    } else {
        None
    }
}

fn read_update_authority(buf: &Vec<u8>, pos: usize) -> (r: Option<(UpdateAuthority, usize)>)
    ensures
        match r {
            Option::Some((v, p)) => dec_update_authority(buf@, pos as int) == Some(
                (v@, p as int),
            ) && wf_update_authority(v@),
            Option::None => dec_update_authority(buf@, pos as int) is None,
        },
{
    let n = buf.len();
    if pos >= n {
        return None;
    }
    let tag = buf[pos];
    if tag == 0 {
        Some((UpdateAuthority::Unset, pos + 1))
    } else if tag == 1 {
        if n - (pos + 1) < 32 {
            None
        } else {
            let a = Identifier::from_bytes(read_bytes(buf, pos + 1, 32));
            Some((UpdateAuthority::Address(a), pos + 33))
        }
    } else if tag == 2 {
        if n - (pos + 1) < 32 {
            None
        } else {
            let a = Identifier::from_bytes(read_bytes(buf, pos + 1, 32));
            Some((UpdateAuthority::Collection(a), pos + 33))
        }
    } else {
        None
    }
}

/// Appends the length-prefixed encoding of `src`.
fn push_lp_bytes(out: Vec<u8>, src: &Vec<u8>) -> (r: Vec<u8>)
    requires
        src@.len() <= u32::MAX,
    ensures
        r@ == out@ + enc_lp_bytes(src@),
{
    let len = src.len();
    let out = push_u32_le(out, len as u32);
    let r = push_bytes(out, src);
    assert(r@ =~= out@ + src@);
    r
}

// ---------------------------------------------------------------------------
// Public header codec.
// ---------------------------------------------------------------------------
/// Decodes an asset header out of the prefix of `buf` and reports the exact
/// header length consumed; bytes past that length are not read.
///
/// Returns `MalformedHeader` exactly when the discriminant tag is not the
/// asset tag or a field runs past the end of the buffer.
pub fn deser_asset_header(buf: &Vec<u8>) -> (r: Result<(AssetHeader, usize), CodecError>)
    ensures
        dec_asset_header(buf@) is None ==> r == Err::<(AssetHeader, usize), CodecError>(
            CodecError::MalformedHeader,
        ),
        dec_asset_header(buf@) is Some ==> {
            &&& r is Ok
            &&& r.unwrap().0@ == dec_asset_header(buf@).unwrap().0
            &&& r.unwrap().1 as int == dec_asset_header(buf@).unwrap().1
            &&& wf_asset_header(r.unwrap().0@)
            &&& r.unwrap().1 <= buf@.len()
        },
{
    let n = buf.len();
    if n < 1 || buf[0] != ASSET_TAG {
        return Err(CodecError::MalformedHeader);
    }
    if n < 33 {
        return Err(CodecError::MalformedHeader);
    }
    let owner = Identifier::from_bytes(read_bytes(buf, 1, 32));
    let (update_authority, p2) = match read_update_authority(buf, 33) {
        Option::Some(v) => v,
        Option::None => {
            return Err(CodecError::MalformedHeader);
        },
    };
    let (name, p3) = match read_lp_bytes(buf, p2) {
        Option::Some(v) => v,
        Option::None => {
            return Err(CodecError::MalformedHeader);
        },
    };
    let (uri, p4) = match read_lp_bytes(buf, p3) {
        Option::Some(v) => v,
        Option::None => {
            return Err(CodecError::MalformedHeader);
        },
    };
    let (seq_num, p5) = match read_opt_u64_var(buf, p4) {
        Option::Some(v) => v,
        Option::None => {
            return Err(CodecError::MalformedHeader);
        },
    };
    Ok((AssetHeader { owner, update_authority, name, uri, seq_num }, p5))
}

/// Decodes a collection header out of the prefix of `buf` and reports the
/// exact header length consumed; bytes past that length are not read.
///
/// Returns `MalformedHeader` exactly when the discriminant tag is not the
/// collection tag or a field runs past the end of the buffer.
pub fn deser_collection_header(buf: &Vec<u8>) -> (r: Result<(CollectionHeader, usize), CodecError>)
    ensures
        dec_collection_header(buf@) is None ==> r == Err::<(CollectionHeader, usize), CodecError>(
            CodecError::MalformedHeader,
        ),
        dec_collection_header(buf@) is Some ==> {
            &&& r is Ok
            &&& r.unwrap().0@ == dec_collection_header(buf@).unwrap().0
            &&& r.unwrap().1 as int == dec_collection_header(buf@).unwrap().1
            &&& wf_collection_header(r.unwrap().0@)
            &&& r.unwrap().1 <= buf@.len()
        },
{
    let n = buf.len();
    if n < 1 || buf[0] != COLLECTION_TAG {
        return Err(CodecError::MalformedHeader);
    }
    if n < 33 {
        return Err(CodecError::MalformedHeader);
    }
    let update_authority = Identifier::from_bytes(read_bytes(buf, 1, 32));
    let (name, p2) = match read_lp_bytes(buf, 33) {
        Option::Some(v) => v,
        Option::None => {
            return Err(CodecError::MalformedHeader);
        },
    };
    let (uri, p3) = match read_lp_bytes(buf, p2) {
        Option::Some(v) => v,
        Option::None => {
            return Err(CodecError::MalformedHeader);
        },
    };
    if buf.len() - p3 < 4 {
        return Err(CodecError::MalformedHeader);
    }
    let num_minted = read_u32_le(buf, p3);
    if buf.len() - (p3 + 4) < 4 {
        return Err(CodecError::MalformedHeader);
    }
    let current_size = read_u32_le(buf, p3 + 4);
    Ok((CollectionHeader { update_authority, name, uri, num_minted, current_size }, p3 + 8))
}

/// Encodes an asset header; deterministic and pure.
///
/// Returns `FieldTooWide` exactly when an identifier field does not fit its
/// 32-byte slot or a string is too long for its four-byte length prefix.
pub fn ser_asset_header(h: &AssetHeader) -> (r: Result<Vec<u8>, CodecError>)
    ensures
        wf_asset_header(h@) ==> r is Ok && r.unwrap()@ == enc_asset_header(h@),
        !wf_asset_header(h@) ==> r == Err::<Vec<u8>, CodecError>(CodecError::FieldTooWide),
{
    let ua_ok = match &h.update_authority {
        UpdateAuthority::Unset => true,
        UpdateAuthority::Address(a) => a.is_wf(),
        UpdateAuthority::Collection(a) => a.is_wf(),
    };
    if !h.owner.is_wf() || !ua_ok || h.name.len() > 0xffff_ffff || h.uri.len() > 0xffff_ffff {
        return Err(CodecError::FieldTooWide);
    }
    let out: Vec<u8> = Vec::new();
    let out = push_byte(out, ASSET_TAG);
    let out = push_id(out, &h.owner);
    let out = match &h.update_authority {
        UpdateAuthority::Unset => push_byte(out, 0),
        UpdateAuthority::Address(a) => push_id(push_byte(out, 1), a),
        UpdateAuthority::Collection(a) => push_id(push_byte(out, 2), a),
    };
    assert(out@ =~= seq![ASSET_TAG] + h@.owner + enc_update_authority(h@.update_authority));
    let out = push_lp_bytes(out, &h.name);
    let out = push_lp_bytes(out, &h.uri);
    let out = match &h.seq_num {
        Option::None => push_byte(out, 0),
        Option::Some(v) => push_u64_le(push_byte(out, 1), *v),
    };
    assert(out@ =~= enc_asset_header(h@));
    Ok(out)
}

/// Encodes a collection header; deterministic and pure.
///
/// Returns `FieldTooWide` exactly when the authority does not fit its
/// 32-byte slot or a string is too long for its four-byte length prefix.
pub fn ser_collection_header(h: &CollectionHeader) -> (r: Result<Vec<u8>, CodecError>)
    ensures
        wf_collection_header(h@) ==> r is Ok && r.unwrap()@ == enc_collection_header(h@),
        !wf_collection_header(h@) ==> r == Err::<Vec<u8>, CodecError>(CodecError::FieldTooWide),
{
    if !h.update_authority.is_wf() || h.name.len() > 0xffff_ffff || h.uri.len() > 0xffff_ffff {
        return Err(CodecError::FieldTooWide);
    }
    let out: Vec<u8> = Vec::new();
    let out = push_byte(out, COLLECTION_TAG);
    let out = push_id(out, &h.update_authority);
    let out = push_lp_bytes(out, &h.name);
    let out = push_lp_bytes(out, &h.uri);
    let out = push_u32_le(out, h.num_minted);
    let out = push_u32_le(out, h.current_size);
    assert(out@ =~= enc_collection_header(h@));
    Ok(out)
}

// ---------------------------------------------------------------------------
// Round-trip laws.
// ---------------------------------------------------------------------------
/// Round trip: decoding an encoded asset header gives back the header and
/// reports exactly the encoding's length as the header length.
pub proof fn lemma_asset_header_round_trip(h: AssetHeaderV)
    requires
        wf_asset_header(h),
    ensures
        dec_asset_header(enc_asset_header(h)) == Some((h, enc_asset_header(h).len() as int)),
{
    lemma_auto_spec_u32_to_from_le_bytes();
    lemma_auto_spec_u64_to_from_le_bytes();
    let e = enc_asset_header(h);
    let c = enc_update_authority(h.update_authority);
    let d = enc_lp_bytes(h.name);
    let f = enc_lp_bytes(h.uri);
    let g = enc_opt_u64_var(h.seq_num);
    assert(d.len() == 4 + h.name.len());
    assert(f.len() == 4 + h.uri.len());
    let p2 = 33 + c.len() as int;
    let p3 = p2 + d.len() as int;
    let p4 = p3 + f.len() as int;
    let p5 = p4 + g.len() as int;
    assert(e.len() == p5);
    assert(e[0] == ASSET_TAG);
    assert(e.subrange(1, 33) =~= h.owner) by {
        assert(forall|i: int| 0 <= i < 32 ==> #[trigger] e.subrange(1, 33)[i] == h.owner[i]);
    }
    assert(e.subrange(33, p2) =~= c) by {
        assert(forall|i: int| 0 <= i < c.len() ==> #[trigger] e.subrange(33, p2)[i] == c[i]);
    }
    assert(e.subrange(p2, p3) =~= d) by {
        assert(forall|i: int| 0 <= i < d.len() ==> #[trigger] e.subrange(p2, p3)[i] == d[i]);
    }
    assert(e.subrange(p3, p4) =~= f) by {
        assert(forall|i: int| 0 <= i < f.len() ==> #[trigger] e.subrange(p3, p4)[i] == f[i]);
    }
    assert(e.subrange(p4, p5) =~= g) by {
        assert(forall|i: int| 0 <= i < g.len() ==> #[trigger] e.subrange(p4, p5)[i] == g[i]);
    }
    lemma_dec_update_authority(e, 33, h.update_authority);
    lemma_dec_lp_bytes(e, p2, h.name);
    lemma_dec_lp_bytes(e, p3, h.uri);
    lemma_dec_opt_u64_var(e, p4, h.seq_num);
}

/// Round trip: decoding an encoded collection header gives back the header
/// and reports exactly the encoding's length as the header length.
pub proof fn lemma_collection_header_round_trip(h: CollectionHeaderV)
    requires
        wf_collection_header(h),
    ensures
        dec_collection_header(enc_collection_header(h)) == Some(
            (h, enc_collection_header(h).len() as int),
        ),
{
    lemma_auto_spec_u32_to_from_le_bytes();
    let e = enc_collection_header(h);
    let d = enc_lp_bytes(h.name);
    let f = enc_lp_bytes(h.uri);
    assert(d.len() == 4 + h.name.len());
    assert(f.len() == 4 + h.uri.len());
    let p2 = 33 + d.len() as int;
    let p3 = p2 + f.len() as int;
    assert(e.len() == p3 + 8);
    assert(e[0] == COLLECTION_TAG);
    assert(e.subrange(1, 33) =~= h.update_authority) by {
        assert(forall|i: int|
            0 <= i < 32 ==> #[trigger] e.subrange(1, 33)[i] == h.update_authority[i]);
    }
    assert(e.subrange(33, p2) =~= d) by {
        assert(forall|i: int| 0 <= i < d.len() ==> #[trigger] e.subrange(33, p2)[i] == d[i]);
    }
    assert(e.subrange(p2, p3) =~= f) by {
        assert(forall|i: int| 0 <= i < f.len() ==> #[trigger] e.subrange(p2, p3)[i] == f[i]);
    }
    assert(e.subrange(p3, p3 + 4) =~= spec_u32_to_le_bytes(h.num_minted)) by {
        assert(forall|i: int|
            0 <= i < 4 ==> #[trigger] e.subrange(p3, p3 + 4)[i] == spec_u32_to_le_bytes(
                h.num_minted,
            )[i]);
    }
    assert(e.subrange(p3 + 4, p3 + 8) =~= spec_u32_to_le_bytes(h.current_size)) by {
        assert(forall|i: int|
            0 <= i < 4 ==> #[trigger] e.subrange(p3 + 4, p3 + 8)[i] == spec_u32_to_le_bytes(
                h.current_size,
            )[i]);
    }
    lemma_dec_lp_bytes(e, 33, h.name);
    lemma_dec_lp_bytes(e, p2, h.uri);
    lemma_dec_u32(e, p3, h.num_minted);
    lemma_dec_u32(e, p3 + 4, h.current_size);
}

} // verus!
