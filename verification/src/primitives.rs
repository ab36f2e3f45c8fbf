//! Byte-codec primitives: fixed-width scalars, length-prefixed byte strings
//! and fixed-slot optionals.
//!
//! Two optional conventions exist, and a given record kind uses exactly one
//! of them throughout:
//! - a one-byte presence tag followed by the payload slot, and
//! - a four-byte little-endian presence tag followed by the payload slot.
//!
//! In both, the payload slot is always reserved: an absent value leaves the
//! slot zero-filled, so the record's total width does not depend on which
//! optional fields are present.

use vstd::bytes::lemma_auto_spec_u32_to_from_le_bytes;
use vstd::bytes::lemma_auto_spec_u64_to_from_le_bytes;
use vstd::bytes::spec_u32_from_le_bytes;
use vstd::bytes::spec_u32_to_le_bytes;
use vstd::bytes::spec_u64_from_le_bytes;
use vstd::bytes::spec_u64_to_le_bytes;
use vstd::bytes::u32_from_le_bytes;
use vstd::bytes::u32_to_le_bytes;
use vstd::bytes::u64_from_le_bytes;
use vstd::bytes::u64_to_le_bytes;
use vstd::prelude::*;
use vstd::slice::slice_subrange;
use vstd::slice::slice_to_vec;

use crate::ids::view_opt_id;
use crate::ids::Identifier;

verus! {

// ---------------------------------------------------------------------------
// Spec-level encoders.
// ---------------------------------------------------------------------------
/// `n` zero bytes: the reserved slot of an absent optional value.
pub open spec fn zero_bytes(n: int) -> Seq<u8> {
    Seq::new(n as nat, |i: int| 0u8)
}

/// A length-prefixed byte string: four-byte little-endian length, then the
/// bytes themselves.
pub open spec fn enc_lp_bytes(s: Seq<u8>) -> Seq<u8> {
    spec_u32_to_le_bytes(s.len() as u32) + s
}

/// A variable-width optional 64-bit integer: presence byte, then the payload
/// only when present. Used inside headers, never inside fixed-width records.
pub open spec fn enc_opt_u64_var(o: Option<u64>) -> Seq<u8> {
    match o {
        Option::None => seq![0u8],
        Option::Some(n) => seq![1u8] + spec_u64_to_le_bytes(n),
    }
}

/// A fixed-slot optional 64-bit integer: one presence byte, then an
/// always-reserved eight-byte slot (zero-filled when absent).
pub open spec fn enc_opt_u64_slot(o: Option<u64>) -> Seq<u8> {
    match o {
        Option::None => seq![0u8] + zero_bytes(8),
        Option::Some(n) => seq![1u8] + spec_u64_to_le_bytes(n),
    }
}

/// A fixed-slot optional identifier: one presence byte, then an
/// always-reserved 32-byte slot (zero-filled when absent).
pub open spec fn enc_opt_id_slot(o: Option<Seq<u8>>) -> Seq<u8> {
    match o {
        Option::None => seq![0u8] + zero_bytes(32),
        Option::Some(b) => seq![1u8] + b,
    }
}

/// A fixed-slot optional byte: one presence byte, then a one-byte slot.
pub open spec fn enc_opt_u8_slot(o: Option<u8>) -> Seq<u8> {
    match o {
        Option::None => seq![0u8, 0u8],
        Option::Some(v) => seq![1u8, v],
    }
}

/// A fixed-slot optional 64-bit integer with a four-byte little-endian
/// presence tag and an always-reserved eight-byte slot.
pub open spec fn enc_copt_u64(o: Option<u64>) -> Seq<u8> {
    match o {
        Option::None => seq![0u8, 0u8, 0u8, 0u8] + zero_bytes(8),
        Option::Some(n) => seq![1u8, 0u8, 0u8, 0u8] + spec_u64_to_le_bytes(n),
    }
}

/// A fixed-slot optional identifier with a four-byte little-endian presence
/// tag and an always-reserved 32-byte slot.
pub open spec fn enc_copt_id(o: Option<Seq<u8>>) -> Seq<u8> {
    match o {
        Option::None => seq![0u8, 0u8, 0u8, 0u8] + zero_bytes(32),
        Option::Some(b) => seq![1u8, 0u8, 0u8, 0u8] + b,
    }
}

/// Whether the four tag bytes at `pos` are the little-endian tag `t`
/// (only 0 and 1 are tags of the convention).
pub open spec fn copt_tag_is(buf: Seq<u8>, pos: int, t: u8) -> bool {
    buf[pos] == t && buf[pos + 1] == 0 && buf[pos + 2] == 0 && buf[pos + 3] == 0
}

// ---------------------------------------------------------------------------
// Spec-level decoders. Each reads at an explicit `(buffer, position)` pair
// and reports the position just past what it consumed; no decoder shares
// cursor state with any other.
// ---------------------------------------------------------------------------
pub open spec fn dec_u8(buf: Seq<u8>, pos: int) -> Option<(u8, int)> {
    if 0 <= pos && pos + 1 <= buf.len() {
        Some((buf[pos], pos + 1))
    } else {
        None
    }
}

pub open spec fn dec_u32(buf: Seq<u8>, pos: int) -> Option<(u32, int)> {
    if 0 <= pos && pos + 4 <= buf.len() {
        Some((spec_u32_from_le_bytes(buf.subrange(pos, pos + 4)), pos + 4))
    } else {
        None
    }
}

pub open spec fn dec_u64(buf: Seq<u8>, pos: int) -> Option<(u64, int)> {
    if 0 <= pos && pos + 8 <= buf.len() {
        Some((spec_u64_from_le_bytes(buf.subrange(pos, pos + 8)), pos + 8))
    } else {
        None
    }
}

pub open spec fn dec_id(buf: Seq<u8>, pos: int) -> Option<(Seq<u8>, int)> {
    if 0 <= pos && pos + 32 <= buf.len() {
        Some((buf.subrange(pos, pos + 32), pos + 32))
    } else {
        None
    }
}

pub open spec fn dec_lp_bytes(buf: Seq<u8>, pos: int) -> Option<(Seq<u8>, int)> {
    match dec_u32(buf, pos) {
        Option::None => None,
        Option::Some((n, p)) => if p + n <= buf.len() {
            Some((buf.subrange(p, p + n), p + n))
        } else {
            None
        },
    }
}

pub open spec fn dec_opt_u64_var(buf: Seq<u8>, pos: int) -> Option<(Option<u64>, int)> {
    match dec_u8(buf, pos) {
        Option::None => None,
        Option::Some((tag, p)) => if tag == 0 {
            Some((None, p))
        } else if tag == 1 {
            match dec_u64(buf, p) {
                Option::None => None,
                Option::Some((n, p2)) => Some((Some(n), p2)),
            }
        } else {
            None
        },
    }
}

pub open spec fn dec_opt_u64_slot(buf: Seq<u8>, pos: int) -> Option<(Option<u64>, int)> {
    if 0 <= pos && pos + 9 <= buf.len() {
        if buf[pos] == 0 {
            Some((None, pos + 9))
        } else if buf[pos] == 1 {
            Some((Some(spec_u64_from_le_bytes(buf.subrange(pos + 1, pos + 9))), pos + 9))
        } else {
            None
        }
    } else {
        None
    }
}

pub open spec fn dec_opt_id_slot(buf: Seq<u8>, pos: int) -> Option<(Option<Seq<u8>>, int)> {
    if 0 <= pos && pos + 33 <= buf.len() {
        if buf[pos] == 0 {
            Some((None, pos + 33))
        } else if buf[pos] == 1 {
            Some((Some(buf.subrange(pos + 1, pos + 33)), pos + 33))
        } else {
            None
        }
    } else {
        None
    }
}

pub open spec fn dec_opt_u8_slot(buf: Seq<u8>, pos: int) -> Option<(Option<u8>, int)> {
    if 0 <= pos && pos + 2 <= buf.len() {
        if buf[pos] == 0 {
            Some((None, pos + 2))
        } else if buf[pos] == 1 {
            Some((Some(buf[pos + 1]), pos + 2))
        } else {
            None
        }
    } else {
        None
    }
}

pub open spec fn dec_copt_u64(buf: Seq<u8>, pos: int) -> Option<(Option<u64>, int)> {
    if 0 <= pos && pos + 12 <= buf.len() {
        if copt_tag_is(buf, pos, 0) {
            Some((None, pos + 12))
        } else if copt_tag_is(buf, pos, 1) {
            Some((Some(spec_u64_from_le_bytes(buf.subrange(pos + 4, pos + 12))), pos + 12))
        } else {
            None
        }
    } else {
        None
    }
}

pub open spec fn dec_copt_id(buf: Seq<u8>, pos: int) -> Option<(Option<Seq<u8>>, int)> {
    if 0 <= pos && pos + 36 <= buf.len() {
        if copt_tag_is(buf, pos, 0) {
            Some((None, pos + 36))
        } else if copt_tag_is(buf, pos, 1) {
            Some((Some(buf.subrange(pos + 4, pos + 36)), pos + 36))
        } else {
            None
        }
    } else {
        None
    }
}

// ---------------------------------------------------------------------------
// Decoding an encoded field embedded at a position of a larger buffer gives
// back the field and consumes exactly its width.
// ---------------------------------------------------------------------------
pub proof fn lemma_dec_u32(buf: Seq<u8>, pos: int, n: u32)
    requires
        0 <= pos,
        pos + 4 <= buf.len(),
        buf.subrange(pos, pos + 4) == spec_u32_to_le_bytes(n),
    ensures
        dec_u32(buf, pos) == Some((n, pos + 4)),
{
    lemma_auto_spec_u32_to_from_le_bytes();
    assert(spec_u32_to_le_bytes(n).len() == 4);
    assert(spec_u32_from_le_bytes(spec_u32_to_le_bytes(n)) == n);
}

pub proof fn lemma_dec_lp_bytes(buf: Seq<u8>, pos: int, s: Seq<u8>)
    requires
        0 <= pos,
        s.len() <= u32::MAX,
        pos + 4 + s.len() <= buf.len(),
        buf.subrange(pos, pos + 4 + s.len()) == enc_lp_bytes(s),
    ensures
        dec_lp_bytes(buf, pos) == Some((s, pos + 4 + s.len())),
{
    lemma_auto_spec_u32_to_from_le_bytes();
    let e = enc_lp_bytes(s);
    let pre = spec_u32_to_le_bytes(s.len() as u32);
    assert(pre.len() == 4);
    assert(buf.subrange(pos, pos + 4) =~= pre) by {
        assert(forall|i: int|
            0 <= i < 4 ==> #[trigger] buf.subrange(pos, pos + 4)[i] == buf.subrange(
                pos,
                pos + 4 + s.len(),
            )[i]);
    }
    assert(dec_u32(buf, pos) == Some((s.len() as u32, pos + 4)));
    assert(buf.subrange(pos + 4, pos + 4 + s.len()) =~= s) by {
        assert(forall|i: int|
            0 <= i < s.len() ==> #[trigger] buf.subrange(pos + 4, pos + 4 + s.len())[i] == buf.subrange(
                pos,
                pos + 4 + s.len(),
            )[4 + i]);
    }
}

pub proof fn lemma_dec_opt_u64_var(buf: Seq<u8>, pos: int, o: Option<u64>)
    requires
        0 <= pos,
        pos + enc_opt_u64_var(o).len() <= buf.len(),
        buf.subrange(pos, pos + enc_opt_u64_var(o).len()) == enc_opt_u64_var(o),
    ensures
        dec_opt_u64_var(buf, pos) == Some((o, pos + enc_opt_u64_var(o).len())),
{
    lemma_auto_spec_u64_to_from_le_bytes();
    let e = enc_opt_u64_var(o);
    match o {
        Option::None => {
            assert(buf[pos] == e[0]);
        },
        Option::Some(n) => {
            assert(e.len() == 9);
            assert(buf[pos] == e[0]);
            assert(e[0] == 1u8);
            assert(buf.subrange(pos + 1, pos + 9) =~= spec_u64_to_le_bytes(n)) by {
                assert(forall|i: int|
                    0 <= i < 8 ==> #[trigger] buf.subrange(pos + 1, pos + 9)[i] == buf.subrange(
                        pos,
                        pos + 9,
                    )[1 + i]);
            }
        },
    }
}

pub proof fn lemma_dec_opt_u64_slot(buf: Seq<u8>, pos: int, o: Option<u64>)
    requires
        0 <= pos,
        pos + 9 <= buf.len(),
        buf.subrange(pos, pos + 9) == enc_opt_u64_slot(o),
    ensures
        dec_opt_u64_slot(buf, pos) == Some((o, pos + 9)),
{
    lemma_auto_spec_u64_to_from_le_bytes();
    let e = enc_opt_u64_slot(o);
    assert(buf[pos] == e[0]);
    match o {
        Option::None => {},
        Option::Some(n) => {
            assert(buf.subrange(pos + 1, pos + 9) =~= spec_u64_to_le_bytes(n)) by {
                assert(forall|i: int|
                    0 <= i < 8 ==> #[trigger] buf.subrange(pos + 1, pos + 9)[i] == buf.subrange(
                        pos,
                        pos + 9,
                    )[1 + i]);
            }
        },
    }
}

pub proof fn lemma_dec_opt_id_slot(buf: Seq<u8>, pos: int, o: Option<Seq<u8>>)
    requires
        0 <= pos,
        pos + 33 <= buf.len(),
        o is Some ==> o.unwrap().len() == 32,
        buf.subrange(pos, pos + 33) == enc_opt_id_slot(o),
    ensures
        dec_opt_id_slot(buf, pos) == Some((o, pos + 33)),
{
    let e = enc_opt_id_slot(o);
    assert(buf[pos] == e[0]);
    match o {
        Option::None => {},
        Option::Some(b) => {
            assert(buf.subrange(pos + 1, pos + 33) =~= b) by {
                assert(forall|i: int|
                    0 <= i < 32 ==> #[trigger] buf.subrange(pos + 1, pos + 33)[i] == buf.subrange(
                        pos,
                        pos + 33,
                    )[1 + i]);
            }
        },
    }
}

pub proof fn lemma_dec_opt_u8_slot(buf: Seq<u8>, pos: int, o: Option<u8>)
    requires
        0 <= pos,
        pos + 2 <= buf.len(),
        buf.subrange(pos, pos + 2) == enc_opt_u8_slot(o),
    ensures
        dec_opt_u8_slot(buf, pos) == Some((o, pos + 2)),
{
    let e = enc_opt_u8_slot(o);
    assert(buf[pos] == e[0]);
    assert(buf[pos + 1] == e[1]);
}

pub proof fn lemma_dec_copt_u64(buf: Seq<u8>, pos: int, o: Option<u64>)
    requires
        0 <= pos,
        pos + 12 <= buf.len(),
        buf.subrange(pos, pos + 12) == enc_copt_u64(o),
    ensures
        dec_copt_u64(buf, pos) == Some((o, pos + 12)),
{
    lemma_auto_spec_u64_to_from_le_bytes();
    let e = enc_copt_u64(o);
    assert(buf[pos] == e[0]);
    assert(buf[pos + 1] == e[1]);
    assert(buf[pos + 2] == e[2]);
    assert(buf[pos + 3] == e[3]);
    match o {
        Option::None => {},
        Option::Some(n) => {
            assert(buf.subrange(pos + 4, pos + 12) =~= spec_u64_to_le_bytes(n)) by {
                assert(forall|i: int|
                    0 <= i < 8 ==> #[trigger] buf.subrange(pos + 4, pos + 12)[i] == buf.subrange(
                        pos,
                        pos + 12,
                    )[4 + i]);
            }
        },
    }
}

pub proof fn lemma_dec_copt_id(buf: Seq<u8>, pos: int, o: Option<Seq<u8>>)
    requires
        0 <= pos,
        pos + 36 <= buf.len(),
        o is Some ==> o.unwrap().len() == 32,
        buf.subrange(pos, pos + 36) == enc_copt_id(o),
    ensures
        dec_copt_id(buf, pos) == Some((o, pos + 36)),
{
    let e = enc_copt_id(o);
    assert(buf[pos] == e[0]);
    assert(buf[pos + 1] == e[1]);
    assert(buf[pos + 2] == e[2]);
    assert(buf[pos + 3] == e[3]);
    match o {
        Option::None => {},
        Option::Some(b) => {
            assert(buf.subrange(pos + 4, pos + 36) =~= b) by {
                assert(forall|i: int|
                    0 <= i < 32 ==> #[trigger] buf.subrange(pos + 4, pos + 36)[i] == buf.subrange(
                        pos,
                        pos + 36,
                    )[4 + i]);
            }
        },
    }
}

// ---------------------------------------------------------------------------
// Executable readers. Each takes the whole buffer and an explicit position.
// ---------------------------------------------------------------------------
pub fn read_u32_le(buf: &Vec<u8>, pos: usize) -> (r: u32)
    requires
        pos + 4 <= buf@.len(),
    ensures
        r == spec_u32_from_le_bytes(buf@.subrange(pos as int, pos as int + 4)),
{
    let _n = buf.len();
    u32_from_le_bytes(slice_subrange(buf.as_slice(), pos, pos + 4))
}

pub fn read_u64_le(buf: &Vec<u8>, pos: usize) -> (r: u64)
    requires
        pos + 8 <= buf@.len(),
    ensures
        r == spec_u64_from_le_bytes(buf@.subrange(pos as int, pos as int + 8)),
{
    let _n = buf.len();
    u64_from_le_bytes(slice_subrange(buf.as_slice(), pos, pos + 8))
}

/// An owned copy of `buf[pos..pos + n]`.
pub fn read_bytes(buf: &Vec<u8>, pos: usize, n: usize) -> (r: Vec<u8>)
    requires
        pos + n <= buf@.len(),
    ensures
        r@ == buf@.subrange(pos as int, pos as int + n),
{
    let _n = buf.len();
    slice_to_vec(slice_subrange(buf.as_slice(), pos, pos + n))
}

pub fn read_opt_u64_slot(buf: &Vec<u8>, pos: usize) -> (r: Option<Option<u64>>)
    requires
        pos + 9 <= buf@.len(),
    ensures
        match r {
            Option::Some(v) => dec_opt_u64_slot(buf@, pos as int) == Some((v, pos as int + 9)),
            Option::None => dec_opt_u64_slot(buf@, pos as int) is None,
        },
{
    let _n = buf.len();
    let tag = buf[pos];
    if tag == 0 {
        Some(None)
    } else if tag == 1 {
        Some(Some(read_u64_le(buf, pos + 1)))
    } else {
        None
    }
}

pub fn read_opt_u8_slot(buf: &Vec<u8>, pos: usize) -> (r: Option<Option<u8>>)
    requires
        pos + 2 <= buf@.len(),
    ensures
        match r {
            Option::Some(v) => dec_opt_u8_slot(buf@, pos as int) == Some((v, pos as int + 2)),
            Option::None => dec_opt_u8_slot(buf@, pos as int) is None,
        },
{
    let _n = buf.len();
    let tag = buf[pos];
    if tag == 0 {
        Some(None)
    } else if tag == 1 {
        Some(Some(buf[pos + 1]))
    } else {
        None
    }
}

pub fn read_copt_u64(buf: &Vec<u8>, pos: usize) -> (r: Option<Option<u64>>)
    requires
        pos + 12 <= buf@.len(),
    ensures
        match r {
            Option::Some(v) => dec_copt_u64(buf@, pos as int) == Some((v, pos as int + 12)),
            Option::None => dec_copt_u64(buf@, pos as int) is None,
        },
{
    let _n = buf.len();
    let rest_zero = buf[pos + 1] == 0 && buf[pos + 2] == 0 && buf[pos + 3] == 0;
    if buf[pos] == 0 && rest_zero {
        Some(None)
    } else if buf[pos] == 1 && rest_zero {
        Some(Some(read_u64_le(buf, pos + 4)))
    } else {
        None
    }
}

// ---------------------------------------------------------------------------
// Executable writers, in builder style: each returns the buffer grown by
// exactly the encoding of its argument.
// ---------------------------------------------------------------------------
pub fn push_byte(out: Vec<u8>, b: u8) -> (r: Vec<u8>)
    ensures
        r@ == out@.push(b),
{
    let mut out = out;
    out.push(b);
    out
}

pub fn push_bytes(out: Vec<u8>, src: &Vec<u8>) -> (r: Vec<u8>)
    ensures
        r@ == out@ + src@,
{
    let mut out = out;
    let base = Ghost(out@);
    let n = src.len();
    let mut i: usize = 0;
    while i < n
        invariant
            n == src@.len(),
            i <= n,
            out@ == base@ + src@.subrange(0, i as int),
        decreases n - i,
    {
        out.push(src[i]);
        assert(out@ =~= base@ + src@.subrange(0, i + 1));
        i += 1;
    }
    assert(out@ =~= base@ + src@);
    out
}

pub fn push_zeros(out: Vec<u8>, n: usize) -> (r: Vec<u8>)
    ensures
        r@ == out@ + zero_bytes(n as int),
{
    let mut out = out;
    let base = Ghost(out@);
    let mut i: usize = 0;
    while i < n
        invariant
            i <= n,
            out@ == base@ + zero_bytes(i as int),
        decreases n - i,
    {
        out.push(0);
        assert(out@ =~= base@ + zero_bytes(i + 1));
        i += 1;
    }
    out
}

pub fn push_u32_le(out: Vec<u8>, n: u32) -> (r: Vec<u8>)
    ensures
        r@ == out@ + spec_u32_to_le_bytes(n),
{
    let mut out = out;
    let mut tmp = u32_to_le_bytes(n);
    out.append(&mut tmp);
    out
}

pub fn push_u64_le(out: Vec<u8>, n: u64) -> (r: Vec<u8>)
    ensures
        r@ == out@ + spec_u64_to_le_bytes(n),
{
    let mut out = out;
    let mut tmp = u64_to_le_bytes(n);
    out.append(&mut tmp);
    out
}

pub fn push_opt_u64_slot(out: Vec<u8>, o: &Option<u64>) -> (r: Vec<u8>)
    ensures
        r@ == out@ + enc_opt_u64_slot(*o),
{
    match o {
        Option::None => {
            let r = push_zeros(push_byte(out, 0), 8);
            assert(r@ =~= out@ + enc_opt_u64_slot(None::<u64>));
            r
        },
        Option::Some(n) => {
            let r = push_u64_le(push_byte(out, 1), *n);
            assert(r@ =~= out@ + enc_opt_u64_slot(Some(*n)));
            r
        },
    }
}

pub fn push_opt_u8_slot(out: Vec<u8>, o: &Option<u8>) -> (r: Vec<u8>)
    ensures
        r@ == out@ + enc_opt_u8_slot(*o),
{
    match o {
        Option::None => {
            let r = push_byte(push_byte(out, 0), 0);
            assert(r@ =~= out@ + enc_opt_u8_slot(None::<u8>));
            r
        },
        Option::Some(v) => {
            let r = push_byte(push_byte(out, 1), *v);
            assert(r@ =~= out@ + enc_opt_u8_slot(Some(*v)));
            r
        },
    }
}

pub fn push_copt_u64(out: Vec<u8>, o: &Option<u64>) -> (r: Vec<u8>)
    ensures
        r@ == out@ + enc_copt_u64(*o),
{
    match o {
        Option::None => {
            let r = push_zeros(push_zeros(out, 4), 8);
            assert(r@ =~= out@ + enc_copt_u64(None::<u64>));
            r
        },
        Option::Some(n) => {
            let tagged = push_byte(push_byte(push_byte(push_byte(out, 1), 0), 0), 0);
            let r = push_u64_le(tagged, *n);
            assert(r@ =~= out@ + enc_copt_u64(Some(*n)));
            r
        },
    }
}

pub fn read_opt_id_slot(buf: &Vec<u8>, pos: usize) -> (r: Option<Option<Identifier>>)
    requires
        pos + 33 <= buf@.len(),
    ensures
        match r {
            Option::Some(v) => dec_opt_id_slot(buf@, pos as int) == Some(
                (view_opt_id(v), pos as int + 33),
            ) && crate::ids::wf_opt_id(v),
            Option::None => dec_opt_id_slot(buf@, pos as int) is None,
        },
{
    let _n = buf.len();
    let tag = buf[pos];
    if tag == 0 {
        Some(None)
    } else if tag == 1 {
        Some(Some(Identifier::from_bytes(read_bytes(buf, pos + 1, 32))))
    } else {
        None
    }
}

pub fn read_copt_id(buf: &Vec<u8>, pos: usize) -> (r: Option<Option<Identifier>>)
    requires
        pos + 36 <= buf@.len(),
    ensures
        match r {
            Option::Some(v) => dec_copt_id(buf@, pos as int) == Some(
                (view_opt_id(v), pos as int + 36),
            ) && crate::ids::wf_opt_id(v),
            Option::None => dec_copt_id(buf@, pos as int) is None,
        },
{
    let _n = buf.len();
    let rest_zero = buf[pos + 1] == 0 && buf[pos + 2] == 0 && buf[pos + 3] == 0;
    if buf[pos] == 0 && rest_zero {
        Some(None)
    } else if buf[pos] == 1 && rest_zero {
        Some(Some(Identifier::from_bytes(read_bytes(buf, pos + 4, 32))))
    } else {
        None
    }
}

pub fn push_id(out: Vec<u8>, id: &Identifier) -> (r: Vec<u8>)
    ensures
        r@ == out@ + id@,
{
    push_bytes(out, &id.bytes)
}

pub fn push_opt_id_slot(out: Vec<u8>, o: &Option<Identifier>) -> (r: Vec<u8>)
    ensures
        r@ == out@ + enc_opt_id_slot(view_opt_id(*o)),
{
    match o {
        Option::None => {
            let r = push_zeros(push_byte(out, 0), 32);
            assert(r@ =~= out@ + enc_opt_id_slot(None::<Seq<u8>>));
            r
        },
        Option::Some(id) => {
            let r = push_id(push_byte(out, 1), id);
            assert(r@ =~= out@ + enc_opt_id_slot(Some(id@)));
            r
        },
    }
}

pub fn push_copt_id(out: Vec<u8>, o: &Option<Identifier>) -> (r: Vec<u8>)
    ensures
        r@ == out@ + enc_copt_id(view_opt_id(*o)),
{
    match o {
        Option::None => {
            let r = push_zeros(push_zeros(out, 4), 32);
            assert(r@ =~= out@ + enc_copt_id(None::<Seq<u8>>));
            r
        },
        Option::Some(id) => {
            let tagged = push_byte(push_byte(push_byte(push_byte(out, 1), 0), 0), 0);
            let r = push_id(tagged, id);
            assert(r@ =~= out@ + enc_copt_id(Some(id@)));
            r
        },
    }
}

} // verus!


