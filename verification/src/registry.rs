//! Plugin registry walker.
//!
//! After a header, a buffer may carry a registry of tagged sub-records: a
//! four-byte entry count followed by fixed-width entries, each holding a
//! plugin kind, an authority and the absolute byte offset of the plugin's
//! payload inside the owning buffer.
//!
//! Payloads are decoded by re-slicing the buffer at an entry's offset,
//! independently for every entry: no cursor is shared between decodes, so
//! decoding one entry can never disturb another. The walker is read-only;
//! the patch engine never rewrites the registry.

use vstd::bytes::spec_u32_from_le_bytes;
use vstd::prelude::*;

use crate::errors::CodecError;
use crate::ids::Identifier;
use crate::primitives::dec_u32;
use crate::primitives::dec_u8;
use crate::primitives::read_bytes;
use crate::primitives::read_u32_le;

verus! {

/// Width of one encoded registry entry: kind byte, 32-byte authority and
/// four-byte payload offset.
pub const ENTRY_WIDTH: usize = 37;

/// One registry entry: which plugin, who governs it, and where in the
/// owning buffer its payload starts.
#[derive(Debug, Clone, PartialEq, Eq)]
pub struct RegistryEntry {
    pub kind: u8,
    pub authority: Identifier,
    pub offset: u32,
}

/// Mathematical view of a registry entry.
pub ghost struct RegistryEntryV {
    pub kind: u8,
    pub authority: Seq<u8>,
    pub offset: u32,
}

impl View for RegistryEntry {
    type V = RegistryEntryV;

    open spec fn view(&self) -> RegistryEntryV {
        RegistryEntryV { kind: self.kind, authority: self.authority@, offset: self.offset }
    }
}

/// A decoded plugin payload, keyed by the tag byte at its offset.
#[derive(Debug, Clone, Copy, PartialEq, Eq, Structural)]
pub enum PluginPayload {
    Freeze { frozen: bool },
    Burn,
    Transfer,
    Edition { number: u32 },
}

/// The entry whose encoding starts at `p`.
pub open spec fn entry_at(buf: Seq<u8>, p: int) -> RegistryEntryV
    recommends
        0 <= p,
        p + 37 <= buf.len(),
{
    RegistryEntryV {
        kind: buf[p],
        authority: buf.subrange(p + 1, p + 33),
        offset: spec_u32_from_le_bytes(buf.subrange(p + 33, p + 37)),
    }
}

/// The registry declared at `hlen`: the entry count, then that many
/// fixed-width entries. `None` when the declared count implies entries
/// beyond the buffer end.
pub open spec fn dec_registry(buf: Seq<u8>, hlen: int) -> Option<Seq<RegistryEntryV>> {
    match dec_u32(buf, hlen) {
        Option::None => None,
        Option::Some((count, p)) => if p + 37 * count <= buf.len() {
            Some(Seq::new(count as nat, |i: int| entry_at(buf, p + 37 * i)))
        } else {
            None
        },
    }
}

/// The payload whose encoding starts at `off`: a tag byte, then the
/// variant's own fields.
pub open spec fn dec_payload(buf: Seq<u8>, off: int) -> Option<PluginPayload> {
    match dec_u8(buf, off) {
        Option::None => None,
        Option::Some((tag, p)) => if tag == 0 {
            match dec_u8(buf, p) {
                Option::None => None,
                Option::Some((b, _p2)) => if b == 0 {
                    Some(PluginPayload::Freeze { frozen: false })
                } else if b == 1 {
                    Some(PluginPayload::Freeze { frozen: true })
                } else {
                    None
                },
            }
        } else if tag == 1 {
            Some(PluginPayload::Burn)
        } else if tag == 2 {
            Some(PluginPayload::Transfer)
        } else if tag == 3 {
            match dec_u32(buf, p) {
                Option::None => None,
                Option::Some((nb, _p2)) => Some(PluginPayload::Edition { number: nb }),
            }
        } else {
            None
        },
    }
}

/// Lists the registry entries declared at `header_len`.
///
/// Returns `MalformedRegistry` exactly when the count prefix itself or the
/// declared number of entries runs past the buffer end.
pub fn list_entries(buf: &Vec<u8>, header_len: usize) -> (r: Result<Vec<RegistryEntry>, CodecError>)
    ensures
        dec_registry(buf@, header_len as int) is None ==> r == Err::<
            Vec<RegistryEntry>,
            CodecError,
        >(CodecError::MalformedRegistry),
        dec_registry(buf@, header_len as int) is Some ==> {
            &&& r is Ok
            &&& r.unwrap()@.len() == dec_registry(buf@, header_len as int).unwrap().len()
            &&& forall|i: int|
                0 <= i < r.unwrap()@.len() ==> #[trigger] r.unwrap()@[i]@ == dec_registry(
                    buf@,
                    header_len as int,
                ).unwrap()[i]
        },
{
    let n = buf.len();
    if n < 4 || header_len > n - 4 {
        return Err(CodecError::MalformedRegistry);
    }
    let count = read_u32_le(buf, header_len) as usize;
    let p0 = header_len + 4;
    if count > (n - p0) / ENTRY_WIDTH {
        assert(p0 + 37 * count > n);
        return Err(CodecError::MalformedRegistry);
    }
    assert(p0 + 37 * count <= n);
    let ghost es = dec_registry(buf@, header_len as int).unwrap();
    let mut entries: Vec<RegistryEntry> = Vec::new();
    let mut i: usize = 0;
    while i < count
        invariant
            n == buf@.len(),
            p0 + 37 * count <= n,
            i <= count,
            es == dec_registry(buf@, p0 as int - 4).unwrap(),
            es.len() == count,
            forall|j: int| 0 <= j < count ==> #[trigger] es[j] == entry_at(buf@, p0 + 37 * j),
            entries@.len() == i,
            forall|j: int| 0 <= j < i ==> #[trigger] entries@[j]@ == es[j],
        decreases count - i,
    {
        assert(37 * i < 37 * count);
        let p = p0 + ENTRY_WIDTH * i;
        let kind = buf[p];
        let authority = Identifier::from_bytes(read_bytes(buf, p + 1, 32));
        let offset = read_u32_le(buf, p + 33);
        let entry = RegistryEntry { kind, authority, offset };
        assert(entry@ == entry_at(buf@, p as int));
        entries.push(entry);
        i += 1;
    }
    Ok(entries)
}

/// Decodes the payload of one registry entry by re-slicing the buffer at
/// the entry's offset; no cursor state survives between calls.
///
/// Returns `MalformedRegistry` exactly when the tag at the offset names no
/// known plugin kind or the payload runs past the buffer end.
pub fn decode_payload(buf: &Vec<u8>, entry: &RegistryEntry) -> (r: Result<PluginPayload, CodecError>)
    ensures
        dec_payload(buf@, entry.offset as int) is None ==> r == Err::<PluginPayload, CodecError>(
            CodecError::MalformedRegistry,
        ),
        dec_payload(buf@, entry.offset as int) is Some ==> r == Ok::<PluginPayload, CodecError>(
            dec_payload(buf@, entry.offset as int).unwrap(),
        ),
{
    let n = buf.len();
    let off = entry.offset as usize;
    if off >= n {
        return Err(CodecError::MalformedRegistry);
    }
    let tag = buf[off];
    if tag == 0 {
        if n - (off + 1) < 1 {
            return Err(CodecError::MalformedRegistry);
        }
        let b = buf[off + 1];
        if b == 0 {
            Ok(PluginPayload::Freeze { frozen: false })
        } else if b == 1 {
            Ok(PluginPayload::Freeze { frozen: true })
        } else {
            Err(CodecError::MalformedRegistry)
        }
    } else if tag == 1 {
        Ok(PluginPayload::Burn)
    } else if tag == 2 {
        Ok(PluginPayload::Transfer)
    } else if tag == 3 {
        if n - (off + 1) < 4 {
            return Err(CodecError::MalformedRegistry);
        }
        Ok(PluginPayload::Edition { number: read_u32_le(buf, off + 1) })
    } else {
        Err(CodecError::MalformedRegistry)
    }
}

/// Registry independence: what a payload decode returns depends only on the
/// buffer contents from its own offset on. Decoding any other entry first,
/// in any order, cannot change the outcome, because no decode shares cursor
/// state with another.
pub proof fn lemma_payload_depends_only_on_tail(b1: Seq<u8>, o1: int, b2: Seq<u8>, o2: int)
    requires
        0 <= o1 <= b1.len(),
        0 <= o2 <= b2.len(),
        b1.skip(o1) == b2.skip(o2),
    ensures
        dec_payload(b1, o1) == dec_payload(b2, o2),
{
    let t1 = b1.skip(o1);
    let t2 = b2.skip(o2);
    assert(b1.len() - o1 == b2.len() - o2);
    assert(forall|i: int| 0 <= i < t1.len() ==> b1[o1 + i] == #[trigger] t1[i]);
    assert(forall|i: int| 0 <= i < t2.len() ==> b2[o2 + i] == #[trigger] t2[i]);
    if o1 + 1 <= b1.len() {
        assert(b1[o1] == t1[0]);
        assert(b2[o2] == t2[0]);
        let tag = b1[o1];
        if tag == 0 {
            if o1 + 2 <= b1.len() {
                assert(b1[o1 + 1] == t1[1]);
                assert(b2[o2 + 1] == t2[1]);
            }
        } else if tag == 3 {
            if o1 + 5 <= b1.len() {
                assert(b1.subrange(o1 + 1, o1 + 5) =~= b2.subrange(o2 + 1, o2 + 5)) by {
                    assert(forall|i: int|
                        0 <= i < 4 ==> #[trigger] b1.subrange(o1 + 1, o1 + 5)[i] == t1[1 + i]);
                    assert(forall|i: int|
                        0 <= i < 4 ==> #[trigger] b2.subrange(o2 + 1, o2 + 5)[i] == t2[1 + i]);
                }
            }
        }
    }
}

} // verus!
