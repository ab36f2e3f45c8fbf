use vstd::prelude::*;

verus! {

/// Number of bytes in a fixed-length account identifier.
pub const ID_LEN: usize = 32;

/// The view of an optional identifier: the byte sequence it holds, if any.
pub open spec fn view_opt_id(o: Option<Identifier>) -> Option<Seq<u8>> {
    match o {
        Option::None => None,
        Option::Some(id) => Some(id@),
    }
}

/// A well-formed optional identifier is either absent or holds `ID_LEN` bytes.
pub open spec fn wf_opt_id(o: Option<Identifier>) -> bool {
    match o {
        Option::None => true,
        Option::Some(id) => id.wf(),
    }
}

/// A fixed-length public identifier: the key of a record in the account
/// store, and the value held by owner / authority / delegate fields.
#[derive(Debug, Clone, PartialEq, Eq)]
pub struct Identifier {
    pub bytes: Vec<u8>,
}

impl View for Identifier {
    type V = Seq<u8>;

    open spec fn view(&self) -> Seq<u8> {
        self.bytes@
    }
}

impl Identifier {
    /// A well-formed identifier holds exactly `ID_LEN` bytes.
    pub open spec fn wf(&self) -> bool {
        self@.len() == ID_LEN
    }

    pub fn from_bytes(bytes: Vec<u8>) -> (r: Identifier)
        ensures
            r@ == bytes@,
    {
        Identifier { bytes }
    }

    /// Runtime check of `wf`.
    pub fn is_wf(&self) -> (r: bool)
        ensures
            r == self.wf(),
    {
        self.bytes.len() == ID_LEN
    }
}

} // verus!
