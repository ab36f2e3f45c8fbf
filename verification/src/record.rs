//! Fixed-width record codec.
//!
//! Two record kinds are supported, each with a compile-time constant total
//! width: the token record and the associated token account record. Every
//! field occupies a known fixed slot, and optional fields always reserve
//! their payload slot, so the width never depends on which fields are
//! present. The token record uses the one-byte presence convention, the
//! associated token account record the four-byte one; a record kind never
//! mixes conventions.

use vstd::bytes::lemma_auto_spec_u64_to_from_le_bytes;
use vstd::bytes::spec_u64_from_le_bytes;
use vstd::bytes::spec_u64_to_le_bytes;
use vstd::prelude::*;

use crate::errors::CodecError;
use crate::ids::view_opt_id;
use crate::ids::wf_opt_id;
use crate::ids::Identifier;
use crate::primitives::dec_copt_id;
use crate::primitives::dec_copt_u64;
use crate::primitives::dec_opt_id_slot;
use crate::primitives::dec_opt_u64_slot;
use crate::primitives::dec_opt_u8_slot;
use crate::primitives::enc_copt_id;
use crate::primitives::enc_copt_u64;
use crate::primitives::enc_opt_id_slot;
use crate::primitives::enc_opt_u64_slot;
use crate::primitives::enc_opt_u8_slot;
use crate::primitives::lemma_dec_copt_id;
use crate::primitives::lemma_dec_copt_u64;
use crate::primitives::lemma_dec_opt_id_slot;
use crate::primitives::lemma_dec_opt_u64_slot;
use crate::primitives::lemma_dec_opt_u8_slot;
use crate::primitives::push_byte;
use crate::primitives::push_copt_id;
use crate::primitives::push_copt_u64;
use crate::primitives::push_id;
use crate::primitives::push_opt_id_slot;
use crate::primitives::push_opt_u64_slot;
use crate::primitives::push_opt_u8_slot;
use crate::primitives::push_u64_le;
use crate::primitives::read_bytes;
use crate::primitives::read_copt_id;
use crate::primitives::read_copt_u64;
use crate::primitives::read_opt_id_slot;
use crate::primitives::read_opt_u64_slot;
use crate::primitives::read_opt_u8_slot;
use crate::primitives::read_u64_le;

verus! {

/// Total width of an encoded token record.
pub const TOKEN_RECORD_WIDTH: usize = 80;

/// Total width of an encoded associated token account record.
pub const ATA_RECORD_WIDTH: usize = 165;

/// Lock state of a token record.
#[derive(Debug, Clone, Copy, PartialEq, Eq, Structural)]
pub enum TokenState {
    Unlocked,
    Locked,
    Listed,
}

/// Role of a token record's delegate.
#[derive(Debug, Clone, Copy, PartialEq, Eq, Structural)]
pub enum DelegateRole {
    Sale,
    Transfer,
    Utility,
    Staking,
    Migration,
    LockedTransfer,
}

/// State of an associated token account record.
#[derive(Debug, Clone, Copy, PartialEq, Eq, Structural)]
pub enum AtaState {
    Uninitialized,
    Initialized,
    Frozen,
}

pub open spec fn token_state_tag(s: TokenState) -> u8 {
    match s {
        TokenState::Unlocked => 0,
        TokenState::Locked => 1,
        TokenState::Listed => 2,
    }
}

pub open spec fn tag_to_token_state(b: u8) -> Option<TokenState> {
    if b == 0 {
        Some(TokenState::Unlocked)
    } else if b == 1 {
        Some(TokenState::Locked)
    } else if b == 2 {
        Some(TokenState::Listed)
    } else {
        None
    }
}

pub open spec fn role_tag(r: DelegateRole) -> u8 {
    match r {
        DelegateRole::Sale => 0,
        DelegateRole::Transfer => 1,
        DelegateRole::Utility => 2,
        DelegateRole::Staking => 3,
        DelegateRole::Migration => 4,
        DelegateRole::LockedTransfer => 5,
    }
}

pub open spec fn tag_to_role(b: u8) -> Option<DelegateRole> {
    if b == 0 {
        Some(DelegateRole::Sale)
    } else if b == 1 {
        Some(DelegateRole::Transfer)
    } else if b == 2 {
        Some(DelegateRole::Utility)
    } else if b == 3 {
        Some(DelegateRole::Staking)
    } else if b == 4 {
        Some(DelegateRole::Migration)
    } else if b == 5 {
        Some(DelegateRole::LockedTransfer)
    } else {
        None
    }
}

pub open spec fn opt_role_tag(o: Option<DelegateRole>) -> Option<u8> {
    match o {
        Option::None => None,
        Option::Some(r) => Some(role_tag(r)),
    }
}

pub open spec fn ata_state_tag(s: AtaState) -> u8 {
    match s {
        AtaState::Uninitialized => 0,
        AtaState::Initialized => 1,
        AtaState::Frozen => 2,
    }
}

pub open spec fn tag_to_ata_state(b: u8) -> Option<AtaState> {
    if b == 0 {
        Some(AtaState::Uninitialized)
    } else if b == 1 {
        Some(AtaState::Initialized)
    } else if b == 2 {
        Some(AtaState::Frozen)
    } else {
        None
    }
}

/// A token record: the fixed-width record that tracks lock state and
/// delegation of a programmable token.
#[derive(Debug, Clone, PartialEq, Eq)]
pub struct TokenRecord {
    pub key: u8,
    pub bump: u8,
    pub state: TokenState,
    pub rule_set_revision: Option<u64>,
    pub delegate: Option<Identifier>,
    pub delegate_role: Option<DelegateRole>,
    pub locked_transfer: Option<Identifier>,
}

/// Mathematical view of a token record.
pub ghost struct TokenRecordV {
    pub key: u8,
    pub bump: u8,
    pub state: TokenState,
    pub rule_set_revision: Option<u64>,
    pub delegate: Option<Seq<u8>>,
    pub delegate_role: Option<DelegateRole>,
    pub locked_transfer: Option<Seq<u8>>,
}

impl View for TokenRecord {
    type V = TokenRecordV;

    open spec fn view(&self) -> TokenRecordV {
        TokenRecordV {
            key: self.key,
            bump: self.bump,
            state: self.state,
            rule_set_revision: self.rule_set_revision,
            delegate: view_opt_id(self.delegate),
            delegate_role: self.delegate_role,
            locked_transfer: view_opt_id(self.locked_transfer),
        }
    }
}

/// Optional identifier fields hold exactly 32 bytes when present.
pub open spec fn wf_token_record(r: TokenRecordV) -> bool {
    &&& (r.delegate is Some ==> r.delegate.unwrap().len() == 32)
    &&& (r.locked_transfer is Some ==> r.locked_transfer.unwrap().len() == 32)
}

impl TokenRecord {
    pub open spec fn wf(&self) -> bool {
        wf_token_record(self@)
    }

    /// Runtime check of `wf`.
    pub fn is_wf(&self) -> (r: bool)
        ensures
            r == self.wf(),
    {
        let d_ok = match &self.delegate {
            Option::None => true,
            Option::Some(id) => id.is_wf(),
        };
        let l_ok = match &self.locked_transfer {
            Option::None => true,
            Option::Some(id) => id.is_wf(),
        };
        d_ok && l_ok
    }
}

/// The 80 bytes of an encoded token record: key, bump and state bytes, then
/// the four always-reserved optional slots.
pub open spec fn enc_token_record(r: TokenRecordV) -> Seq<u8> {
    seq![r.key, r.bump, token_state_tag(r.state)] + enc_opt_u64_slot(r.rule_set_revision)
        + enc_opt_id_slot(r.delegate) + enc_opt_u8_slot(opt_role_tag(r.delegate_role))
        + enc_opt_id_slot(r.locked_transfer)
}

/// Decodes the fixed 80-byte prefix of `buf`; trailing bytes are ignored.
pub open spec fn dec_token_record(buf: Seq<u8>) -> Option<TokenRecordV> {
    if buf.len() < 80 {
        None
    } else {
        match tag_to_token_state(buf[2]) {
            Option::None => None,
            Option::Some(state) => match dec_opt_u64_slot(buf, 3) {
                Option::None => None,
                Option::Some((rsr, _p1)) => match dec_opt_id_slot(buf, 12) {
                    Option::None => None,
                    Option::Some((del, _p2)) => match dec_opt_u8_slot(buf, 45) {
                        Option::None => None,
                        Option::Some((role_byte, _p3)) => match role_byte {
                            Option::None => match dec_opt_id_slot(buf, 47) {
                                Option::None => None,
                                Option::Some((lt, _p4)) => Some(
                                    TokenRecordV {
                                        key: buf[0],
                                        bump: buf[1],
                                        state,
                                        rule_set_revision: rsr,
                                        delegate: del,
                                        delegate_role: None,
                                        locked_transfer: lt,
                                    },
                                ),
                            },
                            Option::Some(b) => match tag_to_role(b) {
                                Option::None => None,
                                Option::Some(role) => match dec_opt_id_slot(buf, 47) {
                                    Option::None => None,
                                    Option::Some((lt, _p4)) => Some(
                                        TokenRecordV {
                                            key: buf[0],
                                            bump: buf[1],
                                            state,
                                            rule_set_revision: rsr,
                                            delegate: del,
                                            delegate_role: Some(role),
                                            locked_transfer: lt,
                                        },
                                    ),
                                },
                            },
                        },
                    },
                },
            },
        }
    }
}

/// Decodes a token record out of `buf`.
///
/// Returns `TruncatedRecord` exactly when the buffer is shorter than the
/// record's fixed width, and `MalformedRecord` exactly when a presence tag
/// or enum byte lies outside its domain.
pub fn deser_token_record(buf: &Vec<u8>) -> (r: Result<TokenRecord, CodecError>)
    ensures
        buf@.len() < 80 ==> r == Err::<TokenRecord, CodecError>(CodecError::TruncatedRecord),
        buf@.len() >= 80 && dec_token_record(buf@) is None ==> r == Err::<
            TokenRecord,
            CodecError,
        >(CodecError::MalformedRecord),
        dec_token_record(buf@) is Some ==> r is Ok && r.unwrap()@ == dec_token_record(
            buf@,
        ).unwrap() && r.unwrap().wf(),
{
    let n = buf.len();
    if n < TOKEN_RECORD_WIDTH {
        return Err(CodecError::TruncatedRecord);
    }
    let key = buf[0];
    let bump = buf[1];
    let state = if buf[2] == 0 {
        TokenState::Unlocked
    } else if buf[2] == 1 {
        TokenState::Locked
    } else if buf[2] == 2 {
        TokenState::Listed
    } else {
        return Err(CodecError::MalformedRecord);
    };
    let rule_set_revision = match read_opt_u64_slot(buf, 3) {
        Option::Some(v) => v,
        Option::None => {
            return Err(CodecError::MalformedRecord);
        },
    };
    let delegate = match read_opt_id_slot(buf, 12) {
        Option::Some(v) => v,
        Option::None => {
            return Err(CodecError::MalformedRecord);
        },
    };
    let role_byte = match read_opt_u8_slot(buf, 45) {
        Option::Some(v) => v,
        Option::None => {
            return Err(CodecError::MalformedRecord);
        },
    };
    let delegate_role = match role_byte {
        Option::None => None,
        Option::Some(b) => {
            if b == 0 {
                Some(DelegateRole::Sale)
            } else if b == 1 {
                Some(DelegateRole::Transfer)
            } else if b == 2 {
                Some(DelegateRole::Utility)
            } else if b == 3 {
                Some(DelegateRole::Staking)
            } else if b == 4 {
                Some(DelegateRole::Migration)
            } else if b == 5 {
                Some(DelegateRole::LockedTransfer)
            } else {
                return Err(CodecError::MalformedRecord);
            }
        },
    };
    let locked_transfer = match read_opt_id_slot(buf, 47) {
        Option::Some(v) => v,
        Option::None => {
            return Err(CodecError::MalformedRecord);
        },
    };
    Ok(
        TokenRecord {
            key,
            bump,
            state,
            rule_set_revision,
            delegate,
            delegate_role,
            locked_transfer,
        },
    )
}

/// Encodes a token record into exactly its fixed width.
///
/// Returns `FieldTooWide` exactly when a present optional identifier does
/// not fit its 32-byte slot.
pub fn ser_token_record(rec: &TokenRecord) -> (r: Result<Vec<u8>, CodecError>)
    ensures
        rec.wf() ==> r is Ok && r.unwrap()@ == enc_token_record(rec@),
        !rec.wf() ==> r == Err::<Vec<u8>, CodecError>(CodecError::FieldTooWide),
{
    if !rec.is_wf() {
        return Err(CodecError::FieldTooWide);
    }
    let out: Vec<u8> = Vec::new();
    let out = push_byte(out, rec.key);
    let out = push_byte(out, rec.bump);
    let out = push_byte(
        out,
        match rec.state {
            TokenState::Unlocked => 0,
            TokenState::Locked => 1,
            TokenState::Listed => 2,
        },
    );
    let out = push_opt_u64_slot(out, &rec.rule_set_revision);
    let out = push_opt_id_slot(out, &rec.delegate);
    let role_byte: Option<u8> = match &rec.delegate_role {
        Option::None => None,
        Option::Some(role) => Some(
            match role {
                DelegateRole::Sale => 0,
                DelegateRole::Transfer => 1,
                DelegateRole::Utility => 2,
                DelegateRole::Staking => 3,
                DelegateRole::Migration => 4,
                DelegateRole::LockedTransfer => 5,
            },
        ),
    };
    assert(role_byte == opt_role_tag(rec@.delegate_role));
    let out = push_opt_u8_slot(out, &role_byte);
    let out = push_opt_id_slot(out, &rec.locked_transfer);
    assert(out@ =~= enc_token_record(rec@));
    Ok(out)
}

/// Round trip: decoding an encoded token record gives back the record, and
/// the encoding always has the record's fixed width.
pub proof fn lemma_token_record_round_trip(r: TokenRecordV)
    requires
        wf_token_record(r),
    ensures
        enc_token_record(r).len() == 80,
        dec_token_record(enc_token_record(r)) == Some(r),
{
    lemma_auto_spec_u64_to_from_le_bytes();
    let e = enc_token_record(r);
    let a = seq![r.key, r.bump, token_state_tag(r.state)];
    let b = enc_opt_u64_slot(r.rule_set_revision);
    let c = enc_opt_id_slot(r.delegate);
    let d = enc_opt_u8_slot(opt_role_tag(r.delegate_role));
    let f = enc_opt_id_slot(r.locked_transfer);
    assert(b.len() == 9);
    assert(c.len() == 33);
    assert(d.len() == 2);
    assert(f.len() == 33);
    assert(e.len() == 80);
    assert(e[0] == r.key);
    assert(e[1] == r.bump);
    assert(e[2] == token_state_tag(r.state));
    assert(e.subrange(3, 12) =~= b) by {
        assert(forall|i: int| 0 <= i < 9 ==> #[trigger] e.subrange(3, 12)[i] == b[i]);
    }
    assert(e.subrange(12, 45) =~= c) by {
        assert(forall|i: int| 0 <= i < 33 ==> #[trigger] e.subrange(12, 45)[i] == c[i]);
    }
    assert(e.subrange(45, 47) =~= d) by {
        assert(forall|i: int| 0 <= i < 2 ==> #[trigger] e.subrange(45, 47)[i] == d[i]);
    }
    assert(e.subrange(47, 80) =~= f) by {
        assert(forall|i: int| 0 <= i < 33 ==> #[trigger] e.subrange(47, 80)[i] == f[i]);
    }
    lemma_dec_opt_u64_slot(e, 3, r.rule_set_revision);
    lemma_dec_opt_id_slot(e, 12, r.delegate);
    lemma_dec_opt_u8_slot(e, 45, opt_role_tag(r.delegate_role));
    lemma_dec_opt_id_slot(e, 47, r.locked_transfer);
    assert(tag_to_token_state(token_state_tag(r.state)) == Some(r.state));
    match r.delegate_role {
        Option::None => {},
        Option::Some(role) => {
            assert(tag_to_role(role_tag(role)) == Some(role));
        },
    }
}

/// Zero-fill: an absent optional field of a token record leaves its whole
/// reserved slot, presence byte included, all zero.
pub proof fn lemma_token_record_absent_slots_zero(r: TokenRecordV)
    requires
        wf_token_record(r),
    ensures
        r.rule_set_revision is None ==> forall|i: int|
            3 <= i < 12 ==> #[trigger] enc_token_record(r)[i] == 0,
        r.delegate is None ==> forall|i: int|
            12 <= i < 45 ==> #[trigger] enc_token_record(r)[i] == 0,
        r.delegate_role is None ==> forall|i: int|
            45 <= i < 47 ==> #[trigger] enc_token_record(r)[i] == 0,
        r.locked_transfer is None ==> forall|i: int|
            47 <= i < 80 ==> #[trigger] enc_token_record(r)[i] == 0,
{
    lemma_auto_spec_u64_to_from_le_bytes();
    let e = enc_token_record(r);
    let b = enc_opt_u64_slot(r.rule_set_revision);
    let c = enc_opt_id_slot(r.delegate);
    let d = enc_opt_u8_slot(opt_role_tag(r.delegate_role));
    let f = enc_opt_id_slot(r.locked_transfer);
    assert(b.len() == 9);
    assert(c.len() == 33);
    assert(d.len() == 2);
    assert(f.len() == 33);
    assert(forall|i: int| 3 <= i < 12 ==> #[trigger] e[i] == b[i - 3]);
    assert(forall|i: int| 12 <= i < 45 ==> #[trigger] e[i] == c[i - 12]);
    assert(forall|i: int| 45 <= i < 47 ==> #[trigger] e[i] == d[i - 45]);
    assert(forall|i: int| 47 <= i < 80 ==> #[trigger] e[i] == f[i - 47]);
}

/// An associated token account record: the fixed-width record that tracks
/// ownership, balance and delegation of a token account.
#[derive(Debug, Clone, PartialEq, Eq)]
pub struct AtaRecord {
    pub mint: Identifier,
    pub owner: Identifier,
    pub amount: u64,
    pub delegate: Option<Identifier>,
    pub state: AtaState,
    pub is_native: Option<u64>,
    pub delegated_amount: u64,
    pub close_authority: Option<Identifier>,
}

/// Mathematical view of an associated token account record.
pub ghost struct AtaRecordV {
    pub mint: Seq<u8>,
    pub owner: Seq<u8>,
    pub amount: u64,
    pub delegate: Option<Seq<u8>>,
    pub state: AtaState,
    pub is_native: Option<u64>,
    pub delegated_amount: u64,
    pub close_authority: Option<Seq<u8>>,
}

impl View for AtaRecord {
    type V = AtaRecordV;

    open spec fn view(&self) -> AtaRecordV {
        AtaRecordV {
            mint: self.mint@,
            owner: self.owner@,
            amount: self.amount,
            delegate: view_opt_id(self.delegate),
            state: self.state,
            is_native: self.is_native,
            delegated_amount: self.delegated_amount,
            close_authority: view_opt_id(self.close_authority),
        }
    }
}

/// Identifier fields hold exactly 32 bytes (when present).
pub open spec fn wf_ata_record(r: AtaRecordV) -> bool {
    &&& r.mint.len() == 32
    &&& r.owner.len() == 32
    &&& (r.delegate is Some ==> r.delegate.unwrap().len() == 32)
    &&& (r.close_authority is Some ==> r.close_authority.unwrap().len() == 32)
}

impl AtaRecord {
    pub open spec fn wf(&self) -> bool {
        wf_ata_record(self@)
    }

    /// Runtime check of `wf`.
    pub fn is_wf(&self) -> (r: bool)
        ensures
            r == self.wf(),
    {
        let d_ok = match &self.delegate {
            Option::None => true,
            Option::Some(id) => id.is_wf(),
        };
        let c_ok = match &self.close_authority {
            Option::None => true,
            Option::Some(id) => id.is_wf(),
        };
        self.mint.is_wf() && self.owner.is_wf() && d_ok && c_ok
    }
}

/// The 165 bytes of an encoded associated token account record.
pub open spec fn enc_ata_record(r: AtaRecordV) -> Seq<u8> {
    r.mint + r.owner + spec_u64_to_le_bytes(r.amount) + enc_copt_id(r.delegate) + seq![
        ata_state_tag(r.state),
    ] + enc_copt_u64(r.is_native) + spec_u64_to_le_bytes(r.delegated_amount) + enc_copt_id(
        r.close_authority,
    )
}

/// Decodes the fixed 165-byte prefix of `buf`; trailing bytes are ignored.
pub open spec fn dec_ata_record(buf: Seq<u8>) -> Option<AtaRecordV> {
    if buf.len() < 165 {
        None
    } else {
        match dec_copt_id(buf, 72) {
            Option::None => None,
            Option::Some((del, _p1)) => match tag_to_ata_state(buf[108]) {
                Option::None => None,
                Option::Some(state) => match dec_copt_u64(buf, 109) {
                    Option::None => None,
                    Option::Some((is_native, _p2)) => match dec_copt_id(buf, 129) {
                        Option::None => None,
                        Option::Some((close_auth, _p3)) => Some(
                            AtaRecordV {
                                mint: buf.subrange(0, 32),
                                owner: buf.subrange(32, 64),
                                amount: spec_u64_from_le_bytes(buf.subrange(64, 72)),
                                delegate: del,
                                state,
                                is_native,
                                delegated_amount: spec_u64_from_le_bytes(buf.subrange(121, 129)),
                                close_authority: close_auth,
                            },
                        ),
                    },
                },
            },
        }
    }
}

/// Decodes an associated token account record out of `buf`.
///
/// Returns `TruncatedRecord` exactly when the buffer is shorter than the
/// record's fixed width, and `MalformedRecord` exactly when a presence tag
/// or the state byte lies outside its domain.
pub fn deser_ata(buf: &Vec<u8>) -> (r: Result<AtaRecord, CodecError>)
    ensures
        buf@.len() < 165 ==> r == Err::<AtaRecord, CodecError>(CodecError::TruncatedRecord),
        buf@.len() >= 165 && dec_ata_record(buf@) is None ==> r == Err::<AtaRecord, CodecError>(
            CodecError::MalformedRecord,
        ),
        dec_ata_record(buf@) is Some ==> r is Ok && r.unwrap()@ == dec_ata_record(buf@).unwrap()
            && r.unwrap().wf(),
{
    let n = buf.len();
    if n < ATA_RECORD_WIDTH {
        return Err(CodecError::TruncatedRecord);
    }
    let mint = Identifier::from_bytes(read_bytes(buf, 0, 32));
    let owner = Identifier::from_bytes(read_bytes(buf, 32, 32));
    let amount = read_u64_le(buf, 64);
    let delegate = match read_copt_id(buf, 72) {
        Option::Some(v) => v,
        Option::None => {
            return Err(CodecError::MalformedRecord);
        },
    };
    let state = if buf[108] == 0 {
        AtaState::Uninitialized
    } else if buf[108] == 1 {
        AtaState::Initialized
    } else if buf[108] == 2 {
        AtaState::Frozen
    } else {
        return Err(CodecError::MalformedRecord);
    };
    let is_native = match read_copt_u64(buf, 109) {
        Option::Some(v) => v,
        Option::None => {
            return Err(CodecError::MalformedRecord);
        },
    };
    let delegated_amount = read_u64_le(buf, 121);
    let close_authority = match read_copt_id(buf, 129) {
        Option::Some(v) => v,
        Option::None => {
            return Err(CodecError::MalformedRecord);
        },
    };
    Ok(
        AtaRecord {
            mint,
            owner,
            amount,
            delegate,
            state,
            is_native,
            delegated_amount,
            close_authority,
        },
    )
}

/// Encodes an associated token account record into exactly its fixed width.
///
/// Returns `FieldTooWide` exactly when an identifier field does not fit its
/// 32-byte slot.
pub fn ser_ata(rec: &AtaRecord) -> (r: Result<Vec<u8>, CodecError>)
    ensures
        rec.wf() ==> r is Ok && r.unwrap()@ == enc_ata_record(rec@),
        !rec.wf() ==> r == Err::<Vec<u8>, CodecError>(CodecError::FieldTooWide),
{
    if !rec.is_wf() {
        return Err(CodecError::FieldTooWide);
    }
    let out: Vec<u8> = Vec::new();
    let out = push_id(out, &rec.mint);
    let out = push_id(out, &rec.owner);
    let out = push_u64_le(out, rec.amount);
    let out = push_copt_id(out, &rec.delegate);
    let out = push_byte(
        out,
        match rec.state {
            AtaState::Uninitialized => 0,
            AtaState::Initialized => 1,
            AtaState::Frozen => 2,
        },
    );
    let out = push_copt_u64(out, &rec.is_native);
    let out = push_u64_le(out, rec.delegated_amount);
    let out = push_copt_id(out, &rec.close_authority);
    assert(out@ =~= enc_ata_record(rec@));
    Ok(out)
}

/// Round trip: decoding an encoded associated token account record gives
/// back the record, and the encoding always has the record's fixed width.
pub proof fn lemma_ata_record_round_trip(r: AtaRecordV)
    requires
        wf_ata_record(r),
    ensures
        enc_ata_record(r).len() == 165,
        dec_ata_record(enc_ata_record(r)) == Some(r),
{
    lemma_auto_spec_u64_to_from_le_bytes();
    let e = enc_ata_record(r);
    let am = spec_u64_to_le_bytes(r.amount);
    let dl = enc_copt_id(r.delegate);
    let nv = enc_copt_u64(r.is_native);
    let da = spec_u64_to_le_bytes(r.delegated_amount);
    let ca = enc_copt_id(r.close_authority);
    assert(am.len() == 8);
    assert(dl.len() == 36);
    assert(nv.len() == 12);
    assert(da.len() == 8);
    assert(ca.len() == 36);
    assert(e.len() == 165);
    assert(e.subrange(0, 32) =~= r.mint) by {
        assert(forall|i: int| 0 <= i < 32 ==> #[trigger] e.subrange(0, 32)[i] == r.mint[i]);
    }
    assert(e.subrange(32, 64) =~= r.owner) by {
        assert(forall|i: int| 0 <= i < 32 ==> #[trigger] e.subrange(32, 64)[i] == r.owner[i]);
    }
    assert(e.subrange(64, 72) =~= am) by {
        assert(forall|i: int| 0 <= i < 8 ==> #[trigger] e.subrange(64, 72)[i] == am[i]);
    }
    assert(e.subrange(72, 108) =~= dl) by {
        assert(forall|i: int| 0 <= i < 36 ==> #[trigger] e.subrange(72, 108)[i] == dl[i]);
    }
    assert(e[108] == ata_state_tag(r.state));
    assert(e.subrange(109, 121) =~= nv) by {
        assert(forall|i: int| 0 <= i < 12 ==> #[trigger] e.subrange(109, 121)[i] == nv[i]);
    }
    assert(e.subrange(121, 129) =~= da) by {
        assert(forall|i: int| 0 <= i < 8 ==> #[trigger] e.subrange(121, 129)[i] == da[i]);
    }
    assert(e.subrange(129, 165) =~= ca) by {
        assert(forall|i: int| 0 <= i < 36 ==> #[trigger] e.subrange(129, 165)[i] == ca[i]);
    }
    lemma_dec_copt_id(e, 72, r.delegate);
    lemma_dec_copt_u64(e, 109, r.is_native);
    lemma_dec_copt_id(e, 129, r.close_authority);
    assert(tag_to_ata_state(ata_state_tag(r.state)) == Some(r.state));
    assert(spec_u64_from_le_bytes(e.subrange(64, 72)) == r.amount);
    assert(spec_u64_from_le_bytes(e.subrange(121, 129)) == r.delegated_amount);
}

/// Zero-fill: an absent optional field of an associated token account
/// record leaves its whole reserved slot, presence tag included, all zero.
pub proof fn lemma_ata_record_absent_slots_zero(r: AtaRecordV)
    requires
        wf_ata_record(r),
    ensures
        r.delegate is None ==> forall|i: int|
            72 <= i < 108 ==> #[trigger] enc_ata_record(r)[i] == 0,
        r.is_native is None ==> forall|i: int|
            109 <= i < 121 ==> #[trigger] enc_ata_record(r)[i] == 0,
        r.close_authority is None ==> forall|i: int|
            129 <= i < 165 ==> #[trigger] enc_ata_record(r)[i] == 0,
{
    lemma_auto_spec_u64_to_from_le_bytes();
    let e = enc_ata_record(r);
    let am = spec_u64_to_le_bytes(r.amount);
    let dl = enc_copt_id(r.delegate);
    let nv = enc_copt_u64(r.is_native);
    let da = spec_u64_to_le_bytes(r.delegated_amount);
    let ca = enc_copt_id(r.close_authority);
    assert(am.len() == 8);
    assert(dl.len() == 36);
    assert(nv.len() == 12);
    assert(da.len() == 8);
    assert(ca.len() == 36);
    assert(forall|i: int| 72 <= i < 108 ==> #[trigger] e[i] == dl[i - 72]);
    assert(forall|i: int| 109 <= i < 121 ==> #[trigger] e[i] == nv[i - 109]);
    assert(forall|i: int| 129 <= i < 165 ==> #[trigger] e[i] == ca[i - 129]);
}

} // verus!
