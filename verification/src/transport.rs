//! Transport conventions of the account store boundary.
//!
//! Bytes fetched from the store arrive as base64 text; bytes written back
//! are sent as hex text; account identifiers travel as base58 text. These
//! encodings are wire conventions, not part of the record format, so the
//! conversions are made explicitly and nowhere else.

use std::str::FromStr;

use vstd::prelude::*;

use crate::errors::CodecError;
use crate::ids::Identifier;

verus! {

/// What the base64 decoder returns for a given text: the decoded bytes if
/// the text is valid standard base64, absent otherwise. The result depends
/// on the characters alone.
pub uninterp spec fn b64_decoded(s: Seq<char>) -> Option<Seq<u8>>;

/// Relies on base64's `Engine::decode` with the standard alphabet: a pure
/// function of the input text, `Ok` exactly on valid base64.
#[verifier::external_body]
fn b64_decode(s: &str) -> (r: Option<Vec<u8>>)
    ensures
        r is Some <==> b64_decoded(s@) is Some,
        r is Some ==> Some(r.unwrap()@) == b64_decoded(s@),
{
    match base64::Engine::decode(&base64::engine::general_purpose::STANDARD, s) {
        Ok(v) => Some(v),
        Err(_) => None,
    }
}

/// Decodes the base64 text the account store hands out for a record.
///
/// Returns `StoreUnavailable` exactly when the text is not valid base64:
/// the encoding is a convention of the store's transport, so text that
/// breaks it means the store handed back something unusable.
pub fn b64_to_bytes(b64: &str) -> (r: Result<Vec<u8>, CodecError>)
    ensures
        r is Ok <==> b64_decoded(b64@) is Some,
        r is Ok ==> Some(r.unwrap()@) == b64_decoded(b64@),
        r is Err ==> r == Err::<Vec<u8>, CodecError>(CodecError::StoreUnavailable),
{
    match b64_decode(b64) {
        Option::Some(v) => Ok(v),
        Option::None => Err(CodecError::StoreUnavailable),
    }
}

/// The lowercase hex digit of a nibble.
pub open spec fn hex_digit(n: u8) -> char
    recommends
        n < 16,
{
    if n == 0 {
        '0'
    } else if n == 1 {
        '1'
    } else if n == 2 {
        '2'
    } else if n == 3 {
        '3'
    } else if n == 4 {
        '4'
    } else if n == 5 {
        '5'
    } else if n == 6 {
        '6'
    } else if n == 7 {
        '7'
    } else if n == 8 {
        '8'
    } else if n == 9 {
        '9'
    } else if n == 10 {
        'a'
    } else if n == 11 {
        'b'
    } else if n == 12 {
        'c'
    } else if n == 13 {
        'd'
    } else if n == 14 {
        'e'
    } else {
        'f'
    }
}

/// The lowercase hex text of a byte sequence: two digits per byte, high
/// nibble first.
pub open spec fn hex_of(b: Seq<u8>) -> Seq<char> {
    Seq::new(
        (2 * b.len()) as nat,
        |i: int|
            if i % 2 == 0 {
                hex_digit(b[i / 2] >> 4)
            } else {
                hex_digit(b[i / 2] & 15)
            },
    )
}

/// Relies on hex::encode: lowercase digits, exactly two per byte, high
/// nibble first.
#[verifier::external_body]
fn hex_encode(b: &Vec<u8>) -> (r: String)
    ensures
        r@ == hex_of(b@),
{
    hex::encode(b.as_slice())
}

/// Encodes record bytes as the hex text the account store's write path
/// expects. Never fails; the `Result` mirrors the front end's signature.
pub fn bytes_to_hex(bytes: &Vec<u8>) -> (r: Result<String, CodecError>)
    ensures
        r is Ok,
        r.unwrap()@ == hex_of(bytes@),
{
    Ok(hex_encode(bytes))
}

/// What the identifier parser returns for a given text: the 32 decoded
/// bytes if the text is a well-formed base58 identifier, absent otherwise.
/// The result depends on the characters alone.
pub uninterp spec fn key_bytes_of(s: Seq<char>) -> Option<Seq<u8>>;

/// Relies on solana_pubkey's `Pubkey::from_str`: base58-decodes the text
/// into exactly 32 bytes, `Ok` exactly on well-formed identifier text.
#[verifier::external_body]
fn pubkey_parse(s: &str) -> (r: Option<Identifier>)
    ensures
        r is Some <==> key_bytes_of(s@) is Some,
        r is Some ==> Some(r.unwrap()@) == key_bytes_of(s@) && r.unwrap()@.len() == 32,
{
    match solana_pubkey::Pubkey::from_str(s) {
        Ok(pk) => Some(Identifier { bytes: pk.to_bytes().to_vec() }),
        Err(_) => None,
    }
}

/// Parses an identifier out of its textual base58 form.
///
/// Returns `InvalidKey` exactly when the text is not a well-formed
/// identifier.
pub fn key_from_str(s: &str) -> (r: Result<Identifier, CodecError>)
    ensures
        r is Ok <==> key_bytes_of(s@) is Some,
        r is Ok ==> Some(r.unwrap()@) == key_bytes_of(s@) && r.unwrap().wf(),
        r is Err ==> r == Err::<Identifier, CodecError>(CodecError::InvalidKey),
{
    match pubkey_parse(s) {
        Option::Some(id) => Ok(id),
        Option::None => Err(CodecError::InvalidKey),
    }
}

/// Checks that a textual identifier is well formed, as the command front
/// end does before touching the store.
pub fn check_key_valid(key: &str) -> (r: Result<(), CodecError>)
    ensures
        r is Ok <==> key_bytes_of(key@) is Some,
        r is Err ==> r == Err::<(), CodecError>(CodecError::InvalidKey),
{
    match key_from_str(key) {
        Ok(_) => Ok(()),
        Err(e) => Err(e),
    }
}

} // verus!
