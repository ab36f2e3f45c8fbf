use vstd::prelude::*;

verus! {

/// Failure taxonomy of the codec, the patch engine and the store boundary.
/// Every error is terminal for the operation that raised it; nothing is
/// retried inside the library.
#[derive(Debug, Clone, Copy, PartialEq, Eq, Structural)]
pub enum CodecError {
    /// A header's discriminant tag did not match any supported record kind,
    /// or a variable-length header field ran past the end of the buffer.
    MalformedHeader,
    /// A fixed-width record buffer is shorter than the record's fixed width.
    TruncatedRecord,
    /// A byte inside a fixed-width record lies outside its field's domain
    /// (a presence tag other than 0 or 1, or an enum byte with no variant).
    MalformedRecord,
    /// The plugin registry declares entries that lie beyond the buffer end,
    /// or a payload could not be decoded from its recorded offset.
    MalformedRegistry,
    /// Re-encoding a patched header produced a different length than the
    /// header region of the original buffer; splicing would corrupt the
    /// extension region, so the patch is refused.
    LengthMismatch,
    /// The requested mutation targets a variable-width field, or a field the
    /// record kind does not have.
    UnsupportedMutation,
    /// A field value does not fit the fixed-width slot reserved for it.
    FieldTooWide,
    /// The account store handed back something the transport conventions do
    /// not allow (no data entry, or bytes that are not valid base64).
    StoreUnavailable,
    /// The account store has no record under the requested identifier.
    RecordAbsent,
    /// A textual account identifier could not be parsed.
    InvalidKey,
}

} // verus!
