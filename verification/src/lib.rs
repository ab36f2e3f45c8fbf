//! Codec and in-place patch engine for fixed-layout on-chain account records.
//!
//! The library decodes typed views out of raw account bytes, applies narrow
//! fixed-width field mutations, and re-encodes buffers that are byte-length
//! identical to the originals, so that trailing extension data the decoder
//! does not model survives untouched.

pub mod errors;
pub mod header;
pub mod ids;
pub mod patch;
pub mod primitives;
pub mod record;
pub mod registry;
pub mod store;
pub mod transport;
