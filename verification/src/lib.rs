//! Optional-scalar adapter for a protocol-buffer style schema.
//!
//! A scalar field that may be absent on the wire is carried in a
//! single-field wrapper record rather than a native optional type.  This
//! crate defines those wrapper records and the bidirectional conversions
//! between each bare scalar (signed and unsigned 64-bit integers, UTF-8
//! text) and its wrapper, together with proofs that every conversion
//! round-trips exactly.

pub mod laws;
pub mod wrappers;
