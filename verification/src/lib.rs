//! Opaque 64-bit handles that carry object identity across a foreign-function
//! boundary, together with the native-side table that backs foreign-created
//! objects.
//!
//! A handle is minted in one of two ways: by leaking a native allocation and
//! storing its address (always even, since such allocations are at least
//! 2-byte aligned), or by the [`table::HandleMap`], which issues odd indices
//! only. The value 0 is reserved as the invalid handle. Any consumer of a raw
//! 64-bit value can therefore recover the handle's provenance from the low
//! bit alone.

pub mod handle;
pub mod table;
