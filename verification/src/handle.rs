//! The handle primitive: an opaque `u64` identity token, its boundary-entry
//! validation, and the parity rule that encodes a handle's provenance.

use vstd::prelude::*;

verus! {

/// Why a raw 64-bit value was refused, or a table operation failed.
#[derive(Clone, Copy, Debug, PartialEq, Eq, Structural)]
pub enum HandleError {
    /// The reserved value 0 was presented where a handle is required.
    NullHandle,
    /// A table lookup or removal targeted an empty or never-allocated slot,
    /// or a handle of the wrong parity.
    InvalidHandle,
    /// The table's index counter cannot advance without wrapping.
    AllocationExhausted,
}

/// Which allocation strategy minted a handle.
#[derive(Clone, Copy, Debug, PartialEq, Eq, Structural)]
pub enum Provenance {
    /// An even raw value: the address of a leaked native allocation.
    Native,
    /// An odd raw value: an index issued by a `HandleMap`.
    Foreign,
}

/// An opaque 64-bit identity token passed across the foreign-function
/// boundary in place of an object.
///
/// Two invariants govern every valid handle:
/// - the value 0 is reserved for "no object" and is never a valid handle;
/// - for a non-zero handle, the low bit is set exactly when the handle was
///   issued by a `HandleMap` (foreign provenance), and clear exactly when the
///   handle is the address of a leaked native allocation, which is always at
///   least 2-byte aligned (native provenance).
#[derive(Clone, Copy, Debug, PartialEq, Eq, Structural)]
pub struct Handle {
    raw: u64,
}

impl View for Handle {
    type V = u64;

    closed spec fn view(&self) -> u64 {
        self.raw
    }
}

impl Handle {
    /// The handle holding exactly the given raw value.
    pub closed spec fn spec_from_raw_unchecked(raw: u64) -> Handle {
        Handle { raw }
    }

    /// Boundary-entry validation: zero is refused, everything else is carried
    /// through unchanged.
    pub open spec fn spec_from_raw(raw: u64) -> Option<Handle> {
        if raw == 0 {
            None
        } else {
            Some(Handle::spec_from_raw_unchecked(raw))
        }
    }

    /// The provenance a raw value encodes: odd values come from the table,
    /// even values are leaked native addresses.
    pub open spec fn spec_provenance(&self) -> Provenance {
        if self@ % 2 == 1 {
            Provenance::Foreign
        } else {
            Provenance::Native
        }
    }

    /// Construct a handle directly from a native allocation's address. The
    /// caller guarantees the address is non-null and at least 2-byte aligned;
    /// no validation is performed.
    pub fn from_pointer(addr: usize) -> (h: Handle)
        requires
            addr != 0,
            addr % 2 == 0,
        ensures
            h == Handle::spec_from_raw_unchecked(addr as u64),
            h@ == addr as u64,
            h@ != 0,
            h@ % 2 == 0,
    {
        Handle { raw: addr as u64 }
    }

    /// Reinterpret the stored value as a native allocation's address. Callers
    /// must only do so for a handle of native provenance: this is a cast, not
    /// a lookup.
    pub fn as_pointer(&self) -> (addr: usize)
        requires
            self@ != 0,
            self@ % 2 == 0,
            self@ <= usize::MAX as u64,
        ensures
            addr as u64 == self@,
    {
        self.raw as usize
    }

    /// Construct a handle from an externally supplied 64-bit value,
    /// validating only that it is non-zero.
    pub fn from_raw(raw: u64) -> (r: Option<Handle>)
        ensures
            r == Handle::spec_from_raw(raw),
            match r {
                Some(h) => raw != 0 && h@ == raw,
                None => raw == 0,
            },
    {
        if raw == 0 {
            None
        } else {
            Some(Handle { raw })
        }
    }

    /// Construct a handle without the zero check, for internal paths that
    /// have already validated, or that build invalid-by-design sentinels.
    pub fn from_raw_unchecked(raw: u64) -> (h: Handle)
        ensures
            h == Handle::spec_from_raw_unchecked(raw),
            h@ == raw,
    {
        Handle { raw }
    }

    /// Expose the 64-bit value for transmission across the boundary.
    pub fn as_raw(&self) -> (r: u64)
        ensures
            r == self@,
    {
        self.raw
    }

    /// The provenance discriminator (the parity test): which allocation
    /// strategy minted this handle. Meaningful only for a valid (non-zero)
    /// handle.
    pub fn provenance(&self) -> (p: Provenance)
        requires
            self@ != 0,
        ensures
            p == self.spec_provenance(),
    {
        if self.raw % 2 == 1 {
            Provenance::Foreign
        } else {
            Provenance::Native
        }
    }
}

impl Default for Handle {
    /// The default handle is the reserved invalid value.
    fn default() -> (h: Handle)
        ensures
            h == Handle::spec_from_raw_unchecked(0),
            h@ == 0,
    {
        Handle { raw: 0 }
    }
}

/// Validate a raw 64-bit value arriving from the foreign side and decide,
/// before any dereference or lookup, which allocation strategy it must be
/// routed to: zero is refused as `NullHandle`; otherwise the handle and its
/// provenance are returned.
pub fn classify(raw: u64) -> (r: Result<(Handle, Provenance), HandleError>)
    ensures
        match r {
            Ok((h, p)) => raw != 0 && h@ == raw && p == h.spec_provenance(),
            Err(e) => raw == 0 && e == HandleError::NullHandle,
        },
{
    match Handle::from_raw(raw) {
        None => Err(HandleError::NullHandle),
        Some(h) => {
            let p = h.provenance();
            Ok((h, p))
        },
    }
}

/// The handle built by `spec_from_raw_unchecked` stores exactly the raw
/// value it was given.
pub proof fn lemma_spec_from_raw_unchecked_view(raw: u64)
    ensures
        Handle::spec_from_raw_unchecked(raw)@ == raw,
{
}

/// Law: boundary round trip. Every non-zero 64-bit value is accepted by
/// `from_raw` and reads back unchanged through `as_raw`; zero yields no
/// handle.
pub proof fn lemma_raw_round_trip(v: u64)
    ensures
        v != 0 ==> (Handle::spec_from_raw(v) matches Some(h) && h@ == v),
        v == 0 ==> Handle::spec_from_raw(v) is None,
{
}

/// Law: parity round trip, native side. A handle minted from a non-null,
/// at-least-2-byte-aligned address carries that address unchanged, its raw
/// value has the low bit clear, and the discriminator routes it to the
/// native pointer path.
pub proof fn lemma_native_handle_round_trip(addr: usize)
    requires
        addr != 0,
        addr % 2 == 0,
    ensures
        Handle::spec_from_raw_unchecked(addr as u64)@ == addr as u64,
        Handle::spec_from_raw_unchecked(addr as u64)@ % 2 == 0,
        Handle::spec_from_raw_unchecked(addr as u64)@ & 1 == 0,
        Handle::spec_from_raw_unchecked(addr as u64).spec_provenance() == Provenance::Native,
{
    let v = addr as u64;
    assert(v % 2 == 0);
    lemma_low_bit_is_parity(v);
}

/// Law: the low bit of a 64-bit value is its remainder modulo 2, so the
/// parity test `v & 1` and the contracts' `v % 2` agree.
pub proof fn lemma_low_bit_is_parity(v: u64)
    ensures
        (v & 1) == (v % 2),
{
    assert((v & 1) == (v % 2)) by (bit_vector);
}

} // verus!
