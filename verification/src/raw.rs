//! The raw handle: a 64-bit identifier for an object that lives inside the engine.

use vstd::prelude::*;

verus! {

/// Opaque identifier of an object in the engine's handle table.
///
/// Zero is the invalid sentinel ("no object"); every other value names a table
/// entry. A handle carries no meaning beyond equality, and it is meaningful
/// only together with the runtime that issued it.
#[derive(Debug, Clone, Copy, PartialEq, Eq, Hash, Structural)]
pub struct RawHandle(pub u64);

impl RawHandle {
    /// The invalid sentinel.
    pub fn invalid() -> (handle: RawHandle)
        ensures
            handle.0 == 0,
    {
        RawHandle(0)
    }

    /// Whether this handle names an object, that is, whether it is not the sentinel.
    #[inline]
    #[must_use]
    pub fn is_valid(self) -> (valid: bool)
        ensures
            valid == (self.0 != 0),
    {
        self.0 != 0
    }
}

impl Default for RawHandle {
    /// The invalid sentinel.
    fn default() -> (handle: RawHandle)
        ensures
            handle.0 == 0,
    {
        RawHandle(0)
    }
}

impl From<u64> for RawHandle {
    /// The handle with the given value.
    fn from(value: u64) -> (handle: RawHandle) {
        RawHandle(value)
    }
}

impl vstd::std_specs::convert::FromSpecImpl<u64> for RawHandle {
    open spec fn obeys_from_spec() -> bool {
        true
    }

    open spec fn from_spec(value: u64) -> RawHandle {
        RawHandle(value)
    }
}

impl From<RawHandle> for u64 {
    /// The value of the handle.
    fn from(handle: RawHandle) -> (value: u64) {
        handle.0
    }
}

impl vstd::std_specs::convert::FromSpecImpl<RawHandle> for u64 {
    open spec fn obeys_from_spec() -> bool {
        true
    }

    open spec fn from_spec(handle: RawHandle) -> u64 {
        handle.0
    }
}

} // verus!
