//! Typed failures surfaced by the resource-lifecycle layer.

use vstd::prelude::*;

verus! {

/// Everything that can go wrong while mapping, accessing or registering a
/// device resource. No operation in this crate panics; each fallible one
/// says in its contract exactly which of these it returns, and when.
#[derive(Clone, Copy, Debug, PartialEq, Eq, Structural)]
pub enum Error {
    /// A resource or IRQ descriptor the caller asked for does not exist,
    /// or the owning device is already being torn down.
    NoSuchDevice,
    /// An exclusive reservation was requested for a physical range that
    /// overlaps one already reserved.
    Busy,
    /// Mapping the physical range into the address space failed.
    OutOfMemory,
    /// A zero-sized resource, a resource too small for the requested
    /// fixed-size mapping, or an out-of-range offset on a runtime-checked
    /// access.
    InvalidArgument,
    /// The resource was revoked by device teardown; the access was skipped.
    /// This is a normal "resource gone" signal, not a hard failure.
    Unavailable,
}

} // verus!
