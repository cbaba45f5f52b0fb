//! Read-only view of a hardware resource descriptor (base address, size,
//! name) as the platform/bus layer hands it to a driver.

use vstd::prelude::*;

verus! {

/// A hardware resource descriptor: the physical range
/// `[start, start + size)` and a name used when reserving it.
///
/// The core only ever reads a `Resource`, once, at mapping time.
pub struct Resource {
    start: u64,
    size: u64,
    name: String,
}

impl Resource {
    /// The physical range never wraps around the address space.
    #[verifier::type_invariant]
    pub(crate) open spec fn inv(&self) -> bool {
        self.spec_start() + self.spec_size() <= u64::MAX
    }

    pub closed spec fn spec_start(&self) -> u64 {
        self.start
    }

    pub closed spec fn spec_size(&self) -> u64 {
        self.size
    }

    pub closed spec fn spec_name(&self) -> Seq<char> {
        self.name@
    }

    /// Builds the descriptor the bus layer would supply for a device.
    pub fn new(start: u64, size: u64, name: String) -> (r: Resource)
        requires
            start + size <= u64::MAX,
        ensures
            r.spec_start() == start,
            r.spec_size() == size,
            r.spec_name() == name@,
    {
        Resource { start, size, name }
    }

    /// Returns the size of the resource.
    pub fn size(&self) -> (r: u64)
        ensures
            r == self.spec_size(),
    {
        self.size
    }

    /// Returns the start address of the resource.
    pub fn start(&self) -> (r: u64)
        ensures
            r == self.spec_start(),
    {
        self.start
    }

    /// Returns the name of the resource.
    pub fn name(&self) -> (r: &String)
        ensures
            r@ == self.spec_name(),
    {
        &self.name
    }
}

} // verus!
