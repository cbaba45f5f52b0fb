//! Checked memory-mapped I/O. An `IoMem<SIZE, EXCLUSIVE>` owns one mapped
//! region of device memory, modeled as the bytes of its registers, little
//! endian. `SIZE` is the compile-time size of the region, or `0` when the
//! size is only known at run time: fixed-size accesses (`readl`/`writel`)
//! are bounds-checked against `SIZE` during verification and carry no
//! failure path, while runtime-checked accesses (`try_readl`/`try_writel`)
//! are bounds-checked against the actual mapped size and fail with
//! `InvalidArgument`. `EXCLUSIVE` decides whether construction claims the
//! physical range exclusively; construction rolls back everything it did
//! when a later step fails.

use vstd::prelude::*;

use crate::bus::Bus;
use crate::devres::Devres;
use crate::error::Error;
use crate::platform::Device;
use crate::resource::Resource;

verus! {

/// The 32-bit value stored little endian at byte offset `off`.
pub open spec fn le_u32_at(bytes: Seq<u8>, off: int) -> u32
    recommends
        0 <= off,
        off + 4 <= bytes.len(),
{
    (bytes[off] as u32) | ((bytes[off + 1] as u32) << 8) | ((bytes[off + 2] as u32) << 16) | ((
    bytes[off + 3] as u32) << 24)
}

/// `bytes` with the 32-bit value `v` stored little endian at byte offset
/// `off`.
pub open spec fn store_le_u32_at(bytes: Seq<u8>, off: int, v: u32) -> Seq<u8>
    recommends
        0 <= off,
        off + 4 <= bytes.len(),
{
    bytes.update(off, (v & 0xff) as u8).update(off + 1, ((v >> 8) & 0xff) as u8).update(
        off + 2,
        ((v >> 16) & 0xff) as u8,
    ).update(off + 3, ((v >> 24) & 0xff) as u8)
}

/// Law: round-trip register semantics. Storing `v` at offset `off` and
/// loading from `off` again, with no intervening store, yields `v`; and
/// no byte outside `[off, off + 4)` is touched by the store.
pub proof fn lemma_store_then_load(bytes: Seq<u8>, off: int, v: u32)
    requires
        0 <= off,
        off + 4 <= bytes.len(),
    ensures
        le_u32_at(store_le_u32_at(bytes, off, v), off) == v,
        store_le_u32_at(bytes, off, v).len() == bytes.len(),
        forall|k: int|
            0 <= k < bytes.len() && !(off <= k < off + 4) ==> store_le_u32_at(bytes, off, v)[k]
                == bytes[k],
{
    let s = store_le_u32_at(bytes, off, v);
    assert(s[off] == (v & 0xff) as u8);
    assert(s[off + 1] == ((v >> 8) & 0xff) as u8);
    assert(s[off + 2] == ((v >> 16) & 0xff) as u8);
    assert(s[off + 3] == ((v >> 24) & 0xff) as u8);
    assert((((v & 0xff) as u8 as u32) | ((((v >> 8) & 0xff) as u8 as u32) << 8) | ((((v >> 16)
        & 0xff) as u8 as u32) << 16) | ((((v >> 24) & 0xff) as u8 as u32) << 24)) == v)
        by (bit_vector);
}

/// Construction of a mapping over `resource` for a still-bound `device`
/// succeeds: the resource is non-empty, large enough for the compile-time
/// size `min_size`, small enough to model, the range is free to claim when
/// `exclusive`, and the mapping service is not out of memory.
pub open spec fn mapping_ok(
    bus: Bus,
    resource: Resource,
    device: Device,
    min_size: nat,
    exclusive: bool,
) -> bool {
    &&& resource.spec_size() != 0
    &&& resource.spec_size() >= min_size
    &&& resource.spec_size() <= usize::MAX
    &&& device.spec_bound()
    &&& (exclusive ==> bus.can_reserve(resource.spec_start(), resource.spec_size()))
    &&& bus.spec_map_failures() == 0
}

/// The error a failed mapping construction reports, by the first failing
/// step: an unusable size, a device already in teardown, a contended
/// exclusive range, or an out-of-memory mapping service.
pub open spec fn mapping_err(
    bus: Bus,
    resource: Resource,
    device: Device,
    min_size: nat,
    exclusive: bool,
) -> Error {
    if resource.spec_size() == 0 || resource.spec_size() < min_size || resource.spec_size()
        > usize::MAX {
        Error::InvalidArgument
    } else if !device.spec_bound() {
        Error::NoSuchDevice
    } else if exclusive && !bus.can_reserve(resource.spec_start(), resource.spec_size()) {
        Error::Busy
    } else {
        Error::OutOfMemory
    }
}

/// Law: exclusive reservation mutual exclusion, at the mapping API. While
/// the range of `r1` is reserved — as it is after an exclusive mapping of
/// `r1` succeeds — an exclusive mapping attempt over an overlapping `r2`
/// cannot succeed, and when the attempt is otherwise valid (a usable size
/// and a still-bound device, which the construction checks first), the
/// error it reports is `Busy`.
pub proof fn lemma_overlapping_exclusive_mapping_is_busy(
    bus: Bus,
    r1: Resource,
    r2: Resource,
    device: Device,
    min_size: nat,
)
    requires
        bus.is_reserved(r1.spec_start(), r1.spec_size()),
        crate::bus::ranges_overlap(
            r2.spec_start(),
            r2.spec_size(),
            r1.spec_start(),
            r1.spec_size(),
        ),
        r2.spec_size() != 0,
        r2.spec_size() >= min_size,
        r2.spec_size() <= usize::MAX,
        device.spec_bound(),
    ensures
        !mapping_ok(bus, r2, device, min_size, true),
        mapping_err(bus, r2, device, min_size, true) == Error::Busy,
{
    crate::bus::lemma_reserved_range_excludes_overlap(
        bus,
        r1.spec_start(),
        r1.spec_size(),
        r2.spec_start(),
        r2.spec_size(),
    );
}

/// Law: rollback atomicity enables retry. A failed mapping construction
/// leaves the reservation table exactly as it was — that is the `Err`
/// contract of the constructor — so a later attempt over the same
/// resource, by the same still-bound device, succeeds as soon as the
/// mapping service is out of its memory shortage.
pub proof fn lemma_rollback_enables_retry(
    bus_before: Bus,
    bus_after: Bus,
    resource: Resource,
    device: Device,
    min_size: nat,
)
    requires
        bus_after.reserved_regions() == bus_before.reserved_regions(),
        bus_after.spec_map_failures() == 0,
        resource.spec_size() != 0,
        resource.spec_size() >= min_size,
        resource.spec_size() <= usize::MAX,
        device.spec_bound(),
        bus_before.can_reserve(resource.spec_start(), resource.spec_size()),
    ensures
        mapping_ok(bus_after, resource, device, min_size, true),
{
}

/// A mapped region of device memory. Register contents are modeled as the
/// bytes the device would hold; the original physical base is kept so the
/// reservation can be released on unmap.
#[derive(Debug)]
pub struct IoMem<const SIZE: usize, const EXCLUSIVE: bool> {
    mem: Vec<u8>,
    res_start: u64,
}

impl<const SIZE: usize, const EXCLUSIVE: bool> IoMem<SIZE, EXCLUSIVE> {
    /// The bytes of the mapped registers.
    pub closed spec fn mem_bytes(&self) -> Seq<u8> {
        self.mem@
    }

    /// The physical base address the mapping was created over.
    pub closed spec fn spec_res_start(&self) -> u64 {
        self.res_start
    }

    /// The mapped length in bytes.
    pub open spec fn spec_size(&self) -> nat {
        self.mem_bytes().len()
    }

    /// The mapping is at least as large as its compile-time size, is
    /// non-empty, and covers a physical range that does not wrap.
    #[verifier::type_invariant]
    spec fn inv(&self) -> bool {
        &&& self.spec_size() >= SIZE
        &&& self.spec_size() > 0
        &&& self.spec_res_start() + self.spec_size() <= u64::MAX
    }

    /// Maps `resource` for `device`, wrapped in a device-scoped revocable
    /// container. Validates the size, claims the physical range when
    /// `EXCLUSIVE`, then maps it; if mapping fails, the claim is released
    /// again before the error is returned, so a failed construction leaves
    /// the bus exactly as it was.
    pub fn new(resource: &Resource, device: &Device, bus: &mut Bus) -> (r: Result<
        Devres<Self>,
        Error,
    >)
        requires
            old(bus).wf(),
        ensures
            final(bus).wf(),
            final(bus).spec_irq_lines() == old(bus).spec_irq_lines(),
            r is Ok <==> mapping_ok(*old(bus), *resource, *device, SIZE as nat, EXCLUSIVE),
            r matches Ok(d) ==> {
                &&& !d.spec_revoked()
                &&& d.spec_value().spec_res_start() == resource.spec_start()
                &&& d.spec_value().spec_size() == resource.spec_size()
                &&& d.spec_value().mem_bytes() == Seq::new(
                    resource.spec_size() as nat,
                    |i: int| 0u8,
                )
                &&& (EXCLUSIVE ==> ({
                    let pushed = final(bus).reserved_regions().last();
                    &&& final(bus).reserved_regions() == old(bus).reserved_regions().push(pushed)
                    &&& pushed.start == resource.spec_start()
                    &&& pushed.size == resource.spec_size()
                    &&& pushed.name@ == resource.spec_name()
                }))
                &&& (!EXCLUSIVE ==> final(bus).reserved_regions() == old(bus).reserved_regions())
                &&& final(bus).spec_map_failures() == 0
            },
            r is Err ==> final(bus).reserved_regions() == old(bus).reserved_regions(),
            r matches Err(e) ==> e == mapping_err(
                *old(bus),
                *resource,
                *device,
                SIZE as nat,
                EXCLUSIVE,
            ),
            r matches Err(e) && e == Error::OutOfMemory ==> final(bus).spec_map_failures() == old(bus).spec_map_failures() - 1,
            r matches Err(e) && e != Error::OutOfMemory ==> final(bus).spec_map_failures() == old(bus).spec_map_failures(),
    {
        proof {
            use_type_invariant(resource);
        }
        let size = resource.size();
        if size == 0 || size < (SIZE as u64) || size > (usize::MAX as u64) {
            return Err(Error::InvalidArgument);
        }
        if !device.is_bound() {
            return Err(Error::NoSuchDevice);
        }
        let res_start = resource.start();
        if EXCLUSIVE {
            if !bus.request_mem_region(res_start, size, resource.name()) {
                return Err(Error::Busy);
            }
        }
        if !bus.ioremap(res_start, size) {
            if EXCLUSIVE {
                let ghost bus_held = *bus;
                bus.release_mem_region(res_start, size);
                proof {
                    crate::bus::lemma_release_fresh_claim(
                        bus_held.reserved_regions(),
                        old(bus).reserved_regions(),
                        res_start,
                        size,
                    );
                }
            }
            return Err(Error::OutOfMemory);
        }
        let len = size as usize;
        let mem = zeroed_bytes(len);
        let io = IoMem { mem, res_start };
        proof {
            assert(io.mem_bytes() =~= Seq::new(resource.spec_size() as nat, |i: int| 0u8));
        }
        match Devres::new(device, io) {
            Ok(d) => Ok(d),
            Err(_) => {
                proof {
                    // Unreachable: the device was checked to be bound and
                    // has not changed since.
                    assert(false);
                }
                Err(Error::NoSuchDevice)
            },
        }
    }

    /// Fixed-size 32-bit read at byte offset `offset`. The bounds check is
    /// against the compile-time `SIZE`, during verification: an
    /// out-of-range constant offset is a build-time error, and there is no
    /// failure path.
    pub fn readl(&self, offset: usize) -> (r: u32)
        requires
            SIZE != 0,
            offset + 4 <= SIZE,
        ensures
            r == le_u32_at(self.mem_bytes(), offset as int),
    {
        proof {
            use_type_invariant(self);
        }
        let b0 = self.mem[offset] as u32;
        let b1 = self.mem[offset + 1] as u32;
        let b2 = self.mem[offset + 2] as u32;
        let b3 = self.mem[offset + 3] as u32;
        b0 | (b1 << 8) | (b2 << 16) | (b3 << 24)
    }

    /// Fixed-size 32-bit write of `value` at byte offset `offset`, bounds
    /// checked against `SIZE` during verification, with no failure path.
    pub fn writel(&mut self, value: u32, offset: usize)
        requires
            SIZE != 0,
            offset + 4 <= SIZE,
        ensures
            final(self).mem_bytes() == store_le_u32_at(
                old(self).mem_bytes(),
                offset as int,
                value,
            ),
            final(self).spec_res_start() == old(self).spec_res_start(),
            final(self).spec_size() == old(self).spec_size(),
    {
        proof {
            use_type_invariant(&*self);
        }
        store_bytes(&mut self.mem, value, offset);
    }

    /// Runtime-checked 32-bit read: fails with `InvalidArgument` when
    /// `[offset, offset + 4)` does not lie inside the mapped size.
    pub fn try_readl(&self, offset: usize) -> (r: Result<u32, Error>)
        ensures
            offset + 4 <= self.spec_size() ==> (r matches Ok(v) && v == le_u32_at(
                self.mem_bytes(),
                offset as int,
            )),
            offset + 4 > self.spec_size() ==> (r matches Err(e) && e == Error::InvalidArgument),
    {
        if offset >= self.mem.len() || self.mem.len() - offset < 4 {
            return Err(Error::InvalidArgument);
        }
        let b0 = self.mem[offset] as u32;
        let b1 = self.mem[offset + 1] as u32;
        let b2 = self.mem[offset + 2] as u32;
        let b3 = self.mem[offset + 3] as u32;
        Ok(b0 | (b1 << 8) | (b2 << 16) | (b3 << 24))
    }

    /// Runtime-checked 32-bit write: fails with `InvalidArgument`, writing
    /// nothing, when `[offset, offset + 4)` does not lie inside the mapped
    /// size. Never writes outside the mapped region.
    pub fn try_writel(&mut self, value: u32, offset: usize) -> (r: Result<(), Error>)
        ensures
            offset + 4 <= old(self).spec_size() ==> (r is Ok && final(self).mem_bytes()
                == store_le_u32_at(old(self).mem_bytes(), offset as int, value)),
            offset + 4 > old(self).spec_size() ==> (r matches Err(e) && e
                == Error::InvalidArgument && *final(self) == *old(self)),
            final(self).spec_res_start() == old(self).spec_res_start(),
            final(self).spec_size() == old(self).spec_size(),
    {
        proof {
            use_type_invariant(&*self);
        }
        if offset >= self.mem.len() || self.mem.len() - offset < 4 {
            return Err(Error::InvalidArgument);
        }
        store_bytes(&mut self.mem, value, offset);
        Ok(())
    }

    /// Destroys the mapping: releases the exclusive claim on the physical
    /// range, when one was taken, using the same base and size that were
    /// used to acquire it. The memory itself is unmapped by dropping the
    /// value.
    pub fn unmap(self, bus: &mut Bus)
        requires
            old(bus).wf(),
        ensures
            final(bus).wf(),
            final(bus).spec_map_failures() == old(bus).spec_map_failures(),
            final(bus).spec_irq_lines() == old(bus).spec_irq_lines(),
            !EXCLUSIVE ==> final(bus).reserved_regions() == old(bus).reserved_regions(),
            EXCLUSIVE && old(bus).is_reserved(self.spec_res_start(), self.spec_size() as u64)
                ==> final(bus).reserved_regions() == old(bus).reserved_regions().remove(
                crate::bus::region_index_of(
                    old(bus).reserved_regions(),
                    self.spec_res_start(),
                    self.spec_size() as u64,
                ),
            ),
            EXCLUSIVE && !old(bus).is_reserved(self.spec_res_start(), self.spec_size() as u64)
                ==> final(bus).reserved_regions() == old(bus).reserved_regions(),
    {
        if EXCLUSIVE {
            proof {
                use_type_invariant(&self);
            }
            let size = self.mem.len() as u64;
            bus.release_mem_region(self.res_start, size);
        }
    }
}

/// Stores the four little-endian bytes of `value` at byte offset
/// `offset` of `mem`.
fn store_bytes(mem: &mut Vec<u8>, value: u32, offset: usize)
    requires
        offset + 4 <= old(mem)@.len(),
    ensures
        final(mem)@ == store_le_u32_at(old(mem)@, offset as int, value),
    no_unwind
{
    // Brings the vector length, and with it the bound on `offset + 3`
    // below, into scope.
    let n = mem.len();
    proof {
        assert(value & 0xff < 256 && (value >> 8) & 0xff < 256 && (value >> 16) & 0xff < 256 && (
        value >> 24) & 0xff < 256) by (bit_vector);
    }
    let b0 = (value & 0xff) as u8;
    let b1 = ((value >> 8) & 0xff) as u8;
    let b2 = ((value >> 16) & 0xff) as u8;
    let b3 = ((value >> 24) & 0xff) as u8;
    let slot = &mut mem[offset];
    *slot = b0;
    let slot = &mut mem[offset + 1];
    *slot = b1;
    let slot = &mut mem[offset + 2];
    *slot = b2;
    let slot = &mut mem[offset + 3];
    *slot = b3;
}

/// A vector of `len` zero bytes: the initial contents of a freshly mapped
/// register region in this model.
fn zeroed_bytes(len: usize) -> (r: Vec<u8>)
    ensures
        r@ == Seq::new(len as nat, |i: int| 0u8),
{
    let mut v: Vec<u8> = Vec::new();
    let mut i: usize = 0;
    while i < len
        invariant
            i <= len,
            v@.len() == i,
            forall|j: int| 0 <= j < i ==> v@[j] == 0u8,
        decreases len - i,
    {
        v.push(0);
        i += 1;
    }
    proof {
        assert(v@ =~= Seq::new(len as nat, |i: int| 0u8));
    }
    v
}

impl<const SIZE: usize, const EXCLUSIVE: bool> Devres<IoMem<SIZE, EXCLUSIVE>> {
    /// Checked fixed-size read: `Unavailable` once the device has revoked
    /// the mapping, the register value otherwise. Bounds are checked
    /// against `SIZE` during verification.
    pub fn readl(&self, offset: usize) -> (r: Result<u32, Error>)
        requires
            SIZE != 0,
            offset + 4 <= SIZE,
        ensures
            self.spec_revoked() ==> (r matches Err(e) && e == Error::Unavailable),
            !self.spec_revoked() ==> (r matches Ok(v) && v == le_u32_at(
                self.spec_value().mem_bytes(),
                offset as int,
            )),
    {
        match self.try_access() {
            Some(io) => Ok(io.readl(offset)),
            None => Err(Error::Unavailable),
        }
    }

    /// Checked fixed-size write: `Unavailable` once the device has revoked
    /// the mapping (the registers are left untouched), otherwise stores
    /// `value` little endian at `offset`.
    pub fn writel(&mut self, value: u32, offset: usize) -> (r: Result<(), Error>)
        requires
            SIZE != 0,
            offset + 4 <= SIZE,
        ensures
            old(self).spec_revoked() ==> (r matches Err(e) && e == Error::Unavailable && *final(self) == *old(self)),
            !old(self).spec_revoked() ==> (r is Ok && !final(self).spec_revoked() && final(self).spec_value().mem_bytes() == store_le_u32_at(
                old(self).spec_value().mem_bytes(),
                offset as int,
                value,
            ) && final(self).spec_value().spec_res_start() == old(self).spec_value().spec_res_start()
                && final(self).spec_value().spec_size() == old(self).spec_value().spec_size()),
    {
        match self.try_access_mut() {
            Some(io) => {
                io.writel(value, offset);
                Ok(())
            },
            None => Err(Error::Unavailable),
        }
    }

    /// Checked runtime read: `Unavailable` once revoked, `InvalidArgument`
    /// when `[offset, offset + 4)` is outside the mapped size, the
    /// register value otherwise.
    pub fn try_readl(&self, offset: usize) -> (r: Result<u32, Error>)
        ensures
            self.spec_revoked() ==> (r matches Err(e) && e == Error::Unavailable),
            !self.spec_revoked() && offset + 4 > self.spec_value().spec_size() ==> (r matches Err(e)
                && e == Error::InvalidArgument),
            !self.spec_revoked() && offset + 4 <= self.spec_value().spec_size() ==> (r matches Ok(v)
                && v == le_u32_at(self.spec_value().mem_bytes(), offset as int)),
    {
        match self.try_access() {
            Some(io) => io.try_readl(offset),
            None => Err(Error::Unavailable),
        }
    }

    /// Checked runtime write: `Unavailable` once revoked, `InvalidArgument`
    /// when out of bounds; in both cases the registers are left untouched.
    /// Never writes outside the mapped region.
    pub fn try_writel(&mut self, value: u32, offset: usize) -> (r: Result<(), Error>)
        ensures
            old(self).spec_revoked() ==> (r matches Err(e) && e == Error::Unavailable && *final(self) == *old(self)),
            !old(self).spec_revoked() ==> !final(self).spec_revoked() && final(self).spec_value().spec_res_start() == old(self).spec_value().spec_res_start()
                && final(self).spec_value().spec_size() == old(self).spec_value().spec_size(),
            !old(self).spec_revoked() && offset + 4 > old(self).spec_value().spec_size() ==> (
            r matches Err(e) && e == Error::InvalidArgument && final(self).spec_value() == old(self).spec_value()),
            !old(self).spec_revoked() && offset + 4 <= old(self).spec_value().spec_size() ==> (
            r is Ok && final(self).spec_value().mem_bytes() == store_le_u32_at(
                old(self).spec_value().mem_bytes(),
                offset as int,
                value,
            )),
    {
        match self.try_access_mut() {
            Some(io) => io.try_writel(value, offset),
            None => Err(Error::Unavailable),
        }
    }
}

/// Law: round-trip register semantics at the checked, sized accessors.
/// After a successful fixed-size write of `value` at `offset` — which
/// demands the compile-time bound `offset + 4 <= SIZE` — a fixed-size
/// read at `offset` with no intervening write returns exactly `value`.
pub proof fn lemma_writel_then_readl<const SIZE: usize, const EXCLUSIVE: bool>(
    before: Devres<IoMem<SIZE, EXCLUSIVE>>,
    after: Devres<IoMem<SIZE, EXCLUSIVE>>,
    value: u32,
    offset: usize,
)
    requires
        offset + 4 <= SIZE,
        offset + 4 <= before.spec_value().spec_size(),
        after.spec_value().mem_bytes() == store_le_u32_at(
            before.spec_value().mem_bytes(),
            offset as int,
            value,
        ),
    ensures
        le_u32_at(after.spec_value().mem_bytes(), offset as int) == value,
{
    lemma_store_then_load(before.spec_value().mem_bytes(), offset as int, value);
}

} // verus!
