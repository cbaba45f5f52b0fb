//! Explicit model of the platform/bus collaborator: the system-wide table of
//! exclusive physical-range reservations, the mapping service (whose failures
//! can be injected to exercise rollback), and the interrupt lines with their
//! sharing state. Every driver-visible effect of the host subsystem is a
//! plain state change here, with a contract.

use vstd::prelude::*;

use crate::error::Error;

verus! {

/// One reserved physical range `[start, start + size)`, held under the
/// name of the resource it was claimed for.
#[derive(Debug)]
pub struct MemRegion {
    pub start: u64,
    pub size: u64,
    pub name: String,
}

/// One interrupt line: how many handlers are bound to it, and whether the
/// bound handlers accept sharing the line.
#[derive(Clone, Copy, Debug, PartialEq, Eq, Structural)]
pub struct IrqLine {
    pub users: u64,
    pub shared: bool,
}

/// Two physical ranges intersect. Meaningful for non-empty ranges whose
/// ends do not wrap around the address space.
pub open spec fn ranges_overlap(s1: u64, z1: u64, s2: u64, z2: u64) -> bool {
    s1 < s2 + z2 && s2 < s1 + z1
}

/// A reservation entry is non-empty and does not wrap.
pub open spec fn region_wf(r: MemRegion) -> bool {
    r.size > 0 && r.start + r.size <= u64::MAX
}

/// Every entry is a sane range and no two entries overlap.
pub open spec fn regions_wf(regions: Seq<MemRegion>) -> bool {
    &&& forall|i: int| 0 <= i < regions.len() ==> region_wf(#[trigger] regions[i])
    &&& forall|i: int, j: int|
        0 <= i < regions.len() && 0 <= j < regions.len() && i != j ==> !ranges_overlap(
            (#[trigger] regions[i]).start,
            regions[i].size,
            (#[trigger] regions[j]).start,
            regions[j].size,
        )
}

/// The index of the entry that reserves exactly `[start, start + size)`.
/// In a well-formed table at most one entry can: two entries of the same
/// non-empty range would overlap each other.
pub open spec fn region_index_of(regions: Seq<MemRegion>, start: u64, size: u64) -> int {
    choose|i: int|
        0 <= i < regions.len() && (#[trigger] regions[i]).start == start && regions[i].size == size
}

/// After a fresh claim of the non-empty range `[start, start + size)` —
/// the last entry of a well-formed table — releasing that same range
/// removes exactly the fresh entry and restores the table.
pub proof fn lemma_release_fresh_claim(
    regions: Seq<MemRegion>,
    old_regions: Seq<MemRegion>,
    start: u64,
    size: u64,
)
    requires
        regions_wf(regions),
        size > 0,
        regions.len() == old_regions.len() + 1,
        regions == old_regions.push(regions.last()),
        regions.last().start == start,
        regions.last().size == size,
    ensures
        exists|i: int|
            0 <= i < regions.len() && (#[trigger] regions[i]).start == start && regions[i].size
                == size,
        regions.remove(region_index_of(regions, start, size)) == old_regions,
{
    let last = old_regions.len() as int;
    assert((#[trigger] regions[last]).start == start && regions[last].size == size);
    let k = region_index_of(regions, start, size);
    assert(0 <= k < regions.len() && regions[k].start == start && regions[k].size == size);
    // The fresh entry is the only one for this range: a second entry of
    // the same non-empty range would overlap it.
    if k != last {
        assert(ranges_overlap(regions[k].start, regions[k].size, regions[last].start, regions[last].size));
        assert(false);
    }
    assert(regions.remove(k) =~= old_regions);
}

/// The range `[start, start + size)` overlaps no entry of `regions`.
pub open spec fn no_overlap_in(regions: Seq<MemRegion>, start: u64, size: u64) -> bool {
    forall|i: int|
        0 <= i < regions.len() ==> !ranges_overlap(
            start,
            size,
            (#[trigger] regions[i]).start,
            regions[i].size,
        )
}

/// The platform/bus state a driver's resources live against.
pub struct Bus {
    reserved: Vec<MemRegion>,
    map_failures: u64,
    irq_lines: Vec<IrqLine>,
}

impl Bus {
    /// The exclusive reservations currently held, oldest first.
    pub closed spec fn reserved_regions(&self) -> Seq<MemRegion> {
        self.reserved@
    }

    /// How many upcoming mapping attempts will fail for lack of memory.
    pub closed spec fn spec_map_failures(&self) -> u64 {
        self.map_failures
    }

    /// The interrupt lines this bus provides.
    pub closed spec fn spec_irq_lines(&self) -> Seq<IrqLine> {
        self.irq_lines@
    }

    /// Every reservation is a sane range and no two reservations overlap.
    pub open spec fn wf(&self) -> bool {
        regions_wf(self.reserved_regions())
    }

    /// The exact range `[start, start + size)` is currently reserved.
    pub open spec fn is_reserved(&self, start: u64, size: u64) -> bool {
        exists|i: int|
            0 <= i < self.reserved_regions().len() && (#[trigger] self.reserved_regions()[i]).start
                == start && self.reserved_regions()[i].size == size
    }

    /// The range `[start, start + size)` overlaps no current reservation,
    /// so an exclusive claim on it would succeed.
    pub open spec fn can_reserve(&self, start: u64, size: u64) -> bool {
        no_overlap_in(self.reserved_regions(), start, size)
    }

    /// An attempt to bind one more handler to line `irq` would be accepted:
    /// the line exists and is either free or shared by all parties.
    pub open spec fn irq_line_ok(&self, irq: u32, want_shared: bool) -> bool {
        &&& irq < self.spec_irq_lines().len()
        &&& self.spec_irq_lines()[irq as int].users < u64::MAX
        &&& (self.spec_irq_lines()[irq as int].users == 0 || (self.spec_irq_lines()[irq
            as int].shared && want_shared))
    }

    /// A fresh bus with `num_irq_lines` free interrupt lines, no
    /// reservations, and a mapping service that is not under pressure.
    pub fn new(num_irq_lines: usize) -> (b: Bus)
        ensures
            b.wf(),
            b.reserved_regions() == Seq::<MemRegion>::empty(),
            b.spec_map_failures() == 0,
            b.spec_irq_lines().len() == num_irq_lines,
            forall|i: int|
                0 <= i < num_irq_lines ==> #[trigger] b.spec_irq_lines()[i] == (IrqLine {
                    users: 0,
                    shared: false,
                }),
    {
        let mut lines: Vec<IrqLine> = Vec::new();
        let mut i: usize = 0;
        while i < num_irq_lines
            invariant
                i <= num_irq_lines,
                lines@.len() == i,
                forall|j: int|
                    0 <= j < i ==> #[trigger] lines@[j] == (IrqLine { users: 0, shared: false }),
            decreases num_irq_lines - i,
        {
            lines.push(IrqLine { users: 0, shared: false });
            i += 1;
        }
        let reserved: Vec<MemRegion> = Vec::new();
        proof {
            assert(reserved@ =~= Seq::<MemRegion>::empty());
        }
        Bus { reserved, map_failures: 0, irq_lines: lines }
    }

    /// Makes the next `n` mapping attempts fail, modeling memory pressure
    /// in the host; used to exercise the construction rollback paths.
    pub fn fail_next_mappings(&mut self, n: u64)
        requires
            old(self).wf(),
        ensures
            final(self).wf(),
            final(self).spec_map_failures() == n,
            final(self).reserved_regions() == old(self).reserved_regions(),
            final(self).spec_irq_lines() == old(self).spec_irq_lines(),
    {
        self.map_failures = n;
    }

    /// True iff `[start, start + size)` intersects a current reservation.
    fn overlaps_any(&self, start: u64, size: u64) -> (r: bool)
        requires
            self.wf(),
            size > 0,
            start + size <= u64::MAX,
        ensures
            r == !self.can_reserve(start, size),
    {
        let mut i: usize = 0;
        while i < self.reserved.len()
            invariant
                self.wf(),
                size > 0,
                start + size <= u64::MAX,
                i <= self.reserved@.len(),
                forall|j: int|
                    0 <= j < i ==> !ranges_overlap(
                        start,
                        size,
                        (#[trigger] self.reserved_regions()[j]).start,
                        self.reserved_regions()[j].size,
                    ),
            decreases self.reserved@.len() - i,
        {
            let r_start = self.reserved[i].start;
            let r_size = self.reserved[i].size;
            proof {
                assert(region_wf(self.reserved_regions()[i as int]));
            }
            if start < r_start + r_size && r_start < start + size {
                return true;
            }
            i += 1;
        }
        false
    }

    /// Claims `[start, start + size)` exclusively under `name`, as the host
    /// would for a driver that maps a region it must own alone. Succeeds if
    /// and only if the range overlaps no current reservation; the claim is
    /// recorded under the given name.
    pub fn request_mem_region(&mut self, start: u64, size: u64, name: &String) -> (r: bool)
        requires
            old(self).wf(),
            size > 0,
            start + size <= u64::MAX,
        ensures
            final(self).wf(),
            r == old(self).can_reserve(start, size),
            r ==> ({
                let pushed = final(self).reserved_regions().last();
                &&& final(self).reserved_regions() == old(self).reserved_regions().push(pushed)
                &&& pushed.start == start
                &&& pushed.size == size
                &&& pushed.name@ == name@
            }),
            !r ==> final(self).reserved_regions() == old(self).reserved_regions(),
            final(self).spec_map_failures() == old(self).spec_map_failures(),
            final(self).spec_irq_lines() == old(self).spec_irq_lines(),
    {
        if self.overlaps_any(start, size) {
            return false;
        }
        self.reserved.push(MemRegion { start, size, name: name.clone() });
        proof {
            let regions = self.reserved_regions();
            let old_regions = old(self).reserved_regions();
            let last = regions.len() - 1;
            assert forall|a: int, b: int|
                0 <= a < regions.len() && 0 <= b < regions.len() && a != b implies !ranges_overlap(
                regions[a].start,
                regions[a].size,
                regions[b].start,
                regions[b].size,
            ) by {
                if a == last {
                    assert(regions[b] == old_regions[b]);
                    assert(!ranges_overlap(start, size, regions[b].start, regions[b].size));
                } else if b == last {
                    assert(regions[a] == old_regions[a]);
                    assert(!ranges_overlap(start, size, regions[a].start, regions[a].size));
                } else {
                    assert(regions[a] == old_regions[a]);
                    assert(regions[b] == old_regions[b]);
                }
            }
            assert forall|a: int| 0 <= a < regions.len() implies region_wf(regions[a]) by {
                if a < last {
                    assert(regions[a] == old_regions[a]);
                }
            }
        }
        true
    }

    /// Gives back the exact reservation `[start, start + size)`, as the
    /// host would when a mapping is destroyed or its construction is rolled
    /// back. Releasing a range that is not reserved changes nothing.
    pub fn release_mem_region(&mut self, start: u64, size: u64)
        requires
            old(self).wf(),
        ensures
            final(self).wf(),
            old(self).is_reserved(start, size) ==> final(self).reserved_regions() == old(
                self,
            ).reserved_regions().remove(
                region_index_of(old(self).reserved_regions(), start, size),
            ),
            !old(self).is_reserved(start, size) ==> final(self).reserved_regions() == old(
                self,
            ).reserved_regions(),
            final(self).spec_map_failures() == old(self).spec_map_failures(),
            final(self).spec_irq_lines() == old(self).spec_irq_lines(),
    {
        let mut i: usize = 0;
        while i < self.reserved.len()
            invariant
                *self == *old(self),
                self.wf(),
                i <= self.reserved@.len(),
                forall|j: int|
                    0 <= j < i ==> !((#[trigger] self.reserved_regions()[j]).start == start
                        && self.reserved_regions()[j].size == size),
            decreases self.reserved@.len() - i,
        {
            if self.reserved[i].start == start && self.reserved[i].size == size {
                proof {
                    let regions = self.reserved_regions();
                    assert(self.is_reserved(start, size));
                    let k = region_index_of(regions, start, size);
                    assert(0 <= k < regions.len() && regions[k].start == start && regions[k].size
                        == size);
                    // The reservation is unique: two entries of the same
                    // non-empty range would overlap each other,
                    // contradicting well-formedness.
                    if k != i {
                        assert(region_wf(regions[k]));
                        assert(ranges_overlap(
                            regions[i as int].start,
                            regions[i as int].size,
                            regions[k].start,
                            regions[k].size,
                        ));
                        assert(false);
                    }
                }
                self.reserved.remove(i);
                proof {
                    let regions = self.reserved_regions();
                    let old_regions = old(self).reserved_regions();
                    assert forall|a: int, b: int|
                        0 <= a < regions.len() && 0 <= b < regions.len() && a
                            != b implies !ranges_overlap(
                        regions[a].start,
                        regions[a].size,
                        regions[b].start,
                        regions[b].size,
                    ) by {
                        let oa: int = if a < i { a } else { a + 1 };
                        let ob: int = if b < i { b } else { b + 1 };
                        assert(regions[a] == old_regions[oa]);
                        assert(regions[b] == old_regions[ob]);
                    }
                    assert forall|a: int| 0 <= a < regions.len() implies region_wf(
                        regions[a],
                    ) by {
                        let oa: int = if a < i { a } else { a + 1 };
                        assert(regions[a] == old_regions[oa]);
                    }
                }
                return ;
            }
            i += 1;
        }
    }

    /// Maps a physical range into the address space. Returns false, and
    /// consumes one injected failure, when the host is out of memory.
    pub fn ioremap(&mut self, start: u64, size: u64) -> (r: bool)
        requires
            old(self).wf(),
            size > 0,
        ensures
            final(self).wf(),
            r == (old(self).spec_map_failures() == 0),
            final(self).reserved_regions() == old(self).reserved_regions(),
            final(self).spec_irq_lines() == old(self).spec_irq_lines(),
            r ==> final(self).spec_map_failures() == 0,
            !r ==> final(self).spec_map_failures() == old(self).spec_map_failures() - 1,
    {
        if self.map_failures > 0 {
            self.map_failures = self.map_failures - 1;
            false
        } else {
            true
        }
    }

    /// Binds one more handler to line `irq`. Fails with `NoSuchDevice` for
    /// a line the bus does not provide, and with `Busy` when the line is
    /// held and not every party accepts sharing.
    pub fn request_irq(&mut self, irq: u32, shared: bool) -> (r: Result<(), Error>)
        requires
            old(self).wf(),
        ensures
            final(self).wf(),
            final(self).reserved_regions() == old(self).reserved_regions(),
            final(self).spec_map_failures() == old(self).spec_map_failures(),
            r is Ok <==> old(self).irq_line_ok(irq, shared),
            r is Ok ==> final(self).spec_irq_lines() == old(self).spec_irq_lines().update(
                irq as int,
                IrqLine {
                    users: (old(self).spec_irq_lines()[irq as int].users + 1) as u64,
                    shared: if old(self).spec_irq_lines()[irq as int].users == 0 {
                        shared
                    } else {
                        old(self).spec_irq_lines()[irq as int].shared
                    },
                },
            ),
            r is Err ==> final(self).spec_irq_lines() == old(self).spec_irq_lines(),
            r matches Err(e) ==> e == (if irq >= old(self).spec_irq_lines().len() {
                Error::NoSuchDevice
            } else {
                Error::Busy
            }),
    {
        let idx = irq as usize;
        if idx >= self.irq_lines.len() {
            return Err(Error::NoSuchDevice);
        }
        let line = self.irq_lines[idx];
        if line.users == u64::MAX || (line.users > 0 && !(line.shared && shared)) {
            return Err(Error::Busy);
        }
        let new_line = IrqLine {
            users: line.users + 1,
            shared: if line.users == 0 {
                shared
            } else {
                line.shared
            },
        };
        let slot = &mut self.irq_lines[idx];
        *slot = new_line;
        Ok(())
    }

    /// Unbinds one handler from line `irq`. Freeing a line that has no
    /// bound handler, or that the bus does not provide, changes nothing.
    pub fn free_irq(&mut self, irq: u32)
        requires
            old(self).wf(),
        ensures
            final(self).wf(),
            final(self).reserved_regions() == old(self).reserved_regions(),
            final(self).spec_map_failures() == old(self).spec_map_failures(),
            (irq < old(self).spec_irq_lines().len() && old(self).spec_irq_lines()[irq
                as int].users > 0) ==> final(self).spec_irq_lines() == old(
                self,
            ).spec_irq_lines().update(
                irq as int,
                IrqLine {
                    users: (old(self).spec_irq_lines()[irq as int].users - 1) as u64,
                    shared: old(self).spec_irq_lines()[irq as int].shared,
                },
            ),
            !(irq < old(self).spec_irq_lines().len() && old(self).spec_irq_lines()[irq
                as int].users > 0) ==> final(self).spec_irq_lines() == old(self).spec_irq_lines(),
    {
        let idx = irq as usize;
        if idx >= self.irq_lines.len() {
            return ;
        }
        let line = self.irq_lines[idx];
        if line.users == 0 {
            return ;
        }
        let new_line = IrqLine { users: line.users - 1, shared: line.shared };
        let slot = &mut self.irq_lines[idx];
        *slot = new_line;
    }
}

/// Law: exclusive reservation is mutually exclusive. While a range is
/// reserved, no range overlapping it can be reserved; so of any two
/// attempts to claim overlapping physical ranges exclusively, at most one
/// succeeds until the winner releases its claim.
pub proof fn lemma_reserved_range_excludes_overlap(bus: Bus, s1: u64, z1: u64, s2: u64, z2: u64)
    requires
        bus.is_reserved(s1, z1),
        ranges_overlap(s2, z2, s1, z1),
    ensures
        !bus.can_reserve(s2, z2),
{
    let regions = bus.reserved_regions();
    let k = choose|k: int|
        0 <= k < regions.len() && (#[trigger] regions[k]).start == s1 && regions[k].size == z1;
    assert(ranges_overlap(s2, z2, regions[k].start, regions[k].size));
}

} // verus!
