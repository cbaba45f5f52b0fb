//! The platform-device view a driver works against: its resource
//! descriptors, its interrupt lines, and whether the device is still bound
//! (teardown makes it unbound, after which no new device-scoped resource
//! can be registered). The driver-side glue — the `Driver` trait and the
//! `Adapter` that dispatches probe and remove — lives here too.

use vstd::prelude::*;

use crate::bus::Bus;
use crate::devres::Devres;
use crate::error::Error;
use crate::mem::mapping_err;
use crate::mem::mapping_ok;
use crate::mem::IoMem;
use crate::resource::Resource;

verus! {

/// A platform device as the bus layer presents it to a driver: indexed
/// memory resources, indexed interrupt lines, and a bound/unbound state
/// driven by the device framework.
pub struct Device {
    resources: Vec<Resource>,
    irqs: Vec<u32>,
    bound: bool,
}

impl Device {
    /// The memory resource descriptors of this device, in index order.
    pub closed spec fn spec_resources(&self) -> Seq<Resource> {
        self.resources@
    }

    /// The interrupt line numbers of this device, in index order.
    pub closed spec fn spec_irqs(&self) -> Seq<u32> {
        self.irqs@
    }

    /// The device is still bound; teardown has not begun.
    pub closed spec fn spec_bound(&self) -> bool {
        self.bound
    }

    /// A freshly discovered, bound device with the given resources and
    /// interrupt lines.
    pub fn new(resources: Vec<Resource>, irqs: Vec<u32>) -> (d: Device)
        ensures
            d.spec_resources() == resources@,
            d.spec_irqs() == irqs@,
            d.spec_bound(),
    {
        Device { resources, irqs, bound: true }
    }

    /// Returns the resource at `index`, if any.
    pub fn resource(&self, index: usize) -> (r: Option<&Resource>)
        ensures
            index < self.spec_resources().len() ==> (r matches Some(res) && *res == self.spec_resources()[
                index as int
            ]),
            index >= self.spec_resources().len() ==> r is None,
    {
        if index < self.resources.len() {
            Some(&self.resources[index])
        } else {
            None
        }
    }

    /// Returns the first resource whose name is `name`, if any.
    pub fn resource_by_name(&self, name: &str) -> (r: Option<&Resource>)
        ensures
            r matches Some(res) ==> exists|i: int|
                {
                    &&& 0 <= i < self.spec_resources().len()
                    &&& *res == self.spec_resources()[i]
                    &&& res.spec_name() == name@
                    &&& forall|j: int|
                        0 <= j < i ==> (#[trigger] self.spec_resources()[j]).spec_name() != name@
                },
            r is None ==> forall|i: int|
                0 <= i < self.spec_resources().len() ==> (#[trigger] self.spec_resources()[i]).spec_name()
                    != name@,
    {
        let want: String = name.to_owned();
        let mut i: usize = 0;
        while i < self.resources.len()
            invariant
                want@ == name@,
                i <= self.spec_resources().len(),
                forall|j: int|
                    0 <= j < i ==> (#[trigger] self.spec_resources()[j]).spec_name() != name@,
            decreases self.spec_resources().len() - i,
        {
            let res = &self.resources[i];
            if *res.name() == want {
                return Some(res);
            }
            i += 1;
        }
        None
    }

    /// Returns the interrupt line number at `index`, if any.
    pub fn get_irq(&self, index: usize) -> (r: Option<u32>)
        ensures
            index < self.spec_irqs().len() ==> r == Some(self.spec_irqs()[index as int]),
            index >= self.spec_irqs().len() ==> r is None,
    {
        if index < self.irqs.len() {
            Some(self.irqs[index])
        } else {
            None
        }
    }

    /// The device framework begins tearing this device down: from here on
    /// no new device-scoped resource can be registered against it.
    pub fn set_unbound(&mut self)
        ensures
            !final(self).spec_bound(),
            final(self).spec_resources() == old(self).spec_resources(),
            final(self).spec_irqs() == old(self).spec_irqs(),
    {
        self.bound = false;
    }

    /// The device is still bound.
    pub fn is_bound(&self) -> (r: bool)
        ensures
            r == self.spec_bound(),
    {
        self.bound
    }

    /// Maps a platform resource whose size is known at compile time: reads
    /// and writes through the result are bounds-checked against `SIZE`
    /// during verification, with no runtime check and no failure path.
    /// See `IoMem::new` for the success condition, the error reported for
    /// each failing input, and the rollback guarantee.
    pub fn ioremap_resource_sized<const SIZE: usize, const EXCLUSIVE: bool>(
        &self,
        resource: &Resource,
        bus: &mut Bus,
    ) -> (r: Result<Devres<IoMem<SIZE, EXCLUSIVE>>, Error>)
        requires
            old(bus).wf(),
        ensures
            final(bus).wf(),
            final(bus).spec_irq_lines() == old(bus).spec_irq_lines(),
            r is Ok <==> mapping_ok(*old(bus), *resource, *self, SIZE as nat, EXCLUSIVE),
            r matches Ok(d) ==> {
                &&& !d.spec_revoked()
                &&& d.spec_value().spec_res_start() == resource.spec_start()
                &&& d.spec_value().spec_size() == resource.spec_size()
                &&& d.spec_value().mem_bytes() == Seq::new(
                    resource.spec_size() as nat,
                    |i: int| 0u8,
                )
                &&& (EXCLUSIVE ==> ({
                    let pushed = final(bus).reserved_regions().last();
                    &&& final(bus).reserved_regions() == old(bus).reserved_regions().push(pushed)
                    &&& pushed.start == resource.spec_start()
                    &&& pushed.size == resource.spec_size()
                    &&& pushed.name@ == resource.spec_name()
                }))
                &&& (!EXCLUSIVE ==> final(bus).reserved_regions() == old(bus).reserved_regions())
                &&& final(bus).spec_map_failures() == 0
            },
            r is Err ==> final(bus).reserved_regions() == old(bus).reserved_regions(),
            r matches Err(e) ==> e == mapping_err(
                *old(bus),
                *resource,
                *self,
                SIZE as nat,
                EXCLUSIVE,
            ),
            r matches Err(e) && e == Error::OutOfMemory ==> final(bus).spec_map_failures() == old(
                bus,
            ).spec_map_failures() - 1,
            r matches Err(e) && e != Error::OutOfMemory ==> final(bus).spec_map_failures() == old(
                bus,
            ).spec_map_failures(),
    {
        IoMem::new(resource, self, bus)
    }

    /// Maps a platform resource whose size is only known at run time: only
    /// the runtime-checked accesses are usable on the result, each checked
    /// against the mapped size. See `IoMem::new` for the full contract.
    pub fn ioremap_resource<const EXCLUSIVE: bool>(&self, resource: &Resource, bus: &mut Bus) -> (r:
        Result<Devres<IoMem<0, EXCLUSIVE>>, Error>)
        requires
            old(bus).wf(),
        ensures
            final(bus).wf(),
            final(bus).spec_irq_lines() == old(bus).spec_irq_lines(),
            r is Ok <==> mapping_ok(*old(bus), *resource, *self, 0, EXCLUSIVE),
            r matches Ok(d) ==> {
                &&& !d.spec_revoked()
                &&& d.spec_value().spec_res_start() == resource.spec_start()
                &&& d.spec_value().spec_size() == resource.spec_size()
                &&& d.spec_value().mem_bytes() == Seq::new(
                    resource.spec_size() as nat,
                    |i: int| 0u8,
                )
                &&& (EXCLUSIVE ==> ({
                    let pushed = final(bus).reserved_regions().last();
                    &&& final(bus).reserved_regions() == old(bus).reserved_regions().push(pushed)
                    &&& pushed.start == resource.spec_start()
                    &&& pushed.size == resource.spec_size()
                    &&& pushed.name@ == resource.spec_name()
                }))
                &&& (!EXCLUSIVE ==> final(bus).reserved_regions() == old(bus).reserved_regions())
                &&& final(bus).spec_map_failures() == 0
            },
            r is Err ==> final(bus).reserved_regions() == old(bus).reserved_regions(),
            r matches Err(e) ==> e == mapping_err(*old(bus), *resource, *self, 0, EXCLUSIVE),
            r matches Err(e) && e == Error::OutOfMemory ==> final(bus).spec_map_failures() == old(
                bus,
            ).spec_map_failures() - 1,
            r matches Err(e) && e != Error::OutOfMemory ==> final(bus).spec_map_failures() == old(
                bus,
            ).spec_map_failures(),
    {
        self.ioremap_resource_sized::<0, EXCLUSIVE>(resource, bus)
    }
}

/// The platform driver trait. A driver is bound to a device by `probe`;
/// at teardown the framework first delivers `unbind`, which must revoke
/// every device-scoped resource the driver holds, and only then runs the
/// driver's own `remove` — so revocation is visible before any destructor
/// touches the hardware.
pub trait Driver: Sized {
    /// Every device-scoped resource this driver holds has been revoked.
    spec fn resources_revoked(&self) -> bool;

    /// Platform driver probe: called when a new platform device is
    /// discovered; initializes the device and returns the driver's
    /// private data, or the failure that leaves the device unbound. A
    /// failed probe corrupts no global state: it leaves the reservation
    /// table and the interrupt lines exactly as they were.
    fn probe(dev: &Device, bus: &mut Bus) -> (r: Result<Self, Error>)
        requires
            old(bus).wf(),
        ensures
            final(bus).wf(),
            r is Err ==> final(bus).reserved_regions() == old(bus).reserved_regions(),
            r is Err ==> final(bus).spec_irq_lines() == old(bus).spec_irq_lines(),
    ;

    /// The device framework's teardown notification, delivered exactly
    /// once, before `remove`: revoke every device-scoped resource.
    fn unbind(&mut self)
        ensures
            final(self).resources_revoked(),
    ;

    /// The driver's own teardown. Runs only after revocation is visible,
    /// and gives every mapping and registration back to the bus.
    fn remove(self, bus: &mut Bus)
        requires
            old(bus).wf(),
            self.resources_revoked(),
        ensures
            final(bus).wf(),
            final(bus).spec_map_failures() == old(bus).spec_map_failures(),
    ;
}

/// Dispatches the platform bus's probe and remove callbacks to a driver,
/// holding the driver's private data for the device it is bound to.
pub struct Adapter<T: Driver> {
    bound: Option<T>,
}

impl<T: Driver> Adapter<T> {
    /// The driver data of the bound device, if one is bound.
    pub closed spec fn spec_driver(&self) -> Option<T> {
        self.bound
    }

    /// A device is bound through this adapter.
    pub open spec fn spec_is_bound(&self) -> bool {
        self.spec_driver() is Some
    }

    /// An adapter with no device bound yet.
    pub fn new() -> (a: Adapter<T>)
        ensures
            !a.spec_is_bound(),
    {
        Adapter { bound: None }
    }

    /// The bus found a matching device: run the driver's probe and keep
    /// its private data. Probe failure leaves the device unbound and is
    /// reported upward.
    pub fn probe_callback(&mut self, dev: &Device, bus: &mut Bus) -> (r: Result<(), Error>)
        requires
            old(bus).wf(),
            !old(self).spec_is_bound(),
        ensures
            final(bus).wf(),
            r is Ok <==> final(self).spec_is_bound(),
            r is Err ==> final(bus).reserved_regions() == old(bus).reserved_regions(),
            r is Err ==> final(bus).spec_irq_lines() == old(bus).spec_irq_lines(),
    {
        match T::probe(dev, bus) {
            Ok(data) => {
                self.bound = Some(data);
                Ok(())
            },
            Err(e) => Err(e),
        }
    }

    /// The device is going away: mark it unbound (no new device-scoped
    /// resource can be registered), deliver the revocation event to the
    /// driver, and only then run the driver's own teardown and drop its
    /// data. Removal never fails.
    pub fn remove_callback(&mut self, dev: &mut Device, bus: &mut Bus)
        requires
            old(bus).wf(),
        ensures
            final(bus).wf(),
            !final(self).spec_is_bound(),
            !final(dev).spec_bound(),
            final(dev).spec_resources() == old(dev).spec_resources(),
            final(dev).spec_irqs() == old(dev).spec_irqs(),
            final(bus).spec_map_failures() == old(bus).spec_map_failures(),
    {
        dev.set_unbound();
        match self.bound.take() {
            Some(mut data) => {
                data.unbind();
                data.remove(bus);
            },
            None => {},
        }
    }
}

} // verus!
