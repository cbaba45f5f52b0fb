//! LED driver over a 4-byte register block, the no-IRQ configuration of
//! the core: probe maps the region exclusively and switches the LEDs on;
//! a misc-device object writes its open and close patterns through the
//! same checked, revocable mapping; the unbind event revokes the mapping,
//! after which every write is skipped as unavailable; remove switches the
//! LEDs off when still possible and gives the region back.

use vstd::prelude::*;

use crate::bus::region_index_of;
use crate::bus::Bus;
use crate::devres::Devres;
use crate::error::Error;
use crate::mem::mapping_ok;
use crate::mem::store_le_u32_at;
use crate::mem::IoMem;
use crate::platform::Device;
use crate::platform::Driver;

verus! {

/// The LED register block is 4 bytes: one 32-bit pattern register.
pub const MAPPING_SIZE: usize = 0x4;

/// The driver's private data: the device-scoped LED register mapping.
#[derive(Debug)]
pub struct LedPwmDriver {
    mapping: Devres<IoMem<MAPPING_SIZE, true>>,
}

impl LedPwmDriver {
    /// The device-scoped mapping of the LED registers.
    pub closed spec fn spec_mapping(&self) -> Devres<IoMem<MAPPING_SIZE, true>> {
        self.mapping
    }
}

impl Driver for LedPwmDriver {
    open spec fn resources_revoked(&self) -> bool {
        self.spec_mapping().spec_revoked()
    }

    fn probe(dev: &Device, bus: &mut Bus) -> (r: Result<Self, Error>)
        ensures
            r is Ok <==> (dev.spec_resources().len() > 0 && mapping_ok(
                *old(bus),
                dev.spec_resources()[0],
                *dev,
                MAPPING_SIZE as nat,
                true,
            )),
            r matches Ok(drv) ==> ({
                let res = dev.spec_resources()[0];
                let zeros = Seq::new(res.spec_size() as nat, |i: int| 0u8);
                let pushed = final(bus).reserved_regions().last();
                &&& !drv.spec_mapping().spec_revoked()
                &&& drv.spec_mapping().spec_value().spec_res_start() == res.spec_start()
                &&& drv.spec_mapping().spec_value().spec_size() == res.spec_size()
                &&& drv.spec_mapping().spec_value().mem_bytes() == store_le_u32_at(zeros, 0, 0xFF)
                &&& final(bus).reserved_regions() == old(bus).reserved_regions().push(pushed)
                &&& pushed.start == res.spec_start()
                &&& pushed.size == res.spec_size()
                &&& pushed.name@ == res.spec_name()
                &&& final(bus).spec_map_failures() == 0
            }),
            r is Err ==> final(bus).reserved_regions() == old(bus).reserved_regions(),
            r matches Err(e) ==> e == Error::NoSuchDevice,
            final(bus).spec_irq_lines() == old(bus).spec_irq_lines(),
    {
        let res = match dev.resource(0) {
            Some(res) => res,
            None => {
                return Err(Error::NoSuchDevice);
            },
        };
        let mut mapping = match dev.ioremap_resource_sized::<MAPPING_SIZE, true>(res, bus) {
            Ok(mapping) => mapping,
            Err(_) => {
                return Err(Error::NoSuchDevice);
            },
        };
        // Enable the LEDs on driver load.
        match mapping.writel(0xFF, 0x0) {
            Ok(()) => {},
            Err(_) => {
                return Err(Error::NoSuchDevice);
            },
        }
        Ok(LedPwmDriver { mapping })
    }

    fn unbind(&mut self)
        ensures
            final(self).spec_mapping().spec_value() == old(self).spec_mapping().spec_value(),
    {
        self.mapping.revoke();
    }

    fn remove(self, bus: &mut Bus)
        ensures
            ({
                let start = self.spec_mapping().spec_value().spec_res_start();
                let size = self.spec_mapping().spec_value().spec_size() as u64;
                &&& (old(bus).is_reserved(start, size) ==> final(bus).reserved_regions() == old(
                    bus,
                ).reserved_regions().remove(
                    region_index_of(old(bus).reserved_regions(), start, size),
                ))
                &&& (!old(bus).is_reserved(start, size) ==> final(bus).reserved_regions() == old(
                    bus,
                ).reserved_regions())
            }),
            final(bus).spec_irq_lines() == old(bus).spec_irq_lines(),
    {
        let mut this = self;
        // Switch the LEDs off on the way out; skipped once revoked.
        let _ = this.mapping.writel(0x00, 0x0);
        this.mapping.into_inner().unmap(bus);
    }
}

/// The misc-device object handed to userspace by the LED driver.
#[derive(Debug)]
pub struct RustMiscDevice;

impl RustMiscDevice {
    /// Opening the misc device writes the "opened" LED pattern through
    /// the checked mapping; fails like the probe path when the mapping is
    /// already revoked.
    pub fn open(led: &mut LedPwmDriver) -> (r: Result<RustMiscDevice, Error>)
        ensures
            old(led).spec_mapping().spec_revoked() ==> (r matches Err(e) && e
                == Error::NoSuchDevice && *final(led) == *old(led)),
            !old(led).spec_mapping().spec_revoked() ==> (r is Ok && !final(led).spec_mapping().spec_revoked()
                && final(led).spec_mapping().spec_value().mem_bytes()
                == store_le_u32_at(old(led).spec_mapping().spec_value().mem_bytes(), 0, 0x80)),
    {
        match led.mapping.writel(0x80, 0x0) {
            Ok(()) => Ok(RustMiscDevice),
            Err(_) => Err(Error::NoSuchDevice),
        }
    }

    /// Closing the misc device writes the "closed" LED pattern; once the
    /// mapping is revoked the write is skipped, and closing still
    /// succeeds.
    pub fn close(self, led: &mut LedPwmDriver)
        ensures
            old(led).spec_mapping().spec_revoked() ==> *final(led) == *old(led),
            !old(led).spec_mapping().spec_revoked() ==> (!final(led).spec_mapping().spec_revoked()
                && final(led).spec_mapping().spec_value().mem_bytes() == store_le_u32_at(
                old(led).spec_mapping().spec_value().mem_bytes(),
                0,
                0x10,
            )),
    {
        let _ = led.mapping.writel(0x10, 0x0);
    }
}

} // verus!
