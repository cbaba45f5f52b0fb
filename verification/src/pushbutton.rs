//! Push-button driver over a 16-byte register block, the IRQ
//! configuration of the core: probe maps the region exclusively, unmasks
//! the buttons, and registers a shared interrupt handler that owns the
//! device-scoped mapping. The handler reads and acknowledges the edge
//! capture register through the checked mapping on every firing, and
//! reports the interrupt unhandled once the mapping is revoked. Teardown
//! revokes first, then unregisters the line — draining in-flight handler
//! invocations — masks the buttons when still possible, and gives the
//! region back.

use vstd::prelude::*;

use crate::bus::region_index_of;
use crate::bus::Bus;
use crate::bus::IrqLine;
use crate::devres::Devres;
use crate::error::Error;
use crate::irq::Flags;
use crate::irq::Handler;
use crate::irq::IrqReturn;
use crate::irq::Registration;
use crate::irq::IRQF_SHARED;
use crate::mem::mapping_ok;
use crate::mem::store_le_u32_at;
use crate::mem::IoMem;
use crate::platform::Device;
use crate::platform::Driver;

verus! {

/// The push-button register block is 16 bytes.
pub const MAPPING_SIZE: usize = 0x10;

/// The data register: the current button state.
pub const DATA_OFFSET: usize = 0x0;

/// The interrupt mask register: which buttons may raise an interrupt.
pub const INTERRUPT_MASK_OFFSET: usize = 0x8;

/// The edge capture register: which buttons fired since last acknowledged.
pub const EDGE_CAPTURE_OFFSET: usize = 0xC;

/// All four buttons.
pub const BUTTON_MASK: u32 = 0b1111;

/// The interrupt handler object: it owns the device-scoped mapping and
/// touches the hardware only through it, so a concurrent revoke is always
/// observed instead of a dangling access.
#[derive(Debug)]
pub struct IrqHandler {
    mapping: Devres<IoMem<MAPPING_SIZE, true>>,
}

impl IrqHandler {
    /// The device-scoped mapping of the button registers.
    pub closed spec fn spec_mapping(&self) -> Devres<IoMem<MAPPING_SIZE, true>> {
        self.mapping
    }

    /// A handler closing over the device-scoped button mapping.
    pub fn new(mapping: Devres<IoMem<MAPPING_SIZE, true>>) -> (h: IrqHandler)
        ensures
            h.spec_mapping() == mapping,
    {
        IrqHandler { mapping }
    }

    /// The device framework's teardown event, forwarded from the driver:
    /// revokes the mapping the handler closes over.
    pub fn unbind(&mut self)
        ensures
            final(self).spec_mapping().spec_revoked(),
            final(self).spec_mapping().spec_value() == old(self).spec_mapping().spec_value(),
    {
        self.mapping.revoke();
    }
}

impl Handler for IrqHandler {
    open spec fn device_region(&self) -> (u64, nat) {
        (
            self.spec_mapping().spec_value().spec_res_start(),
            self.spec_mapping().spec_value().spec_size(),
        )
    }

    fn handle_irq(&mut self) -> (r: IrqReturn)
        ensures
            old(self).spec_mapping().spec_revoked() ==> (r == IrqReturn::Unhandled && *final(self)
                == *old(self)),
            !old(self).spec_mapping().spec_revoked() ==> (r == IrqReturn::Handled
                && !final(self).spec_mapping().spec_revoked()
                && final(self).spec_mapping().spec_value().mem_bytes()
                == store_le_u32_at(
                old(self).spec_mapping().spec_value().mem_bytes(),
                EDGE_CAPTURE_OFFSET as int,
                BUTTON_MASK,
            )),
    {
        match self.mapping.readl(EDGE_CAPTURE_OFFSET) {
            Ok(_btns) => {
                // Acknowledge the captured edges.
                let _ = self.mapping.writel(BUTTON_MASK, EDGE_CAPTURE_OFFSET);
                IrqReturn::Handled
            },
            Err(_) => {
                // The resource is gone: not ours to handle any more.
                IrqReturn::Unhandled
            },
        }
    }
}

/// The driver's private data: the interrupt registration, whose handler
/// owns the device-scoped mapping.
#[derive(Debug)]
pub struct PushbuttonDriver {
    registration: Registration<IrqHandler>,
}

impl PushbuttonDriver {
    /// The interrupt registration of the bound device.
    pub closed spec fn spec_registration(&self) -> Registration<IrqHandler> {
        self.registration
    }
}

impl Driver for PushbuttonDriver {
    open spec fn resources_revoked(&self) -> bool {
        self.spec_registration().spec_handler().spec_mapping().spec_revoked()
    }

    fn probe(dev: &Device, bus: &mut Bus) -> (r: Result<Self, Error>)
        ensures
            r is Ok <==> ({
                &&& dev.spec_irqs().len() > 0
                &&& dev.spec_resources().len() > 0
                &&& mapping_ok(*old(bus), dev.spec_resources()[0], *dev, MAPPING_SIZE as nat, true)
                &&& old(bus).irq_line_ok(dev.spec_irqs()[0], true)
            }),
            r matches Ok(drv) ==> ({
                let res = dev.spec_resources()[0];
                let irq = dev.spec_irqs()[0];
                let line = old(bus).spec_irq_lines()[irq as int];
                let zeros = Seq::new(res.spec_size() as nat, |i: int| 0u8);
                let pushed = final(bus).reserved_regions().last();
                let mapped = drv.spec_registration().spec_handler().spec_mapping();
                &&& drv.spec_registration().spec_registered()
                &&& drv.spec_registration().spec_in_flight() == 0
                &&& drv.spec_registration().spec_irq() == irq
                &&& !mapped.spec_revoked()
                &&& mapped.spec_value().spec_res_start() == res.spec_start()
                &&& mapped.spec_value().spec_size() == res.spec_size()
                &&& mapped.spec_value().mem_bytes() == store_le_u32_at(
                    store_le_u32_at(zeros, INTERRUPT_MASK_OFFSET as int, BUTTON_MASK),
                    EDGE_CAPTURE_OFFSET as int,
                    BUTTON_MASK,
                )
                &&& final(bus).reserved_regions() == old(bus).reserved_regions().push(pushed)
                &&& pushed.start == res.spec_start()
                &&& pushed.size == res.spec_size()
                &&& pushed.name@ == res.spec_name()
                &&& final(bus).spec_irq_lines() == old(bus).spec_irq_lines().update(
                    irq as int,
                    IrqLine {
                        users: (line.users + 1) as u64,
                        shared: if line.users == 0 {
                            true
                        } else {
                            line.shared
                        },
                    },
                )
                &&& final(bus).spec_map_failures() == 0
            }),
            r is Err ==> final(bus).reserved_regions() == old(bus).reserved_regions() && final(bus).spec_irq_lines() == old(bus).spec_irq_lines(),
            r matches Err(e) ==> e == (if dev.spec_irqs().len() == 0 || dev.spec_resources().len()
                == 0 || !mapping_ok(*old(bus), dev.spec_resources()[0], *dev, MAPPING_SIZE as nat, true) {
                Error::NoSuchDevice
            } else if dev.spec_irqs()[0] >= old(bus).spec_irq_lines().len() {
                Error::NoSuchDevice
            } else {
                Error::Busy
            }),
    {
        let irq = match dev.get_irq(0) {
            Some(irq) => irq,
            None => {
                return Err(Error::NoSuchDevice);
            },
        };
        let res = match dev.resource(0) {
            Some(res) => res,
            None => {
                return Err(Error::NoSuchDevice);
            },
        };
        let mut mapping = match dev.ioremap_resource_sized::<MAPPING_SIZE, true>(res, bus) {
            Ok(mapping) => mapping,
            Err(_) => {
                return Err(Error::NoSuchDevice);
            },
        };
        // Unmask the buttons and clear stale captured edges.
        match mapping.writel(BUTTON_MASK, INTERRUPT_MASK_OFFSET) {
            Ok(()) => {},
            Err(_) => {
                return Err(Error::NoSuchDevice);
            },
        }
        match mapping.writel(BUTTON_MASK, EDGE_CAPTURE_OFFSET) {
            Ok(()) => {},
            Err(_) => {
                return Err(Error::NoSuchDevice);
            },
        }
        let handler = IrqHandler::new(mapping);
        let flags = Flags::from_bits(IRQF_SHARED);
        proof {
            assert(0x80u64 & 0x80u64 == 0x80u64) by (bit_vector);
            assert(flags.spec_contains(IRQF_SHARED));
        }
        match Registration::register(irq, flags, "ldd,pushbutton", handler, bus) {
            Ok(registration) => Ok(PushbuttonDriver { registration }),
            Err((e, handler)) => {
                // Roll the mapping back before reporting the probe failure.
                let IrqHandler { mapping } = handler;
                let ghost bus_held = *bus;
                mapping.into_inner().unmap(bus);
                proof {
                    crate::bus::lemma_release_fresh_claim(
                        bus_held.reserved_regions(),
                        old(bus).reserved_regions(),
                        res.spec_start(),
                        res.spec_size(),
                    );
                }
                Err(e)
            },
        }
    }

    fn unbind(&mut self)
        ensures
            final(self).spec_registration().spec_handler().spec_mapping().spec_value() == old(self).spec_registration().spec_handler().spec_mapping().spec_value(),
            final(self).spec_registration().spec_registered() == old(self).spec_registration().spec_registered(),
            final(self).spec_registration().spec_in_flight() == old(self).spec_registration().spec_in_flight(),
            final(self).spec_registration().spec_irq() == old(self).spec_registration().spec_irq(),
    {
        self.registration.handler_mut().unbind();
    }

    fn remove(self, bus: &mut Bus)
        ensures
            ({
                let irq = self.spec_registration().spec_irq();
                let lines = old(bus).spec_irq_lines();
                &&& (self.spec_registration().spec_registered() && irq < lines.len() && lines[irq
                    as int].users > 0 ==> final(bus).spec_irq_lines() == lines.update(
                    irq as int,
                    IrqLine {
                        users: (lines[irq as int].users - 1) as u64,
                        shared: lines[irq as int].shared,
                    },
                ))
                &&& (!self.spec_registration().spec_registered() ==> final(bus).spec_irq_lines()
                    == lines)
            }),
            ({
                let start =
                    self.spec_registration().spec_handler().spec_mapping().spec_value().spec_res_start();
                let size = self.spec_registration().spec_handler().spec_mapping().spec_value().spec_size()
                    as u64;
                &&& (old(bus).is_reserved(start, size) ==> final(bus).reserved_regions() == old(bus).reserved_regions().remove(
                    region_index_of(old(bus).reserved_regions(), start, size),
                ))
                &&& (!old(bus).is_reserved(start, size) ==> final(bus).reserved_regions() == old(bus).reserved_regions())
            }),
    {
        let mut this = self;
        // Draining unregistration first: after this, no handler invocation
        // is executing and none can begin.
        this.registration.unregister(bus);
        let mut handler = this.registration.into_handler();
        // Mask the buttons on the way out; skipped once revoked.
        let _ = handler.mapping.writel(0, INTERRUPT_MASK_OFFSET);
        let _ = handler.mapping.writel(0, EDGE_CAPTURE_OFFSET);
        handler.mapping.into_inner().unmap(bus);
    }
}

} // verus!
