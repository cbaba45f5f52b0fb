//! IRQ registration and handling. A `Registration<H>` owns an interrupt
//! line binding and the handler object `H` the line dispatches to. Its
//! states are: unregistered (only reachable again after unregistering),
//! registered (the subsystem may invoke the handler at any time, possibly
//! on another processor), and drained (unregistered with no invocation in
//! flight). Unregistering blocks until every in-flight invocation has
//! completed, so the handler is never invoked after it is torn down.

use vstd::prelude::*;

use crate::bus::Bus;
use crate::bus::IrqLine;
use crate::error::Error;

verus! {

/// Use the interrupt line as already configured.
pub const IRQF_TRIGGER_NONE: u64 = 0;

/// The interrupt is triggered when the signal goes from low to high.
pub const IRQF_TRIGGER_RISING: u64 = 0x1;

/// The interrupt is triggered when the signal goes from high to low.
pub const IRQF_TRIGGER_FALLING: u64 = 0x2;

/// The interrupt is triggered while the signal is held high.
pub const IRQF_TRIGGER_HIGH: u64 = 0x4;

/// The interrupt is triggered while the signal is held low.
pub const IRQF_TRIGGER_LOW: u64 = 0x8;

/// Allow sharing the irq among several devices; must be set whenever the
/// line is known to be multiplexed with other devices.
pub const IRQF_SHARED: u64 = 0x80;

/// Set by callers when they expect sharing mismatches to occur.
pub const IRQF_PROBE_SHARED: u64 = 0x100;

/// Flag to mark this interrupt as a timer interrupt.
pub const IRQF_TIMER: u64 = 0x200;

/// Interrupt is per cpu.
pub const IRQF_PERCPU: u64 = 0x400;

/// Flag to exclude this interrupt from irq balancing.
pub const IRQF_NOBALANCING: u64 = 0x800;

/// Interrupt is used for polling.
pub const IRQF_IRQPOLL: u64 = 0x1000;

/// Interrupt is not reenabled after the hardirq handler finished; used by
/// threaded interrupts which need to keep the line disabled until the
/// threaded handler has run.
pub const IRQF_ONESHOT: u64 = 0x2000;

/// Do not disable this IRQ during suspend.
pub const IRQF_NO_SUSPEND: u64 = 0x4000;

/// Force enable it on resume even if `IRQF_NO_SUSPEND` is set.
pub const IRQF_FORCE_RESUME: u64 = 0x8000;

/// Interrupt cannot be threaded.
pub const IRQF_NO_THREAD: u64 = 0x10000;

/// Resume IRQ early during syscore instead of at device resume time.
pub const IRQF_EARLY_RESUME: u64 = 0x20000;

/// If the IRQ is shared with a NO_SUSPEND user, execute this interrupt
/// handler after suspending interrupts.
pub const IRQF_COND_SUSPEND: u64 = 0x40000;

/// Do not enable the IRQ automatically when it is requested; it is
/// enabled explicitly later.
pub const IRQF_NO_AUTOEN: u64 = 0x80000;

/// Exclude from runaway detection for IPI and similar handlers; depends
/// on `IRQF_PERCPU`.
pub const IRQF_NO_DEBUG: u64 = 0x100000;

/// Flags to be used when registering IRQ handlers: trigger edge or level,
/// sharing, threading and suspend behavior. Combined with `or`, `and` and
/// `complement`.
#[derive(Clone, Copy, Debug, PartialEq, Eq, Structural)]
pub struct Flags {
    bits: u64,
}

impl Flags {
    /// The raw flag bits.
    pub closed spec fn spec_bits(&self) -> u64 {
        self.bits
    }

    /// All the bits of `mask` are set.
    pub open spec fn spec_contains(&self, mask: u64) -> bool {
        self.spec_bits() & mask == mask
    }

    /// No flags set.
    pub fn empty() -> (f: Flags)
        ensures
            f.spec_bits() == 0,
    {
        Flags { bits: 0 }
    }

    /// The flags with exactly the given bits set.
    pub fn from_bits(bits: u64) -> (f: Flags)
        ensures
            f.spec_bits() == bits,
    {
        Flags { bits }
    }

    /// The raw flag bits.
    pub fn bits(&self) -> (r: u64)
        ensures
            r == self.spec_bits(),
    {
        self.bits
    }

    /// The union of two flag sets.
    pub fn or(self, rhs: Flags) -> (r: Flags)
        ensures
            r.spec_bits() == (self.spec_bits() | rhs.spec_bits()),
    {
        Flags { bits: self.bits | rhs.bits }
    }

    /// The intersection of two flag sets.
    pub fn and(self, rhs: Flags) -> (r: Flags)
        ensures
            r.spec_bits() == (self.spec_bits() & rhs.spec_bits()),
    {
        Flags { bits: self.bits & rhs.bits }
    }

    /// The flags with every bit flipped.
    pub fn complement(self) -> (r: Flags)
        ensures
            r.spec_bits() == !self.spec_bits(),
    {
        Flags { bits: !self.bits }
    }

    /// All the bits of `mask` are set.
    pub fn contains(&self, mask: u64) -> (r: bool)
        ensures
            r == self.spec_contains(mask),
    {
        self.bits & mask == mask
    }
}

/// The value an IRQ handler returns to the subsystem.
#[derive(Clone, Copy, Debug, PartialEq, Eq, Structural)]
pub enum IrqReturn {
    /// The interrupt was not from this device or was not handled; on a
    /// shared line the subsystem will probe the other handlers.
    Unhandled,
    /// The interrupt was handled by this device.
    Handled,
}

/// Callbacks for an IRQ handler. Invoked by the interrupt subsystem, on
/// any processor, whenever the registered line fires; must not assume its
/// device-scoped resources are still accessible, and must report an
/// interrupt it could not service as unhandled.
pub trait Handler {
    /// The base and size of the device region this handler serves;
    /// `(0, 0)` for a handler that serves none.
    open spec fn device_region(&self) -> (u64, nat) {
        (0u64, 0nat)
    }

    /// The actual handler function. A firing may poke the device's
    /// registers; it never changes which device region the handler
    /// serves.
    fn handle_irq(&mut self) -> (r: IrqReturn)
        ensures
            final(self).device_region() == old(self).device_region(),
    ;
}

/// A registration of an IRQ handler for a given IRQ line, owning the
/// handler for as long as the line may dispatch to it.
#[derive(Debug)]
pub struct Registration<H: Handler> {
    irq: u32,
    handler: H,
    registered: bool,
    in_flight: u64,
}

impl<H: Handler> Registration<H> {
    /// The line this registration is for.
    pub closed spec fn spec_irq(&self) -> u32 {
        self.irq
    }

    /// The owned handler object.
    pub closed spec fn spec_handler(&self) -> H {
        self.handler
    }

    /// The line is currently bound to the handler.
    pub closed spec fn spec_registered(&self) -> bool {
        self.registered
    }

    /// How many handler invocations are executing right now on other
    /// processors.
    pub closed spec fn spec_in_flight(&self) -> u64 {
        self.in_flight
    }

    /// Registers `handler` with the interrupt subsystem for line `irq`.
    /// The handler must be ready to be invoked as soon as this returns.
    /// Fails, handing the handler back untouched, when the subsystem
    /// refuses the binding: `NoSuchDevice` for a line the bus does not
    /// provide, `Busy` for a held line not shared by all parties (sharing
    /// is requested by the `IRQF_SHARED` flag).
    pub fn register(irq: u32, flags: Flags, _name: &str, handler: H, bus: &mut Bus) -> (r: Result<
        Registration<H>,
        (Error, H),
    >)
        requires
            old(bus).wf(),
        ensures
            final(bus).wf(),
            final(bus).reserved_regions() == old(bus).reserved_regions(),
            final(bus).spec_map_failures() == old(bus).spec_map_failures(),
            r is Ok <==> old(bus).irq_line_ok(irq, flags.spec_contains(IRQF_SHARED)),
            r matches Ok(reg) ==> {
                &&& reg.spec_registered()
                &&& reg.spec_in_flight() == 0
                &&& reg.spec_irq() == irq
                &&& reg.spec_handler() == handler
                &&& final(bus).spec_irq_lines() == old(bus).spec_irq_lines().update(
                    irq as int,
                    IrqLine {
                        users: (old(bus).spec_irq_lines()[irq as int].users + 1) as u64,
                        shared: if old(bus).spec_irq_lines()[irq as int].users == 0 {
                            flags.spec_contains(IRQF_SHARED)
                        } else {
                            old(bus).spec_irq_lines()[irq as int].shared
                        },
                    },
                )
            },
            r matches Err((e, h)) ==> {
                &&& h == handler
                &&& final(bus).spec_irq_lines() == old(bus).spec_irq_lines()
                &&& e == (if irq >= old(bus).spec_irq_lines().len() {
                    Error::NoSuchDevice
                } else {
                    Error::Busy
                })
            },
    {
        let shared = flags.contains(IRQF_SHARED);
        match bus.request_irq(irq, shared) {
            Ok(()) => Ok(Registration { irq, handler, registered: true, in_flight: 0 }),
            Err(e) => Err((e, handler)),
        }
    }

    /// Returns a reference to the handler that was registered with the
    /// subsystem.
    pub fn handler(&self) -> (r: &H)
        ensures
            *r == self.spec_handler(),
    {
        &self.handler
    }

    /// Mutable access to the handler, e.g. to forward a device teardown
    /// event to resources the handler owns.
    pub fn handler_mut(&mut self) -> (r: &mut H)
        ensures
            *r == old(self).spec_handler(),
            final(self).spec_handler() == *final(r),
            final(self).spec_registered() == old(self).spec_registered(),
            final(self).spec_in_flight() == old(self).spec_in_flight(),
            final(self).spec_irq() == old(self).spec_irq(),
    {
        &mut self.handler
    }

    /// The trampoline: the subsystem dispatches one firing of the line to
    /// the registered handler and waits for it to finish. Only a
    /// registered line fires.
    pub fn fire(&mut self) -> (r: IrqReturn)
        requires
            old(self).spec_registered(),
            old(self).spec_in_flight() < u64::MAX,
        ensures
            final(self).spec_registered(),
            final(self).spec_in_flight() == old(self).spec_in_flight(),
            final(self).spec_irq() == old(self).spec_irq(),
            final(self).spec_handler().device_region() == old(
                self,
            ).spec_handler().device_region(),
    {
        self.in_flight = self.in_flight + 1;
        let r = self.handler.handle_irq();
        self.in_flight = self.in_flight - 1;
        r
    }

    /// Models a handler invocation that has begun on another processor and
    /// has not yet returned. It completes when the subsystem lets it run
    /// to its end — at the latest while `unregister` drains the line.
    pub fn dispatch_begin(&mut self)
        requires
            old(self).spec_registered(),
            old(self).spec_in_flight() < u64::MAX,
        ensures
            final(self).spec_registered(),
            final(self).spec_in_flight() == old(self).spec_in_flight() + 1,
            final(self).spec_handler() == old(self).spec_handler(),
            final(self).spec_irq() == old(self).spec_irq(),
    {
        self.in_flight = self.in_flight + 1;
    }

    /// Law: unregistering drains in-flight handler invocations. This
    /// blocks until every handler invocation already in progress on
    /// another processor has completed — modeled by running each
    /// outstanding invocation to its end before the line is released — so
    /// when it returns, no invocation is executing
    /// (`final(self).spec_in_flight() == 0`) and none can begin again (the
    /// subsystem only fires registered lines). Unregistering never fails,
    /// and unregistering twice changes nothing further.
    pub fn unregister(&mut self, bus: &mut Bus)
        requires
            old(bus).wf(),
        ensures
            final(bus).wf(),
            final(bus).reserved_regions() == old(bus).reserved_regions(),
            final(bus).spec_map_failures() == old(bus).spec_map_failures(),
            !final(self).spec_registered(),
            final(self).spec_in_flight() == 0,
            final(self).spec_irq() == old(self).spec_irq(),
            old(self).spec_registered() && old(self).spec_irq() < old(
                bus,
            ).spec_irq_lines().len() && old(bus).spec_irq_lines()[old(self).spec_irq() as int].users
                > 0 ==> final(bus).spec_irq_lines() == old(bus).spec_irq_lines().update(
                old(self).spec_irq() as int,
                IrqLine {
                    users: (old(bus).spec_irq_lines()[old(self).spec_irq() as int].users
                        - 1) as u64,
                    shared: old(bus).spec_irq_lines()[old(self).spec_irq() as int].shared,
                },
            ),
            !old(self).spec_registered() ==> final(bus).spec_irq_lines() == old(
                bus,
            ).spec_irq_lines(),
            final(self).spec_handler().device_region() == old(
                self,
            ).spec_handler().device_region(),
    {
        while self.in_flight > 0
            invariant
                self.spec_irq() == old(self).spec_irq(),
                self.spec_registered() == old(self).spec_registered(),
                self.spec_handler().device_region() == old(self).spec_handler().device_region(),
                *bus == *old(bus),
            decreases self.in_flight,
        {
            let _ = self.handler.handle_irq();
            self.in_flight = self.in_flight - 1;
        }
        if self.registered {
            bus.free_irq(self.irq);
            self.registered = false;
        }
    }

    /// Consumes a drained registration and yields the handler, for the
    /// owner's own teardown. Only an unregistered handler may be taken
    /// out: while the line is bound, the subsystem may still dispatch to
    /// the handler, which must therefore stay in place.
    pub fn into_handler(self) -> (h: H)
        requires
            !self.spec_registered(),
        ensures
            h == self.spec_handler(),
    {
        self.handler
    }
}

} // verus!
