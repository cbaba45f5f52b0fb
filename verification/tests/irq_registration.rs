//! IRQ registration, sharing, the unregister drain guarantee, and the
//! button-style end-to-end scenario.

use devres::bus::Bus;
use devres::devres::Devres;
use devres::error::Error;
use devres::irq::Flags;
use devres::irq::Handler;
use devres::irq::IrqReturn;
use devres::irq::Registration;
use devres::irq::IRQF_ONESHOT;
use devres::irq::IRQF_SHARED;
use devres::irq::IRQF_TRIGGER_RISING;
use devres::mem::IoMem;
use devres::platform::Device;
use devres::platform::Driver;
use devres::pushbutton::IrqHandler;
use devres::pushbutton::PushbuttonDriver;
use devres::resource::Resource;

/// A test double that counts how often it runs: the model of a handler
/// that is still executing on another processor.
#[derive(Debug)]
struct CountingHandler {
    count: u32,
}

impl Handler for CountingHandler {
    fn handle_irq(&mut self) -> IrqReturn {
        self.count += 1;
        IrqReturn::Handled
    }
}

fn button_device() -> Device {
    Device::new(
        vec![Resource::new(0x6000, 16, String::from("buttons"))],
        vec![0],
    )
}

#[test]
fn flags_combine_bitwise() {
    let f = Flags::from_bits(IRQF_SHARED).or(Flags::from_bits(IRQF_TRIGGER_RISING));
    assert_eq!(f.bits(), IRQF_SHARED | IRQF_TRIGGER_RISING);
    assert!(f.contains(IRQF_SHARED));
    assert!(f.contains(IRQF_TRIGGER_RISING));
    assert!(!f.contains(IRQF_ONESHOT));
    assert_eq!(f.and(Flags::from_bits(IRQF_SHARED)).bits(), IRQF_SHARED);
    assert_eq!(Flags::empty().bits(), 0);
    assert_eq!(f.complement().and(f).bits(), 0);
}

#[test]
fn registering_a_missing_line_fails() {
    let mut bus = Bus::new(1);
    let r = Registration::register(
        3,
        Flags::empty(),
        "nope",
        CountingHandler { count: 0 },
        &mut bus,
    );
    match r {
        Err((e, h)) => {
            assert_eq!(e, Error::NoSuchDevice);
            assert_eq!(h.count, 0);
        }
        Ok(_) => panic!("line 3 does not exist"),
    }
}

#[test]
fn a_held_line_is_shared_only_when_everyone_agrees() {
    let mut bus = Bus::new(1);
    let shared = Flags::from_bits(IRQF_SHARED);
    let first =
        Registration::register(0, shared, "a", CountingHandler { count: 0 }, &mut bus).unwrap();
    // A second sharer is welcome.
    let second =
        Registration::register(0, shared, "b", CountingHandler { count: 0 }, &mut bus).unwrap();
    // A non-sharing third party is refused.
    match Registration::register(0, Flags::empty(), "c", CountingHandler { count: 0 }, &mut bus) {
        Err((e, _)) => assert_eq!(e, Error::Busy),
        Ok(_) => panic!("sharing mismatch must be refused"),
    }
    drop(first);
    drop(second);
}

#[test]
fn an_exclusively_held_line_refuses_sharers() {
    let mut bus = Bus::new(1);
    let _first = Registration::register(
        0,
        Flags::empty(),
        "a",
        CountingHandler { count: 0 },
        &mut bus,
    )
    .unwrap();
    match Registration::register(
        0,
        Flags::from_bits(IRQF_SHARED),
        "b",
        CountingHandler { count: 0 },
        &mut bus,
    ) {
        Err((e, _)) => assert_eq!(e, Error::Busy),
        Ok(_) => panic!("the line is held without sharing"),
    }
}

#[test]
fn unregister_drains_in_flight_handlers_before_returning() {
    let mut bus = Bus::new(1);
    let mut reg = Registration::register(
        0,
        Flags::empty(),
        "counter",
        CountingHandler { count: 0 },
        &mut bus,
    )
    .unwrap();
    assert_eq!(reg.fire(), IrqReturn::Handled);
    // Two invocations have begun on other processors and not yet finished.
    reg.dispatch_begin();
    reg.dispatch_begin();
    // Unregistering blocks until both complete: when it returns, their
    // effects on the handler have happened and nothing is in flight.
    reg.unregister(&mut bus);
    let handler = reg.into_handler();
    assert_eq!(handler.count, 3);
    // The line is free again.
    assert!(Registration::register(
        0,
        Flags::empty(),
        "again",
        CountingHandler { count: 0 },
        &mut bus
    )
    .is_ok());
}

#[test]
fn unregistering_twice_is_harmless() {
    let mut bus = Bus::new(1);
    let mut reg = Registration::register(
        0,
        Flags::empty(),
        "once",
        CountingHandler { count: 0 },
        &mut bus,
    )
    .unwrap();
    reg.unregister(&mut bus);
    reg.unregister(&mut bus);
    // Only one binding was released: a new one takes the line, a second
    // non-sharing one is refused.
    let _again = Registration::register(
        0,
        Flags::empty(),
        "a",
        CountingHandler { count: 0 },
        &mut bus,
    )
    .unwrap();
    match Registration::register(0, Flags::empty(), "b", CountingHandler { count: 0 }, &mut bus) {
        Err((e, _)) => assert_eq!(e, Error::Busy),
        Ok(_) => panic!("the line must still be held"),
    }
}

#[test]
fn handler_observes_a_snapshot_or_unavailable_never_a_dangling_read() {
    let mut bus = Bus::new(1);
    let dev = button_device();
    let mapping: Devres<IoMem<16, true>> = dev
        .ioremap_resource_sized::<16, true>(dev.resource(0).unwrap(), &mut bus)
        .unwrap();
    let handler = IrqHandler::new(mapping);
    let mut reg = Registration::register(
        dev.get_irq(0).unwrap(),
        Flags::from_bits(IRQF_SHARED),
        "buttons",
        handler,
        &mut bus,
    )
    .unwrap();

    // One interleaving: the interrupt fires before the revoke.
    assert_eq!(reg.fire(), IrqReturn::Handled);

    // The other interleaving: the mapping is revoked first; the handler
    // observes "unavailable" and reports the interrupt unhandled.
    reg.handler_mut().unbind();
    assert_eq!(reg.fire(), IrqReturn::Unhandled);

    reg.unregister(&mut bus);
    let h = reg.into_handler();
    // Teardown: the mapping is destroyed exactly once and the region is
    // reusable afterwards.
    drop(h);
}

#[test]
fn pushbutton_device_full_lifecycle() {
    let mut bus = Bus::new(1);
    let mut dev = button_device();
    let mut drv = PushbuttonDriver::probe(&dev, &mut bus).unwrap();
    dev.set_unbound();
    drv.unbind();
    drv.remove(&mut bus);
    // Both the memory range and the interrupt line are free again.
    let dev2 = button_device();
    let drv2 = PushbuttonDriver::probe(&dev2, &mut bus).unwrap();
    drop(drv2);
}

#[test]
fn pushbutton_probe_fails_without_an_irq() {
    let mut bus = Bus::new(1);
    let dev = Device::new(
        vec![Resource::new(0x6000, 16, String::from("buttons"))],
        vec![],
    );
    let r = PushbuttonDriver::probe(&dev, &mut bus);
    assert_eq!(r.unwrap_err(), Error::NoSuchDevice);
}

#[test]
fn pushbutton_probe_rolls_back_the_mapping_when_the_line_is_refused() {
    let mut bus = Bus::new(1);
    // Hold the only line without sharing, so the button probe is refused.
    let _line = Registration::register(
        0,
        Flags::empty(),
        "squatter",
        CountingHandler { count: 0 },
        &mut bus,
    )
    .unwrap();
    let dev = button_device();
    let r = PushbuttonDriver::probe(&dev, &mut bus);
    assert_eq!(r.unwrap_err(), Error::Busy);
    // The probe released its mapping on the way out: the region can be
    // mapped again.
    assert!(IoMem::<16, true>::new(dev.resource(0).unwrap(), &dev, &mut bus).is_ok());
}
