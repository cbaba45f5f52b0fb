//! Revocation and the LED-style end-to-end lifecycle.

use devres::bus::Bus;
use devres::devres::Devres;
use devres::error::Error;
use devres::ledpwm::LedPwmDriver;
use devres::ledpwm::RustMiscDevice;
use devres::mem::IoMem;
use devres::platform::Adapter;
use devres::platform::Device;
use devres::platform::Driver;
use devres::resource::Resource;

fn led_device() -> Device {
    Device::new(vec![Resource::new(0x1000, 4, String::from("led"))], vec![])
}

#[test]
fn try_access_returns_none_after_revoke() {
    let dev = led_device();
    let mut d = Devres::new(&dev, 42u32).unwrap();
    assert!(!d.is_revoked());
    assert_eq!(*d.try_access().unwrap(), 42);
    d.revoke();
    assert!(d.is_revoked());
    assert!(d.try_access().is_none());
    assert!(d.try_access().is_none());
    assert!(d.try_access_mut().is_none());
    // Revocation gates access, not lifetime: the value is still destroyed
    // (here: returned) exactly once.
    assert_eq!(d.into_inner(), 42);
}

#[test]
fn devres_new_fails_on_a_device_in_teardown() {
    let mut dev = led_device();
    dev.set_unbound();
    let r = Devres::new(&dev, 42u32);
    assert_eq!(r.unwrap_err(), Error::NoSuchDevice);
}

#[test]
fn mutable_access_works_until_revoked() {
    let dev = led_device();
    let mut d = Devres::new(&dev, 1u32).unwrap();
    *d.try_access_mut().unwrap() = 7;
    assert_eq!(*d.try_access().unwrap(), 7);
    d.revoke();
    assert!(d.try_access_mut().is_none());
}

#[test]
fn writes_after_revoke_report_unavailable() {
    let mut bus = Bus::new(0);
    let dev = led_device();
    let mut io: Devres<IoMem<4, true>> = dev
        .ioremap_resource_sized::<4, true>(dev.resource(0).unwrap(), &mut bus)
        .unwrap();
    io.writel(0xFF, 0).unwrap();
    assert_eq!(io.readl(0).unwrap(), 0xFF);
    io.revoke();
    assert_eq!(io.writel(0x1, 0).unwrap_err(), Error::Unavailable);
    assert_eq!(io.readl(0).unwrap_err(), Error::Unavailable);
    assert_eq!(io.try_writel(0x1, 0).unwrap_err(), Error::Unavailable);
    assert_eq!(io.try_readl(0).unwrap_err(), Error::Unavailable);
}

#[test]
fn led_device_full_lifecycle() {
    let mut bus = Bus::new(0);
    let mut dev = led_device();

    // Probe: maps the 4-byte region exclusively and switches the LEDs on.
    let mut led = LedPwmDriver::probe(&dev, &mut bus).unwrap();
    let misc = RustMiscDevice::open(&mut led).unwrap();
    misc.close(&mut led);

    // Simulate device unbind: revocation, then the driver's own teardown.
    dev.set_unbound();
    led.unbind();

    // After revocation the misc device can no longer reach the hardware,
    // and nothing crashes.
    assert_eq!(
        RustMiscDevice::open(&mut led).unwrap_err(),
        Error::NoSuchDevice
    );

    led.remove(&mut bus);

    // The region is no longer reserved: a fresh device can map it again.
    let dev2 = led_device();
    assert!(LedPwmDriver::probe(&dev2, &mut bus).is_ok());
}

#[test]
fn adapter_dispatches_probe_and_remove() {
    let mut bus = Bus::new(0);
    let mut dev = led_device();
    let mut adapter: Adapter<LedPwmDriver> = Adapter::new();
    adapter.probe_callback(&dev, &mut bus).unwrap();
    adapter.remove_callback(&mut dev, &mut bus);
    assert!(!dev.is_bound());
    // Teardown released the region: probing a fresh device works again.
    let dev2 = led_device();
    let mut adapter2: Adapter<LedPwmDriver> = Adapter::new();
    assert!(adapter2.probe_callback(&dev2, &mut bus).is_ok());
}

#[test]
fn probe_fails_without_a_resource() {
    let mut bus = Bus::new(0);
    let dev = Device::new(vec![], vec![]);
    let r = LedPwmDriver::probe(&dev, &mut bus);
    assert_eq!(r.unwrap_err(), Error::NoSuchDevice);
}

#[test]
fn probe_failure_reports_no_such_device_when_the_region_is_contended() {
    let mut bus = Bus::new(0);
    let dev = led_device();
    let _held = LedPwmDriver::probe(&dev, &mut bus).unwrap();
    // The second probe cannot reserve the range; the probe error policy
    // folds every mapping failure into `NoSuchDevice`.
    let r = LedPwmDriver::probe(&dev, &mut bus);
    assert_eq!(r.unwrap_err(), Error::NoSuchDevice);
}
