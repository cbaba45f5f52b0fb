//! Exclusive reservation, rollback, and mapping validation scenarios.

use devres::bus::Bus;
use devres::error::Error;
use devres::mem::IoMem;
use devres::platform::Device;
use devres::resource::Resource;

fn led_device() -> Device {
    Device::new(vec![Resource::new(0x1000, 4, String::from("led"))], vec![])
}

#[test]
fn exclusive_mapping_of_overlapping_ranges_is_mutually_exclusive() {
    let mut bus = Bus::new(0);
    let dev = Device::new(
        vec![
            Resource::new(0x1000, 16, String::from("a")),
            Resource::new(0x1008, 16, String::from("b")),
        ],
        vec![],
    );
    let first = IoMem::<16, true>::new(dev.resource(0).unwrap(), &dev, &mut bus);
    assert!(first.is_ok());
    // The second range overlaps the first: at most one wins.
    let second = IoMem::<16, true>::new(dev.resource(1).unwrap(), &dev, &mut bus);
    assert_eq!(second.unwrap_err(), Error::Busy);
}

#[test]
fn disjoint_exclusive_mappings_both_succeed() {
    let mut bus = Bus::new(0);
    let dev = Device::new(
        vec![
            Resource::new(0x1000, 16, String::from("a")),
            Resource::new(0x1010, 16, String::from("b")),
        ],
        vec![],
    );
    assert!(IoMem::<16, true>::new(dev.resource(0).unwrap(), &dev, &mut bus).is_ok());
    assert!(IoMem::<16, true>::new(dev.resource(1).unwrap(), &dev, &mut bus).is_ok());
}

#[test]
fn shared_mappings_of_the_same_range_coexist() {
    let mut bus = Bus::new(0);
    let dev = Device::new(
        vec![Resource::new(0x2000, 8, String::from("shared"))],
        vec![],
    );
    let res = dev.resource(0).unwrap();
    assert!(IoMem::<8, false>::new(res, &dev, &mut bus).is_ok());
    assert!(IoMem::<8, false>::new(res, &dev, &mut bus).is_ok());
}

#[test]
fn mapping_failure_rolls_back_the_reservation() {
    let mut bus = Bus::new(0);
    let dev = led_device();
    let res = dev.resource(0).unwrap();
    bus.fail_next_mappings(1);
    let failed = IoMem::<4, true>::new(res, &dev, &mut bus);
    assert_eq!(failed.unwrap_err(), Error::OutOfMemory);
    // The reservation was released: the same range maps fine afterwards.
    let retry = IoMem::<4, true>::new(res, &dev, &mut bus);
    assert!(retry.is_ok());
}

#[test]
fn unmap_releases_the_reservation_for_remapping() {
    let mut bus = Bus::new(0);
    let dev = led_device();
    let res = dev.resource(0).unwrap();
    let mapped = IoMem::<4, true>::new(res, &dev, &mut bus).unwrap();
    assert_eq!(
        IoMem::<4, true>::new(res, &dev, &mut bus).unwrap_err(),
        Error::Busy
    );
    mapped.into_inner().unmap(&mut bus);
    assert!(IoMem::<4, true>::new(res, &dev, &mut bus).is_ok());
}

#[test]
fn zero_sized_resource_is_rejected() {
    let mut bus = Bus::new(0);
    let dev = Device::new(
        vec![Resource::new(0x3000, 0, String::from("empty"))],
        vec![],
    );
    let r = IoMem::<0, true>::new(dev.resource(0).unwrap(), &dev, &mut bus);
    assert_eq!(r.unwrap_err(), Error::InvalidArgument);
}

#[test]
fn resource_smaller_than_the_fixed_size_is_rejected() {
    let mut bus = Bus::new(0);
    let dev = Device::new(vec![Resource::new(0x3000, 2, String::from("tiny"))], vec![]);
    let r = IoMem::<4, true>::new(dev.resource(0).unwrap(), &dev, &mut bus);
    assert_eq!(r.unwrap_err(), Error::InvalidArgument);
}

#[test]
fn mapping_against_an_unbound_device_is_rejected() {
    let mut bus = Bus::new(0);
    let mut dev = led_device();
    dev.set_unbound();
    let r = IoMem::<4, true>::new(dev.resource(0).unwrap(), &dev, &mut bus);
    assert_eq!(r.unwrap_err(), Error::NoSuchDevice);
}

#[test]
fn resource_by_name_returns_the_first_match() {
    let dev = Device::new(
        vec![
            Resource::new(0x100, 4, String::from("twin")),
            Resource::new(0x200, 8, String::from("twin")),
        ],
        vec![],
    );
    assert_eq!(dev.resource_by_name("twin").unwrap().start(), 0x100);
}

#[test]
fn resource_getters_report_the_descriptor() {
    let res = Resource::new(0xABCD, 0x10, String::from("regs"));
    assert_eq!(res.start(), 0xABCD);
    assert_eq!(res.size(), 0x10);
    assert_eq!(res.name().as_str(), "regs");
}

#[test]
fn resources_are_found_by_index_and_name() {
    let dev = Device::new(
        vec![
            Resource::new(0x100, 4, String::from("ctrl")),
            Resource::new(0x200, 8, String::from("data")),
        ],
        vec![5],
    );
    assert_eq!(dev.resource(0).unwrap().start(), 0x100);
    assert_eq!(dev.resource(1).unwrap().start(), 0x200);
    assert!(dev.resource(2).is_none());
    assert_eq!(dev.resource_by_name("data").unwrap().start(), 0x200);
    assert!(dev.resource_by_name("absent").is_none());
    assert_eq!(dev.get_irq(0), Some(5));
    assert_eq!(dev.get_irq(1), None);
}
