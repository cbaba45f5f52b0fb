//! Round-trip register semantics and runtime bounds checking.

use devres::bus::Bus;
use devres::devres::Devres;
use devres::error::Error;
use devres::mem::IoMem;
use devres::platform::Device;
use devres::resource::Resource;

fn mapped_16(bus: &mut Bus) -> Devres<IoMem<16, true>> {
    let dev = Device::new(
        vec![Resource::new(0x4000, 16, String::from("regs"))],
        vec![],
    );
    dev.ioremap_resource_sized::<16, true>(dev.resource(0).unwrap(), bus)
        .unwrap()
}

#[test]
fn write_then_read_returns_the_written_value() {
    let mut bus = Bus::new(0);
    let mut io = mapped_16(&mut bus);
    let cases: [(usize, u32); 6] = [
        (0, 0xFF),
        (4, 0xDEADBEEF),
        (8, 1),
        (12, 0),
        (0, u32::MAX),
        (4, 0x01020304),
    ];
    for (offset, value) in cases {
        io.writel(value, offset).unwrap();
        assert_eq!(io.readl(offset).unwrap(), value);
    }
}

#[test]
fn registers_start_out_zeroed_and_writes_do_not_bleed() {
    let mut bus = Bus::new(0);
    let mut io = mapped_16(&mut bus);
    assert_eq!(io.readl(0).unwrap(), 0);
    assert_eq!(io.readl(12).unwrap(), 0);
    io.writel(0xAABBCCDD, 4).unwrap();
    assert_eq!(io.readl(0).unwrap(), 0);
    assert_eq!(io.readl(8).unwrap(), 0);
    assert_eq!(io.readl(4).unwrap(), 0xAABBCCDD);
}

#[test]
fn storage_is_little_endian() {
    let mut bus = Bus::new(0);
    let mut io = mapped_16(&mut bus);
    io.writel(0x01020304, 0).unwrap();
    // Reading 4 bytes shifted by nothing reconstructs the value; an
    // unaligned runtime read sees the byte order directly.
    assert_eq!(io.try_readl(1).unwrap(), 0x00010203);
}

#[test]
fn runtime_checked_access_rejects_out_of_range_offsets() {
    let mut bus = Bus::new(0);
    let dev = Device::new(
        vec![Resource::new(0x5000, 16, String::from("regs"))],
        vec![],
    );
    // Size known only at run time: only the runtime-checked path exists.
    let mut io = dev
        .ioremap_resource::<true>(dev.resource(0).unwrap(), &mut bus)
        .unwrap();
    assert!(io.try_writel(7, 0).is_ok());
    assert!(io.try_writel(7, 12).is_ok());
    assert_eq!(io.try_writel(7, 13).unwrap_err(), Error::InvalidArgument);
    assert_eq!(io.try_writel(7, 16).unwrap_err(), Error::InvalidArgument);
    assert_eq!(io.try_writel(7, usize::MAX).unwrap_err(), Error::InvalidArgument);
    assert_eq!(io.try_readl(13).unwrap_err(), Error::InvalidArgument);
    assert_eq!(io.try_readl(0).unwrap(), 7);
    assert_eq!(io.try_readl(12).unwrap(), 7);
}

#[test]
fn rejected_writes_leave_every_register_untouched() {
    let mut bus = Bus::new(0);
    let mut io = mapped_16(&mut bus);
    io.writel(0x11111111, 0).unwrap();
    io.writel(0x22222222, 12).unwrap();
    assert_eq!(io.try_writel(0x33333333, 14).unwrap_err(), Error::InvalidArgument);
    assert_eq!(io.readl(0).unwrap(), 0x11111111);
    assert_eq!(io.readl(12).unwrap(), 0x22222222);
}
