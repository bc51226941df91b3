use nessy::bus::Bus;
use nessy::error::NesError;
use nessy::rom::test_rom;

#[test]
fn bus_cpu_write_and_read() {
    let mut bus = Bus::new(test_rom());

    bus.write(0x06e2, 0x25).unwrap();
    assert_eq!(bus.read(0x06e2).unwrap(), 0x25);
    bus.write(0x06e3, 0x10).unwrap();
    assert_eq!(bus.read(0x06e3).unwrap(), 0x10);
    bus.write(0x06e1, 0x07).unwrap();
    assert_eq!(bus.read(0x06e1).unwrap(), 0x07);

    assert_eq!(bus.read(0x06e2).unwrap(), 0x25);
}

#[test]
fn bus_cpu_mirroring() {
    let mut bus = Bus::new(test_rom());

    bus.write(0x0000, 0x17).unwrap();
    assert_eq!(bus.read(0x0800).unwrap(), 0x17);
    assert_eq!(bus.read(0x1000).unwrap(), 0x17);
    assert_eq!(bus.read(0x1800).unwrap(), 0x17);

    bus.write(0x0820, 0x07).unwrap();
    assert_eq!(bus.read(0x0020).unwrap(), 0x07);
    assert_eq!(bus.read(0x1020).unwrap(), 0x07);
    assert_eq!(bus.read(0x1820).unwrap(), 0x07);
}

#[test]
fn ram_write_through_last_mirror_reads_everywhere() {
    let mut bus = Bus::new(test_rom());
    bus.write(0x1FFF, 0x9C).unwrap();
    for k in 0..4u16 {
        assert_eq!(bus.read(0x07FF + 0x800 * k).unwrap(), 0x9C);
    }
}

#[test]
fn write_only_registers_fail_on_read() {
    let mut bus = Bus::new(test_rom());
    for a in [0x2000u16, 0x2001, 0x2003, 0x2005, 0x2006, 0x4014] {
        assert_eq!(bus.read(a), Err(NesError::WriteOnlyRead(a)));
    }
    // A mirror of 0x2000 fails as 0x2000 does.
    assert_eq!(bus.read(0x2008), Err(NesError::WriteOnlyRead(0x2000)));
    assert_eq!(bus.read(0x3FF8), Err(NesError::WriteOnlyRead(0x2000)));
}

#[test]
fn unmapped_addresses_fail() {
    let mut bus = Bus::new(test_rom());
    assert_eq!(bus.read(0x4000), Err(NesError::UnmappedAccess(0x4000)));
    assert_eq!(bus.read(0x2002), Err(NesError::UnmappedAccess(0x2002)));
    assert_eq!(bus.write(0x4016, 1), Err(NesError::UnmappedAccess(0x4016)));
}

#[test]
fn ppu_data_register_through_mirrors() {
    let mut bus = Bus::new(test_rom());
    // 0x3FFE folds to 0x2006, 0x3FFF to 0x2007.
    bus.write(0x3FFE, 0x3F).unwrap();
    bus.write(0x2006, 0x00).unwrap();
    bus.write(0x3FFF, 0x2A).unwrap();
    bus.write(0x2006, 0x3F).unwrap();
    bus.write(0x200E, 0x00).unwrap();
    assert_eq!(bus.read(0x200F).unwrap(), 0x2A);
}

#[test]
fn ppu_nametable_reads_are_buffered() {
    let mut bus = Bus::new(test_rom());
    bus.write(0x2006, 0x20).unwrap();
    bus.write(0x2006, 0x00).unwrap();
    bus.write(0x2007, 0x11).unwrap();
    bus.write(0x2007, 0x22).unwrap();
    bus.write(0x2006, 0x20).unwrap();
    bus.write(0x2006, 0x00).unwrap();
    // The first read hands back the old buffer, then each byte in turn.
    assert_eq!(bus.read(0x2007).unwrap(), 0x00);
    assert_eq!(bus.read(0x2007).unwrap(), 0x11);
    assert_eq!(bus.read(0x2007).unwrap(), 0x22);
}

#[test]
fn ppu_control_selects_row_increment() {
    let mut bus = Bus::new(test_rom());
    bus.write(0x2000, 0x04).unwrap();
    bus.write(0x2006, 0x20).unwrap();
    bus.write(0x2006, 0x00).unwrap();
    bus.write(0x2007, 0x01).unwrap();
    bus.write(0x2007, 0x02).unwrap();
    bus.write(0x2000, 0x00).unwrap();
    bus.write(0x2006, 0x20).unwrap();
    bus.write(0x2006, 0x20).unwrap();
    bus.read(0x2007).unwrap();
    assert_eq!(bus.read(0x2007).unwrap(), 0x02);
}

#[test]
fn read_u16_is_little_endian() {
    let mut bus = Bus::new(test_rom());
    bus.write_u16(0x0010, 0xBEEF).unwrap();
    assert_eq!(bus.read(0x0010).unwrap(), 0xEF);
    assert_eq!(bus.read(0x0011).unwrap(), 0xBE);
    assert_eq!(bus.read_u16(0x0010).unwrap(), 0xBEEF);
}

#[test]
fn cartridge_space_and_chr() {
    let mut bus = Bus::new(test_rom());
    assert_eq!(bus.read(0x8000).unwrap(), 0x00);
    assert_eq!(bus.read_chr_rom(0x1FFF), Ok(0x00));
    assert_eq!(bus.read_chr_rom(0x2000), Err(NesError::UnmappedAccess(0x2000)));
    // PRG ROM takes no writes.
    bus.write(0x8000, 0x55).unwrap();
    assert_eq!(bus.read(0x8000).unwrap(), 0x00);
}
