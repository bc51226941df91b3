use nessy::error::NesError;
use nessy::mapper::Mapper;
use nessy::memory::Memory;
use nessy::nrom::Nrom;

#[test]
fn memory_cpu_write_and_read() {
    let mut memory = Memory::new(Mapper::Nrom(Nrom::new(Vec::new(), Vec::new())));

    memory.write(0x06e2, 0x25).unwrap();
    assert_eq!(memory.read(0x06e2).unwrap(), 0x25);
    memory.write(0x06e3, 0x10).unwrap();
    assert_eq!(memory.read(0x06e3).unwrap(), 0x10);
    memory.write(0x06e1, 0x07).unwrap();
    assert_eq!(memory.read(0x06e1).unwrap(), 0x07);

    assert_eq!(memory.read(0x06e2).unwrap(), 0x25);
}

#[test]
fn memory_cpu_mirroring() {
    let mut memory = Memory::new(Mapper::Nrom(Nrom::new(Vec::new(), Vec::new())));

    memory.write(0x0000, 0x17).unwrap();
    assert_eq!(memory.read(0x0800).unwrap(), 0x17);
    assert_eq!(memory.read(0x1000).unwrap(), 0x17);
    assert_eq!(memory.read(0x1800).unwrap(), 0x17);

    memory.write(0x0820, 0x07).unwrap();
    assert_eq!(memory.read(0x0020).unwrap(), 0x07);
    assert_eq!(memory.read(0x1020).unwrap(), 0x07);
    assert_eq!(memory.read(0x1820).unwrap(), 0x07);
}

#[test]
fn memory_without_ppu_and_empty_cartridge() {
    let mut memory = Memory::new(Mapper::Nrom(Nrom::new(Vec::new(), Vec::new())));
    assert_eq!(memory.read(0x2000), Err(NesError::UnmappedAccess(0x2000)));
    assert_eq!(memory.read(0x8000), Err(NesError::UnmappedAccess(0x8000)));
    memory.write_u16(0x0100, 0x1234).unwrap();
    assert_eq!(memory.read_u16(0x0100).unwrap(), 0x1234);
}
