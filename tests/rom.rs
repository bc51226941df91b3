use nessy::cartridge::Cartridge;
use nessy::error::NesError;
use nessy::mapper::Mapper;
use nessy::nes::Nes;
use nessy::nrom::Nrom;
use nessy::ppu::AddrRegister;
use nessy::rom::{Mirroring, Rom};

/// An iNES image with the given flags and banks; PRG byte `i` is `i % 251`.
fn image(prg_banks: u8, chr_banks: u8, flags6: u8, flags7: u8, tail: [u8; 4]) -> Vec<u8> {
    let mut b = vec![0x4E, 0x45, 0x53, 0x1A, prg_banks, chr_banks, flags6, flags7, 0, 0, 0, 0];
    b.extend_from_slice(&tail);
    if flags6 & 0x04 != 0 {
        b.extend(std::iter::repeat(0xEE).take(512));
    }
    for i in 0..(prg_banks as usize * 16384) {
        b.push((i % 251) as u8);
    }
    for _ in 0..(chr_banks as usize * 8192) {
        b.push(0xCC);
    }
    b
}

#[test]
fn cartridge_fields_from_header() {
    let c = Cartridge::from_ines(&image(1, 1, 0x01, 0x00, [0; 4])).unwrap();
    assert_eq!(c.pgr_rom.len(), 16384);
    assert_eq!(c.chr_rom.len(), 8192);
    assert_eq!(c.pgr_rom[300], (300 % 251) as u8);
    assert_eq!(c.chr_rom[0], 0xCC);
    assert_eq!(c.mapper, 0);
    assert_eq!(c.mirroring, Mirroring::Vertical);
}

#[test]
fn cartridge_trainer_and_mirroring() {
    let c = Cartridge::from_ines(&image(1, 0, 0x04 | 0x08, 0x00, [0; 4])).unwrap();
    assert_eq!(c.pgr_rom[0], 0);
    assert_eq!(c.pgr_rom[1], 1);
    assert_eq!(c.mirroring, Mirroring::FourScreen);
    let c = Cartridge::from_ines(&image(1, 0, 0x00, 0x00, [0; 4])).unwrap();
    assert_eq!(c.mirroring, Mirroring::Horizontal);
}

#[test]
fn mapper_number_nibbles() {
    let c = Cartridge::from_ines(&image(1, 0, 0x30, 0x40, [0; 4])).unwrap();
    assert_eq!(c.mapper, 0x43);
    // With bytes 12 to 15 set, the high nibble counts as zero.
    let c = Cartridge::from_ines(&image(1, 0, 0x30, 0x40, [0, 0, 0, 1])).unwrap();
    assert_eq!(c.mapper, 0x03);
}

#[test]
fn invalid_images_are_refused() {
    assert!(matches!(Cartridge::from_ines(&[0x4E, 0x45, 0x53]), Err(NesError::InvalidIneS)));
    let mut bad = image(1, 0, 0, 0, [0; 4]);
    bad[3] = 0x00;
    assert!(matches!(Rom::from_ines(&bad), Err(NesError::InvalidIneS)));
    // NES 2.0.
    assert!(matches!(Rom::from_ines(&image(1, 0, 0, 0x08, [0; 4])), Err(NesError::InvalidIneS)));
    // Shorter than its header says.
    let mut short = image(1, 1, 0, 0, [0; 4]);
    short.pop();
    assert!(matches!(Cartridge::from_ines(&short), Err(NesError::InvalidIneS)));
}

#[test]
fn unsupported_mapper_is_refused() {
    assert!(matches!(Rom::from_ines(&image(1, 0, 0x10, 0, [0; 4])), Err(NesError::UnsupportedMapper(1))));
    assert!(matches!(Mapper::from_id(4, vec![], vec![]), Err(NesError::UnsupportedMapper(4))));
}

#[test]
fn nrom_128_mirrors_its_bank() {
    let rom = Rom::from_ines(&image(1, 1, 0, 0, [0; 4])).unwrap();
    assert_eq!(rom.mirroring, Mirroring::Horizontal);
    assert_eq!(rom.mapper.read(0x8005), Ok(5));
    assert_eq!(rom.mapper.read(0xC005), Ok(5));
    assert_eq!(rom.mapper.read_chr_rom(0x0010), Ok(0xCC));
    assert_eq!(rom.mapper.read(0x6000), Err(NesError::UnmappedAccess(0x6000)));
}

#[test]
fn nrom_256_spans_both_banks() {
    let rom = Rom::from_ines(&image(2, 0, 0, 0, [0; 4])).unwrap();
    assert_eq!(rom.mapper.read(0xC000), Ok((16384 % 251) as u8));
    assert_eq!(rom.mapper.read(0x8000), Ok(0));
}

#[test]
fn nrom_chr_writes() {
    let mut n = Nrom::new(vec![0; 16384], vec![0; 8192]);
    n.write(0x0010, 0x5A).unwrap();
    assert_eq!(n.read_chr_rom(0x0010), Ok(0x5A));
    assert_eq!(n.write(0x9000, 1), Ok(()));
    assert_eq!(n.read(0x9000), Ok(0));
    assert_eq!(n.write(0x5000, 1), Err(NesError::UnmappedAccess(0x5000)));
}

#[test]
fn console_runs_cartridge_program() {
    let mut img = image(1, 1, 0, 0, [0; 4]);
    // LDA #$07; BRK at 0x8000, reset vector to 0x8000.
    img[16] = 0xA9;
    img[17] = 0x07;
    img[18] = 0x00;
    img[16 + 0x3FFC] = 0x00;
    img[16 + 0x3FFD] = 0x80;
    let cartridge = Cartridge::from_ines(&img).unwrap();
    let mut nes = Nes::new(&cartridge).unwrap();
    nes.run().unwrap();
    assert_eq!(nes.cpu.a, 0x07);
    assert_eq!(nes.cpu.pc, 0x8003);
}

#[test]
fn addr_register_writes_high_then_low() {
    let mut r = AddrRegister::new();
    r.write(0x7F);
    r.write(0x12);
    assert_eq!(r.get(), 0x3F12);
    r.increment(0xF0);
    // 0x3F12 + 0xF0 passes the top of the 14-bit space.
    assert_eq!(r.get(), 0x0002);
    r.write(0x3F);
    r.write(0xFF);
    r.increment(1);
    assert_eq!(r.get(), 0x0000);
}
