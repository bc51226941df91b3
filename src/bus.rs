use vstd::prelude::*;

use crate::error::NesError;
use crate::mapper::{mapper_read, mapper_read_chr, mapper_write, MapperModel};
use crate::ppu::{
    addr_after_write, ppu_initial, ppu_read, ppu_wf, ppu_write, ControlRegister, Ppu, PpuModel,
};
use crate::rom::{Mirroring, Rom};

verus! {

/// What the CPU can reach through the bus: its 2 KiB of RAM, the cartridge
/// board and the PPU.
pub struct BusModel {
    pub ram: Seq<u8>,
    pub mapper: MapperModel,
    pub mirroring: Mirroring,
    pub ppu: PpuModel,
}

pub open spec fn bus_wf(b: BusModel) -> bool {
    b.ram.len() == 0x800 && ppu_wf(b.ppu)
}

/// The address after `a`, wrapping at the top of the 16-bit space.
pub open spec fn next_address(a: u16) -> u16 {
    ((a + 1) % 0x10000) as u16
}

/// `0x2008..=0x3FFF` repeats the eight PPU registers.
pub open spec fn fold_ppu_mirror(a: u16) -> u16 {
    if 0x2008 <= a <= 0x3FFF {
        a & 0x2007
    } else {
        a
    }
}

/// The registers that can only be written: PPU control, mask, OAM address,
/// scroll and address, and the sprite DMA port.
pub open spec fn is_write_only(a: u16) -> bool {
    a == 0x2000 || a == 0x2001 || a == 0x2003 || a == 0x2005 || a == 0x2006 || a == 0x4014
}

/// `0x0000..=0x1FFF` repeats the 2 KiB of RAM four times.
pub open spec fn ram_index(a: u16) -> int {
    (a & 0x07FF) as int
}

/// A CPU read through the bus: the state after it and the byte or the failure.
pub open spec fn bus_read(b: BusModel, addr: u16) -> (BusModel, Result<u8, NesError>) {
    let a = fold_ppu_mirror(addr);
    if a <= 0x1FFF {
        (b, Ok(b.ram[ram_index(a)]))
    } else if is_write_only(a) {
        (b, Err(NesError::WriteOnlyRead(a)))
    } else if a == 0x2007 {
        let (p, r) = ppu_read(b.ppu, b.mapper);
        (BusModel { ppu: p, ..b }, r)
    } else if a >= 0x4020 {
        (b, mapper_read(b.mapper, a))
    } else {
        (b, Err(NesError::UnmappedAccess(a)))
    }
}

/// A CPU write through the bus. Writes to the PPU registers that this core
/// does not model (mask, OAM address, scroll) and to the DMA port are taken
/// and have no effect.
pub open spec fn bus_write(b: BusModel, addr: u16, v: u8) -> (BusModel, Result<(), NesError>) {
    let a = fold_ppu_mirror(addr);
    if a <= 0x1FFF {
        (BusModel { ram: b.ram.update(ram_index(a), v), ..b }, Ok(()))
    } else if a == 0x2000 {
        (BusModel { ppu: PpuModel { ctrl: ControlRegister { value: v }, ..b.ppu }, ..b }, Ok(()))
    } else if a == 0x2006 {
        (BusModel { ppu: PpuModel { addr: addr_after_write(b.ppu.addr, v), ..b.ppu }, ..b }, Ok(()))
    } else if a == 0x2007 {
        let (p, r) = ppu_write(b.ppu, v);
        (BusModel { ppu: p, ..b }, r)
    } else if a == 0x2001 || a == 0x2003 || a == 0x2005 || a == 0x4014 {
        (b, Ok(()))
    } else if a >= 0x4020 {
        let (m, r) = mapper_write(b.mapper, a, v);
        (BusModel { mapper: m, ..b }, r)
    } else {
        (b, Err(NesError::UnmappedAccess(a)))
    }
}

/// A read without side effects: RAM and the cartridge answer it, the
/// registers of the PPU and the other devices do not.
pub open spec fn bus_peek(b: BusModel, a: u16) -> Option<u8> {
    if a <= 0x1FFF {
        Some(b.ram[ram_index(a)])
    } else if a >= 0x4020 {
        match mapper_read(b.mapper, a) {
            Ok(v) => Some(v),
            Err(_) => None,
        }
    } else {
        None
    }
}

/// A little-endian read of two bytes at `a` and the address after it.
pub open spec fn bus_read_u16(b: BusModel, a: u16) -> (BusModel, Result<u16, NesError>) {
    let (b1, lo) = bus_read(b, a);
    match lo {
        Err(e) => (b1, Err(e)),
        Ok(lo) => {
            let (b2, hi) = bus_read(b1, next_address(a));
            match hi {
                Err(e) => (b2, Err(e)),
                Ok(hi) => (b2, Ok((hi * 256 + lo) as u16)),
            }
        },
    }
}

/// A little-endian write of two bytes at `a` and the address after it.
pub open spec fn bus_write_u16(b: BusModel, a: u16, v: u16) -> (BusModel, Result<(), NesError>) {
    let (b1, r) = bus_write(b, a, (v % 256) as u8);
    match r {
        Err(e) => (b1, Err(e)),
        Ok(()) => bus_write(b1, next_address(a), (v / 256) as u8),
    }
}

/// RAM mirroring: a byte written at any of the four mirrors of a RAM address
/// reads back from each of them.
pub proof fn lemma_ram_mirroring(b: BusModel, a: u16, k: u16, j: u16, v: u8)
    requires
        bus_wf(b),
        a <= 0x07FF,
        k <= 3,
        j <= 3,
    ensures
        ({
            let (b1, r) = bus_write(b, (a + 0x800 * k) as u16, v);
            r == Ok::<(), NesError>(()) && bus_read(b1, (a + 0x800 * j) as u16) == (b1, Ok::<u8, NesError>(v))
        }),
{
    let wa: u16 = (a + 0x800 * k) as u16;
    let ra: u16 = (a + 0x800 * j) as u16;
    assert(a <= 0x07FF && k <= 3 ==> (a + 0x800 * k) as u16 & 0x07FF == a) by (bit_vector);
    assert(a <= 0x07FF && j <= 3 ==> (a + 0x800 * j) as u16 & 0x07FF == a) by (bit_vector);
}

/// PPU register mirroring: every address of `0x2008..=0x3FFF` reads and
/// writes as `a & 0x2007` does.
pub proof fn lemma_ppu_register_mirroring(b: BusModel, a: u16, v: u8)
    requires
        0x2008 <= a <= 0x3FFF,
    ensures
        bus_read(b, a) == bus_read(b, a & 0x2007),
        bus_write(b, a, v) == bus_write(b, a & 0x2007, v),
{
    assert(0x2008 <= a <= 0x3FFF ==> 0x2000 <= a & 0x2007 <= 0x2007) by (bit_vector);
}

pub struct Bus {
    cpu_ram: Vec<u8>,
    rom: Rom,
    ppu: Ppu,
}

impl View for Bus {
    type V = BusModel;

    closed spec fn view(&self) -> BusModel {
        BusModel {
            ram: self.cpu_ram@,
            mapper: self.rom.mapper@,
            mirroring: self.rom.mirroring,
            ppu: self.ppu@,
        }
    }
}

impl Bus {
    pub open spec fn wf(&self) -> bool {
        bus_wf(self@)
    }

    /// A bus with cleared RAM, a fresh PPU and the cartridge `rom`.
    pub fn new(rom: Rom) -> (r: Bus)
        ensures
            r.wf(),
            r@ == (BusModel {
                ram: Seq::new(0x800, |i: int| 0u8),
                mapper: rom.mapper@,
                mirroring: rom.mirroring,
                ppu: ppu_initial(rom.mirroring),
            }),
    {
        let ppu = Ppu::new(rom.mirroring);
        let r = Bus { cpu_ram: vec![0u8; 0x800], rom, ppu };
        assert(r.cpu_ram@ =~= Seq::new(0x800, |i: int| 0u8));
        r
    }

    pub fn read(&mut self, adress: u16) -> (r: Result<u8, NesError>)
        requires
            old(self).wf(),
        ensures
            final(self).wf(),
            (final(self)@, r) == bus_read(old(self)@, adress),
    {
        let a: u16 = if 0x2008 <= adress && adress <= 0x3FFF {
            adress & 0x2007
        } else {
            adress
        };
        if a <= 0x1FFF {
            assert(a & 0x07FF <= 0x07FF) by (bit_vector);
            Ok(self.cpu_ram[(a & 0x07FF) as usize])
        } else if a == 0x2000 || a == 0x2001 || a == 0x2003 || a == 0x2005 || a == 0x2006 || a
            == 0x4014 {
            Err(NesError::WriteOnlyRead(a))
        } else if a == 0x2007 {
            self.ppu.read(&self.rom)
        } else if a >= 0x4020 {
            self.rom.mapper.read(a)
        } else {
            Err(NesError::UnmappedAccess(a))
        }
    }

    pub fn read_u16(&mut self, adress: u16) -> (r: Result<u16, NesError>)
        requires
            old(self).wf(),
        ensures
            final(self).wf(),
            (final(self)@, r) == bus_read_u16(old(self)@, adress),
    {
        let low = match self.read(adress) {
            Ok(v) => v,
            Err(e) => return Err(e),
        };
        let next: u16 = if adress == 0xFFFF {
            0
        } else {
            adress + 1
        };
        let high = match self.read(next) {
            Ok(v) => v,
            Err(e) => return Err(e),
        };
        Ok((high as u16) * 256 + low as u16)
    }

    pub fn write(&mut self, adress: u16, value: u8) -> (r: Result<(), NesError>)
        requires
            old(self).wf(),
        ensures
            final(self).wf(),
            (final(self)@, r) == bus_write(old(self)@, adress, value),
    {
        let a: u16 = if 0x2008 <= adress && adress <= 0x3FFF {
            adress & 0x2007
        } else {
            adress
        };
        if a <= 0x1FFF {
            assert(a & 0x07FF <= 0x07FF) by (bit_vector);
            self.cpu_ram.set((a & 0x07FF) as usize, value);
            Ok(())
        } else if a == 0x2000 {
            self.ppu.write_ctrl(value);
            Ok(())
        } else if a == 0x2006 {
            self.ppu.write_addr(value);
            Ok(())
        } else if a == 0x2007 {
            self.ppu.write(value)
        } else if a == 0x2001 || a == 0x2003 || a == 0x2005 || a == 0x4014 {
            Ok(())
        } else if a >= 0x4020 {
            self.rom.mapper.write(a, value)
        } else {
            Err(NesError::UnmappedAccess(a))
        }
    }

    pub fn write_u16(&mut self, adress: u16, value: u16) -> (r: Result<(), NesError>)
        requires
            old(self).wf(),
        ensures
            final(self).wf(),
            (final(self)@, r) == bus_write_u16(old(self)@, adress, value),
    {
        let low = (value % 256) as u8;
        let high = (value / 256) as u8;
        match self.write(adress, low) {
            Ok(()) => {},
            Err(e) => return Err(e),
        }
        let next: u16 = if adress == 0xFFFF {
            0
        } else {
            adress + 1
        };
        self.write(next, high)
    }

    /// Reads a byte of RAM or of the cartridge without side effects; `None`
    /// for any other address.
    pub fn peek(&self, adress: u16) -> (r: Option<u8>)
        requires
            self.wf(),
        ensures
            r == bus_peek(self@, adress),
    {
        if adress <= 0x1FFF {
            assert(adress & 0x07FF <= 0x07FF) by (bit_vector);
            Some(self.cpu_ram[(adress & 0x07FF) as usize])
        } else if adress >= 0x4020 {
            match self.rom.mapper.read(adress) {
                Ok(v) => Some(v),
                Err(_) => None,
            }
        } else {
            None
        }
    }

    pub fn read_chr_rom(&self, adress: u16) -> (r: Result<u8, NesError>)
        ensures
            r == mapper_read_chr(self@.mapper, adress),
    {
        self.rom.mapper.read_chr_rom(adress)
    }
}

} // verus!
