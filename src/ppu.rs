use vstd::prelude::*;

use crate::error::NesError;
use crate::mapper::{mapper_read_chr, MapperModel};
use crate::rom::{Mirroring, Rom};

verus! {

/// The PPU's VRAM address register (`0x2006`), written high byte first.
#[derive(Clone, Copy, Debug, PartialEq, Eq, Structural)]
pub struct AddrRegister {
    pub value: u16,
    pub is_hi: bool,
}

/// The address after one more byte is written to the register; the result
/// is folded into the PPU's 14-bit space.
pub open spec fn addr_after_write(r: AddrRegister, v: u8) -> AddrRegister {
    let combined: u16 = if r.is_hi {
        ((v as u16) << 8u16) | (r.value & 0x00FF)
    } else {
        (r.value & 0xFF00) | (v as u16)
    };
    AddrRegister { value: combined & 0x3FFF, is_hi: !r.is_hi }
}

/// The address `step` further on, folded into the PPU's 14-bit space.
pub open spec fn addr_after_increment(r: AddrRegister, step: u8) -> AddrRegister {
    AddrRegister { value: ((r.value + step) % 0x4000) as u16, ..r }
}

impl AddrRegister {
    pub open spec fn wf(self) -> bool {
        self.value <= 0x3FFF
    }

    pub fn new() -> (r: AddrRegister)
        ensures
            r == (AddrRegister { value: 0, is_hi: true }),
    {
        AddrRegister { value: 0x00, is_hi: true }
    }

    pub fn write(&mut self, value: u8)
        ensures
            *final(self) == addr_after_write(*old(self), value),
            final(self).wf(),
    {
        let combined: u16 = if self.is_hi {
            ((value as u16) << 8u16) | (self.value & 0x00FF)
        } else {
            (self.value & 0xFF00) | (value as u16)
        };
        assert(combined <= 0x3FFF ==> combined & 0x3FFF == combined) by (bit_vector);
        assert(combined & 0x3FFF <= 0x3FFF) by (bit_vector);
        self.value = if combined > 0x3FFF {
            combined & 0x3FFF
        } else {
            combined
        };
        self.is_hi = !self.is_hi;
    }

    pub fn increment(&mut self, value: u8)
        requires
            old(self).wf(),
        ensures
            *final(self) == addr_after_increment(*old(self), value),
    {
        let sum: u16 = self.value + value as u16;
        assert(sum & 0x3FFF == sum % 0x4000) by (bit_vector);
        self.value = if sum > 0x3FFF {
            sum & 0x3FFF
        } else {
            sum
        };
    }

    pub fn get(&self) -> (r: u16)
        ensures
            r == self.value,
    {
        self.value
    }
}

/// The PPU's control register (`0x2000`).
#[derive(Clone, Copy, Debug, PartialEq, Eq, Structural)]
pub struct ControlRegister {
    pub value: u8,
}

pub const NAMETABLE1: u8 = 0b00000001;
pub const NAMETABLE2: u8 = 0b00000010;
pub const VRAM_ADD_INCREMENT: u8 = 0b00000100;
pub const SPRITE_PATTERN_ADDR: u8 = 0b00001000;
pub const BACKROUND_PATTERN_ADDR: u8 = 0b00010000;
pub const SPRITE_SIZE: u8 = 0b00100000;
pub const MASTER_SLAVE_SELECT: u8 = 0b01000000;
pub const GENERATE_NMI: u8 = 0b10000000;

/// How far the VRAM address moves after each access of the data register:
/// one byte across, or one row of 32 down.
pub open spec fn vram_step(c: ControlRegister) -> u8 {
    if c.value & VRAM_ADD_INCREMENT != 0 {
        32
    } else {
        1
    }
}

impl ControlRegister {
    pub fn new() -> (r: ControlRegister)
        ensures
            r.value == 0,
    {
        ControlRegister { value: 0x00 }
    }

    pub fn contains(&self, flag: u8) -> (r: bool)
        ensures
            r == (self.value & flag != 0),
    {
        (self.value & flag) != 0
    }

    pub fn vram_addr_increment(&self) -> (r: u8)
        ensures
            r == vram_step(*self),
    {
        if !self.contains(VRAM_ADD_INCREMENT) {
            return 1;
        }
        32
    }

    pub fn write(&mut self, value: u8)
        ensures
            final(self).value == value,
    {
        self.value = value;
    }
}

/// The picture unit's state as seen through its CPU-side registers.
pub struct PpuModel {
    pub palette: Seq<u8>,
    pub vram: Seq<u8>,
    pub oam: Seq<u8>,
    pub buf: u8,
    pub addr: AddrRegister,
    pub ctrl: ControlRegister,
    pub mirroring: Mirroring,
}

pub open spec fn ppu_wf(p: PpuModel) -> bool {
    &&& p.palette.len() == 32
    &&& p.vram.len() == 0x800
    &&& p.oam.len() == 256
    &&& p.addr.wf()
}

pub open spec fn ppu_initial(mirroring: Mirroring) -> PpuModel {
    PpuModel {
        palette: Seq::new(32, |i: int| 0u8),
        vram: Seq::new(0x800, |i: int| 0u8),
        oam: Seq::new(256, |i: int| 0u8),
        buf: 0,
        addr: AddrRegister { value: 0, is_hi: true },
        ctrl: ControlRegister { value: 0 },
        mirroring,
    }
}

/// The index in the two KiB of VRAM that nametable address `addr` reaches
/// under `mirroring`; with four screens, the upper two tables lie outside it.
pub open spec fn mirror_vram(mirroring: Mirroring, addr: u16) -> u16 {
    let index: int = (addr & 0x2FFF) - 0x2000;
    let table: int = index / 0x400;
    (if mirroring == Mirroring::Vertical && (table == 2 || table == 3) {
        index - 0x800
    } else if mirroring == Mirroring::Horizontal && (table == 1 || table == 2) {
        index - 0x400
    } else if mirroring == Mirroring::Horizontal && table == 3 {
        index - 0x800
    } else {
        index
    }) as u16
}

/// The palette entry that an address in `0x3F00..=0x3FFF` reaches.
pub open spec fn palette_index(addr: u16) -> int {
    (addr - 0x3F00) % 32
}

pub open spec fn with_next_addr(p: PpuModel) -> PpuModel {
    PpuModel { addr: addr_after_increment(p.addr, vram_step(p.ctrl)), ..p }
}

/// A read of the data register (`0x2007`): the VRAM address moves on, and
/// pattern and nametable reads hand back the byte buffered by the previous
/// read while buffering the new one.
pub open spec fn ppu_read(p: PpuModel, m: MapperModel) -> (PpuModel, Result<u8, NesError>) {
    let a = p.addr.value;
    let p1 = with_next_addr(p);
    if a <= 0x1FFF {
        match mapper_read_chr(m, a) {
            Ok(v) => (PpuModel { buf: v, ..p1 }, Ok(p.buf)),
            Err(e) => (p1, Err(e)),
        }
    } else if a <= 0x2FFF {
        let i = mirror_vram(p.mirroring, a);
        if (i as int) < p.vram.len() {
            (PpuModel { buf: p.vram[i as int], ..p1 }, Ok(p.buf))
        } else {
            (p1, Err(NesError::UnmappedAccess(a)))
        }
    } else if a <= 0x3EFF {
        (p1, Err(NesError::UnmappedAccess(a)))
    } else {
        (p1, Ok(p.palette[palette_index(a)]))
    }
}

/// A write of the data register (`0x2007`). Pattern memory is read-only from
/// here.
pub open spec fn ppu_write(p: PpuModel, v: u8) -> (PpuModel, Result<(), NesError>) {
    let a = p.addr.value;
    if a <= 0x1FFF {
        (p, Err(NesError::UnmappedAccess(a)))
    } else if a <= 0x2FFF {
        let i = mirror_vram(p.mirroring, a);
        if (i as int) < p.vram.len() {
            (with_next_addr(PpuModel { vram: p.vram.update(i as int, v), ..p }), Ok(()))
        } else {
            (p, Err(NesError::UnmappedAccess(a)))
        }
    } else if a <= 0x3EFF {
        (p, Err(NesError::UnmappedAccess(a)))
    } else {
        (with_next_addr(PpuModel { palette: p.palette.update(palette_index(a), v), ..p }), Ok(()))
    }
}

pub struct Ppu {
    palette_table: Vec<u8>,
    vram: Vec<u8>,
    oam_data: Vec<u8>,
    internal_data_buf: u8,
    pub addr: AddrRegister,
    pub ctrl: ControlRegister,
    mirroring: Mirroring,
}

impl View for Ppu {
    type V = PpuModel;

    closed spec fn view(&self) -> PpuModel {
        PpuModel {
            palette: self.palette_table@,
            vram: self.vram@,
            oam: self.oam_data@,
            buf: self.internal_data_buf,
            addr: self.addr,
            ctrl: self.ctrl,
            mirroring: self.mirroring,
        }
    }
}

impl Ppu {
    pub open spec fn wf(&self) -> bool {
        ppu_wf(self@)
    }

    pub fn new(mirroring: Mirroring) -> (r: Ppu)
        ensures
            r@ == ppu_initial(mirroring),
            r.wf(),
    {
        let r = Ppu {
            palette_table: vec![0u8; 32],
            vram: vec![0u8; 0x800],
            oam_data: vec![0u8; 256],
            internal_data_buf: 0x00,
            addr: AddrRegister::new(),
            ctrl: ControlRegister::new(),
            mirroring,
        };
        assert(r@ =~= ppu_initial(mirroring)) by {
            assert(r.palette_table@ =~= Seq::new(32, |i: int| 0u8));
            assert(r.vram@ =~= Seq::new(0x800, |i: int| 0u8));
            assert(r.oam_data@ =~= Seq::new(256, |i: int| 0u8));
        }
        r
    }

    /// A write of the control register (`0x2000`).
    pub fn write_ctrl(&mut self, value: u8)
        requires
            old(self).wf(),
        ensures
            final(self)@ == (PpuModel { ctrl: ControlRegister { value }, ..old(self)@ }),
            final(self).wf(),
    {
        self.ctrl.write(value);
    }

    /// A write of the address register (`0x2006`).
    pub fn write_addr(&mut self, value: u8)
        requires
            old(self).wf(),
        ensures
            final(self)@ == (PpuModel { addr: addr_after_write(old(self)@.addr, value), ..old(self)@ }),
            final(self).wf(),
    {
        self.addr.write(value);
    }

    pub fn increment_vram_addr(&mut self)
        requires
            old(self).wf(),
        ensures
            final(self)@ == with_next_addr(old(self)@),
            final(self).wf(),
    {
        let step = self.ctrl.vram_addr_increment();
        self.addr.increment(step);
    }

    pub fn read(&mut self, rom: &Rom) -> (r: Result<u8, NesError>)
        requires
            old(self).wf(),
        ensures
            (final(self)@, r) == ppu_read(old(self)@, rom.mapper@),
            final(self).wf(),
    {
        let addr = self.addr.get();
        self.increment_vram_addr();
        if addr <= 0x1FFF {
            match rom.mapper.read_chr_rom(addr) {
                Ok(v) => {
                    let result = self.internal_data_buf;
                    self.internal_data_buf = v;
                    Ok(result)
                },
                Err(e) => Err(e),
            }
        } else if addr <= 0x2FFF {
            let i = self.mirror_vram_addr(addr);
            if (i as usize) < self.vram.len() {
                let result = self.internal_data_buf;
                self.internal_data_buf = self.vram[i as usize];
                Ok(result)
            } else {
                Err(NesError::UnmappedAccess(addr))
            }
        } else if addr <= 0x3EFF {
            Err(NesError::UnmappedAccess(addr))
        } else {
            Ok(self.palette_table[((addr - 0x3F00) % 32) as usize])
        }
    }

    pub fn write(&mut self, value: u8) -> (r: Result<(), NesError>)
        requires
            old(self).wf(),
        ensures
            (final(self)@, r) == ppu_write(old(self)@, value),
            final(self).wf(),
    {
        let addr = self.addr.get();
        if addr <= 0x1FFF {
            return Err(NesError::UnmappedAccess(addr));
        } else if addr <= 0x2FFF {
            let i = self.mirror_vram_addr(addr);
            if (i as usize) < self.vram.len() {
                self.vram.set(i as usize, value);
            } else {
                return Err(NesError::UnmappedAccess(addr));
            }
        } else if addr <= 0x3EFF {
            return Err(NesError::UnmappedAccess(addr));
        } else {
            self.palette_table.set(((addr - 0x3F00) % 32) as usize, value);
        }
        self.increment_vram_addr();
        Ok(())
    }

    pub fn mirror_vram_addr(&self, addr: u16) -> (r: u16)
        requires
            0x2000 <= addr <= 0x3FFF,
        ensures
            r == mirror_vram(self@.mirroring, addr),
            r <= 0xFFF,
    {
        let mirrored_vram = addr & 0x2FFF;
        assert(0x2000 <= addr <= 0x3FFF ==> 0x2000 <= (addr & 0x2FFF) <= 0x2FFF) by (bit_vector);
        let vram_index = mirrored_vram - 0x2000;
        let name_table = vram_index / 0x400;
        match (self.mirroring, name_table) {
            (Mirroring::Vertical, 2) | (Mirroring::Vertical, 3) => vram_index - 0x800,
            (Mirroring::Horizontal, 2) => vram_index - 0x400,
            (Mirroring::Horizontal, 1) => vram_index - 0x400,
            (Mirroring::Horizontal, 3) => vram_index - 0x800,
            _ => vram_index,
        }
    }
}

} // verus!
