use vstd::prelude::*;

use crate::bus::{next_address, ram_index};
use crate::error::NesError;
use crate::mapper::{mapper_read, mapper_write, Mapper, MapperModel};

verus! {

/// A CPU address space without a PPU: RAM and the cartridge board only.
pub struct MemoryModel {
    pub ram: Seq<u8>,
    pub mapper: MapperModel,
}

pub open spec fn memory_read(m: MemoryModel, a: u16) -> Result<u8, NesError> {
    if a <= 0x1FFF {
        Ok(m.ram[ram_index(a)])
    } else if a >= 0x4020 {
        mapper_read(m.mapper, a)
    } else {
        Err(NesError::UnmappedAccess(a))
    }
}

pub open spec fn memory_write(m: MemoryModel, a: u16, v: u8) -> (MemoryModel, Result<(), NesError>) {
    if a <= 0x1FFF {
        (MemoryModel { ram: m.ram.update(ram_index(a), v), ..m }, Ok(()))
    } else if a >= 0x4020 {
        let (mm, r) = mapper_write(m.mapper, a, v);
        (MemoryModel { mapper: mm, ..m }, r)
    } else {
        (m, Err(NesError::UnmappedAccess(a)))
    }
}

pub open spec fn memory_read_u16(m: MemoryModel, a: u16) -> Result<u16, NesError> {
    match (memory_read(m, a), memory_read(m, next_address(a))) {
        (Ok(lo), Ok(hi)) => Ok((hi * 256 + lo) as u16),
        (Err(e), _) => Err(e),
        (Ok(_), Err(e)) => Err(e),
    }
}

pub open spec fn memory_write_u16(m: MemoryModel, a: u16, v: u16) -> (MemoryModel, Result<(), NesError>) {
    let (m1, r) = memory_write(m, a, (v % 256) as u8);
    match r {
        Err(e) => (m1, Err(e)),
        Ok(()) => memory_write(m1, next_address(a), (v / 256) as u8),
    }
}

pub struct Memory {
    cpu_ram: Vec<u8>,
    mapper: Mapper,
}

impl View for Memory {
    type V = MemoryModel;

    closed spec fn view(&self) -> MemoryModel {
        MemoryModel { ram: self.cpu_ram@, mapper: self.mapper@ }
    }
}

impl Memory {
    pub open spec fn wf(&self) -> bool {
        self@.ram.len() == 0x800
    }

    pub fn new(mapper: Mapper) -> (r: Memory)
        ensures
            r.wf(),
            r@ == (MemoryModel { ram: Seq::new(0x800, |i: int| 0u8), mapper: mapper@ }),
    {
        let r = Memory { cpu_ram: vec![0u8; 0x800], mapper };
        assert(r.cpu_ram@ =~= Seq::new(0x800, |i: int| 0u8));
        r
    }

    pub fn read(&self, adress: u16) -> (r: Result<u8, NesError>)
        requires
            self.wf(),
        ensures
            r == memory_read(self@, adress),
    {
        if adress <= 0x1FFF {
            assert(adress & 0x07FF <= 0x07FF) by (bit_vector);
            Ok(self.cpu_ram[(adress & 0x07FF) as usize])
        } else if adress >= 0x4020 {
            self.mapper.read(adress)
        } else {
            Err(NesError::UnmappedAccess(adress))
        }
    }

    pub fn read_u16(&self, adress: u16) -> (r: Result<u16, NesError>)
        requires
            self.wf(),
        ensures
            r == memory_read_u16(self@, adress),
    {
        let low = match self.read(adress) {
            Ok(v) => v,
            Err(e) => return Err(e),
        };
        let next: u16 = if adress == 0xFFFF {
            0
        } else {
            adress + 1
        };
        let high = match self.read(next) {
            Ok(v) => v,
            Err(e) => return Err(e),
        };
        Ok((high as u16) * 256 + low as u16)
    }

    pub fn write(&mut self, adress: u16, value: u8) -> (r: Result<(), NesError>)
        requires
            old(self).wf(),
        ensures
            final(self).wf(),
            (final(self)@, r) == memory_write(old(self)@, adress, value),
    {
        if adress <= 0x1FFF {
            assert(adress & 0x07FF <= 0x07FF) by (bit_vector);
            self.cpu_ram.set((adress & 0x07FF) as usize, value);
            Ok(())
        } else if adress >= 0x4020 {
            self.mapper.write(adress, value)
        } else {
            Err(NesError::UnmappedAccess(adress))
        }
    }

    pub fn write_u16(&mut self, adress: u16, value: u16) -> (r: Result<(), NesError>)
        requires
            old(self).wf(),
        ensures
            final(self).wf(),
            (final(self)@, r) == memory_write_u16(old(self)@, adress, value),
    {
        let low = (value % 256) as u8;
        let high = (value / 256) as u8;
        match self.write(adress, low) {
            Ok(()) => {},
            Err(e) => return Err(e),
        }
        let next: u16 = if adress == 0xFFFF {
            0
        } else {
            adress + 1
        };
        self.write(next, high)
    }
}

} // verus!
