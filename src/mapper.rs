use vstd::prelude::*;

use crate::error::NesError;
use crate::nrom::{nrom_read, nrom_read_chr, nrom_write, variant_for, Nrom, NromModel};

verus! {

/// The cartridge circuit behind the bus, as a tagged variant: NROM is the
/// one board this core implements.
pub enum Mapper {
    Nrom(Nrom),
}

pub enum MapperModel {
    Nrom(NromModel),
}

impl View for Mapper {
    type V = MapperModel;

    open spec fn view(&self) -> MapperModel {
        match self {
            Mapper::Nrom(n) => MapperModel::Nrom(n@),
        }
    }
}

pub open spec fn mapper_read(m: MapperModel, a: u16) -> Result<u8, NesError> {
    match m {
        MapperModel::Nrom(n) => nrom_read(n, a),
    }
}

pub open spec fn mapper_write(m: MapperModel, a: u16, v: u8) -> (MapperModel, Result<(), NesError>) {
    match m {
        MapperModel::Nrom(n) => {
            let (n2, r) = nrom_write(n, a, v);
            (MapperModel::Nrom(n2), r)
        },
    }
}

pub open spec fn mapper_read_chr(m: MapperModel, a: u16) -> Result<u8, NesError> {
    match m {
        MapperModel::Nrom(n) => nrom_read_chr(n, a),
    }
}

/// The board of mapper number `id` over the given images, when it is one
/// that this core implements.
pub open spec fn mapper_for(id: u8, prg: Seq<u8>, chr: Seq<u8>) -> Result<MapperModel, NesError> {
    if id == 0 {
        Ok(MapperModel::Nrom(NromModel { variant: variant_for(prg.len()), prg, chr }))
    } else {
        Err(NesError::UnsupportedMapper(id))
    }
}

impl Mapper {
    /// Picks the board for a mapper number read from a cartridge header.
    pub fn from_id(id: u8, pgr_rom: Vec<u8>, chr_rom: Vec<u8>) -> (r: Result<Mapper, NesError>)
        ensures
            match mapper_for(id, pgr_rom@, chr_rom@) {
                Ok(m) => r is Ok && r->Ok_0@ == m,
                Err(e) => r == Err::<Mapper, NesError>(e),
            },
    {
        if id == 0 {
            Ok(Mapper::Nrom(Nrom::new(pgr_rom, chr_rom)))
        } else {
            Err(NesError::UnsupportedMapper(id))
        }
    }

    pub fn read(&self, adress: u16) -> (r: Result<u8, NesError>)
        ensures
            r == mapper_read(self@, adress),
    {
        match self {
            Mapper::Nrom(n) => n.read(adress),
        }
    }

    pub fn write(&mut self, adress: u16, value: u8) -> (r: Result<(), NesError>)
        ensures
            (final(self)@, r) == mapper_write(old(self)@, adress, value),
    {
        match self {
            Mapper::Nrom(n) => n.write(adress, value),
        }
    }

    pub fn read_chr_rom(&self, adress: u16) -> (r: Result<u8, NesError>)
        ensures
            r == mapper_read_chr(self@, adress),
    {
        match self {
            Mapper::Nrom(n) => n.read_chr_rom(adress),
        }
    }
}

/// An NROM-256 board whose 32 KiB of PRG and 8 KiB of CHR are all zero.
pub fn test_mapper() -> (r: Mapper)
    ensures
        r@ == MapperModel::Nrom(NromModel {
            variant: crate::nrom::Variant::Nrom256,
            prg: Seq::new(0x8000, |i: int| 0u8),
            chr: Seq::new(0x2000, |i: int| 0u8),
        }),
{
    let prg: Vec<u8> = vec![0u8; 0x8000];
    let chr: Vec<u8> = vec![0u8; 0x2000];
    let r = Mapper::Nrom(Nrom::new(prg, chr));
    assert(r@ == MapperModel::Nrom(NromModel {
        variant: crate::nrom::Variant::Nrom256,
        prg: Seq::new(0x8000, |i: int| 0u8),
        chr: Seq::new(0x2000, |i: int| 0u8),
    })) by {
        assert(prg@ =~= Seq::new(0x8000, |i: int| 0u8));
        assert(chr@ =~= Seq::new(0x2000, |i: int| 0u8));
    }
    r
}

} // verus!
