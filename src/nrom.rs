use vstd::prelude::*;

use crate::error::NesError;

verus! {

/// The two NROM boards: 16 KiB of PRG ROM mirrored twice, or 32 KiB.
#[derive(Clone, Copy, Debug, PartialEq, Eq, Structural)]
pub enum Variant {
    Nrom128,
    Nrom256,
}

/// What an NROM cartridge holds: its board, its PRG bytes and its CHR bytes.
pub struct NromModel {
    pub variant: Variant,
    pub prg: Seq<u8>,
    pub chr: Seq<u8>,
}

/// The simplest cartridge board: no banking, PRG ROM at `0x8000..=0xFFFF`,
/// CHR memory at the PPU's `0x0000..=0x1FFF`.
pub struct Nrom {
    variant: Variant,
    pgr_rom: Vec<u8>,
    chr_rom: Vec<u8>,
}

/// The board that a PRG image of `len` bytes calls for.
pub open spec fn variant_for(len: nat) -> Variant {
    if len > 0x4000 {
        Variant::Nrom256
    } else {
        Variant::Nrom128
    }
}

/// The mask that folds a CPU address into the PRG image.
pub open spec fn prg_mask(v: Variant) -> u16 {
    match v {
        Variant::Nrom128 => 0x3FFF,
        Variant::Nrom256 => 0x7FFF,
    }
}

/// The byte at `i` of `s`, or an unmapped access at `a` when `s` is too short.
pub open spec fn byte_at(s: Seq<u8>, i: int, a: u16) -> Result<u8, NesError> {
    if 0 <= i < s.len() {
        Ok(s[i])
    } else {
        Err(NesError::UnmappedAccess(a))
    }
}

/// A CPU-side read of the cartridge.
pub open spec fn nrom_read(m: NromModel, a: u16) -> Result<u8, NesError> {
    if a <= 0x1FFF {
        byte_at(m.chr, a as int, a)
    } else if a >= 0x8000 {
        byte_at(m.prg, (a & prg_mask(m.variant)) as int, a)
    } else {
        Err(NesError::UnmappedAccess(a))
    }
}

/// A CPU-side write to the cartridge: CHR bytes change, writes to PRG ROM
/// are dropped, since the board has no write path to it.
pub open spec fn nrom_write(m: NromModel, a: u16, v: u8) -> (NromModel, Result<(), NesError>) {
    if a <= 0x1FFF {
        if (a as int) < m.chr.len() {
            (NromModel { chr: m.chr.update(a as int, v), ..m }, Ok(()))
        } else {
            (m, Err(NesError::UnmappedAccess(a)))
        }
    } else if a >= 0x8000 {
        (m, Ok(()))
    } else {
        (m, Err(NesError::UnmappedAccess(a)))
    }
}

/// A read of the pattern tables on the PPU's side.
pub open spec fn nrom_read_chr(m: NromModel, a: u16) -> Result<u8, NesError> {
    byte_at(m.chr, a as int, a)
}

impl View for Nrom {
    type V = NromModel;

    closed spec fn view(&self) -> NromModel {
        NromModel { variant: self.variant, prg: self.pgr_rom@, chr: self.chr_rom@ }
    }
}

fn get_byte(s: &Vec<u8>, i: usize, a: u16) -> (r: Result<u8, NesError>)
    ensures
        r == byte_at(s@, i as int, a),
{
    if i < s.len() {
        Ok(s[i])
    } else {
        Err(NesError::UnmappedAccess(a))
    }
}

impl Nrom {
    /// Builds the board from its PRG and CHR images; a PRG image over 16 KiB
    /// makes it an NROM-256.
    pub fn new(pgr_rom: Vec<u8>, chr_rom: Vec<u8>) -> (r: Nrom)
        ensures
            r@ == (NromModel { variant: variant_for(pgr_rom@.len()), prg: pgr_rom@, chr: chr_rom@ }),
    {
        let variant = if pgr_rom.len() > 0x4000 {
            Variant::Nrom256
        } else {
            Variant::Nrom128
        };
        Nrom { variant, pgr_rom, chr_rom }
    }

    pub fn read(&self, adress: u16) -> (r: Result<u8, NesError>)
        ensures
            r == nrom_read(self@, adress),
    {
        if adress <= 0x1FFF {
            get_byte(&self.chr_rom, adress as usize, adress)
        } else if adress >= 0x8000 {
            let effective = match self.variant {
                Variant::Nrom128 => adress & 0x3FFF,
                Variant::Nrom256 => adress & 0x7FFF,
            };
            get_byte(&self.pgr_rom, effective as usize, adress)
        } else {
            Err(NesError::UnmappedAccess(adress))
        }
    }

    pub fn write(&mut self, adress: u16, value: u8) -> (r: Result<(), NesError>)
        ensures
            (final(self)@, r) == nrom_write(old(self)@, adress, value),
    {
        if adress <= 0x1FFF {
            if (adress as usize) < self.chr_rom.len() {
                self.chr_rom.set(adress as usize, value);
                Ok(())
            } else {
                Err(NesError::UnmappedAccess(adress))
            }
        } else if adress >= 0x8000 {
            Ok(())
        } else {
            Err(NesError::UnmappedAccess(adress))
        }
    }

    pub fn read_chr_rom(&self, adress: u16) -> (r: Result<u8, NesError>)
        ensures
            r == nrom_read_chr(self@, adress),
    {
        get_byte(&self.chr_rom, adress as usize, adress)
    }
}

} // verus!
