use vstd::prelude::*;

use crate::error::NesError;
use crate::mapper::{mapper_for, test_mapper, Mapper, MapperModel};
use crate::nrom::{NromModel, Variant};

verus! {

/// How the two KiB of nametable memory are laid over the PPU's four
/// nametable slots.
#[derive(Clone, Copy, Debug, PartialEq, Eq, Structural)]
pub enum Mirroring {
    Vertical,
    Horizontal,
    FourScreen,
}

/// What an iNES v1 image holds once its header has been read.
pub struct InesImage {
    pub prg: Seq<u8>,
    pub chr: Seq<u8>,
    pub mapper: u8,
    pub mirroring: Mirroring,
}

pub open spec fn has_ines_magic(b: Seq<u8>) -> bool {
    b.len() >= 16 && b[0] == 0x4E && b[1] == 0x45 && b[2] == 0x53 && b[3] == 0x1A
}

/// Bits 2 and 3 of flags 7 announce the NES 2.0 format.
pub open spec fn is_nes2(b: Seq<u8>) -> bool {
    b[7] & 0x0C != 0
}

pub open spec fn header_mirroring(flags6: u8) -> Mirroring {
    if flags6 & 0x08 != 0 {
        Mirroring::FourScreen
    } else if flags6 & 0x01 != 0 {
        Mirroring::Vertical
    } else {
        Mirroring::Horizontal
    }
}

/// The mapper number: low nibble from flags 6, high nibble from flags 7,
/// which counts as zero when bytes 12 to 15 are not all zero.
pub open spec fn header_mapper(b: Seq<u8>) -> u8 {
    let high: u8 = if b[12] == 0 && b[13] == 0 && b[14] == 0 && b[15] == 0 {
        b[7] & 0xF0
    } else {
        0
    };
    high | (b[6] >> 4u8)
}

/// Where PRG ROM starts: after the 16-byte header and the 512-byte trainer
/// when flags 6 announces one.
pub open spec fn prg_start(b: Seq<u8>) -> int {
    if b[6] & 0x04 != 0 {
        528
    } else {
        16
    }
}

pub open spec fn prg_size(b: Seq<u8>) -> int {
    b[4] * 0x4000
}

pub open spec fn chr_size(b: Seq<u8>) -> int {
    b[5] * 0x2000
}

/// The image that bytes `b` hold, or why they are no iNES v1 image.
pub open spec fn parse_ines(b: Seq<u8>) -> Result<InesImage, NesError> {
    if !has_ines_magic(b) || is_nes2(b) {
        Err(NesError::InvalidIneS)
    } else {
        let s = prg_start(b);
        let c = s + prg_size(b);
        let e = c + chr_size(b);
        if b.len() < e {
            Err(NesError::InvalidIneS)
        } else {
            Ok(
                InesImage {
                    prg: b.subrange(s, c),
                    chr: b.subrange(c, e),
                    mapper: header_mapper(b),
                    mirroring: header_mirroring(b[6]),
                },
            )
        }
    }
}

/// The cartridge that bytes `b` describe: their image behind its board.
pub open spec fn rom_for(b: Seq<u8>) -> Result<(MapperModel, Mirroring), NesError> {
    match parse_ines(b) {
        Ok(img) => match mapper_for(img.mapper, img.prg, img.chr) {
            Ok(m) => Ok((m, img.mirroring)),
            Err(e) => Err(e),
        },
        Err(e) => Err(e),
    }
}

/// The bytes `start..start + len` of `buffer`.
pub fn copy_range(buffer: &[u8], start: usize, len: usize) -> (r: Vec<u8>)
    requires
        start + len <= buffer@.len(),
    ensures
        r@ == buffer@.subrange(start as int, start + len),
{
    let n: usize = buffer.len();
    let mut r: Vec<u8> = Vec::with_capacity(len);
    let mut i: usize = 0;
    while i < len
        invariant
            i <= len,
            start + len <= buffer@.len(),
            n == buffer@.len(),
            r@ == buffer@.subrange(start as int, start + i),
        decreases len - i,
    {
        r.push(buffer[start + i]);
        i = i + 1;
        assert(r@ =~= buffer@.subrange(start as int, start + i));
    }
    r
}

/// The header fields and the two images of an iNES v1 image.
pub struct Header {
    pub pgr_rom: Vec<u8>,
    pub chr_rom: Vec<u8>,
    pub mapper: u8,
    pub mirroring: Mirroring,
}

/// Reads an iNES v1 image.
pub fn parse_header(buffer: &[u8]) -> (r: Result<Header, NesError>)
    ensures
        match parse_ines(buffer@) {
            Ok(img) => r is Ok && r->Ok_0.pgr_rom@ == img.prg && r->Ok_0.chr_rom@ == img.chr
                && r->Ok_0.mapper == img.mapper && r->Ok_0.mirroring == img.mirroring,
            Err(e) => r == Err::<Header, NesError>(e),
        },
{
    if buffer.len() < 16 || buffer[0] != 0x4E || buffer[1] != 0x45 || buffer[2] != 0x53
        || buffer[3] != 0x1A {
        return Err(NesError::InvalidIneS);
    }
    let flag_6 = buffer[6];
    let flag_7 = buffer[7];
    if flag_7 & 0x0C != 0 {
        return Err(NesError::InvalidIneS);
    }
    let pgr_rom_size: usize = buffer[4] as usize * 0x4000;
    let chr_rom_size: usize = buffer[5] as usize * 0x2000;
    let pgr_rom_idx: usize = if flag_6 & 0x04 != 0 {
        528
    } else {
        16
    };
    let chr_rom_idx: usize = pgr_rom_idx + pgr_rom_size;
    if buffer.len() < chr_rom_idx + chr_rom_size {
        return Err(NesError::InvalidIneS);
    }
    let mirroring = if flag_6 & 0x08 != 0 {
        Mirroring::FourScreen
    } else if flag_6 & 0x01 != 0 {
        Mirroring::Vertical
    } else {
        Mirroring::Horizontal
    };
    let high_mapper: u8 = if buffer[12] == 0 && buffer[13] == 0 && buffer[14] == 0 && buffer[15]
        == 0 {
        flag_7 & 0xF0
    } else {
        0
    };
    Ok(
        Header {
            pgr_rom: copy_range(buffer, pgr_rom_idx, pgr_rom_size),
            chr_rom: copy_range(buffer, chr_rom_idx, chr_rom_size),
            mapper: high_mapper | (flag_6 >> 4u8),
            mirroring,
        },
    )
}

/// A cartridge as the bus sees it: its board and its nametable mirroring.
pub struct Rom {
    pub mapper: Mapper,
    pub mirroring: Mirroring,
}

impl Rom {
    /// Reads an iNES v1 image and builds the board it names.
    pub fn from_ines(buffer: &[u8]) -> (r: Result<Rom, NesError>)
        ensures
            match rom_for(buffer@) {
                Ok((m, mir)) => r is Ok && r->Ok_0.mapper@ == m && r->Ok_0.mirroring == mir,
                Err(e) => r == Err::<Rom, NesError>(e),
            },
    {
        let header = match parse_header(buffer) {
            Ok(h) => h,
            Err(e) => return Err(e),
        };
        let mirroring = header.mirroring;
        match Mapper::from_id(header.mapper, header.pgr_rom, header.chr_rom) {
            Ok(mapper) => Ok(Rom { mapper, mirroring }),
            Err(e) => Err(e),
        }
    }
}

/// An empty NROM-256 cartridge with vertical mirroring.
pub fn test_rom() -> (r: Rom)
    ensures
        r.mapper@ == MapperModel::Nrom(NromModel {
            variant: Variant::Nrom256,
            prg: Seq::new(0x8000, |i: int| 0u8),
            chr: Seq::new(0x2000, |i: int| 0u8),
        }),
        r.mirroring == Mirroring::Vertical,
{
    Rom { mapper: test_mapper(), mirroring: Mirroring::Vertical }
}

} // verus!
