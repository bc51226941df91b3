use vstd::prelude::*;

use crate::error::NesError;
use crate::rom::{parse_header, parse_ines};
pub use crate::rom::Mirroring;

verus! {

/// The parsed contents of a cartridge image: its two ROM images, its mapper
/// number and its nametable mirroring.
pub struct Cartridge {
    pub pgr_rom: Vec<u8>,
    pub chr_rom: Vec<u8>,
    pub mapper: u8,
    pub mirroring: Mirroring,
}

impl Cartridge {
    /// Reads an iNES v1 image.
    pub fn from_ines(buffer: &[u8]) -> (r: Result<Cartridge, NesError>)
        ensures
            match parse_ines(buffer@) {
                Ok(img) => r is Ok && r->Ok_0.pgr_rom@ == img.prg && r->Ok_0.chr_rom@ == img.chr
                    && r->Ok_0.mapper == img.mapper && r->Ok_0.mirroring == img.mirroring,
                Err(e) => r == Err::<Cartridge, NesError>(e),
            },
    {
        match parse_header(buffer) {
            Ok(h) => Ok(
                Cartridge {
                    pgr_rom: h.pgr_rom,
                    chr_rom: h.chr_rom,
                    mapper: h.mapper,
                    mirroring: h.mirroring,
                },
            ),
            Err(e) => Err(e),
        }
    }
}

} // verus!
