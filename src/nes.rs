use vstd::prelude::*;

use crate::bus::{Bus, BusModel};
use crate::cartridge::Cartridge;
use crate::cpu::Cpu;
use crate::error::NesError;
use crate::machine::{mach, reaches, reset_spec, run_fuel, run_spec, Machine};
use crate::mapper::{mapper_for, Mapper};
use crate::ppu::ppu_initial;
use crate::rom::Rom;

verus! {

/// The console: a processor and the bus that it drives.
pub struct Nes {
    pub cpu: Cpu,
    pub bus: Bus,
}

/// A reset followed by the run loop.
pub open spec fn power_on_spec(m: Machine) -> Result<Machine, NesError> {
    match reset_spec(m) {
        Ok(m1) => run_spec(m1, run_fuel()),
        Err(e) => Err(e),
    }
}

fn copy_bytes(v: &Vec<u8>) -> (r: Vec<u8>)
    ensures
        r@ == v@,
{
    let mut r: Vec<u8> = Vec::with_capacity(v.len());
    let mut i: usize = 0;
    while i < v.len()
        invariant
            i <= v@.len(),
            r@ == v@.take(i as int),
        decreases v@.len() - i,
    {
        r.push(v[i]);
        i = i + 1;
        assert(r@ =~= v@.take(i as int));
    }
    assert(v@.take(i as int) =~= v@);
    r
}

impl Nes {
    /// A console with a fresh processor and bus around the cartridge's
    /// board.
    pub fn new(cartridge: &Cartridge) -> (r: Result<Nes, NesError>)
        ensures
            match mapper_for(cartridge.mapper, cartridge.pgr_rom@, cartridge.chr_rom@) {
                Ok(m) => r is Ok && r->Ok_0.cpu == Cpu::new_spec() && r->Ok_0.bus.wf()
                    && r->Ok_0.bus@ == (BusModel {
                    ram: Seq::new(0x800, |i: int| 0u8),
                    mapper: m,
                    mirroring: cartridge.mirroring,
                    ppu: ppu_initial(cartridge.mirroring),
                }),
                Err(e) => r is Err && r->Err_0 == e,
            },
    {
        let pgr_rom = copy_bytes(&cartridge.pgr_rom);
        let chr_rom = copy_bytes(&cartridge.chr_rom);
        let mapper = match Mapper::from_id(cartridge.mapper, pgr_rom, chr_rom) {
            Ok(m) => m,
            Err(e) => return Err(e),
        };
        let rom = Rom { mapper, mirroring: cartridge.mirroring };
        Ok(Nes { cpu: Cpu::new(), bus: Bus::new(rom) })
    }

    /// Resets the processor and runs it until `BRK`.
    pub fn run(&mut self) -> (r: Result<(), NesError>)
        requires
            old(self).bus.wf(),
            old(self).cpu.flags_wf(),
        ensures
            final(self).bus.wf(),
            final(self).cpu.flags_wf(),
            reaches(power_on_spec(mach(old(self).cpu, old(self).bus@)), r, final(self).cpu, final(self).bus@),
    {
        match self.cpu.reset(&mut self.bus) {
            Ok(()) => {},
            Err(e) => return Err(e),
        }
        self.cpu.run(&mut self.bus)
    }
}

} // verus!
