use vstd::prelude::*;

use crate::alu::{adc, compare, lemma_sbc_is_adc_of_complement, pack, sbc, unpack, with_nz};
use crate::bus::{next_address, Bus};
use crate::error::NesError;
use crate::machine::{
    accumulator_effect, crossing_cycle, branch_op, brk_op, execute_spec, implied_effect, jmp_op, jsr_op,
    lemma_load_error_persists, lemma_operand_keeps_registers, load_and_run_spec, load_spec, m_fetch, m_fetch_word, m_read_pointer, mach, modify_op,
    offset_address, operand_address, operand_at, pla_op, plp_op, pop, pop_word, push, push_word,
    read_op, reaches, reset_spec, rti_op, rts_op, run_fuel, run_spec, run_step_spec, step_spec,
    store_op, with_cpu, yields, Machine, pays_extra_cycles, relative_target, reads_operand, modifies_operand, is_control, is_implied,
};
use crate::opcodes::{decode, AddrMode, Instruction};

verus! {

/// The processor's registers and flags. Each flag is kept as a byte that is
/// 0 or 1.
#[derive(Clone, Copy, Debug)]
pub struct Cpu {
    pub pc: u16,
    pub sp: u8,
    pub a: u8,
    pub x: u8,
    pub y: u8,
    pub n: u8,
    pub v: u8,
    pub b: u8,
    pub d: u8,
    pub i: u8,
    pub z: u8,
    pub c: u8,
    /// Cycles that the current instruction takes beyond its base count.
    pub extra_cycle: u8,
}

impl Cpu {
    /// The power-on register values.
    pub open spec fn new_spec() -> Cpu {
        Cpu {
            pc: 0,
            sp: 0xFD,
            a: 0,
            x: 0,
            y: 0,
            n: 0,
            v: 0,
            b: 0,
            d: 0,
            i: 0,
            z: 0,
            c: 0,
            extra_cycle: 0,
        }
    }

    pub open spec fn flags_wf(self) -> bool {
        self.n <= 1 && self.v <= 1 && self.b <= 1 && self.d <= 1 && self.i <= 1 && self.z <= 1
            && self.c <= 1
    }

    pub fn new() -> (r: Cpu)
        ensures
            r.flags_wf(),
            r == Cpu::new_spec(),
    {
        Cpu {
            pc: 0x00,
            sp: 0xFD,
            a: 0,
            x: 0,
            y: 0,
            n: 0,
            v: 0,
            b: 0,
            d: 0,
            i: 0,
            z: 0,
            c: 0,
            extra_cycle: 0,
        }
    }

    /// Loads the flags from a status byte.
    pub fn set_status(&mut self, p: u8)
        ensures
            *final(self) == unpack(*old(self), p),
            final(self).flags_wf(),
    {
        self.n = (p >> 7u8) & 1;
        self.v = (p >> 6u8) & 1;
        self.b = (p >> 4u8) & 1;
        self.d = (p >> 3u8) & 1;
        self.i = (p >> 2u8) & 1;
        self.z = (p >> 1u8) & 1;
        self.c = p & 1;
        proof {
            crate::alu::lemma_unpack_wf(*old(self), p);
        }
    }

    /// The flags as a status byte, bit 5 set.
    pub fn get_status(&self) -> (r: u8)
        ensures
            r == pack(*self),
    {
        (self.n << 7u8) | (self.v << 6u8) | 0x20u8 | (self.b << 4u8) | (self.d << 3u8) | (self.i
            << 2u8) | (self.z << 1u8) | self.c
    }

    /// Whether `origin` and `next` lie on different pages.
    pub fn is_crossing(origin: u16, next: u16) -> (r: bool)
        ensures
            r == (origin / 256 != next / 256),
    {
        assert(origin & 0xFF00 == next & 0xFF00 <==> origin / 256 == next / 256) by (bit_vector);
        (origin & 0xFF00) != (next & 0xFF00)
    }

    fn set_nz(&mut self, v: u8)
        ensures
            *final(self) == with_nz(*old(self), v),
    {
        self.z = if v == 0 {
            1
        } else {
            0
        };
        self.n = if v >= 0x80 {
            1
        } else {
            0
        };
    }

    fn add_to_accumulator(&mut self, value: u8)
        requires
            old(self).flags_wf(),
        ensures
            *final(self) == adc(*old(self), value),
            final(self).flags_wf(),
    {
        let sum: u16 = self.a as u16 + value as u16 + self.c as u16;
        let result: u8 = (sum % 256) as u8;
        let overflow: bool = (self.a ^ value) & 0x80 == 0 && (self.a ^ result) & 0x80 != 0;
        self.set_nz(result);
        self.c = if sum > 255 {
            1
        } else {
            0
        };
        self.v = if overflow {
            1
        } else {
            0
        };
        self.a = result;
    }

    fn sub_to_accumulator(&mut self, value: u8)
        requires
            old(self).flags_wf(),
        ensures
            *final(self) == sbc(*old(self), value),
            final(self).flags_wf(),
    {
        proof {
            lemma_sbc_is_adc_of_complement(*old(self), value);
        }
        self.add_to_accumulator(value ^ 0xFF);
    }
}

/// The address after `a`, wrapping at the top of the 16-bit space.
pub fn next_adress(a: u16) -> (r: u16)
    ensures
        r == next_address(a),
{
    if a == 0xFFFF {
        0
    } else {
        a + 1
    }
}

/// `base + i` within 16 bits.
pub(crate) fn offset_adress(base: u16, i: u8) -> (r: u16)
    ensures
        r == offset_address(base, i),
{
    let sum: u32 = base as u32 + i as u32;
    if sum >= 0x10000 {
        (sum - 0x10000) as u16
    } else {
        sum as u16
    }
}

/// The states that the run loop hands to its callback, one per round: the
/// first is the starting state, and each round that did not stop leads to
/// the next.
#[verifier::opaque]
pub open spec fn rounds_chain(start: Machine, seen: Seq<(Cpu, Bus)>) -> bool {
    &&& seen.len() > 0 ==> mach(seen[0].0, seen[0].1@) == start
    &&& forall|i: int|
        0 <= i < seen.len() - 1 ==> run_step_spec(mach((#[trigger] seen[i]).0, seen[i].1@))
            == Ok::<(Machine, bool), NesError>((mach(seen[i + 1].0, seen[i + 1].1@), false))
}

/// The callback saw every round of a run from `start` that ended in `r` at
/// `end`: the last round it saw either stopped at `BRK`, failed with the
/// error returned, or was the last that the loop allows.
#[verifier::opaque]
pub open spec fn shown_rounds<F: Fn(&Cpu, &Bus)>(
    callback: F,
    start: Machine,
    seen: Seq<(Cpu, Bus)>,
    r: Result<(), NesError>,
    end: Machine,
) -> bool {
    &&& seen.len() > 0
    &&& rounds_chain(start, seen)
    &&& forall|i: int| 0 <= i < seen.len() ==> callback.ensures((&(#[trigger] seen[i]).0, &seen[i].1), ())
    &&& match r {
        Ok(_) => run_step_spec(mach(seen.last().0, seen.last().1@)) == Ok::<(Machine, bool), NesError>((end, true))
            || (seen.len() == u64::MAX && run_step_spec(mach(seen.last().0, seen.last().1@)) == Ok::<(Machine, bool), NesError>((end, false))),
        Err(e) => run_step_spec(mach(seen.last().0, seen.last().1@)) == Err::<(Machine, bool), NesError>(e),
    }
}

proof fn lemma_rounds_chain_push(start: Machine, seen: Seq<(Cpu, Bus)>, next: (Cpu, Bus))
    requires
        rounds_chain(start, seen),
        seen.len() == 0 ==> mach(next.0, next.1@) == start,
        seen.len() > 0 ==> run_step_spec(mach(seen.last().0, seen.last().1@)) == Ok::<(Machine, bool), NesError>(
            (mach(next.0, next.1@), false),
        ),
    ensures
        rounds_chain(start, seen.push(next)),
{
    reveal(rounds_chain);
    let s2 = seen.push(next);
    assert forall|i: int| 0 <= i < s2.len() - 1 implies run_step_spec(mach((#[trigger] s2[i]).0, s2[i].1@))
        == Ok::<(Machine, bool), NesError>((mach(s2[i + 1].0, s2[i + 1].1@), false)) by {
        if i < seen.len() - 1 {
            assert(s2[i] == seen[i] && s2[i + 1] == seen[i + 1]);
        } else {
            assert(s2[i] == seen.last());
        }
    }
}

/// `pc` moved by the signed offset `off`, within 16 bits.
pub(crate) fn relative_adress(pc: u16, off: u8) -> (r: u16)
    ensures
        r == relative_target(pc, off),
{
    if off >= 128 {
        let back: u16 = 256 - off as u16;
        if pc >= back {
            pc - back
        } else {
            (pc as u32 + 0x10000 - back as u32) as u16
        }
    } else {
        offset_adress(pc, off)
    }
}

fn pays_extra_cycles_of(i: Instruction) -> (r: bool)
    ensures
        r == pays_extra_cycles(i),
{
    match i {
        Instruction::Adc | Instruction::Sbc | Instruction::And | Instruction::Ora | Instruction::Eor
        | Instruction::Bit | Instruction::Cmp | Instruction::Cpx | Instruction::Cpy | Instruction::Lda
        | Instruction::Ldx | Instruction::Ldy | Instruction::Lax | Instruction::Dop | Instruction::Top
        | Instruction::Bcc | Instruction::Bcs | Instruction::Beq | Instruction::Bmi | Instruction::Bne
        | Instruction::Bpl | Instruction::Bvc | Instruction::Bvs => true,
        _ => false,
    }
}

impl Cpu {
    fn fetch(&mut self, bus: &mut Bus) -> (r: Result<u8, NesError>)
        requires
            old(bus).wf(),
            old(self).flags_wf(),
        ensures
            final(bus).wf(),
            final(self).flags_wf(),
            yields(m_fetch(mach(*old(self), old(bus)@)), r, *final(self), final(bus)@),
    {
        let value = match bus.read(self.pc) {
            Ok(v) => v,
            Err(e) => return Err(e),
        };
        self.pc = next_adress(self.pc);
        Ok(value)
    }

    fn fetch_relative(&mut self, bus: &mut Bus) -> (r: Result<u16, NesError>)
        requires
            old(bus).wf(),
            old(self).flags_wf(),
        ensures
            final(bus).wf(),
            final(self).flags_wf(),
            yields(operand_address(mach(*old(self), old(bus)@), AddrMode::Relative), r, *final(self), final(bus)@),
    {
        let value = match self.fetch(bus) {
            Ok(v) => v,
            Err(e) => return Err(e),
        };
        Ok(relative_adress(self.pc, value))
    }

    fn fetch_absolute_adress(&mut self, bus: &mut Bus) -> (r: Result<u16, NesError>)
        requires
            old(bus).wf(),
            old(self).flags_wf(),
        ensures
            final(bus).wf(),
            final(self).flags_wf(),
            yields(m_fetch_word(mach(*old(self), old(bus)@)), r, *final(self), final(bus)@),
    {
        let lo = match self.fetch(bus) {
            Ok(v) => v,
            Err(e) => return Err(e),
        };
        let hi = match self.fetch(bus) {
            Ok(v) => v,
            Err(e) => return Err(e),
        };
        Ok(hi as u16 * 256 + lo as u16)
    }

    fn read_pointer(&mut self, bus: &mut Bus, lo_at: u16, hi_at: u16) -> (r: Result<u16, NesError>)
        requires
            old(bus).wf(),
            old(self).flags_wf(),
        ensures
            final(bus).wf(),
            final(self).flags_wf(),
            yields(m_read_pointer(mach(*old(self), old(bus)@), lo_at, hi_at), r, *final(self), final(bus)@),
    {
        let lo = match bus.read(lo_at) {
            Ok(v) => v,
            Err(e) => return Err(e),
        };
        let hi = match bus.read(hi_at) {
            Ok(v) => v,
            Err(e) => return Err(e),
        };
        Ok(hi as u16 * 256 + lo as u16)
    }

    fn fetch_absolute_indirect_adress(&mut self, bus: &mut Bus) -> (r: Result<u16, NesError>)
        requires
            old(bus).wf(),
            old(self).flags_wf(),
        ensures
            final(bus).wf(),
            final(self).flags_wf(),
            yields(operand_address(mach(*old(self), old(bus)@), AddrMode::AbsoluteIndirect), r, *final(self), final(bus)@),
    {
        let low_indirect = match self.fetch_absolute_adress(bus) {
            Ok(v) => v,
            Err(e) => return Err(e),
        };
        // The high byte is read on the pointer's page: no carry into it.
        let high_indirect = (low_indirect & 0xFF00) | (next_adress(low_indirect) & 0x00FF);
        self.read_pointer(bus, low_indirect, high_indirect)
    }

    /// `base + i`, noting in the extra cycle whether that crossed a page.
    fn index_adress(&mut self, base: u16, i: u8) -> (r: u16)
        ensures
            r == offset_address(base, i),
            *final(self) == (Cpu { extra_cycle: crossing_cycle(base, r), ..*old(self) }),
    {
        let adress = offset_adress(base, i);
        self.extra_cycle = if Cpu::is_crossing(base, adress) {
            1
        } else {
            0
        };
        adress
    }

    fn fetch_x_indexed_absolute_adress(&mut self, bus: &mut Bus) -> (r: Result<u16, NesError>)
        requires
            old(bus).wf(),
            old(self).flags_wf(),
        ensures
            final(bus).wf(),
            final(self).flags_wf(),
            yields(operand_address(mach(*old(self), old(bus)@), AddrMode::XIndexedAbsolute), r, *final(self), final(bus)@),
    {
        let absolute = match self.fetch_absolute_adress(bus) {
            Ok(v) => v,
            Err(e) => return Err(e),
        };
        let x = self.x;
        Ok(self.index_adress(absolute, x))
    }

    fn fetch_y_indexed_absolute_adress(&mut self, bus: &mut Bus) -> (r: Result<u16, NesError>)
        requires
            old(bus).wf(),
            old(self).flags_wf(),
        ensures
            final(bus).wf(),
            final(self).flags_wf(),
            yields(operand_address(mach(*old(self), old(bus)@), AddrMode::YIndexedAbsolute), r, *final(self), final(bus)@),
    {
        let absolute = match self.fetch_absolute_adress(bus) {
            Ok(v) => v,
            Err(e) => return Err(e),
        };
        let y = self.y;
        Ok(self.index_adress(absolute, y))
    }

    fn fetch_zero_page_adress(&mut self, bus: &mut Bus) -> (r: Result<u16, NesError>)
        requires
            old(bus).wf(),
            old(self).flags_wf(),
        ensures
            final(bus).wf(),
            final(self).flags_wf(),
            yields(operand_address(mach(*old(self), old(bus)@), AddrMode::ZeroPage), r, *final(self), final(bus)@),
    {
        match self.fetch(bus) {
            Ok(v) => Ok(v as u16),
            Err(e) => Err(e),
        }
    }

    fn fetch_x_indexed_zero_page_adress(&mut self, bus: &mut Bus) -> (r: Result<u16, NesError>)
        requires
            old(bus).wf(),
            old(self).flags_wf(),
        ensures
            final(bus).wf(),
            final(self).flags_wf(),
            yields(operand_address(mach(*old(self), old(bus)@), AddrMode::XIndexedZeroPage), r, *final(self), final(bus)@),
    {
        match self.fetch(bus) {
            Ok(v) => Ok(((v as u16 + self.x as u16) % 256) as u16),
            Err(e) => Err(e),
        }
    }

    fn fetch_y_indexed_zero_page_adress(&mut self, bus: &mut Bus) -> (r: Result<u16, NesError>)
        requires
            old(bus).wf(),
            old(self).flags_wf(),
        ensures
            final(bus).wf(),
            final(self).flags_wf(),
            yields(operand_address(mach(*old(self), old(bus)@), AddrMode::YIndexedZeroPage), r, *final(self), final(bus)@),
    {
        match self.fetch(bus) {
            Ok(v) => Ok(((v as u16 + self.y as u16) % 256) as u16),
            Err(e) => Err(e),
        }
    }

    fn fetch_x_indexed_zero_page_indirect_adress(&mut self, bus: &mut Bus) -> (r: Result<u16, NesError>)
        requires
            old(bus).wf(),
            old(self).flags_wf(),
        ensures
            final(bus).wf(),
            final(self).flags_wf(),
            yields(operand_address(mach(*old(self), old(bus)@), AddrMode::XIndexedZeroPageIndirect), r, *final(self), final(bus)@),
    {
        let v = match self.fetch(bus) {
            Ok(v) => v,
            Err(e) => return Err(e),
        };
        // The pointer and the byte after it both stay on page zero.
        let indirect: u8 = ((v as u16 + self.x as u16) % 256) as u8;
        let next: u16 = ((indirect as u16 + 1) % 256) as u16;
        self.read_pointer(bus, indirect as u16, next)
    }

    fn fetch_zero_page_indirect_y_indexed_adress(&mut self, bus: &mut Bus) -> (r: Result<u16, NesError>)
        requires
            old(bus).wf(),
            old(self).flags_wf(),
        ensures
            final(bus).wf(),
            final(self).flags_wf(),
            yields(operand_address(mach(*old(self), old(bus)@), AddrMode::ZeroPageIndirectYIndexed), r, *final(self), final(bus)@),
    {
        let pointer = match self.fetch(bus) {
            Ok(v) => v,
            Err(e) => return Err(e),
        };
        let next: u16 = ((pointer as u16 + 1) % 256) as u16;
        let indirect = match self.read_pointer(bus, pointer as u16, next) {
            Ok(v) => v,
            Err(e) => return Err(e),
        };
        let y = self.y;
        Ok(self.index_adress(indirect, y))
    }
}

impl Cpu {
    fn get_op_adress(&mut self, bus: &mut Bus, addr_mode: AddrMode) -> (r: Result<u16, NesError>)
        requires
            old(bus).wf(),
            old(self).flags_wf(),
        ensures
            final(bus).wf(),
            final(self).flags_wf(),
            yields(operand_address(mach(*old(self), old(bus)@), addr_mode), r, *final(self), final(bus)@),
    {
        match addr_mode {
            AddrMode::Immediate => {
                let adress = self.pc;
                self.pc = next_adress(self.pc);
                Ok(adress)
            },
            AddrMode::Absolute => self.fetch_absolute_adress(bus),
            AddrMode::XIndexedAbsolute => self.fetch_x_indexed_absolute_adress(bus),
            AddrMode::YIndexedAbsolute => self.fetch_y_indexed_absolute_adress(bus),
            AddrMode::AbsoluteIndirect => self.fetch_absolute_indirect_adress(bus),
            AddrMode::ZeroPage => self.fetch_zero_page_adress(bus),
            AddrMode::XIndexedZeroPage => self.fetch_x_indexed_zero_page_adress(bus),
            AddrMode::YIndexedZeroPage => self.fetch_y_indexed_zero_page_adress(bus),
            AddrMode::XIndexedZeroPageIndirect => self.fetch_x_indexed_zero_page_indirect_adress(bus),
            AddrMode::ZeroPageIndirectYIndexed => self.fetch_zero_page_indirect_y_indexed_adress(bus),
            AddrMode::Relative => self.fetch_relative(bus),
            // No operand address: nothing is consumed.
            _ => Ok(0),
        }
    }

    /// The operand address and the byte there.
    fn read_operand(&mut self, bus: &mut Bus, addr_mode: AddrMode) -> (r: Result<(u16, u8), NesError>)
        requires
            old(bus).wf(),
            old(self).flags_wf(),
        ensures
            final(bus).wf(),
            final(self).flags_wf(),
            yields(operand_at(mach(*old(self), old(bus)@), addr_mode), r, *final(self), final(bus)@),
    {
        let adress = match self.get_op_adress(bus, addr_mode) {
            Ok(a) => a,
            Err(e) => return Err(e),
        };
        match bus.read(adress) {
            Ok(v) => Ok((adress, v)),
            Err(e) => Err(e),
        }
    }

    fn stack_push(&mut self, bus: &mut Bus, value: u8) -> (r: Result<(), NesError>)
        requires
            old(bus).wf(),
            old(self).flags_wf(),
        ensures
            final(bus).wf(),
            final(self).flags_wf(),
            reaches(push(mach(*old(self), old(bus)@), value), r, *final(self), final(bus)@),
    {
        match bus.write(0x0100 + self.sp as u16, value) {
            Ok(()) => {},
            Err(e) => return Err(e),
        }
        self.sp = if self.sp == 0 {
            255
        } else {
            self.sp - 1
        };
        Ok(())
    }

    fn stack_pop(&mut self, bus: &mut Bus) -> (r: Result<u8, NesError>)
        requires
            old(bus).wf(),
            old(self).flags_wf(),
        ensures
            final(bus).wf(),
            final(self).flags_wf(),
            yields(pop(mach(*old(self), old(bus)@)), r, *final(self), final(bus)@),
    {
        self.sp = if self.sp == 255 {
            0
        } else {
            self.sp + 1
        };
        bus.read(0x0100 + self.sp as u16)
    }

    fn stack_push_word(&mut self, bus: &mut Bus, value: u16) -> (r: Result<(), NesError>)
        requires
            old(bus).wf(),
            old(self).flags_wf(),
        ensures
            final(bus).wf(),
            final(self).flags_wf(),
            reaches(push_word(mach(*old(self), old(bus)@), value), r, *final(self), final(bus)@),
    {
        match self.stack_push(bus, (value / 256) as u8) {
            Ok(()) => {},
            Err(e) => return Err(e),
        }
        self.stack_push(bus, (value % 256) as u8)
    }

    fn stack_pop_word(&mut self, bus: &mut Bus) -> (r: Result<u16, NesError>)
        requires
            old(bus).wf(),
            old(self).flags_wf(),
        ensures
            final(bus).wf(),
            final(self).flags_wf(),
            yields(pop_word(mach(*old(self), old(bus)@)), r, *final(self), final(bus)@),
    {
        let low = match self.stack_pop(bus) {
            Ok(v) => v,
            Err(e) => return Err(e),
        };
        let high = match self.stack_pop(bus) {
            Ok(v) => v,
            Err(e) => return Err(e),
        };
        Ok(high as u16 * 256 + low as u16)
    }
}

impl Cpu {
    /// `Z`, `N` and the carry of `register - value`.
    fn compare_with(&mut self, register: u8, value: u8)
        ensures
            *final(self) == compare(*old(self), register, value),
    {
        let result: u8 = if register >= value {
            register - value
        } else {
            (register as u16 + 256 - value as u16) as u8
        };
        self.set_nz(result);
        self.c = if register >= value {
            1
        } else {
            0
        };
    }

    fn apply_adc_op(&mut self, bus: &mut Bus, addr_mode: AddrMode) -> (r: Result<(), NesError>)
        requires
            old(bus).wf(),
            old(self).flags_wf(),
        ensures
            final(bus).wf(),
            final(self).flags_wf(),
            reaches(read_op(mach(*old(self), old(bus)@), addr_mode, Instruction::Adc), r, *final(self), final(bus)@),
    {
        proof {
            reveal(read_op);
        }
        let value = match self.read_operand(bus, addr_mode) {
            Ok((_, v)) => v,
            Err(e) => return Err(e),
        };
        self.add_to_accumulator(value);
        Ok(())
    }

    fn apply_sbc_op(&mut self, bus: &mut Bus, addr_mode: AddrMode) -> (r: Result<(), NesError>)
        requires
            old(bus).wf(),
            old(self).flags_wf(),
        ensures
            final(bus).wf(),
            final(self).flags_wf(),
            reaches(read_op(mach(*old(self), old(bus)@), addr_mode, Instruction::Sbc), r, *final(self), final(bus)@),
    {
        proof {
            reveal(read_op);
        }
        let value = match self.read_operand(bus, addr_mode) {
            Ok((_, v)) => v,
            Err(e) => return Err(e),
        };
        self.sub_to_accumulator(value);
        Ok(())
    }

    fn apply_and_op(&mut self, bus: &mut Bus, addr_mode: AddrMode) -> (r: Result<(), NesError>)
        requires
            old(bus).wf(),
            old(self).flags_wf(),
        ensures
            final(bus).wf(),
            final(self).flags_wf(),
            reaches(read_op(mach(*old(self), old(bus)@), addr_mode, Instruction::And), r, *final(self), final(bus)@),
    {
        proof {
            reveal(read_op);
        }
        let value = match self.read_operand(bus, addr_mode) {
            Ok((_, v)) => v,
            Err(e) => return Err(e),
        };
        let result = self.a & value;
        self.set_nz(result);
        self.a = result;
        Ok(())
    }

    fn apply_ora_op(&mut self, bus: &mut Bus, addr_mode: AddrMode) -> (r: Result<(), NesError>)
        requires
            old(bus).wf(),
            old(self).flags_wf(),
        ensures
            final(bus).wf(),
            final(self).flags_wf(),
            reaches(read_op(mach(*old(self), old(bus)@), addr_mode, Instruction::Ora), r, *final(self), final(bus)@),
    {
        proof {
            reveal(read_op);
        }
        let value = match self.read_operand(bus, addr_mode) {
            Ok((_, v)) => v,
            Err(e) => return Err(e),
        };
        let result = self.a | value;
        self.set_nz(result);
        self.a = result;
        Ok(())
    }

    fn apply_eor_op(&mut self, bus: &mut Bus, addr_mode: AddrMode) -> (r: Result<(), NesError>)
        requires
            old(bus).wf(),
            old(self).flags_wf(),
        ensures
            final(bus).wf(),
            final(self).flags_wf(),
            reaches(read_op(mach(*old(self), old(bus)@), addr_mode, Instruction::Eor), r, *final(self), final(bus)@),
    {
        proof {
            reveal(read_op);
        }
        let value = match self.read_operand(bus, addr_mode) {
            Ok((_, v)) => v,
            Err(e) => return Err(e),
        };
        let result = self.a ^ value;
        self.set_nz(result);
        self.a = result;
        Ok(())
    }

    fn apply_bit_op(&mut self, bus: &mut Bus, addr_mode: AddrMode) -> (r: Result<(), NesError>)
        requires
            old(bus).wf(),
            old(self).flags_wf(),
        ensures
            final(bus).wf(),
            final(self).flags_wf(),
            reaches(read_op(mach(*old(self), old(bus)@), addr_mode, Instruction::Bit), r, *final(self), final(bus)@),
    {
        proof {
            reveal(read_op);
        }
        let value = match self.read_operand(bus, addr_mode) {
            Ok((_, v)) => v,
            Err(e) => return Err(e),
        };
        self.n = if value >= 0x80 { 1 } else { 0 };
        self.v = if value & 0x40 != 0 { 1 } else { 0 };
        self.z = if self.a & value == 0 { 1 } else { 0 };
        Ok(())
    }

    fn apply_lax_op(&mut self, bus: &mut Bus, addr_mode: AddrMode) -> (r: Result<(), NesError>)
        requires
            old(bus).wf(),
            old(self).flags_wf(),
        ensures
            final(bus).wf(),
            final(self).flags_wf(),
            reaches(read_op(mach(*old(self), old(bus)@), addr_mode, Instruction::Lax), r, *final(self), final(bus)@),
    {
        proof {
            reveal(read_op);
        }
        let value = match self.read_operand(bus, addr_mode) {
            Ok((_, v)) => v,
            Err(e) => return Err(e),
        };
        self.set_nz(value);
        self.a = value;
        self.x = value;
        Ok(())
    }

    fn apply_cmp_op(&mut self, register: u8, bus: &mut Bus, addr_mode: AddrMode) -> (r: Result<(), NesError>)
        requires
            old(bus).wf(),
            old(self).flags_wf(),
        ensures
            final(bus).wf(),
            final(self).flags_wf(),
            reaches(
                match operand_at(mach(*old(self), old(bus)@), addr_mode) {
                    Ok((m1, (_, v))) => Ok(with_cpu(m1, compare(m1.cpu, register, v))),
                    Err(e) => Err(e),
                },
                r,
                *final(self),
                final(bus)@,
            ),
    {
        let value = match self.read_operand(bus, addr_mode) {
            Ok((_, v)) => v,
            Err(e) => return Err(e),
        };
        self.compare_with(register, value);
        Ok(())
    }

    /// Reads the operand for a load; `Z` and `N` follow it.
    fn apply_ld_op(&mut self, bus: &mut Bus, addr_mode: AddrMode) -> (r: Result<u8, NesError>)
        requires
            old(bus).wf(),
            old(self).flags_wf(),
        ensures
            final(bus).wf(),
            final(self).flags_wf(),
            yields(
                match operand_at(mach(*old(self), old(bus)@), addr_mode) {
                    Ok((m1, (_, v))) => Ok((with_cpu(m1, with_nz(m1.cpu, v)), v)),
                    Err(e) => Err(e),
                },
                r,
                *final(self),
                final(bus)@,
            ),
    {
        let value = match self.read_operand(bus, addr_mode) {
            Ok((_, v)) => v,
            Err(e) => return Err(e),
        };
        self.set_nz(value);
        Ok(value)
    }

    fn apply_asl_op(&mut self, bus: &mut Bus, addr_mode: AddrMode) -> (r: Result<(), NesError>)
        requires
            old(bus).wf(),
            old(self).flags_wf(),
        ensures
            final(bus).wf(),
            final(self).flags_wf(),
            reaches(modify_op(mach(*old(self), old(bus)@), addr_mode, Instruction::Asl), r, *final(self), final(bus)@),
    {
        proof {
            reveal(modify_op);
        }
        let (adress, value) = match self.read_operand(bus, addr_mode) {
            Ok(p) => p,
            Err(e) => return Err(e),
        };
        let result: u8 = ((value as u16 * 2) % 256) as u8;
        match bus.write(adress, result) {
            Ok(()) => {},
            Err(e) => return Err(e),
        }
        self.c = if value >= 0x80 { 1 } else { 0 };
        self.set_nz(result);
        Ok(())
    }

    fn apply_lsr_op(&mut self, bus: &mut Bus, addr_mode: AddrMode) -> (r: Result<(), NesError>)
        requires
            old(bus).wf(),
            old(self).flags_wf(),
        ensures
            final(bus).wf(),
            final(self).flags_wf(),
            reaches(modify_op(mach(*old(self), old(bus)@), addr_mode, Instruction::Lsr), r, *final(self), final(bus)@),
    {
        proof {
            reveal(modify_op);
        }
        let (adress, value) = match self.read_operand(bus, addr_mode) {
            Ok(p) => p,
            Err(e) => return Err(e),
        };
        let result: u8 = value / 2;
        match bus.write(adress, result) {
            Ok(()) => {},
            Err(e) => return Err(e),
        }
        self.c = value % 2;
        self.set_nz(result);
        Ok(())
    }

    fn apply_rol_op(&mut self, bus: &mut Bus, addr_mode: AddrMode) -> (r: Result<(), NesError>)
        requires
            old(bus).wf(),
            old(self).flags_wf(),
        ensures
            final(bus).wf(),
            final(self).flags_wf(),
            reaches(modify_op(mach(*old(self), old(bus)@), addr_mode, Instruction::Rol), r, *final(self), final(bus)@),
    {
        proof {
            reveal(modify_op);
        }
        let (adress, value) = match self.read_operand(bus, addr_mode) {
            Ok(p) => p,
            Err(e) => return Err(e),
        };
        let result: u8 = ((value as u16 * 2) % 256 + self.c as u16) as u8;
        match bus.write(adress, result) {
            Ok(()) => {},
            Err(e) => return Err(e),
        }
        self.c = if value >= 0x80 { 1 } else { 0 };
        self.set_nz(result);
        Ok(())
    }

    fn apply_ror_op(&mut self, bus: &mut Bus, addr_mode: AddrMode) -> (r: Result<(), NesError>)
        requires
            old(bus).wf(),
            old(self).flags_wf(),
        ensures
            final(bus).wf(),
            final(self).flags_wf(),
            reaches(modify_op(mach(*old(self), old(bus)@), addr_mode, Instruction::Ror), r, *final(self), final(bus)@),
    {
        proof {
            reveal(modify_op);
        }
        let (adress, value) = match self.read_operand(bus, addr_mode) {
            Ok(p) => p,
            Err(e) => return Err(e),
        };
        let result: u8 = (self.c as u16 * 128 + value as u16 / 2) as u8;
        match bus.write(adress, result) {
            Ok(()) => {},
            Err(e) => return Err(e),
        }
        self.c = value % 2;
        self.set_nz(result);
        Ok(())
    }

    fn apply_inc_op(&mut self, bus: &mut Bus, addr_mode: AddrMode) -> (r: Result<(), NesError>)
        requires
            old(bus).wf(),
            old(self).flags_wf(),
        ensures
            final(bus).wf(),
            final(self).flags_wf(),
            reaches(modify_op(mach(*old(self), old(bus)@), addr_mode, Instruction::Inc), r, *final(self), final(bus)@),
    {
        proof {
            reveal(modify_op);
        }
        let (adress, value) = match self.read_operand(bus, addr_mode) {
            Ok(p) => p,
            Err(e) => return Err(e),
        };
        let result: u8 = if value == 255 { 0 } else { value + 1 };
        match bus.write(adress, result) {
            Ok(()) => {},
            Err(e) => return Err(e),
        }
        self.set_nz(result);
        Ok(())
    }

    fn apply_dec_op(&mut self, bus: &mut Bus, addr_mode: AddrMode) -> (r: Result<(), NesError>)
        requires
            old(bus).wf(),
            old(self).flags_wf(),
        ensures
            final(bus).wf(),
            final(self).flags_wf(),
            reaches(modify_op(mach(*old(self), old(bus)@), addr_mode, Instruction::Dec), r, *final(self), final(bus)@),
    {
        proof {
            reveal(modify_op);
        }
        let (adress, value) = match self.read_operand(bus, addr_mode) {
            Ok(p) => p,
            Err(e) => return Err(e),
        };
        let result: u8 = if value == 0 { 255 } else { value - 1 };
        match bus.write(adress, result) {
            Ok(()) => {},
            Err(e) => return Err(e),
        }
        self.set_nz(result);
        Ok(())
    }

    fn apply_dcp_op(&mut self, bus: &mut Bus, addr_mode: AddrMode) -> (r: Result<(), NesError>)
        requires
            old(bus).wf(),
            old(self).flags_wf(),
        ensures
            final(bus).wf(),
            final(self).flags_wf(),
            reaches(modify_op(mach(*old(self), old(bus)@), addr_mode, Instruction::Dcp), r, *final(self), final(bus)@),
    {
        proof {
            reveal(modify_op);
        }
        let (adress, value) = match self.read_operand(bus, addr_mode) {
            Ok(p) => p,
            Err(e) => return Err(e),
        };
        let result: u8 = if value == 0 { 255 } else { value - 1 };
        match bus.write(adress, result) {
            Ok(()) => {},
            Err(e) => return Err(e),
        }
        let a = self.a;
        self.compare_with(a, result);
        Ok(())
    }

    fn apply_isb_op(&mut self, bus: &mut Bus, addr_mode: AddrMode) -> (r: Result<(), NesError>)
        requires
            old(bus).wf(),
            old(self).flags_wf(),
        ensures
            final(bus).wf(),
            final(self).flags_wf(),
            reaches(modify_op(mach(*old(self), old(bus)@), addr_mode, Instruction::Isb), r, *final(self), final(bus)@),
    {
        proof {
            reveal(modify_op);
        }
        let (adress, value) = match self.read_operand(bus, addr_mode) {
            Ok(p) => p,
            Err(e) => return Err(e),
        };
        let result: u8 = if value == 255 { 0 } else { value + 1 };
        match bus.write(adress, result) {
            Ok(()) => {},
            Err(e) => return Err(e),
        }
        self.sub_to_accumulator(result);
        Ok(())
    }

    fn apply_slo_op(&mut self, bus: &mut Bus, addr_mode: AddrMode) -> (r: Result<(), NesError>)
        requires
            old(bus).wf(),
            old(self).flags_wf(),
        ensures
            final(bus).wf(),
            final(self).flags_wf(),
            reaches(modify_op(mach(*old(self), old(bus)@), addr_mode, Instruction::Slo), r, *final(self), final(bus)@),
    {
        proof {
            reveal(modify_op);
        }
        let (adress, value) = match self.read_operand(bus, addr_mode) {
            Ok(p) => p,
            Err(e) => return Err(e),
        };
        let result: u8 = ((value as u16 * 2) % 256) as u8;
        match bus.write(adress, result) {
            Ok(()) => {},
            Err(e) => return Err(e),
        }
        self.a = self.a | result;
        let a = self.a;
        self.set_nz(a);
        self.c = if value >= 0x80 { 1 } else { 0 };
        Ok(())
    }

    fn apply_sre_op(&mut self, bus: &mut Bus, addr_mode: AddrMode) -> (r: Result<(), NesError>)
        requires
            old(bus).wf(),
            old(self).flags_wf(),
        ensures
            final(bus).wf(),
            final(self).flags_wf(),
            reaches(modify_op(mach(*old(self), old(bus)@), addr_mode, Instruction::Sre), r, *final(self), final(bus)@),
    {
        proof {
            reveal(modify_op);
        }
        let (adress, value) = match self.read_operand(bus, addr_mode) {
            Ok(p) => p,
            Err(e) => return Err(e),
        };
        let result: u8 = value / 2;
        match bus.write(adress, result) {
            Ok(()) => {},
            Err(e) => return Err(e),
        }
        self.a = self.a ^ result;
        let a = self.a;
        self.set_nz(a);
        self.c = value % 2;
        Ok(())
    }

    fn apply_rla_op(&mut self, bus: &mut Bus, addr_mode: AddrMode) -> (r: Result<(), NesError>)
        requires
            old(bus).wf(),
            old(self).flags_wf(),
        ensures
            final(bus).wf(),
            final(self).flags_wf(),
            reaches(modify_op(mach(*old(self), old(bus)@), addr_mode, Instruction::Rla), r, *final(self), final(bus)@),
    {
        proof {
            reveal(modify_op);
        }
        let (adress, value) = match self.read_operand(bus, addr_mode) {
            Ok(p) => p,
            Err(e) => return Err(e),
        };
        let result: u8 = ((value as u16 * 2) % 256 + self.c as u16) as u8;
        match bus.write(adress, result) {
            Ok(()) => {},
            Err(e) => return Err(e),
        }
        self.a = self.a & result;
        let a = self.a;
        self.set_nz(a);
        self.c = if value >= 0x80 { 1 } else { 0 };
        Ok(())
    }

    fn apply_rra_op(&mut self, bus: &mut Bus, addr_mode: AddrMode) -> (r: Result<(), NesError>)
        requires
            old(bus).wf(),
            old(self).flags_wf(),
        ensures
            final(bus).wf(),
            final(self).flags_wf(),
            reaches(modify_op(mach(*old(self), old(bus)@), addr_mode, Instruction::Rra), r, *final(self), final(bus)@),
    {
        proof {
            reveal(modify_op);
        }
        let (adress, value) = match self.read_operand(bus, addr_mode) {
            Ok(p) => p,
            Err(e) => return Err(e),
        };
        let result: u8 = (self.c as u16 * 128 + value as u16 / 2) as u8;
        match bus.write(adress, result) {
            Ok(()) => {},
            Err(e) => return Err(e),
        }
        self.c = value % 2;
        self.add_to_accumulator(result);
        Ok(())
    }

    fn apply_asl_accumulator_op(&mut self)
        requires
            old(self).flags_wf(),
        ensures
            final(self).flags_wf(),
            *final(self) == accumulator_effect(*old(self), Instruction::Asl),
    {
        let value = self.a;
        let result: u8 = ((value as u16 * 2) % 256) as u8;
        self.set_nz(result);
        self.c = if value >= 0x80 { 1 } else { 0 };
        self.a = result;
    }

    fn apply_lsr_accumulator_op(&mut self)
        requires
            old(self).flags_wf(),
        ensures
            final(self).flags_wf(),
            *final(self) == accumulator_effect(*old(self), Instruction::Lsr),
    {
        let value = self.a;
        let result: u8 = value / 2;
        self.set_nz(result);
        self.c = value % 2;
        self.a = result;
    }

    fn apply_rol_accumulator_op(&mut self)
        requires
            old(self).flags_wf(),
        ensures
            final(self).flags_wf(),
            *final(self) == accumulator_effect(*old(self), Instruction::Rol),
    {
        let value = self.a;
        let result: u8 = ((value as u16 * 2) % 256 + self.c as u16) as u8;
        self.set_nz(result);
        self.c = if value >= 0x80 { 1 } else { 0 };
        self.a = result;
    }

    fn apply_ror_accumulator_op(&mut self)
        requires
            old(self).flags_wf(),
        ensures
            final(self).flags_wf(),
            *final(self) == accumulator_effect(*old(self), Instruction::Ror),
    {
        let value = self.a;
        let result: u8 = (self.c as u16 * 128 + value as u16 / 2) as u8;
        self.set_nz(result);
        self.c = value % 2;
        self.a = result;
    }

    fn apply_inx_op(&mut self)
        ensures
            *final(self) == implied_effect(*old(self), Instruction::Inx),
    {
        let result: u8 = if self.x == 255 { 0 } else { self.x + 1 };
        self.set_nz(result);
        self.x = result;
    }

    fn apply_iny_op(&mut self)
        ensures
            *final(self) == implied_effect(*old(self), Instruction::Iny),
    {
        let result: u8 = if self.y == 255 { 0 } else { self.y + 1 };
        self.set_nz(result);
        self.y = result;
    }

    fn apply_dex_op(&mut self)
        ensures
            *final(self) == implied_effect(*old(self), Instruction::Dex),
    {
        let result: u8 = if self.x == 0 { 255 } else { self.x - 1 };
        self.set_nz(result);
        self.x = result;
    }

    fn apply_dey_op(&mut self)
        ensures
            *final(self) == implied_effect(*old(self), Instruction::Dey),
    {
        let result: u8 = if self.y == 0 { 255 } else { self.y - 1 };
        self.set_nz(result);
        self.y = result;
    }
}

impl Cpu {
    fn apply_branch(&mut self, bus: &mut Bus, condition: bool) -> (r: Result<(), NesError>)
        requires
            old(bus).wf(),
            old(self).flags_wf(),
        ensures
            final(bus).wf(),
            final(self).flags_wf(),
            reaches(branch_op(mach(*old(self), old(bus)@), condition), r, *final(self), final(bus)@),
    {
        proof {
            reveal(branch_op);
        }
        let adress = match self.fetch_relative(bus) {
            Ok(a) => a,
            Err(e) => return Err(e),
        };
        if condition {
            self.extra_cycle = if Cpu::is_crossing(self.pc, adress) {
                2
            } else {
                1
            };
            self.pc = adress;
        }
        Ok(())
    }

    fn apply_brk_op(&mut self, bus: &mut Bus) -> (r: Result<(), NesError>)
        requires
            old(bus).wf(),
            old(self).flags_wf(),
        ensures
            final(bus).wf(),
            final(self).flags_wf(),
            reaches(brk_op(mach(*old(self), old(bus)@)), r, *final(self), final(bus)@),
    {
        proof {
            reveal(brk_op);
        }
        // Skip the signature byte.
        self.pc = next_adress(self.pc);
        let pc = self.pc;
        match self.stack_push_word(bus, pc) {
            Ok(()) => {},
            Err(e) => return Err(e),
        }
        let p = self.get_status() | 0x10;
        match self.stack_push(bus, p) {
            Ok(()) => {},
            Err(e) => return Err(e),
        }
        let target = match bus.read_u16(0xFFFE) {
            Ok(t) => t,
            Err(e) => return Err(e),
        };
        self.i = 1;
        self.pc = target;
        Ok(())
    }

    fn apply_jsr_op(&mut self, bus: &mut Bus, addr_mode: AddrMode) -> (r: Result<(), NesError>)
        requires
            old(bus).wf(),
            old(self).flags_wf(),
        ensures
            final(bus).wf(),
            final(self).flags_wf(),
            reaches(jsr_op(mach(*old(self), old(bus)@), addr_mode), r, *final(self), final(bus)@),
    {
        proof {
            reveal(jsr_op);
        }
        let adress = match self.get_op_adress(bus, addr_mode) {
            Ok(a) => a,
            Err(e) => return Err(e),
        };
        let ret: u16 = if self.pc == 0 {
            0xFFFF
        } else {
            self.pc - 1
        };
        match self.stack_push_word(bus, ret) {
            Ok(()) => {},
            Err(e) => return Err(e),
        }
        self.pc = adress;
        Ok(())
    }

    fn apply_rts_op(&mut self, bus: &mut Bus) -> (r: Result<(), NesError>)
        requires
            old(bus).wf(),
            old(self).flags_wf(),
        ensures
            final(bus).wf(),
            final(self).flags_wf(),
            reaches(rts_op(mach(*old(self), old(bus)@)), r, *final(self), final(bus)@),
    {
        proof {
            reveal(rts_op);
        }
        let ret = match self.stack_pop_word(bus) {
            Ok(w) => w,
            Err(e) => return Err(e),
        };
        self.pc = next_adress(ret);
        Ok(())
    }

    fn apply_rti_op(&mut self, bus: &mut Bus) -> (r: Result<(), NesError>)
        requires
            old(bus).wf(),
            old(self).flags_wf(),
        ensures
            final(bus).wf(),
            final(self).flags_wf(),
            reaches(rti_op(mach(*old(self), old(bus)@)), r, *final(self), final(bus)@),
    {
        proof {
            reveal(rti_op);
        }
        let p = match self.stack_pop(bus) {
            Ok(v) => v,
            Err(e) => return Err(e),
        };
        let ret = match self.stack_pop_word(bus) {
            Ok(w) => w,
            Err(e) => return Err(e),
        };
        self.pc = ret;
        self.set_status(p);
        Ok(())
    }

    fn apply_pha_op(&mut self, bus: &mut Bus) -> (r: Result<(), NesError>)
        requires
            old(bus).wf(),
            old(self).flags_wf(),
        ensures
            final(bus).wf(),
            final(self).flags_wf(),
            reaches(push(mach(*old(self), old(bus)@), old(self).a), r, *final(self), final(bus)@),
    {
        let a = self.a;
        self.stack_push(bus, a)
    }

    fn apply_php_op(&mut self, bus: &mut Bus) -> (r: Result<(), NesError>)
        requires
            old(bus).wf(),
            old(self).flags_wf(),
        ensures
            final(bus).wf(),
            final(self).flags_wf(),
            reaches(push(mach(*old(self), old(bus)@), pack(*old(self)) | 0x10), r, *final(self), final(bus)@),
    {
        // The pushed copy has B set.
        let p = self.get_status() | 0x10;
        self.stack_push(bus, p)
    }

    fn apply_pla_op(&mut self, bus: &mut Bus) -> (r: Result<(), NesError>)
        requires
            old(bus).wf(),
            old(self).flags_wf(),
        ensures
            final(bus).wf(),
            final(self).flags_wf(),
            reaches(pla_op(mach(*old(self), old(bus)@)), r, *final(self), final(bus)@),
    {
        proof {
            reveal(pla_op);
        }
        let v = match self.stack_pop(bus) {
            Ok(v) => v,
            Err(e) => return Err(e),
        };
        self.set_nz(v);
        self.a = v;
        Ok(())
    }

    fn apply_plp_op(&mut self, bus: &mut Bus) -> (r: Result<(), NesError>)
        requires
            old(bus).wf(),
            old(self).flags_wf(),
        ensures
            final(bus).wf(),
            final(self).flags_wf(),
            reaches(plp_op(mach(*old(self), old(bus)@)), r, *final(self), final(bus)@),
    {
        proof {
            reveal(plp_op);
        }
        let p = match self.stack_pop(bus) {
            Ok(v) => v,
            Err(e) => return Err(e),
        };
        // B is not a stored flag: the pulled one is dropped.
        self.set_status(p & 0b1110_1111);
        Ok(())
    }

    fn apply_store_op(&mut self, bus: &mut Bus, addr_mode: AddrMode, value: u8) -> (r: Result<(), NesError>)
        requires
            old(bus).wf(),
            old(self).flags_wf(),
        ensures
            final(bus).wf(),
            final(self).flags_wf(),
            reaches(store_op(mach(*old(self), old(bus)@), addr_mode, value), r, *final(self), final(bus)@),
    {
        proof {
            reveal(store_op);
        }
        let adress = match self.get_op_adress(bus, addr_mode) {
            Ok(a) => a,
            Err(e) => return Err(e),
        };
        bus.write(adress, value)
    }

    fn apply_sax_op(&mut self, bus: &mut Bus, addr_mode: AddrMode) -> (r: Result<(), NesError>)
        requires
            old(bus).wf(),
            old(self).flags_wf(),
        ensures
            final(bus).wf(),
            final(self).flags_wf(),
            reaches(store_op(mach(*old(self), old(bus)@), addr_mode, old(self).a & old(self).x), r, *final(self), final(bus)@),
    {
        proof {
            reveal(store_op);
        }
        let value = self.a & self.x;
        self.apply_store_op(bus, addr_mode, value)
    }

    fn apply_jmp_op(&mut self, bus: &mut Bus, addr_mode: AddrMode) -> (r: Result<(), NesError>)
        requires
            old(bus).wf(),
            old(self).flags_wf(),
        ensures
            final(bus).wf(),
            final(self).flags_wf(),
            reaches(jmp_op(mach(*old(self), old(bus)@), addr_mode), r, *final(self), final(bus)@),
    {
        proof {
            reveal(jmp_op);
        }
        match self.get_op_adress(bus, addr_mode) {
            Ok(a) => {
                self.pc = a;
                Ok(())
            },
            Err(e) => Err(e),
        }
    }

    fn apply_discard_op(&mut self, bus: &mut Bus, addr_mode: AddrMode, instruction: Instruction) -> (r: Result<(), NesError>)
        requires
            old(bus).wf(),
            old(self).flags_wf(),
            instruction == Instruction::Dop || instruction == Instruction::Top,
        ensures
            final(bus).wf(),
            final(self).flags_wf(),
            reaches(read_op(mach(*old(self), old(bus)@), addr_mode, instruction), r, *final(self), final(bus)@),
    {
        proof {
            reveal(read_op);
        }
        match self.read_operand(bus, addr_mode) {
            Ok(_) => Ok(()),
            Err(e) => Err(e),
        }
    }
}

impl Cpu {
    /// `CMP`, `CPX` and `CPY`: compare the register that the instruction names.
    fn apply_compare(&mut self, bus: &mut Bus, addr_mode: AddrMode, instruction: Instruction) -> (r: Result<(), NesError>)
        requires
            old(bus).wf(),
            old(self).flags_wf(),
            instruction == Instruction::Cmp || instruction == Instruction::Cpx || instruction == Instruction::Cpy,
        ensures
            final(bus).wf(),
            final(self).flags_wf(),
            reaches(read_op(mach(*old(self), old(bus)@), addr_mode, instruction), r, *final(self), final(bus)@),
    {
        proof {
            reveal(read_op);
            lemma_operand_keeps_registers(mach(*self, bus@), addr_mode);
        }
        let register = match instruction {
            Instruction::Cmp => self.a,
            Instruction::Cpx => self.x,
            _ => self.y,
        };
        self.apply_cmp_op(register, bus, addr_mode)
    }

    /// `LDA`, `LDX` and `LDY`: load the register that the instruction names.
    fn apply_load(&mut self, bus: &mut Bus, addr_mode: AddrMode, instruction: Instruction) -> (r: Result<(), NesError>)
        requires
            old(bus).wf(),
            old(self).flags_wf(),
            instruction == Instruction::Lda || instruction == Instruction::Ldx || instruction == Instruction::Ldy,
        ensures
            final(bus).wf(),
            final(self).flags_wf(),
            reaches(read_op(mach(*old(self), old(bus)@), addr_mode, instruction), r, *final(self), final(bus)@),
    {
        proof {
            reveal(read_op);
        }
        let value = match self.apply_ld_op(bus, addr_mode) {
            Ok(v) => v,
            Err(e) => return Err(e),
        };
        match instruction {
            Instruction::Lda => self.a = value,
            Instruction::Ldx => self.x = value,
            _ => self.y = value,
        }
        Ok(())
    }
}

impl Cpu {
    fn execute_read(&mut self, bus: &mut Bus, instruction: Instruction, addr_mode: AddrMode) -> (r: Result<(), NesError>)
        requires
            old(bus).wf(),
            old(self).flags_wf(),
            reads_operand(instruction),
        ensures
            final(bus).wf(),
            final(self).flags_wf(),
            reaches(execute_spec(mach(*old(self), old(bus)@), instruction, addr_mode), r, *final(self), final(bus)@),
    {
        proof {
            reveal(execute_spec);
        }
        match instruction {
            Instruction::Adc => self.apply_adc_op(bus, addr_mode),
            Instruction::And => self.apply_and_op(bus, addr_mode),
            Instruction::Bit => self.apply_bit_op(bus, addr_mode),
            Instruction::Cmp => self.apply_compare(bus, addr_mode, instruction),
            Instruction::Cpx => self.apply_compare(bus, addr_mode, instruction),
            Instruction::Cpy => self.apply_compare(bus, addr_mode, instruction),
            Instruction::Eor => self.apply_eor_op(bus, addr_mode),
            Instruction::Lda => self.apply_load(bus, addr_mode, instruction),
            Instruction::Ldx => self.apply_load(bus, addr_mode, instruction),
            Instruction::Ldy => self.apply_load(bus, addr_mode, instruction),
            Instruction::Ora => self.apply_ora_op(bus, addr_mode),
            Instruction::Sbc => self.apply_sbc_op(bus, addr_mode),
            Instruction::Lax => self.apply_lax_op(bus, addr_mode),
            Instruction::Dop | Instruction::Top => self.apply_discard_op(bus, addr_mode, instruction),
            _ => Ok(()),
        }
    }

    fn execute_modify(&mut self, bus: &mut Bus, instruction: Instruction, addr_mode: AddrMode) -> (r: Result<(), NesError>)
        requires
            old(bus).wf(),
            old(self).flags_wf(),
            modifies_operand(instruction),
        ensures
            final(bus).wf(),
            final(self).flags_wf(),
            reaches(execute_spec(mach(*old(self), old(bus)@), instruction, addr_mode), r, *final(self), final(bus)@),
    {
        proof {
            reveal(execute_spec);
        }
        match instruction {
            Instruction::Asl => if addr_mode == AddrMode::Accumulator {
                self.apply_asl_accumulator_op();
                Ok(())
            } else {
                self.apply_asl_op(bus, addr_mode)
            },
            Instruction::Lsr => if addr_mode == AddrMode::Accumulator {
                self.apply_lsr_accumulator_op();
                Ok(())
            } else {
                self.apply_lsr_op(bus, addr_mode)
            },
            Instruction::Rol => if addr_mode == AddrMode::Accumulator {
                self.apply_rol_accumulator_op();
                Ok(())
            } else {
                self.apply_rol_op(bus, addr_mode)
            },
            Instruction::Ror => if addr_mode == AddrMode::Accumulator {
                self.apply_ror_accumulator_op();
                Ok(())
            } else {
                self.apply_ror_op(bus, addr_mode)
            },
            Instruction::Inc => self.apply_inc_op(bus, addr_mode),
            Instruction::Dec => self.apply_dec_op(bus, addr_mode),
            Instruction::Dcp => self.apply_dcp_op(bus, addr_mode),
            Instruction::Isb => self.apply_isb_op(bus, addr_mode),
            Instruction::Slo => self.apply_slo_op(bus, addr_mode),
            Instruction::Sre => self.apply_sre_op(bus, addr_mode),
            Instruction::Rla => self.apply_rla_op(bus, addr_mode),
            Instruction::Rra => self.apply_rra_op(bus, addr_mode),
            _ => Ok(()),
        }
    }

    fn execute_flow(&mut self, bus: &mut Bus, instruction: Instruction, addr_mode: AddrMode) -> (r: Result<(), NesError>)
        requires
            old(bus).wf(),
            old(self).flags_wf(),
            is_control(instruction),
        ensures
            final(bus).wf(),
            final(self).flags_wf(),
            reaches(execute_spec(mach(*old(self), old(bus)@), instruction, addr_mode), r, *final(self), final(bus)@),
    {
        proof {
            reveal(execute_spec);
        }
        match instruction {
            Instruction::Bcc => {
                let taken = self.c == 0;
                self.apply_branch(bus, taken)
            },
            Instruction::Bcs => {
                let taken = self.c != 0;
                self.apply_branch(bus, taken)
            },
            Instruction::Beq => {
                let taken = self.z != 0;
                self.apply_branch(bus, taken)
            },
            Instruction::Bmi => {
                let taken = self.n != 0;
                self.apply_branch(bus, taken)
            },
            Instruction::Bne => {
                let taken = self.z == 0;
                self.apply_branch(bus, taken)
            },
            Instruction::Bpl => {
                let taken = self.n == 0;
                self.apply_branch(bus, taken)
            },
            Instruction::Bvc => {
                let taken = self.v == 0;
                self.apply_branch(bus, taken)
            },
            Instruction::Bvs => {
                let taken = self.v != 0;
                self.apply_branch(bus, taken)
            },
            Instruction::Brk => self.apply_brk_op(bus),
            Instruction::Jmp => self.apply_jmp_op(bus, addr_mode),
            Instruction::Jsr => self.apply_jsr_op(bus, addr_mode),
            Instruction::Rts => self.apply_rts_op(bus),
            Instruction::Rti => self.apply_rti_op(bus),
            Instruction::Pha => self.apply_pha_op(bus),
            Instruction::Php => self.apply_php_op(bus),
            Instruction::Pla => self.apply_pla_op(bus),
            Instruction::Plp => self.apply_plp_op(bus),
            Instruction::Sta => {
                let a = self.a;
                self.apply_store_op(bus, addr_mode, a)
            },
            Instruction::Stx => {
                let x = self.x;
                self.apply_store_op(bus, addr_mode, x)
            },
            Instruction::Sty => {
                let y = self.y;
                self.apply_store_op(bus, addr_mode, y)
            },
            Instruction::Sax => self.apply_sax_op(bus, addr_mode),
            _ => Ok(()),
        }
    }

    fn execute_implied(&mut self, bus: &mut Bus, instruction: Instruction, addr_mode: AddrMode) -> (r: Result<(), NesError>)
        requires
            old(bus).wf(),
            old(self).flags_wf(),
            is_implied(instruction),
        ensures
            final(bus).wf(),
            final(self).flags_wf(),
            reaches(execute_spec(mach(*old(self), old(bus)@), instruction, addr_mode), r, *final(self), final(bus)@),
    {
        proof {
            reveal(execute_spec);
        }
        match instruction {
            Instruction::Clc => {
                self.c = 0;
                Ok(())
            },
            Instruction::Cld => {
                self.d = 0;
                Ok(())
            },
            Instruction::Cli => {
                self.i = 0;
                Ok(())
            },
            Instruction::Clv => {
                self.v = 0;
                Ok(())
            },
            Instruction::Sec => {
                self.c = 1;
                Ok(())
            },
            Instruction::Sed => {
                self.d = 1;
                Ok(())
            },
            Instruction::Sei => {
                self.i = 1;
                Ok(())
            },
            Instruction::Dex => {
                self.apply_dex_op();
                Ok(())
            },
            Instruction::Dey => {
                self.apply_dey_op();
                Ok(())
            },
            Instruction::Inx => {
                self.apply_inx_op();
                Ok(())
            },
            Instruction::Iny => {
                self.apply_iny_op();
                Ok(())
            },
            Instruction::Tax => {
                let a = self.a;
                self.set_nz(a);
                self.x = a;
                Ok(())
            },
            Instruction::Tay => {
                let a = self.a;
                self.set_nz(a);
                self.y = a;
                Ok(())
            },
            Instruction::Tsx => {
                let sp = self.sp;
                self.set_nz(sp);
                self.x = sp;
                Ok(())
            },
            Instruction::Txa => {
                let x = self.x;
                self.set_nz(x);
                self.a = x;
                Ok(())
            },
            Instruction::Txs => {
                self.sp = self.x;
                Ok(())
            },
            Instruction::Tya => {
                let y = self.y;
                self.set_nz(y);
                self.a = y;
                Ok(())
            },
            Instruction::Nop => Ok(()),
            _ => Ok(()),
        }
    }

    fn execute(&mut self, bus: &mut Bus, instruction: Instruction, addr_mode: AddrMode) -> (r: Result<(), NesError>)
        requires
            old(bus).wf(),
            old(self).flags_wf(),
        ensures
            final(bus).wf(),
            final(self).flags_wf(),
            reaches(execute_spec(mach(*old(self), old(bus)@), instruction, addr_mode), r, *final(self), final(bus)@),
    {
        match instruction {
            Instruction::Adc | Instruction::And | Instruction::Bit | Instruction::Cmp | Instruction::Cpx | Instruction::Cpy | Instruction::Eor | Instruction::Lda | Instruction::Ldx | Instruction::Ldy | Instruction::Ora | Instruction::Sbc | Instruction::Lax | Instruction::Dop | Instruction::Top => self.execute_read(bus, instruction, addr_mode),
            Instruction::Asl | Instruction::Lsr | Instruction::Rol | Instruction::Ror | Instruction::Inc | Instruction::Dec | Instruction::Dcp | Instruction::Isb | Instruction::Slo | Instruction::Sre | Instruction::Rla | Instruction::Rra => self.execute_modify(bus, instruction, addr_mode),
            Instruction::Bcc | Instruction::Bcs | Instruction::Beq | Instruction::Bmi | Instruction::Bne | Instruction::Bpl | Instruction::Bvc | Instruction::Bvs | Instruction::Brk | Instruction::Jmp | Instruction::Jsr | Instruction::Rts | Instruction::Rti | Instruction::Pha | Instruction::Php | Instruction::Pla | Instruction::Plp | Instruction::Sta | Instruction::Stx | Instruction::Sty | Instruction::Sax => self.execute_flow(bus, instruction, addr_mode),
            Instruction::Clc | Instruction::Cld | Instruction::Cli | Instruction::Clv | Instruction::Sec | Instruction::Sed | Instruction::Sei | Instruction::Dex | Instruction::Dey | Instruction::Inx | Instruction::Iny | Instruction::Tax | Instruction::Tay | Instruction::Tsx | Instruction::Txa | Instruction::Txs | Instruction::Tya | Instruction::Nop => self.execute_implied(bus, instruction, addr_mode),
        }
    }
}

impl Cpu {
    /// Executes one instruction and returns the cycles it took: the base
    /// count of its opcode plus the cycles of page crossings and taken
    /// branches.
    pub fn step(&mut self, bus: &mut Bus) -> (r: Result<u8, NesError>)
        requires
            old(bus).wf(),
            old(self).flags_wf(),
        ensures
            final(bus).wf(),
            final(self).flags_wf(),
            yields(step_spec(mach(*old(self), old(bus)@)), r, *final(self), final(bus)@),
    {
        proof {
            reveal(step_spec);
        }
        let opcode = match self.fetch(bus) {
            Ok(v) => v,
            Err(e) => return Err(e),
        };
        let info = match decode(opcode) {
            Ok(i) => i,
            Err(e) => return Err(e),
        };
        self.extra_cycle = 0;
        match self.execute(bus, info.instruction, info.mode) {
            Ok(()) => {},
            Err(e) => return Err(e),
        }
        let extra: u16 = if pays_extra_cycles_of(info.instruction) {
            self.extra_cycle as u16
        } else {
            0
        };
        Ok((info.cycles as u16 + extra) as u8)
    }

    /// One round of the run loop: fetches an opcode and stops (`true`) at
    /// `BRK` without executing it; executes any other instruction.
    pub fn run_step(&mut self, bus: &mut Bus) -> (r: Result<bool, NesError>)
        requires
            old(bus).wf(),
            old(self).flags_wf(),
        ensures
            final(bus).wf(),
            final(self).flags_wf(),
            yields(run_step_spec(mach(*old(self), old(bus)@)), r, *final(self), final(bus)@),
    {
        proof {
            reveal(run_step_spec);
        }
        let opcode = match self.fetch(bus) {
            Ok(v) => v,
            Err(e) => return Err(e),
        };
        let info = match decode(opcode) {
            Ok(i) => i,
            Err(e) => return Err(e),
        };
        if info.instruction == Instruction::Brk {
            return Ok(true);
        }
        self.extra_cycle = 0;
        match self.execute(bus, info.instruction, info.mode) {
            Ok(()) => Ok(false),
            Err(e) => Err(e),
        }
    }

    /// Runs instructions until a `BRK` is fetched or one fails; the loop
    /// gives up after `u64::MAX` rounds, a bound no program reaches.
    pub fn run(&mut self, bus: &mut Bus) -> (r: Result<(), NesError>)
        requires
            old(bus).wf(),
            old(self).flags_wf(),
        ensures
            final(bus).wf(),
            final(self).flags_wf(),
            reaches(run_spec(mach(*old(self), old(bus)@), run_fuel()), r, *final(self), final(bus)@),
    {
        self.run_with_callback(bus, |_cpu: &Cpu, _bus: &Bus| {})
    }

    /// Runs as `run` does, handing the processor and the bus to `callback`
    /// before each round; the callback only looks at them.
    pub fn run_with_callback<F>(&mut self, bus: &mut Bus, callback: F) -> (r: Result<(), NesError>)
        where
            F: Fn(&Cpu, &Bus),
        requires
            old(bus).wf(),
            old(self).flags_wf(),
            forall|c: &Cpu, b: &Bus| #[trigger] callback.requires((c, b)),
        ensures
            final(bus).wf(),
            final(self).flags_wf(),
            reaches(run_spec(mach(*old(self), old(bus)@), run_fuel()), r, *final(self), final(bus)@),
            exists|seen: Seq<(Cpu, Bus)>|
                #[trigger] shown_rounds(callback, mach(*old(self), old(bus)@), seen, r, mach(*final(self), final(bus)@)),
    {
        let ghost start = mach(*self, bus@);
        let ghost mut seen: Seq<(Cpu, Bus)> = Seq::empty();
        proof {
            reveal(rounds_chain);
        }
        let mut fuel: u64 = u64::MAX;
        loop
            invariant
                bus.wf(),
                self.flags_wf(),
                start == mach(*old(self), old(bus)@),
                run_spec(start, run_fuel()) == run_spec(mach(*self, bus@), fuel as nat),
                forall|c: &Cpu, b: &Bus| #[trigger] callback.requires((c, b)),
                fuel + seen.len() == u64::MAX,
                rounds_chain(start, seen),
                seen.len() == 0 ==> mach(*self, bus@) == start,
                seen.len() > 0 ==> run_step_spec(mach(seen.last().0, seen.last().1@)) == Ok::<(Machine, bool), NesError>(
                    (mach(*self, bus@), false),
                ),
                forall|i: int| 0 <= i < seen.len() ==> callback.ensures((&(#[trigger] seen[i]).0, &seen[i].1), ()),
            decreases fuel,
        {
            if fuel == 0 {
                proof {
                    reveal(shown_rounds);
                    assert(shown_rounds(callback, start, seen, Ok(()), mach(*self, bus@)));
                }
                return Ok(());
            }
            callback(self, bus);
            proof {
                lemma_rounds_chain_push(start, seen, (*self, *bus));
                let before = seen;
                seen = seen.push((*self, *bus));
                assert(forall|i: int| 0 <= i < before.len() ==> seen[i] == before[i]);
            }
            match self.run_step(bus) {
                Ok(true) => {
                    proof {
                        reveal(shown_rounds);
                        assert(shown_rounds(callback, start, seen, Ok(()), mach(*self, bus@)));
                    }
                    return Ok(());
                },
                Ok(false) => {},
                Err(e) => {
                    proof {
                        reveal(shown_rounds);
                        assert(shown_rounds(callback, start, seen, Err(e), mach(*self, bus@)));
                    }
                    return Err(e);
                },
            }
            fuel = fuel - 1;
        }
    }

    /// Puts the processor in its power-on state: `sp = 0xFD`, status
    /// `0b0010_0100`, `pc` from the reset vector at `0xFFFC`. `A`, `X` and
    /// `Y` are left as they are.
    pub fn reset(&mut self, bus: &mut Bus) -> (r: Result<(), NesError>)
        requires
            old(bus).wf(),
        ensures
            final(bus).wf(),
            final(self).flags_wf(),
            reaches(reset_spec(mach(*old(self), old(bus)@)), r, *final(self), final(bus)@),
    {
        self.sp = 0xFD;
        self.set_status(0b0010_0100);
        match bus.read_u16(0xFFFC) {
            Ok(w) => {
                self.pc = w;
                Ok(())
            },
            Err(e) => Err(e),
        }
    }

    /// Copies `pgr` to `0x0200`, resets, starts at `0x0200` and runs until
    /// `BRK`.
    pub fn load_and_run(&mut self, bus: &mut Bus, pgr: &Vec<u8>) -> (r: Result<(), NesError>)
        requires
            old(bus).wf(),
            old(self).flags_wf(),
            pgr@.len() <= 0xFE00,
        ensures
            final(bus).wf(),
            final(self).flags_wf(),
            reaches(load_and_run_spec(mach(*old(self), old(bus)@), pgr@), r, *final(self), final(bus)@),
    {
        let ghost b0 = bus@;
        let mut i: usize = 0;
        while i < pgr.len()
            invariant
                i <= pgr@.len() <= 0xFE00,
                bus.wf(),
                *self == *old(self),
                self.flags_wf(),
                b0 == old(bus)@,
                load_spec(b0, 0x0200, pgr@.take(i as int)) == (bus@, Ok::<(), NesError>(())),
            decreases pgr@.len() - i,
        {
            proof {
                assert(pgr@.take(i + 1).drop_last() =~= pgr@.take(i as int));
                assert(pgr@.take(i + 1).last() == pgr@[i as int]);
                assert(((0x0200 + (i + 1) - 1) % 0x10000) as u16 == (0x0200 + i) as u16);
            }
            match bus.write(0x0200 + i as u16, pgr[i]) {
                Ok(()) => {},
                Err(e) => {
                    proof {
                        lemma_load_error_persists(b0, 0x0200, pgr@, i + 1, e);
                    }
                    return Err(e);
                },
            }
            i = i + 1;
        }
        proof {
            assert(pgr@.take(i as int) =~= pgr@);
        }
        match self.reset(bus) {
            Ok(()) => {},
            Err(e) => return Err(e),
        }
        self.pc = 0x0200;
        self.run(bus)
    }
}

} // verus!
