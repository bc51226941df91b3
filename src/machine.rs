use vstd::prelude::*;

use crate::alu::{
    adc, bit_test, compare, dec8, inc8, pack, rotl, rotr, sbc, shifted, shl, shr, sign_flag, unpack, with_nz,
};
use crate::bus::{bus_read, bus_read_u16, bus_wf, bus_write, next_address, BusModel};
use crate::cpu::Cpu;
use crate::error::NesError;
use crate::opcodes::{opcode_info, AddrMode, Instruction};

verus! {

/// The processor together with everything it reaches through the bus.
pub struct Machine {
    pub cpu: Cpu,
    pub bus: BusModel,
}

pub open spec fn mach(c: Cpu, b: BusModel) -> Machine {
    Machine { cpu: c, bus: b }
}

pub open spec fn with_cpu(m: Machine, c: Cpu) -> Machine {
    Machine { cpu: c, ..m }
}

/// An operation that gave `s` in the model returned `r` and left the
/// processor at `c` and the bus at `b`; after a failure nothing is said of
/// the state.
pub open spec fn yields<T>(s: Result<(Machine, T), NesError>, r: Result<T, NesError>, c: Cpu, b: BusModel) -> bool {
    match s {
        Ok((m, v)) => r == Ok::<T, NesError>(v) && c == m.cpu && b == m.bus,
        Err(e) => r == Err::<T, NesError>(e),
    }
}

/// As `yields`, for an operation with no result.
pub open spec fn reaches(s: Result<Machine, NesError>, r: Result<(), NesError>, c: Cpu, b: BusModel) -> bool {
    match s {
        Ok(m) => r == Ok::<(), NesError>(()) && c == m.cpu && b == m.bus,
        Err(e) => r == Err::<(), NesError>(e),
    }
}

pub open spec fn m_read(m: Machine, a: u16) -> Result<(Machine, u8), NesError> {
    let (b, r) = bus_read(m.bus, a);
    match r {
        Ok(v) => Ok((Machine { bus: b, ..m }, v)),
        Err(e) => Err(e),
    }
}

pub open spec fn m_write(m: Machine, a: u16, v: u8) -> Result<Machine, NesError> {
    let (b, r) = bus_write(m.bus, a, v);
    match r {
        Ok(_) => Ok(Machine { bus: b, ..m }),
        Err(e) => Err(e),
    }
}

/// Reads the byte at `pc` and moves `pc` past it.
pub open spec fn m_fetch(m: Machine) -> Result<(Machine, u8), NesError> {
    match m_read(m, m.cpu.pc) {
        Ok((m1, v)) => Ok((with_cpu(m1, Cpu { pc: next_address(m.cpu.pc), ..m1.cpu }), v)),
        Err(e) => Err(e),
    }
}

/// The little-endian word of bytes `lo` and `hi`.
pub open spec fn word(lo: u8, hi: u8) -> u16 {
    (hi * 256 + lo) as u16
}

pub open spec fn m_fetch_word(m: Machine) -> Result<(Machine, u16), NesError> {
    match m_fetch(m) {
        Ok((m1, lo)) => match m_fetch(m1) {
            Ok((m2, hi)) => Ok((m2, word(lo, hi))),
            Err(e) => Err(e),
        },
        Err(e) => Err(e),
    }
}

/// Reads a pointer whose low byte is at `lo_at` and whose high byte is at
/// `hi_at`.
pub open spec fn m_read_pointer(m: Machine, lo_at: u16, hi_at: u16) -> Result<(Machine, u16), NesError> {
    match m_read(m, lo_at) {
        Ok((m1, lo)) => match m_read(m1, hi_at) {
            Ok((m2, hi)) => Ok((m2, word(lo, hi))),
            Err(e) => Err(e),
        },
        Err(e) => Err(e),
    }
}

/// Where indirect `JMP` reads the high byte of its target: the byte after
/// the pointer, on the pointer's own page.
pub open spec fn indirect_high_pointer(p: u16) -> u16 {
    (p & 0xFF00) | (next_address(p) & 0x00FF)
}

/// Indirect `JMP` reads both bytes of its target on the pointer's page: the
/// high byte comes from the byte after the pointer within that page, so a
/// pointer at `0x30FF` takes its high byte from `0x3000`.
pub proof fn lemma_indirect_jump_page(p: u16)
    ensures
        indirect_high_pointer(p) / 256 == p / 256,
        indirect_high_pointer(p) % 256 == (p % 256 + 1) % 256,
        p % 256 == 0xFF ==> indirect_high_pointer(p) == p - 0xFF,
{
    assert((p & 0xFF00) | ((if p == 0xFFFF { 0u16 } else { (p + 1) as u16 }) & 0x00FF) == p - p % 256
        + (p % 256 + 1) % 256) by (bit_vector);
}

/// The zero-page address after `p`, wrapping within page zero.
pub open spec fn next_zero_page(p: u8) -> u16 {
    ((p + 1) % 256) as u16
}

/// The pointer of the zero-page indirect modes never leaves page zero: the
/// byte after `0xFF` is `0x00`.
pub proof fn lemma_zero_page_pointer_wraps(p: u8)
    ensures
        next_zero_page(p) <= 0xFF,
        p == 0xFF ==> next_zero_page(p) == 0,
        p < 0xFF ==> next_zero_page(p) == p + 1,
{
}

pub open spec fn offset_address(base: u16, i: u8) -> u16 {
    ((base + i) % 0x10000) as u16
}

pub open spec fn crossing_cycle(a: u16, b: u16) -> u8 {
    if a / 256 != b / 256 {
        1
    } else {
        0
    }
}

/// `base` indexed by `i`, with the extra cycle of a page crossing.
pub open spec fn indexed(m: Machine, base: u16, i: u8) -> (Machine, u16) {
    let a = offset_address(base, i);
    (with_cpu(m, Cpu { extra_cycle: crossing_cycle(base, a), ..m.cpu }), a)
}

/// The byte `off` read as a signed offset.
pub open spec fn signed(off: u8) -> int {
    if off >= 128 {
        off - 256
    } else {
        off as int
    }
}

/// A branch target: `pc` moved by the signed offset, within 16 bits.
pub open spec fn relative_target(pc: u16, off: u8) -> u16 {
    ((pc + signed(off)) % 0x10000) as u16
}

/// The operand address of an instruction in addressing mode `mode`, with the
/// program bytes it consumes and the pointer reads it makes. Accumulator
/// and implied instructions have none.
pub open spec fn operand_address(m: Machine, mode: AddrMode) -> Result<(Machine, u16), NesError> {
    match mode {
        AddrMode::Immediate => Ok((with_cpu(m, Cpu { pc: next_address(m.cpu.pc), ..m.cpu }), m.cpu.pc)),
        AddrMode::Absolute => m_fetch_word(m),
        AddrMode::XIndexedAbsolute => match m_fetch_word(m) {
            Ok((m1, base)) => Ok(indexed(m1, base, m1.cpu.x)),
            Err(e) => Err(e),
        },
        AddrMode::YIndexedAbsolute => match m_fetch_word(m) {
            Ok((m1, base)) => Ok(indexed(m1, base, m1.cpu.y)),
            Err(e) => Err(e),
        },
        AddrMode::AbsoluteIndirect => match m_fetch_word(m) {
            Ok((m1, p)) => m_read_pointer(m1, p, indirect_high_pointer(p)),
            Err(e) => Err(e),
        },
        AddrMode::ZeroPage => match m_fetch(m) {
            Ok((m1, v)) => Ok((m1, v as u16)),
            Err(e) => Err(e),
        },
        AddrMode::XIndexedZeroPage => match m_fetch(m) {
            Ok((m1, v)) => Ok((m1, ((v + m1.cpu.x) % 256) as u16)),
            Err(e) => Err(e),
        },
        AddrMode::YIndexedZeroPage => match m_fetch(m) {
            Ok((m1, v)) => Ok((m1, ((v + m1.cpu.y) % 256) as u16)),
            Err(e) => Err(e),
        },
        AddrMode::XIndexedZeroPageIndirect => match m_fetch(m) {
            Ok((m1, v)) => {
                let p = ((v + m1.cpu.x) % 256) as u8;
                m_read_pointer(m1, p as u16, next_zero_page(p))
            },
            Err(e) => Err(e),
        },
        AddrMode::ZeroPageIndirectYIndexed => match m_fetch(m) {
            Ok((m1, p)) => match m_read_pointer(m1, p as u16, next_zero_page(p)) {
                Ok((m2, base)) => Ok(indexed(m2, base, m2.cpu.y)),
                Err(e) => Err(e),
            },
            Err(e) => Err(e),
        },
        AddrMode::Relative => match m_fetch(m) {
            Ok((m1, v)) => Ok((m1, relative_target(m1.cpu.pc, v))),
            Err(e) => Err(e),
        },
        _ => Ok((m, 0)),
    }
}

/// Finding an operand moves `pc`, may set the extra cycle, and leaves the
/// other registers and the flags as they were.
pub proof fn lemma_operand_keeps_registers(m: Machine, mode: AddrMode)
    ensures
        match operand_address(m, mode) {
            Ok((m1, _)) => m1.cpu == Cpu { pc: m1.cpu.pc, extra_cycle: m1.cpu.extra_cycle, ..m.cpu },
            Err(_) => true,
        },
        match operand_at(m, mode) {
            Ok((m1, _)) => m1.cpu == Cpu { pc: m1.cpu.pc, extra_cycle: m1.cpu.extra_cycle, ..m.cpu },
            Err(_) => true,
        },
{
}

/// The operand address and the byte found there.
pub open spec fn operand_at(m: Machine, mode: AddrMode) -> Result<(Machine, (u16, u8)), NesError> {
    match operand_address(m, mode) {
        Ok((m1, a)) => match m_read(m1, a) {
            Ok((m2, v)) => Ok((m2, (a, v))),
            Err(e) => Err(e),
        },
        Err(e) => Err(e),
    }
}

pub open spec fn stack_address(sp: u8) -> u16 {
    (0x0100 + sp) as u16
}

/// Writes at `0x0100 + sp`, then moves `sp` down.
pub open spec fn push(m: Machine, v: u8) -> Result<Machine, NesError> {
    match m_write(m, stack_address(m.cpu.sp), v) {
        Ok(m1) => Ok(with_cpu(m1, Cpu { sp: ((m.cpu.sp - 1) % 256) as u8, ..m1.cpu })),
        Err(e) => Err(e),
    }
}

/// Moves `sp` up, then reads at `0x0100 + sp`.
pub open spec fn pop(m: Machine) -> Result<(Machine, u8), NesError> {
    let sp = ((m.cpu.sp + 1) % 256) as u8;
    m_read(with_cpu(m, Cpu { sp, ..m.cpu }), stack_address(sp))
}

/// A pull after a push gives back the pushed byte and leaves the processor,
/// its stack pointer included, as it was before the push.
pub proof fn lemma_push_pop(m: Machine, v: u8)
    requires
        bus_wf(m.bus),
    ensures
        push(m, v) is Ok,
        pop(push(m, v)->Ok_0) is Ok,
        pop(push(m, v)->Ok_0)->Ok_0.1 == v,
        pop(push(m, v)->Ok_0)->Ok_0.0.cpu == m.cpu,
{
    let sp = m.cpu.sp;
    assert(((0x0100 + sp) as u16) & 0x07FF == (0x0100 + sp) as u16) by (bit_vector);
}

/// Pushes the high byte of `w`, then its low byte.
pub open spec fn push_word(m: Machine, w: u16) -> Result<Machine, NesError> {
    match push(m, (w / 256) as u8) {
        Ok(m1) => push(m1, (w % 256) as u8),
        Err(e) => Err(e),
    }
}

/// Pops a low byte, then a high byte.
pub open spec fn pop_word(m: Machine) -> Result<(Machine, u16), NesError> {
    match pop(m) {
        Ok((m1, lo)) => match pop(m1) {
            Ok((m2, hi)) => Ok((m2, word(lo, hi))),
            Err(e) => Err(e),
        },
        Err(e) => Err(e),
    }
}

/// What an instruction that reads its operand does with it.
pub open spec fn read_effect(c: Cpu, instr: Instruction, v: u8) -> Cpu {
    match instr {
        Instruction::Adc => adc(c, v),
        Instruction::Sbc => sbc(c, v),
        Instruction::And => with_nz(Cpu { a: c.a & v, ..c }, c.a & v),
        Instruction::Ora => with_nz(Cpu { a: c.a | v, ..c }, c.a | v),
        Instruction::Eor => with_nz(Cpu { a: c.a ^ v, ..c }, c.a ^ v),
        Instruction::Bit => bit_test(c, v),
        Instruction::Cmp => compare(c, c.a, v),
        Instruction::Cpx => compare(c, c.x, v),
        Instruction::Cpy => compare(c, c.y, v),
        Instruction::Lda => with_nz(Cpu { a: v, ..c }, v),
        Instruction::Ldx => with_nz(Cpu { x: v, ..c }, v),
        Instruction::Ldy => with_nz(Cpu { y: v, ..c }, v),
        Instruction::Lax => with_nz(Cpu { a: v, x: v, ..c }, v),
        _ => c,
    }
}

/// Reads the operand and applies `read_effect`.
#[verifier::opaque]
pub open spec fn read_op(m: Machine, mode: AddrMode, instr: Instruction) -> Result<Machine, NesError> {
    match operand_at(m, mode) {
        Ok((m1, (_, v))) => Ok(with_cpu(m1, read_effect(m1.cpu, instr, v))),
        Err(e) => Err(e),
    }
}

/// The byte that a read-modify-write instruction writes back in place of `v`.
pub open spec fn modified(c: Cpu, instr: Instruction, v: u8) -> u8 {
    match instr {
        Instruction::Asl | Instruction::Slo => shl(v),
        Instruction::Lsr | Instruction::Sre => shr(v),
        Instruction::Rol | Instruction::Rla => rotl(v, c.c),
        Instruction::Ror | Instruction::Rra => rotr(v, c.c),
        Instruction::Inc | Instruction::Isb => inc8(v),
        _ => dec8(v),
    }
}

/// The processor after a read-modify-write instruction turned `v` into `r`.
pub open spec fn modify_effect(c: Cpu, instr: Instruction, v: u8, r: u8) -> Cpu {
    match instr {
        Instruction::Asl | Instruction::Rol => shifted(c, r, sign_flag(v)),
        Instruction::Lsr | Instruction::Ror => shifted(c, r, v % 2),
        Instruction::Inc | Instruction::Dec => with_nz(c, r),
        Instruction::Dcp => compare(c, c.a, r),
        Instruction::Isb => sbc(c, r),
        Instruction::Slo => shifted(Cpu { a: c.a | r, ..c }, c.a | r, sign_flag(v)),
        Instruction::Sre => shifted(Cpu { a: c.a ^ r, ..c }, c.a ^ r, v % 2),
        Instruction::Rla => shifted(Cpu { a: c.a & r, ..c }, c.a & r, sign_flag(v)),
        _ => adc(Cpu { c: v % 2, ..c }, r),
    }
}

/// Reads the operand, writes back its modified value, and updates the
/// processor.
#[verifier::opaque]
pub open spec fn modify_op(m: Machine, mode: AddrMode, instr: Instruction) -> Result<Machine, NesError> {
    match operand_at(m, mode) {
        Ok((m1, (a, v))) => {
            let r = modified(m1.cpu, instr, v);
            match m_write(m1, a, r) {
                Ok(m2) => Ok(with_cpu(m2, modify_effect(m1.cpu, instr, v, r))),
                Err(e) => Err(e),
            }
        },
        Err(e) => Err(e),
    }
}

/// A shift or rotation of the accumulator.
pub open spec fn accumulator_effect(c: Cpu, instr: Instruction) -> Cpu {
    let r = modified(c, instr, c.a);
    Cpu { a: r, ..modify_effect(c, instr, c.a, r) }
}

#[verifier::opaque]
pub open spec fn store_op(m: Machine, mode: AddrMode, v: u8) -> Result<Machine, NesError> {
    match operand_address(m, mode) {
        Ok((m1, a)) => m_write(m1, a, v),
        Err(e) => Err(e),
    }
}

/// A conditional branch: the offset byte is always consumed; a taken branch
/// costs one cycle, and one more when it lands on another page.
#[verifier::opaque]
pub open spec fn branch_op(m: Machine, taken: bool) -> Result<Machine, NesError> {
    match m_fetch(m) {
        Ok((m1, off)) => if taken {
            let t = relative_target(m1.cpu.pc, off);
            Ok(with_cpu(m1, Cpu { pc: t, extra_cycle: (1 + crossing_cycle(m1.cpu.pc, t)) as u8, ..m1.cpu }))
        } else {
            Ok(m1)
        },
        Err(e) => Err(e),
    }
}

/// A taken branch costs one cycle, and exactly one more when its target lies
/// on another page than the instruction that follows it; an untaken branch
/// only consumes its offset.
pub proof fn lemma_branch_cycles(m: Machine, taken: bool)
    ensures
        match (m_fetch(m), branch_op(m, taken)) {
            (Ok((m1, off)), Ok(m2)) => if taken {
                &&& m2.cpu.pc == relative_target(m1.cpu.pc, off)
                &&& m2.cpu.extra_cycle == (if m1.cpu.pc / 256 != m2.cpu.pc / 256 {
                    2u8
                } else {
                    1u8
                })
            } else {
                m2 == m1
            },
            (Err(e1), Err(e2)) => e1 == e2,
            _ => false,
        },
{
    reveal(branch_op);
}

/// `BRK`: skips the signature byte, pushes the return address and the
/// status with `B` set, sets `I`, and jumps through the vector at `0xFFFE`.
#[verifier::opaque]
pub open spec fn brk_op(m: Machine) -> Result<Machine, NesError> {
    let m1 = with_cpu(m, Cpu { pc: next_address(m.cpu.pc), ..m.cpu });
    match push_word(m1, m1.cpu.pc) {
        Ok(m2) => match push(m2, pack(m2.cpu) | 0x10) {
            Ok(m3) => {
                let (b, r) = bus_read_u16(m3.bus, 0xFFFE);
                match r {
                    Ok(t) => Ok(Machine { cpu: Cpu { i: 1, pc: t, ..m3.cpu }, bus: b }),
                    Err(e) => Err(e),
                }
            },
            Err(e) => Err(e),
        },
        Err(e) => Err(e),
    }
}

#[verifier::opaque]
pub open spec fn jmp_op(m: Machine, mode: AddrMode) -> Result<Machine, NesError> {
    match operand_address(m, mode) {
        Ok((m1, a)) => Ok(with_cpu(m1, Cpu { pc: a, ..m1.cpu })),
        Err(e) => Err(e),
    }
}

/// The address before `a`, wrapping at the bottom of the 16-bit space.
pub open spec fn previous_address(a: u16) -> u16 {
    if a == 0 {
        0xFFFF
    } else {
        (a - 1) as u16
    }
}

/// `JSR`: pushes the address of its own last byte and jumps.
#[verifier::opaque]
pub open spec fn jsr_op(m: Machine, mode: AddrMode) -> Result<Machine, NesError> {
    match operand_address(m, mode) {
        Ok((m1, a)) => match push_word(m1, previous_address(m1.cpu.pc)) {
            Ok(m2) => Ok(with_cpu(m2, Cpu { pc: a, ..m2.cpu })),
            Err(e) => Err(e),
        },
        Err(e) => Err(e),
    }
}

#[verifier::opaque]
pub open spec fn rts_op(m: Machine) -> Result<Machine, NesError> {
    match pop_word(m) {
        Ok((m1, w)) => Ok(with_cpu(m1, Cpu { pc: next_address(w), ..m1.cpu })),
        Err(e) => Err(e),
    }
}

#[verifier::opaque]
pub open spec fn rti_op(m: Machine) -> Result<Machine, NesError> {
    match pop(m) {
        Ok((m1, p)) => match pop_word(m1) {
            Ok((m2, w)) => Ok(with_cpu(m2, unpack(Cpu { pc: w, ..m2.cpu }, p))),
            Err(e) => Err(e),
        },
        Err(e) => Err(e),
    }
}

#[verifier::opaque]
pub open spec fn pla_op(m: Machine) -> Result<Machine, NesError> {
    match pop(m) {
        Ok((m1, v)) => Ok(with_cpu(m1, with_nz(Cpu { a: v, ..m1.cpu }, v))),
        Err(e) => Err(e),
    }
}

/// `PLP`: the pulled status with its `B` bit cleared.
#[verifier::opaque]
pub open spec fn plp_op(m: Machine) -> Result<Machine, NesError> {
    match pop(m) {
        Ok((m1, p)) => Ok(with_cpu(m1, unpack(m1.cpu, p & 0xEF))),
        Err(e) => Err(e),
    }
}

/// What the instructions without operand do to the registers.
pub open spec fn implied_effect(c: Cpu, instr: Instruction) -> Cpu {
    match instr {
        Instruction::Clc => Cpu { c: 0, ..c },
        Instruction::Cld => Cpu { d: 0, ..c },
        Instruction::Cli => Cpu { i: 0, ..c },
        Instruction::Clv => Cpu { v: 0, ..c },
        Instruction::Sec => Cpu { c: 1, ..c },
        Instruction::Sed => Cpu { d: 1, ..c },
        Instruction::Sei => Cpu { i: 1, ..c },
        Instruction::Dex => with_nz(Cpu { x: dec8(c.x), ..c }, dec8(c.x)),
        Instruction::Dey => with_nz(Cpu { y: dec8(c.y), ..c }, dec8(c.y)),
        Instruction::Inx => with_nz(Cpu { x: inc8(c.x), ..c }, inc8(c.x)),
        Instruction::Iny => with_nz(Cpu { y: inc8(c.y), ..c }, inc8(c.y)),
        Instruction::Tax => with_nz(Cpu { x: c.a, ..c }, c.a),
        Instruction::Tay => with_nz(Cpu { y: c.a, ..c }, c.a),
        Instruction::Tsx => with_nz(Cpu { x: c.sp, ..c }, c.sp),
        Instruction::Txa => with_nz(Cpu { a: c.x, ..c }, c.x),
        Instruction::Tya => with_nz(Cpu { a: c.y, ..c }, c.y),
        Instruction::Txs => Cpu { sp: c.x, ..c },
        _ => c,
    }
}

/// Instructions that read their operand and update registers.
pub open spec fn reads_operand(i: Instruction) -> bool {
    match i {
        Instruction::Adc | Instruction::And | Instruction::Bit | Instruction::Cmp | Instruction::Cpx | Instruction::Cpy | Instruction::Eor | Instruction::Lda | Instruction::Ldx | Instruction::Ldy | Instruction::Ora | Instruction::Sbc | Instruction::Lax | Instruction::Dop | Instruction::Top => true,
        _ => false,
    }
}

/// Shifts, rotations, increments and decrements, on the accumulator or in memory.
pub open spec fn modifies_operand(i: Instruction) -> bool {
    match i {
        Instruction::Asl | Instruction::Lsr | Instruction::Rol | Instruction::Ror | Instruction::Inc | Instruction::Dec | Instruction::Dcp | Instruction::Isb | Instruction::Slo | Instruction::Sre | Instruction::Rla | Instruction::Rra => true,
        _ => false,
    }
}

/// Branches, jumps, stack operations and stores.
pub open spec fn is_control(i: Instruction) -> bool {
    match i {
        Instruction::Bcc | Instruction::Bcs | Instruction::Beq | Instruction::Bmi | Instruction::Bne | Instruction::Bpl | Instruction::Bvc | Instruction::Bvs | Instruction::Brk | Instruction::Jmp | Instruction::Jsr | Instruction::Rts | Instruction::Rti | Instruction::Pha | Instruction::Php | Instruction::Pla | Instruction::Plp | Instruction::Sta | Instruction::Stx | Instruction::Sty | Instruction::Sax => true,
        _ => false,
    }
}

/// Instructions on registers and flags alone.
pub open spec fn is_implied(i: Instruction) -> bool {
    match i {
        Instruction::Clc | Instruction::Cld | Instruction::Cli | Instruction::Clv | Instruction::Sec | Instruction::Sed | Instruction::Sei | Instruction::Dex | Instruction::Dey | Instruction::Inx | Instruction::Iny | Instruction::Tax | Instruction::Tay | Instruction::Tsx | Instruction::Txa | Instruction::Txs | Instruction::Tya | Instruction::Nop => true,
        _ => false,
    }
}

pub open spec fn is_branch(i: Instruction) -> bool {
    match i {
        Instruction::Bcc | Instruction::Bcs | Instruction::Beq | Instruction::Bmi | Instruction::Bne
        | Instruction::Bpl | Instruction::Bvc | Instruction::Bvs => true,
        _ => false,
    }
}

/// The instructions whose cycle count grows when the operand address
/// crosses a page or a branch is taken: those that only read their operand,
/// and the branches. Stores and read-modify-write instructions already count
/// the indexing cycle in their base count.
pub open spec fn pays_extra_cycles(i: Instruction) -> bool {
    reads_operand(i) || is_branch(i)
}

/// What an instruction does, once its opcode has been fetched.
#[verifier::opaque]
pub open spec fn execute_spec(m: Machine, instr: Instruction, mode: AddrMode) -> Result<Machine, NesError> {
    let c = m.cpu;
    match instr {
        Instruction::Adc | Instruction::Sbc | Instruction::And | Instruction::Ora | Instruction::Eor
        | Instruction::Bit | Instruction::Cmp | Instruction::Cpx | Instruction::Cpy | Instruction::Lda
        | Instruction::Ldx | Instruction::Ldy | Instruction::Lax | Instruction::Dop | Instruction::Top => read_op(m, mode, instr),
        Instruction::Asl | Instruction::Lsr | Instruction::Rol | Instruction::Ror => if mode
            == AddrMode::Accumulator {
            Ok(with_cpu(m, accumulator_effect(c, instr)))
        } else {
            modify_op(m, mode, instr)
        },
        Instruction::Inc | Instruction::Dec | Instruction::Dcp | Instruction::Isb | Instruction::Slo
        | Instruction::Sre | Instruction::Rla | Instruction::Rra => modify_op(m, mode, instr),
        Instruction::Sta => store_op(m, mode, c.a),
        Instruction::Stx => store_op(m, mode, c.x),
        Instruction::Sty => store_op(m, mode, c.y),
        Instruction::Sax => store_op(m, mode, c.a & c.x),
        Instruction::Bcc => branch_op(m, c.c == 0),
        Instruction::Bcs => branch_op(m, c.c != 0),
        Instruction::Beq => branch_op(m, c.z != 0),
        Instruction::Bne => branch_op(m, c.z == 0),
        Instruction::Bmi => branch_op(m, c.n != 0),
        Instruction::Bpl => branch_op(m, c.n == 0),
        Instruction::Bvc => branch_op(m, c.v == 0),
        Instruction::Bvs => branch_op(m, c.v != 0),
        Instruction::Brk => brk_op(m),
        Instruction::Jmp => jmp_op(m, mode),
        Instruction::Jsr => jsr_op(m, mode),
        Instruction::Rts => rts_op(m),
        Instruction::Rti => rti_op(m),
        Instruction::Pha => push(m, c.a),
        Instruction::Php => push(m, pack(c) | 0x10),
        Instruction::Pla => pla_op(m),
        Instruction::Plp => plp_op(m),
        _ => Ok(with_cpu(m, implied_effect(c, instr))),
    }
}

/// One instruction: fetch, look up, execute; the result is the cycle count,
/// the base count of the opcode plus, where the instruction pays them, the
/// extra cycles.
#[verifier::opaque]
pub open spec fn step_spec(m: Machine) -> Result<(Machine, u8), NesError> {
    match m_fetch(m) {
        Ok((m1, op)) => match opcode_info(op) {
            Some(info) => match execute_spec(
                with_cpu(m1, Cpu { extra_cycle: 0, ..m1.cpu }),
                info.instruction,
                info.mode,
            ) {
                Ok(m2) => Ok(
                    (
                        m2,
                        (info.cycles + if pays_extra_cycles(info.instruction) {
                            m2.cpu.extra_cycle
                        } else {
                            0
                        }) as u8,
                    ),
                ),
                Err(e) => Err(e),
            },
            None => Err(NesError::UnknownOpcode(op)),
        },
        Err(e) => Err(e),
    }
}

/// One round of the run loop: fetch and look up an opcode; stop (`true`)
/// at `BRK`, else execute it.
#[verifier::opaque]
pub open spec fn run_step_spec(m: Machine) -> Result<(Machine, bool), NesError> {
    match m_fetch(m) {
        Ok((m1, op)) => match opcode_info(op) {
            Some(info) => if info.instruction == Instruction::Brk {
                Ok((m1, true))
            } else {
                match execute_spec(
                    with_cpu(m1, Cpu { extra_cycle: 0, ..m1.cpu }),
                    info.instruction,
                    info.mode,
                ) {
                    Ok(m2) => Ok((m2, false)),
                    Err(e) => Err(e),
                }
            },
            None => Err(NesError::UnknownOpcode(op)),
        },
        Err(e) => Err(e),
    }
}

/// The run loop for at most `fuel` rounds.
pub open spec fn run_spec(m: Machine, fuel: nat) -> Result<Machine, NesError>
    decreases fuel,
{
    if fuel == 0 {
        Ok(m)
    } else {
        match run_step_spec(m) {
            Ok((m1, true)) => Ok(m1),
            Ok((m1, false)) => run_spec(m1, (fuel - 1) as nat),
            Err(e) => Err(e),
        }
    }
}

/// Reset: `sp` to `0xFD`, status to `0b0010_0100`, `pc` from the vector at
/// `0xFFFC`.
pub open spec fn reset_spec(m: Machine) -> Result<Machine, NesError> {
    let c = unpack(Cpu { sp: 0xFD, ..m.cpu }, 0x24);
    let (b, r) = bus_read_u16(m.bus, 0xFFFC);
    match r {
        Ok(w) => Ok(Machine { cpu: Cpu { pc: w, ..c }, bus: b }),
        Err(e) => Err(e),
    }
}

/// Writes the bytes of `s` one after the other from address `start` on.
pub open spec fn load_spec(b: BusModel, start: u16, s: Seq<u8>) -> (BusModel, Result<(), NesError>)
    decreases s.len(),
{
    if s.len() == 0 {
        (b, Ok(()))
    } else {
        let (b1, r) = load_spec(b, start, s.drop_last());
        match r {
            Ok(_) => bus_write(b1, ((start + s.len() - 1) % 0x10000) as u16, s.last()),
            Err(e) => (b1, Err(e)),
        }
    }
}

/// Once a write of a program has failed, writing more bytes after it fails
/// with the same error.
pub proof fn lemma_load_error_persists(b: BusModel, start: u16, s: Seq<u8>, n: int, e: NesError)
    requires
        0 <= n <= s.len(),
        load_spec(b, start, s.take(n)).1 == Err::<(), NesError>(e),
    ensures
        load_spec(b, start, s).1 == Err::<(), NesError>(e),
    decreases s.len(),
{
    if s.len() == n {
        assert(s.take(n) =~= s);
    } else {
        assert(s.drop_last().take(n) =~= s.take(n));
        lemma_load_error_persists(b, start, s.drop_last(), n, e);
    }
}

/// The longest run that the run loop makes.
pub open spec fn run_fuel() -> nat {
    u64::MAX as nat
}

/// A program copied to `0x0200`, the processor reset, `pc` set to `0x0200`,
/// and the run loop.
pub open spec fn load_and_run_spec(m: Machine, program: Seq<u8>) -> Result<Machine, NesError> {
    let (b, r) = load_spec(m.bus, 0x0200, program);
    match r {
        Ok(_) => match reset_spec(Machine { bus: b, ..m }) {
            Ok(m2) => run_spec(with_cpu(m2, Cpu { pc: 0x0200, ..m2.cpu }), run_fuel()),
            Err(e) => Err(e),
        },
        Err(e) => Err(e),
    }
}

} // verus!
