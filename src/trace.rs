use vstd::prelude::*;
use vstd::string::StringSliceAdditionalSpecFns;
use vstd::utf8::encode_utf8;

use crate::alu::pack;
use crate::bus::{bus_peek, next_address, Bus, BusModel};
use crate::cpu::{next_adress, offset_adress, relative_adress, Cpu};
use crate::error::NesError;
use crate::machine::{
    indirect_high_pointer, next_zero_page, offset_address, relative_target, word,
};
use crate::opcodes::{decode, mnemonic_text, opcode_info, AddrMode, Instruction, OpInfo};

verus! {

/// What a trace line shows of the instruction at `pc`, read without side
/// effects and without moving the processor.
pub struct TraceLine {
    pub pc: u16,
    /// The opcode and its operand bytes.
    pub bytes: Vec<u8>,
    pub info: OpInfo,
    /// Whether the opcode is one of the undocumented ones.
    pub undocumented: bool,
    /// The pointer that an indirect mode goes through: the zero-page pointer
    /// of `(zp,X)`, the base address of `(zp),Y`, the pointer of `JMP (abs)`.
    pub pointer: u16,
    /// The operand address, when it can be found without side effects.
    pub address: Option<u16>,
    /// The byte that the instruction reads at its operand address.
    pub value: Option<u8>,
    pub a: u8,
    pub x: u8,
    pub y: u8,
    pub p: u8,
    pub sp: u8,
}

pub open spec fn is_undocumented(opcode: u8, instr: Instruction) -> bool {
    match instr {
        Instruction::Dop | Instruction::Top | Instruction::Lax | Instruction::Sax | Instruction::Dcp
        | Instruction::Isb | Instruction::Slo | Instruction::Rla | Instruction::Sre | Instruction::Rra => true,
        _ => opcode == 0x1A || opcode == 0x3A || opcode == 0x5A || opcode == 0x7A || opcode == 0xDA
            || opcode == 0xFA || opcode == 0xEB,
    }
}

pub open spec fn peek_word(b: BusModel, lo_at: u16, hi_at: u16) -> Option<u16> {
    match (bus_peek(b, lo_at), bus_peek(b, hi_at)) {
        (Some(lo), Some(hi)) => Some(word(lo, hi)),
        _ => None,
    }
}

/// The pointer and the operand address of an instruction at `pc` whose
/// operand bytes are `lo` and `hi`.
pub open spec fn trace_operand(c: Cpu, b: BusModel, mode: AddrMode, lo: u8, hi: u8) -> (u16, Option<u16>) {
    let pc = c.pc;
    match mode {
        AddrMode::Immediate => (0, Some(next_address(pc))),
        AddrMode::Absolute => (0, Some(word(lo, hi))),
        AddrMode::XIndexedAbsolute => (0, Some(offset_address(word(lo, hi), c.x))),
        AddrMode::YIndexedAbsolute => (0, Some(offset_address(word(lo, hi), c.y))),
        AddrMode::AbsoluteIndirect => (
            word(lo, hi),
            peek_word(b, word(lo, hi), indirect_high_pointer(word(lo, hi))),
        ),
        AddrMode::ZeroPage => (0, Some(lo as u16)),
        AddrMode::XIndexedZeroPage => (0, Some(((lo + c.x) % 256) as u16)),
        AddrMode::YIndexedZeroPage => (0, Some(((lo + c.y) % 256) as u16)),
        AddrMode::XIndexedZeroPageIndirect => {
            let p = ((lo + c.x) % 256) as u8;
            (p as u16, peek_word(b, p as u16, next_zero_page(p)))
        },
        AddrMode::ZeroPageIndirectYIndexed => match peek_word(b, lo as u16, next_zero_page(lo)) {
            Some(base) => (base, Some(offset_address(base, c.y))),
            None => (0, None),
        },
        AddrMode::Relative => (0, Some(relative_target(next_address(next_address(pc)), lo))),
        _ => (0, None),
    }
}

/// Whether the trace shows the byte at the operand address: not for
/// jumps, branches, immediates and instructions without a memory operand.
pub open spec fn shows_value(info: OpInfo) -> bool {
    info.instruction != Instruction::Jmp && info.instruction != Instruction::Jsr && match info.mode {
        AddrMode::Immediate | AddrMode::Relative | AddrMode::AbsoluteIndirect | AddrMode::Accumulator
        | AddrMode::Implied => false,
        _ => true,
    }
}

fn peek_or_fail(bus: &Bus, a: u16) -> (r: Result<u8, NesError>)
    requires
        bus.wf(),
    ensures
        match bus_peek(bus@, a) {
            Some(v) => r == Ok::<u8, NesError>(v),
            None => r == Err::<u8, NesError>(NesError::UnmappedAccess(a)),
        },
{
    match bus.peek(a) {
        Some(v) => Ok(v),
        None => Err(NesError::UnmappedAccess(a)),
    }
}

fn peek_pointer(bus: &Bus, lo_at: u16, hi_at: u16) -> (r: Option<u16>)
    requires
        bus.wf(),
    ensures
        r == peek_word(bus@, lo_at, hi_at),
{
    match (bus.peek(lo_at), bus.peek(hi_at)) {
        (Some(lo), Some(hi)) => Some(hi as u16 * 256 + lo as u16),
        _ => None,
    }
}

/// Decodes the instruction at `pc` for a trace line. Nothing is read through
/// the PPU and the processor does not move.
pub fn trace_line(cpu: &Cpu, bus: &Bus) -> (r: Result<TraceLine, NesError>)
    requires
        bus.wf(),
    ensures
        match bus_peek(bus@, cpu.pc) {
            None => r == Err::<TraceLine, NesError>(NesError::UnmappedAccess(cpu.pc)),
            Some(op) => match opcode_info(op) {
                None => r == Err::<TraceLine, NesError>(NesError::UnknownOpcode(op)),
                Some(info) => if info.length > 1 && bus_peek(bus@, offset_address(cpu.pc, 1)) is None {
                    r == Err::<TraceLine, NesError>(NesError::UnmappedAccess(offset_address(cpu.pc, 1)))
                } else if info.length > 2 && bus_peek(bus@, offset_address(cpu.pc, 2)) is None {
                    r == Err::<TraceLine, NesError>(NesError::UnmappedAccess(offset_address(cpu.pc, 2)))
                } else {
                    r is Ok && {
                        let t = r->Ok_0;
                        &&& t.pc == cpu.pc
                        &&& t.info == info
                        &&& t.undocumented == is_undocumented(op, info.instruction)
                        &&& t.bytes@.len() == info.length
                        &&& t.bytes@[0] == op
                        &&& forall|i: int|
                            1 <= i < info.length ==> bus_peek(bus@, offset_address(cpu.pc, i as u8)) == Some(
                                #[trigger] t.bytes@[i],
                            )
                        &&& {
                            let lo = if info.length > 1 { t.bytes@[1] } else { 0u8 };
                            let hi = if info.length > 2 { t.bytes@[2] } else { 0u8 };
                            let (pointer, address) = trace_operand(*cpu, bus@, info.mode, lo, hi);
                            &&& t.pointer == pointer
                            &&& t.address == address
                            &&& t.value == if shows_value(info) {
                                match address {
                                    Some(a) => bus_peek(bus@, a),
                                    None => None,
                                }
                            } else {
                                None
                            }
                        }
                        &&& t.a == cpu.a && t.x == cpu.x && t.y == cpu.y && t.sp == cpu.sp
                        &&& t.p == pack(*cpu)
                    }
                },
            },
        },
{
    let pc = cpu.pc;
    let opcode = match peek_or_fail(bus, pc) {
        Ok(v) => v,
        Err(e) => return Err(e),
    };
    let info = match decode(opcode) {
        Ok(i) => i,
        Err(e) => return Err(e),
    };
    let mut bytes: Vec<u8> = Vec::new();
    bytes.push(opcode);
    let mut lo: u8 = 0;
    let mut hi: u8 = 0;
    if info.length > 1 {
        let at = offset_adress(pc, 1);
        lo = match peek_or_fail(bus, at) {
            Ok(v) => v,
            Err(e) => return Err(e),
        };
        bytes.push(lo);
    }
    if info.length > 2 {
        let at = offset_adress(pc, 2);
        hi = match peek_or_fail(bus, at) {
            Ok(v) => v,
            Err(e) => return Err(e),
        };
        bytes.push(hi);
    }
    let (pointer, address) = trace_operand_of(cpu, bus, info.mode, lo, hi);
    let value = if shows_value_of(info) {
        match address {
            Some(a) => bus.peek(a),
            None => None,
        }
    } else {
        None
    };
    let undocumented = is_undocumented_opcode(opcode, info.instruction);
    Ok(
        TraceLine {
            pc,
            bytes,
            info,
            undocumented,
            pointer,
            address,
            value,
            a: cpu.a,
            x: cpu.x,
            y: cpu.y,
            p: cpu.get_status(),
            sp: cpu.sp,
        },
    )
}

fn trace_operand_of(cpu: &Cpu, bus: &Bus, mode: AddrMode, lo: u8, hi: u8) -> (r: (u16, Option<u16>))
    requires
        bus.wf(),
    ensures
        r == trace_operand(*cpu, bus@, mode, lo, hi),
{
    let pc = cpu.pc;
    let arg: u16 = hi as u16 * 256 + lo as u16;
    match mode {
        AddrMode::Immediate => (0, Some(next_adress(pc))),
        AddrMode::Absolute => (0, Some(arg)),
        AddrMode::XIndexedAbsolute => (0, Some(offset_adress(arg, cpu.x))),
        AddrMode::YIndexedAbsolute => (0, Some(offset_adress(arg, cpu.y))),
        AddrMode::AbsoluteIndirect => {
            let high_at = (arg & 0xFF00) | (next_adress(arg) & 0x00FF);
            (arg, peek_pointer(bus, arg, high_at))
        },
        AddrMode::ZeroPage => (0, Some(lo as u16)),
        AddrMode::XIndexedZeroPage => (0, Some(((lo as u16 + cpu.x as u16) % 256) as u16)),
        AddrMode::YIndexedZeroPage => (0, Some(((lo as u16 + cpu.y as u16) % 256) as u16)),
        AddrMode::XIndexedZeroPageIndirect => {
            let p: u8 = ((lo as u16 + cpu.x as u16) % 256) as u8;
            (p as u16, peek_pointer(bus, p as u16, ((p as u16 + 1) % 256) as u16))
        },
        AddrMode::ZeroPageIndirectYIndexed => match peek_pointer(
            bus,
            lo as u16,
            ((lo as u16 + 1) % 256) as u16,
        ) {
            Some(base) => (base, Some(offset_adress(base, cpu.y))),
            None => (0, None),
        },
        AddrMode::Relative => (0, Some(relative_adress(next_adress(next_adress(pc)), lo))),
        _ => (0, None),
    }
}

fn shows_value_of(info: OpInfo) -> (r: bool)
    ensures
        r == shows_value(info),
{
    info.instruction != Instruction::Jmp && info.instruction != Instruction::Jsr && match info.mode {
        AddrMode::Immediate | AddrMode::Relative | AddrMode::AbsoluteIndirect | AddrMode::Accumulator
        | AddrMode::Implied => false,
        _ => true,
    }
}

fn is_undocumented_opcode(opcode: u8, instruction: Instruction) -> (r: bool)
    ensures
        r == is_undocumented(opcode, instruction),
{
    match instruction {
        Instruction::Dop | Instruction::Top | Instruction::Lax | Instruction::Sax | Instruction::Dcp
        | Instruction::Isb | Instruction::Slo | Instruction::Rla | Instruction::Sre | Instruction::Rra => true,
        _ => opcode == 0x1A || opcode == 0x3A || opcode == 0x5A || opcode == 0x7A || opcode == 0xDA
            || opcode == 0xFA || opcode == 0xEB,
    }
}

/// The upper-case hexadecimal digit of `d`, below 16, in ASCII.
pub open spec fn hex_digit(d: u8) -> u8 {
    if d < 10 {
        (0x30 + d) as u8
    } else {
        (0x37 + d) as u8
    }
}

/// Two hexadecimal digits of `b`.
pub open spec fn hex2(b: u8) -> Seq<u8> {
    seq![hex_digit(b / 16), hex_digit(b % 16)]
}

/// Four hexadecimal digits of `w`.
pub open spec fn hex4(w: u16) -> Seq<u8> {
    hex2((w / 256) as u8) + hex2((w % 256) as u8)
}

/// `s` followed by spaces up to `width` bytes; a longer `s` stays whole.
pub open spec fn padded(s: Seq<u8>, width: nat) -> Seq<u8> {
    if s.len() >= width {
        s
    } else {
        s + Seq::new((width - s.len()) as nat, |i: int| 0x20u8)
    }
}

/// A byte in hexadecimal, or `??` where it could not be read.
pub open spec fn byte_text(v: Option<u8>) -> Seq<u8> {
    match v {
        Some(b) => hex2(b),
        None => "??".spec_bytes(),
    }
}

/// An address in hexadecimal, or `????` where it could not be found.
pub open spec fn word_text(v: Option<u16>) -> Seq<u8> {
    match v {
        Some(w) => hex4(w),
        None => "????".spec_bytes(),
    }
}

/// The low byte of a zero-page address in hexadecimal.
pub open spec fn low_text(v: Option<u16>) -> Seq<u8> {
    match v {
        Some(w) => hex2((w % 256) as u8),
        None => "??".spec_bytes(),
    }
}

/// The instruction bytes in hexadecimal, separated by spaces.
pub open spec fn bytes_text(b: Seq<u8>) -> Seq<u8>
    decreases b.len(),
{
    if b.len() == 0 {
        Seq::empty()
    } else if b.len() == 1 {
        hex2(b[0])
    } else {
        bytes_text(b.drop_last()) + " ".spec_bytes() + hex2(b.last())
    }
}

/// The operand column: one template for each addressing mode.
pub open spec fn operand_text(
    info: OpInfo,
    lo: u8,
    hi: u8,
    pointer: u16,
    address: Option<u16>,
    value: Option<u8>,
) -> Seq<u8> {
    let arg = word(lo, hi);
    match info.mode {
        AddrMode::Implied => Seq::empty(),
        AddrMode::Accumulator => "A".spec_bytes(),
        AddrMode::Immediate => "#$".spec_bytes() + hex2(lo),
        AddrMode::ZeroPage => "$".spec_bytes() + hex2(lo) + " = ".spec_bytes() + byte_text(value),
        AddrMode::XIndexedZeroPage => "$".spec_bytes() + hex2(lo) + ",X @ ".spec_bytes() + low_text(address)
            + " = ".spec_bytes() + byte_text(value),
        AddrMode::YIndexedZeroPage => "$".spec_bytes() + hex2(lo) + ",Y @ ".spec_bytes() + low_text(address)
            + " = ".spec_bytes() + byte_text(value),
        AddrMode::XIndexedZeroPageIndirect => "($".spec_bytes() + hex2(lo) + ",X) @ ".spec_bytes() + hex2(
            (pointer % 256) as u8,
        ) + " = ".spec_bytes() + word_text(address) + " = ".spec_bytes() + byte_text(value),
        AddrMode::ZeroPageIndirectYIndexed => "($".spec_bytes() + hex2(lo) + "),Y = ".spec_bytes() + hex4(pointer)
            + " @ ".spec_bytes() + word_text(address) + " = ".spec_bytes() + byte_text(value),
        AddrMode::Relative => "$".spec_bytes() + word_text(address),
        AddrMode::Absolute => if info.instruction == Instruction::Jmp || info.instruction == Instruction::Jsr {
            "$".spec_bytes() + hex4(arg)
        } else {
            "$".spec_bytes() + hex4(arg) + " = ".spec_bytes() + byte_text(value)
        },
        AddrMode::XIndexedAbsolute => "$".spec_bytes() + hex4(arg) + ",X @ ".spec_bytes() + word_text(address)
            + " = ".spec_bytes() + byte_text(value),
        AddrMode::YIndexedAbsolute => "$".spec_bytes() + hex4(arg) + ",Y @ ".spec_bytes() + word_text(address)
            + " = ".spec_bytes() + byte_text(value),
        AddrMode::AbsoluteIndirect => "($".spec_bytes() + hex4(arg) + ") = ".spec_bytes() + word_text(address),
    }
}

/// The assembler column: the undocumented mark, the mnemonic, the operand.
pub open spec fn disassembly_text(
    info: OpInfo,
    undocumented: bool,
    lo: u8,
    hi: u8,
    pointer: u16,
    address: Option<u16>,
    value: Option<u8>,
) -> Seq<u8> {
    (if undocumented {
        "*".spec_bytes()
    } else {
        " ".spec_bytes()
    }) + encode_utf8(mnemonic_text(info.instruction)) + " ".spec_bytes() + operand_text(
        info,
        lo,
        hi,
        pointer,
        address,
        value,
    )
}

/// A line of the nestest log: address, instruction bytes, disassembly and
/// registers, in upper-case hexadecimal.
pub open spec fn trace_text(
    pc: u16,
    bytes: Seq<u8>,
    info: OpInfo,
    undocumented: bool,
    pointer: u16,
    address: Option<u16>,
    value: Option<u8>,
    a: u8,
    x: u8,
    y: u8,
    p: u8,
    sp: u8,
) -> Seq<u8> {
    let lo = if bytes.len() > 1 {
        bytes[1]
    } else {
        0u8
    };
    let hi = if bytes.len() > 2 {
        bytes[2]
    } else {
        0u8
    };
    hex4(pc) + "  ".spec_bytes() + padded(bytes_text(bytes), 8) + " ".spec_bytes() + padded(
        disassembly_text(info, undocumented, lo, hi, pointer, address, value),
        31,
    ) + "  A:".spec_bytes() + hex2(a) + " X:".spec_bytes() + hex2(x) + " Y:".spec_bytes() + hex2(y)
        + " P:".spec_bytes() + hex2(p) + " SP:".spec_bytes() + hex2(sp)
}

fn push_text(out: &mut Vec<u8>, s: &str)
    ensures
        final(out)@ == old(out)@ + s.spec_bytes(),
{
    let b = s.as_bytes();
    let mut i: usize = 0;
    while i < b.len()
        invariant
            i <= b@.len(),
            b@ == s.spec_bytes(),
            out@ == old(out)@ + b@.take(i as int),
        decreases b@.len() - i,
    {
        out.push(b[i]);
        i = i + 1;
        assert(out@ =~= old(out)@ + b@.take(i as int));
    }
    assert(b@.take(i as int) =~= b@);
}

fn push_all(out: &mut Vec<u8>, piece: &Vec<u8>)
    ensures
        final(out)@ == old(out)@ + piece@,
{
    let mut i: usize = 0;
    while i < piece.len()
        invariant
            i <= piece@.len(),
            out@ == old(out)@ + piece@.take(i as int),
        decreases piece@.len() - i,
    {
        out.push(piece[i]);
        i = i + 1;
        assert(out@ =~= old(out)@ + piece@.take(i as int));
    }
    assert(piece@.take(i as int) =~= piece@);
}

fn hex_digit_of(d: u8) -> (r: u8)
    requires
        d < 16,
    ensures
        r == hex_digit(d),
{
    if d < 10 {
        0x30 + d
    } else {
        0x37 + d
    }
}

fn push_hex2(out: &mut Vec<u8>, b: u8)
    ensures
        final(out)@ == old(out)@ + hex2(b),
{
    out.push(hex_digit_of(b / 16));
    out.push(hex_digit_of(b % 16));
    assert(out@ =~= old(out)@ + hex2(b));
}

fn push_hex4(out: &mut Vec<u8>, w: u16)
    ensures
        final(out)@ == old(out)@ + hex4(w),
{
    push_hex2(out, (w / 256) as u8);
    push_hex2(out, (w % 256) as u8);
    assert(out@ =~= old(out)@ + hex4(w));
}

fn push_padded(out: &mut Vec<u8>, piece: &Vec<u8>, width: usize)
    ensures
        final(out)@ == old(out)@ + padded(piece@, width as nat),
{
    push_all(out, piece);
    let ghost mid = out@;
    let mut n: usize = piece.len();
    while n < width
        invariant
            piece@.len() <= n <= width || (n == piece@.len() && n >= width),
            out@ == mid + Seq::new((n - piece@.len()) as nat, |i: int| 0x20u8),
        decreases width - n,
    {
        out.push(0x20);
        n = n + 1;
        assert(out@ =~= mid + Seq::new((n - piece@.len()) as nat, |i: int| 0x20u8));
    }
    assert(out@ =~= old(out)@ + padded(piece@, width as nat));
}

fn push_byte_text(out: &mut Vec<u8>, v: Option<u8>)
    ensures
        final(out)@ == old(out)@ + byte_text(v),
{
    match v {
        Some(b) => push_hex2(out, b),
        None => push_text(out, "??"),
    }
}

fn push_word_text(out: &mut Vec<u8>, v: Option<u16>)
    ensures
        final(out)@ == old(out)@ + word_text(v),
{
    match v {
        Some(w) => push_hex4(out, w),
        None => push_text(out, "????"),
    }
}

fn push_low_text(out: &mut Vec<u8>, v: Option<u16>)
    ensures
        final(out)@ == old(out)@ + low_text(v),
{
    match v {
        Some(w) => push_hex2(out, (w % 256) as u8),
        None => push_text(out, "??"),
    }
}

fn bytes_text_of(b: &Vec<u8>) -> (r: Vec<u8>)
    ensures
        r@ == bytes_text(b@),
{
    let mut r: Vec<u8> = Vec::new();
    if b.len() == 0 {
        assert(r@ =~= bytes_text(b@));
        return r;
    }
    push_hex2(&mut r, b[0]);
    assert(b@.take(1).drop_last() =~= Seq::<u8>::empty());
    assert(r@ =~= bytes_text(b@.take(1)));
    let mut i: usize = 1;
    while i < b.len()
        invariant
            1 <= i <= b@.len(),
            r@ == bytes_text(b@.take(i as int)),
        decreases b@.len() - i,
    {
        push_text(&mut r, " ");
        push_hex2(&mut r, b[i]);
        assert(b@.take(i + 1).drop_last() =~= b@.take(i as int));
        assert(b@.take(i + 1).last() == b@[i as int]);
        i = i + 1;
    }
    assert(b@.take(i as int) =~= b@);
    r
}

fn operand_text_of(info: OpInfo, lo: u8, hi: u8, pointer: u16, address: Option<u16>, value: Option<u8>) -> (r: Vec<u8>)
    ensures
        r@ == operand_text(info, lo, hi, pointer, address, value),
{
    let arg: u16 = hi as u16 * 256 + lo as u16;
    let mut r: Vec<u8> = Vec::new();
    match info.mode {
        AddrMode::Implied => {},
        AddrMode::Accumulator => push_text(&mut r, "A"),
        AddrMode::Immediate => {
            push_text(&mut r, "#$");
            push_hex2(&mut r, lo);
        },
        AddrMode::ZeroPage => {
            push_text(&mut r, "$");
            push_hex2(&mut r, lo);
            push_text(&mut r, " = ");
            push_byte_text(&mut r, value);
        },
        AddrMode::XIndexedZeroPage => {
            push_text(&mut r, "$");
            push_hex2(&mut r, lo);
            push_text(&mut r, ",X @ ");
            push_low_text(&mut r, address);
            push_text(&mut r, " = ");
            push_byte_text(&mut r, value);
        },
        AddrMode::YIndexedZeroPage => {
            push_text(&mut r, "$");
            push_hex2(&mut r, lo);
            push_text(&mut r, ",Y @ ");
            push_low_text(&mut r, address);
            push_text(&mut r, " = ");
            push_byte_text(&mut r, value);
        },
        AddrMode::XIndexedZeroPageIndirect => {
            push_text(&mut r, "($");
            push_hex2(&mut r, lo);
            push_text(&mut r, ",X) @ ");
            push_hex2(&mut r, (pointer % 256) as u8);
            push_text(&mut r, " = ");
            push_word_text(&mut r, address);
            push_text(&mut r, " = ");
            push_byte_text(&mut r, value);
        },
        AddrMode::ZeroPageIndirectYIndexed => {
            push_text(&mut r, "($");
            push_hex2(&mut r, lo);
            push_text(&mut r, "),Y = ");
            push_hex4(&mut r, pointer);
            push_text(&mut r, " @ ");
            push_word_text(&mut r, address);
            push_text(&mut r, " = ");
            push_byte_text(&mut r, value);
        },
        AddrMode::Relative => {
            push_text(&mut r, "$");
            push_word_text(&mut r, address);
        },
        AddrMode::Absolute => {
            push_text(&mut r, "$");
            push_hex4(&mut r, arg);
            if info.instruction != Instruction::Jmp && info.instruction != Instruction::Jsr {
                push_text(&mut r, " = ");
                push_byte_text(&mut r, value);
            }
        },
        AddrMode::XIndexedAbsolute => {
            push_text(&mut r, "$");
            push_hex4(&mut r, arg);
            push_text(&mut r, ",X @ ");
            push_word_text(&mut r, address);
            push_text(&mut r, " = ");
            push_byte_text(&mut r, value);
        },
        AddrMode::YIndexedAbsolute => {
            push_text(&mut r, "$");
            push_hex4(&mut r, arg);
            push_text(&mut r, ",Y @ ");
            push_word_text(&mut r, address);
            push_text(&mut r, " = ");
            push_byte_text(&mut r, value);
        },
        AddrMode::AbsoluteIndirect => {
            push_text(&mut r, "($");
            push_hex4(&mut r, arg);
            push_text(&mut r, ") = ");
            push_word_text(&mut r, address);
        },
    }
    assert(r@ =~= operand_text(info, lo, hi, pointer, address, value));
    r
}

/// The nestest log line of `t`, as ASCII bytes.
pub fn format_trace(t: &TraceLine) -> (r: Vec<u8>)
    ensures
        r@ == trace_text(
            t.pc,
            t.bytes@,
            t.info,
            t.undocumented,
            t.pointer,
            t.address,
            t.value,
            t.a,
            t.x,
            t.y,
            t.p,
            t.sp,
        ),
{
    let lo: u8 = if t.bytes.len() > 1 {
        t.bytes[1]
    } else {
        0
    };
    let hi: u8 = if t.bytes.len() > 2 {
        t.bytes[2]
    } else {
        0
    };
    let mut disassembly: Vec<u8> = Vec::new();
    push_text(&mut disassembly, if t.undocumented {
        "*"
    } else {
        " "
    });
    let name = t.info.instruction.mnemonic();
    push_text(&mut disassembly, name);
    push_text(&mut disassembly, " ");
    let operand = operand_text_of(t.info, lo, hi, t.pointer, t.address, t.value);
    push_all(&mut disassembly, &operand);
    assert(disassembly@ =~= disassembly_text(t.info, t.undocumented, lo, hi, t.pointer, t.address, t.value));

    let mut r: Vec<u8> = Vec::new();
    push_hex4(&mut r, t.pc);
    push_text(&mut r, "  ");
    let hex = bytes_text_of(&t.bytes);
    push_padded(&mut r, &hex, 8);
    push_text(&mut r, " ");
    push_padded(&mut r, &disassembly, 31);
    push_text(&mut r, "  A:");
    push_hex2(&mut r, t.a);
    push_text(&mut r, " X:");
    push_hex2(&mut r, t.x);
    push_text(&mut r, " Y:");
    push_hex2(&mut r, t.y);
    push_text(&mut r, " P:");
    push_hex2(&mut r, t.p);
    push_text(&mut r, " SP:");
    push_hex2(&mut r, t.sp);
    assert(r@ =~= trace_text(
        t.pc,
        t.bytes@,
        t.info,
        t.undocumented,
        t.pointer,
        t.address,
        t.value,
        t.a,
        t.x,
        t.y,
        t.p,
        t.sp,
    ));
    r
}

} // verus!
