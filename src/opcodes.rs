use vstd::prelude::*;

use crate::error::NesError;

verus! {

/// The operations of the instruction set, the undocumented ones included.
#[derive(Clone, Copy, Debug, PartialEq, Eq, Structural)]
pub enum Instruction {
    Adc,
    And,
    Asl,
    Bcc,
    Bcs,
    Beq,
    Bit,
    Bmi,
    Bne,
    Bpl,
    Brk,
    Bvc,
    Bvs,
    Clc,
    Cld,
    Cli,
    Clv,
    Cmp,
    Cpx,
    Cpy,
    Dec,
    Dex,
    Dey,
    Eor,
    Inc,
    Inx,
    Iny,
    Jmp,
    Jsr,
    Lda,
    Ldx,
    Ldy,
    Lsr,
    Nop,
    Ora,
    Pha,
    Php,
    Pla,
    Plp,
    Rol,
    Ror,
    Rti,
    Rts,
    Sbc,
    Sec,
    Sed,
    Sei,
    Sta,
    Stx,
    Sty,
    Tax,
    Tay,
    Tsx,
    Txa,
    Txs,
    Tya,
    Dop,
    Top,
    Lax,
    Sax,
    Dcp,
    Isb,
    Slo,
    Sre,
    Rla,
    Rra,
}

/// Where an instruction finds its operand.
#[derive(Clone, Copy, Debug, PartialEq, Eq, Structural)]
pub enum AddrMode {
    Immediate,
    Accumulator,
    Absolute,
    XIndexedAbsolute,
    YIndexedAbsolute,
    AbsoluteIndirect,
    ZeroPage,
    XIndexedZeroPage,
    YIndexedZeroPage,
    XIndexedZeroPageIndirect,
    ZeroPageIndirectYIndexed,
    Relative,
    Implied,
}

impl AddrMode {
    /// The modes that compute an operand address.
    pub open spec fn has_address(self) -> bool {
        self != AddrMode::Accumulator && self != AddrMode::Implied
    }
}

/// One row of the opcode table: the operation, its addressing mode, its
/// length in bytes and its base cycle count.
#[derive(Clone, Copy, Debug, PartialEq, Eq, Structural)]
pub struct OpInfo {
    pub instruction: Instruction,
    pub mode: AddrMode,
    pub length: u8,
    pub cycles: u8,
}

pub open spec fn info(instruction: Instruction, mode: AddrMode, length: u8, cycles: u8) -> OpInfo {
    OpInfo { instruction, mode, length, cycles }
}

/// The opcode table: what each byte means, or nothing for the bytes that are
/// no opcode.
pub open spec fn opcode_info(opcode: u8) -> Option<OpInfo> {
    match opcode {
        0x69 => Some(info(Instruction::Adc, AddrMode::Immediate, 2, 2)),
        0x6D => Some(info(Instruction::Adc, AddrMode::Absolute, 3, 4)),
        0x7D => Some(info(Instruction::Adc, AddrMode::XIndexedAbsolute, 3, 4)),
        0x79 => Some(info(Instruction::Adc, AddrMode::YIndexedAbsolute, 3, 4)),
        0x65 => Some(info(Instruction::Adc, AddrMode::ZeroPage, 2, 3)),
        0x75 => Some(info(Instruction::Adc, AddrMode::XIndexedZeroPage, 2, 4)),
        0x61 => Some(info(Instruction::Adc, AddrMode::XIndexedZeroPageIndirect, 2, 6)),
        0x71 => Some(info(Instruction::Adc, AddrMode::ZeroPageIndirectYIndexed, 2, 5)),
        0x29 => Some(info(Instruction::And, AddrMode::Immediate, 2, 2)),
        0x2D => Some(info(Instruction::And, AddrMode::Absolute, 3, 4)),
        0x3D => Some(info(Instruction::And, AddrMode::XIndexedAbsolute, 3, 4)),
        0x39 => Some(info(Instruction::And, AddrMode::YIndexedAbsolute, 3, 4)),
        0x25 => Some(info(Instruction::And, AddrMode::ZeroPage, 2, 3)),
        0x35 => Some(info(Instruction::And, AddrMode::XIndexedZeroPage, 2, 4)),
        0x21 => Some(info(Instruction::And, AddrMode::XIndexedZeroPageIndirect, 2, 6)),
        0x31 => Some(info(Instruction::And, AddrMode::ZeroPageIndirectYIndexed, 2, 5)),
        0x0A => Some(info(Instruction::Asl, AddrMode::Accumulator, 1, 2)),
        0x0E => Some(info(Instruction::Asl, AddrMode::Absolute, 3, 6)),
        0x1E => Some(info(Instruction::Asl, AddrMode::XIndexedAbsolute, 3, 7)),
        0x06 => Some(info(Instruction::Asl, AddrMode::ZeroPage, 2, 5)),
        0x16 => Some(info(Instruction::Asl, AddrMode::XIndexedZeroPage, 2, 6)),
        0x90 => Some(info(Instruction::Bcc, AddrMode::Relative, 2, 2)),
        0xB0 => Some(info(Instruction::Bcs, AddrMode::Relative, 2, 2)),
        0xF0 => Some(info(Instruction::Beq, AddrMode::Relative, 2, 2)),
        0x2C => Some(info(Instruction::Bit, AddrMode::Absolute, 3, 4)),
        0x24 => Some(info(Instruction::Bit, AddrMode::ZeroPage, 2, 3)),
        0x30 => Some(info(Instruction::Bmi, AddrMode::Relative, 2, 2)),
        0xD0 => Some(info(Instruction::Bne, AddrMode::Relative, 2, 2)),
        0x10 => Some(info(Instruction::Bpl, AddrMode::Relative, 2, 2)),
        0x00 => Some(info(Instruction::Brk, AddrMode::Implied, 1, 7)),
        0x50 => Some(info(Instruction::Bvc, AddrMode::Relative, 2, 2)),
        0x70 => Some(info(Instruction::Bvs, AddrMode::Relative, 2, 2)),
        0x18 => Some(info(Instruction::Clc, AddrMode::Implied, 1, 2)),
        0xD8 => Some(info(Instruction::Cld, AddrMode::Implied, 1, 2)),
        0x58 => Some(info(Instruction::Cli, AddrMode::Implied, 1, 2)),
        0xB8 => Some(info(Instruction::Clv, AddrMode::Implied, 1, 2)),
        0xC9 => Some(info(Instruction::Cmp, AddrMode::Immediate, 2, 2)),
        0xCD => Some(info(Instruction::Cmp, AddrMode::Absolute, 3, 4)),
        0xDD => Some(info(Instruction::Cmp, AddrMode::XIndexedAbsolute, 3, 4)),
        0xD9 => Some(info(Instruction::Cmp, AddrMode::YIndexedAbsolute, 3, 4)),
        0xC5 => Some(info(Instruction::Cmp, AddrMode::ZeroPage, 2, 3)),
        0xD5 => Some(info(Instruction::Cmp, AddrMode::XIndexedZeroPage, 2, 4)),
        0xC1 => Some(info(Instruction::Cmp, AddrMode::XIndexedZeroPageIndirect, 2, 6)),
        0xD1 => Some(info(Instruction::Cmp, AddrMode::ZeroPageIndirectYIndexed, 2, 5)),
        0xE0 => Some(info(Instruction::Cpx, AddrMode::Immediate, 2, 2)),
        0xEC => Some(info(Instruction::Cpx, AddrMode::Absolute, 3, 4)),
        0xE4 => Some(info(Instruction::Cpx, AddrMode::ZeroPage, 2, 3)),
        0xC0 => Some(info(Instruction::Cpy, AddrMode::Immediate, 2, 2)),
        0xCC => Some(info(Instruction::Cpy, AddrMode::Absolute, 3, 4)),
        0xC4 => Some(info(Instruction::Cpy, AddrMode::ZeroPage, 2, 3)),
        0xCE => Some(info(Instruction::Dec, AddrMode::Absolute, 3, 6)),
        0xDE => Some(info(Instruction::Dec, AddrMode::XIndexedAbsolute, 3, 7)),
        0xC6 => Some(info(Instruction::Dec, AddrMode::ZeroPage, 2, 5)),
        0xD6 => Some(info(Instruction::Dec, AddrMode::XIndexedZeroPage, 2, 6)),
        0xCA => Some(info(Instruction::Dex, AddrMode::Implied, 1, 2)),
        0x88 => Some(info(Instruction::Dey, AddrMode::Implied, 1, 2)),
        0x49 => Some(info(Instruction::Eor, AddrMode::Immediate, 2, 2)),
        0x4D => Some(info(Instruction::Eor, AddrMode::Absolute, 3, 4)),
        0x5D => Some(info(Instruction::Eor, AddrMode::XIndexedAbsolute, 3, 4)),
        0x59 => Some(info(Instruction::Eor, AddrMode::YIndexedAbsolute, 3, 4)),
        0x45 => Some(info(Instruction::Eor, AddrMode::ZeroPage, 2, 3)),
        0x55 => Some(info(Instruction::Eor, AddrMode::XIndexedZeroPage, 2, 4)),
        0x41 => Some(info(Instruction::Eor, AddrMode::XIndexedZeroPageIndirect, 2, 6)),
        0x51 => Some(info(Instruction::Eor, AddrMode::ZeroPageIndirectYIndexed, 2, 5)),
        0xEE => Some(info(Instruction::Inc, AddrMode::Absolute, 3, 6)),
        0xFE => Some(info(Instruction::Inc, AddrMode::XIndexedAbsolute, 3, 7)),
        0xE6 => Some(info(Instruction::Inc, AddrMode::ZeroPage, 2, 5)),
        0xF6 => Some(info(Instruction::Inc, AddrMode::XIndexedZeroPage, 2, 6)),
        0xE8 => Some(info(Instruction::Inx, AddrMode::Implied, 1, 2)),
        0xC8 => Some(info(Instruction::Iny, AddrMode::Implied, 1, 2)),
        0x4C => Some(info(Instruction::Jmp, AddrMode::Absolute, 3, 3)),
        0x6C => Some(info(Instruction::Jmp, AddrMode::AbsoluteIndirect, 3, 5)),
        0x20 => Some(info(Instruction::Jsr, AddrMode::Absolute, 3, 6)),
        0xA9 => Some(info(Instruction::Lda, AddrMode::Immediate, 2, 2)),
        0xAD => Some(info(Instruction::Lda, AddrMode::Absolute, 3, 4)),
        0xBD => Some(info(Instruction::Lda, AddrMode::XIndexedAbsolute, 3, 4)),
        0xB9 => Some(info(Instruction::Lda, AddrMode::YIndexedAbsolute, 3, 4)),
        0xA5 => Some(info(Instruction::Lda, AddrMode::ZeroPage, 2, 3)),
        0xB5 => Some(info(Instruction::Lda, AddrMode::XIndexedZeroPage, 2, 4)),
        0xA1 => Some(info(Instruction::Lda, AddrMode::XIndexedZeroPageIndirect, 2, 6)),
        0xB1 => Some(info(Instruction::Lda, AddrMode::ZeroPageIndirectYIndexed, 2, 5)),
        0xA2 => Some(info(Instruction::Ldx, AddrMode::Immediate, 2, 2)),
        0xAE => Some(info(Instruction::Ldx, AddrMode::Absolute, 3, 4)),
        0xBE => Some(info(Instruction::Ldx, AddrMode::YIndexedAbsolute, 3, 4)),
        0xA6 => Some(info(Instruction::Ldx, AddrMode::ZeroPage, 2, 3)),
        0xB6 => Some(info(Instruction::Ldx, AddrMode::YIndexedZeroPage, 2, 4)),
        0xA0 => Some(info(Instruction::Ldy, AddrMode::Immediate, 2, 2)),
        0xAC => Some(info(Instruction::Ldy, AddrMode::Absolute, 3, 4)),
        0xBC => Some(info(Instruction::Ldy, AddrMode::XIndexedAbsolute, 3, 4)),
        0xA4 => Some(info(Instruction::Ldy, AddrMode::ZeroPage, 2, 3)),
        0xB4 => Some(info(Instruction::Ldy, AddrMode::XIndexedZeroPage, 2, 4)),
        0x4A => Some(info(Instruction::Lsr, AddrMode::Accumulator, 1, 2)),
        0x4E => Some(info(Instruction::Lsr, AddrMode::Absolute, 3, 6)),
        0x5E => Some(info(Instruction::Lsr, AddrMode::XIndexedAbsolute, 3, 7)),
        0x46 => Some(info(Instruction::Lsr, AddrMode::ZeroPage, 2, 5)),
        0x56 => Some(info(Instruction::Lsr, AddrMode::XIndexedZeroPage, 2, 6)),
        0xEA => Some(info(Instruction::Nop, AddrMode::Implied, 1, 2)),
        0x09 => Some(info(Instruction::Ora, AddrMode::Immediate, 2, 2)),
        0x0D => Some(info(Instruction::Ora, AddrMode::Absolute, 3, 4)),
        0x1D => Some(info(Instruction::Ora, AddrMode::XIndexedAbsolute, 3, 4)),
        0x19 => Some(info(Instruction::Ora, AddrMode::YIndexedAbsolute, 3, 4)),
        0x05 => Some(info(Instruction::Ora, AddrMode::ZeroPage, 2, 3)),
        0x15 => Some(info(Instruction::Ora, AddrMode::XIndexedZeroPage, 2, 4)),
        0x01 => Some(info(Instruction::Ora, AddrMode::XIndexedZeroPageIndirect, 2, 6)),
        0x11 => Some(info(Instruction::Ora, AddrMode::ZeroPageIndirectYIndexed, 2, 5)),
        0x48 => Some(info(Instruction::Pha, AddrMode::Implied, 1, 3)),
        0x08 => Some(info(Instruction::Php, AddrMode::Implied, 1, 3)),
        0x68 => Some(info(Instruction::Pla, AddrMode::Implied, 1, 4)),
        0x28 => Some(info(Instruction::Plp, AddrMode::Implied, 1, 4)),
        0x2A => Some(info(Instruction::Rol, AddrMode::Accumulator, 1, 2)),
        0x2E => Some(info(Instruction::Rol, AddrMode::Absolute, 3, 6)),
        0x3E => Some(info(Instruction::Rol, AddrMode::XIndexedAbsolute, 3, 7)),
        0x26 => Some(info(Instruction::Rol, AddrMode::ZeroPage, 2, 5)),
        0x36 => Some(info(Instruction::Rol, AddrMode::XIndexedZeroPage, 2, 6)),
        0x6A => Some(info(Instruction::Ror, AddrMode::Accumulator, 1, 2)),
        0x6E => Some(info(Instruction::Ror, AddrMode::Absolute, 3, 6)),
        0x7E => Some(info(Instruction::Ror, AddrMode::XIndexedAbsolute, 3, 7)),
        0x66 => Some(info(Instruction::Ror, AddrMode::ZeroPage, 2, 5)),
        0x76 => Some(info(Instruction::Ror, AddrMode::XIndexedZeroPage, 2, 6)),
        0x40 => Some(info(Instruction::Rti, AddrMode::Implied, 1, 6)),
        0x60 => Some(info(Instruction::Rts, AddrMode::Implied, 1, 6)),
        0xE9 => Some(info(Instruction::Sbc, AddrMode::Immediate, 2, 2)),
        0xED => Some(info(Instruction::Sbc, AddrMode::Absolute, 3, 4)),
        0xFD => Some(info(Instruction::Sbc, AddrMode::XIndexedAbsolute, 3, 4)),
        0xF9 => Some(info(Instruction::Sbc, AddrMode::YIndexedAbsolute, 3, 4)),
        0xE5 => Some(info(Instruction::Sbc, AddrMode::ZeroPage, 2, 3)),
        0xF5 => Some(info(Instruction::Sbc, AddrMode::XIndexedZeroPage, 2, 4)),
        0xE1 => Some(info(Instruction::Sbc, AddrMode::XIndexedZeroPageIndirect, 2, 6)),
        0xF1 => Some(info(Instruction::Sbc, AddrMode::ZeroPageIndirectYIndexed, 2, 5)),
        0x38 => Some(info(Instruction::Sec, AddrMode::Implied, 1, 2)),
        0xF8 => Some(info(Instruction::Sed, AddrMode::Implied, 1, 2)),
        0x78 => Some(info(Instruction::Sei, AddrMode::Implied, 1, 2)),
        0x8D => Some(info(Instruction::Sta, AddrMode::Absolute, 3, 4)),
        0x9D => Some(info(Instruction::Sta, AddrMode::XIndexedAbsolute, 3, 5)),
        0x99 => Some(info(Instruction::Sta, AddrMode::YIndexedAbsolute, 3, 5)),
        0x85 => Some(info(Instruction::Sta, AddrMode::ZeroPage, 2, 3)),
        0x95 => Some(info(Instruction::Sta, AddrMode::XIndexedZeroPage, 2, 4)),
        0x81 => Some(info(Instruction::Sta, AddrMode::XIndexedZeroPageIndirect, 2, 6)),
        0x91 => Some(info(Instruction::Sta, AddrMode::ZeroPageIndirectYIndexed, 2, 6)),
        0x8E => Some(info(Instruction::Stx, AddrMode::Absolute, 3, 4)),
        0x86 => Some(info(Instruction::Stx, AddrMode::ZeroPage, 2, 3)),
        0x96 => Some(info(Instruction::Stx, AddrMode::YIndexedZeroPage, 2, 4)),
        0x8C => Some(info(Instruction::Sty, AddrMode::Absolute, 3, 4)),
        0x84 => Some(info(Instruction::Sty, AddrMode::ZeroPage, 2, 3)),
        0x94 => Some(info(Instruction::Sty, AddrMode::XIndexedZeroPage, 2, 4)),
        0xAA => Some(info(Instruction::Tax, AddrMode::Implied, 1, 2)),
        0xA8 => Some(info(Instruction::Tay, AddrMode::Implied, 1, 2)),
        0xBA => Some(info(Instruction::Tsx, AddrMode::Implied, 1, 2)),
        0x8A => Some(info(Instruction::Txa, AddrMode::Implied, 1, 2)),
        0x9A => Some(info(Instruction::Txs, AddrMode::Implied, 1, 2)),
        0x98 => Some(info(Instruction::Tya, AddrMode::Implied, 1, 2)),
        0x04 => Some(info(Instruction::Dop, AddrMode::ZeroPage, 2, 3)),
        0x14 => Some(info(Instruction::Dop, AddrMode::XIndexedZeroPage, 2, 4)),
        0x34 => Some(info(Instruction::Dop, AddrMode::XIndexedZeroPage, 2, 4)),
        0x44 => Some(info(Instruction::Dop, AddrMode::ZeroPage, 2, 3)),
        0x54 => Some(info(Instruction::Dop, AddrMode::XIndexedZeroPage, 2, 4)),
        0x64 => Some(info(Instruction::Dop, AddrMode::ZeroPage, 2, 3)),
        0x74 => Some(info(Instruction::Dop, AddrMode::XIndexedZeroPage, 2, 4)),
        0x80 => Some(info(Instruction::Dop, AddrMode::Immediate, 2, 2)),
        0x82 => Some(info(Instruction::Dop, AddrMode::Immediate, 2, 2)),
        0x89 => Some(info(Instruction::Dop, AddrMode::Immediate, 2, 2)),
        0xC2 => Some(info(Instruction::Dop, AddrMode::Immediate, 2, 2)),
        0xD4 => Some(info(Instruction::Dop, AddrMode::XIndexedZeroPage, 2, 4)),
        0xE2 => Some(info(Instruction::Dop, AddrMode::Immediate, 2, 2)),
        0xF4 => Some(info(Instruction::Dop, AddrMode::XIndexedZeroPage, 2, 4)),
        0x0C => Some(info(Instruction::Top, AddrMode::Absolute, 3, 4)),
        0x1C => Some(info(Instruction::Top, AddrMode::XIndexedAbsolute, 3, 4)),
        0x3C => Some(info(Instruction::Top, AddrMode::XIndexedAbsolute, 3, 4)),
        0x5C => Some(info(Instruction::Top, AddrMode::XIndexedAbsolute, 3, 4)),
        0x7C => Some(info(Instruction::Top, AddrMode::XIndexedAbsolute, 3, 4)),
        0xDC => Some(info(Instruction::Top, AddrMode::XIndexedAbsolute, 3, 4)),
        0xFC => Some(info(Instruction::Top, AddrMode::XIndexedAbsolute, 3, 4)),
        0x1A => Some(info(Instruction::Nop, AddrMode::Implied, 1, 2)),
        0x3A => Some(info(Instruction::Nop, AddrMode::Implied, 1, 2)),
        0x5A => Some(info(Instruction::Nop, AddrMode::Implied, 1, 2)),
        0x7A => Some(info(Instruction::Nop, AddrMode::Implied, 1, 2)),
        0xDA => Some(info(Instruction::Nop, AddrMode::Implied, 1, 2)),
        0xFA => Some(info(Instruction::Nop, AddrMode::Implied, 1, 2)),
        0xA7 => Some(info(Instruction::Lax, AddrMode::ZeroPage, 2, 3)),
        0xB7 => Some(info(Instruction::Lax, AddrMode::YIndexedZeroPage, 2, 4)),
        0xAF => Some(info(Instruction::Lax, AddrMode::Absolute, 3, 4)),
        0xBF => Some(info(Instruction::Lax, AddrMode::YIndexedAbsolute, 3, 4)),
        0xA3 => Some(info(Instruction::Lax, AddrMode::XIndexedZeroPageIndirect, 2, 6)),
        0xB3 => Some(info(Instruction::Lax, AddrMode::ZeroPageIndirectYIndexed, 2, 5)),
        0x87 => Some(info(Instruction::Sax, AddrMode::ZeroPage, 2, 3)),
        0x97 => Some(info(Instruction::Sax, AddrMode::YIndexedZeroPage, 2, 4)),
        0x83 => Some(info(Instruction::Sax, AddrMode::XIndexedZeroPageIndirect, 2, 6)),
        0x8F => Some(info(Instruction::Sax, AddrMode::Absolute, 3, 4)),
        0xEB => Some(info(Instruction::Sbc, AddrMode::Immediate, 2, 2)),
        0xC7 => Some(info(Instruction::Dcp, AddrMode::ZeroPage, 2, 5)),
        0xD7 => Some(info(Instruction::Dcp, AddrMode::XIndexedZeroPage, 2, 6)),
        0xCF => Some(info(Instruction::Dcp, AddrMode::Absolute, 3, 6)),
        0xDF => Some(info(Instruction::Dcp, AddrMode::XIndexedAbsolute, 3, 7)),
        0xDB => Some(info(Instruction::Dcp, AddrMode::YIndexedAbsolute, 3, 7)),
        0xC3 => Some(info(Instruction::Dcp, AddrMode::XIndexedZeroPageIndirect, 2, 8)),
        0xD3 => Some(info(Instruction::Dcp, AddrMode::ZeroPageIndirectYIndexed, 2, 8)),
        0xE7 => Some(info(Instruction::Isb, AddrMode::ZeroPage, 2, 5)),
        0xF7 => Some(info(Instruction::Isb, AddrMode::XIndexedZeroPage, 2, 6)),
        0xEF => Some(info(Instruction::Isb, AddrMode::Absolute, 3, 6)),
        0xFF => Some(info(Instruction::Isb, AddrMode::XIndexedAbsolute, 3, 7)),
        0xFB => Some(info(Instruction::Isb, AddrMode::YIndexedAbsolute, 3, 7)),
        0xE3 => Some(info(Instruction::Isb, AddrMode::XIndexedZeroPageIndirect, 2, 8)),
        0xF3 => Some(info(Instruction::Isb, AddrMode::ZeroPageIndirectYIndexed, 2, 8)),
        0x07 => Some(info(Instruction::Slo, AddrMode::ZeroPage, 2, 5)),
        0x17 => Some(info(Instruction::Slo, AddrMode::XIndexedZeroPage, 2, 6)),
        0x0F => Some(info(Instruction::Slo, AddrMode::Absolute, 3, 6)),
        0x1F => Some(info(Instruction::Slo, AddrMode::XIndexedAbsolute, 3, 7)),
        0x1B => Some(info(Instruction::Slo, AddrMode::YIndexedAbsolute, 3, 7)),
        0x03 => Some(info(Instruction::Slo, AddrMode::XIndexedZeroPageIndirect, 2, 8)),
        0x13 => Some(info(Instruction::Slo, AddrMode::ZeroPageIndirectYIndexed, 2, 8)),
        0x47 => Some(info(Instruction::Sre, AddrMode::ZeroPage, 2, 5)),
        0x57 => Some(info(Instruction::Sre, AddrMode::XIndexedZeroPage, 2, 6)),
        0x4F => Some(info(Instruction::Sre, AddrMode::Absolute, 3, 6)),
        0x5F => Some(info(Instruction::Sre, AddrMode::XIndexedAbsolute, 3, 7)),
        0x5B => Some(info(Instruction::Sre, AddrMode::YIndexedAbsolute, 3, 7)),
        0x43 => Some(info(Instruction::Sre, AddrMode::XIndexedZeroPageIndirect, 2, 8)),
        0x53 => Some(info(Instruction::Sre, AddrMode::ZeroPageIndirectYIndexed, 2, 8)),
        0x27 => Some(info(Instruction::Rla, AddrMode::ZeroPage, 2, 5)),
        0x37 => Some(info(Instruction::Rla, AddrMode::XIndexedZeroPage, 2, 6)),
        0x2F => Some(info(Instruction::Rla, AddrMode::Absolute, 3, 6)),
        0x3F => Some(info(Instruction::Rla, AddrMode::XIndexedAbsolute, 3, 7)),
        0x3B => Some(info(Instruction::Rla, AddrMode::YIndexedAbsolute, 3, 7)),
        0x23 => Some(info(Instruction::Rla, AddrMode::XIndexedZeroPageIndirect, 2, 8)),
        0x33 => Some(info(Instruction::Rla, AddrMode::ZeroPageIndirectYIndexed, 2, 8)),
        0x67 => Some(info(Instruction::Rra, AddrMode::ZeroPage, 2, 5)),
        0x77 => Some(info(Instruction::Rra, AddrMode::XIndexedZeroPage, 2, 6)),
        0x6F => Some(info(Instruction::Rra, AddrMode::Absolute, 3, 6)),
        0x7F => Some(info(Instruction::Rra, AddrMode::XIndexedAbsolute, 3, 7)),
        0x7B => Some(info(Instruction::Rra, AddrMode::YIndexedAbsolute, 3, 7)),
        0x63 => Some(info(Instruction::Rra, AddrMode::XIndexedZeroPageIndirect, 2, 8)),
        0x73 => Some(info(Instruction::Rra, AddrMode::ZeroPageIndirectYIndexed, 2, 8)),
        _ => None,
    }
}

/// Looks an opcode up in the table.
pub fn decode(opcode: u8) -> (r: Result<OpInfo, NesError>)
    ensures
        match opcode_info(opcode) {
            Some(i) => r == Ok::<OpInfo, NesError>(i),
            None => r == Err::<OpInfo, NesError>(NesError::UnknownOpcode(opcode)),
        },
{
    match opcode {
        0x69 => Ok(OpInfo { instruction: Instruction::Adc, mode: AddrMode::Immediate, length: 2, cycles: 2 }),
        0x6D => Ok(OpInfo { instruction: Instruction::Adc, mode: AddrMode::Absolute, length: 3, cycles: 4 }),
        0x7D => Ok(OpInfo { instruction: Instruction::Adc, mode: AddrMode::XIndexedAbsolute, length: 3, cycles: 4 }),
        0x79 => Ok(OpInfo { instruction: Instruction::Adc, mode: AddrMode::YIndexedAbsolute, length: 3, cycles: 4 }),
        0x65 => Ok(OpInfo { instruction: Instruction::Adc, mode: AddrMode::ZeroPage, length: 2, cycles: 3 }),
        0x75 => Ok(OpInfo { instruction: Instruction::Adc, mode: AddrMode::XIndexedZeroPage, length: 2, cycles: 4 }),
        0x61 => Ok(OpInfo { instruction: Instruction::Adc, mode: AddrMode::XIndexedZeroPageIndirect, length: 2, cycles: 6 }),
        0x71 => Ok(OpInfo { instruction: Instruction::Adc, mode: AddrMode::ZeroPageIndirectYIndexed, length: 2, cycles: 5 }),
        0x29 => Ok(OpInfo { instruction: Instruction::And, mode: AddrMode::Immediate, length: 2, cycles: 2 }),
        0x2D => Ok(OpInfo { instruction: Instruction::And, mode: AddrMode::Absolute, length: 3, cycles: 4 }),
        0x3D => Ok(OpInfo { instruction: Instruction::And, mode: AddrMode::XIndexedAbsolute, length: 3, cycles: 4 }),
        0x39 => Ok(OpInfo { instruction: Instruction::And, mode: AddrMode::YIndexedAbsolute, length: 3, cycles: 4 }),
        0x25 => Ok(OpInfo { instruction: Instruction::And, mode: AddrMode::ZeroPage, length: 2, cycles: 3 }),
        0x35 => Ok(OpInfo { instruction: Instruction::And, mode: AddrMode::XIndexedZeroPage, length: 2, cycles: 4 }),
        0x21 => Ok(OpInfo { instruction: Instruction::And, mode: AddrMode::XIndexedZeroPageIndirect, length: 2, cycles: 6 }),
        0x31 => Ok(OpInfo { instruction: Instruction::And, mode: AddrMode::ZeroPageIndirectYIndexed, length: 2, cycles: 5 }),
        0x0A => Ok(OpInfo { instruction: Instruction::Asl, mode: AddrMode::Accumulator, length: 1, cycles: 2 }),
        0x0E => Ok(OpInfo { instruction: Instruction::Asl, mode: AddrMode::Absolute, length: 3, cycles: 6 }),
        0x1E => Ok(OpInfo { instruction: Instruction::Asl, mode: AddrMode::XIndexedAbsolute, length: 3, cycles: 7 }),
        0x06 => Ok(OpInfo { instruction: Instruction::Asl, mode: AddrMode::ZeroPage, length: 2, cycles: 5 }),
        0x16 => Ok(OpInfo { instruction: Instruction::Asl, mode: AddrMode::XIndexedZeroPage, length: 2, cycles: 6 }),
        0x90 => Ok(OpInfo { instruction: Instruction::Bcc, mode: AddrMode::Relative, length: 2, cycles: 2 }),
        0xB0 => Ok(OpInfo { instruction: Instruction::Bcs, mode: AddrMode::Relative, length: 2, cycles: 2 }),
        0xF0 => Ok(OpInfo { instruction: Instruction::Beq, mode: AddrMode::Relative, length: 2, cycles: 2 }),
        0x2C => Ok(OpInfo { instruction: Instruction::Bit, mode: AddrMode::Absolute, length: 3, cycles: 4 }),
        0x24 => Ok(OpInfo { instruction: Instruction::Bit, mode: AddrMode::ZeroPage, length: 2, cycles: 3 }),
        0x30 => Ok(OpInfo { instruction: Instruction::Bmi, mode: AddrMode::Relative, length: 2, cycles: 2 }),
        0xD0 => Ok(OpInfo { instruction: Instruction::Bne, mode: AddrMode::Relative, length: 2, cycles: 2 }),
        0x10 => Ok(OpInfo { instruction: Instruction::Bpl, mode: AddrMode::Relative, length: 2, cycles: 2 }),
        0x00 => Ok(OpInfo { instruction: Instruction::Brk, mode: AddrMode::Implied, length: 1, cycles: 7 }),
        0x50 => Ok(OpInfo { instruction: Instruction::Bvc, mode: AddrMode::Relative, length: 2, cycles: 2 }),
        0x70 => Ok(OpInfo { instruction: Instruction::Bvs, mode: AddrMode::Relative, length: 2, cycles: 2 }),
        0x18 => Ok(OpInfo { instruction: Instruction::Clc, mode: AddrMode::Implied, length: 1, cycles: 2 }),
        0xD8 => Ok(OpInfo { instruction: Instruction::Cld, mode: AddrMode::Implied, length: 1, cycles: 2 }),
        0x58 => Ok(OpInfo { instruction: Instruction::Cli, mode: AddrMode::Implied, length: 1, cycles: 2 }),
        0xB8 => Ok(OpInfo { instruction: Instruction::Clv, mode: AddrMode::Implied, length: 1, cycles: 2 }),
        0xC9 => Ok(OpInfo { instruction: Instruction::Cmp, mode: AddrMode::Immediate, length: 2, cycles: 2 }),
        0xCD => Ok(OpInfo { instruction: Instruction::Cmp, mode: AddrMode::Absolute, length: 3, cycles: 4 }),
        0xDD => Ok(OpInfo { instruction: Instruction::Cmp, mode: AddrMode::XIndexedAbsolute, length: 3, cycles: 4 }),
        0xD9 => Ok(OpInfo { instruction: Instruction::Cmp, mode: AddrMode::YIndexedAbsolute, length: 3, cycles: 4 }),
        0xC5 => Ok(OpInfo { instruction: Instruction::Cmp, mode: AddrMode::ZeroPage, length: 2, cycles: 3 }),
        0xD5 => Ok(OpInfo { instruction: Instruction::Cmp, mode: AddrMode::XIndexedZeroPage, length: 2, cycles: 4 }),
        0xC1 => Ok(OpInfo { instruction: Instruction::Cmp, mode: AddrMode::XIndexedZeroPageIndirect, length: 2, cycles: 6 }),
        0xD1 => Ok(OpInfo { instruction: Instruction::Cmp, mode: AddrMode::ZeroPageIndirectYIndexed, length: 2, cycles: 5 }),
        0xE0 => Ok(OpInfo { instruction: Instruction::Cpx, mode: AddrMode::Immediate, length: 2, cycles: 2 }),
        0xEC => Ok(OpInfo { instruction: Instruction::Cpx, mode: AddrMode::Absolute, length: 3, cycles: 4 }),
        0xE4 => Ok(OpInfo { instruction: Instruction::Cpx, mode: AddrMode::ZeroPage, length: 2, cycles: 3 }),
        0xC0 => Ok(OpInfo { instruction: Instruction::Cpy, mode: AddrMode::Immediate, length: 2, cycles: 2 }),
        0xCC => Ok(OpInfo { instruction: Instruction::Cpy, mode: AddrMode::Absolute, length: 3, cycles: 4 }),
        0xC4 => Ok(OpInfo { instruction: Instruction::Cpy, mode: AddrMode::ZeroPage, length: 2, cycles: 3 }),
        0xCE => Ok(OpInfo { instruction: Instruction::Dec, mode: AddrMode::Absolute, length: 3, cycles: 6 }),
        0xDE => Ok(OpInfo { instruction: Instruction::Dec, mode: AddrMode::XIndexedAbsolute, length: 3, cycles: 7 }),
        0xC6 => Ok(OpInfo { instruction: Instruction::Dec, mode: AddrMode::ZeroPage, length: 2, cycles: 5 }),
        0xD6 => Ok(OpInfo { instruction: Instruction::Dec, mode: AddrMode::XIndexedZeroPage, length: 2, cycles: 6 }),
        0xCA => Ok(OpInfo { instruction: Instruction::Dex, mode: AddrMode::Implied, length: 1, cycles: 2 }),
        0x88 => Ok(OpInfo { instruction: Instruction::Dey, mode: AddrMode::Implied, length: 1, cycles: 2 }),
        0x49 => Ok(OpInfo { instruction: Instruction::Eor, mode: AddrMode::Immediate, length: 2, cycles: 2 }),
        0x4D => Ok(OpInfo { instruction: Instruction::Eor, mode: AddrMode::Absolute, length: 3, cycles: 4 }),
        0x5D => Ok(OpInfo { instruction: Instruction::Eor, mode: AddrMode::XIndexedAbsolute, length: 3, cycles: 4 }),
        0x59 => Ok(OpInfo { instruction: Instruction::Eor, mode: AddrMode::YIndexedAbsolute, length: 3, cycles: 4 }),
        0x45 => Ok(OpInfo { instruction: Instruction::Eor, mode: AddrMode::ZeroPage, length: 2, cycles: 3 }),
        0x55 => Ok(OpInfo { instruction: Instruction::Eor, mode: AddrMode::XIndexedZeroPage, length: 2, cycles: 4 }),
        0x41 => Ok(OpInfo { instruction: Instruction::Eor, mode: AddrMode::XIndexedZeroPageIndirect, length: 2, cycles: 6 }),
        0x51 => Ok(OpInfo { instruction: Instruction::Eor, mode: AddrMode::ZeroPageIndirectYIndexed, length: 2, cycles: 5 }),
        0xEE => Ok(OpInfo { instruction: Instruction::Inc, mode: AddrMode::Absolute, length: 3, cycles: 6 }),
        0xFE => Ok(OpInfo { instruction: Instruction::Inc, mode: AddrMode::XIndexedAbsolute, length: 3, cycles: 7 }),
        0xE6 => Ok(OpInfo { instruction: Instruction::Inc, mode: AddrMode::ZeroPage, length: 2, cycles: 5 }),
        0xF6 => Ok(OpInfo { instruction: Instruction::Inc, mode: AddrMode::XIndexedZeroPage, length: 2, cycles: 6 }),
        0xE8 => Ok(OpInfo { instruction: Instruction::Inx, mode: AddrMode::Implied, length: 1, cycles: 2 }),
        0xC8 => Ok(OpInfo { instruction: Instruction::Iny, mode: AddrMode::Implied, length: 1, cycles: 2 }),
        0x4C => Ok(OpInfo { instruction: Instruction::Jmp, mode: AddrMode::Absolute, length: 3, cycles: 3 }),
        0x6C => Ok(OpInfo { instruction: Instruction::Jmp, mode: AddrMode::AbsoluteIndirect, length: 3, cycles: 5 }),
        0x20 => Ok(OpInfo { instruction: Instruction::Jsr, mode: AddrMode::Absolute, length: 3, cycles: 6 }),
        0xA9 => Ok(OpInfo { instruction: Instruction::Lda, mode: AddrMode::Immediate, length: 2, cycles: 2 }),
        0xAD => Ok(OpInfo { instruction: Instruction::Lda, mode: AddrMode::Absolute, length: 3, cycles: 4 }),
        0xBD => Ok(OpInfo { instruction: Instruction::Lda, mode: AddrMode::XIndexedAbsolute, length: 3, cycles: 4 }),
        0xB9 => Ok(OpInfo { instruction: Instruction::Lda, mode: AddrMode::YIndexedAbsolute, length: 3, cycles: 4 }),
        0xA5 => Ok(OpInfo { instruction: Instruction::Lda, mode: AddrMode::ZeroPage, length: 2, cycles: 3 }),
        0xB5 => Ok(OpInfo { instruction: Instruction::Lda, mode: AddrMode::XIndexedZeroPage, length: 2, cycles: 4 }),
        0xA1 => Ok(OpInfo { instruction: Instruction::Lda, mode: AddrMode::XIndexedZeroPageIndirect, length: 2, cycles: 6 }),
        0xB1 => Ok(OpInfo { instruction: Instruction::Lda, mode: AddrMode::ZeroPageIndirectYIndexed, length: 2, cycles: 5 }),
        0xA2 => Ok(OpInfo { instruction: Instruction::Ldx, mode: AddrMode::Immediate, length: 2, cycles: 2 }),
        0xAE => Ok(OpInfo { instruction: Instruction::Ldx, mode: AddrMode::Absolute, length: 3, cycles: 4 }),
        0xBE => Ok(OpInfo { instruction: Instruction::Ldx, mode: AddrMode::YIndexedAbsolute, length: 3, cycles: 4 }),
        0xA6 => Ok(OpInfo { instruction: Instruction::Ldx, mode: AddrMode::ZeroPage, length: 2, cycles: 3 }),
        0xB6 => Ok(OpInfo { instruction: Instruction::Ldx, mode: AddrMode::YIndexedZeroPage, length: 2, cycles: 4 }),
        0xA0 => Ok(OpInfo { instruction: Instruction::Ldy, mode: AddrMode::Immediate, length: 2, cycles: 2 }),
        0xAC => Ok(OpInfo { instruction: Instruction::Ldy, mode: AddrMode::Absolute, length: 3, cycles: 4 }),
        0xBC => Ok(OpInfo { instruction: Instruction::Ldy, mode: AddrMode::XIndexedAbsolute, length: 3, cycles: 4 }),
        0xA4 => Ok(OpInfo { instruction: Instruction::Ldy, mode: AddrMode::ZeroPage, length: 2, cycles: 3 }),
        0xB4 => Ok(OpInfo { instruction: Instruction::Ldy, mode: AddrMode::XIndexedZeroPage, length: 2, cycles: 4 }),
        0x4A => Ok(OpInfo { instruction: Instruction::Lsr, mode: AddrMode::Accumulator, length: 1, cycles: 2 }),
        0x4E => Ok(OpInfo { instruction: Instruction::Lsr, mode: AddrMode::Absolute, length: 3, cycles: 6 }),
        0x5E => Ok(OpInfo { instruction: Instruction::Lsr, mode: AddrMode::XIndexedAbsolute, length: 3, cycles: 7 }),
        0x46 => Ok(OpInfo { instruction: Instruction::Lsr, mode: AddrMode::ZeroPage, length: 2, cycles: 5 }),
        0x56 => Ok(OpInfo { instruction: Instruction::Lsr, mode: AddrMode::XIndexedZeroPage, length: 2, cycles: 6 }),
        0xEA => Ok(OpInfo { instruction: Instruction::Nop, mode: AddrMode::Implied, length: 1, cycles: 2 }),
        0x09 => Ok(OpInfo { instruction: Instruction::Ora, mode: AddrMode::Immediate, length: 2, cycles: 2 }),
        0x0D => Ok(OpInfo { instruction: Instruction::Ora, mode: AddrMode::Absolute, length: 3, cycles: 4 }),
        0x1D => Ok(OpInfo { instruction: Instruction::Ora, mode: AddrMode::XIndexedAbsolute, length: 3, cycles: 4 }),
        0x19 => Ok(OpInfo { instruction: Instruction::Ora, mode: AddrMode::YIndexedAbsolute, length: 3, cycles: 4 }),
        0x05 => Ok(OpInfo { instruction: Instruction::Ora, mode: AddrMode::ZeroPage, length: 2, cycles: 3 }),
        0x15 => Ok(OpInfo { instruction: Instruction::Ora, mode: AddrMode::XIndexedZeroPage, length: 2, cycles: 4 }),
        0x01 => Ok(OpInfo { instruction: Instruction::Ora, mode: AddrMode::XIndexedZeroPageIndirect, length: 2, cycles: 6 }),
        0x11 => Ok(OpInfo { instruction: Instruction::Ora, mode: AddrMode::ZeroPageIndirectYIndexed, length: 2, cycles: 5 }),
        0x48 => Ok(OpInfo { instruction: Instruction::Pha, mode: AddrMode::Implied, length: 1, cycles: 3 }),
        0x08 => Ok(OpInfo { instruction: Instruction::Php, mode: AddrMode::Implied, length: 1, cycles: 3 }),
        0x68 => Ok(OpInfo { instruction: Instruction::Pla, mode: AddrMode::Implied, length: 1, cycles: 4 }),
        0x28 => Ok(OpInfo { instruction: Instruction::Plp, mode: AddrMode::Implied, length: 1, cycles: 4 }),
        0x2A => Ok(OpInfo { instruction: Instruction::Rol, mode: AddrMode::Accumulator, length: 1, cycles: 2 }),
        0x2E => Ok(OpInfo { instruction: Instruction::Rol, mode: AddrMode::Absolute, length: 3, cycles: 6 }),
        0x3E => Ok(OpInfo { instruction: Instruction::Rol, mode: AddrMode::XIndexedAbsolute, length: 3, cycles: 7 }),
        0x26 => Ok(OpInfo { instruction: Instruction::Rol, mode: AddrMode::ZeroPage, length: 2, cycles: 5 }),
        0x36 => Ok(OpInfo { instruction: Instruction::Rol, mode: AddrMode::XIndexedZeroPage, length: 2, cycles: 6 }),
        0x6A => Ok(OpInfo { instruction: Instruction::Ror, mode: AddrMode::Accumulator, length: 1, cycles: 2 }),
        0x6E => Ok(OpInfo { instruction: Instruction::Ror, mode: AddrMode::Absolute, length: 3, cycles: 6 }),
        0x7E => Ok(OpInfo { instruction: Instruction::Ror, mode: AddrMode::XIndexedAbsolute, length: 3, cycles: 7 }),
        0x66 => Ok(OpInfo { instruction: Instruction::Ror, mode: AddrMode::ZeroPage, length: 2, cycles: 5 }),
        0x76 => Ok(OpInfo { instruction: Instruction::Ror, mode: AddrMode::XIndexedZeroPage, length: 2, cycles: 6 }),
        0x40 => Ok(OpInfo { instruction: Instruction::Rti, mode: AddrMode::Implied, length: 1, cycles: 6 }),
        0x60 => Ok(OpInfo { instruction: Instruction::Rts, mode: AddrMode::Implied, length: 1, cycles: 6 }),
        0xE9 => Ok(OpInfo { instruction: Instruction::Sbc, mode: AddrMode::Immediate, length: 2, cycles: 2 }),
        0xED => Ok(OpInfo { instruction: Instruction::Sbc, mode: AddrMode::Absolute, length: 3, cycles: 4 }),
        0xFD => Ok(OpInfo { instruction: Instruction::Sbc, mode: AddrMode::XIndexedAbsolute, length: 3, cycles: 4 }),
        0xF9 => Ok(OpInfo { instruction: Instruction::Sbc, mode: AddrMode::YIndexedAbsolute, length: 3, cycles: 4 }),
        0xE5 => Ok(OpInfo { instruction: Instruction::Sbc, mode: AddrMode::ZeroPage, length: 2, cycles: 3 }),
        0xF5 => Ok(OpInfo { instruction: Instruction::Sbc, mode: AddrMode::XIndexedZeroPage, length: 2, cycles: 4 }),
        0xE1 => Ok(OpInfo { instruction: Instruction::Sbc, mode: AddrMode::XIndexedZeroPageIndirect, length: 2, cycles: 6 }),
        0xF1 => Ok(OpInfo { instruction: Instruction::Sbc, mode: AddrMode::ZeroPageIndirectYIndexed, length: 2, cycles: 5 }),
        0x38 => Ok(OpInfo { instruction: Instruction::Sec, mode: AddrMode::Implied, length: 1, cycles: 2 }),
        0xF8 => Ok(OpInfo { instruction: Instruction::Sed, mode: AddrMode::Implied, length: 1, cycles: 2 }),
        0x78 => Ok(OpInfo { instruction: Instruction::Sei, mode: AddrMode::Implied, length: 1, cycles: 2 }),
        0x8D => Ok(OpInfo { instruction: Instruction::Sta, mode: AddrMode::Absolute, length: 3, cycles: 4 }),
        0x9D => Ok(OpInfo { instruction: Instruction::Sta, mode: AddrMode::XIndexedAbsolute, length: 3, cycles: 5 }),
        0x99 => Ok(OpInfo { instruction: Instruction::Sta, mode: AddrMode::YIndexedAbsolute, length: 3, cycles: 5 }),
        0x85 => Ok(OpInfo { instruction: Instruction::Sta, mode: AddrMode::ZeroPage, length: 2, cycles: 3 }),
        0x95 => Ok(OpInfo { instruction: Instruction::Sta, mode: AddrMode::XIndexedZeroPage, length: 2, cycles: 4 }),
        0x81 => Ok(OpInfo { instruction: Instruction::Sta, mode: AddrMode::XIndexedZeroPageIndirect, length: 2, cycles: 6 }),
        0x91 => Ok(OpInfo { instruction: Instruction::Sta, mode: AddrMode::ZeroPageIndirectYIndexed, length: 2, cycles: 6 }),
        0x8E => Ok(OpInfo { instruction: Instruction::Stx, mode: AddrMode::Absolute, length: 3, cycles: 4 }),
        0x86 => Ok(OpInfo { instruction: Instruction::Stx, mode: AddrMode::ZeroPage, length: 2, cycles: 3 }),
        0x96 => Ok(OpInfo { instruction: Instruction::Stx, mode: AddrMode::YIndexedZeroPage, length: 2, cycles: 4 }),
        0x8C => Ok(OpInfo { instruction: Instruction::Sty, mode: AddrMode::Absolute, length: 3, cycles: 4 }),
        0x84 => Ok(OpInfo { instruction: Instruction::Sty, mode: AddrMode::ZeroPage, length: 2, cycles: 3 }),
        0x94 => Ok(OpInfo { instruction: Instruction::Sty, mode: AddrMode::XIndexedZeroPage, length: 2, cycles: 4 }),
        0xAA => Ok(OpInfo { instruction: Instruction::Tax, mode: AddrMode::Implied, length: 1, cycles: 2 }),
        0xA8 => Ok(OpInfo { instruction: Instruction::Tay, mode: AddrMode::Implied, length: 1, cycles: 2 }),
        0xBA => Ok(OpInfo { instruction: Instruction::Tsx, mode: AddrMode::Implied, length: 1, cycles: 2 }),
        0x8A => Ok(OpInfo { instruction: Instruction::Txa, mode: AddrMode::Implied, length: 1, cycles: 2 }),
        0x9A => Ok(OpInfo { instruction: Instruction::Txs, mode: AddrMode::Implied, length: 1, cycles: 2 }),
        0x98 => Ok(OpInfo { instruction: Instruction::Tya, mode: AddrMode::Implied, length: 1, cycles: 2 }),
        0x04 => Ok(OpInfo { instruction: Instruction::Dop, mode: AddrMode::ZeroPage, length: 2, cycles: 3 }),
        0x14 => Ok(OpInfo { instruction: Instruction::Dop, mode: AddrMode::XIndexedZeroPage, length: 2, cycles: 4 }),
        0x34 => Ok(OpInfo { instruction: Instruction::Dop, mode: AddrMode::XIndexedZeroPage, length: 2, cycles: 4 }),
        0x44 => Ok(OpInfo { instruction: Instruction::Dop, mode: AddrMode::ZeroPage, length: 2, cycles: 3 }),
        0x54 => Ok(OpInfo { instruction: Instruction::Dop, mode: AddrMode::XIndexedZeroPage, length: 2, cycles: 4 }),
        0x64 => Ok(OpInfo { instruction: Instruction::Dop, mode: AddrMode::ZeroPage, length: 2, cycles: 3 }),
        0x74 => Ok(OpInfo { instruction: Instruction::Dop, mode: AddrMode::XIndexedZeroPage, length: 2, cycles: 4 }),
        0x80 => Ok(OpInfo { instruction: Instruction::Dop, mode: AddrMode::Immediate, length: 2, cycles: 2 }),
        0x82 => Ok(OpInfo { instruction: Instruction::Dop, mode: AddrMode::Immediate, length: 2, cycles: 2 }),
        0x89 => Ok(OpInfo { instruction: Instruction::Dop, mode: AddrMode::Immediate, length: 2, cycles: 2 }),
        0xC2 => Ok(OpInfo { instruction: Instruction::Dop, mode: AddrMode::Immediate, length: 2, cycles: 2 }),
        0xD4 => Ok(OpInfo { instruction: Instruction::Dop, mode: AddrMode::XIndexedZeroPage, length: 2, cycles: 4 }),
        0xE2 => Ok(OpInfo { instruction: Instruction::Dop, mode: AddrMode::Immediate, length: 2, cycles: 2 }),
        0xF4 => Ok(OpInfo { instruction: Instruction::Dop, mode: AddrMode::XIndexedZeroPage, length: 2, cycles: 4 }),
        0x0C => Ok(OpInfo { instruction: Instruction::Top, mode: AddrMode::Absolute, length: 3, cycles: 4 }),
        0x1C => Ok(OpInfo { instruction: Instruction::Top, mode: AddrMode::XIndexedAbsolute, length: 3, cycles: 4 }),
        0x3C => Ok(OpInfo { instruction: Instruction::Top, mode: AddrMode::XIndexedAbsolute, length: 3, cycles: 4 }),
        0x5C => Ok(OpInfo { instruction: Instruction::Top, mode: AddrMode::XIndexedAbsolute, length: 3, cycles: 4 }),
        0x7C => Ok(OpInfo { instruction: Instruction::Top, mode: AddrMode::XIndexedAbsolute, length: 3, cycles: 4 }),
        0xDC => Ok(OpInfo { instruction: Instruction::Top, mode: AddrMode::XIndexedAbsolute, length: 3, cycles: 4 }),
        0xFC => Ok(OpInfo { instruction: Instruction::Top, mode: AddrMode::XIndexedAbsolute, length: 3, cycles: 4 }),
        0x1A => Ok(OpInfo { instruction: Instruction::Nop, mode: AddrMode::Implied, length: 1, cycles: 2 }),
        0x3A => Ok(OpInfo { instruction: Instruction::Nop, mode: AddrMode::Implied, length: 1, cycles: 2 }),
        0x5A => Ok(OpInfo { instruction: Instruction::Nop, mode: AddrMode::Implied, length: 1, cycles: 2 }),
        0x7A => Ok(OpInfo { instruction: Instruction::Nop, mode: AddrMode::Implied, length: 1, cycles: 2 }),
        0xDA => Ok(OpInfo { instruction: Instruction::Nop, mode: AddrMode::Implied, length: 1, cycles: 2 }),
        0xFA => Ok(OpInfo { instruction: Instruction::Nop, mode: AddrMode::Implied, length: 1, cycles: 2 }),
        0xA7 => Ok(OpInfo { instruction: Instruction::Lax, mode: AddrMode::ZeroPage, length: 2, cycles: 3 }),
        0xB7 => Ok(OpInfo { instruction: Instruction::Lax, mode: AddrMode::YIndexedZeroPage, length: 2, cycles: 4 }),
        0xAF => Ok(OpInfo { instruction: Instruction::Lax, mode: AddrMode::Absolute, length: 3, cycles: 4 }),
        0xBF => Ok(OpInfo { instruction: Instruction::Lax, mode: AddrMode::YIndexedAbsolute, length: 3, cycles: 4 }),
        0xA3 => Ok(OpInfo { instruction: Instruction::Lax, mode: AddrMode::XIndexedZeroPageIndirect, length: 2, cycles: 6 }),
        0xB3 => Ok(OpInfo { instruction: Instruction::Lax, mode: AddrMode::ZeroPageIndirectYIndexed, length: 2, cycles: 5 }),
        0x87 => Ok(OpInfo { instruction: Instruction::Sax, mode: AddrMode::ZeroPage, length: 2, cycles: 3 }),
        0x97 => Ok(OpInfo { instruction: Instruction::Sax, mode: AddrMode::YIndexedZeroPage, length: 2, cycles: 4 }),
        0x83 => Ok(OpInfo { instruction: Instruction::Sax, mode: AddrMode::XIndexedZeroPageIndirect, length: 2, cycles: 6 }),
        0x8F => Ok(OpInfo { instruction: Instruction::Sax, mode: AddrMode::Absolute, length: 3, cycles: 4 }),
        0xEB => Ok(OpInfo { instruction: Instruction::Sbc, mode: AddrMode::Immediate, length: 2, cycles: 2 }),
        0xC7 => Ok(OpInfo { instruction: Instruction::Dcp, mode: AddrMode::ZeroPage, length: 2, cycles: 5 }),
        0xD7 => Ok(OpInfo { instruction: Instruction::Dcp, mode: AddrMode::XIndexedZeroPage, length: 2, cycles: 6 }),
        0xCF => Ok(OpInfo { instruction: Instruction::Dcp, mode: AddrMode::Absolute, length: 3, cycles: 6 }),
        0xDF => Ok(OpInfo { instruction: Instruction::Dcp, mode: AddrMode::XIndexedAbsolute, length: 3, cycles: 7 }),
        0xDB => Ok(OpInfo { instruction: Instruction::Dcp, mode: AddrMode::YIndexedAbsolute, length: 3, cycles: 7 }),
        0xC3 => Ok(OpInfo { instruction: Instruction::Dcp, mode: AddrMode::XIndexedZeroPageIndirect, length: 2, cycles: 8 }),
        0xD3 => Ok(OpInfo { instruction: Instruction::Dcp, mode: AddrMode::ZeroPageIndirectYIndexed, length: 2, cycles: 8 }),
        0xE7 => Ok(OpInfo { instruction: Instruction::Isb, mode: AddrMode::ZeroPage, length: 2, cycles: 5 }),
        0xF7 => Ok(OpInfo { instruction: Instruction::Isb, mode: AddrMode::XIndexedZeroPage, length: 2, cycles: 6 }),
        0xEF => Ok(OpInfo { instruction: Instruction::Isb, mode: AddrMode::Absolute, length: 3, cycles: 6 }),
        0xFF => Ok(OpInfo { instruction: Instruction::Isb, mode: AddrMode::XIndexedAbsolute, length: 3, cycles: 7 }),
        0xFB => Ok(OpInfo { instruction: Instruction::Isb, mode: AddrMode::YIndexedAbsolute, length: 3, cycles: 7 }),
        0xE3 => Ok(OpInfo { instruction: Instruction::Isb, mode: AddrMode::XIndexedZeroPageIndirect, length: 2, cycles: 8 }),
        0xF3 => Ok(OpInfo { instruction: Instruction::Isb, mode: AddrMode::ZeroPageIndirectYIndexed, length: 2, cycles: 8 }),
        0x07 => Ok(OpInfo { instruction: Instruction::Slo, mode: AddrMode::ZeroPage, length: 2, cycles: 5 }),
        0x17 => Ok(OpInfo { instruction: Instruction::Slo, mode: AddrMode::XIndexedZeroPage, length: 2, cycles: 6 }),
        0x0F => Ok(OpInfo { instruction: Instruction::Slo, mode: AddrMode::Absolute, length: 3, cycles: 6 }),
        0x1F => Ok(OpInfo { instruction: Instruction::Slo, mode: AddrMode::XIndexedAbsolute, length: 3, cycles: 7 }),
        0x1B => Ok(OpInfo { instruction: Instruction::Slo, mode: AddrMode::YIndexedAbsolute, length: 3, cycles: 7 }),
        0x03 => Ok(OpInfo { instruction: Instruction::Slo, mode: AddrMode::XIndexedZeroPageIndirect, length: 2, cycles: 8 }),
        0x13 => Ok(OpInfo { instruction: Instruction::Slo, mode: AddrMode::ZeroPageIndirectYIndexed, length: 2, cycles: 8 }),
        0x47 => Ok(OpInfo { instruction: Instruction::Sre, mode: AddrMode::ZeroPage, length: 2, cycles: 5 }),
        0x57 => Ok(OpInfo { instruction: Instruction::Sre, mode: AddrMode::XIndexedZeroPage, length: 2, cycles: 6 }),
        0x4F => Ok(OpInfo { instruction: Instruction::Sre, mode: AddrMode::Absolute, length: 3, cycles: 6 }),
        0x5F => Ok(OpInfo { instruction: Instruction::Sre, mode: AddrMode::XIndexedAbsolute, length: 3, cycles: 7 }),
        0x5B => Ok(OpInfo { instruction: Instruction::Sre, mode: AddrMode::YIndexedAbsolute, length: 3, cycles: 7 }),
        0x43 => Ok(OpInfo { instruction: Instruction::Sre, mode: AddrMode::XIndexedZeroPageIndirect, length: 2, cycles: 8 }),
        0x53 => Ok(OpInfo { instruction: Instruction::Sre, mode: AddrMode::ZeroPageIndirectYIndexed, length: 2, cycles: 8 }),
        0x27 => Ok(OpInfo { instruction: Instruction::Rla, mode: AddrMode::ZeroPage, length: 2, cycles: 5 }),
        0x37 => Ok(OpInfo { instruction: Instruction::Rla, mode: AddrMode::XIndexedZeroPage, length: 2, cycles: 6 }),
        0x2F => Ok(OpInfo { instruction: Instruction::Rla, mode: AddrMode::Absolute, length: 3, cycles: 6 }),
        0x3F => Ok(OpInfo { instruction: Instruction::Rla, mode: AddrMode::XIndexedAbsolute, length: 3, cycles: 7 }),
        0x3B => Ok(OpInfo { instruction: Instruction::Rla, mode: AddrMode::YIndexedAbsolute, length: 3, cycles: 7 }),
        0x23 => Ok(OpInfo { instruction: Instruction::Rla, mode: AddrMode::XIndexedZeroPageIndirect, length: 2, cycles: 8 }),
        0x33 => Ok(OpInfo { instruction: Instruction::Rla, mode: AddrMode::ZeroPageIndirectYIndexed, length: 2, cycles: 8 }),
        0x67 => Ok(OpInfo { instruction: Instruction::Rra, mode: AddrMode::ZeroPage, length: 2, cycles: 5 }),
        0x77 => Ok(OpInfo { instruction: Instruction::Rra, mode: AddrMode::XIndexedZeroPage, length: 2, cycles: 6 }),
        0x6F => Ok(OpInfo { instruction: Instruction::Rra, mode: AddrMode::Absolute, length: 3, cycles: 6 }),
        0x7F => Ok(OpInfo { instruction: Instruction::Rra, mode: AddrMode::XIndexedAbsolute, length: 3, cycles: 7 }),
        0x7B => Ok(OpInfo { instruction: Instruction::Rra, mode: AddrMode::YIndexedAbsolute, length: 3, cycles: 7 }),
        0x63 => Ok(OpInfo { instruction: Instruction::Rra, mode: AddrMode::XIndexedZeroPageIndirect, length: 2, cycles: 8 }),
        0x73 => Ok(OpInfo { instruction: Instruction::Rra, mode: AddrMode::ZeroPageIndirectYIndexed, length: 2, cycles: 8 }),
        _ => Err(NesError::UnknownOpcode(opcode)),
    }
}

/// The assembler name of each operation.
pub open spec fn mnemonic_text(i: Instruction) -> Seq<char> {
    match i {
        Instruction::Adc => "ADC"@,
        Instruction::And => "AND"@,
        Instruction::Asl => "ASL"@,
        Instruction::Bcc => "BCC"@,
        Instruction::Bcs => "BCS"@,
        Instruction::Beq => "BEQ"@,
        Instruction::Bit => "BIT"@,
        Instruction::Bmi => "BMI"@,
        Instruction::Bne => "BNE"@,
        Instruction::Bpl => "BPL"@,
        Instruction::Brk => "BRK"@,
        Instruction::Bvc => "BVC"@,
        Instruction::Bvs => "BVS"@,
        Instruction::Clc => "CLC"@,
        Instruction::Cld => "CLD"@,
        Instruction::Cli => "CLI"@,
        Instruction::Clv => "CLV"@,
        Instruction::Cmp => "CMP"@,
        Instruction::Cpx => "CPX"@,
        Instruction::Cpy => "CPY"@,
        Instruction::Dec => "DEC"@,
        Instruction::Dex => "DEX"@,
        Instruction::Dey => "DEY"@,
        Instruction::Eor => "EOR"@,
        Instruction::Inc => "INC"@,
        Instruction::Inx => "INX"@,
        Instruction::Iny => "INY"@,
        Instruction::Jmp => "JMP"@,
        Instruction::Jsr => "JSR"@,
        Instruction::Lda => "LDA"@,
        Instruction::Ldx => "LDX"@,
        Instruction::Ldy => "LDY"@,
        Instruction::Lsr => "LSR"@,
        Instruction::Nop => "NOP"@,
        Instruction::Ora => "ORA"@,
        Instruction::Pha => "PHA"@,
        Instruction::Php => "PHP"@,
        Instruction::Pla => "PLA"@,
        Instruction::Plp => "PLP"@,
        Instruction::Rol => "ROL"@,
        Instruction::Ror => "ROR"@,
        Instruction::Rti => "RTI"@,
        Instruction::Rts => "RTS"@,
        Instruction::Sbc => "SBC"@,
        Instruction::Sec => "SEC"@,
        Instruction::Sed => "SED"@,
        Instruction::Sei => "SEI"@,
        Instruction::Sta => "STA"@,
        Instruction::Stx => "STX"@,
        Instruction::Sty => "STY"@,
        Instruction::Tax => "TAX"@,
        Instruction::Tay => "TAY"@,
        Instruction::Tsx => "TSX"@,
        Instruction::Txa => "TXA"@,
        Instruction::Txs => "TXS"@,
        Instruction::Tya => "TYA"@,
        Instruction::Dop => "NOP"@,
        Instruction::Top => "NOP"@,
        Instruction::Lax => "LAX"@,
        Instruction::Sax => "SAX"@,
        Instruction::Dcp => "DCP"@,
        Instruction::Isb => "ISB"@,
        Instruction::Slo => "SLO"@,
        Instruction::Sre => "SRE"@,
        Instruction::Rla => "RLA"@,
        Instruction::Rra => "RRA"@,
    }
}

impl Instruction {
    /// The assembler name of the operation; the undocumented no-operations
    /// of two and three bytes read as `NOP`.
    pub fn mnemonic(&self) -> (r: &'static str)
        ensures
            r@ == mnemonic_text(*self),
    {
        match self {
            Instruction::Adc => "ADC",
            Instruction::And => "AND",
            Instruction::Asl => "ASL",
            Instruction::Bcc => "BCC",
            Instruction::Bcs => "BCS",
            Instruction::Beq => "BEQ",
            Instruction::Bit => "BIT",
            Instruction::Bmi => "BMI",
            Instruction::Bne => "BNE",
            Instruction::Bpl => "BPL",
            Instruction::Brk => "BRK",
            Instruction::Bvc => "BVC",
            Instruction::Bvs => "BVS",
            Instruction::Clc => "CLC",
            Instruction::Cld => "CLD",
            Instruction::Cli => "CLI",
            Instruction::Clv => "CLV",
            Instruction::Cmp => "CMP",
            Instruction::Cpx => "CPX",
            Instruction::Cpy => "CPY",
            Instruction::Dec => "DEC",
            Instruction::Dex => "DEX",
            Instruction::Dey => "DEY",
            Instruction::Eor => "EOR",
            Instruction::Inc => "INC",
            Instruction::Inx => "INX",
            Instruction::Iny => "INY",
            Instruction::Jmp => "JMP",
            Instruction::Jsr => "JSR",
            Instruction::Lda => "LDA",
            Instruction::Ldx => "LDX",
            Instruction::Ldy => "LDY",
            Instruction::Lsr => "LSR",
            Instruction::Nop => "NOP",
            Instruction::Ora => "ORA",
            Instruction::Pha => "PHA",
            Instruction::Php => "PHP",
            Instruction::Pla => "PLA",
            Instruction::Plp => "PLP",
            Instruction::Rol => "ROL",
            Instruction::Ror => "ROR",
            Instruction::Rti => "RTI",
            Instruction::Rts => "RTS",
            Instruction::Sbc => "SBC",
            Instruction::Sec => "SEC",
            Instruction::Sed => "SED",
            Instruction::Sei => "SEI",
            Instruction::Sta => "STA",
            Instruction::Stx => "STX",
            Instruction::Sty => "STY",
            Instruction::Tax => "TAX",
            Instruction::Tay => "TAY",
            Instruction::Tsx => "TSX",
            Instruction::Txa => "TXA",
            Instruction::Txs => "TXS",
            Instruction::Tya => "TYA",
            Instruction::Dop => "NOP",
            Instruction::Top => "NOP",
            Instruction::Lax => "LAX",
            Instruction::Sax => "SAX",
            Instruction::Dcp => "DCP",
            Instruction::Isb => "ISB",
            Instruction::Slo => "SLO",
            Instruction::Sre => "SRE",
            Instruction::Rla => "RLA",
            Instruction::Rra => "RRA",
        }
    }
}

} // verus!
