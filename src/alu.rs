use vstd::prelude::*;

use crate::cpu::Cpu;

verus! {

/// 1 when `v` is zero, else 0.
pub open spec fn zero_flag(v: u8) -> u8 {
    if v == 0 {
        1
    } else {
        0
    }
}

/// Bit 7 of `v`, its sign.
pub open spec fn sign_flag(v: u8) -> u8 {
    if v >= 0x80 {
        1
    } else {
        0
    }
}

/// `Z` and `N` from a result.
pub open spec fn with_nz(c: Cpu, v: u8) -> Cpu {
    Cpu { z: zero_flag(v), n: sign_flag(v), ..c }
}

/// The status byte `N V 1 B D I Z C`.
pub open spec fn pack(c: Cpu) -> u8 {
    (c.n << 7u8) | (c.v << 6u8) | 0x20u8 | (c.b << 4u8) | (c.d << 3u8) | (c.i << 2u8) | (c.z << 1u8)
        | c.c
}

/// The flags of `c` replaced by the bits of the status byte `p`.
pub open spec fn unpack(c: Cpu, p: u8) -> Cpu {
    Cpu {
        n: (p >> 7u8) & 1,
        v: (p >> 6u8) & 1,
        b: (p >> 4u8) & 1,
        d: (p >> 3u8) & 1,
        i: (p >> 2u8) & 1,
        z: (p >> 1u8) & 1,
        c: p & 1,
        ..c
    }
}

/// Add with carry: `A + M + C`, with the carry out of bit 7 and the signed
/// overflow of two operands of one sign giving a result of the other.
pub open spec fn adc(c: Cpu, m: u8) -> Cpu {
    let sum: int = c.a + m + c.c;
    let result: u8 = (sum % 256) as u8;
    Cpu {
        a: result,
        c: if sum > 255 {
            1
        } else {
            0
        },
        v: if (c.a ^ m) & 0x80 == 0 && (c.a ^ result) & 0x80 != 0 {
            1
        } else {
            0
        },
        ..with_nz(c, result)
    }
}

/// Subtract with borrow: `A - M - (1 - C)`; the carry is set when no borrow
/// was needed, and the overflow when operands of different signs give a
/// result whose sign differs from `A`'s.
pub open spec fn sbc(c: Cpu, m: u8) -> Cpu {
    let diff: int = c.a - m - (1 - c.c);
    let result: u8 = (diff % 256) as u8;
    Cpu {
        a: result,
        c: if diff >= 0 {
            1
        } else {
            0
        },
        v: if (c.a ^ m) & 0x80 != 0 && (c.a ^ result) & 0x80 != 0 {
            1
        } else {
            0
        },
        ..with_nz(c, result)
    }
}

/// Compare a register with `m`: the carry says `reg >= m`, `Z` and `N` come
/// from `reg - m`.
pub open spec fn compare(c: Cpu, reg: u8, m: u8) -> Cpu {
    let result: u8 = ((reg - m) % 256) as u8;
    Cpu {
        c: if reg >= m {
            1
        } else {
            0
        },
        ..with_nz(c, result)
    }
}

/// `v + 1` on eight bits.
pub open spec fn inc8(v: u8) -> u8 {
    if v == 255 {
        0
    } else {
        (v + 1) as u8
    }
}

/// `v - 1` on eight bits.
pub open spec fn dec8(v: u8) -> u8 {
    if v == 0 {
        255
    } else {
        (v - 1) as u8
    }
}

pub open spec fn shl(v: u8) -> u8 {
    ((v * 2) % 256) as u8
}

pub open spec fn shr(v: u8) -> u8 {
    v / 2
}

/// Rotate left through the carry `carry`.
pub open spec fn rotl(v: u8, carry: u8) -> u8 {
    ((v * 2) % 256 + carry) as u8
}

/// Rotate right through the carry `carry`.
pub open spec fn rotr(v: u8, carry: u8) -> u8 {
    (carry * 128 + v / 2) as u8
}

/// A shift or rotation that gave `result` and pushed `out` into the carry.
pub open spec fn shifted(c: Cpu, result: u8, out: u8) -> Cpu {
    Cpu { c: out, ..with_nz(c, result) }
}

/// Bit test: `N` and `V` from bits 7 and 6 of `m`, `Z` from `A & m`.
pub open spec fn bit_test(c: Cpu, m: u8) -> Cpu {
    Cpu {
        n: sign_flag(m),
        v: if m & 0x40 != 0 {
            1
        } else {
            0
        },
        z: zero_flag(c.a & m),
        ..c
    }
}

/// The bit string of `c`'s carry and accumulator, as a number of nine bits.
pub open spec fn carry_and_accumulator(c: Cpu) -> int {
    c.c * 256 + c.a
}

/// The status byte read back after it was written holds the same bits, with
/// bit 5 always set.
pub proof fn lemma_status_round_trip(c: Cpu, p: u8)
    ensures
        pack(unpack(c, p)) == p | 0x20,
{
    assert(((((p >> 7u8) & 1) << 7u8) | (((p >> 6u8) & 1) << 6u8) | 0x20u8 | (((p >> 4u8) & 1)
        << 4u8) | (((p >> 3u8) & 1) << 3u8) | (((p >> 2u8) & 1) << 2u8) | (((p >> 1u8) & 1) << 1u8)
        | (p & 1)) == p | 0x20) by (bit_vector);
}

/// Unpacked flags are single bits.
pub proof fn lemma_unpack_wf(c: Cpu, p: u8)
    ensures
        unpack(c, p).flags_wf(),
{
    assert((p >> 7u8) & 1 <= 1 && (p >> 6u8) & 1 <= 1 && (p >> 4u8) & 1 <= 1 && (p >> 3u8) & 1 <= 1
        && (p >> 2u8) & 1 <= 1 && (p >> 1u8) & 1 <= 1 && p & 1 <= 1) by (bit_vector);
}

/// Add with carry is addition of nine-bit numbers: the carry out and the new
/// accumulator together are `A + M + C` modulo 512.
pub proof fn lemma_adc_nine_bits(c: Cpu, m: u8)
    requires
        c.flags_wf(),
    ensures
        carry_and_accumulator(adc(c, m)) == (c.a + m + c.c) % 512,
{
}

/// Subtract with borrow is add with carry of the one's complement of the
/// operand.
pub proof fn lemma_sbc_is_adc_of_complement(c: Cpu, m: u8)
    requires
        c.flags_wf(),
    ensures
        sbc(c, m) == adc(c, m ^ 0xFF),
{
    let a = c.a;
    assert(m ^ 0xFF == 255 - m) by (bit_vector);
    let diff: int = c.a - m - (1 - c.c);
    let r: u8 = (diff % 256) as u8;
    assert((a ^ (m ^ 0xFF)) & 0x80 == 0 <==> (a ^ m) & 0x80 != 0) by (bit_vector);
    assert((a + (m ^ 0xFF) + c.c) % 256 == diff % 256);
}

} // verus!
