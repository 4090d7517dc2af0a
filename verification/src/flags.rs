//! Flag calculators: pure functions computing the Z80 flag byte F for every
//! ALU-shape operation.
//!
//! Layout of F, bit 7 down to bit 0: S Z F5 H F3 PV N C.  Bits 5 and 3 are
//! the "undocumented" copies of the corresponding result bits.

use vstd::prelude::*;

verus! {

/// Carry.
pub const FLAG_C: u8 = 0x01;
/// Add/subtract.
pub const FLAG_N: u8 = 0x02;
/// Parity/overflow.
pub const FLAG_PV: u8 = 0x04;
/// Undocumented copy of result bit 3.
pub const FLAG_F3: u8 = 0x08;
/// Half carry.
pub const FLAG_H: u8 = 0x10;
/// Undocumented copy of result bit 5.
pub const FLAG_F5: u8 = 0x20;
/// Zero.
pub const FLAG_Z: u8 = 0x40;
/// Sign.
pub const FLAG_S: u8 = 0x80;

/// Number of set bits in a byte.
pub open spec fn popcount(v: u8) -> int {
    (v & 1) + ((v >> 1) & 1) + ((v >> 2) & 1) + ((v >> 3) & 1) + ((v >> 4) & 1) + ((v >> 5) & 1)
        + ((v >> 6) & 1) + ((v >> 7) & 1)
}

/// Even parity: true iff the byte has an even number of set bits.
pub open spec fn spec_parity(v: u8) -> bool {
    popcount(v) % 2 == 0
}

/// The value of a byte read as a two's-complement signed number.
pub open spec fn signed8(v: u8) -> int {
    if v < 0x80 {
        v as int
    } else {
        v - 256
    }
}

/// An integer reduced to a byte, as wrapping byte arithmetic produces it.
pub open spec fn wrap8(v: int) -> u8 {
    (v % 256) as u8
}

/// S, Z, F5 and F3 computed from a result byte.
pub open spec fn spec_sz53(r: u8) -> u8 {
    (r & 0xA8) | (if r == 0 {
        FLAG_Z
    } else {
        0u8
    })
}

/// PV set iff the byte has even parity.
pub open spec fn spec_parity_flag(v: u8) -> u8 {
    if spec_parity(v) {
        FLAG_PV
    } else {
        0u8
    }
}

/// Flags after INC: C is not included (the caller preserves it).
pub open spec fn spec_inc_flags(value: u8, result: u8) -> u8 {
    let f1 = spec_sz53(result);
    let f2 = if value == 0x7F {
        f1 | FLAG_PV
    } else {
        f1
    };
    if value & 0x0F == 0x0F {
        f2 | FLAG_H
    } else {
        f2
    }
}

/// Flags after DEC: C is not included (the caller preserves it).
pub open spec fn spec_dec_flags(value: u8, result: u8) -> u8 {
    let f1 = spec_sz53(result) | FLAG_N;
    let f2 = if value == 0x80 {
        f1 | FLAG_PV
    } else {
        f1
    };
    if value & 0x0F == 0x00 {
        f2 | FLAG_H
    } else {
        f2
    }
}

/// Flags after ADD/ADC of `b` (plus carry-in) to `a` giving `result`.
pub open spec fn spec_add_flags(a: u8, b: u8, result: u8, carry: bool) -> u8 {
    let cin: int = if carry {
        1
    } else {
        0
    };
    let f1 = spec_sz53(result);
    let f2 = if a + b + cin > 0xFF {
        f1 | FLAG_C
    } else {
        f1
    };
    let f3 = if (a & 0x0F) + (b & 0x0F) + cin > 0x0F {
        f2 | FLAG_H
    } else {
        f2
    };
    let s = signed8(a) + signed8(b) + cin;
    if s < -128 || s > 127 {
        f3 | FLAG_PV
    } else {
        f3
    }
}

/// Flags after SUB/SBC of `b` (plus borrow-in) from `a` giving `result`.
pub open spec fn spec_sub_flags(a: u8, b: u8, result: u8, carry: bool) -> u8 {
    let cin: int = if carry {
        1
    } else {
        0
    };
    let f1 = spec_sz53(result) | FLAG_N;
    let f2 = if a - b - cin < 0 {
        f1 | FLAG_C
    } else {
        f1
    };
    let f3 = if (a & 0x0F) < (b & 0x0F) + cin {
        f2 | FLAG_H
    } else {
        f2
    };
    let s = signed8(a) - signed8(b) - cin;
    if s < -128 || s > 127 {
        f3 | FLAG_PV
    } else {
        f3
    }
}

/// Flags after AND: H set, parity, N and C clear.
pub open spec fn spec_and_flags(r: u8) -> u8 {
    (spec_sz53(r) | FLAG_H) | spec_parity_flag(r)
}

/// Flags after OR/XOR: parity, H, N and C clear.
pub open spec fn spec_or_xor_flags(r: u8) -> u8 {
    spec_sz53(r) | spec_parity_flag(r)
}

/// Flags after CP: as SUB, but F3/F5 are copied from the operand.
pub open spec fn spec_cp_flags(a: u8, b: u8) -> u8 {
    let result = wrap8(a - b);
    let f = spec_sub_flags(a, b, result, false);
    (f & 0xD7) | (b & 0x28)
}

/// Even parity of a byte (true iff the number of 1 bits is even).
pub fn parity(value: u8) -> (r: bool)
    ensures
        r == spec_parity(value),
{
    let x: u8 = value ^ (value >> 4);
    let y: u8 = x ^ (x >> 2);
    let z: u8 = y ^ (y >> 1);
    proof {
        assert(((z & 1) == 0) == (((value & 1) + ((value >> 1) & 1) + ((value >> 2) & 1) + ((value
            >> 3) & 1) + ((value >> 4) & 1) + ((value >> 5) & 1) + ((value >> 6) & 1) + ((value
            >> 7) & 1)) % 2 == 0)) by (bit_vector)
            requires
                x == value ^ (value >> 4),
                y == x ^ (x >> 2),
                z == y ^ (y >> 1),
        ;
    }
    (z & 1) == 0
}

/// Sign bit of a byte.
pub fn sign(value: u8) -> (r: bool)
    ensures
        r == (value & 0x80 != 0),
{
    value & 0x80 != 0
}

/// Whether a byte is zero.
pub fn zero(value: u8) -> (r: bool)
    ensures
        r == (value == 0),
{
    value == 0
}

/// The undocumented flag bits (5 and 3) of a byte.
pub fn undoc(value: u8) -> (r: u8)
    ensures
        r == (value & 0x28),
{
    value & 0x28
}

/// S, Z, F5 and F3 from a result byte.
pub fn sz53_flags(result: u8) -> (f: u8)
    ensures
        f == spec_sz53(result),
{
    (result & 0xA8) | (if result == 0 {
        FLAG_Z
    } else {
        0u8
    })
}

/// PV from the parity of a byte.
pub fn parity_flag(value: u8) -> (f: u8)
    ensures
        f == spec_parity_flag(value),
{
    if parity(value) {
        FLAG_PV
    } else {
        0u8
    }
}

/// Flags for INC (C excluded; the caller keeps the old carry).
pub fn inc_flags(value: u8, result: u8) -> (f: u8)
    ensures
        f == spec_inc_flags(value, result),
{
    let f1 = sz53_flags(result);
    let f2 = if value == 0x7F {
        f1 | FLAG_PV
    } else {
        f1
    };
    if value & 0x0F == 0x0F {
        f2 | FLAG_H
    } else {
        f2
    }
}

/// Flags for DEC (C excluded; the caller keeps the old carry).
pub fn dec_flags(value: u8, result: u8) -> (f: u8)
    ensures
        f == spec_dec_flags(value, result),
{
    let f1 = sz53_flags(result) | FLAG_N;
    let f2 = if value == 0x80 {
        f1 | FLAG_PV
    } else {
        f1
    };
    if value & 0x0F == 0x00 {
        f2 | FLAG_H
    } else {
        f2
    }
}

/// Flags for ADD/ADC.
pub fn add_flags(a: u8, b: u8, result: u8, carry: bool) -> (f: u8)
    ensures
        f == spec_add_flags(a, b, result, carry),
{
    let cin: u8 = if carry {
        1
    } else {
        0
    };
    let f1 = sz53_flags(result);
    let sum: u16 = a as u16 + b as u16 + cin as u16;
    let f2 = if sum > 0xFF {
        f1 | FLAG_C
    } else {
        f1
    };
    proof {
        assert(a & 0x0F < 16 && b & 0x0F < 16) by (bit_vector);
    }
    let f3 = if (a & 0x0F) + (b & 0x0F) + cin > 0x0F {
        f2 | FLAG_H
    } else {
        f2
    };
    let sa: i16 = if a >= 0x80 {
        a as i16 - 256
    } else {
        a as i16
    };
    let sb: i16 = if b >= 0x80 {
        b as i16 - 256
    } else {
        b as i16
    };
    let s: i16 = sa + sb + cin as i16;
    if s < -128 || s > 127 {
        f3 | FLAG_PV
    } else {
        f3
    }
}

/// Flags for SUB/SBC.
pub fn sub_flags(a: u8, b: u8, result: u8, carry: bool) -> (f: u8)
    ensures
        f == spec_sub_flags(a, b, result, carry),
{
    let cin: u8 = if carry {
        1
    } else {
        0
    };
    let f1 = sz53_flags(result) | FLAG_N;
    let diff: i16 = a as i16 - b as i16 - cin as i16;
    let f2 = if diff < 0 {
        f1 | FLAG_C
    } else {
        f1
    };
    proof {
        assert(a & 0x0F < 16 && b & 0x0F < 16) by (bit_vector);
    }
    let f3 = if (a & 0x0F) < (b & 0x0F) + cin {
        f2 | FLAG_H
    } else {
        f2
    };
    let sa: i16 = if a >= 0x80 {
        a as i16 - 256
    } else {
        a as i16
    };
    let sb: i16 = if b >= 0x80 {
        b as i16 - 256
    } else {
        b as i16
    };
    let s: i16 = sa - sb - cin as i16;
    if s < -128 || s > 127 {
        f3 | FLAG_PV
    } else {
        f3
    }
}

/// Flags for AND.
pub fn and_flags(result: u8) -> (f: u8)
    ensures
        f == spec_and_flags(result),
{
    (sz53_flags(result) | FLAG_H) | parity_flag(result)
}

/// Flags for OR/XOR.
pub fn or_xor_flags(result: u8) -> (f: u8)
    ensures
        f == spec_or_xor_flags(result),
{
    sz53_flags(result) | parity_flag(result)
}

/// Flags for CP: SUB flags with F3/F5 taken from the operand.
pub fn cp_flags(a: u8, b: u8) -> (f: u8)
    ensures
        f == spec_cp_flags(a, b),
{
    let result = a.wrapping_sub(b);
    proof {
        assert(a.wrapping_sub(b) == wrap8(a - b)) by (bit_vector);
    }
    let f = sub_flags(a, b, result, false);
    (f & 0xD7) | (b & 0x28)
}

/// Law: the parity flag helpers agree with the popcount definition of parity.
/// For every byte, AND and OR/XOR flags have PV set iff the number of one
/// bits in the result is even.
pub proof fn lemma_parity_flags_agree(r: u8)
    ensures
        spec_parity(r) <==> popcount(r) % 2 == 0,
        (spec_and_flags(r) & FLAG_PV != 0) <==> popcount(r) % 2 == 0,
        (spec_or_xor_flags(r) & FLAG_PV != 0) <==> popcount(r) % 2 == 0,
{
    let s = spec_sz53(r);
    let p = spec_parity_flag(r);
    assert(s & FLAG_PV == 0) by (bit_vector)
        requires
            s == (r & 0xA8) | (if r == 0 {
                0x40u8
            } else {
                0u8
            }),
    ;
    if spec_parity(r) {
        assert((((s | FLAG_H) | 4u8) & FLAG_PV != 0) && ((s | 4u8) & FLAG_PV != 0))
            by (bit_vector);
    } else {
        assert((((s | FLAG_H) | 0u8) & FLAG_PV == 0) && ((s | 0u8) & FLAG_PV == 0)) by (bit_vector)
            requires
                s & 4u8 == 0,
        ;
    }
}

/// Law: the carry of ADD flags is exactly "unsigned sum exceeds 0xFF", the
/// carry of SUB flags is exactly "a < b", and the half-carry bits follow the
/// low-nibble rules.
pub proof fn lemma_add_sub_carry(a: u8, b: u8)
    ensures
        (spec_add_flags(a, b, wrap8(a + b), false) & FLAG_C != 0) <==> a + b > 0xFF,
        (spec_sub_flags(a, b, wrap8(a - b), false) & FLAG_C != 0) <==> a < b,
        (spec_add_flags(a, b, wrap8(a + b), false) & FLAG_H != 0) <==> (a & 0x0F) + (b & 0x0F)
            > 0x0F,
        (spec_sub_flags(a, b, wrap8(a - b), false) & FLAG_H != 0) <==> (a & 0x0F) < (b & 0x0F),
{
    lemma_flag_bits_add(a, b, wrap8(a + b));
    lemma_flag_bits_sub(a, b, wrap8(a - b));
}

proof fn lemma_flag_bits_add(a: u8, b: u8, r: u8)
    ensures
        (spec_add_flags(a, b, r, false) & FLAG_C != 0) <==> a + b > 0xFF,
        (spec_add_flags(a, b, r, false) & FLAG_H != 0) <==> (a & 0x0F) + (b & 0x0F) > 0x0F,
{
    let s = spec_sz53(r);
    let carry = a + b > 0xFF;
    let half = (a & 0x0F) + (b & 0x0F) > 0x0F;
    let ov = signed8(a) + signed8(b) < -128 || signed8(a) + signed8(b) > 127;
    let f2 = if carry {
        s | FLAG_C
    } else {
        s
    };
    let f3 = if half {
        f2 | FLAG_H
    } else {
        f2
    };
    let f4 = if ov {
        f3 | FLAG_PV
    } else {
        f3
    };
    assert(spec_add_flags(a, b, r, false) == f4);
    assert((f4 & FLAG_C != 0) == carry && (f4 & FLAG_H != 0) == half) by (bit_vector)
        requires
            s == (r & 0xA8) | (if r == 0 {
                0x40u8
            } else {
                0u8
            }),
            f2 == (if carry {
                s | FLAG_C
            } else {
                s
            }),
            f3 == (if half {
                f2 | FLAG_H
            } else {
                f2
            }),
            f4 == (if ov {
                f3 | FLAG_PV
            } else {
                f3
            }),
    ;
}

proof fn lemma_flag_bits_sub(a: u8, b: u8, r: u8)
    ensures
        (spec_sub_flags(a, b, r, false) & FLAG_C != 0) <==> a < b,
        (spec_sub_flags(a, b, r, false) & FLAG_H != 0) <==> (a & 0x0F) < (b & 0x0F),
{
    let s = spec_sz53(r) | FLAG_N;
    let carry = a - b < 0;
    let half = (a & 0x0F) < (b & 0x0F);
    let ov = signed8(a) - signed8(b) < -128 || signed8(a) - signed8(b) > 127;
    let f2 = if carry {
        s | FLAG_C
    } else {
        s
    };
    let f3 = if half {
        f2 | FLAG_H
    } else {
        f2
    };
    let f4 = if ov {
        f3 | FLAG_PV
    } else {
        f3
    };
    assert(spec_sub_flags(a, b, r, false) == f4);
    assert((f4 & FLAG_C != 0) == carry && (f4 & FLAG_H != 0) == half) by (bit_vector)
        requires
            s == ((r & 0xA8) | (if r == 0 {
                0x40u8
            } else {
                0u8
            })) | FLAG_N,
            f2 == (if carry {
                s | FLAG_C
            } else {
                s
            }),
            f3 == (if half {
                f2 | FLAG_H
            } else {
                f2
            }),
            f4 == (if ov {
                f3 | FLAG_PV
            } else {
                f3
            }),
    ;
}

} // verus!
