//! Shared instruction helpers of the Z80 interpreter: the ALU operations on
//! the accumulator, 16-bit adds, rotates, decimal adjust, relative jumps,
//! calls and returns.  Each helper carries an exact contract; the decode
//! tables in this crate are built from them.

use vstd::prelude::*;

use crate::cpu::{hi, lemma_word_parts, lo, sign_ext, spec_ex_af, spec_exx, spec_read_word, wadd16, wadd8, word, wsub16, wsub8, Z80};
use crate::cpu_ext::spec_ldx_flags;
use crate::io::IoController;
use crate::flags::{
    spec_add_flags, spec_and_flags, spec_cp_flags, spec_dec_flags, spec_inc_flags,
    spec_or_xor_flags, spec_parity_flag, spec_sub_flags, spec_sz53, wrap8, add_flags,
    and_flags, cp_flags, dec_flags, inc_flags, or_xor_flags, sub_flags, sz53_flags, parity_flag,
    FLAG_C, FLAG_H, FLAG_N, FLAG_PV, FLAG_S, FLAG_Z,
};
use crate::memory::Memory;

verus! {

/// Flags after a 16-bit add (ADD HL,rr / ADD IX,rr): S, Z and PV kept, C
/// from bit 16, H from bit 12, F5/F3 from the high byte of the result.
pub open spec fn spec_add16_flags(f: u8, x: u16, y: u16) -> u8 {
    let r = wadd16(x, y);
    let f1 = f & 0xC4;
    let f2 = if x + y > 0xFFFF {
        f1 | FLAG_C
    } else {
        f1
    };
    let f3 = if (x & 0x0FFF) + (y & 0x0FFF) > 0x0FFF {
        f2 | FLAG_H
    } else {
        f2
    };
    f3 | (hi(r) & 0x28)
}

/// Result of an accumulator rotate (RLCA/RRCA/RLA/RRA): S, Z and PV kept,
/// C from the shifted-out bit, F5/F3 from the result.
pub open spec fn spec_rot_a_flags(f: u8, result: u8, carry: bool) -> u8 {
    let f1 = f & 0xC4;
    let f2 = if carry {
        f1 | FLAG_C
    } else {
        f1
    };
    f2 | (result & 0x28)
}

/// DAA: the adjusted accumulator.
pub open spec fn spec_daa_result(a: u8, f: u8) -> u8 {
    let c1 = if (f & FLAG_H != 0) || (a & 0x0F) > 9 {
        0x06u8
    } else {
        0u8
    };
    let corr = if (f & FLAG_C != 0) || a > 0x99 {
        c1 | 0x60
    } else {
        c1
    };
    if f & FLAG_N != 0 {
        wsub8(a, corr)
    } else {
        wadd8(a, corr)
    }
}

/// DAA: the resulting flags byte.
pub open spec fn spec_daa_flags(a: u8, f: u8) -> u8 {
    let result = spec_daa_result(a, f);
    let carry = (f & FLAG_C != 0) || a > 0x99;
    let f1 = spec_sz53(result) | spec_parity_flag(result);
    let f2 = if carry {
        f1 | FLAG_C
    } else {
        f1
    };
    let f3 = if f & FLAG_N != 0 {
        f2 | FLAG_N
    } else {
        f2
    };
    let h = if f & FLAG_N != 0 {
        (f & FLAG_H != 0) && (a & 0x0F) < 6
    } else {
        (a & 0x0F) > 9
    };
    if h {
        f3 | FLAG_H
    } else {
        f3
    }
}

/// The 8-bit register selected by a three-bit opcode field (0 B, 1 C, 2 D,
/// 3 E, 4 H, 5 L, 7 A; index 6 is the `(HL)` slot and has no register).
pub open spec fn reg8(s: Z80, i: u8) -> u8 {
    if i == 0 {
        hi(s.bc)
    } else if i == 1 {
        lo(s.bc)
    } else if i == 2 {
        hi(s.de)
    } else if i == 3 {
        lo(s.de)
    } else if i == 4 {
        hi(s.hl)
    } else if i == 5 {
        lo(s.hl)
    } else {
        hi(s.af)
    }
}

/// The state with the register of a three-bit opcode field replaced.
pub open spec fn set_reg8(s: Z80, i: u8, v: u8) -> Z80 {
    if i == 0 {
        Z80 { bc: word(v, lo(s.bc)), ..s }
    } else if i == 1 {
        Z80 { bc: word(hi(s.bc), v), ..s }
    } else if i == 2 {
        Z80 { de: word(v, lo(s.de)), ..s }
    } else if i == 3 {
        Z80 { de: word(hi(s.de), v), ..s }
    } else if i == 4 {
        Z80 { hl: word(v, lo(s.hl)), ..s }
    } else if i == 5 {
        Z80 { hl: word(hi(s.hl), v), ..s }
    } else {
        Z80 { af: word(v, lo(s.af)), ..s }
    }
}

/// The register pair selected by a two-bit opcode field (0 BC, 1 DE, 2 HL,
/// 3 SP).
pub open spec fn reg16(s: Z80, i: u8) -> u16 {
    if i == 0 {
        s.bc
    } else if i == 1 {
        s.de
    } else if i == 2 {
        s.hl
    } else {
        s.sp
    }
}

/// The state with the register pair of a two-bit opcode field replaced.
pub open spec fn set_reg16(s: Z80, i: u8, v: u16) -> Z80 {
    if i == 0 {
        Z80 { bc: v, ..s }
    } else if i == 1 {
        Z80 { de: v, ..s }
    } else if i == 2 {
        Z80 { hl: v, ..s }
    } else {
        Z80 { sp: v, ..s }
    }
}

/// The accumulator and flags after the eight-way ALU selector (0 ADD,
/// 1 ADC, 2 SUB, 3 SBC, 4 AND, 5 XOR, 6 OR, 7 CP) applied to operand `v`.
pub open spec fn spec_alu_acc(s: Z80, op: u8, v: u8) -> Z80 {
    let a = hi(s.af);
    let cin = lo(s.af) & FLAG_C != 0;
    let c: int = if cin {
        1
    } else {
        0
    };
    if op == 0 {
        let r = wrap8(a + v);
        Z80 { af: word(r, spec_add_flags(a, v, r, false)), ..s }
    } else if op == 1 {
        let r = wrap8(a + v + c);
        Z80 { af: word(r, spec_add_flags(a, v, r, cin)), ..s }
    } else if op == 2 {
        let r = wrap8(a - v);
        Z80 { af: word(r, spec_sub_flags(a, v, r, false)), ..s }
    } else if op == 3 {
        let r = wrap8(a - v - c);
        Z80 { af: word(r, spec_sub_flags(a, v, r, cin)), ..s }
    } else if op == 4 {
        Z80 { af: word(a & v, spec_and_flags(a & v)), ..s }
    } else if op == 5 {
        Z80 { af: word(a ^ v, spec_or_xor_flags(a ^ v)), ..s }
    } else if op == 6 {
        Z80 { af: word(a | v, spec_or_xor_flags(a | v)), ..s }
    } else {
        Z80 { af: word(a, spec_cp_flags(a, v)), ..s }
    }
}

/// The branch condition of a three-bit opcode field over a flags byte
/// (0 NZ, 1 Z, 2 NC, 3 C, 4 PO, 5 PE, 6 P, 7 M).
pub open spec fn spec_cond(f: u8, cc: int) -> bool {
    if cc == 0 {
        f & FLAG_Z == 0
    } else if cc == 1 {
        f & FLAG_Z != 0
    } else if cc == 2 {
        f & FLAG_C == 0
    } else if cc == 3 {
        f & FLAG_C != 0
    } else if cc == 4 {
        f & FLAG_PV == 0
    } else if cc == 5 {
        f & FLAG_PV != 0
    } else if cc == 6 {
        f & FLAG_S == 0
    } else {
        f & FLAG_S != 0
    }
}

/// Memory after one instruction-byte fetch at `pc`: all data untouched,
/// the overlay possibly activated by the fetch trap.
pub open spec fn fetch_frame(pre: Memory, post: Memory, pc: u16) -> bool {
    &&& post.ram@ == pre.ram@
    &&& post.rom@ == pre.rom@
    &&& post.current_rom == pre.current_rom
    &&& post.trdos_rom_loaded == pre.trdos_rom_loaded
    &&& post.bank3 == pre.bank3
    &&& post.screen_bank == pre.screen_bank
    &&& post.paging_disabled == pre.paging_disabled
    &&& post.is_128k == pre.is_128k
    &&& post.config == pre.config
    &&& post.trdos_rom_active == (pre.trdos_rom_active || Z80::trap_fires(pc, pre))
}

/// Neither of two consecutive fetch addresses springs the overlay trap.
pub open spec fn no_trap2(pc: u16, m: Memory) -> bool {
    !Z80::trap_fires(pc, m) && !Z80::trap_fires(wadd16(pc, 1), m)
}

/// Decoded opcode fields as plain arithmetic, so that family clauses
/// evaluate on literal opcodes.
pub proof fn lemma_decode(op: u8)
    by (bit_vector)
    ensures
        op & 0x07 == op % 8,
        (op >> 3) & 0x07 == (op / 8) % 8,
        op >> 6 == op / 64,
        op & 0x0F == op % 16,
        op >> 4 == op / 16,
        op & 0x10 == ((op / 16) % 2) * 16,
{
}

impl Z80 {
    /// INC of an 8-bit value: flags from the increment, carry preserved.
    /// Returns the incremented value for the caller to store.
    pub fn inc8(&mut self, value: u8) -> (r: u8)
        ensures
            r == wadd8(value, 1),
            *final(self) == (Z80 {
                af: word(
                    hi(old(self).af),
                    spec_inc_flags(value, wadd8(value, 1)) | (lo(old(self).af) & FLAG_C),
                ),
                ..*old(self)
            }),
    {
        let result = value.wrapping_add(1);
        let f = inc_flags(value, result) | (self.f() & FLAG_C);
        self.set_f(f);
        result
    }

    /// DEC of an 8-bit value: flags from the decrement, carry preserved.
    /// Returns the decremented value for the caller to store.
    pub fn dec8(&mut self, value: u8) -> (r: u8)
        ensures
            r == wsub8(value, 1),
            *final(self) == (Z80 {
                af: word(
                    hi(old(self).af),
                    spec_dec_flags(value, wsub8(value, 1)) | (lo(old(self).af) & FLAG_C),
                ),
                ..*old(self)
            }),
    {
        let result = value.wrapping_sub(1);
        let f = dec_flags(value, result) | (self.f() & FLAG_C);
        self.set_f(f);
        result
    }

    /// ADD/ADC to the accumulator.
    pub fn add_a(&mut self, value: u8, carry: bool)
        ensures
            ({
                let a = hi(old(self).af);
                let cin: u8 = if carry {
                    1u8
                } else {
                    0u8
                };
                let r = wrap8(a + value + cin);
                *final(self) == (Z80 {
                    af: word(r, spec_add_flags(a, value, r, carry)),
                    ..*old(self)
                })
            }),
    {
        let a = self.a();
        let c: u8 = if carry {
            1
        } else {
            0
        };
        let result = a.wrapping_add(value).wrapping_add(c);
        proof {
            assert(a.wrapping_add(value).wrapping_add(if carry {
                1u8
            } else {
                0u8
            }) == wrap8(a + value + (if carry {
                1int
            } else {
                0int
            }))) by (bit_vector);
        }
        let f = add_flags(a, value, result, carry);
        self.set_af_parts(result, f);
    }

    /// SUB/SBC from the accumulator.
    pub fn sub_a(&mut self, value: u8, carry: bool)
        ensures
            ({
                let a = hi(old(self).af);
                let cin: u8 = if carry {
                    1u8
                } else {
                    0u8
                };
                let r = wrap8(a - value - cin);
                *final(self) == (Z80 {
                    af: word(r, spec_sub_flags(a, value, r, carry)),
                    ..*old(self)
                })
            }),
    {
        let a = self.a();
        let c: u8 = if carry {
            1
        } else {
            0
        };
        let result = a.wrapping_sub(value).wrapping_sub(c);
        proof {
            assert(a.wrapping_sub(value).wrapping_sub(if carry {
                1u8
            } else {
                0u8
            }) == wrap8(a - value - (if carry {
                1int
            } else {
                0int
            }))) by (bit_vector);
        }
        let f = sub_flags(a, value, result, carry);
        self.set_af_parts(result, f);
    }

    /// AND into the accumulator.
    pub fn and_a(&mut self, value: u8)
        ensures
            *final(self) == (Z80 {
                af: word(
                    hi(old(self).af) & value,
                    spec_and_flags(hi(old(self).af) & value),
                ),
                ..*old(self)
            }),
    {
        let result = self.a() & value;
        let f = and_flags(result);
        self.set_af_parts(result, f);
    }

    /// XOR into the accumulator.
    pub fn xor_a(&mut self, value: u8)
        ensures
            *final(self) == (Z80 {
                af: word(
                    hi(old(self).af) ^ value,
                    spec_or_xor_flags(hi(old(self).af) ^ value),
                ),
                ..*old(self)
            }),
    {
        let result = self.a() ^ value;
        let f = or_xor_flags(result);
        self.set_af_parts(result, f);
    }

    /// OR into the accumulator.
    pub fn or_a(&mut self, value: u8)
        ensures
            *final(self) == (Z80 {
                af: word(
                    hi(old(self).af) | value,
                    spec_or_xor_flags(hi(old(self).af) | value),
                ),
                ..*old(self)
            }),
    {
        let result = self.a() | value;
        let f = or_xor_flags(result);
        self.set_af_parts(result, f);
    }

    /// CP: compare against the accumulator, flags only.
    pub fn cp_a(&mut self, value: u8)
        ensures
            *final(self) == (Z80 {
                af: word(hi(old(self).af), spec_cp_flags(hi(old(self).af), value)),
                ..*old(self)
            }),
    {
        let f = cp_flags(self.a(), value);
        self.set_f(f);
    }

    /// ADD HL,rr.
    pub fn add_hl(&mut self, value: u16)
        ensures
            *final(self) == (Z80 {
                hl: wadd16(old(self).hl, value),
                af: word(hi(old(self).af), spec_add16_flags(lo(old(self).af), old(self).hl, value)),
                ..*old(self)
            }),
    {
        let hl = self.hl;
        let f = self.add16_flags(hl, value);
        self.hl = hl.wrapping_add(value);
        self.set_f(f);
    }

    /// ADD IX,rr / ADD IY,rr: returns the sum; flags as ADD HL.
    pub fn add_idx(&mut self, idx: u16, value: u16) -> (r: u16)
        ensures
            r == wadd16(idx, value),
            *final(self) == (Z80 {
                af: word(hi(old(self).af), spec_add16_flags(lo(old(self).af), idx, value)),
                ..*old(self)
            }),
    {
        let f = self.add16_flags(idx, value);
        self.set_f(f);
        idx.wrapping_add(value)
    }

    /// Common 16-bit add flag computation.
    fn add16_flags(&self, x: u16, y: u16) -> (f: u8)
        ensures
            f == spec_add16_flags(lo(self.af), x, y),
    {
        let r = x.wrapping_add(y);
        let f1 = self.f() & 0xC4;
        let sum: u32 = x as u32 + y as u32;
        let f2 = if sum > 0xFFFF {
            f1 | FLAG_C
        } else {
            f1
        };
        proof {
            assert(x & 0x0FFF <= 0x0FFF && y & 0x0FFF <= 0x0FFF) by (bit_vector);
        }
        let f3 = if (x & 0x0FFF) + (y & 0x0FFF) > 0x0FFF {
            f2 | FLAG_H
        } else {
            f2
        };
        let high = (r >> 8) as u8;
        f3 | (high & 0x28)
    }

    /// RLCA: rotate the accumulator left, bit 7 into carry and bit 0.
    pub fn rlca(&mut self)
        ensures
            ({
                let a = hi(old(self).af);
                let r = (a << 1) | (a >> 7);
                *final(self) == (Z80 {
                    af: word(r, spec_rot_a_flags(lo(old(self).af), r, a >> 7 != 0)),
                    ..*old(self)
                })
            }),
    {
        let a = self.a();
        let carry = a >> 7;
        let result = (a << 1) | carry;
        let f = self.rot_a_flags(result, carry != 0);
        self.set_af_parts(result, f);
    }

    /// RRCA: rotate the accumulator right, bit 0 into carry and bit 7.
    pub fn rrca(&mut self)
        ensures
            ({
                let a = hi(old(self).af);
                let r = (a >> 1) | ((a & 1) << 7);
                *final(self) == (Z80 {
                    af: word(r, spec_rot_a_flags(lo(old(self).af), r, a & 1 != 0)),
                    ..*old(self)
                })
            }),
    {
        let a = self.a();
        let carry = a & 1;
        let result = (a >> 1) | (carry << 7);
        let f = self.rot_a_flags(result, carry != 0);
        self.set_af_parts(result, f);
    }

    /// RLA: rotate the accumulator left through carry.
    pub fn rla(&mut self)
        ensures
            ({
                let a = hi(old(self).af);
                let cin: u8 = if lo(old(self).af) & FLAG_C != 0 {
                    1u8
                } else {
                    0u8
                };
                let r = (a << 1) | cin;
                *final(self) == (Z80 {
                    af: word(r, spec_rot_a_flags(lo(old(self).af), r, a >> 7 != 0)),
                    ..*old(self)
                })
            }),
    {
        let a = self.a();
        let old_carry: u8 = if self.flag(FLAG_C) {
            1
        } else {
            0
        };
        let new_carry = a >> 7;
        let result = (a << 1) | old_carry;
        let f = self.rot_a_flags(result, new_carry != 0);
        self.set_af_parts(result, f);
    }

    /// RRA: rotate the accumulator right through carry.
    pub fn rra(&mut self)
        ensures
            ({
                let a = hi(old(self).af);
                let cin: u8 = if lo(old(self).af) & FLAG_C != 0 {
                    0x80u8
                } else {
                    0u8
                };
                let r = (a >> 1) | cin;
                *final(self) == (Z80 {
                    af: word(r, spec_rot_a_flags(lo(old(self).af), r, a & 1 != 0)),
                    ..*old(self)
                })
            }),
    {
        let a = self.a();
        let old_carry: u8 = if self.flag(FLAG_C) {
            0x80
        } else {
            0
        };
        let new_carry = a & 1;
        let result = (a >> 1) | old_carry;
        let f = self.rot_a_flags(result, new_carry != 0);
        self.set_af_parts(result, f);
    }

    /// Common accumulator-rotate flag computation.
    fn rot_a_flags(&self, result: u8, carry: bool) -> (f: u8)
        ensures
            f == spec_rot_a_flags(lo(self.af), result, carry),
    {
        let f1 = self.f() & 0xC4;
        let f2 = if carry {
            f1 | FLAG_C
        } else {
            f1
        };
        f2 | (result & 0x28)
    }

    /// DAA: decimal adjust after a BCD add or subtract.
    pub fn daa(&mut self)
        ensures
            *final(self) == (Z80 {
                af: word(
                    spec_daa_result(hi(old(self).af), lo(old(self).af)),
                    spec_daa_flags(hi(old(self).af), lo(old(self).af)),
                ),
                ..*old(self)
            }),
    {
        let a = self.a();
        let c1: u8 = if self.flag(FLAG_H) || (a & 0x0F) > 9 {
            0x06
        } else {
            0
        };
        let correction: u8 = if self.flag(FLAG_C) || a > 0x99 {
            c1 | 0x60
        } else {
            c1
        };
        let carry = self.flag(FLAG_C) || a > 0x99;
        let result = if self.flag(FLAG_N) {
            a.wrapping_sub(correction)
        } else {
            a.wrapping_add(correction)
        };
        let f1 = sz53_flags(result) | parity_flag(result);
        let f2 = if carry {
            f1 | FLAG_C
        } else {
            f1
        };
        let f3 = if self.flag(FLAG_N) {
            f2 | FLAG_N
        } else {
            f2
        };
        let h = if self.flag(FLAG_N) {
            self.flag(FLAG_H) && (a & 0x0F) < 6
        } else {
            (a & 0x0F) > 9
        };
        let f = if h {
            f3 | FLAG_H
        } else {
            f3
        };
        self.set_af_parts(result, f);
    }

    /// CPL: complement the accumulator; H and N set, F5/F3 from the result.
    pub fn cpl(&mut self)
        ensures
            ({
                let r = !hi(old(self).af);
                *final(self) == (Z80 {
                    af: word(r, ((lo(old(self).af) | (FLAG_H | FLAG_N)) & 0xD7) | (r & 0x28)),
                    ..*old(self)
                })
            }),
    {
        let result = !self.a();
        let f = ((self.f() | (FLAG_H | FLAG_N)) & 0xD7) | (result & 0x28);
        self.set_af_parts(result, f);
    }

    /// SCF: set carry; S, Z and PV kept, F5/F3 from the accumulator.
    pub fn scf(&mut self)
        ensures
            *final(self) == (Z80 {
                af: word(
                    hi(old(self).af),
                    ((lo(old(self).af) & 0xC4) | FLAG_C) | (hi(old(self).af) & 0x28),
                ),
                ..*old(self)
            }),
    {
        let a = self.a();
        let f = ((self.f() & 0xC4) | FLAG_C) | (a & 0x28);
        self.set_f(f);
    }

    /// CCF: complement carry; the old carry moves into H.
    pub fn ccf(&mut self)
        ensures
            ({
                let oldc = lo(old(self).af) & FLAG_C != 0;
                let f1 = lo(old(self).af) & 0xC4;
                let f2 = if oldc {
                    f1 | FLAG_H
                } else {
                    f1 | FLAG_C
                };
                *final(self) == (Z80 {
                    af: word(hi(old(self).af), f2 | (hi(old(self).af) & 0x28)),
                    ..*old(self)
                })
            }),
    {
        let a = self.a();
        let old_carry = self.flag(FLAG_C);
        let f1 = self.f() & 0xC4;
        let f2 = if old_carry {
            f1 | FLAG_H
        } else {
            f1 | FLAG_C
        };
        self.set_f(f2 | (a & 0x28));
    }

    /// JR: unconditional relative jump.
    pub fn jr(&mut self, mem: &mut Memory)
        requires
            old(mem).wf(),
        ensures
            final(mem).wf(),
            final(mem).ram@ == old(mem).ram@,
            final(mem).rom@ == old(mem).rom@,
            final(mem).current_rom == old(mem).current_rom,
            final(mem).trdos_rom_loaded == old(mem).trdos_rom_loaded,
            final(mem).bank3 == old(mem).bank3,
            final(mem).screen_bank == old(mem).screen_bank,
            final(mem).paging_disabled == old(mem).paging_disabled,
            final(mem).is_128k == old(mem).is_128k,
            final(mem).config == old(mem).config,
            final(mem).trdos_rom_active == (old(mem).trdos_rom_active || Self::trap_fires(
                old(self).pc,
                *old(mem),
            )),
            *final(self) == (Z80 {
                pc: wadd16(
                    wadd16(old(self).pc, 1),
                    sign_ext(final(mem).spec_read(old(self).pc)),
                ),
                r: Self::spec_r_inc(old(self).r),
                ..*old(self)
            }),
    {
        let offset = self.fetch(mem);
        let ext: u16 = if offset < 0x80 {
            offset as u16
        } else {
            offset as u16 + 0xFF00
        };
        self.pc = self.pc.wrapping_add(ext);
    }

    /// Conditional JR: 12 cycles taken, 7 not taken.
    pub fn jr_cc(&mut self, mem: &mut Memory, condition: bool) -> (cycles: u8)
        requires
            old(mem).wf(),
        ensures
            final(mem).wf(),
            final(mem).ram@ == old(mem).ram@,
            final(mem).rom@ == old(mem).rom@,
            final(mem).current_rom == old(mem).current_rom,
            final(mem).trdos_rom_loaded == old(mem).trdos_rom_loaded,
            final(mem).bank3 == old(mem).bank3,
            final(mem).screen_bank == old(mem).screen_bank,
            final(mem).paging_disabled == old(mem).paging_disabled,
            final(mem).is_128k == old(mem).is_128k,
            final(mem).config == old(mem).config,
            final(mem).trdos_rom_active == (old(mem).trdos_rom_active || Self::trap_fires(
                old(self).pc,
                *old(mem),
            )),
            cycles == (if condition {
                12u8
            } else {
                7u8
            }),
            *final(self) == (Z80 {
                pc: if condition {
                    wadd16(wadd16(old(self).pc, 1), sign_ext(final(mem).spec_read(old(self).pc)))
                } else {
                    wadd16(old(self).pc, 1)
                },
                r: Self::spec_r_inc(old(self).r),
                ..*old(self)
            }),
    {
        let offset = self.fetch(mem);
        if condition {
            let ext: u16 = if offset < 0x80 {
                offset as u16
            } else {
                offset as u16 + 0xFF00
            };
            self.pc = self.pc.wrapping_add(ext);
            12
        } else {
            7
        }
    }

    /// DJNZ: decrement B and jump back while nonzero; 13 cycles taken, 8 not.
    pub fn djnz(&mut self, mem: &mut Memory) -> (cycles: u8)
        requires
            old(mem).wf(),
        ensures
            final(mem).wf(),
            final(mem).ram@ == old(mem).ram@,
            final(mem).rom@ == old(mem).rom@,
            final(mem).current_rom == old(mem).current_rom,
            final(mem).trdos_rom_loaded == old(mem).trdos_rom_loaded,
            final(mem).bank3 == old(mem).bank3,
            final(mem).screen_bank == old(mem).screen_bank,
            final(mem).paging_disabled == old(mem).paging_disabled,
            final(mem).is_128k == old(mem).is_128k,
            final(mem).config == old(mem).config,
            final(mem).trdos_rom_active == (old(mem).trdos_rom_active || Self::trap_fires(
                old(self).pc,
                *old(mem),
            )),
            ({
                let b2 = wsub8(hi(old(self).bc), 1);
                &&& cycles == (if b2 != 0 {
                    13u8
                } else {
                    8u8
                })
                &&& *final(self) == (Z80 {
                    bc: word(b2, lo(old(self).bc)),
                    pc: if b2 != 0 {
                        wadd16(
                            wadd16(old(self).pc, 1),
                            sign_ext(final(mem).spec_read(old(self).pc)),
                        )
                    } else {
                        wadd16(old(self).pc, 1)
                    },
                    r: Self::spec_r_inc(old(self).r),
                    ..*old(self)
                })
            }),
    {
        let b = self.b().wrapping_sub(1);
        self.set_b(b);
        let offset = self.fetch(mem);
        if b != 0 {
            let ext: u16 = if offset < 0x80 {
                offset as u16
            } else {
                offset as u16 + 0xFF00
            };
            self.pc = self.pc.wrapping_add(ext);
            13
        } else {
            8
        }
    }

    /// CALL: push the return address and jump.
    pub fn call(&mut self, mem: &mut Memory, addr: u16)
        requires
            old(mem).wf(),
        ensures
            final(mem).wf(),
            old(mem).same_mapping(*final(mem)),
            final(mem).ram@.len() == old(mem).ram@.len(),
            *final(self) == (Z80 { sp: wsub16(old(self).sp, 2), pc: addr, ..*old(self) }),
            ({
                let nsp = wsub16(old(self).sp, 2);
                nsp >= 0x4000 && nsp != 0xFFFF ==> final(mem).spec_read(nsp) == lo(old(self).pc)
                    && final(mem).spec_read((nsp + 1) as u16) == hi(old(self).pc)
            }),
    {
        let pc = self.pc;
        self.push(mem, pc);
        self.pc = addr;
    }

    /// RST: push the return address and jump to a fixed vector.
    pub fn rst(&mut self, mem: &mut Memory, addr: u16)
        requires
            old(mem).wf(),
        ensures
            final(mem).wf(),
            old(mem).same_mapping(*final(mem)),
            final(mem).ram@.len() == old(mem).ram@.len(),
            *final(self) == (Z80 { sp: wsub16(old(self).sp, 2), pc: addr, ..*old(self) }),
            ({
                let nsp = wsub16(old(self).sp, 2);
                nsp >= 0x4000 && nsp != 0xFFFF ==> final(mem).spec_read(nsp) == lo(old(self).pc)
                    && final(mem).spec_read((nsp + 1) as u16) == hi(old(self).pc)
            }),
    {
        let pc = self.pc;
        self.push(mem, pc);
        self.pc = addr;
    }

    /// Read an I/O port through the router.
    pub fn io_read(&mut self, io: &mut IoController, mem: &mut Memory, port: u16) -> (r: u8)
        requires
            old(io).wf(),
            old(mem).wf(),
        ensures
            final(io).wf(),
            final(mem).wf(),
            *final(self) == *old(self),
            final(mem).ram@ == old(mem).ram@,
            final(mem).rom@ == old(mem).rom@,
            final(mem).current_rom == old(mem).current_rom,
            final(mem).trdos_rom_loaded == old(mem).trdos_rom_loaded,
            final(mem).bank3 == old(mem).bank3,
            final(mem).screen_bank == old(mem).screen_bank,
            final(mem).paging_disabled == old(mem).paging_disabled,
            final(mem).is_128k == old(mem).is_128k,
            final(mem).config == old(mem).config,
            final(io).border_color == old(io).border_color,
            final(io).last_7ffd == old(io).last_7ffd,
            final(io).keyboard == old(io).keyboard,
            final(io).config == old(io).config,
    {
        io.read(port, mem)
    }

    /// Write an I/O port through the router.
    pub fn io_write(&mut self, io: &mut IoController, mem: &mut Memory, port: u16, value: u8)
        requires
            old(io).wf(),
            old(mem).wf(),
        ensures
            final(io).wf(),
            final(mem).wf(),
            *final(self) == *old(self),
            final(mem).ram@ == old(mem).ram@,
            final(mem).rom@ == old(mem).rom@,
            final(mem).trdos_rom_loaded == old(mem).trdos_rom_loaded,
            final(mem).is_128k == old(mem).is_128k,
            final(mem).config == old(mem).config,
            final(io).keyboard == old(io).keyboard,
            final(io).config == old(io).config,
    {
        io.write(port, value, mem)
    }

    /// RET: pop the return address.  Returning to an address at or above
    /// 0x4000 while the overlay ROM is active deactivates the overlay.
    pub fn ret(&mut self, mem: &mut Memory)
        requires
            old(mem).wf(),
        ensures
            final(mem).wf(),
            final(mem).ram@ == old(mem).ram@,
            final(mem).rom@ == old(mem).rom@,
            final(mem).current_rom == old(mem).current_rom,
            final(mem).trdos_rom_loaded == old(mem).trdos_rom_loaded,
            final(mem).bank3 == old(mem).bank3,
            final(mem).screen_bank == old(mem).screen_bank,
            final(mem).paging_disabled == old(mem).paging_disabled,
            final(mem).is_128k == old(mem).is_128k,
            final(mem).config == old(mem).config,
            final(mem).trdos_rom_active == (old(mem).trdos_rom_active && !(spec_read_word(
                *old(mem),
                old(self).sp,
            ) >= 0x4000)),
            *final(self) == (Z80 {
                pc: spec_read_word(*old(mem), old(self).sp),
                sp: wadd16(old(self).sp, 2),
                ..*old(self)
            }),
    {
        let return_addr = self.pop(mem);
        if mem.is_trdos_rom_active() && return_addr >= 0x4000 {
            mem.disable_trdos_rom();
        }
        self.pc = return_addr;
    }

    /// Execute one decoded opcode (the byte already fetched) and return its
    /// cycle count.  0xCB, 0xED, 0xDD and 0xFD continue in the prefix
    /// tables.  Every instruction costs between 4 and 23 cycles; the ROM
    /// images, the machine configuration and the loaded-overlay flag are
    /// never changed by an instruction.
    #[verifier::rlimit(100)]
    #[verifier::spinoff_prover]
    pub fn execute_opcode(&mut self, opcode: u8, mem: &mut Memory, io: &mut IoController) -> (cycles:
        u8)
        requires
            old(mem).wf(),
            old(io).wf(),
        ensures
            final(mem).wf(),
            final(io).wf(),
            4 <= cycles <= 23,
            final(self).cycles == old(self).cycles,
            final(mem).rom@ == old(mem).rom@,
            final(mem).trdos_rom_loaded == old(mem).trdos_rom_loaded,
            final(mem).is_128k == old(mem).is_128k,
            final(mem).config == old(mem).config,
            final(io).keyboard == old(io).keyboard,
            final(io).config == old(io).config,
            opcode == 0x00 ==> *final(self) == *old(self) && *final(mem) == *old(mem) && *final(io)
                == *old(io) && cycles == 4,
            opcode == 0x08 ==> *final(self) == spec_ex_af(*old(self)) && *final(mem) == *old(mem)
                && *final(io) == *old(io) && cycles == 4,
            opcode == 0xD9 ==> *final(self) == spec_exx(*old(self)) && *final(mem) == *old(mem)
                && *final(io) == *old(io) && cycles == 4,
            opcode == 0x76 ==> *final(self) == (Z80 { halted: true, ..*old(self) }) && *final(mem)
                == *old(mem) && *final(io) == *old(io) && cycles == 4,
            opcode == 0xF3 ==> *final(self) == (Z80 { iff1: false, iff2: false, ..*old(self) })
                && *final(mem) == *old(mem) && *final(io) == *old(io) && cycles == 4,
            opcode == 0xFB ==> *final(self) == (Z80 { iff1: true, iff2: true, ..*old(self) })
                && *final(mem) == *old(mem) && *final(io) == *old(io) && cycles == 4,
            opcode == 0xE9 ==> *final(self) == (Z80 { pc: old(self).hl, ..*old(self) }) && *final(mem) == *old(mem) && *final(io) == *old(io) && cycles == 4,
            opcode == 0xEB ==> *final(self) == (Z80 {
                de: old(self).hl,
                hl: old(self).de,
                ..*old(self)
            }) && *final(mem) == *old(mem) && *final(io) == *old(io) && cycles == 4,
            opcode == 0xF9 ==> *final(self) == (Z80 { sp: old(self).hl, ..*old(self) }) && *final(mem) == *old(mem) && *final(io) == *old(io) && cycles == 6,
            opcode == 0xC5 || opcode == 0xD5 || opcode == 0xE5 || opcode == 0xF5 ==> {
                let pushed = if opcode == 0xC5 {
                    old(self).bc
                } else if opcode == 0xD5 {
                    old(self).de
                } else if opcode == 0xE5 {
                    old(self).hl
                } else {
                    old(self).af
                };
                let nsp = wsub16(old(self).sp, 2);
                &&& *final(self) == (Z80 { sp: nsp, ..*old(self) })
                &&& *final(io) == *old(io)
                &&& old(mem).same_mapping(*final(mem))
                &&& cycles == 11
                &&& (nsp >= 0x4000 && nsp != 0xFFFF ==> final(mem).spec_read(nsp) == lo(pushed)
                    && final(mem).spec_read((nsp + 1) as u16) == hi(pushed))
            },
            opcode == 0xC1 ==> *final(self) == (Z80 {
                bc: spec_read_word(*old(mem), old(self).sp),
                sp: wadd16(old(self).sp, 2),
                ..*old(self)
            }) && *final(mem) == *old(mem) && *final(io) == *old(io) && cycles == 10,
            opcode == 0xD1 ==> *final(self) == (Z80 {
                de: spec_read_word(*old(mem), old(self).sp),
                sp: wadd16(old(self).sp, 2),
                ..*old(self)
            }) && *final(mem) == *old(mem) && *final(io) == *old(io) && cycles == 10,
            opcode == 0xE1 ==> *final(self) == (Z80 {
                hl: spec_read_word(*old(mem), old(self).sp),
                sp: wadd16(old(self).sp, 2),
                ..*old(self)
            }) && *final(mem) == *old(mem) && *final(io) == *old(io) && cycles == 10,
            opcode == 0xF1 ==> *final(self) == (Z80 {
                af: spec_read_word(*old(mem), old(self).sp),
                sp: wadd16(old(self).sp, 2),
                ..*old(self)
            }) && *final(mem) == *old(mem) && *final(io) == *old(io) && cycles == 10,
            0x40 <= opcode < 0x80 && opcode != 0x76 && opcode % 8 != 6 && (opcode / 8) % 8 != 6
                ==> *final(self) == set_reg8(
                *old(self),
                (opcode >> 3) & 0x07,
                reg8(*old(self), opcode & 0x07),
            ) && *final(mem) == *old(mem) && *final(io) == *old(io) && cycles == 4,
            0x40 <= opcode < 0x80 && opcode % 8 == 6 && (opcode / 8) % 8 != 6 ==> *final(self)
                == set_reg8(
                *old(self),
                (opcode >> 3) & 0x07,
                old(mem).spec_read(old(self).hl),
            ) && *final(mem) == *old(mem) && *final(io) == *old(io) && cycles == 7,
            0x70 <= opcode < 0x78 && opcode != 0x76 ==> *final(self) == *old(self) && *final(io)
                == *old(io) && cycles == 7 && old(mem).same_mapping(*final(mem)) && (old(self).hl
                >= 0x4000 ==> final(mem).ram@ == old(mem).ram@.update(
                old(mem).ram_index(old(self).hl),
                reg8(*old(self), opcode & 0x07),
            ) && final(mem).spec_read(old(self).hl) == reg8(*old(self), opcode & 0x07)) && (old(self).hl < 0x4000 ==> final(mem).ram@ == old(mem).ram@),
            0x80 <= opcode < 0xC0 && opcode % 8 != 6 ==> *final(self) == spec_alu_acc(
                *old(self),
                (opcode >> 3) & 0x07,
                reg8(*old(self), opcode & 0x07),
            ) && *final(mem) == *old(mem) && *final(io) == *old(io) && cycles == 4,
            0x80 <= opcode < 0xC0 && opcode % 8 == 6 ==> *final(self) == spec_alu_acc(
                *old(self),
                (opcode >> 3) & 0x07,
                old(mem).spec_read(old(self).hl),
            ) && *final(mem) == *old(mem) && *final(io) == *old(io) && cycles == 7,
            opcode >= 0xC0 && opcode % 8 == 6 ==> *final(self) == spec_alu_acc(
                (Z80 {
                    pc: wadd16(old(self).pc, 1),
                    r: Self::spec_r_inc(old(self).r),
                    ..*old(self)
                }),
                (opcode >> 3) & 0x07,
                final(mem).spec_read(old(self).pc),
            ) && fetch_frame(*old(mem), *final(mem), old(self).pc) && *final(io) == *old(io)
                && cycles == 7,
            opcode < 0x40 && opcode % 8 == 6 && (opcode / 8) % 8 != 6 ==> *final(self) == set_reg8(
                (Z80 {
                    pc: wadd16(old(self).pc, 1),
                    r: Self::spec_r_inc(old(self).r),
                    ..*old(self)
                }),
                (opcode >> 3) & 0x07,
                final(mem).spec_read(old(self).pc),
            ) && fetch_frame(*old(mem), *final(mem), old(self).pc) && *final(io) == *old(io)
                && cycles == 7,
            opcode == 0x36 ==> *final(self) == (Z80 {
                pc: wadd16(old(self).pc, 1),
                r: Self::spec_r_inc(old(self).r),
                ..*old(self)
            }) && *final(io) == *old(io) && cycles == 10 && (!Z80::trap_fires(
                old(self).pc,
                *old(mem),
            ) ==> old(mem).same_mapping(*final(mem)) && (old(self).hl >= 0x4000 ==> final(mem).ram@ == old(mem).ram@.update(
                old(mem).ram_index(old(self).hl),
                old(mem).spec_read(old(self).pc),
            ) && final(mem).spec_read(old(self).hl) == old(mem).spec_read(old(self).pc)) && (old(self).hl < 0x4000 ==> final(mem).ram@ == old(mem).ram@)),
            opcode < 0x40 && opcode % 8 == 4 && (opcode / 8) % 8 != 6 ==> ({
                let v = reg8(*old(self), (opcode >> 3) & 0x07);
                let rr = wadd8(v, 1);
                *final(self) == set_reg8(
                    (Z80 {
                        af: word(
                            hi(old(self).af),
                            spec_inc_flags(v, rr) | (lo(old(self).af) & FLAG_C),
                        ),
                        ..*old(self)
                    }),
                    (opcode >> 3) & 0x07,
                    rr,
                ) && *final(mem) == *old(mem) && *final(io) == *old(io) && cycles == 4
            }),
            opcode < 0x40 && opcode % 8 == 5 && (opcode / 8) % 8 != 6 ==> ({
                let v = reg8(*old(self), (opcode >> 3) & 0x07);
                let rr = wsub8(v, 1);
                *final(self) == set_reg8(
                    (Z80 {
                        af: word(
                            hi(old(self).af),
                            spec_dec_flags(v, rr) | (lo(old(self).af) & FLAG_C),
                        ),
                        ..*old(self)
                    }),
                    (opcode >> 3) & 0x07,
                    rr,
                ) && *final(mem) == *old(mem) && *final(io) == *old(io) && cycles == 4
            }),
            opcode == 0x34 || opcode == 0x35 ==> ({
                let v = old(mem).spec_read(old(self).hl);
                let rr = if opcode == 0x34 {
                    wadd8(v, 1)
                } else {
                    wsub8(v, 1)
                };
                let f = if opcode == 0x34 {
                    spec_inc_flags(v, rr)
                } else {
                    spec_dec_flags(v, rr)
                };
                &&& *final(self) == (Z80 {
                    af: word(hi(old(self).af), f | (lo(old(self).af) & FLAG_C)),
                    ..*old(self)
                })
                &&& *final(io) == *old(io)
                &&& cycles == 11
                &&& old(mem).same_mapping(*final(mem))
                &&& (old(self).hl >= 0x4000 ==> final(mem).ram@ == old(mem).ram@.update(
                    old(mem).ram_index(old(self).hl),
                    rr,
                ) && final(mem).spec_read(old(self).hl) == rr)
                &&& (old(self).hl < 0x4000 ==> final(mem).ram@ == old(mem).ram@)
            }),
            opcode < 0x40 && opcode % 16 == 3 ==> *final(self) == set_reg16(
                *old(self),
                opcode >> 4,
                wadd16(reg16(*old(self), opcode >> 4), 1),
            ) && *final(mem) == *old(mem) && *final(io) == *old(io) && cycles == 6,
            opcode < 0x40 && opcode % 16 == 11 ==> *final(self) == set_reg16(
                *old(self),
                opcode >> 4,
                wsub16(reg16(*old(self), opcode >> 4), 1),
            ) && *final(mem) == *old(mem) && *final(io) == *old(io) && cycles == 6,
            opcode < 0x40 && opcode % 16 == 9 ==> *final(self) == (Z80 {
                hl: wadd16(old(self).hl, reg16(*old(self), opcode >> 4)),
                af: word(
                    hi(old(self).af),
                    spec_add16_flags(lo(old(self).af), old(self).hl, reg16(*old(self), opcode >> 4)),
                ),
                ..*old(self)
            }) && *final(mem) == *old(mem) && *final(io) == *old(io) && cycles == 11,
            opcode < 0x40 && opcode % 16 == 1 && no_trap2(old(self).pc, *old(mem)) ==> *final(mem)
                == *old(mem) && *final(io) == *old(io) && cycles == 10 && *final(self)
                == set_reg16(
                (Z80 {
                    pc: wadd16(old(self).pc, 2),
                    r: Self::spec_r_inc(Self::spec_r_inc(old(self).r)),
                    ..*old(self)
                }),
                opcode >> 4,
                word(
                    old(mem).spec_read(wadd16(old(self).pc, 1)),
                    old(mem).spec_read(old(self).pc),
                ),
            ),
            opcode == 0x07 ==> ({
                let a = hi(old(self).af);
                let r = (a << 1) | (a >> 7);
                *final(self) == (Z80 {
                    af: word(r, spec_rot_a_flags(lo(old(self).af), r, a >> 7 != 0)),
                    ..*old(self)
                }) && *final(mem) == *old(mem) && *final(io) == *old(io) && cycles == 4
            }),
            opcode == 0x0F ==> ({
                let a = hi(old(self).af);
                let r = (a >> 1) | ((a & 1) << 7);
                *final(self) == (Z80 {
                    af: word(r, spec_rot_a_flags(lo(old(self).af), r, a & 1 != 0)),
                    ..*old(self)
                }) && *final(mem) == *old(mem) && *final(io) == *old(io) && cycles == 4
            }),
            opcode == 0x17 ==> ({
                let a = hi(old(self).af);
                let cin: u8 = if lo(old(self).af) & FLAG_C != 0 {
                    1u8
                } else {
                    0u8
                };
                let r = (a << 1) | cin;
                *final(self) == (Z80 {
                    af: word(r, spec_rot_a_flags(lo(old(self).af), r, a >> 7 != 0)),
                    ..*old(self)
                }) && *final(mem) == *old(mem) && *final(io) == *old(io) && cycles == 4
            }),
            opcode == 0x1F ==> ({
                let a = hi(old(self).af);
                let cin: u8 = if lo(old(self).af) & FLAG_C != 0 {
                    0x80u8
                } else {
                    0u8
                };
                let r = (a >> 1) | cin;
                *final(self) == (Z80 {
                    af: word(r, spec_rot_a_flags(lo(old(self).af), r, a & 1 != 0)),
                    ..*old(self)
                }) && *final(mem) == *old(mem) && *final(io) == *old(io) && cycles == 4
            }),
            opcode == 0x27 ==> *final(self) == (Z80 {
                af: word(
                    spec_daa_result(hi(old(self).af), lo(old(self).af)),
                    spec_daa_flags(hi(old(self).af), lo(old(self).af)),
                ),
                ..*old(self)
            }) && *final(mem) == *old(mem) && *final(io) == *old(io) && cycles == 4,
            opcode == 0x2F ==> ({
                let r = !hi(old(self).af);
                *final(self) == (Z80 {
                    af: word(r, ((lo(old(self).af) | (FLAG_H | FLAG_N)) & 0xD7) | (r & 0x28)),
                    ..*old(self)
                }) && *final(mem) == *old(mem) && *final(io) == *old(io) && cycles == 4
            }),
            opcode == 0x37 ==> *final(self) == (Z80 {
                af: word(
                    hi(old(self).af),
                    ((lo(old(self).af) & 0xC4) | FLAG_C) | (hi(old(self).af) & 0x28),
                ),
                ..*old(self)
            }) && *final(mem) == *old(mem) && *final(io) == *old(io) && cycles == 4,
            opcode == 0x3F ==> ({
                let oldc = lo(old(self).af) & FLAG_C != 0;
                let f1 = lo(old(self).af) & 0xC4;
                let f2 = if oldc {
                    f1 | FLAG_H
                } else {
                    f1 | FLAG_C
                };
                *final(self) == (Z80 {
                    af: word(hi(old(self).af), f2 | (hi(old(self).af) & 0x28)),
                    ..*old(self)
                }) && *final(mem) == *old(mem) && *final(io) == *old(io) && cycles == 4
            }),
            opcode == 0x18 ==> *final(self) == (Z80 {
                pc: wadd16(wadd16(old(self).pc, 1), sign_ext(final(mem).spec_read(old(self).pc))),
                r: Self::spec_r_inc(old(self).r),
                ..*old(self)
            }) && fetch_frame(*old(mem), *final(mem), old(self).pc) && *final(io) == *old(io)
                && cycles == 12,
            opcode == 0x20 || opcode == 0x28 || opcode == 0x30 || opcode == 0x38 ==> ({
                let taken = spec_cond(lo(old(self).af), (opcode / 8) % 8 - 4);
                &&& *final(self) == (Z80 {
                    pc: if taken {
                        wadd16(
                            wadd16(old(self).pc, 1),
                            sign_ext(final(mem).spec_read(old(self).pc)),
                        )
                    } else {
                        wadd16(old(self).pc, 1)
                    },
                    r: Self::spec_r_inc(old(self).r),
                    ..*old(self)
                })
                &&& fetch_frame(*old(mem), *final(mem), old(self).pc)
                &&& *final(io) == *old(io)
                &&& cycles == (if taken {
                    12u8
                } else {
                    7u8
                })
            }),
            opcode == 0x10 ==> ({
                let b2 = wsub8(hi(old(self).bc), 1);
                &&& *final(self) == (Z80 {
                    bc: word(b2, lo(old(self).bc)),
                    pc: if b2 != 0 {
                        wadd16(
                            wadd16(old(self).pc, 1),
                            sign_ext(final(mem).spec_read(old(self).pc)),
                        )
                    } else {
                        wadd16(old(self).pc, 1)
                    },
                    r: Self::spec_r_inc(old(self).r),
                    ..*old(self)
                })
                &&& fetch_frame(*old(mem), *final(mem), old(self).pc)
                &&& *final(io) == *old(io)
                &&& cycles == (if b2 != 0 {
                    13u8
                } else {
                    8u8
                })
            }),
            opcode == 0xC3 && no_trap2(old(self).pc, *old(mem)) ==> *final(self) == (Z80 {
                pc: word(
                    old(mem).spec_read(wadd16(old(self).pc, 1)),
                    old(mem).spec_read(old(self).pc),
                ),
                r: Self::spec_r_inc(Self::spec_r_inc(old(self).r)),
                ..*old(self)
            }) && *final(mem) == *old(mem) && *final(io) == *old(io) && cycles == 10,
            opcode >= 0xC0 && opcode % 8 == 2 && no_trap2(old(self).pc, *old(mem)) ==> ({
                let taken = spec_cond(lo(old(self).af), ((opcode / 8) % 8) as int);
                *final(self) == (Z80 {
                    pc: if taken {
                        word(
                            old(mem).spec_read(wadd16(old(self).pc, 1)),
                            old(mem).spec_read(old(self).pc),
                        )
                    } else {
                        wadd16(old(self).pc, 2)
                    },
                    r: Self::spec_r_inc(Self::spec_r_inc(old(self).r)),
                    ..*old(self)
                }) && *final(mem) == *old(mem) && *final(io) == *old(io) && cycles == 10
            }),
            ((opcode >= 0xC0 && opcode % 8 == 4) || opcode == 0xCD) && no_trap2(
                old(self).pc,
                *old(mem),
            ) ==> ({
                let taken = opcode == 0xCD || spec_cond(lo(old(self).af), ((opcode / 8) % 8) as int);
                let target = word(
                    old(mem).spec_read(wadd16(old(self).pc, 1)),
                    old(mem).spec_read(old(self).pc),
                );
                let ret = wadd16(old(self).pc, 2);
                let nsp = wsub16(old(self).sp, 2);
                &&& *final(io) == *old(io)
                &&& cycles == (if taken {
                    17u8
                } else {
                    10u8
                })
                &&& *final(self) == (Z80 {
                    pc: if taken {
                        target
                    } else {
                        ret
                    },
                    sp: if taken {
                        nsp
                    } else {
                        old(self).sp
                    },
                    r: Self::spec_r_inc(Self::spec_r_inc(old(self).r)),
                    ..*old(self)
                })
                &&& (!taken ==> *final(mem) == *old(mem))
                &&& (taken ==> old(mem).same_mapping(*final(mem)) && final(mem).ram@.len() == old(mem).ram@.len() && (nsp >= 0x4000 && nsp != 0xFFFF ==> final(mem).spec_read(nsp)
                    == lo(ret) && final(mem).spec_read((nsp + 1) as u16) == hi(ret)))
            }),
            opcode >= 0xC0 && opcode % 8 == 0 ==> ({
                let taken = spec_cond(lo(old(self).af), ((opcode / 8) % 8) as int);
                let popped = spec_read_word(*old(mem), old(self).sp);
                &&& *final(io) == *old(io)
                &&& cycles == (if taken {
                    11u8
                } else {
                    5u8
                })
                &&& (!taken ==> *final(self) == *old(self) && *final(mem) == *old(mem))
                &&& (taken ==> *final(self) == (Z80 {
                    pc: popped,
                    sp: wadd16(old(self).sp, 2),
                    ..*old(self)
                }) && final(mem).ram@ == old(mem).ram@ && final(mem).rom@ == old(mem).rom@
                    && final(mem).current_rom == old(mem).current_rom && final(mem).trdos_rom_loaded == old(mem).trdos_rom_loaded && final(mem).bank3 == old(mem).bank3 && final(mem).screen_bank == old(mem).screen_bank && final(mem).paging_disabled == old(mem).paging_disabled && final(mem).is_128k == old(mem).is_128k && final(mem).config == old(mem).config && final(mem).trdos_rom_active
                    == (old(mem).trdos_rom_active && !(popped >= 0x4000)))
            }),
            opcode == 0xC9 ==> ({
                let popped = spec_read_word(*old(mem), old(self).sp);
                &&& *final(io) == *old(io)
                &&& cycles == 10
                &&& *final(self) == (Z80 { pc: popped, sp: wadd16(old(self).sp, 2), ..*old(self) })
                &&& final(mem).ram@ == old(mem).ram@
                &&& final(mem).trdos_rom_active == (old(mem).trdos_rom_active && !(popped
                    >= 0x4000))
            }),
            opcode >= 0xC0 && opcode % 8 == 7 ==> ({
                let nsp = wsub16(old(self).sp, 2);
                &&& *final(io) == *old(io)
                &&& cycles == 11
                &&& *final(self) == (Z80 {
                    pc: (((opcode / 8) % 8) * 8) as u16,
                    sp: nsp,
                    ..*old(self)
                })
                &&& old(mem).same_mapping(*final(mem))
                &&& final(mem).ram@.len() == old(mem).ram@.len()
                &&& (nsp >= 0x4000 && nsp != 0xFFFF ==> final(mem).spec_read(nsp) == lo(
                    old(self).pc,
                ) && final(mem).spec_read((nsp + 1) as u16) == hi(old(self).pc))
            }),
            opcode == 0x02 || opcode == 0x12 ==> ({
                let addr = if opcode == 0x02 {
                    old(self).bc
                } else {
                    old(self).de
                };
                &&& *final(self) == *old(self)
                &&& *final(io) == *old(io)
                &&& cycles == 7
                &&& old(mem).same_mapping(*final(mem))
                &&& (addr >= 0x4000 ==> final(mem).spec_read(addr) == hi(old(self).af))
                &&& (addr < 0x4000 ==> final(mem).ram@ == old(mem).ram@)
            }),
            opcode == 0x0A || opcode == 0x1A ==> ({
                let addr = if opcode == 0x0A {
                    old(self).bc
                } else {
                    old(self).de
                };
                *final(self) == (Z80 {
                    af: word(old(mem).spec_read(addr), lo(old(self).af)),
                    ..*old(self)
                }) && *final(mem) == *old(mem) && *final(io) == *old(io) && cycles == 7
            }),
            opcode == 0x32 && no_trap2(old(self).pc, *old(mem)) ==> ({
                let addr = word(
                    old(mem).spec_read(wadd16(old(self).pc, 1)),
                    old(mem).spec_read(old(self).pc),
                );
                &&& *final(self) == (Z80 {
                    pc: wadd16(old(self).pc, 2),
                    r: Self::spec_r_inc(Self::spec_r_inc(old(self).r)),
                    ..*old(self)
                })
                &&& *final(io) == *old(io)
                &&& cycles == 13
                &&& old(mem).same_mapping(*final(mem))
                &&& (addr >= 0x4000 ==> final(mem).spec_read(addr) == hi(old(self).af))
                &&& (addr < 0x4000 ==> final(mem).ram@ == old(mem).ram@)
            }),
            opcode == 0x3A && no_trap2(old(self).pc, *old(mem)) ==> ({
                let addr = word(
                    old(mem).spec_read(wadd16(old(self).pc, 1)),
                    old(mem).spec_read(old(self).pc),
                );
                *final(self) == (Z80 {
                    af: word(old(mem).spec_read(addr), lo(old(self).af)),
                    pc: wadd16(old(self).pc, 2),
                    r: Self::spec_r_inc(Self::spec_r_inc(old(self).r)),
                    ..*old(self)
                }) && *final(mem) == *old(mem) && *final(io) == *old(io) && cycles == 13
            }),
            opcode == 0x22 && no_trap2(old(self).pc, *old(mem)) ==> ({
                let addr = word(
                    old(mem).spec_read(wadd16(old(self).pc, 1)),
                    old(mem).spec_read(old(self).pc),
                );
                &&& *final(self) == (Z80 {
                    pc: wadd16(old(self).pc, 2),
                    r: Self::spec_r_inc(Self::spec_r_inc(old(self).r)),
                    ..*old(self)
                })
                &&& *final(io) == *old(io)
                &&& cycles == 16
                &&& old(mem).same_mapping(*final(mem))
                &&& (addr >= 0x4000 && addr != 0xFFFF ==> final(mem).spec_read(addr) == lo(
                    old(self).hl,
                ) && final(mem).spec_read((addr + 1) as u16) == hi(old(self).hl))
            }),
            opcode == 0x2A && no_trap2(old(self).pc, *old(mem)) ==> ({
                let addr = word(
                    old(mem).spec_read(wadd16(old(self).pc, 1)),
                    old(mem).spec_read(old(self).pc),
                );
                *final(self) == (Z80 {
                    hl: spec_read_word(*old(mem), addr),
                    pc: wadd16(old(self).pc, 2),
                    r: Self::spec_r_inc(Self::spec_r_inc(old(self).r)),
                    ..*old(self)
                }) && *final(mem) == *old(mem) && *final(io) == *old(io) && cycles == 16
            }),
            opcode == 0xE3 ==> ({
                &&& *final(self) == (Z80 {
                    hl: spec_read_word(*old(mem), old(self).sp),
                    ..*old(self)
                })
                &&& *final(io) == *old(io)
                &&& cycles == 19
                &&& old(mem).same_mapping(*final(mem))
                &&& (old(self).sp >= 0x4000 && old(self).sp != 0xFFFF ==> final(mem).spec_read(
                    old(self).sp,
                ) == lo(old(self).hl) && final(mem).spec_read((old(self).sp + 1) as u16) == hi(
                    old(self).hl,
                ))
            }),
            opcode == 0xD3 ==> *final(self) == (Z80 {
                pc: wadd16(old(self).pc, 1),
                r: Self::spec_r_inc(old(self).r),
                ..*old(self)
            }) && cycles == 11,
            opcode == 0xDB ==> cycles == 11 && lo(final(self).af) == lo(old(self).af)
                && *final(self) == (Z80 {
                af: final(self).af,
                pc: wadd16(old(self).pc, 1),
                r: Self::spec_r_inc(old(self).r),
                ..*old(self)
            }),
            opcode == 0xED && !Z80::trap_fires(old(self).pc, *old(mem)) && old(mem).spec_read(
                old(self).pc,
            ) == 0xB0 ==> ({
                let val = old(mem).spec_read(old(self).hl);
                let bc2 = wsub16(old(self).bc, 1);
                &&& *final(io) == *old(io)
                &&& cycles == (if bc2 != 0 {
                    21u8
                } else {
                    16u8
                })
                &&& *final(self) == (Z80 {
                    hl: wadd16(old(self).hl, 1),
                    de: wadd16(old(self).de, 1),
                    bc: bc2,
                    af: word(
                        hi(old(self).af),
                        spec_ldx_flags(lo(old(self).af), hi(old(self).af), val, bc2),
                    ),
                    pc: if bc2 != 0 {
                        wsub16(old(self).pc, 1)
                    } else {
                        wadd16(old(self).pc, 1)
                    },
                    r: Self::spec_r_inc(old(self).r),
                    ..*old(self)
                })
                &&& old(mem).same_mapping(*final(mem))
                &&& (old(self).de >= 0x4000 ==> final(mem).ram@ == old(mem).ram@.update(
                    old(mem).ram_index(old(self).de),
                    val,
                ))
                &&& (old(self).de < 0x4000 ==> final(mem).ram@ == old(mem).ram@)
            }),
    {
        if opcode < 0x40 {
            self.exec_misc(opcode, mem, io)
        } else if opcode < 0x80 {
            self.exec_loads(opcode, mem, io)
        } else if opcode < 0xC0 {
            self.exec_alu(opcode, mem, io)
        } else {
            self.exec_control(opcode, mem, io)
        }
    }

    /// Opcodes 0x00-0x3F: immediate loads, 16-bit arithmetic, accumulator rotates and adjusts, relative jumps, the memory one-offs.
    #[verifier::rlimit(100)]
    #[verifier::spinoff_prover]
    fn exec_misc(&mut self, opcode: u8, mem: &mut Memory, io: &mut IoController) -> (cycles: u8)
        requires
            old(mem).wf(),
            old(io).wf(),
            opcode < 0x40,
        ensures
            final(mem).wf(),
            final(io).wf(),
            4 <= cycles <= 23,
            final(self).cycles == old(self).cycles,
            final(mem).rom@ == old(mem).rom@,
            final(mem).trdos_rom_loaded == old(mem).trdos_rom_loaded,
            final(mem).is_128k == old(mem).is_128k,
            final(mem).config == old(mem).config,
            final(io).keyboard == old(io).keyboard,
            final(io).config == old(io).config,
            opcode == 0x00 ==> *final(self) == *old(self) && *final(mem) == *old(mem) && *final(io)
                == *old(io) && cycles == 4,
            opcode == 0x08 ==> *final(self) == spec_ex_af(*old(self)) && *final(mem) == *old(mem)
                && *final(io) == *old(io) && cycles == 4,
            opcode < 0x40 && opcode % 8 == 6 && (opcode / 8) % 8 != 6 ==> *final(self) == set_reg8(
                (Z80 {
                    pc: wadd16(old(self).pc, 1),
                    r: Self::spec_r_inc(old(self).r),
                    ..*old(self)
                }),
                (opcode >> 3) & 0x07,
                final(mem).spec_read(old(self).pc),
            ) && fetch_frame(*old(mem), *final(mem), old(self).pc) && *final(io) == *old(io)
                && cycles == 7,
            opcode == 0x36 ==> *final(self) == (Z80 {
                pc: wadd16(old(self).pc, 1),
                r: Self::spec_r_inc(old(self).r),
                ..*old(self)
            }) && *final(io) == *old(io) && cycles == 10 && (!Z80::trap_fires(
                old(self).pc,
                *old(mem),
            ) ==> old(mem).same_mapping(*final(mem)) && (old(self).hl >= 0x4000 ==> final(mem).ram@ == old(mem).ram@.update(
                old(mem).ram_index(old(self).hl),
                old(mem).spec_read(old(self).pc),
            ) && final(mem).spec_read(old(self).hl) == old(mem).spec_read(old(self).pc)) && (old(self).hl < 0x4000 ==> final(mem).ram@ == old(mem).ram@)),
            opcode < 0x40 && opcode % 8 == 4 && (opcode / 8) % 8 != 6 ==> ({
                let v = reg8(*old(self), (opcode >> 3) & 0x07);
                let rr = wadd8(v, 1);
                *final(self) == set_reg8(
                    (Z80 {
                        af: word(
                            hi(old(self).af),
                            spec_inc_flags(v, rr) | (lo(old(self).af) & FLAG_C),
                        ),
                        ..*old(self)
                    }),
                    (opcode >> 3) & 0x07,
                    rr,
                ) && *final(mem) == *old(mem) && *final(io) == *old(io) && cycles == 4
            }),
            opcode < 0x40 && opcode % 8 == 5 && (opcode / 8) % 8 != 6 ==> ({
                let v = reg8(*old(self), (opcode >> 3) & 0x07);
                let rr = wsub8(v, 1);
                *final(self) == set_reg8(
                    (Z80 {
                        af: word(
                            hi(old(self).af),
                            spec_dec_flags(v, rr) | (lo(old(self).af) & FLAG_C),
                        ),
                        ..*old(self)
                    }),
                    (opcode >> 3) & 0x07,
                    rr,
                ) && *final(mem) == *old(mem) && *final(io) == *old(io) && cycles == 4
            }),
            opcode == 0x34 || opcode == 0x35 ==> ({
                let v = old(mem).spec_read(old(self).hl);
                let rr = if opcode == 0x34 {
                    wadd8(v, 1)
                } else {
                    wsub8(v, 1)
                };
                let f = if opcode == 0x34 {
                    spec_inc_flags(v, rr)
                } else {
                    spec_dec_flags(v, rr)
                };
                &&& *final(self) == (Z80 {
                    af: word(hi(old(self).af), f | (lo(old(self).af) & FLAG_C)),
                    ..*old(self)
                })
                &&& *final(io) == *old(io)
                &&& cycles == 11
                &&& old(mem).same_mapping(*final(mem))
                &&& (old(self).hl >= 0x4000 ==> final(mem).ram@ == old(mem).ram@.update(
                    old(mem).ram_index(old(self).hl),
                    rr,
                ) && final(mem).spec_read(old(self).hl) == rr)
                &&& (old(self).hl < 0x4000 ==> final(mem).ram@ == old(mem).ram@)
            }),
            opcode < 0x40 && opcode % 16 == 3 ==> *final(self) == set_reg16(
                *old(self),
                opcode >> 4,
                wadd16(reg16(*old(self), opcode >> 4), 1),
            ) && *final(mem) == *old(mem) && *final(io) == *old(io) && cycles == 6,
            opcode < 0x40 && opcode % 16 == 11 ==> *final(self) == set_reg16(
                *old(self),
                opcode >> 4,
                wsub16(reg16(*old(self), opcode >> 4), 1),
            ) && *final(mem) == *old(mem) && *final(io) == *old(io) && cycles == 6,
            opcode < 0x40 && opcode % 16 == 9 ==> *final(self) == (Z80 {
                hl: wadd16(old(self).hl, reg16(*old(self), opcode >> 4)),
                af: word(
                    hi(old(self).af),
                    spec_add16_flags(lo(old(self).af), old(self).hl, reg16(*old(self), opcode >> 4)),
                ),
                ..*old(self)
            }) && *final(mem) == *old(mem) && *final(io) == *old(io) && cycles == 11,
            opcode < 0x40 && opcode % 16 == 1 && no_trap2(old(self).pc, *old(mem)) ==> *final(mem)
                == *old(mem) && *final(io) == *old(io) && cycles == 10 && *final(self)
                == set_reg16(
                (Z80 {
                    pc: wadd16(old(self).pc, 2),
                    r: Self::spec_r_inc(Self::spec_r_inc(old(self).r)),
                    ..*old(self)
                }),
                opcode >> 4,
                word(
                    old(mem).spec_read(wadd16(old(self).pc, 1)),
                    old(mem).spec_read(old(self).pc),
                ),
            ),
            opcode == 0x07 ==> ({
                let a = hi(old(self).af);
                let r = (a << 1) | (a >> 7);
                *final(self) == (Z80 {
                    af: word(r, spec_rot_a_flags(lo(old(self).af), r, a >> 7 != 0)),
                    ..*old(self)
                }) && *final(mem) == *old(mem) && *final(io) == *old(io) && cycles == 4
            }),
            opcode == 0x0F ==> ({
                let a = hi(old(self).af);
                let r = (a >> 1) | ((a & 1) << 7);
                *final(self) == (Z80 {
                    af: word(r, spec_rot_a_flags(lo(old(self).af), r, a & 1 != 0)),
                    ..*old(self)
                }) && *final(mem) == *old(mem) && *final(io) == *old(io) && cycles == 4
            }),
            opcode == 0x17 ==> ({
                let a = hi(old(self).af);
                let cin: u8 = if lo(old(self).af) & FLAG_C != 0 {
                    1u8
                } else {
                    0u8
                };
                let r = (a << 1) | cin;
                *final(self) == (Z80 {
                    af: word(r, spec_rot_a_flags(lo(old(self).af), r, a >> 7 != 0)),
                    ..*old(self)
                }) && *final(mem) == *old(mem) && *final(io) == *old(io) && cycles == 4
            }),
            opcode == 0x1F ==> ({
                let a = hi(old(self).af);
                let cin: u8 = if lo(old(self).af) & FLAG_C != 0 {
                    0x80u8
                } else {
                    0u8
                };
                let r = (a >> 1) | cin;
                *final(self) == (Z80 {
                    af: word(r, spec_rot_a_flags(lo(old(self).af), r, a & 1 != 0)),
                    ..*old(self)
                }) && *final(mem) == *old(mem) && *final(io) == *old(io) && cycles == 4
            }),
            opcode == 0x27 ==> *final(self) == (Z80 {
                af: word(
                    spec_daa_result(hi(old(self).af), lo(old(self).af)),
                    spec_daa_flags(hi(old(self).af), lo(old(self).af)),
                ),
                ..*old(self)
            }) && *final(mem) == *old(mem) && *final(io) == *old(io) && cycles == 4,
            opcode == 0x2F ==> ({
                let r = !hi(old(self).af);
                *final(self) == (Z80 {
                    af: word(r, ((lo(old(self).af) | (FLAG_H | FLAG_N)) & 0xD7) | (r & 0x28)),
                    ..*old(self)
                }) && *final(mem) == *old(mem) && *final(io) == *old(io) && cycles == 4
            }),
            opcode == 0x37 ==> *final(self) == (Z80 {
                af: word(
                    hi(old(self).af),
                    ((lo(old(self).af) & 0xC4) | FLAG_C) | (hi(old(self).af) & 0x28),
                ),
                ..*old(self)
            }) && *final(mem) == *old(mem) && *final(io) == *old(io) && cycles == 4,
            opcode == 0x3F ==> ({
                let oldc = lo(old(self).af) & FLAG_C != 0;
                let f1 = lo(old(self).af) & 0xC4;
                let f2 = if oldc {
                    f1 | FLAG_H
                } else {
                    f1 | FLAG_C
                };
                *final(self) == (Z80 {
                    af: word(hi(old(self).af), f2 | (hi(old(self).af) & 0x28)),
                    ..*old(self)
                }) && *final(mem) == *old(mem) && *final(io) == *old(io) && cycles == 4
            }),
            opcode == 0x18 ==> *final(self) == (Z80 {
                pc: wadd16(wadd16(old(self).pc, 1), sign_ext(final(mem).spec_read(old(self).pc))),
                r: Self::spec_r_inc(old(self).r),
                ..*old(self)
            }) && fetch_frame(*old(mem), *final(mem), old(self).pc) && *final(io) == *old(io)
                && cycles == 12,
            opcode == 0x20 || opcode == 0x28 || opcode == 0x30 || opcode == 0x38 ==> ({
                let taken = spec_cond(lo(old(self).af), (opcode / 8) % 8 - 4);
                &&& *final(self) == (Z80 {
                    pc: if taken {
                        wadd16(
                            wadd16(old(self).pc, 1),
                            sign_ext(final(mem).spec_read(old(self).pc)),
                        )
                    } else {
                        wadd16(old(self).pc, 1)
                    },
                    r: Self::spec_r_inc(old(self).r),
                    ..*old(self)
                })
                &&& fetch_frame(*old(mem), *final(mem), old(self).pc)
                &&& *final(io) == *old(io)
                &&& cycles == (if taken {
                    12u8
                } else {
                    7u8
                })
            }),
            opcode == 0x10 ==> ({
                let b2 = wsub8(hi(old(self).bc), 1);
                &&& *final(self) == (Z80 {
                    bc: word(b2, lo(old(self).bc)),
                    pc: if b2 != 0 {
                        wadd16(
                            wadd16(old(self).pc, 1),
                            sign_ext(final(mem).spec_read(old(self).pc)),
                        )
                    } else {
                        wadd16(old(self).pc, 1)
                    },
                    r: Self::spec_r_inc(old(self).r),
                    ..*old(self)
                })
                &&& fetch_frame(*old(mem), *final(mem), old(self).pc)
                &&& *final(io) == *old(io)
                &&& cycles == (if b2 != 0 {
                    13u8
                } else {
                    8u8
                })
            }),
            opcode == 0x02 || opcode == 0x12 ==> ({
                let addr = if opcode == 0x02 {
                    old(self).bc
                } else {
                    old(self).de
                };
                &&& *final(self) == *old(self)
                &&& *final(io) == *old(io)
                &&& cycles == 7
                &&& old(mem).same_mapping(*final(mem))
                &&& (addr >= 0x4000 ==> final(mem).spec_read(addr) == hi(old(self).af))
                &&& (addr < 0x4000 ==> final(mem).ram@ == old(mem).ram@)
            }),
            opcode == 0x0A || opcode == 0x1A ==> ({
                let addr = if opcode == 0x0A {
                    old(self).bc
                } else {
                    old(self).de
                };
                *final(self) == (Z80 {
                    af: word(old(mem).spec_read(addr), lo(old(self).af)),
                    ..*old(self)
                }) && *final(mem) == *old(mem) && *final(io) == *old(io) && cycles == 7
            }),
            opcode == 0x32 && no_trap2(old(self).pc, *old(mem)) ==> ({
                let addr = word(
                    old(mem).spec_read(wadd16(old(self).pc, 1)),
                    old(mem).spec_read(old(self).pc),
                );
                &&& *final(self) == (Z80 {
                    pc: wadd16(old(self).pc, 2),
                    r: Self::spec_r_inc(Self::spec_r_inc(old(self).r)),
                    ..*old(self)
                })
                &&& *final(io) == *old(io)
                &&& cycles == 13
                &&& old(mem).same_mapping(*final(mem))
                &&& (addr >= 0x4000 ==> final(mem).spec_read(addr) == hi(old(self).af))
                &&& (addr < 0x4000 ==> final(mem).ram@ == old(mem).ram@)
            }),
            opcode == 0x3A && no_trap2(old(self).pc, *old(mem)) ==> ({
                let addr = word(
                    old(mem).spec_read(wadd16(old(self).pc, 1)),
                    old(mem).spec_read(old(self).pc),
                );
                *final(self) == (Z80 {
                    af: word(old(mem).spec_read(addr), lo(old(self).af)),
                    pc: wadd16(old(self).pc, 2),
                    r: Self::spec_r_inc(Self::spec_r_inc(old(self).r)),
                    ..*old(self)
                }) && *final(mem) == *old(mem) && *final(io) == *old(io) && cycles == 13
            }),
            opcode == 0x22 && no_trap2(old(self).pc, *old(mem)) ==> ({
                let addr = word(
                    old(mem).spec_read(wadd16(old(self).pc, 1)),
                    old(mem).spec_read(old(self).pc),
                );
                &&& *final(self) == (Z80 {
                    pc: wadd16(old(self).pc, 2),
                    r: Self::spec_r_inc(Self::spec_r_inc(old(self).r)),
                    ..*old(self)
                })
                &&& *final(io) == *old(io)
                &&& cycles == 16
                &&& old(mem).same_mapping(*final(mem))
                &&& (addr >= 0x4000 && addr != 0xFFFF ==> final(mem).spec_read(addr) == lo(
                    old(self).hl,
                ) && final(mem).spec_read((addr + 1) as u16) == hi(old(self).hl))
            }),
            opcode == 0x2A && no_trap2(old(self).pc, *old(mem)) ==> ({
                let addr = word(
                    old(mem).spec_read(wadd16(old(self).pc, 1)),
                    old(mem).spec_read(old(self).pc),
                );
                *final(self) == (Z80 {
                    hl: spec_read_word(*old(mem), addr),
                    pc: wadd16(old(self).pc, 2),
                    r: Self::spec_r_inc(Self::spec_r_inc(old(self).r)),
                    ..*old(self)
                }) && *final(mem) == *old(mem) && *final(io) == *old(io) && cycles == 16
            }),
    {
        proof {
            lemma_decode(opcode);
        }
        match opcode {
            0x00 => 4,
            0x01 => {
                self.bc = self.fetch_word(mem);
                10
            },
            0x02 => {
                let a = self.a();
                self.write_byte(mem, self.bc, a);
                7
            },
            0x03 => {
                self.bc = self.bc.wrapping_add(1);
                6
            },
            0x04 => {
                let v = self.b();
                let r = self.inc8(v);
                self.set_b(r);
                4
            },
            0x05 => {
                let v = self.b();
                let r = self.dec8(v);
                self.set_b(r);
                4
            },
            0x06 => {
                let n = self.fetch(mem);
                self.set_b(n);
                7
            },
            0x07 => {
                self.rlca();
                4
            },
            0x08 => {
                let t = self.af;
                self.af = self.af_prime;
                self.af_prime = t;
                4
            },
            0x09 => {
                let v = self.bc;
                self.add_hl(v);
                11
            },
            0x0A => {
                let v = self.read_byte(mem, self.bc);
                self.set_a(v);
                7
            },
            0x0B => {
                self.bc = self.bc.wrapping_sub(1);
                6
            },
            0x0C => {
                let v = self.c();
                let r = self.inc8(v);
                self.set_c(r);
                4
            },
            0x0D => {
                let v = self.c();
                let r = self.dec8(v);
                self.set_c(r);
                4
            },
            0x0E => {
                let n = self.fetch(mem);
                self.set_c(n);
                7
            },
            0x0F => {
                self.rrca();
                4
            },
            0x10 => self.djnz(mem),
            0x11 => {
                self.de = self.fetch_word(mem);
                10
            },
            0x12 => {
                let a = self.a();
                self.write_byte(mem, self.de, a);
                7
            },
            0x13 => {
                self.de = self.de.wrapping_add(1);
                6
            },
            0x14 => {
                let v = self.d();
                let r = self.inc8(v);
                self.set_d(r);
                4
            },
            0x15 => {
                let v = self.d();
                let r = self.dec8(v);
                self.set_d(r);
                4
            },
            0x16 => {
                let n = self.fetch(mem);
                self.set_d(n);
                7
            },
            0x17 => {
                self.rla();
                4
            },
            0x18 => {
                self.jr(mem);
                12
            },
            0x19 => {
                let v = self.de;
                self.add_hl(v);
                11
            },
            0x1A => {
                let v = self.read_byte(mem, self.de);
                self.set_a(v);
                7
            },
            0x1B => {
                self.de = self.de.wrapping_sub(1);
                6
            },
            0x1C => {
                let v = self.e();
                let r = self.inc8(v);
                self.set_e(r);
                4
            },
            0x1D => {
                let v = self.e();
                let r = self.dec8(v);
                self.set_e(r);
                4
            },
            0x1E => {
                let n = self.fetch(mem);
                self.set_e(n);
                7
            },
            0x1F => {
                self.rra();
                4
            },
            0x20 => {
                let c = !self.flag(FLAG_Z);
                self.jr_cc(mem, c)
            },
            0x21 => {
                self.hl = self.fetch_word(mem);
                10
            },
            0x22 => {
                let addr = self.fetch_word(mem);
                let v = self.hl;
                self.write_word(mem, addr, v);
                16
            },
            0x23 => {
                self.hl = self.hl.wrapping_add(1);
                6
            },
            0x24 => {
                let v = self.h();
                let r = self.inc8(v);
                self.set_h(r);
                4
            },
            0x25 => {
                let v = self.h();
                let r = self.dec8(v);
                self.set_h(r);
                4
            },
            0x26 => {
                let n = self.fetch(mem);
                self.set_h(n);
                7
            },
            0x27 => {
                self.daa();
                4
            },
            0x28 => {
                let c = self.flag(FLAG_Z);
                self.jr_cc(mem, c)
            },
            0x29 => {
                let v = self.hl;
                self.add_hl(v);
                11
            },
            0x2A => {
                let addr = self.fetch_word(mem);
                self.hl = self.read_word(mem, addr);
                16
            },
            0x2B => {
                self.hl = self.hl.wrapping_sub(1);
                6
            },
            0x2C => {
                let v = self.l();
                let r = self.inc8(v);
                self.set_l(r);
                4
            },
            0x2D => {
                let v = self.l();
                let r = self.dec8(v);
                self.set_l(r);
                4
            },
            0x2E => {
                let n = self.fetch(mem);
                self.set_l(n);
                7
            },
            0x2F => {
                self.cpl();
                4
            },
            0x30 => {
                let c = !self.flag(FLAG_C);
                self.jr_cc(mem, c)
            },
            0x31 => {
                self.sp = self.fetch_word(mem);
                10
            },
            0x32 => {
                let addr = self.fetch_word(mem);
                let a = self.a();
                self.write_byte(mem, addr, a);
                13
            },
            0x33 => {
                self.sp = self.sp.wrapping_add(1);
                6
            },
            0x34 => {
                let addr = self.hl;
                let v = self.read_byte(mem, addr);
                let r = self.inc8(v);
                self.write_byte(mem, addr, r);
                11
            },
            0x35 => {
                let addr = self.hl;
                let v = self.read_byte(mem, addr);
                let r = self.dec8(v);
                self.write_byte(mem, addr, r);
                11
            },
            0x36 => {
                let n = self.fetch(mem);
                self.write_byte(mem, self.hl, n);
                10
            },
            0x37 => {
                self.scf();
                4
            },
            0x38 => {
                let c = self.flag(FLAG_C);
                self.jr_cc(mem, c)
            },
            0x39 => {
                let v = self.sp;
                self.add_hl(v);
                11
            },
            0x3A => {
                let addr = self.fetch_word(mem);
                let v = self.read_byte(mem, addr);
                self.set_a(v);
                13
            },
            0x3B => {
                self.sp = self.sp.wrapping_sub(1);
                6
            },
            0x3C => {
                let v = self.a();
                let r = self.inc8(v);
                self.set_a(r);
                4
            },
            0x3D => {
                let v = self.a();
                let r = self.dec8(v);
                self.set_a(r);
                4
            },
            0x3E => {
                let n = self.fetch(mem);
                self.set_a(n);
                7
            },
            0x3F => {
                self.ccf();
                4
            },
            _ => 4,
        }
    }

    /// Opcodes 0x40-0x7F: the register/(HL) load block and HALT.
    #[verifier::rlimit(100)]
    #[verifier::spinoff_prover]
    fn exec_loads(&mut self, opcode: u8, mem: &mut Memory, io: &mut IoController) -> (cycles: u8)
        requires
            old(mem).wf(),
            old(io).wf(),
            0x40 <= opcode < 0x80,
        ensures
            final(mem).wf(),
            final(io).wf(),
            4 <= cycles <= 23,
            final(self).cycles == old(self).cycles,
            final(mem).rom@ == old(mem).rom@,
            final(mem).trdos_rom_loaded == old(mem).trdos_rom_loaded,
            final(mem).is_128k == old(mem).is_128k,
            final(mem).config == old(mem).config,
            final(io).keyboard == old(io).keyboard,
            final(io).config == old(io).config,
            opcode == 0x76 ==> *final(self) == (Z80 { halted: true, ..*old(self) }) && *final(mem)
                == *old(mem) && *final(io) == *old(io) && cycles == 4,
            0x40 <= opcode < 0x80 && opcode != 0x76 && opcode % 8 != 6 && (opcode / 8) % 8 != 6
                ==> *final(self) == set_reg8(
                *old(self),
                (opcode >> 3) & 0x07,
                reg8(*old(self), opcode & 0x07),
            ) && *final(mem) == *old(mem) && *final(io) == *old(io) && cycles == 4,
            0x40 <= opcode < 0x80 && opcode % 8 == 6 && (opcode / 8) % 8 != 6 ==> *final(self)
                == set_reg8(
                *old(self),
                (opcode >> 3) & 0x07,
                old(mem).spec_read(old(self).hl),
            ) && *final(mem) == *old(mem) && *final(io) == *old(io) && cycles == 7,
            0x70 <= opcode < 0x78 && opcode != 0x76 ==> *final(self) == *old(self) && *final(io)
                == *old(io) && cycles == 7 && old(mem).same_mapping(*final(mem)) && (old(self).hl
                >= 0x4000 ==> final(mem).ram@ == old(mem).ram@.update(
                old(mem).ram_index(old(self).hl),
                reg8(*old(self), opcode & 0x07),
            ) && final(mem).spec_read(old(self).hl) == reg8(*old(self), opcode & 0x07)) && (old(self).hl < 0x4000 ==> final(mem).ram@ == old(mem).ram@),
    {
        proof {
            lemma_decode(opcode);
        }
        match opcode {
            0x40 => {
                proof {
                    lemma_word_parts(0, 0, self.bc);
                }
                4
            },
            0x41 => {
                let v = self.c();
                self.set_b(v);
                4
            },
            0x42 => {
                let v = self.d();
                self.set_b(v);
                4
            },
            0x43 => {
                let v = self.e();
                self.set_b(v);
                4
            },
            0x44 => {
                let v = self.h();
                self.set_b(v);
                4
            },
            0x45 => {
                let v = self.l();
                self.set_b(v);
                4
            },
            0x46 => {
                let v = self.read_byte(mem, self.hl);
                self.set_b(v);
                7
            },
            0x47 => {
                let v = self.a();
                self.set_b(v);
                4
            },
            0x48 => {
                let v = self.b();
                self.set_c(v);
                4
            },
            0x49 => {
                proof {
                    lemma_word_parts(0, 0, self.bc);
                }
                4
            },
            0x4A => {
                let v = self.d();
                self.set_c(v);
                4
            },
            0x4B => {
                let v = self.e();
                self.set_c(v);
                4
            },
            0x4C => {
                let v = self.h();
                self.set_c(v);
                4
            },
            0x4D => {
                let v = self.l();
                self.set_c(v);
                4
            },
            0x4E => {
                let v = self.read_byte(mem, self.hl);
                self.set_c(v);
                7
            },
            0x4F => {
                let v = self.a();
                self.set_c(v);
                4
            },
            0x50 => {
                let v = self.b();
                self.set_d(v);
                4
            },
            0x51 => {
                let v = self.c();
                self.set_d(v);
                4
            },
            0x52 => {
                proof {
                    lemma_word_parts(0, 0, self.de);
                }
                4
            },
            0x53 => {
                let v = self.e();
                self.set_d(v);
                4
            },
            0x54 => {
                let v = self.h();
                self.set_d(v);
                4
            },
            0x55 => {
                let v = self.l();
                self.set_d(v);
                4
            },
            0x56 => {
                let v = self.read_byte(mem, self.hl);
                self.set_d(v);
                7
            },
            0x57 => {
                let v = self.a();
                self.set_d(v);
                4
            },
            0x58 => {
                let v = self.b();
                self.set_e(v);
                4
            },
            0x59 => {
                let v = self.c();
                self.set_e(v);
                4
            },
            0x5A => {
                let v = self.d();
                self.set_e(v);
                4
            },
            0x5B => {
                proof {
                    lemma_word_parts(0, 0, self.de);
                }
                4
            },
            0x5C => {
                let v = self.h();
                self.set_e(v);
                4
            },
            0x5D => {
                let v = self.l();
                self.set_e(v);
                4
            },
            0x5E => {
                let v = self.read_byte(mem, self.hl);
                self.set_e(v);
                7
            },
            0x5F => {
                let v = self.a();
                self.set_e(v);
                4
            },
            0x60 => {
                let v = self.b();
                self.set_h(v);
                4
            },
            0x61 => {
                let v = self.c();
                self.set_h(v);
                4
            },
            0x62 => {
                let v = self.d();
                self.set_h(v);
                4
            },
            0x63 => {
                let v = self.e();
                self.set_h(v);
                4
            },
            0x64 => {
                proof {
                    lemma_word_parts(0, 0, self.hl);
                }
                4
            },
            0x65 => {
                let v = self.l();
                self.set_h(v);
                4
            },
            0x66 => {
                let v = self.read_byte(mem, self.hl);
                self.set_h(v);
                7
            },
            0x67 => {
                let v = self.a();
                self.set_h(v);
                4
            },
            0x68 => {
                let v = self.b();
                self.set_l(v);
                4
            },
            0x69 => {
                let v = self.c();
                self.set_l(v);
                4
            },
            0x6A => {
                let v = self.d();
                self.set_l(v);
                4
            },
            0x6B => {
                let v = self.e();
                self.set_l(v);
                4
            },
            0x6C => {
                let v = self.h();
                self.set_l(v);
                4
            },
            0x6D => {
                proof {
                    lemma_word_parts(0, 0, self.hl);
                }
                4
            },
            0x6E => {
                let v = self.read_byte(mem, self.hl);
                self.set_l(v);
                7
            },
            0x6F => {
                let v = self.a();
                self.set_l(v);
                4
            },
            0x70 => {
                let v = self.b();
                self.write_byte(mem, self.hl, v);
                7
            },
            0x71 => {
                let v = self.c();
                self.write_byte(mem, self.hl, v);
                7
            },
            0x72 => {
                let v = self.d();
                self.write_byte(mem, self.hl, v);
                7
            },
            0x73 => {
                let v = self.e();
                self.write_byte(mem, self.hl, v);
                7
            },
            0x74 => {
                let v = self.h();
                self.write_byte(mem, self.hl, v);
                7
            },
            0x75 => {
                let v = self.l();
                self.write_byte(mem, self.hl, v);
                7
            },
            0x76 => {
                self.halted = true;
                4
            },
            0x77 => {
                let v = self.a();
                self.write_byte(mem, self.hl, v);
                7
            },
            0x78 => {
                let v = self.b();
                self.set_a(v);
                4
            },
            0x79 => {
                let v = self.c();
                self.set_a(v);
                4
            },
            0x7A => {
                let v = self.d();
                self.set_a(v);
                4
            },
            0x7B => {
                let v = self.e();
                self.set_a(v);
                4
            },
            0x7C => {
                let v = self.h();
                self.set_a(v);
                4
            },
            0x7D => {
                let v = self.l();
                self.set_a(v);
                4
            },
            0x7E => {
                let v = self.read_byte(mem, self.hl);
                self.set_a(v);
                7
            },
            0x7F => {
                proof {
                    lemma_word_parts(0, 0, self.af);
                }
                4
            },
            _ => 4,
        }
    }

    /// Opcodes 0x80-0xBF: the eight-way ALU block against registers and (HL).
    #[verifier::rlimit(100)]
    #[verifier::spinoff_prover]
    fn exec_alu(&mut self, opcode: u8, mem: &mut Memory, io: &mut IoController) -> (cycles: u8)
        requires
            old(mem).wf(),
            old(io).wf(),
            0x80 <= opcode < 0xC0,
        ensures
            final(mem).wf(),
            final(io).wf(),
            4 <= cycles <= 23,
            final(self).cycles == old(self).cycles,
            final(mem).rom@ == old(mem).rom@,
            final(mem).trdos_rom_loaded == old(mem).trdos_rom_loaded,
            final(mem).is_128k == old(mem).is_128k,
            final(mem).config == old(mem).config,
            final(io).keyboard == old(io).keyboard,
            final(io).config == old(io).config,
            0x80 <= opcode < 0xC0 && opcode % 8 != 6 ==> *final(self) == spec_alu_acc(
                *old(self),
                (opcode >> 3) & 0x07,
                reg8(*old(self), opcode & 0x07),
            ) && *final(mem) == *old(mem) && *final(io) == *old(io) && cycles == 4,
            0x80 <= opcode < 0xC0 && opcode % 8 == 6 ==> *final(self) == spec_alu_acc(
                *old(self),
                (opcode >> 3) & 0x07,
                old(mem).spec_read(old(self).hl),
            ) && *final(mem) == *old(mem) && *final(io) == *old(io) && cycles == 7,
    {
        proof {
            lemma_decode(opcode);
        }
        match opcode {
            0x80 => {
                let v = self.b();
                self.add_a(v, false);
                4
            },
            0x81 => {
                let v = self.c();
                self.add_a(v, false);
                4
            },
            0x82 => {
                let v = self.d();
                self.add_a(v, false);
                4
            },
            0x83 => {
                let v = self.e();
                self.add_a(v, false);
                4
            },
            0x84 => {
                let v = self.h();
                self.add_a(v, false);
                4
            },
            0x85 => {
                let v = self.l();
                self.add_a(v, false);
                4
            },
            0x86 => {
                let v = self.read_byte(mem, self.hl);
                self.add_a(v, false);
                7
            },
            0x87 => {
                let v = self.a();
                self.add_a(v, false);
                4
            },
            0x88 => {
                let v = self.b();
                let cy = self.flag(FLAG_C);
                self.add_a(v, cy);
                4
            },
            0x89 => {
                let v = self.c();
                let cy = self.flag(FLAG_C);
                self.add_a(v, cy);
                4
            },
            0x8A => {
                let v = self.d();
                let cy = self.flag(FLAG_C);
                self.add_a(v, cy);
                4
            },
            0x8B => {
                let v = self.e();
                let cy = self.flag(FLAG_C);
                self.add_a(v, cy);
                4
            },
            0x8C => {
                let v = self.h();
                let cy = self.flag(FLAG_C);
                self.add_a(v, cy);
                4
            },
            0x8D => {
                let v = self.l();
                let cy = self.flag(FLAG_C);
                self.add_a(v, cy);
                4
            },
            0x8E => {
                let v = self.read_byte(mem, self.hl);
                let cy = self.flag(FLAG_C);
                self.add_a(v, cy);
                7
            },
            0x8F => {
                let v = self.a();
                let cy = self.flag(FLAG_C);
                self.add_a(v, cy);
                4
            },
            0x90 => {
                let v = self.b();
                self.sub_a(v, false);
                4
            },
            0x91 => {
                let v = self.c();
                self.sub_a(v, false);
                4
            },
            0x92 => {
                let v = self.d();
                self.sub_a(v, false);
                4
            },
            0x93 => {
                let v = self.e();
                self.sub_a(v, false);
                4
            },
            0x94 => {
                let v = self.h();
                self.sub_a(v, false);
                4
            },
            0x95 => {
                let v = self.l();
                self.sub_a(v, false);
                4
            },
            0x96 => {
                let v = self.read_byte(mem, self.hl);
                self.sub_a(v, false);
                7
            },
            0x97 => {
                let v = self.a();
                self.sub_a(v, false);
                4
            },
            0x98 => {
                let v = self.b();
                let cy = self.flag(FLAG_C);
                self.sub_a(v, cy);
                4
            },
            0x99 => {
                let v = self.c();
                let cy = self.flag(FLAG_C);
                self.sub_a(v, cy);
                4
            },
            0x9A => {
                let v = self.d();
                let cy = self.flag(FLAG_C);
                self.sub_a(v, cy);
                4
            },
            0x9B => {
                let v = self.e();
                let cy = self.flag(FLAG_C);
                self.sub_a(v, cy);
                4
            },
            0x9C => {
                let v = self.h();
                let cy = self.flag(FLAG_C);
                self.sub_a(v, cy);
                4
            },
            0x9D => {
                let v = self.l();
                let cy = self.flag(FLAG_C);
                self.sub_a(v, cy);
                4
            },
            0x9E => {
                let v = self.read_byte(mem, self.hl);
                let cy = self.flag(FLAG_C);
                self.sub_a(v, cy);
                7
            },
            0x9F => {
                let v = self.a();
                let cy = self.flag(FLAG_C);
                self.sub_a(v, cy);
                4
            },
            0xA0 => {
                let v = self.b();
                self.and_a(v);
                4
            },
            0xA1 => {
                let v = self.c();
                self.and_a(v);
                4
            },
            0xA2 => {
                let v = self.d();
                self.and_a(v);
                4
            },
            0xA3 => {
                let v = self.e();
                self.and_a(v);
                4
            },
            0xA4 => {
                let v = self.h();
                self.and_a(v);
                4
            },
            0xA5 => {
                let v = self.l();
                self.and_a(v);
                4
            },
            0xA6 => {
                let v = self.read_byte(mem, self.hl);
                self.and_a(v);
                7
            },
            0xA7 => {
                let v = self.a();
                self.and_a(v);
                4
            },
            0xA8 => {
                let v = self.b();
                self.xor_a(v);
                4
            },
            0xA9 => {
                let v = self.c();
                self.xor_a(v);
                4
            },
            0xAA => {
                let v = self.d();
                self.xor_a(v);
                4
            },
            0xAB => {
                let v = self.e();
                self.xor_a(v);
                4
            },
            0xAC => {
                let v = self.h();
                self.xor_a(v);
                4
            },
            0xAD => {
                let v = self.l();
                self.xor_a(v);
                4
            },
            0xAE => {
                let v = self.read_byte(mem, self.hl);
                self.xor_a(v);
                7
            },
            0xAF => {
                let v = self.a();
                self.xor_a(v);
                4
            },
            0xB0 => {
                let v = self.b();
                self.or_a(v);
                4
            },
            0xB1 => {
                let v = self.c();
                self.or_a(v);
                4
            },
            0xB2 => {
                let v = self.d();
                self.or_a(v);
                4
            },
            0xB3 => {
                let v = self.e();
                self.or_a(v);
                4
            },
            0xB4 => {
                let v = self.h();
                self.or_a(v);
                4
            },
            0xB5 => {
                let v = self.l();
                self.or_a(v);
                4
            },
            0xB6 => {
                let v = self.read_byte(mem, self.hl);
                self.or_a(v);
                7
            },
            0xB7 => {
                let v = self.a();
                self.or_a(v);
                4
            },
            0xB8 => {
                let v = self.b();
                self.cp_a(v);
                4
            },
            0xB9 => {
                let v = self.c();
                self.cp_a(v);
                4
            },
            0xBA => {
                let v = self.d();
                self.cp_a(v);
                4
            },
            0xBB => {
                let v = self.e();
                self.cp_a(v);
                4
            },
            0xBC => {
                let v = self.h();
                self.cp_a(v);
                4
            },
            0xBD => {
                let v = self.l();
                self.cp_a(v);
                4
            },
            0xBE => {
                let v = self.read_byte(mem, self.hl);
                self.cp_a(v);
                7
            },
            0xBF => {
                let v = self.a();
                self.cp_a(v);
                4
            },
            _ => 4,
        }
    }

    /// Opcodes 0xC0-0xFF: jumps, calls, returns, stack, I/O, immediates and
    /// the prefix handoffs.
    #[verifier::rlimit(100)]
    #[verifier::spinoff_prover]
    fn exec_control(&mut self, opcode: u8, mem: &mut Memory, io: &mut IoController) -> (cycles: u8)
        requires
            old(mem).wf(),
            old(io).wf(),
            opcode >= 0xC0,
        ensures
            final(mem).wf(),
            final(io).wf(),
            4 <= cycles <= 23,
            final(self).cycles == old(self).cycles,
            final(mem).rom@ == old(mem).rom@,
            final(mem).trdos_rom_loaded == old(mem).trdos_rom_loaded,
            final(mem).is_128k == old(mem).is_128k,
            final(mem).config == old(mem).config,
            final(io).keyboard == old(io).keyboard,
            final(io).config == old(io).config,
            opcode == 0xD9 ==> *final(self) == spec_exx(*old(self)) && *final(mem) == *old(mem)
                && *final(io) == *old(io) && cycles == 4,
            opcode == 0xF3 ==> *final(self) == (Z80 { iff1: false, iff2: false, ..*old(self) })
                && *final(mem) == *old(mem) && *final(io) == *old(io) && cycles == 4,
            opcode == 0xFB ==> *final(self) == (Z80 { iff1: true, iff2: true, ..*old(self) })
                && *final(mem) == *old(mem) && *final(io) == *old(io) && cycles == 4,
            opcode == 0xE9 ==> *final(self) == (Z80 { pc: old(self).hl, ..*old(self) }) && *final(mem) == *old(mem) && *final(io) == *old(io) && cycles == 4,
            opcode == 0xEB ==> *final(self) == (Z80 {
                de: old(self).hl,
                hl: old(self).de,
                ..*old(self)
            }) && *final(mem) == *old(mem) && *final(io) == *old(io) && cycles == 4,
            opcode == 0xF9 ==> *final(self) == (Z80 { sp: old(self).hl, ..*old(self) }) && *final(mem) == *old(mem) && *final(io) == *old(io) && cycles == 6,
            opcode == 0xC5 || opcode == 0xD5 || opcode == 0xE5 || opcode == 0xF5 ==> {
                let pushed = if opcode == 0xC5 {
                    old(self).bc
                } else if opcode == 0xD5 {
                    old(self).de
                } else if opcode == 0xE5 {
                    old(self).hl
                } else {
                    old(self).af
                };
                let nsp = wsub16(old(self).sp, 2);
                &&& *final(self) == (Z80 { sp: nsp, ..*old(self) })
                &&& *final(io) == *old(io)
                &&& old(mem).same_mapping(*final(mem))
                &&& cycles == 11
                &&& (nsp >= 0x4000 && nsp != 0xFFFF ==> final(mem).spec_read(nsp) == lo(pushed)
                    && final(mem).spec_read((nsp + 1) as u16) == hi(pushed))
            },
            opcode == 0xC1 ==> *final(self) == (Z80 {
                bc: spec_read_word(*old(mem), old(self).sp),
                sp: wadd16(old(self).sp, 2),
                ..*old(self)
            }) && *final(mem) == *old(mem) && *final(io) == *old(io) && cycles == 10,
            opcode == 0xD1 ==> *final(self) == (Z80 {
                de: spec_read_word(*old(mem), old(self).sp),
                sp: wadd16(old(self).sp, 2),
                ..*old(self)
            }) && *final(mem) == *old(mem) && *final(io) == *old(io) && cycles == 10,
            opcode == 0xE1 ==> *final(self) == (Z80 {
                hl: spec_read_word(*old(mem), old(self).sp),
                sp: wadd16(old(self).sp, 2),
                ..*old(self)
            }) && *final(mem) == *old(mem) && *final(io) == *old(io) && cycles == 10,
            opcode == 0xF1 ==> *final(self) == (Z80 {
                af: spec_read_word(*old(mem), old(self).sp),
                sp: wadd16(old(self).sp, 2),
                ..*old(self)
            }) && *final(mem) == *old(mem) && *final(io) == *old(io) && cycles == 10,
            opcode >= 0xC0 && opcode % 8 == 6 ==> *final(self) == spec_alu_acc(
                (Z80 {
                    pc: wadd16(old(self).pc, 1),
                    r: Self::spec_r_inc(old(self).r),
                    ..*old(self)
                }),
                (opcode >> 3) & 0x07,
                final(mem).spec_read(old(self).pc),
            ) && fetch_frame(*old(mem), *final(mem), old(self).pc) && *final(io) == *old(io)
                && cycles == 7,
            opcode == 0xC3 && no_trap2(old(self).pc, *old(mem)) ==> *final(self) == (Z80 {
                pc: word(
                    old(mem).spec_read(wadd16(old(self).pc, 1)),
                    old(mem).spec_read(old(self).pc),
                ),
                r: Self::spec_r_inc(Self::spec_r_inc(old(self).r)),
                ..*old(self)
            }) && *final(mem) == *old(mem) && *final(io) == *old(io) && cycles == 10,
            opcode >= 0xC0 && opcode % 8 == 2 && no_trap2(old(self).pc, *old(mem)) ==> ({
                let taken = spec_cond(lo(old(self).af), ((opcode / 8) % 8) as int);
                *final(self) == (Z80 {
                    pc: if taken {
                        word(
                            old(mem).spec_read(wadd16(old(self).pc, 1)),
                            old(mem).spec_read(old(self).pc),
                        )
                    } else {
                        wadd16(old(self).pc, 2)
                    },
                    r: Self::spec_r_inc(Self::spec_r_inc(old(self).r)),
                    ..*old(self)
                }) && *final(mem) == *old(mem) && *final(io) == *old(io) && cycles == 10
            }),
            ((opcode >= 0xC0 && opcode % 8 == 4) || opcode == 0xCD) && no_trap2(
                old(self).pc,
                *old(mem),
            ) ==> ({
                let taken = opcode == 0xCD || spec_cond(lo(old(self).af), ((opcode / 8) % 8) as int);
                let target = word(
                    old(mem).spec_read(wadd16(old(self).pc, 1)),
                    old(mem).spec_read(old(self).pc),
                );
                let ret = wadd16(old(self).pc, 2);
                let nsp = wsub16(old(self).sp, 2);
                &&& *final(io) == *old(io)
                &&& cycles == (if taken {
                    17u8
                } else {
                    10u8
                })
                &&& *final(self) == (Z80 {
                    pc: if taken {
                        target
                    } else {
                        ret
                    },
                    sp: if taken {
                        nsp
                    } else {
                        old(self).sp
                    },
                    r: Self::spec_r_inc(Self::spec_r_inc(old(self).r)),
                    ..*old(self)
                })
                &&& (!taken ==> *final(mem) == *old(mem))
                &&& (taken ==> old(mem).same_mapping(*final(mem)) && final(mem).ram@.len() == old(mem).ram@.len() && (nsp >= 0x4000 && nsp != 0xFFFF ==> final(mem).spec_read(nsp)
                    == lo(ret) && final(mem).spec_read((nsp + 1) as u16) == hi(ret)))
            }),
            opcode >= 0xC0 && opcode % 8 == 0 ==> ({
                let taken = spec_cond(lo(old(self).af), ((opcode / 8) % 8) as int);
                let popped = spec_read_word(*old(mem), old(self).sp);
                &&& *final(io) == *old(io)
                &&& cycles == (if taken {
                    11u8
                } else {
                    5u8
                })
                &&& (!taken ==> *final(self) == *old(self) && *final(mem) == *old(mem))
                &&& (taken ==> *final(self) == (Z80 {
                    pc: popped,
                    sp: wadd16(old(self).sp, 2),
                    ..*old(self)
                }) && final(mem).ram@ == old(mem).ram@ && final(mem).rom@ == old(mem).rom@
                    && final(mem).current_rom == old(mem).current_rom && final(mem).trdos_rom_loaded == old(mem).trdos_rom_loaded && final(mem).bank3 == old(mem).bank3 && final(mem).screen_bank == old(mem).screen_bank && final(mem).paging_disabled == old(mem).paging_disabled && final(mem).is_128k == old(mem).is_128k && final(mem).config == old(mem).config && final(mem).trdos_rom_active
                    == (old(mem).trdos_rom_active && !(popped >= 0x4000)))
            }),
            opcode == 0xC9 ==> ({
                let popped = spec_read_word(*old(mem), old(self).sp);
                &&& *final(io) == *old(io)
                &&& cycles == 10
                &&& *final(self) == (Z80 { pc: popped, sp: wadd16(old(self).sp, 2), ..*old(self) })
                &&& final(mem).ram@ == old(mem).ram@
                &&& final(mem).trdos_rom_active == (old(mem).trdos_rom_active && !(popped
                    >= 0x4000))
            }),
            opcode >= 0xC0 && opcode % 8 == 7 ==> ({
                let nsp = wsub16(old(self).sp, 2);
                &&& *final(io) == *old(io)
                &&& cycles == 11
                &&& *final(self) == (Z80 {
                    pc: (((opcode / 8) % 8) * 8) as u16,
                    sp: nsp,
                    ..*old(self)
                })
                &&& old(mem).same_mapping(*final(mem))
                &&& final(mem).ram@.len() == old(mem).ram@.len()
                &&& (nsp >= 0x4000 && nsp != 0xFFFF ==> final(mem).spec_read(nsp) == lo(
                    old(self).pc,
                ) && final(mem).spec_read((nsp + 1) as u16) == hi(old(self).pc))
            }),
            opcode == 0xE3 ==> ({
                &&& *final(self) == (Z80 {
                    hl: spec_read_word(*old(mem), old(self).sp),
                    ..*old(self)
                })
                &&& *final(io) == *old(io)
                &&& cycles == 19
                &&& old(mem).same_mapping(*final(mem))
                &&& (old(self).sp >= 0x4000 && old(self).sp != 0xFFFF ==> final(mem).spec_read(
                    old(self).sp,
                ) == lo(old(self).hl) && final(mem).spec_read((old(self).sp + 1) as u16) == hi(
                    old(self).hl,
                ))
            }),
            opcode == 0xD3 ==> *final(self) == (Z80 {
                pc: wadd16(old(self).pc, 1),
                r: Self::spec_r_inc(old(self).r),
                ..*old(self)
            }) && cycles == 11,
            opcode == 0xDB ==> cycles == 11 && lo(final(self).af) == lo(old(self).af)
                && *final(self) == (Z80 {
                af: final(self).af,
                pc: wadd16(old(self).pc, 1),
                r: Self::spec_r_inc(old(self).r),
                ..*old(self)
            }),
            opcode == 0xED && !Z80::trap_fires(old(self).pc, *old(mem)) && old(mem).spec_read(
                old(self).pc,
            ) == 0xB0 ==> ({
                let val = old(mem).spec_read(old(self).hl);
                let bc2 = wsub16(old(self).bc, 1);
                &&& *final(io) == *old(io)
                &&& cycles == (if bc2 != 0 {
                    21u8
                } else {
                    16u8
                })
                &&& *final(self) == (Z80 {
                    hl: wadd16(old(self).hl, 1),
                    de: wadd16(old(self).de, 1),
                    bc: bc2,
                    af: word(
                        hi(old(self).af),
                        spec_ldx_flags(lo(old(self).af), hi(old(self).af), val, bc2),
                    ),
                    pc: if bc2 != 0 {
                        wsub16(old(self).pc, 1)
                    } else {
                        wadd16(old(self).pc, 1)
                    },
                    r: Self::spec_r_inc(old(self).r),
                    ..*old(self)
                })
                &&& old(mem).same_mapping(*final(mem))
                &&& (old(self).de >= 0x4000 ==> final(mem).ram@ == old(mem).ram@.update(
                    old(mem).ram_index(old(self).de),
                    val,
                ))
                &&& (old(self).de < 0x4000 ==> final(mem).ram@ == old(mem).ram@)
            }),
    {
        if opcode < 0xE0 {
            self.exec_control_lo(opcode, mem, io)
        } else {
            self.exec_control_hi(opcode, mem, io)
        }
    }

    /// Opcodes 0xC0-0xDF.
    #[verifier::rlimit(100)]
    #[verifier::spinoff_prover]
    fn exec_control_lo(&mut self, opcode: u8, mem: &mut Memory, io: &mut IoController) -> (cycles: u8)
        requires
            old(mem).wf(),
            old(io).wf(),
            opcode >= 0xC0,
            0xC0 <= opcode < 0xE0,
        ensures
            final(mem).wf(),
            final(io).wf(),
            4 <= cycles <= 23,
            final(self).cycles == old(self).cycles,
            final(mem).rom@ == old(mem).rom@,
            final(mem).trdos_rom_loaded == old(mem).trdos_rom_loaded,
            final(mem).is_128k == old(mem).is_128k,
            final(mem).config == old(mem).config,
            final(io).keyboard == old(io).keyboard,
            final(io).config == old(io).config,
            opcode == 0xD9 ==> *final(self) == spec_exx(*old(self)) && *final(mem) == *old(mem)
                && *final(io) == *old(io) && cycles == 4,
            opcode == 0xF3 ==> *final(self) == (Z80 { iff1: false, iff2: false, ..*old(self) })
                && *final(mem) == *old(mem) && *final(io) == *old(io) && cycles == 4,
            opcode == 0xFB ==> *final(self) == (Z80 { iff1: true, iff2: true, ..*old(self) })
                && *final(mem) == *old(mem) && *final(io) == *old(io) && cycles == 4,
            opcode == 0xE9 ==> *final(self) == (Z80 { pc: old(self).hl, ..*old(self) }) && *final(mem) == *old(mem) && *final(io) == *old(io) && cycles == 4,
            opcode == 0xEB ==> *final(self) == (Z80 {
                de: old(self).hl,
                hl: old(self).de,
                ..*old(self)
            }) && *final(mem) == *old(mem) && *final(io) == *old(io) && cycles == 4,
            opcode == 0xF9 ==> *final(self) == (Z80 { sp: old(self).hl, ..*old(self) }) && *final(mem) == *old(mem) && *final(io) == *old(io) && cycles == 6,
            opcode == 0xC5 || opcode == 0xD5 || opcode == 0xE5 || opcode == 0xF5 ==> {
                let pushed = if opcode == 0xC5 {
                    old(self).bc
                } else if opcode == 0xD5 {
                    old(self).de
                } else if opcode == 0xE5 {
                    old(self).hl
                } else {
                    old(self).af
                };
                let nsp = wsub16(old(self).sp, 2);
                &&& *final(self) == (Z80 { sp: nsp, ..*old(self) })
                &&& *final(io) == *old(io)
                &&& old(mem).same_mapping(*final(mem))
                &&& cycles == 11
                &&& (nsp >= 0x4000 && nsp != 0xFFFF ==> final(mem).spec_read(nsp) == lo(pushed)
                    && final(mem).spec_read((nsp + 1) as u16) == hi(pushed))
            },
            opcode == 0xC1 ==> *final(self) == (Z80 {
                bc: spec_read_word(*old(mem), old(self).sp),
                sp: wadd16(old(self).sp, 2),
                ..*old(self)
            }) && *final(mem) == *old(mem) && *final(io) == *old(io) && cycles == 10,
            opcode == 0xD1 ==> *final(self) == (Z80 {
                de: spec_read_word(*old(mem), old(self).sp),
                sp: wadd16(old(self).sp, 2),
                ..*old(self)
            }) && *final(mem) == *old(mem) && *final(io) == *old(io) && cycles == 10,
            opcode == 0xE1 ==> *final(self) == (Z80 {
                hl: spec_read_word(*old(mem), old(self).sp),
                sp: wadd16(old(self).sp, 2),
                ..*old(self)
            }) && *final(mem) == *old(mem) && *final(io) == *old(io) && cycles == 10,
            opcode == 0xF1 ==> *final(self) == (Z80 {
                af: spec_read_word(*old(mem), old(self).sp),
                sp: wadd16(old(self).sp, 2),
                ..*old(self)
            }) && *final(mem) == *old(mem) && *final(io) == *old(io) && cycles == 10,
            opcode >= 0xC0 && opcode % 8 == 6 ==> *final(self) == spec_alu_acc(
                (Z80 {
                    pc: wadd16(old(self).pc, 1),
                    r: Self::spec_r_inc(old(self).r),
                    ..*old(self)
                }),
                (opcode >> 3) & 0x07,
                final(mem).spec_read(old(self).pc),
            ) && fetch_frame(*old(mem), *final(mem), old(self).pc) && *final(io) == *old(io)
                && cycles == 7,
            opcode == 0xC3 && no_trap2(old(self).pc, *old(mem)) ==> *final(self) == (Z80 {
                pc: word(
                    old(mem).spec_read(wadd16(old(self).pc, 1)),
                    old(mem).spec_read(old(self).pc),
                ),
                r: Self::spec_r_inc(Self::spec_r_inc(old(self).r)),
                ..*old(self)
            }) && *final(mem) == *old(mem) && *final(io) == *old(io) && cycles == 10,
            opcode >= 0xC0 && opcode % 8 == 2 && no_trap2(old(self).pc, *old(mem)) ==> ({
                let taken = spec_cond(lo(old(self).af), ((opcode / 8) % 8) as int);
                *final(self) == (Z80 {
                    pc: if taken {
                        word(
                            old(mem).spec_read(wadd16(old(self).pc, 1)),
                            old(mem).spec_read(old(self).pc),
                        )
                    } else {
                        wadd16(old(self).pc, 2)
                    },
                    r: Self::spec_r_inc(Self::spec_r_inc(old(self).r)),
                    ..*old(self)
                }) && *final(mem) == *old(mem) && *final(io) == *old(io) && cycles == 10
            }),
            ((opcode >= 0xC0 && opcode % 8 == 4) || opcode == 0xCD) && no_trap2(
                old(self).pc,
                *old(mem),
            ) ==> ({
                let taken = opcode == 0xCD || spec_cond(lo(old(self).af), ((opcode / 8) % 8) as int);
                let target = word(
                    old(mem).spec_read(wadd16(old(self).pc, 1)),
                    old(mem).spec_read(old(self).pc),
                );
                let ret = wadd16(old(self).pc, 2);
                let nsp = wsub16(old(self).sp, 2);
                &&& *final(io) == *old(io)
                &&& cycles == (if taken {
                    17u8
                } else {
                    10u8
                })
                &&& *final(self) == (Z80 {
                    pc: if taken {
                        target
                    } else {
                        ret
                    },
                    sp: if taken {
                        nsp
                    } else {
                        old(self).sp
                    },
                    r: Self::spec_r_inc(Self::spec_r_inc(old(self).r)),
                    ..*old(self)
                })
                &&& (!taken ==> *final(mem) == *old(mem))
                &&& (taken ==> old(mem).same_mapping(*final(mem)) && final(mem).ram@.len() == old(mem).ram@.len() && (nsp >= 0x4000 && nsp != 0xFFFF ==> final(mem).spec_read(nsp)
                    == lo(ret) && final(mem).spec_read((nsp + 1) as u16) == hi(ret)))
            }),
            opcode >= 0xC0 && opcode % 8 == 0 ==> ({
                let taken = spec_cond(lo(old(self).af), ((opcode / 8) % 8) as int);
                let popped = spec_read_word(*old(mem), old(self).sp);
                &&& *final(io) == *old(io)
                &&& cycles == (if taken {
                    11u8
                } else {
                    5u8
                })
                &&& (!taken ==> *final(self) == *old(self) && *final(mem) == *old(mem))
                &&& (taken ==> *final(self) == (Z80 {
                    pc: popped,
                    sp: wadd16(old(self).sp, 2),
                    ..*old(self)
                }) && final(mem).ram@ == old(mem).ram@ && final(mem).rom@ == old(mem).rom@
                    && final(mem).current_rom == old(mem).current_rom && final(mem).trdos_rom_loaded == old(mem).trdos_rom_loaded && final(mem).bank3 == old(mem).bank3 && final(mem).screen_bank == old(mem).screen_bank && final(mem).paging_disabled == old(mem).paging_disabled && final(mem).is_128k == old(mem).is_128k && final(mem).config == old(mem).config && final(mem).trdos_rom_active
                    == (old(mem).trdos_rom_active && !(popped >= 0x4000)))
            }),
            opcode == 0xC9 ==> ({
                let popped = spec_read_word(*old(mem), old(self).sp);
                &&& *final(io) == *old(io)
                &&& cycles == 10
                &&& *final(self) == (Z80 { pc: popped, sp: wadd16(old(self).sp, 2), ..*old(self) })
                &&& final(mem).ram@ == old(mem).ram@
                &&& final(mem).trdos_rom_active == (old(mem).trdos_rom_active && !(popped
                    >= 0x4000))
            }),
            opcode >= 0xC0 && opcode % 8 == 7 ==> ({
                let nsp = wsub16(old(self).sp, 2);
                &&& *final(io) == *old(io)
                &&& cycles == 11
                &&& *final(self) == (Z80 {
                    pc: (((opcode / 8) % 8) * 8) as u16,
                    sp: nsp,
                    ..*old(self)
                })
                &&& old(mem).same_mapping(*final(mem))
                &&& final(mem).ram@.len() == old(mem).ram@.len()
                &&& (nsp >= 0x4000 && nsp != 0xFFFF ==> final(mem).spec_read(nsp) == lo(
                    old(self).pc,
                ) && final(mem).spec_read((nsp + 1) as u16) == hi(old(self).pc))
            }),
            opcode == 0xE3 ==> ({
                &&& *final(self) == (Z80 {
                    hl: spec_read_word(*old(mem), old(self).sp),
                    ..*old(self)
                })
                &&& *final(io) == *old(io)
                &&& cycles == 19
                &&& old(mem).same_mapping(*final(mem))
                &&& (old(self).sp >= 0x4000 && old(self).sp != 0xFFFF ==> final(mem).spec_read(
                    old(self).sp,
                ) == lo(old(self).hl) && final(mem).spec_read((old(self).sp + 1) as u16) == hi(
                    old(self).hl,
                ))
            }),
            opcode == 0xD3 ==> *final(self) == (Z80 {
                pc: wadd16(old(self).pc, 1),
                r: Self::spec_r_inc(old(self).r),
                ..*old(self)
            }) && cycles == 11,
            opcode == 0xDB ==> cycles == 11 && lo(final(self).af) == lo(old(self).af)
                && *final(self) == (Z80 {
                af: final(self).af,
                pc: wadd16(old(self).pc, 1),
                r: Self::spec_r_inc(old(self).r),
                ..*old(self)
            }),
            opcode == 0xED && !Z80::trap_fires(old(self).pc, *old(mem)) && old(mem).spec_read(
                old(self).pc,
            ) == 0xB0 ==> ({
                let val = old(mem).spec_read(old(self).hl);
                let bc2 = wsub16(old(self).bc, 1);
                &&& *final(io) == *old(io)
                &&& cycles == (if bc2 != 0 {
                    21u8
                } else {
                    16u8
                })
                &&& *final(self) == (Z80 {
                    hl: wadd16(old(self).hl, 1),
                    de: wadd16(old(self).de, 1),
                    bc: bc2,
                    af: word(
                        hi(old(self).af),
                        spec_ldx_flags(lo(old(self).af), hi(old(self).af), val, bc2),
                    ),
                    pc: if bc2 != 0 {
                        wsub16(old(self).pc, 1)
                    } else {
                        wadd16(old(self).pc, 1)
                    },
                    r: Self::spec_r_inc(old(self).r),
                    ..*old(self)
                })
                &&& old(mem).same_mapping(*final(mem))
                &&& (old(self).de >= 0x4000 ==> final(mem).ram@ == old(mem).ram@.update(
                    old(mem).ram_index(old(self).de),
                    val,
                ))
                &&& (old(self).de < 0x4000 ==> final(mem).ram@ == old(mem).ram@)
            }),
    {
        proof {
            lemma_decode(opcode);
        }
        match opcode {
            0xC0 => {
                if !self.flag(FLAG_Z) {
                    self.ret(mem);
                    11
                } else {
                    5
                }
            },
            0xC1 => {
                self.bc = self.pop(mem);
                10
            },
            0xC2 => {
                let addr = self.fetch_word(mem);
                if !self.flag(FLAG_Z) {
                    self.pc = addr;
                }
                10
            },
            0xC3 => {
                self.pc = self.fetch_word(mem);
                10
            },
            0xC4 => {
                let addr = self.fetch_word(mem);
                if !self.flag(FLAG_Z) {
                    self.call(mem, addr);
                    17
                } else {
                    10
                }
            },
            0xC5 => {
                let v = self.bc;
                self.push(mem, v);
                11
            },
            0xC6 => {
                let n = self.fetch(mem);
                self.add_a(n, false);
                7
            },
            0xC7 => {
                self.rst(mem, 0x00);
                11
            },
            0xC8 => {
                if self.flag(FLAG_Z) {
                    self.ret(mem);
                    11
                } else {
                    5
                }
            },
            0xC9 => {
                self.ret(mem);
                10
            },
            0xCA => {
                let addr = self.fetch_word(mem);
                if self.flag(FLAG_Z) {
                    self.pc = addr;
                }
                10
            },
            0xCB => self.execute_cb(mem),
            0xCC => {
                let addr = self.fetch_word(mem);
                if self.flag(FLAG_Z) {
                    self.call(mem, addr);
                    17
                } else {
                    10
                }
            },
            0xCD => {
                let addr = self.fetch_word(mem);
                self.call(mem, addr);
                17
            },
            0xCE => {
                let n = self.fetch(mem);
                let cy = self.flag(FLAG_C);
                self.add_a(n, cy);
                7
            },
            0xCF => {
                self.rst(mem, 0x08);
                11
            },
            0xD0 => {
                if !self.flag(FLAG_C) {
                    self.ret(mem);
                    11
                } else {
                    5
                }
            },
            0xD1 => {
                self.de = self.pop(mem);
                10
            },
            0xD2 => {
                let addr = self.fetch_word(mem);
                if !self.flag(FLAG_C) {
                    self.pc = addr;
                }
                10
            },
            0xD3 => {
                let n = self.fetch(mem);
                let a = self.a();
                let port = n as u16 | ((a as u16) << 8);
                self.io_write(io, mem, port, a);
                11
            },
            0xD4 => {
                let addr = self.fetch_word(mem);
                if !self.flag(FLAG_C) {
                    self.call(mem, addr);
                    17
                } else {
                    10
                }
            },
            0xD5 => {
                let v = self.de;
                self.push(mem, v);
                11
            },
            0xD6 => {
                let n = self.fetch(mem);
                self.sub_a(n, false);
                7
            },
            0xD7 => {
                self.rst(mem, 0x10);
                11
            },
            0xD8 => {
                if self.flag(FLAG_C) {
                    self.ret(mem);
                    11
                } else {
                    5
                }
            },
            0xD9 => {
                let t1 = self.bc;
                self.bc = self.bc_prime;
                self.bc_prime = t1;
                let t2 = self.de;
                self.de = self.de_prime;
                self.de_prime = t2;
                let t3 = self.hl;
                self.hl = self.hl_prime;
                self.hl_prime = t3;
                4
            },
            0xDA => {
                let addr = self.fetch_word(mem);
                if self.flag(FLAG_C) {
                    self.pc = addr;
                }
                10
            },
            0xDB => {
                let n = self.fetch(mem);
                let a = self.a();
                let port = n as u16 | ((a as u16) << 8);
                let v = self.io_read(io, mem, port);
                self.set_a(v);
                proof {
                    lemma_word_parts(v, lo(old(self).af), 0);
                }
                11
            },
            0xDC => {
                let addr = self.fetch_word(mem);
                if self.flag(FLAG_C) {
                    self.call(mem, addr);
                    17
                } else {
                    10
                }
            },
            0xDD => self.execute_dd(mem, io),
            0xDE => {
                let n = self.fetch(mem);
                let cy = self.flag(FLAG_C);
                self.sub_a(n, cy);
                7
            },
            0xDF => {
                self.rst(mem, 0x18);
                11
            },
            _ => 4,
        }
    }

    /// Opcodes 0xE0-0xFF.
    #[verifier::rlimit(100)]
    #[verifier::spinoff_prover]
    fn exec_control_hi(&mut self, opcode: u8, mem: &mut Memory, io: &mut IoController) -> (cycles: u8)
        requires
            old(mem).wf(),
            old(io).wf(),
            opcode >= 0xC0,
            opcode >= 0xE0,
        ensures
            final(mem).wf(),
            final(io).wf(),
            4 <= cycles <= 23,
            final(self).cycles == old(self).cycles,
            final(mem).rom@ == old(mem).rom@,
            final(mem).trdos_rom_loaded == old(mem).trdos_rom_loaded,
            final(mem).is_128k == old(mem).is_128k,
            final(mem).config == old(mem).config,
            final(io).keyboard == old(io).keyboard,
            final(io).config == old(io).config,
            opcode == 0xD9 ==> *final(self) == spec_exx(*old(self)) && *final(mem) == *old(mem)
                && *final(io) == *old(io) && cycles == 4,
            opcode == 0xF3 ==> *final(self) == (Z80 { iff1: false, iff2: false, ..*old(self) })
                && *final(mem) == *old(mem) && *final(io) == *old(io) && cycles == 4,
            opcode == 0xFB ==> *final(self) == (Z80 { iff1: true, iff2: true, ..*old(self) })
                && *final(mem) == *old(mem) && *final(io) == *old(io) && cycles == 4,
            opcode == 0xE9 ==> *final(self) == (Z80 { pc: old(self).hl, ..*old(self) }) && *final(mem) == *old(mem) && *final(io) == *old(io) && cycles == 4,
            opcode == 0xEB ==> *final(self) == (Z80 {
                de: old(self).hl,
                hl: old(self).de,
                ..*old(self)
            }) && *final(mem) == *old(mem) && *final(io) == *old(io) && cycles == 4,
            opcode == 0xF9 ==> *final(self) == (Z80 { sp: old(self).hl, ..*old(self) }) && *final(mem) == *old(mem) && *final(io) == *old(io) && cycles == 6,
            opcode == 0xC5 || opcode == 0xD5 || opcode == 0xE5 || opcode == 0xF5 ==> {
                let pushed = if opcode == 0xC5 {
                    old(self).bc
                } else if opcode == 0xD5 {
                    old(self).de
                } else if opcode == 0xE5 {
                    old(self).hl
                } else {
                    old(self).af
                };
                let nsp = wsub16(old(self).sp, 2);
                &&& *final(self) == (Z80 { sp: nsp, ..*old(self) })
                &&& *final(io) == *old(io)
                &&& old(mem).same_mapping(*final(mem))
                &&& cycles == 11
                &&& (nsp >= 0x4000 && nsp != 0xFFFF ==> final(mem).spec_read(nsp) == lo(pushed)
                    && final(mem).spec_read((nsp + 1) as u16) == hi(pushed))
            },
            opcode == 0xC1 ==> *final(self) == (Z80 {
                bc: spec_read_word(*old(mem), old(self).sp),
                sp: wadd16(old(self).sp, 2),
                ..*old(self)
            }) && *final(mem) == *old(mem) && *final(io) == *old(io) && cycles == 10,
            opcode == 0xD1 ==> *final(self) == (Z80 {
                de: spec_read_word(*old(mem), old(self).sp),
                sp: wadd16(old(self).sp, 2),
                ..*old(self)
            }) && *final(mem) == *old(mem) && *final(io) == *old(io) && cycles == 10,
            opcode == 0xE1 ==> *final(self) == (Z80 {
                hl: spec_read_word(*old(mem), old(self).sp),
                sp: wadd16(old(self).sp, 2),
                ..*old(self)
            }) && *final(mem) == *old(mem) && *final(io) == *old(io) && cycles == 10,
            opcode == 0xF1 ==> *final(self) == (Z80 {
                af: spec_read_word(*old(mem), old(self).sp),
                sp: wadd16(old(self).sp, 2),
                ..*old(self)
            }) && *final(mem) == *old(mem) && *final(io) == *old(io) && cycles == 10,
            opcode >= 0xC0 && opcode % 8 == 6 ==> *final(self) == spec_alu_acc(
                (Z80 {
                    pc: wadd16(old(self).pc, 1),
                    r: Self::spec_r_inc(old(self).r),
                    ..*old(self)
                }),
                (opcode >> 3) & 0x07,
                final(mem).spec_read(old(self).pc),
            ) && fetch_frame(*old(mem), *final(mem), old(self).pc) && *final(io) == *old(io)
                && cycles == 7,
            opcode == 0xC3 && no_trap2(old(self).pc, *old(mem)) ==> *final(self) == (Z80 {
                pc: word(
                    old(mem).spec_read(wadd16(old(self).pc, 1)),
                    old(mem).spec_read(old(self).pc),
                ),
                r: Self::spec_r_inc(Self::spec_r_inc(old(self).r)),
                ..*old(self)
            }) && *final(mem) == *old(mem) && *final(io) == *old(io) && cycles == 10,
            opcode >= 0xC0 && opcode % 8 == 2 && no_trap2(old(self).pc, *old(mem)) ==> ({
                let taken = spec_cond(lo(old(self).af), ((opcode / 8) % 8) as int);
                *final(self) == (Z80 {
                    pc: if taken {
                        word(
                            old(mem).spec_read(wadd16(old(self).pc, 1)),
                            old(mem).spec_read(old(self).pc),
                        )
                    } else {
                        wadd16(old(self).pc, 2)
                    },
                    r: Self::spec_r_inc(Self::spec_r_inc(old(self).r)),
                    ..*old(self)
                }) && *final(mem) == *old(mem) && *final(io) == *old(io) && cycles == 10
            }),
            ((opcode >= 0xC0 && opcode % 8 == 4) || opcode == 0xCD) && no_trap2(
                old(self).pc,
                *old(mem),
            ) ==> ({
                let taken = opcode == 0xCD || spec_cond(lo(old(self).af), ((opcode / 8) % 8) as int);
                let target = word(
                    old(mem).spec_read(wadd16(old(self).pc, 1)),
                    old(mem).spec_read(old(self).pc),
                );
                let ret = wadd16(old(self).pc, 2);
                let nsp = wsub16(old(self).sp, 2);
                &&& *final(io) == *old(io)
                &&& cycles == (if taken {
                    17u8
                } else {
                    10u8
                })
                &&& *final(self) == (Z80 {
                    pc: if taken {
                        target
                    } else {
                        ret
                    },
                    sp: if taken {
                        nsp
                    } else {
                        old(self).sp
                    },
                    r: Self::spec_r_inc(Self::spec_r_inc(old(self).r)),
                    ..*old(self)
                })
                &&& (!taken ==> *final(mem) == *old(mem))
                &&& (taken ==> old(mem).same_mapping(*final(mem)) && final(mem).ram@.len() == old(mem).ram@.len() && (nsp >= 0x4000 && nsp != 0xFFFF ==> final(mem).spec_read(nsp)
                    == lo(ret) && final(mem).spec_read((nsp + 1) as u16) == hi(ret)))
            }),
            opcode >= 0xC0 && opcode % 8 == 0 ==> ({
                let taken = spec_cond(lo(old(self).af), ((opcode / 8) % 8) as int);
                let popped = spec_read_word(*old(mem), old(self).sp);
                &&& *final(io) == *old(io)
                &&& cycles == (if taken {
                    11u8
                } else {
                    5u8
                })
                &&& (!taken ==> *final(self) == *old(self) && *final(mem) == *old(mem))
                &&& (taken ==> *final(self) == (Z80 {
                    pc: popped,
                    sp: wadd16(old(self).sp, 2),
                    ..*old(self)
                }) && final(mem).ram@ == old(mem).ram@ && final(mem).rom@ == old(mem).rom@
                    && final(mem).current_rom == old(mem).current_rom && final(mem).trdos_rom_loaded == old(mem).trdos_rom_loaded && final(mem).bank3 == old(mem).bank3 && final(mem).screen_bank == old(mem).screen_bank && final(mem).paging_disabled == old(mem).paging_disabled && final(mem).is_128k == old(mem).is_128k && final(mem).config == old(mem).config && final(mem).trdos_rom_active
                    == (old(mem).trdos_rom_active && !(popped >= 0x4000)))
            }),
            opcode == 0xC9 ==> ({
                let popped = spec_read_word(*old(mem), old(self).sp);
                &&& *final(io) == *old(io)
                &&& cycles == 10
                &&& *final(self) == (Z80 { pc: popped, sp: wadd16(old(self).sp, 2), ..*old(self) })
                &&& final(mem).ram@ == old(mem).ram@
                &&& final(mem).trdos_rom_active == (old(mem).trdos_rom_active && !(popped
                    >= 0x4000))
            }),
            opcode >= 0xC0 && opcode % 8 == 7 ==> ({
                let nsp = wsub16(old(self).sp, 2);
                &&& *final(io) == *old(io)
                &&& cycles == 11
                &&& *final(self) == (Z80 {
                    pc: (((opcode / 8) % 8) * 8) as u16,
                    sp: nsp,
                    ..*old(self)
                })
                &&& old(mem).same_mapping(*final(mem))
                &&& final(mem).ram@.len() == old(mem).ram@.len()
                &&& (nsp >= 0x4000 && nsp != 0xFFFF ==> final(mem).spec_read(nsp) == lo(
                    old(self).pc,
                ) && final(mem).spec_read((nsp + 1) as u16) == hi(old(self).pc))
            }),
            opcode == 0xE3 ==> ({
                &&& *final(self) == (Z80 {
                    hl: spec_read_word(*old(mem), old(self).sp),
                    ..*old(self)
                })
                &&& *final(io) == *old(io)
                &&& cycles == 19
                &&& old(mem).same_mapping(*final(mem))
                &&& (old(self).sp >= 0x4000 && old(self).sp != 0xFFFF ==> final(mem).spec_read(
                    old(self).sp,
                ) == lo(old(self).hl) && final(mem).spec_read((old(self).sp + 1) as u16) == hi(
                    old(self).hl,
                ))
            }),
            opcode == 0xD3 ==> *final(self) == (Z80 {
                pc: wadd16(old(self).pc, 1),
                r: Self::spec_r_inc(old(self).r),
                ..*old(self)
            }) && cycles == 11,
            opcode == 0xDB ==> cycles == 11 && lo(final(self).af) == lo(old(self).af)
                && *final(self) == (Z80 {
                af: final(self).af,
                pc: wadd16(old(self).pc, 1),
                r: Self::spec_r_inc(old(self).r),
                ..*old(self)
            }),
            opcode == 0xED && !Z80::trap_fires(old(self).pc, *old(mem)) && old(mem).spec_read(
                old(self).pc,
            ) == 0xB0 ==> ({
                let val = old(mem).spec_read(old(self).hl);
                let bc2 = wsub16(old(self).bc, 1);
                &&& *final(io) == *old(io)
                &&& cycles == (if bc2 != 0 {
                    21u8
                } else {
                    16u8
                })
                &&& *final(self) == (Z80 {
                    hl: wadd16(old(self).hl, 1),
                    de: wadd16(old(self).de, 1),
                    bc: bc2,
                    af: word(
                        hi(old(self).af),
                        spec_ldx_flags(lo(old(self).af), hi(old(self).af), val, bc2),
                    ),
                    pc: if bc2 != 0 {
                        wsub16(old(self).pc, 1)
                    } else {
                        wadd16(old(self).pc, 1)
                    },
                    r: Self::spec_r_inc(old(self).r),
                    ..*old(self)
                })
                &&& old(mem).same_mapping(*final(mem))
                &&& (old(self).de >= 0x4000 ==> final(mem).ram@ == old(mem).ram@.update(
                    old(mem).ram_index(old(self).de),
                    val,
                ))
                &&& (old(self).de < 0x4000 ==> final(mem).ram@ == old(mem).ram@)
            }),
    {
        proof {
            lemma_decode(opcode);
        }
        match opcode {
            0xE0 => {
                if !self.flag(FLAG_PV) {
                    self.ret(mem);
                    11
                } else {
                    5
                }
            },
            0xE1 => {
                self.hl = self.pop(mem);
                10
            },
            0xE2 => {
                let addr = self.fetch_word(mem);
                if !self.flag(FLAG_PV) {
                    self.pc = addr;
                }
                10
            },
            0xE3 => {
                let v = self.read_word(mem, self.sp);
                let hl = self.hl;
                self.write_word(mem, self.sp, hl);
                self.hl = v;
                19
            },
            0xE4 => {
                let addr = self.fetch_word(mem);
                if !self.flag(FLAG_PV) {
                    self.call(mem, addr);
                    17
                } else {
                    10
                }
            },
            0xE5 => {
                let v = self.hl;
                self.push(mem, v);
                11
            },
            0xE6 => {
                let n = self.fetch(mem);
                self.and_a(n);
                7
            },
            0xE7 => {
                self.rst(mem, 0x20);
                11
            },
            0xE8 => {
                if self.flag(FLAG_PV) {
                    self.ret(mem);
                    11
                } else {
                    5
                }
            },
            0xE9 => {
                self.pc = self.hl;
                4
            },
            0xEA => {
                let addr = self.fetch_word(mem);
                if self.flag(FLAG_PV) {
                    self.pc = addr;
                }
                10
            },
            0xEB => {
                let t = self.de;
                self.de = self.hl;
                self.hl = t;
                4
            },
            0xEC => {
                let addr = self.fetch_word(mem);
                if self.flag(FLAG_PV) {
                    self.call(mem, addr);
                    17
                } else {
                    10
                }
            },
            0xED => self.execute_ed(mem, io),
            0xEE => {
                let n = self.fetch(mem);
                self.xor_a(n);
                7
            },
            0xEF => {
                self.rst(mem, 0x28);
                11
            },
            0xF0 => {
                if !self.flag(FLAG_S) {
                    self.ret(mem);
                    11
                } else {
                    5
                }
            },
            0xF1 => {
                self.af = self.pop(mem);
                10
            },
            0xF2 => {
                let addr = self.fetch_word(mem);
                if !self.flag(FLAG_S) {
                    self.pc = addr;
                }
                10
            },
            0xF3 => {
                self.iff1 = false;
                self.iff2 = false;
                4
            },
            0xF4 => {
                let addr = self.fetch_word(mem);
                if !self.flag(FLAG_S) {
                    self.call(mem, addr);
                    17
                } else {
                    10
                }
            },
            0xF5 => {
                let v = self.af;
                self.push(mem, v);
                11
            },
            0xF6 => {
                let n = self.fetch(mem);
                self.or_a(n);
                7
            },
            0xF7 => {
                self.rst(mem, 0x30);
                11
            },
            0xF8 => {
                if self.flag(FLAG_S) {
                    self.ret(mem);
                    11
                } else {
                    5
                }
            },
            0xF9 => {
                self.sp = self.hl;
                6
            },
            0xFA => {
                let addr = self.fetch_word(mem);
                if self.flag(FLAG_S) {
                    self.pc = addr;
                }
                10
            },
            0xFB => {
                self.iff1 = true;
                self.iff2 = true;
                4
            },
            0xFC => {
                let addr = self.fetch_word(mem);
                if self.flag(FLAG_S) {
                    self.call(mem, addr);
                    17
                } else {
                    10
                }
            },
            0xFD => self.execute_fd(mem, io),
            0xFE => {
                let n = self.fetch(mem);
                self.cp_a(n);
                7
            },
            0xFF => {
                self.rst(mem, 0x38);
                11
            },
            _ => 4,
        }
    }

}

} // verus!
