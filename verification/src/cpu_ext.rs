//! Extended instruction sets of the Z80: the CB rotate/bit page, the ED
//! page (16-bit arithmetic with carry, block moves, I/O block ops,
//! interrupt-mode control), and the DD/FD index pages with their DDCB/FDCB
//! sub-pages.

use vstd::prelude::*;

use crate::cpu::{hi, lemma_word_parts_auto, lo, sign_ext, spec_read_word, wadd16, wadd8, word, wsub16, wsub8, Z80};
use crate::cpu_ops::{lemma_decode, no_trap2, reg16, reg8, set_reg8, spec_add16_flags, spec_alu_acc};
use crate::flags::{
    spec_dec_flags, spec_inc_flags, spec_parity_flag, spec_sub_flags, spec_sz53, wrap8,
    parity_flag, sub_flags, sz53_flags, FLAG_C, FLAG_H, FLAG_N, FLAG_PV, FLAG_S, FLAG_Z,
};
use crate::io::IoController;
use crate::memory::Memory;

verus! {

/// Flags after a CB rotate or shift: S, Z, F5, F3 and parity from the
/// result, C from the shifted-out bit, H and N clear.
pub open spec fn spec_rot_flags(result: u8, carry: bool) -> u8 {
    let f1 = spec_sz53(result) | spec_parity_flag(result);
    if carry {
        f1 | FLAG_C
    } else {
        f1
    }
}

/// Flags after BIT: Z and PV iff the tested bit is clear, H set, S only for
/// a set bit 7, C kept, F5/F3 from the source byte.
pub open spec fn spec_bit_flags(f: u8, b: u8, value: u8) -> u8 {
    let test = value & (1u8 << b);
    let f1 = (f & FLAG_C) | FLAG_H;
    let f2 = if test == 0 {
        f1 | (FLAG_Z | FLAG_PV)
    } else {
        f1
    };
    let f3 = if b == 7 && test != 0 {
        f2 | FLAG_S
    } else {
        f2
    };
    f3 | (value & 0x28)
}

/// The result byte of a CB operation: rotates and shifts (group 0), RES
/// (group 2) and SET (group 3); BIT (group 1) produces no result byte.
pub open spec fn spec_cb_result(f: u8, op: u8, v: u8) -> u8 {
    let sel = (op >> 3) & 0x07;
    if op >> 6 == 0 {
        if sel == 0 {
            (v << 1) | (v >> 7)
        } else if sel == 1 {
            (v >> 1) | ((v & 1) << 7)
        } else if sel == 2 {
            (v << 1) | (if f & FLAG_C != 0 {
                1u8
            } else {
                0u8
            })
        } else if sel == 3 {
            (v >> 1) | (if f & FLAG_C != 0 {
                0x80u8
            } else {
                0u8
            })
        } else if sel == 4 {
            v << 1
        } else if sel == 5 {
            (v >> 1) | (v & 0x80)
        } else if sel == 6 {
            (v << 1) | 1
        } else {
            v >> 1
        }
    } else if op >> 6 == 2 {
        v & !(1u8 << sel)
    } else {
        v | (1u8 << sel)
    }
}

/// The carry a CB rotate or shift pushes out: bit 7 for the left forms,
/// bit 0 for the right forms.
pub open spec fn spec_cb_carry(op: u8, v: u8) -> bool {
    let sel = (op >> 3) & 0x07;
    if sel == 0 || sel == 2 || sel == 4 || sel == 6 {
        v >> 7 != 0
    } else {
        v & 1 != 0
    }
}

/// A 16-bit value read as a two's-complement signed number.
pub open spec fn signed16(v: u16) -> int {
    if v < 0x8000 {
        v as int
    } else {
        v - 0x10000
    }
}

/// Flags after ADC HL,rr.
pub open spec fn spec_adc16_flags(hl: u16, v: u16, carry: bool) -> u8 {
    let cin: int = if carry {
        1
    } else {
        0
    };
    let r = wadd16(wadd16(hl, v), if carry {
        1u16
    } else {
        0u16
    });
    let f1: u8 = if r == 0 {
        FLAG_Z
    } else {
        0u8
    };
    let f2 = if r & 0x8000 != 0 {
        f1 | FLAG_S
    } else {
        f1
    };
    let f3 = f2 | (hi(r) & 0x28);
    let f4 = if hl + v + cin > 0xFFFF {
        f3 | FLAG_C
    } else {
        f3
    };
    let f5 = if (hl & 0x0FFF) + (v & 0x0FFF) + cin > 0x0FFF {
        f4 | FLAG_H
    } else {
        f4
    };
    let s = signed16(hl) + signed16(v) + cin;
    if s < -32768 || s > 32767 {
        f5 | FLAG_PV
    } else {
        f5
    }
}

/// Flags after SBC HL,rr.
pub open spec fn spec_sbc16_flags(hl: u16, v: u16, carry: bool) -> u8 {
    let cin: int = if carry {
        1
    } else {
        0
    };
    let r = wsub16(wsub16(hl, v), if carry {
        1u16
    } else {
        0u16
    });
    let f1: u8 = if r == 0 {
        FLAG_N | FLAG_Z
    } else {
        FLAG_N
    };
    let f2 = if r & 0x8000 != 0 {
        f1 | FLAG_S
    } else {
        f1
    };
    let f3 = f2 | (hi(r) & 0x28);
    let f4 = if hl - v - cin < 0 {
        f3 | FLAG_C
    } else {
        f3
    };
    let f5 = if (hl & 0x0FFF) < (v & 0x0FFF) + cin {
        f4 | FLAG_H
    } else {
        f4
    };
    let s = signed16(hl) - signed16(v) - cin;
    if s < -32768 || s > 32767 {
        f5 | FLAG_PV
    } else {
        f5
    }
}

/// Flags after LDI/LDD: S, Z and C kept, PV while BC is nonzero, F5/F3 from
/// the moved byte plus the accumulator.
pub open spec fn spec_ldx_flags(f: u8, a: u8, val: u8, bc_after: u16) -> u8 {
    let f1 = f & 0xC1;
    let f2 = if bc_after != 0 {
        f1 | FLAG_PV
    } else {
        f1
    };
    let n = wadd8(val, a);
    (f2 | (n & 0x08)) | ((n & 0x02) << 4)
}

/// Flags after CPI/CPD.
pub open spec fn spec_cpx_flags(f: u8, a: u8, val: u8, bc_after: u16) -> u8 {
    let result = wsub8(a, val);
    let f1 = (f & FLAG_C) | FLAG_N;
    let f2 = if result == 0 {
        f1 | FLAG_Z
    } else {
        f1
    };
    let f3 = if result & 0x80 != 0 {
        f2 | FLAG_S
    } else {
        f2
    };
    let half = (a & 0x0F) < (val & 0x0F);
    let f4 = if half {
        f3 | FLAG_H
    } else {
        f3
    };
    let f5 = if bc_after != 0 {
        f4 | FLAG_PV
    } else {
        f4
    };
    let n = if half {
        wsub8(result, 1)
    } else {
        result
    };
    (f5 | (n & 0x08)) | ((n & 0x02) << 4)
}

/// Law: when a block move has exhausted BC, the resulting flags have PV
/// clear; while BC is still nonzero, PV is set.  This is what lets a guest
/// test whether LDIR/LDDR has finished.
pub proof fn lemma_ldx_pv(f: u8, a: u8, val: u8, bc_after: u16)
    ensures
        (spec_ldx_flags(f, a, val, bc_after) & FLAG_PV != 0) <==> bc_after != 0,
{
    let f1 = f & 0xC1;
    let f2 = if bc_after != 0 {
        f1 | FLAG_PV
    } else {
        f1
    };
    let n = wadd8(val, a);
    assert(((f2 | (n & 0x08)) | ((n & 0x02) << 4)) & FLAG_PV != 0 <==> bc_after != 0)
        by (bit_vector)
        requires
            f1 == f & 0xC1,
            f2 == (if bc_after != 0 {
                f1 | FLAG_PV
            } else {
                f1
            }),
    ;
}

/// Flags after INI/IND/OUTI/OUTD: Z iff the decremented B is zero, N set,
/// S from the decremented B.
pub open spec fn spec_io_block_flags(b_after: u8) -> u8 {
    let f1: u8 = if b_after == 0 {
        FLAG_Z
    } else {
        0u8
    };
    let f2 = f1 | FLAG_N;
    if b_after & 0x80 != 0 {
        f2 | FLAG_S
    } else {
        f2
    }
}

impl Z80 {
    /// RLC: rotate left, bit 7 to carry and bit 0.
    fn rlc(&mut self, value: u8) -> (r: u8)
        ensures
            r == (value << 1) | (value >> 7),
            *final(self) == (Z80 {
                af: word(
                    hi(old(self).af),
                    spec_rot_flags((value << 1) | (value >> 7), value >> 7 != 0),
                ),
                ..*old(self)
            }),
    {
        let carry = value >> 7;
        let result = (value << 1) | carry;
        self.set_rot_flags(result, carry != 0);
        result
    }

    /// RRC: rotate right, bit 0 to carry and bit 7.
    fn rrc(&mut self, value: u8) -> (r: u8)
        ensures
            r == (value >> 1) | ((value & 1) << 7),
            *final(self) == (Z80 {
                af: word(
                    hi(old(self).af),
                    spec_rot_flags((value >> 1) | ((value & 1) << 7), value & 1 != 0),
                ),
                ..*old(self)
            }),
    {
        let carry = value & 1;
        let result = (value >> 1) | (carry << 7);
        self.set_rot_flags(result, carry != 0);
        result
    }

    /// RL: rotate left through carry.
    fn rl(&mut self, value: u8) -> (r: u8)
        ensures
            ({
                let cin: u8 = if lo(old(self).af) & FLAG_C != 0 {
                    1u8
                } else {
                    0u8
                };
                r == (value << 1) | cin && *final(self) == (Z80 {
                    af: word(
                        hi(old(self).af),
                        spec_rot_flags((value << 1) | cin, value >> 7 != 0),
                    ),
                    ..*old(self)
                })
            }),
    {
        let old_carry: u8 = if self.flag(FLAG_C) {
            1
        } else {
            0
        };
        let new_carry = value >> 7;
        let result = (value << 1) | old_carry;
        self.set_rot_flags(result, new_carry != 0);
        result
    }

    /// RR: rotate right through carry.
    fn rr(&mut self, value: u8) -> (r: u8)
        ensures
            ({
                let cin: u8 = if lo(old(self).af) & FLAG_C != 0 {
                    0x80u8
                } else {
                    0u8
                };
                r == (value >> 1) | cin && *final(self) == (Z80 {
                    af: word(
                        hi(old(self).af),
                        spec_rot_flags((value >> 1) | cin, value & 1 != 0),
                    ),
                    ..*old(self)
                })
            }),
    {
        let old_carry: u8 = if self.flag(FLAG_C) {
            0x80
        } else {
            0
        };
        let new_carry = value & 1;
        let result = (value >> 1) | old_carry;
        self.set_rot_flags(result, new_carry != 0);
        result
    }

    /// SLA: shift left, bit 0 cleared.
    fn sla(&mut self, value: u8) -> (r: u8)
        ensures
            r == value << 1,
            *final(self) == (Z80 {
                af: word(hi(old(self).af), spec_rot_flags(value << 1, value >> 7 != 0)),
                ..*old(self)
            }),
    {
        let carry = value >> 7;
        let result = value << 1;
        self.set_rot_flags(result, carry != 0);
        result
    }

    /// SRA: arithmetic shift right, bit 7 kept.
    fn sra(&mut self, value: u8) -> (r: u8)
        ensures
            r == (value >> 1) | (value & 0x80),
            *final(self) == (Z80 {
                af: word(
                    hi(old(self).af),
                    spec_rot_flags((value >> 1) | (value & 0x80), value & 1 != 0),
                ),
                ..*old(self)
            }),
    {
        let carry = value & 1;
        let result = (value >> 1) | (value & 0x80);
        self.set_rot_flags(result, carry != 0);
        result
    }

    /// SLL (undocumented): shift left, bit 0 set.
    fn sll(&mut self, value: u8) -> (r: u8)
        ensures
            r == (value << 1) | 1,
            *final(self) == (Z80 {
                af: word(hi(old(self).af), spec_rot_flags((value << 1) | 1, value >> 7 != 0)),
                ..*old(self)
            }),
    {
        let carry = value >> 7;
        let result = (value << 1) | 1;
        self.set_rot_flags(result, carry != 0);
        result
    }

    /// SRL: logical shift right.
    fn srl(&mut self, value: u8) -> (r: u8)
        ensures
            r == value >> 1,
            *final(self) == (Z80 {
                af: word(hi(old(self).af), spec_rot_flags(value >> 1, value & 1 != 0)),
                ..*old(self)
            }),
    {
        let carry = value & 1;
        let result = value >> 1;
        self.set_rot_flags(result, carry != 0);
        result
    }

    /// Store the common rotate/shift flags.
    fn set_rot_flags(&mut self, result: u8, carry: bool)
        ensures
            *final(self) == (Z80 {
                af: word(hi(old(self).af), spec_rot_flags(result, carry)),
                ..*old(self)
            }),
    {
        let f1 = sz53_flags(result) | parity_flag(result);
        let f = if carry {
            f1 | FLAG_C
        } else {
            f1
        };
        self.set_f(f);
    }

    /// BIT b,v: test one bit, flags only.
    fn bit_op(&mut self, b: u8, value: u8)
        requires
            b < 8,
        ensures
            *final(self) == (Z80 {
                af: word(hi(old(self).af), spec_bit_flags(lo(old(self).af), b, value)),
                ..*old(self)
            }),
    {
        let test = value & (1u8 << b);
        let f1 = (self.f() & FLAG_C) | FLAG_H;
        let f2 = if test == 0 {
            f1 | (FLAG_Z | FLAG_PV)
        } else {
            f1
        };
        let f3 = if b == 7 && test != 0 {
            f2 | FLAG_S
        } else {
            f2
        };
        self.set_f(f3 | (value & 0x28));
    }

    /// NEG: negate the accumulator, flags as 0 - A.
    fn neg(&mut self)
        ensures
            ({
                let a = hi(old(self).af);
                let r = wrap8(0 - a);
                *final(self) == (Z80 {
                    af: word(r, spec_sub_flags(0, a, r, false)),
                    ..*old(self)
                })
            }),
    {
        let a = self.a();
        let result = 0u8.wrapping_sub(a);
        let f = sub_flags(0, a, result, false);
        self.set_af_parts(result, f);
    }

    /// RETN/RETI: restore IFF1 from IFF2, then return as RET (including the
    /// overlay deactivation on a return to 0x4000 or above).
    fn retn(&mut self, mem: &mut Memory)
        requires
            old(mem).wf(),
        ensures
            final(mem).wf(),
            final(mem).ram@ == old(mem).ram@,
            final(mem).rom@ == old(mem).rom@,
            final(mem).current_rom == old(mem).current_rom,
            final(mem).trdos_rom_loaded == old(mem).trdos_rom_loaded,
            final(mem).bank3 == old(mem).bank3,
            final(mem).screen_bank == old(mem).screen_bank,
            final(mem).paging_disabled == old(mem).paging_disabled,
            final(mem).is_128k == old(mem).is_128k,
            final(mem).config == old(mem).config,
            final(mem).trdos_rom_active == (old(mem).trdos_rom_active && !(spec_read_word(
                *old(mem),
                old(self).sp,
            ) >= 0x4000)),
            *final(self) == (Z80 {
                pc: spec_read_word(*old(mem), old(self).sp),
                sp: wadd16(old(self).sp, 2),
                iff1: old(self).iff2,
                ..*old(self)
            }),
    {
        self.iff1 = self.iff2;
        self.ret(mem);
    }

    /// LD A,I / LD A,R: load and set S/Z/F5/F3 from the value, PV from IFF2,
    /// carry kept.
    fn ld_a_ir(&mut self, value: u8)
        ensures
            ({
                let f1 = spec_sz53(value) | (lo(old(self).af) & FLAG_C);
                let f = if old(self).iff2 {
                    f1 | FLAG_PV
                } else {
                    f1
                };
                *final(self) == (Z80 { af: word(value, f), ..*old(self) })
            }),
    {
        let f1 = sz53_flags(value) | (self.f() & FLAG_C);
        let f = if self.iff2 {
            f1 | FLAG_PV
        } else {
            f1
        };
        self.set_af_parts(value, f);
    }

    /// RRD: rotate a nibble right through the accumulator and (HL).
    fn rrd(&mut self, mem: &mut Memory)
        requires
            old(mem).wf(),
        ensures
            final(mem).wf(),
            old(mem).same_mapping(*final(mem)),
            ({
                let a = hi(old(self).af);
                let m = old(mem).spec_read(old(self).hl);
                let new_a = (a & 0xF0) | (m & 0x0F);
                let new_m = ((a & 0x0F) << 4) | (m >> 4);
                let f = (spec_sz53(new_a) | spec_parity_flag(new_a)) | (lo(old(self).af) & FLAG_C);
                &&& *final(self) == (Z80 { af: word(new_a, f), ..*old(self) })
                &&& (old(self).hl >= 0x4000 ==> final(mem).spec_read(old(self).hl) == new_m)
                &&& (old(self).hl < 0x4000 ==> final(mem).ram@ == old(mem).ram@)
            }),
    {
        let a = self.a();
        let m = self.read_byte(mem, self.hl);
        let new_a = (a & 0xF0) | (m & 0x0F);
        let new_m = ((a & 0x0F) << 4) | (m >> 4);
        self.write_byte(mem, self.hl, new_m);
        let f = (sz53_flags(new_a) | parity_flag(new_a)) | (self.f() & FLAG_C);
        self.set_af_parts(new_a, f);
    }

    /// RLD: rotate a nibble left through the accumulator and (HL).
    fn rld(&mut self, mem: &mut Memory)
        requires
            old(mem).wf(),
        ensures
            final(mem).wf(),
            old(mem).same_mapping(*final(mem)),
            ({
                let a = hi(old(self).af);
                let m = old(mem).spec_read(old(self).hl);
                let new_a = (a & 0xF0) | (m >> 4);
                let new_m = ((m & 0x0F) << 4) | (a & 0x0F);
                let f = (spec_sz53(new_a) | spec_parity_flag(new_a)) | (lo(old(self).af) & FLAG_C);
                &&& *final(self) == (Z80 { af: word(new_a, f), ..*old(self) })
                &&& (old(self).hl >= 0x4000 ==> final(mem).spec_read(old(self).hl) == new_m)
                &&& (old(self).hl < 0x4000 ==> final(mem).ram@ == old(mem).ram@)
            }),
    {
        let a = self.a();
        let m = self.read_byte(mem, self.hl);
        let new_a = (a & 0xF0) | (m >> 4);
        let new_m = ((m & 0x0F) << 4) | (a & 0x0F);
        self.write_byte(mem, self.hl, new_m);
        let f = (sz53_flags(new_a) | parity_flag(new_a)) | (self.f() & FLAG_C);
        self.set_af_parts(new_a, f);
    }

    /// ADC HL,rr.
    fn adc_hl(&mut self, value: u16)
        ensures
            ({
                let carry = lo(old(self).af) & FLAG_C != 0;
                let cin: u16 = if carry {
                    1u16
                } else {
                    0u16
                };
                *final(self) == (Z80 {
                    hl: wadd16(wadd16(old(self).hl, value), cin),
                    af: word(
                        hi(old(self).af),
                        spec_adc16_flags(old(self).hl, value, carry),
                    ),
                    ..*old(self)
                })
            }),
    {
        let hl = self.hl;
        let carry_flag = self.flag(FLAG_C);
        let carry: u16 = if carry_flag {
            1
        } else {
            0
        };
        let result = hl.wrapping_add(value).wrapping_add(carry);
        let f1: u8 = if result == 0 {
            FLAG_Z
        } else {
            0
        };
        let f2 = if result & 0x8000 != 0 {
            f1 | FLAG_S
        } else {
            f1
        };
        let f3 = f2 | (((result >> 8) as u8) & 0x28);
        let sum: u32 = hl as u32 + value as u32 + carry as u32;
        let f4 = if sum > 0xFFFF {
            f3 | FLAG_C
        } else {
            f3
        };
        proof {
            assert(hl & 0x0FFF <= 0x0FFF && value & 0x0FFF <= 0x0FFF) by (bit_vector);
        }
        let f5 = if (hl & 0x0FFF) + (value & 0x0FFF) + carry > 0x0FFF {
            f4 | FLAG_H
        } else {
            f4
        };
        let shl: i32 = if hl >= 0x8000 {
            hl as i32 - 0x10000
        } else {
            hl as i32
        };
        let sv: i32 = if value >= 0x8000 {
            value as i32 - 0x10000
        } else {
            value as i32
        };
        let s: i32 = shl + sv + carry as i32;
        let f = if s < -32768 || s > 32767 {
            f5 | FLAG_PV
        } else {
            f5
        };
        self.hl = result;
        self.set_f(f);
    }

    /// SBC HL,rr.
    fn sbc_hl(&mut self, value: u16)
        ensures
            ({
                let carry = lo(old(self).af) & FLAG_C != 0;
                let cin: u16 = if carry {
                    1u16
                } else {
                    0u16
                };
                *final(self) == (Z80 {
                    hl: wsub16(wsub16(old(self).hl, value), cin),
                    af: word(
                        hi(old(self).af),
                        spec_sbc16_flags(old(self).hl, value, carry),
                    ),
                    ..*old(self)
                })
            }),
    {
        let hl = self.hl;
        let carry_flag = self.flag(FLAG_C);
        let carry: u16 = if carry_flag {
            1
        } else {
            0
        };
        let result = hl.wrapping_sub(value).wrapping_sub(carry);
        let f1: u8 = if result == 0 {
            FLAG_N | FLAG_Z
        } else {
            FLAG_N
        };
        let f2 = if result & 0x8000 != 0 {
            f1 | FLAG_S
        } else {
            f1
        };
        let f3 = f2 | (((result >> 8) as u8) & 0x28);
        let diff: i32 = hl as i32 - value as i32 - carry as i32;
        let f4 = if diff < 0 {
            f3 | FLAG_C
        } else {
            f3
        };
        proof {
            assert(hl & 0x0FFF <= 0x0FFF && value & 0x0FFF <= 0x0FFF) by (bit_vector);
        }
        let f5 = if (hl & 0x0FFF) < (value & 0x0FFF) + carry {
            f4 | FLAG_H
        } else {
            f4
        };
        let shl: i32 = if hl >= 0x8000 {
            hl as i32 - 0x10000
        } else {
            hl as i32
        };
        let sv: i32 = if value >= 0x8000 {
            value as i32 - 0x10000
        } else {
            value as i32
        };
        let s: i32 = shl - sv - carry as i32;
        let f = if s < -32768 || s > 32767 {
            f5 | FLAG_PV
        } else {
            f5
        };
        self.hl = result;
        self.set_f(f);
    }

    /// LDI: move (HL) to (DE), advance both, decrement BC.
    fn ldi(&mut self, mem: &mut Memory)
        requires
            old(mem).wf(),
        ensures
            final(mem).wf(),
            old(mem).same_mapping(*final(mem)),
            ({
                let val = old(mem).spec_read(old(self).hl);
                let bc2 = wsub16(old(self).bc, 1);
                &&& *final(self) == (Z80 {
                    hl: wadd16(old(self).hl, 1),
                    de: wadd16(old(self).de, 1),
                    bc: bc2,
                    af: word(
                        hi(old(self).af),
                        spec_ldx_flags(lo(old(self).af), hi(old(self).af), val, bc2),
                    ),
                    ..*old(self)
                })
                &&& (old(self).de >= 0x4000 ==> final(mem).ram@ == old(mem).ram@.update(
                    old(mem).ram_index(old(self).de),
                    val,
                ))
                &&& (old(self).de < 0x4000 ==> final(mem).ram@ == old(mem).ram@)
            }),
    {
        let val = self.read_byte(mem, self.hl);
        self.write_byte(mem, self.de, val);
        self.hl = self.hl.wrapping_add(1);
        self.de = self.de.wrapping_add(1);
        self.bc = self.bc.wrapping_sub(1);
        let f1 = self.f() & 0xC1;
        let f2 = if self.bc != 0 {
            f1 | FLAG_PV
        } else {
            f1
        };
        let a = self.a();
        let n = val.wrapping_add(a);
        self.set_f((f2 | (n & 0x08)) | ((n & 0x02) << 4));
    }

    /// LDD: move (HL) to (DE), retreat both, decrement BC.
    fn ldd(&mut self, mem: &mut Memory)
        requires
            old(mem).wf(),
        ensures
            final(mem).wf(),
            old(mem).same_mapping(*final(mem)),
            ({
                let val = old(mem).spec_read(old(self).hl);
                let bc2 = wsub16(old(self).bc, 1);
                &&& *final(self) == (Z80 {
                    hl: wsub16(old(self).hl, 1),
                    de: wsub16(old(self).de, 1),
                    bc: bc2,
                    af: word(
                        hi(old(self).af),
                        spec_ldx_flags(lo(old(self).af), hi(old(self).af), val, bc2),
                    ),
                    ..*old(self)
                })
                &&& (old(self).de >= 0x4000 ==> final(mem).ram@ == old(mem).ram@.update(
                    old(mem).ram_index(old(self).de),
                    val,
                ))
                &&& (old(self).de < 0x4000 ==> final(mem).ram@ == old(mem).ram@)
            }),
    {
        let val = self.read_byte(mem, self.hl);
        self.write_byte(mem, self.de, val);
        self.hl = self.hl.wrapping_sub(1);
        self.de = self.de.wrapping_sub(1);
        self.bc = self.bc.wrapping_sub(1);
        let f1 = self.f() & 0xC1;
        let f2 = if self.bc != 0 {
            f1 | FLAG_PV
        } else {
            f1
        };
        let a = self.a();
        let n = val.wrapping_add(a);
        self.set_f((f2 | (n & 0x08)) | ((n & 0x02) << 4));
    }

    /// CPI: compare A with (HL), advance HL, decrement BC.
    fn cpi(&mut self, mem: &Memory)
        requires
            mem.wf(),
        ensures
            ({
                let val = mem.spec_read(old(self).hl);
                let bc2 = wsub16(old(self).bc, 1);
                *final(self) == (Z80 {
                    hl: wadd16(old(self).hl, 1),
                    bc: bc2,
                    af: word(
                        hi(old(self).af),
                        spec_cpx_flags(lo(old(self).af), hi(old(self).af), val, bc2),
                    ),
                    ..*old(self)
                })
            }),
    {
        let val = self.read_byte(mem, self.hl);
        let a = self.a();
        let result = a.wrapping_sub(val);
        self.hl = self.hl.wrapping_add(1);
        self.bc = self.bc.wrapping_sub(1);
        let f1 = (self.f() & FLAG_C) | FLAG_N;
        let f2 = if result == 0 {
            f1 | FLAG_Z
        } else {
            f1
        };
        let f3 = if result & 0x80 != 0 {
            f2 | FLAG_S
        } else {
            f2
        };
        let half = (a & 0x0F) < (val & 0x0F);
        let f4 = if half {
            f3 | FLAG_H
        } else {
            f3
        };
        let f5 = if self.bc != 0 {
            f4 | FLAG_PV
        } else {
            f4
        };
        let n = if half {
            result.wrapping_sub(1)
        } else {
            result
        };
        self.set_f((f5 | (n & 0x08)) | ((n & 0x02) << 4));
    }

    /// CPD: compare A with (HL), retreat HL, decrement BC.
    fn cpd(&mut self, mem: &Memory)
        requires
            mem.wf(),
        ensures
            ({
                let val = mem.spec_read(old(self).hl);
                let bc2 = wsub16(old(self).bc, 1);
                *final(self) == (Z80 {
                    hl: wsub16(old(self).hl, 1),
                    bc: bc2,
                    af: word(
                        hi(old(self).af),
                        spec_cpx_flags(lo(old(self).af), hi(old(self).af), val, bc2),
                    ),
                    ..*old(self)
                })
            }),
    {
        let val = self.read_byte(mem, self.hl);
        let a = self.a();
        let result = a.wrapping_sub(val);
        self.hl = self.hl.wrapping_sub(1);
        self.bc = self.bc.wrapping_sub(1);
        let f1 = (self.f() & FLAG_C) | FLAG_N;
        let f2 = if result == 0 {
            f1 | FLAG_Z
        } else {
            f1
        };
        let f3 = if result & 0x80 != 0 {
            f2 | FLAG_S
        } else {
            f2
        };
        let half = (a & 0x0F) < (val & 0x0F);
        let f4 = if half {
            f3 | FLAG_H
        } else {
            f3
        };
        let f5 = if self.bc != 0 {
            f4 | FLAG_PV
        } else {
            f4
        };
        let n = if half {
            result.wrapping_sub(1)
        } else {
            result
        };
        self.set_f((f5 | (n & 0x08)) | ((n & 0x02) << 4));
    }

    /// INI/IND: read the port in BC into (HL), step HL, decrement B.
    fn in_block(&mut self, mem: &mut Memory, io: &mut IoController, up: bool)
        requires
            old(mem).wf(),
            old(io).wf(),
        ensures
            final(mem).wf(),
            final(io).wf(),
            final(mem).ram@.len() == old(mem).ram@.len(),
            final(mem).rom@ == old(mem).rom@,
            final(mem).current_rom == old(mem).current_rom,
            final(mem).trdos_rom_loaded == old(mem).trdos_rom_loaded,
            final(mem).bank3 == old(mem).bank3,
            final(mem).screen_bank == old(mem).screen_bank,
            final(mem).paging_disabled == old(mem).paging_disabled,
            final(mem).is_128k == old(mem).is_128k,
            final(mem).config == old(mem).config,
            final(io).keyboard == old(io).keyboard,
            final(io).config == old(io).config,
            ({
                let b2 = wsub8(hi(old(self).bc), 1);
                *final(self) == (Z80 {
                    hl: if up {
                        wadd16(old(self).hl, 1)
                    } else {
                        wsub16(old(self).hl, 1)
                    },
                    bc: word(b2, lo(old(self).bc)),
                    af: word(hi(old(self).af), spec_io_block_flags(b2)),
                    ..*old(self)
                })
            }),
    {
        let port = self.bc;
        let val = self.io_read(io, mem, port);
        self.write_byte(mem, self.hl, val);
        self.hl = if up {
            self.hl.wrapping_add(1)
        } else {
            self.hl.wrapping_sub(1)
        };
        let b = self.b().wrapping_sub(1);
        self.set_b(b);
        let f1: u8 = if b == 0 {
            FLAG_Z
        } else {
            0
        };
        let f2 = f1 | FLAG_N;
        let f = if b & 0x80 != 0 {
            f2 | FLAG_S
        } else {
            f2
        };
        self.set_f(f);
    }

    /// OUTI/OUTD: write (HL) to the port in BC (with B already
    /// decremented), step HL.
    fn out_block(&mut self, mem: &mut Memory, io: &mut IoController, up: bool)
        requires
            old(mem).wf(),
            old(io).wf(),
        ensures
            final(mem).wf(),
            final(io).wf(),
            final(mem).ram@ == old(mem).ram@,
            final(mem).rom@ == old(mem).rom@,
            final(mem).trdos_rom_loaded == old(mem).trdos_rom_loaded,
            final(mem).is_128k == old(mem).is_128k,
            final(mem).config == old(mem).config,
            final(io).keyboard == old(io).keyboard,
            final(io).config == old(io).config,
            ({
                let b2 = wsub8(hi(old(self).bc), 1);
                *final(self) == (Z80 {
                    hl: if up {
                        wadd16(old(self).hl, 1)
                    } else {
                        wsub16(old(self).hl, 1)
                    },
                    bc: word(b2, lo(old(self).bc)),
                    af: word(hi(old(self).af), spec_io_block_flags(b2)),
                    ..*old(self)
                })
            }),
    {
        let val = self.read_byte(mem, self.hl);
        let b = self.b().wrapping_sub(1);
        self.set_b(b);
        let port = self.bc;
        self.io_write(io, mem, port, val);
        self.hl = if up {
            self.hl.wrapping_add(1)
        } else {
            self.hl.wrapping_sub(1)
        };
        let f1: u8 = if b == 0 {
            FLAG_Z
        } else {
            0
        };
        let f2 = f1 | FLAG_N;
        let f = if b & 0x80 != 0 {
            f2 | FLAG_S
        } else {
            f2
        };
        self.set_f(f);
    }

    /// Execute a CB-prefixed instruction: rotates and shifts, BIT, RES and
    /// SET on a register or (HL).
    #[verifier::rlimit(100)]
    #[verifier::spinoff_prover]
    pub fn execute_cb(&mut self, mem: &mut Memory) -> (cycles: u8)
        requires
            old(mem).wf(),
        ensures
            final(mem).wf(),
            8 <= cycles <= 15,
            final(self).cycles == old(self).cycles,
            final(mem).rom@ == old(mem).rom@,
            final(mem).trdos_rom_loaded == old(mem).trdos_rom_loaded,
            final(mem).is_128k == old(mem).is_128k,
            final(mem).config == old(mem).config,
            !Z80::trap_fires(old(self).pc, *old(mem)) ==> ({
                let op = old(mem).spec_read(old(self).pc);
                let sel = (op >> 3) & 0x07;
                let reg = op & 0x07;
                let pre = (Z80 {
                    pc: wadd16(old(self).pc, 1),
                    r: Self::spec_r_inc(old(self).r),
                    ..*old(self)
                });
                let value = if reg == 6 {
                    old(mem).spec_read(old(self).hl)
                } else {
                    reg8(pre, reg)
                };
                &&& cycles == (if op >> 6 == 1 {
                    if reg == 6 {
                        12u8
                    } else {
                        8u8
                    }
                } else {
                    if reg == 6 {
                        15u8
                    } else {
                        8u8
                    }
                })
                &&& (op >> 6 == 1 ==> *final(self) == (Z80 {
                    af: word(hi(pre.af), spec_bit_flags(lo(pre.af), sel, value)),
                    ..pre
                }) && *final(mem) == *old(mem))
                &&& (op >> 6 != 1 ==> ({
                    let result = spec_cb_result(lo(pre.af), op, value);
                    let mid = if op >> 6 == 0 {
                        (Z80 {
                            af: word(hi(pre.af), spec_rot_flags(result, spec_cb_carry(op, value))),
                            ..pre
                        })
                    } else {
                        pre
                    };
                    &&& (reg != 6 ==> *final(self) == set_reg8(mid, reg, result) && *final(mem)
                        == *old(mem))
                    &&& (reg == 6 ==> *final(self) == mid && old(mem).same_mapping(*final(mem))
                        && (old(self).hl >= 0x4000 ==> final(mem).ram@ == old(mem).ram@.update(
                        old(mem).ram_index(old(self).hl),
                        result,
                    ) && final(mem).spec_read(old(self).hl) == result) && (old(self).hl < 0x4000
                        ==> final(mem).ram@ == old(mem).ram@))
                }))
            }),
    {
        let opcode = self.fetch(mem);
        let reg = opcode & 0x07;
        let sel = (opcode >> 3) & 0x07;
        proof {
            assert(opcode & 0x07 < 8 && (opcode >> 3) & 0x07 < 8 && opcode >> 6 < 4)
                by (bit_vector);
        }
        let value = if reg == 0 {
            self.b()
        } else if reg == 1 {
            self.c()
        } else if reg == 2 {
            self.d()
        } else if reg == 3 {
            self.e()
        } else if reg == 4 {
            self.h()
        } else if reg == 5 {
            self.l()
        } else if reg == 6 {
            self.read_byte(mem, self.hl)
        } else {
            self.a()
        };
        let cycles: u8 = if reg == 6 {
            15
        } else {
            8
        };
        let group = opcode >> 6;
        if group == 1 {
            self.bit_op(sel, value);
            return if reg == 6 {
                12
            } else {
                8
            };
        }
        let result = if group == 0 {
            if sel == 0 {
                self.rlc(value)
            } else if sel == 1 {
                self.rrc(value)
            } else if sel == 2 {
                self.rl(value)
            } else if sel == 3 {
                self.rr(value)
            } else if sel == 4 {
                self.sla(value)
            } else if sel == 5 {
                self.sra(value)
            } else if sel == 6 {
                self.sll(value)
            } else {
                self.srl(value)
            }
        } else if group == 2 {
            value & !(1u8 << sel)
        } else {
            value | (1u8 << sel)
        };
        if reg == 0 {
            self.set_b(result);
        } else if reg == 1 {
            self.set_c(result);
        } else if reg == 2 {
            self.set_d(result);
        } else if reg == 3 {
            self.set_e(result);
        } else if reg == 4 {
            self.set_h(result);
        } else if reg == 5 {
            self.set_l(result);
        } else if reg == 6 {
            self.write_byte(mem, self.hl, result);
        } else {
            self.set_a(result);
        }
        cycles
    }

    /// Execute an ED-prefixed instruction: port I/O on BC, 16-bit adds with
    /// carry, interrupt modes, block moves and compares, block I/O.
    /// Undefined opcodes act as an 8-cycle NOP.
    #[verifier::rlimit(100)]
    #[verifier::spinoff_prover]
    pub fn execute_ed(&mut self, mem: &mut Memory, io: &mut IoController) -> (cycles: u8)
        requires
            old(mem).wf(),
            old(io).wf(),
        ensures
            final(mem).wf(),
            final(io).wf(),
            8 <= cycles <= 21,
            final(self).cycles == old(self).cycles,
            final(mem).rom@ == old(mem).rom@,
            final(mem).trdos_rom_loaded == old(mem).trdos_rom_loaded,
            final(mem).is_128k == old(mem).is_128k,
            final(mem).config == old(mem).config,
            final(io).keyboard == old(io).keyboard,
            final(io).config == old(io).config,
            !Z80::trap_fires(old(self).pc, *old(mem)) ==> ({
                let op = old(mem).spec_read(old(self).pc);
                let pre = (Z80 {
                    pc: wadd16(old(self).pc, 1),
                    r: Self::spec_r_inc(old(self).r),
                    ..*old(self)
                });
                &&& (op == 0x44 || op == 0x4C || op == 0x54 || op == 0x5C || op == 0x64 || op
                    == 0x6C || op == 0x74 || op == 0x7C ==> ({
                    let a = hi(old(self).af);
                    let rr = wrap8(0 - a);
                    *final(self) == (Z80 { af: word(rr, spec_sub_flags(0, a, rr, false)), ..pre })
                        && *final(mem) == *old(mem) && *final(io) == *old(io) && cycles == 8
                }))
                &&& (op == 0x45 || op == 0x55 || op == 0x5D || op == 0x65 || op == 0x6D || op
                    == 0x75 || op == 0x7D || op == 0x4D ==> ({
                    let popped = spec_read_word(*old(mem), old(self).sp);
                    &&& *final(self) == (Z80 {
                        pc: popped,
                        sp: wadd16(old(self).sp, 2),
                        iff1: old(self).iff2,
                        r: Self::spec_r_inc(old(self).r),
                        ..*old(self)
                    })
                    &&& cycles == 14
                    &&& *final(io) == *old(io)
                    &&& final(mem).ram@ == old(mem).ram@
                    &&& final(mem).trdos_rom_active == (old(mem).trdos_rom_active && !(popped
                        >= 0x4000))
                }))
                &&& (op == 0x46 || op == 0x4E || op == 0x66 || op == 0x6E ==> *final(self) == (Z80 {
                    im: 0,
                    ..pre
                }) && *final(mem) == *old(mem) && *final(io) == *old(io) && cycles == 8)
                &&& (op == 0x56 || op == 0x76 ==> *final(self) == (Z80 { im: 1, ..pre }) && *final(mem)
                    == *old(mem) && *final(io) == *old(io) && cycles == 8)
                &&& (op == 0x5E || op == 0x7E ==> *final(self) == (Z80 { im: 2, ..pre }) && *final(mem)
                    == *old(mem) && *final(io) == *old(io) && cycles == 8)
                &&& (op == 0x47 ==> *final(self) == (Z80 { i: hi(old(self).af), ..pre }) && *final(mem)
                    == *old(mem) && *final(io) == *old(io) && cycles == 9)
                &&& (op == 0x4F ==> *final(self) == (Z80 {
                    r: hi(old(self).af),
                    pc: wadd16(old(self).pc, 1),
                    ..*old(self)
                }) && *final(mem) == *old(mem) && *final(io) == *old(io) && cycles == 9)
                &&& (op == 0x57 ==> ({
                    let f1 = spec_sz53(old(self).i) | (lo(old(self).af) & FLAG_C);
                    let f = if old(self).iff2 {
                        f1 | FLAG_PV
                    } else {
                        f1
                    };
                    *final(self) == (Z80 { af: word(old(self).i, f), ..pre }) && *final(mem)
                        == *old(mem) && *final(io) == *old(io) && cycles == 9
                }))
                &&& (op == 0x5F ==> ({
                    let v = Self::spec_r_inc(old(self).r);
                    let f1 = spec_sz53(v) | (lo(old(self).af) & FLAG_C);
                    let f = if old(self).iff2 {
                        f1 | FLAG_PV
                    } else {
                        f1
                    };
                    *final(self) == (Z80 { af: word(v, f), ..pre }) && *final(mem) == *old(mem)
                        && *final(io) == *old(io) && cycles == 9
                }))
                &&& (0x40 <= op < 0x80 && op % 16 == 10 ==> ({
                    let v = reg16(*old(self), ((op - 0x40) / 16) as u8);
                    let carry = lo(old(self).af) & FLAG_C != 0;
                    let cinv: u16 = if carry {
                        1u16
                    } else {
                        0u16
                    };
                    *final(self) == (Z80 {
                        hl: wadd16(wadd16(old(self).hl, v), cinv),
                        af: word(hi(old(self).af), spec_adc16_flags(old(self).hl, v, carry)),
                        ..pre
                    }) && *final(mem) == *old(mem) && *final(io) == *old(io) && cycles == 15
                }))
                &&& (0x40 <= op < 0x80 && op % 16 == 2 ==> ({
                    let v = reg16(*old(self), ((op - 0x40) / 16) as u8);
                    let carry = lo(old(self).af) & FLAG_C != 0;
                    let cinv: u16 = if carry {
                        1u16
                    } else {
                        0u16
                    };
                    *final(self) == (Z80 {
                        hl: wsub16(wsub16(old(self).hl, v), cinv),
                        af: word(hi(old(self).af), spec_sbc16_flags(old(self).hl, v, carry)),
                        ..pre
                    }) && *final(mem) == *old(mem) && *final(io) == *old(io) && cycles == 15
                }))
                &&& (op == 0x67 || op == 0x6F ==> ({
                    let a = hi(old(self).af);
                    let m = old(mem).spec_read(old(self).hl);
                    let new_a = if op == 0x67 {
                        (a & 0xF0) | (m & 0x0F)
                    } else {
                        (a & 0xF0) | (m >> 4)
                    };
                    let new_m = if op == 0x67 {
                        ((a & 0x0F) << 4) | (m >> 4)
                    } else {
                        ((m & 0x0F) << 4) | (a & 0x0F)
                    };
                    let f = (spec_sz53(new_a) | spec_parity_flag(new_a)) | (lo(old(self).af)
                        & FLAG_C);
                    &&& *final(self) == (Z80 { af: word(new_a, f), ..pre })
                    &&& old(mem).same_mapping(*final(mem))
                    &&& (old(self).hl >= 0x4000 ==> final(mem).spec_read(old(self).hl) == new_m)
                    &&& (old(self).hl < 0x4000 ==> final(mem).ram@ == old(mem).ram@)
                    &&& *final(io) == *old(io)
                    &&& cycles == 18
                }))
                &&& (op == 0xA0 || op == 0xA8 || op == 0xB0 || op == 0xB8 ==> ({
                    let up = op == 0xA0 || op == 0xB0;
                    let rep = op == 0xB0 || op == 0xB8;
                    let val = old(mem).spec_read(old(self).hl);
                    let bc2 = wsub16(old(self).bc, 1);
                    let cont = rep && bc2 != 0;
                    &&& *final(self) == (Z80 {
                        hl: if up {
                            wadd16(old(self).hl, 1)
                        } else {
                            wsub16(old(self).hl, 1)
                        },
                        de: if up {
                            wadd16(old(self).de, 1)
                        } else {
                            wsub16(old(self).de, 1)
                        },
                        bc: bc2,
                        af: word(
                            hi(old(self).af),
                            spec_ldx_flags(lo(old(self).af), hi(old(self).af), val, bc2),
                        ),
                        pc: if cont {
                            wsub16(old(self).pc, 1)
                        } else {
                            wadd16(old(self).pc, 1)
                        },
                        r: Self::spec_r_inc(old(self).r),
                        ..*old(self)
                    })
                    &&& old(mem).same_mapping(*final(mem))
                    &&& (old(self).de >= 0x4000 ==> final(mem).ram@ == old(mem).ram@.update(
                        old(mem).ram_index(old(self).de),
                        val,
                    ))
                    &&& (old(self).de < 0x4000 ==> final(mem).ram@ == old(mem).ram@)
                    &&& *final(io) == *old(io)
                    &&& cycles == (if cont {
                        21u8
                    } else {
                        16u8
                    })
                }))
                &&& (op == 0xA1 || op == 0xA9 || op == 0xB1 || op == 0xB9 ==> ({
                    let up = op == 0xA1 || op == 0xB1;
                    let rep = op == 0xB1 || op == 0xB9;
                    let val = old(mem).spec_read(old(self).hl);
                    let bc2 = wsub16(old(self).bc, 1);
                    let f = spec_cpx_flags(lo(old(self).af), hi(old(self).af), val, bc2);
                    let cont = rep && bc2 != 0 && f & FLAG_Z == 0;
                    *final(self) == (Z80 {
                        hl: if up {
                            wadd16(old(self).hl, 1)
                        } else {
                            wsub16(old(self).hl, 1)
                        },
                        bc: bc2,
                        af: word(hi(old(self).af), f),
                        pc: if cont {
                            wsub16(old(self).pc, 1)
                        } else {
                            wadd16(old(self).pc, 1)
                        },
                        r: Self::spec_r_inc(old(self).r),
                        ..*old(self)
                    }) && *final(mem) == *old(mem) && *final(io) == *old(io) && cycles == (if cont {
                        21u8
                    } else {
                        16u8
                    })
                }))
                &&& (op == 0xA2 || op == 0xAA || op == 0xB2 || op == 0xBA ==> ({
                    let up = op == 0xA2 || op == 0xB2;
                    let rep = op == 0xB2 || op == 0xBA;
                    let b2 = wsub8(hi(old(self).bc), 1);
                    let cont = rep && b2 != 0;
                    &&& *final(self) == (Z80 {
                        hl: if up {
                            wadd16(old(self).hl, 1)
                        } else {
                            wsub16(old(self).hl, 1)
                        },
                        bc: word(b2, lo(old(self).bc)),
                        af: word(hi(old(self).af), spec_io_block_flags(b2)),
                        pc: if cont {
                            wsub16(old(self).pc, 1)
                        } else {
                            wadd16(old(self).pc, 1)
                        },
                        r: Self::spec_r_inc(old(self).r),
                        ..*old(self)
                    })
                    &&& final(mem).ram@.len() == old(mem).ram@.len()
                    &&& final(mem).current_rom == old(mem).current_rom
                    &&& final(mem).bank3 == old(mem).bank3
                    &&& final(mem).screen_bank == old(mem).screen_bank
                    &&& final(mem).paging_disabled == old(mem).paging_disabled
                    &&& cycles == (if cont {
                        21u8
                    } else {
                        16u8
                    })
                }))
                &&& (op == 0xA3 || op == 0xAB || op == 0xB3 || op == 0xBB ==> ({
                    let up = op == 0xA3 || op == 0xB3;
                    let rep = op == 0xB3 || op == 0xBB;
                    let b2 = wsub8(hi(old(self).bc), 1);
                    let cont = rep && b2 != 0;
                    &&& *final(self) == (Z80 {
                        hl: if up {
                            wadd16(old(self).hl, 1)
                        } else {
                            wsub16(old(self).hl, 1)
                        },
                        bc: word(b2, lo(old(self).bc)),
                        af: word(hi(old(self).af), spec_io_block_flags(b2)),
                        pc: if cont {
                            wsub16(old(self).pc, 1)
                        } else {
                            wadd16(old(self).pc, 1)
                        },
                        r: Self::spec_r_inc(old(self).r),
                        ..*old(self)
                    })
                    &&& final(mem).ram@ == old(mem).ram@
                    &&& cycles == (if cont {
                        21u8
                    } else {
                        16u8
                    })
                }))
            }),
    {
        proof {
            lemma_word_parts_auto();
        }
        let opcode = self.fetch(mem);
        match opcode {
            0x40 => {
                let port = self.bc;
                let v = self.io_read(io, mem, port);
                self.set_b(v);
                self.set_in_flags(v);
                12
            },
            0x41 => {
                let v = self.b();
                let port = self.bc;
                self.io_write(io, mem, port, v);
                12
            },
            0x42 => {
                let v = self.bc;
                self.sbc_hl(v);
                15
            },
            0x43 => {
                let addr = self.fetch_word(mem);
                let v = self.bc;
                self.write_word(mem, addr, v);
                20
            },
            0x44 | 0x4C | 0x54 | 0x5C | 0x64 | 0x6C | 0x74 | 0x7C => {
                self.neg();
                8
            },
            0x45 | 0x55 | 0x5D | 0x65 | 0x6D | 0x75 | 0x7D => {
                self.retn(mem);
                14
            },
            0x46 | 0x4E | 0x66 | 0x6E => {
                self.im = 0;
                8
            },
            0x47 => {
                self.i = self.a();
                9
            },
            0x48 => {
                let port = self.bc;
                let v = self.io_read(io, mem, port);
                self.set_c(v);
                self.set_in_flags(v);
                12
            },
            0x49 => {
                let v = self.c();
                let port = self.bc;
                self.io_write(io, mem, port, v);
                12
            },
            0x4A => {
                let v = self.bc;
                self.adc_hl(v);
                15
            },
            0x4B => {
                let addr = self.fetch_word(mem);
                self.bc = self.read_word(mem, addr);
                20
            },
            0x4D => {
                self.retn(mem);
                14
            },
            0x4F => {
                self.r = self.a();
                9
            },
            0x50 => {
                let port = self.bc;
                let v = self.io_read(io, mem, port);
                self.set_d(v);
                self.set_in_flags(v);
                12
            },
            0x51 => {
                let v = self.d();
                let port = self.bc;
                self.io_write(io, mem, port, v);
                12
            },
            0x52 => {
                let v = self.de;
                self.sbc_hl(v);
                15
            },
            0x53 => {
                let addr = self.fetch_word(mem);
                let v = self.de;
                self.write_word(mem, addr, v);
                20
            },
            0x56 | 0x76 => {
                self.im = 1;
                8
            },
            0x57 => {
                let v = self.i;
                self.ld_a_ir(v);
                9
            },
            0x58 => {
                let port = self.bc;
                let v = self.io_read(io, mem, port);
                self.set_e(v);
                self.set_in_flags(v);
                12
            },
            0x59 => {
                let v = self.e();
                let port = self.bc;
                self.io_write(io, mem, port, v);
                12
            },
            0x5A => {
                let v = self.de;
                self.adc_hl(v);
                15
            },
            0x5B => {
                let addr = self.fetch_word(mem);
                self.de = self.read_word(mem, addr);
                20
            },
            0x5E | 0x7E => {
                self.im = 2;
                8
            },
            0x5F => {
                let v = self.r;
                self.ld_a_ir(v);
                9
            },
            0x60 => {
                let port = self.bc;
                let v = self.io_read(io, mem, port);
                self.set_h(v);
                self.set_in_flags(v);
                12
            },
            0x61 => {
                let v = self.h();
                let port = self.bc;
                self.io_write(io, mem, port, v);
                12
            },
            0x62 => {
                let v = self.hl;
                self.sbc_hl(v);
                15
            },
            0x63 => {
                let addr = self.fetch_word(mem);
                let v = self.hl;
                self.write_word(mem, addr, v);
                20
            },
            0x67 => {
                self.rrd(mem);
                18
            },
            0x68 => {
                let port = self.bc;
                let v = self.io_read(io, mem, port);
                self.set_l(v);
                self.set_in_flags(v);
                12
            },
            0x69 => {
                let v = self.l();
                let port = self.bc;
                self.io_write(io, mem, port, v);
                12
            },
            0x6A => {
                let v = self.hl;
                self.adc_hl(v);
                15
            },
            0x6B => {
                let addr = self.fetch_word(mem);
                self.hl = self.read_word(mem, addr);
                20
            },
            0x6F => {
                self.rld(mem);
                18
            },
            0x70 => {
                let port = self.bc;
                let v = self.io_read(io, mem, port);
                self.set_in_flags(v);
                12
            },
            0x71 => {
                let port = self.bc;
                self.io_write(io, mem, port, 0);
                12
            },
            0x72 => {
                let v = self.sp;
                self.sbc_hl(v);
                15
            },
            0x73 => {
                let addr = self.fetch_word(mem);
                let v = self.sp;
                self.write_word(mem, addr, v);
                20
            },
            0x78 => {
                let port = self.bc;
                let v = self.io_read(io, mem, port);
                self.set_a(v);
                self.set_in_flags(v);
                12
            },
            0x79 => {
                let v = self.a();
                let port = self.bc;
                self.io_write(io, mem, port, v);
                12
            },
            0x7A => {
                let v = self.sp;
                self.adc_hl(v);
                15
            },
            0x7B => {
                let addr = self.fetch_word(mem);
                self.sp = self.read_word(mem, addr);
                20
            },
            0xA0 => {
                self.ldi(mem);
                16
            },
            0xA1 => {
                self.cpi(mem);
                16
            },
            0xA2 => {
                self.in_block(mem, io, true);
                16
            },
            0xA3 => {
                self.out_block(mem, io, true);
                16
            },
            0xA8 => {
                self.ldd(mem);
                16
            },
            0xA9 => {
                self.cpd(mem);
                16
            },
            0xAA => {
                self.in_block(mem, io, false);
                16
            },
            0xAB => {
                self.out_block(mem, io, false);
                16
            },
            0xB0 => {
                self.ldi(mem);
                if self.bc != 0 {
                    self.pc = self.pc.wrapping_sub(2);
                    21
                } else {
                    16
                }
            },
            0xB1 => {
                self.cpi(mem);
                if self.bc != 0 && !self.flag(FLAG_Z) {
                    self.pc = self.pc.wrapping_sub(2);
                    21
                } else {
                    16
                }
            },
            0xB2 => {
                self.in_block(mem, io, true);
                if self.b() != 0 {
                    self.pc = self.pc.wrapping_sub(2);
                    21
                } else {
                    16
                }
            },
            0xB3 => {
                self.out_block(mem, io, true);
                if self.b() != 0 {
                    self.pc = self.pc.wrapping_sub(2);
                    21
                } else {
                    16
                }
            },
            0xB8 => {
                self.ldd(mem);
                if self.bc != 0 {
                    self.pc = self.pc.wrapping_sub(2);
                    21
                } else {
                    16
                }
            },
            0xB9 => {
                self.cpd(mem);
                if self.bc != 0 && !self.flag(FLAG_Z) {
                    self.pc = self.pc.wrapping_sub(2);
                    21
                } else {
                    16
                }
            },
            0xBA => {
                self.in_block(mem, io, false);
                if self.b() != 0 {
                    self.pc = self.pc.wrapping_sub(2);
                    21
                } else {
                    16
                }
            },
            0xBB => {
                self.out_block(mem, io, false);
                if self.b() != 0 {
                    self.pc = self.pc.wrapping_sub(2);
                    21
                } else {
                    16
                }
            },
            _ => 8,
        }
    }

    /// IN r,(C) flags: S/Z/F5/F3 and parity from the value, carry kept.
    fn set_in_flags(&mut self, value: u8)
        ensures
            *final(self) == (Z80 {
                af: word(
                    hi(old(self).af),
                    (spec_sz53(value) | spec_parity_flag(value)) | (lo(old(self).af) & FLAG_C),
                ),
                ..*old(self)
            }),
    {
        let f = (sz53_flags(value) | parity_flag(value)) | (self.f() & FLAG_C);
        self.set_f(f);
    }

    /// Execute a DD-prefixed (IX) instruction.
    pub fn execute_dd(&mut self, mem: &mut Memory, io: &mut IoController) -> (cycles: u8)
        requires
            old(mem).wf(),
            old(io).wf(),
        ensures
            final(mem).wf(),
            final(io).wf(),
            4 <= cycles <= 23,
            final(self).cycles == old(self).cycles,
            final(mem).rom@ == old(mem).rom@,
            final(mem).trdos_rom_loaded == old(mem).trdos_rom_loaded,
            final(mem).is_128k == old(mem).is_128k,
            final(mem).config == old(mem).config,
            final(io).keyboard == old(io).keyboard,
            final(io).config == old(io).config,
    {
        let opcode = self.fetch(mem);
        if opcode == 0xCB {
            self.execute_indexed_cb_prefix(mem, true)
        } else {
            self.execute_index(opcode, true, mem, io)
        }
    }

    /// Execute an FD-prefixed (IY) instruction.
    pub fn execute_fd(&mut self, mem: &mut Memory, io: &mut IoController) -> (cycles: u8)
        requires
            old(mem).wf(),
            old(io).wf(),
        ensures
            final(mem).wf(),
            final(io).wf(),
            4 <= cycles <= 23,
            final(self).cycles == old(self).cycles,
            final(mem).rom@ == old(mem).rom@,
            final(mem).trdos_rom_loaded == old(mem).trdos_rom_loaded,
            final(mem).is_128k == old(mem).is_128k,
            final(mem).config == old(mem).config,
            final(io).keyboard == old(io).keyboard,
            final(io).config == old(io).config,
    {
        let opcode = self.fetch(mem);
        if opcode == 0xCB {
            self.execute_indexed_cb_prefix(mem, false)
        } else {
            self.execute_index(opcode, false, mem, io)
        }
    }

    /// Shared DD/FD decode: `(HL)` references become `(IX+d)` / `(IY+d)`
    /// and the H/L halves refer to the index register.  Opcodes outside the
    /// table act as a 4-cycle NOP.
    #[verifier::rlimit(100)]
    #[verifier::spinoff_prover]
    fn execute_index(&mut self, opcode: u8, is_ix: bool, mem: &mut Memory, io: &mut IoController) -> (cycles: u8)
        requires
            old(mem).wf(),
            old(io).wf(),
        ensures
            final(mem).wf(),
            final(io).wf(),
            4 <= cycles <= 23,
            final(self).cycles == old(self).cycles,
            final(mem).rom@ == old(mem).rom@,
            final(mem).trdos_rom_loaded == old(mem).trdos_rom_loaded,
            final(mem).is_128k == old(mem).is_128k,
            final(mem).config == old(mem).config,
            final(io).keyboard == old(io).keyboard,
            final(io).config == old(io).config,
            ({
                let idx = if is_ix {
                    old(self).ix
                } else {
                    old(self).iy
                };
                &&& (opcode == 0x09 || opcode == 0x19 || opcode == 0x29 || opcode == 0x39 ==> ({
                    let v = if opcode == 0x09 {
                        old(self).bc
                    } else if opcode == 0x19 {
                        old(self).de
                    } else if opcode == 0x29 {
                        idx
                    } else {
                        old(self).sp
                    };
                    *final(self) == (Z80 {
                        ix: if is_ix {
                            wadd16(idx, v)
                        } else {
                            old(self).ix
                        },
                        iy: if is_ix {
                            old(self).iy
                        } else {
                            wadd16(idx, v)
                        },
                        af: word(
                            hi(old(self).af),
                            spec_add16_flags(lo(old(self).af), idx, v),
                        ),
                        ..*old(self)
                    }) && *final(mem) == *old(mem) && *final(io) == *old(io) && cycles == 15
                }))
                &&& (opcode == 0x23 || opcode == 0x2B ==> ({
                    let nv = if opcode == 0x23 {
                        wadd16(idx, 1)
                    } else {
                        wsub16(idx, 1)
                    };
                    *final(self) == (Z80 {
                        ix: if is_ix {
                            nv
                        } else {
                            old(self).ix
                        },
                        iy: if is_ix {
                            old(self).iy
                        } else {
                            nv
                        },
                        ..*old(self)
                    }) && *final(mem) == *old(mem) && *final(io) == *old(io) && cycles == 10
                }))
                &&& ((opcode == 0x24 || opcode == 0x25 || opcode == 0x2C || opcode == 0x2D) ==> ({
                    let high = opcode == 0x24 || opcode == 0x25;
                    let v = if high {
                        hi(idx)
                    } else {
                        lo(idx)
                    };
                    let rr = if opcode == 0x24 || opcode == 0x2C {
                        wadd8(v, 1)
                    } else {
                        wsub8(v, 1)
                    };
                    let f = if opcode == 0x24 || opcode == 0x2C {
                        spec_inc_flags(v, rr)
                    } else {
                        spec_dec_flags(v, rr)
                    };
                    let nv = if high {
                        (idx & 0xFF) | ((rr as u16) << 8)
                    } else {
                        (idx & 0xFF00) | (rr as u16)
                    };
                    *final(self) == (Z80 {
                        ix: if is_ix {
                            nv
                        } else {
                            old(self).ix
                        },
                        iy: if is_ix {
                            old(self).iy
                        } else {
                            nv
                        },
                        af: word(hi(old(self).af), f | (lo(old(self).af) & FLAG_C)),
                        ..*old(self)
                    }) && *final(mem) == *old(mem) && *final(io) == *old(io) && cycles == 8
                }))
                &&& (opcode == 0x21 && no_trap2(old(self).pc, *old(mem)) ==> ({
                    let nv = word(
                        old(mem).spec_read(wadd16(old(self).pc, 1)),
                        old(mem).spec_read(old(self).pc),
                    );
                    *final(self) == (Z80 {
                        ix: if is_ix {
                            nv
                        } else {
                            old(self).ix
                        },
                        iy: if is_ix {
                            old(self).iy
                        } else {
                            nv
                        },
                        pc: wadd16(old(self).pc, 2),
                        r: Z80::spec_r_inc(Z80::spec_r_inc(old(self).r)),
                        ..*old(self)
                    }) && *final(mem) == *old(mem) && *final(io) == *old(io) && cycles == 14
                }))
                &&& (opcode == 0x2A && no_trap2(old(self).pc, *old(mem)) ==> ({
                    let addr = word(
                        old(mem).spec_read(wadd16(old(self).pc, 1)),
                        old(mem).spec_read(old(self).pc),
                    );
                    let nv = spec_read_word(*old(mem), addr);
                    *final(self) == (Z80 {
                        ix: if is_ix {
                            nv
                        } else {
                            old(self).ix
                        },
                        iy: if is_ix {
                            old(self).iy
                        } else {
                            nv
                        },
                        pc: wadd16(old(self).pc, 2),
                        r: Z80::spec_r_inc(Z80::spec_r_inc(old(self).r)),
                        ..*old(self)
                    }) && *final(mem) == *old(mem) && *final(io) == *old(io) && cycles == 20
                }))
                &&& (opcode == 0x22 && no_trap2(old(self).pc, *old(mem)) ==> ({
                    let addr = word(
                        old(mem).spec_read(wadd16(old(self).pc, 1)),
                        old(mem).spec_read(old(self).pc),
                    );
                    &&& *final(self) == (Z80 {
                        pc: wadd16(old(self).pc, 2),
                        r: Z80::spec_r_inc(Z80::spec_r_inc(old(self).r)),
                        ..*old(self)
                    })
                    &&& *final(io) == *old(io)
                    &&& cycles == 20
                    &&& old(mem).same_mapping(*final(mem))
                    &&& (addr >= 0x4000 && addr != 0xFFFF ==> final(mem).spec_read(addr) == lo(idx)
                        && final(mem).spec_read((addr + 1) as u16) == hi(idx))
                }))
                &&& (opcode == 0x46 || opcode == 0x4E || opcode == 0x56 || opcode == 0x5E || opcode
                    == 0x66 || opcode == 0x6E || opcode == 0x7E ==> (!Z80::trap_fires(
                    old(self).pc,
                    *old(mem),
                ) ==> ({
                    let addr = wadd16(idx, sign_ext(old(mem).spec_read(old(self).pc)));
                    *final(self) == set_reg8(
                        (Z80 {
                            pc: wadd16(old(self).pc, 1),
                            r: Z80::spec_r_inc(old(self).r),
                            ..*old(self)
                        }),
                        (opcode >> 3) & 0x07,
                        old(mem).spec_read(addr),
                    ) && *final(mem) == *old(mem) && *final(io) == *old(io) && cycles == 19
                })))
                &&& (opcode == 0x70 || opcode == 0x71 || opcode == 0x72 || opcode == 0x73 || opcode
                    == 0x74 || opcode == 0x75 || opcode == 0x77 ==> (!Z80::trap_fires(
                    old(self).pc,
                    *old(mem),
                ) ==> ({
                    let addr = wadd16(idx, sign_ext(old(mem).spec_read(old(self).pc)));
                    let v = reg8(*old(self), opcode & 0x07);
                    &&& *final(self) == (Z80 {
                        pc: wadd16(old(self).pc, 1),
                        r: Z80::spec_r_inc(old(self).r),
                        ..*old(self)
                    })
                    &&& *final(io) == *old(io)
                    &&& cycles == 19
                    &&& old(mem).same_mapping(*final(mem))
                    &&& (addr >= 0x4000 ==> final(mem).spec_read(addr) == v)
                    &&& (addr < 0x4000 ==> final(mem).ram@ == old(mem).ram@)
                })))
                &&& (opcode == 0x86 || opcode == 0x8E || opcode == 0x96 || opcode == 0x9E || opcode
                    == 0xA6 || opcode == 0xAE || opcode == 0xB6 || opcode == 0xBE ==> (
                !Z80::trap_fires(old(self).pc, *old(mem)) ==> ({
                    let addr = wadd16(idx, sign_ext(old(mem).spec_read(old(self).pc)));
                    *final(self) == spec_alu_acc(
                        (Z80 {
                            pc: wadd16(old(self).pc, 1),
                            r: Z80::spec_r_inc(old(self).r),
                            ..*old(self)
                        }),
                        (opcode >> 3) & 0x07,
                        old(mem).spec_read(addr),
                    ) && *final(mem) == *old(mem) && *final(io) == *old(io) && cycles == 19
                })))
                &&& (opcode == 0x34 || opcode == 0x35 ==> (!Z80::trap_fires(
                    old(self).pc,
                    *old(mem),
                ) ==> ({
                    let addr = wadd16(idx, sign_ext(old(mem).spec_read(old(self).pc)));
                    let v = old(mem).spec_read(addr);
                    let rr = if opcode == 0x34 {
                        wadd8(v, 1)
                    } else {
                        wsub8(v, 1)
                    };
                    let f = if opcode == 0x34 {
                        spec_inc_flags(v, rr)
                    } else {
                        spec_dec_flags(v, rr)
                    };
                    &&& *final(self) == (Z80 {
                        af: word(hi(old(self).af), f | (lo(old(self).af) & FLAG_C)),
                        pc: wadd16(old(self).pc, 1),
                        r: Z80::spec_r_inc(old(self).r),
                        ..*old(self)
                    })
                    &&& *final(io) == *old(io)
                    &&& cycles == 23
                    &&& old(mem).same_mapping(*final(mem))
                    &&& (addr >= 0x4000 ==> final(mem).spec_read(addr) == rr)
                    &&& (addr < 0x4000 ==> final(mem).ram@ == old(mem).ram@)
                })))
                &&& (opcode == 0x36 && no_trap2(old(self).pc, *old(mem)) ==> ({
                    let addr = wadd16(idx, sign_ext(old(mem).spec_read(old(self).pc)));
                    let n = old(mem).spec_read(wadd16(old(self).pc, 1));
                    &&& *final(self) == (Z80 {
                        pc: wadd16(old(self).pc, 2),
                        r: Z80::spec_r_inc(Z80::spec_r_inc(old(self).r)),
                        ..*old(self)
                    })
                    &&& *final(io) == *old(io)
                    &&& cycles == 19
                    &&& old(mem).same_mapping(*final(mem))
                    &&& (addr >= 0x4000 ==> final(mem).spec_read(addr) == n)
                    &&& (addr < 0x4000 ==> final(mem).ram@ == old(mem).ram@)
                }))
                &&& (opcode == 0xE3 ==> ({
                    &&& *final(self) == (Z80 {
                        ix: if is_ix {
                            spec_read_word(*old(mem), old(self).sp)
                        } else {
                            old(self).ix
                        },
                        iy: if is_ix {
                            old(self).iy
                        } else {
                            spec_read_word(*old(mem), old(self).sp)
                        },
                        ..*old(self)
                    })
                    &&& *final(io) == *old(io)
                    &&& cycles == 23
                    &&& old(mem).same_mapping(*final(mem))
                    &&& (old(self).sp >= 0x4000 && old(self).sp != 0xFFFF ==> final(mem).spec_read(
                        old(self).sp,
                    ) == lo(idx) && final(mem).spec_read((old(self).sp + 1) as u16) == hi(idx))
                }))
                &&& (opcode == 0xE9 ==> *final(self) == (Z80 { pc: idx, ..*old(self) }) && *final(mem) == *old(mem) && *final(io) == *old(io) && cycles == 8)
                &&& (opcode == 0xF9 ==> *final(self) == (Z80 { sp: idx, ..*old(self) }) && *final(mem) == *old(mem) && *final(io) == *old(io) && cycles == 10)
                &&& (opcode == 0xE5 ==> *final(self) == (Z80 {
                    sp: wsub16(old(self).sp, 2),
                    ..*old(self)
                }) && old(mem).same_mapping(*final(mem)) && *final(io) == *old(io) && cycles == 15)
                &&& (opcode == 0xE1 ==> *final(self) == (Z80 {
                    ix: if is_ix {
                        spec_read_word(*old(mem), old(self).sp)
                    } else {
                        old(self).ix
                    },
                    iy: if is_ix {
                        old(self).iy
                    } else {
                        spec_read_word(*old(mem), old(self).sp)
                    },
                    sp: wadd16(old(self).sp, 2),
                    ..*old(self)
                }) && *final(mem) == *old(mem) && *final(io) == *old(io) && cycles == 14)
            }),
    {
        proof {
            lemma_decode(opcode);
        }
        let idx = if is_ix {
            self.ix
        } else {
            self.iy
        };
        match opcode {
            0x09 => {
                let v = self.bc;
                let result = self.add_idx(idx, v);
                if is_ix {
                    self.ix = result;
                } else {
                    self.iy = result;
                }
                15
            },
            0x19 => {
                let v = self.de;
                let result = self.add_idx(idx, v);
                if is_ix {
                    self.ix = result;
                } else {
                    self.iy = result;
                }
                15
            },
            0x21 => {
                let val = self.fetch_word(mem);
                if is_ix {
                    self.ix = val;
                } else {
                    self.iy = val;
                }
                14
            },
            0x22 => {
                let addr = self.fetch_word(mem);
                self.write_word(mem, addr, idx);
                20
            },
            0x23 => {
                if is_ix {
                    self.ix = self.ix.wrapping_add(1);
                } else {
                    self.iy = self.iy.wrapping_add(1);
                }
                10
            },
            0x24 => {
                let v = (idx >> 8) as u8;
                let r = self.inc8(v);
                if is_ix {
                    self.ix = (self.ix & 0xFF) | ((r as u16) << 8);
                } else {
                    self.iy = (self.iy & 0xFF) | ((r as u16) << 8);
                }
                8
            },
            0x25 => {
                let v = (idx >> 8) as u8;
                let r = self.dec8(v);
                if is_ix {
                    self.ix = (self.ix & 0xFF) | ((r as u16) << 8);
                } else {
                    self.iy = (self.iy & 0xFF) | ((r as u16) << 8);
                }
                8
            },
            0x26 => {
                let n = self.fetch(mem);
                if is_ix {
                    self.ix = (self.ix & 0xFF) | ((n as u16) << 8);
                } else {
                    self.iy = (self.iy & 0xFF) | ((n as u16) << 8);
                }
                11
            },
            0x29 => {
                let result = self.add_idx(idx, idx);
                if is_ix {
                    self.ix = result;
                } else {
                    self.iy = result;
                }
                15
            },
            0x2A => {
                let addr = self.fetch_word(mem);
                let val = self.read_word(mem, addr);
                if is_ix {
                    self.ix = val;
                } else {
                    self.iy = val;
                }
                20
            },
            0x2B => {
                if is_ix {
                    self.ix = self.ix.wrapping_sub(1);
                } else {
                    self.iy = self.iy.wrapping_sub(1);
                }
                10
            },
            0x2C => {
                let v = (idx & 0xFF) as u8;
                let r = self.inc8(v);
                if is_ix {
                    self.ix = (self.ix & 0xFF00) | (r as u16);
                } else {
                    self.iy = (self.iy & 0xFF00) | (r as u16);
                }
                8
            },
            0x2D => {
                let v = (idx & 0xFF) as u8;
                let r = self.dec8(v);
                if is_ix {
                    self.ix = (self.ix & 0xFF00) | (r as u16);
                } else {
                    self.iy = (self.iy & 0xFF00) | (r as u16);
                }
                8
            },
            0x2E => {
                let n = self.fetch(mem);
                if is_ix {
                    self.ix = (self.ix & 0xFF00) | (n as u16);
                } else {
                    self.iy = (self.iy & 0xFF00) | (n as u16);
                }
                11
            },
            0x34 => {
                let d = self.fetch(mem);
                let addr = idx.wrapping_add(Self::extend(d));
                let v = self.read_byte(mem, addr);
                let r = self.inc8(v);
                self.write_byte(mem, addr, r);
                23
            },
            0x35 => {
                let d = self.fetch(mem);
                let addr = idx.wrapping_add(Self::extend(d));
                let v = self.read_byte(mem, addr);
                let r = self.dec8(v);
                self.write_byte(mem, addr, r);
                23
            },
            0x36 => {
                let d = self.fetch(mem);
                let n = self.fetch(mem);
                let addr = idx.wrapping_add(Self::extend(d));
                self.write_byte(mem, addr, n);
                19
            },
            0x39 => {
                let v = self.sp;
                let result = self.add_idx(idx, v);
                if is_ix {
                    self.ix = result;
                } else {
                    self.iy = result;
                }
                15
            },
            0x46 | 0x4E | 0x56 | 0x5E | 0x66 | 0x6E | 0x7E => {
                let d = self.fetch(mem);
                let addr = idx.wrapping_add(Self::extend(d));
                let v = self.read_byte(mem, addr);
                if opcode == 0x46 {
                    self.set_b(v);
                } else if opcode == 0x4E {
                    self.set_c(v);
                } else if opcode == 0x56 {
                    self.set_d(v);
                } else if opcode == 0x5E {
                    self.set_e(v);
                } else if opcode == 0x66 {
                    self.set_h(v);
                } else if opcode == 0x6E {
                    self.set_l(v);
                } else {
                    self.set_a(v);
                }
                19
            },
            0x70 | 0x71 | 0x72 | 0x73 | 0x74 | 0x75 | 0x77 => {
                let d = self.fetch(mem);
                let addr = idx.wrapping_add(Self::extend(d));
                let v = if opcode == 0x70 {
                    self.b()
                } else if opcode == 0x71 {
                    self.c()
                } else if opcode == 0x72 {
                    self.d()
                } else if opcode == 0x73 {
                    self.e()
                } else if opcode == 0x74 {
                    self.h()
                } else if opcode == 0x75 {
                    self.l()
                } else {
                    self.a()
                };
                self.write_byte(mem, addr, v);
                19
            },
            0x86 | 0x8E | 0x96 | 0x9E | 0xA6 | 0xAE | 0xB6 | 0xBE => {
                let d = self.fetch(mem);
                let addr = idx.wrapping_add(Self::extend(d));
                let v = self.read_byte(mem, addr);
                if opcode == 0x86 {
                    self.add_a(v, false);
                } else if opcode == 0x8E {
                    let c = self.flag(FLAG_C);
                    self.add_a(v, c);
                } else if opcode == 0x96 {
                    self.sub_a(v, false);
                } else if opcode == 0x9E {
                    let c = self.flag(FLAG_C);
                    self.sub_a(v, c);
                } else if opcode == 0xA6 {
                    self.and_a(v);
                } else if opcode == 0xAE {
                    self.xor_a(v);
                } else if opcode == 0xB6 {
                    self.or_a(v);
                } else {
                    self.cp_a(v);
                }
                19
            },
            0xE1 => {
                let val = self.pop(mem);
                if is_ix {
                    self.ix = val;
                } else {
                    self.iy = val;
                }
                14
            },
            0xE3 => {
                let v = self.read_word(mem, self.sp);
                self.write_word(mem, self.sp, idx);
                if is_ix {
                    self.ix = v;
                } else {
                    self.iy = v;
                }
                23
            },
            0xE5 => {
                self.push(mem, idx);
                15
            },
            0xE9 => {
                self.pc = idx;
                8
            },
            0xF9 => {
                self.sp = idx;
                10
            },
            _ => 4,
        }
    }

    /// A displacement byte sign-extended to 16 bits, for `(IX+d)`.
    fn extend(d: u8) -> (r: u16)
        ensures
            r == sign_ext(d),
    {
        if d < 0x80 {
            d as u16
        } else {
            d as u16 + 0xFF00
        }
    }

    /// DDCB/FDCB: fetch the displacement and the sub-opcode, then operate on
    /// `(IX+d)` / `(IY+d)`, copying the result to a named register for
    /// non-BIT opcodes whose register slot is not 6.
    fn execute_indexed_cb_prefix(&mut self, mem: &mut Memory, is_ix: bool) -> (cycles: u8)
        requires
            old(mem).wf(),
        ensures
            final(mem).wf(),
            4 <= cycles <= 23,
            final(self).cycles == old(self).cycles,
            final(mem).rom@ == old(mem).rom@,
            final(mem).trdos_rom_loaded == old(mem).trdos_rom_loaded,
            final(mem).is_128k == old(mem).is_128k,
            final(mem).config == old(mem).config,
    {
        let d = self.fetch(mem);
        let opcode = self.fetch(mem);
        let base = if is_ix {
            self.ix
        } else {
            self.iy
        };
        let addr = base.wrapping_add(Self::extend(d));
        self.execute_indexed_cb(opcode, addr, mem)
    }

    /// The CB operation of a DDCB/FDCB instruction, on the byte at `addr`.
    fn execute_indexed_cb(&mut self, opcode: u8, addr: u16, mem: &mut Memory) -> (cycles: u8)
        requires
            old(mem).wf(),
        ensures
            final(mem).wf(),
            4 <= cycles <= 23,
            final(self).cycles == old(self).cycles,
            final(mem).rom@ == old(mem).rom@,
            final(mem).trdos_rom_loaded == old(mem).trdos_rom_loaded,
            final(mem).is_128k == old(mem).is_128k,
            final(mem).config == old(mem).config,
            ({
                let sel = (opcode >> 3) & 0x07;
                let reg = opcode & 0x07;
                let value = old(mem).spec_read(addr);
                &&& (opcode >> 6 == 1 ==> *final(self) == (Z80 {
                    af: word(hi(old(self).af), spec_bit_flags(lo(old(self).af), sel, value)),
                    ..*old(self)
                }) && *final(mem) == *old(mem) && cycles == 20)
                &&& (opcode >> 6 != 1 ==> ({
                    let result = spec_cb_result(lo(old(self).af), opcode, value);
                    let mid = if opcode >> 6 == 0 {
                        (Z80 {
                            af: word(
                                hi(old(self).af),
                                spec_rot_flags(result, spec_cb_carry(opcode, value)),
                            ),
                            ..*old(self)
                        })
                    } else {
                        *old(self)
                    };
                    &&& cycles == 23
                    &&& (reg != 6 ==> *final(self) == set_reg8(mid, reg, result))
                    &&& (reg == 6 ==> *final(self) == mid)
                    &&& old(mem).same_mapping(*final(mem))
                    &&& (addr >= 0x4000 ==> final(mem).spec_read(addr) == result)
                    &&& (addr < 0x4000 ==> final(mem).ram@ == old(mem).ram@)
                }))
            }),
    {
        let value = self.read_byte(mem, addr);
        let sel = (opcode >> 3) & 0x07;
        proof {
            assert((opcode >> 3) & 0x07 < 8 && opcode & 0x07 < 8 && opcode >> 6 < 4)
                by (bit_vector);
        }
        let group = opcode >> 6;
        if group == 1 {
            self.bit_op(sel, value);
            return 20;
        }
        let result = if group == 0 {
            if sel == 0 {
                self.rlc(value)
            } else if sel == 1 {
                self.rrc(value)
            } else if sel == 2 {
                self.rl(value)
            } else if sel == 3 {
                self.rr(value)
            } else if sel == 4 {
                self.sla(value)
            } else if sel == 5 {
                self.sra(value)
            } else if sel == 6 {
                self.sll(value)
            } else {
                self.srl(value)
            }
        } else if group == 2 {
            value & !(1u8 << sel)
        } else {
            value | (1u8 << sel)
        };
        self.write_byte(mem, addr, result);
        let reg = opcode & 0x07;
        if reg != 6 {
            if reg == 0 {
                self.set_b(result);
            } else if reg == 1 {
                self.set_c(result);
            } else if reg == 2 {
                self.set_d(result);
            } else if reg == 3 {
                self.set_e(result);
            } else if reg == 4 {
                self.set_h(result);
            } else if reg == 5 {
                self.set_l(result);
            } else {
                self.set_a(result);
            }
        }
        23
    }
}

} // verus!
