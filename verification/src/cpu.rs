//! Z80 CPU: register file, fetch and stack machinery, interrupt entry, and
//! the step/run drivers.  The instruction decoder lives in `cpu_ops` (single
//! byte opcodes) and `cpu_ext` (CB/ED/DD/FD prefixes).
//!
//! The CPU owns no memory or I/O: every operation that touches them borrows
//! the memory map and the I/O router for the duration of the call.

use vstd::prelude::*;

use crate::cpu_ext::spec_ldx_flags;
use crate::io::IoController;
use crate::memory::Memory;

verus! {

/// High byte of a 16-bit register pair.
pub open spec fn hi(v: u16) -> u8 {
    (v >> 8) as u8
}

/// Low byte of a 16-bit register pair.
pub open spec fn lo(v: u16) -> u8 {
    (v & 0xFF) as u8
}

/// A register pair built from its high and low bytes.
pub open spec fn word(h: u8, l: u8) -> u16 {
    ((h as u16) << 8) | (l as u16)
}

/// 16-bit wrapping addition.
pub open spec fn wadd16(x: u16, y: u16) -> u16 {
    if x + y > 0xFFFF {
        (x + y - 0x10000) as u16
    } else {
        (x + y) as u16
    }
}

/// 16-bit wrapping subtraction.
pub open spec fn wsub16(x: u16, y: u16) -> u16 {
    if x - y < 0 {
        (x - y + 0x10000) as u16
    } else {
        (x - y) as u16
    }
}

/// 8-bit wrapping addition.
pub open spec fn wadd8(x: u8, y: u8) -> u8 {
    if x + y > 0xFF {
        (x + y - 0x100) as u8
    } else {
        (x + y) as u8
    }
}

/// 8-bit wrapping subtraction.
pub open spec fn wsub8(x: u8, y: u8) -> u8 {
    if x - y < 0 {
        (x - y + 0x100) as u8
    } else {
        (x - y) as u8
    }
}

/// 64-bit wrapping addition, for the cycle counter.
pub open spec fn wadd64(x: u64, y: u64) -> u64 {
    if x + y > u64::MAX {
        (x + y - 0x1_0000_0000_0000_0000) as u64
    } else {
        (x + y) as u64
    }
}

/// A displacement byte sign-extended to 16 bits.
pub open spec fn sign_ext(b: u8) -> u16 {
    if b < 0x80 {
        b as u16
    } else {
        (b + 0xFF00) as u16
    }
}

/// A word read of two consecutive bytes, little-endian, the second address
/// wrapping modulo 0x10000.
pub open spec fn spec_read_word(m: Memory, addr: u16) -> u16 {
    (m.spec_read(addr) + m.spec_read(wadd16(addr, 1)) * 256) as u16
}

/// Extracting the high or low byte of a freshly built register pair gives
/// back the byte it was built from.
pub proof fn lemma_word_parts_auto()
    by (bit_vector)
    ensures
        forall|h: u8, l: u8| (#[trigger] ((((h as u16) << 8) | (l as u16)) >> 8)) == h as u16,
        forall|h: u8, l: u8| (#[trigger] ((((h as u16) << 8) | (l as u16)) & 0xFF)) == l as u16,
{
}

pub proof fn lemma_word_parts(h: u8, l: u8, v: u16)
    by (bit_vector)
    ensures
        (((h as u16) << 8) | (l as u16)) >> 8 == h as u16,
        (((h as u16) << 8) | (l as u16)) & 0xFF == l as u16,
        ((((v >> 8) as u8) as u16) << 8) | (((v & 0xFF) as u8) as u16) == v,
        ((h as u16) << 8) | (l as u16) == h as u16 * 256 + l as u16,
{
}

/// Z80 register file and execution state.
pub struct Z80 {
    /// Accumulator and flags.
    pub af: u16,
    pub bc: u16,
    pub de: u16,
    pub hl: u16,
    /// Shadow registers, exchanged by EX AF,AF' and EXX.
    pub af_prime: u16,
    pub bc_prime: u16,
    pub de_prime: u16,
    pub hl_prime: u16,
    /// Index registers.
    pub ix: u16,
    pub iy: u16,
    /// Stack pointer and program counter.
    pub sp: u16,
    pub pc: u16,
    /// Interrupt vector register.
    pub i: u8,
    /// Refresh register; only the low seven bits count.
    pub r: u8,
    /// Interrupt enable flip-flops.
    pub iff1: bool,
    pub iff2: bool,
    /// Interrupt mode (0, 1 or 2).
    pub im: u8,
    /// Halted by the HALT instruction.
    pub halted: bool,
    /// Cycle counter.
    pub cycles: u64,
}

/// The state after EX AF,AF': the AF pair and its shadow exchanged.
pub open spec fn spec_ex_af(s: Z80) -> Z80 {
    Z80 { af: s.af_prime, af_prime: s.af, ..s }
}

/// The state after EXX: BC, DE and HL exchanged with their shadows.
pub open spec fn spec_exx(s: Z80) -> Z80 {
    Z80 {
        bc: s.bc_prime,
        bc_prime: s.bc,
        de: s.de_prime,
        de_prime: s.de,
        hl: s.hl_prime,
        hl_prime: s.hl,
        ..s
    }
}

/// Law: EX AF,AF' performed twice returns AF and AF' to their original
/// values (the whole state is restored).
pub proof fn lemma_ex_af_twice(s: Z80)
    ensures
        spec_ex_af(spec_ex_af(s)) == s,
{
}

/// Law: EXX performed twice returns BC, DE and HL to their original values
/// (the whole state is restored).
pub proof fn lemma_exx_twice(s: Z80)
    ensures
        spec_exx(spec_exx(s)) == s,
{
}

impl Z80 {
    /// New CPU in the reset state: AF and SP at 0xFFFF, PC 0, interrupts
    /// disabled, mode 0, everything else zero.
    pub fn new() -> (z: Z80)
        ensures
            z.af == 0xFFFF,
            z.bc == 0 && z.de == 0 && z.hl == 0,
            z.af_prime == 0 && z.bc_prime == 0 && z.de_prime == 0 && z.hl_prime == 0,
            z.ix == 0 && z.iy == 0,
            z.sp == 0xFFFF && z.pc == 0,
            z.i == 0 && z.r == 0,
            !z.iff1 && !z.iff2 && z.im == 0,
            !z.halted,
            z.cycles == 0,
    {
        Z80 {
            af: 0xFFFF,
            bc: 0,
            de: 0,
            hl: 0,
            af_prime: 0,
            bc_prime: 0,
            de_prime: 0,
            hl_prime: 0,
            ix: 0,
            iy: 0,
            sp: 0xFFFF,
            pc: 0,
            i: 0,
            r: 0,
            iff1: false,
            iff2: false,
            im: 0,
            halted: false,
            cycles: 0,
        }
    }

    /// Reset the registers as at construction; the cycle counter is kept.
    pub fn reset(&mut self)
        ensures
            *final(self) == (Z80 {
                af: 0xFFFF,
                bc: 0,
                de: 0,
                hl: 0,
                af_prime: 0,
                bc_prime: 0,
                de_prime: 0,
                hl_prime: 0,
                ix: 0,
                iy: 0,
                sp: 0xFFFF,
                pc: 0,
                i: 0,
                r: 0,
                iff1: false,
                iff2: false,
                im: 0,
                halted: false,
                cycles: old(self).cycles,
            }),
    {
        self.af = 0xFFFF;
        self.bc = 0;
        self.de = 0;
        self.hl = 0;
        self.af_prime = 0;
        self.bc_prime = 0;
        self.de_prime = 0;
        self.hl_prime = 0;
        self.ix = 0;
        self.iy = 0;
        self.sp = 0xFFFF;
        self.pc = 0;
        self.i = 0;
        self.r = 0;
        self.iff1 = false;
        self.iff2 = false;
        self.im = 0;
        self.halted = false;
    }

    /// Accumulator.
    #[inline]
    pub fn a(&self) -> (r: u8)
        ensures
            r == hi(self.af),
    {
        (self.af >> 8) as u8
    }

    /// Flags byte.
    #[inline]
    pub fn f(&self) -> (r: u8)
        ensures
            r == lo(self.af),
    {
        (self.af & 0xFF) as u8
    }

    #[inline]
    pub fn b(&self) -> (r: u8)
        ensures
            r == hi(self.bc),
    {
        (self.bc >> 8) as u8
    }

    #[inline]
    pub fn c(&self) -> (r: u8)
        ensures
            r == lo(self.bc),
    {
        (self.bc & 0xFF) as u8
    }

    #[inline]
    pub fn d(&self) -> (r: u8)
        ensures
            r == hi(self.de),
    {
        (self.de >> 8) as u8
    }

    #[inline]
    pub fn e(&self) -> (r: u8)
        ensures
            r == lo(self.de),
    {
        (self.de & 0xFF) as u8
    }

    #[inline]
    pub fn h(&self) -> (r: u8)
        ensures
            r == hi(self.hl),
    {
        (self.hl >> 8) as u8
    }

    #[inline]
    pub fn l(&self) -> (r: u8)
        ensures
            r == lo(self.hl),
    {
        (self.hl & 0xFF) as u8
    }

    /// Set the accumulator, keeping the flags.
    #[inline]
    pub fn set_a(&mut self, v: u8)
        ensures
            *final(self) == (Z80 { af: word(v, lo(old(self).af)), ..*old(self) }),
    {
        proof {
            lemma_set_hi(self.af, v);
        }
        self.af = (self.af & 0x00FF) | ((v as u16) << 8);
    }

    /// Set the flags byte, keeping the accumulator.
    #[inline]
    pub fn set_f(&mut self, v: u8)
        ensures
            *final(self) == (Z80 { af: word(hi(old(self).af), v), ..*old(self) }),
    {
        proof {
            lemma_set_lo(self.af, v);
        }
        self.af = (self.af & 0xFF00) | (v as u16);
    }

    #[inline]
    pub fn set_b(&mut self, v: u8)
        ensures
            *final(self) == (Z80 { bc: word(v, lo(old(self).bc)), ..*old(self) }),
    {
        proof {
            lemma_set_hi(self.bc, v);
        }
        self.bc = (self.bc & 0x00FF) | ((v as u16) << 8);
    }

    #[inline]
    pub fn set_c(&mut self, v: u8)
        ensures
            *final(self) == (Z80 { bc: word(hi(old(self).bc), v), ..*old(self) }),
    {
        proof {
            lemma_set_lo(self.bc, v);
        }
        self.bc = (self.bc & 0xFF00) | (v as u16);
    }

    #[inline]
    pub fn set_d(&mut self, v: u8)
        ensures
            *final(self) == (Z80 { de: word(v, lo(old(self).de)), ..*old(self) }),
    {
        proof {
            lemma_set_hi(self.de, v);
        }
        self.de = (self.de & 0x00FF) | ((v as u16) << 8);
    }

    #[inline]
    pub fn set_e(&mut self, v: u8)
        ensures
            *final(self) == (Z80 { de: word(hi(old(self).de), v), ..*old(self) }),
    {
        proof {
            lemma_set_lo(self.de, v);
        }
        self.de = (self.de & 0xFF00) | (v as u16);
    }

    #[inline]
    pub fn set_h(&mut self, v: u8)
        ensures
            *final(self) == (Z80 { hl: word(v, lo(old(self).hl)), ..*old(self) }),
    {
        proof {
            lemma_set_hi(self.hl, v);
        }
        self.hl = (self.hl & 0x00FF) | ((v as u16) << 8);
    }

    #[inline]
    pub fn set_l(&mut self, v: u8)
        ensures
            *final(self) == (Z80 { hl: word(hi(old(self).hl), v), ..*old(self) }),
    {
        proof {
            lemma_set_lo(self.hl, v);
        }
        self.hl = (self.hl & 0xFF00) | (v as u16);
    }

    /// Set the accumulator and the flags byte in one step.
    #[inline]
    pub fn set_af_parts(&mut self, a: u8, f: u8)
        ensures
            *final(self) == (Z80 { af: word(a, f), ..*old(self) }),
    {
        self.af = ((a as u16) << 8) | (f as u16);
    }

    /// Test one flag bit (the mask holds a single bit).
    #[inline]
    pub fn flag(&self, mask: u8) -> (r: bool)
        ensures
            r == (lo(self.af) & mask != 0),
    {
        (self.af & 0xFF) as u8 & mask != 0
    }

    /// Set or clear the flag bits of `mask`.
    #[inline]
    pub fn set_flag(&mut self, mask: u8, v: bool)
        ensures
            *final(self) == (Z80 {
                af: word(
                    hi(old(self).af),
                    if v {
                        lo(old(self).af) | mask
                    } else {
                        lo(old(self).af) & !mask
                    },
                ),
                ..*old(self)
            }),
    {
        let flags = if v {
            self.f() | mask
        } else {
            self.f() & !mask
        };
        self.set_f(flags);
    }

    /// The refresh register after one fetch: the low seven bits increment,
    /// the top bit is preserved.
    pub open spec fn spec_r_inc(r: u8) -> u8 {
        (r & 0x80) | (wadd8(r, 1) & 0x7F)
    }

    /// Whether a fetch at `pc` springs the overlay trap: the program counter
    /// is inside [0x3C00, 0x4000) and the overlay ROM is loaded but not yet
    /// active.
    pub open spec fn trap_fires(pc: u16, m: Memory) -> bool {
        0x3C00 <= pc < 0x4000 && m.trdos_rom_loaded && !m.trdos_rom_active
    }

    /// Fetch one instruction byte: runs the overlay trap, reads through the
    /// memory map, then increments PC and the refresh counter.
    pub fn fetch(&mut self, mem: &mut Memory) -> (b: u8)
        requires
            old(mem).wf(),
        ensures
            final(mem).wf(),
            final(mem).ram@ == old(mem).ram@,
            final(mem).rom@ == old(mem).rom@,
            final(mem).current_rom == old(mem).current_rom,
            final(mem).trdos_rom_loaded == old(mem).trdos_rom_loaded,
            final(mem).bank3 == old(mem).bank3,
            final(mem).screen_bank == old(mem).screen_bank,
            final(mem).paging_disabled == old(mem).paging_disabled,
            final(mem).is_128k == old(mem).is_128k,
            final(mem).config == old(mem).config,
            final(mem).trdos_rom_active == (old(mem).trdos_rom_active || Self::trap_fires(
                old(self).pc,
                *old(mem),
            )),
            !Self::trap_fires(old(self).pc, *old(mem)) ==> *final(mem) == *old(mem),
            b == final(mem).spec_read(old(self).pc),
            *final(self) == (Z80 {
                pc: wadd16(old(self).pc, 1),
                r: Self::spec_r_inc(old(self).r),
                ..*old(self)
            }),
    {
        if self.pc >= 0x3C00 && self.pc < 0x4000 {
            if mem.is_trdos_rom_loaded() && !mem.is_trdos_rom_active() {
                mem.enable_trdos_rom();
            }
        }
        let byte = mem.read(self.pc);
        self.pc = self.pc.wrapping_add(1);
        self.r = (self.r & 0x80) | (self.r.wrapping_add(1) & 0x7F);
        byte
    }

    /// Fetch a 16-bit little-endian immediate.
    pub fn fetch_word(&mut self, mem: &mut Memory) -> (w: u16)
        requires
            old(mem).wf(),
        ensures
            final(mem).wf(),
            final(mem).ram@ == old(mem).ram@,
            final(mem).rom@ == old(mem).rom@,
            final(mem).current_rom == old(mem).current_rom,
            final(mem).trdos_rom_loaded == old(mem).trdos_rom_loaded,
            final(mem).bank3 == old(mem).bank3,
            final(mem).screen_bank == old(mem).screen_bank,
            final(mem).paging_disabled == old(mem).paging_disabled,
            final(mem).is_128k == old(mem).is_128k,
            final(mem).config == old(mem).config,
            final(mem).trdos_rom_active == (old(mem).trdos_rom_active || Self::trap_fires(
                old(self).pc,
                *old(mem),
            ) || Self::trap_fires(wadd16(old(self).pc, 1), *old(mem))),
            !Self::trap_fires(old(self).pc, *old(mem)) && !Self::trap_fires(
                wadd16(old(self).pc, 1),
                *old(mem),
            ) ==> *final(mem) == *old(mem),
            *final(self) == (Z80 {
                pc: wadd16(old(self).pc, 2),
                r: Self::spec_r_inc(Self::spec_r_inc(old(self).r)),
                ..*old(self)
            }),
            final(mem).trdos_rom_active == old(mem).trdos_rom_active ==> w == word(
                final(mem).spec_read(wadd16(old(self).pc, 1)),
                final(mem).spec_read(old(self).pc),
            ),
    {
        let lo_b = self.fetch(mem) as u16;
        let hi_b = self.fetch(mem) as u16;
        proof {
            lemma_word_parts(
                final(mem).spec_read(wadd16(old(self).pc, 1)),
                final(mem).spec_read(old(self).pc),
                0,
            );
        }
        (hi_b << 8) | lo_b
    }

    /// Read one byte of memory.
    #[inline]
    pub fn read_byte(&self, mem: &Memory, addr: u16) -> (b: u8)
        requires
            mem.wf(),
        ensures
            b == mem.spec_read(addr),
    {
        mem.read(addr)
    }

    /// Write one byte of memory (ignored below 0x4000).
    #[inline]
    pub fn write_byte(&self, mem: &mut Memory, addr: u16, value: u8)
        requires
            old(mem).wf(),
        ensures
            final(mem).wf(),
            old(mem).same_mapping(*final(mem)),
            addr < 0x4000 ==> final(mem).ram@ == old(mem).ram@,
            addr >= 0x4000 ==> final(mem).ram@ == old(mem).ram@.update(
                old(mem).ram_index(addr),
                value,
            ),
            addr >= 0x4000 ==> final(mem).spec_read(addr) == value,
    {
        mem.write(addr, value);
    }

    /// Read a 16-bit little-endian word.
    #[inline]
    pub fn read_word(&self, mem: &Memory, addr: u16) -> (w: u16)
        requires
            mem.wf(),
        ensures
            w == spec_read_word(*mem, addr),
    {
        proof {
            assert(wadd16(addr, 1) == ((addr + 1) % 0x10000) as u16);
        }
        mem.read_word(addr)
    }

    /// Write a 16-bit little-endian word.
    #[inline]
    pub fn write_word(&self, mem: &mut Memory, addr: u16, value: u16)
        requires
            old(mem).wf(),
        ensures
            final(mem).wf(),
            old(mem).same_mapping(*final(mem)),
            final(mem).ram@.len() == old(mem).ram@.len(),
            addr >= 0x4000 && addr != 0xFFFF ==> final(mem).spec_read(addr) == lo(value) && final(mem).spec_read((addr + 1) as u16) == hi(value),
            forall|a: u16| a < 0x4000 ==> #[trigger] final(mem).spec_read(a) == old(mem).spec_read(a),
            forall|a: u16|
                a >= 0x4000 && old(mem).ram_index(a) != old(mem).ram_index(addr) && old(mem).ram_index(a) != old(mem).ram_index(wadd16(addr, 1)) ==> #[trigger] final(mem).spec_read(a) == old(mem).spec_read(a),
    {
        proof {
            assert(wadd16(addr, 1) == ((addr + 1) % 0x10000) as u16);
            assert((value & 0xFF) as u8 == lo(value) && (value >> 8) as u8 == hi(value));
        }
        mem.write_word(addr, value);
    }

    /// Push a word: SP drops by two, the word goes to the new SP.
    pub fn push(&mut self, mem: &mut Memory, value: u16)
        requires
            old(mem).wf(),
        ensures
            final(mem).wf(),
            *final(self) == (Z80 { sp: wsub16(old(self).sp, 2), ..*old(self) }),
            old(mem).same_mapping(*final(mem)),
            final(mem).ram@.len() == old(mem).ram@.len(),
            ({
                let nsp = wsub16(old(self).sp, 2);
                &&& (nsp >= 0x4000 && nsp != 0xFFFF ==> final(mem).spec_read(nsp) == lo(value)
                    && final(mem).spec_read((nsp + 1) as u16) == hi(value))
                &&& forall|a: u16|
                    a < 0x4000 ==> #[trigger] final(mem).spec_read(a) == old(mem).spec_read(a)
                &&& forall|a: u16|
                    a >= 0x4000 && old(mem).ram_index(a) != old(mem).ram_index(nsp) && old(mem).ram_index(a) != old(mem).ram_index(wadd16(nsp, 1)) ==> #[trigger] final(mem).spec_read(a) == old(mem).spec_read(a)
            }),
    {
        self.sp = self.sp.wrapping_sub(2);
        self.write_word(mem, self.sp, value);
    }

    /// Pop a word from SP; SP rises by two.
    pub fn pop(&mut self, mem: &Memory) -> (v: u16)
        requires
            mem.wf(),
        ensures
            v == spec_read_word(*mem, old(self).sp),
            *final(self) == (Z80 { sp: wadd16(old(self).sp, 2), ..*old(self) }),
    {
        let value = self.read_word(mem, self.sp);
        self.sp = self.sp.wrapping_add(2);
        value
    }

    /// Accept a maskable interrupt, honoured only with IFF1 set: both
    /// flip-flops clear, HALT ends, PC is pushed; mode 0/1 jumps to 0x0038
    /// in 13 cycles, mode 2 reads the vector at I*256+0xFF and jumps there
    /// in 19 cycles.
    pub fn handle_interrupt(&mut self, mem: &mut Memory)
        requires
            old(mem).wf(),
        ensures
            final(mem).wf(),
            !old(self).iff1 ==> *final(self) == *old(self) && *final(mem) == *old(mem),
            old(self).iff1 ==> old(mem).same_mapping(*final(mem)) && final(mem).ram@.len() == old(mem).ram@.len(),
            old(self).iff1 && old(self).im < 2 ==> *final(self) == (Z80 {
                halted: false,
                iff1: false,
                iff2: false,
                sp: wsub16(old(self).sp, 2),
                pc: 0x0038,
                cycles: wadd64(old(self).cycles, 13),
                ..*old(self)
            }),
            old(self).iff1 && old(self).im == 2 ==> *final(self) == (Z80 {
                halted: false,
                iff1: false,
                iff2: false,
                sp: wsub16(old(self).sp, 2),
                pc: spec_read_word(*final(mem), word(old(self).i, 0xFF)),
                cycles: wadd64(old(self).cycles, 19),
                ..*old(self)
            }),
            old(self).iff1 && old(self).im > 2 ==> *final(self) == (Z80 {
                halted: false,
                iff1: false,
                iff2: false,
                ..*old(self)
            }) && *final(mem) == *old(mem),
    {
        if !self.iff1 {
            return ;
        }
        self.halted = false;
        self.iff1 = false;
        self.iff2 = false;
        if self.im == 0 || self.im == 1 {
            let pc = self.pc;
            self.push(mem, pc);
            self.pc = 0x0038;
            self.cycles = self.cycles.wrapping_add(13);
        } else if self.im == 2 {
            let pc = self.pc;
            self.push(mem, pc);
            let vector_addr = ((self.i as u16) << 8) | 0xFF;
            proof {
                lemma_word_parts(old(self).i, 0xFF, 0);
            }
            self.pc = self.read_word(mem, vector_addr);
            self.cycles = self.cycles.wrapping_add(19);
        }
    }

    /// Accept a non-maskable interrupt: IFF1 is saved into IFF2 and cleared,
    /// HALT ends, PC is pushed and execution continues at 0x0066, 11 cycles.
    pub fn handle_nmi(&mut self, mem: &mut Memory)
        requires
            old(mem).wf(),
        ensures
            final(mem).wf(),
            old(mem).same_mapping(*final(mem)),
            final(mem).ram@.len() == old(mem).ram@.len(),
            *final(self) == (Z80 {
                halted: false,
                iff2: old(self).iff1,
                iff1: false,
                sp: wsub16(old(self).sp, 2),
                pc: 0x0066,
                cycles: wadd64(old(self).cycles, 11),
                ..*old(self)
            }),
            ({
                let nsp = wsub16(old(self).sp, 2);
                nsp >= 0x4000 && nsp != 0xFFFF ==> final(mem).spec_read(nsp) == lo(old(self).pc)
                    && final(mem).spec_read((nsp + 1) as u16) == hi(old(self).pc)
            }),
    {
        self.halted = false;
        self.iff2 = self.iff1;
        self.iff1 = false;
        let pc = self.pc;
        self.push(mem, pc);
        self.pc = 0x0066;
        self.cycles = self.cycles.wrapping_add(11);
    }

    /// Execute one instruction, or consume four cycles while halted.  The
    /// cycle counter advances by the returned count.
    pub fn execute(&mut self, mem: &mut Memory, io: &mut IoController) -> (cycles: u8)
        requires
            old(mem).wf(),
            old(io).wf(),
        ensures
            final(mem).wf(),
            final(io).wf(),
            4 <= cycles <= 23,
            final(self).cycles == wadd64(old(self).cycles, cycles as u64),
            old(self).halted ==> cycles == 4 && *final(self) == (Z80 {
                cycles: wadd64(old(self).cycles, 4),
                ..*old(self)
            }) && *final(mem) == *old(mem) && *final(io) == *old(io),
            !old(self).halted && !Self::trap_fires(old(self).pc, *old(mem)) && old(mem).spec_read(
                old(self).pc,
            ) == 0x00 ==> cycles == 4 && *final(self) == (Z80 {
                pc: wadd16(old(self).pc, 1),
                r: Self::spec_r_inc(old(self).r),
                cycles: wadd64(old(self).cycles, 4),
                ..*old(self)
            }) && *final(mem) == *old(mem) && *final(io) == *old(io),
            !old(self).halted && !Self::trap_fires(old(self).pc, *old(mem)) && old(mem).spec_read(
                old(self).pc,
            ) == 0x76 ==> cycles == 4 && *final(self) == (Z80 {
                pc: wadd16(old(self).pc, 1),
                r: Self::spec_r_inc(old(self).r),
                halted: true,
                cycles: wadd64(old(self).cycles, 4),
                ..*old(self)
            }) && *final(mem) == *old(mem) && *final(io) == *old(io),
            !old(self).halted && !Self::trap_fires(old(self).pc, *old(mem)) && !Self::trap_fires(
                wadd16(old(self).pc, 1),
                *old(mem),
            ) && old(mem).spec_read(old(self).pc) == 0xED && old(mem).spec_read(
                wadd16(old(self).pc, 1),
            ) == 0xB0 ==> ({
                let val = old(mem).spec_read(old(self).hl);
                let bc2 = wsub16(old(self).bc, 1);
                &&& *final(io) == *old(io)
                &&& cycles == (if bc2 != 0 {
                    21u8
                } else {
                    16u8
                })
                &&& *final(self) == (Z80 {
                    hl: wadd16(old(self).hl, 1),
                    de: wadd16(old(self).de, 1),
                    bc: bc2,
                    af: word(
                        hi(old(self).af),
                        spec_ldx_flags(lo(old(self).af), hi(old(self).af), val, bc2),
                    ),
                    pc: if bc2 != 0 {
                        old(self).pc
                    } else {
                        wadd16(old(self).pc, 2)
                    },
                    r: Self::spec_r_inc(Self::spec_r_inc(old(self).r)),
                    cycles: wadd64(
                        old(self).cycles,
                        if bc2 != 0 {
                            21
                        } else {
                            16
                        },
                    ),
                    ..*old(self)
                })
                &&& old(mem).same_mapping(*final(mem))
                &&& (old(self).de >= 0x4000 ==> final(mem).ram@ == old(mem).ram@.update(
                    old(mem).ram_index(old(self).de),
                    val,
                ))
                &&& (old(self).de < 0x4000 ==> final(mem).ram@ == old(mem).ram@)
            }),
    {
        if self.halted {
            self.cycles = self.cycles.wrapping_add(4);
            return 4;
        }
        let opcode = self.fetch(mem);
        let c = self.execute_opcode(opcode, mem, io);
        self.cycles = self.cycles.wrapping_add(c as u64);
        c
    }

    /// Run instructions until at least `target_cycles` cycles have been
    /// consumed since the call; returns the cycles actually consumed (at
    /// most 22 beyond the target, the longest instruction minus one).
    pub fn run(&mut self, mem: &mut Memory, io: &mut IoController, target_cycles: u64) -> (consumed:
        u64)
        requires
            old(mem).wf(),
            old(io).wf(),
        ensures
            final(mem).wf(),
            final(io).wf(),
            consumed >= target_cycles,
            target_cycles <= 0xFFFF_FFFF_FFFF_0000 ==> consumed <= target_cycles + 22 && final(self).cycles == wadd64(old(self).cycles, consumed),
    {
        let mut remaining: u64 = target_cycles;
        let mut consumed: u64 = 0;
        while remaining > 0
            invariant
                mem.wf(),
                io.wf(),
                remaining <= target_cycles,
                remaining > 0 ==> consumed + remaining == target_cycles,
                remaining == 0 ==> consumed >= target_cycles,
                target_cycles <= 0xFFFF_FFFF_FFFF_0000 ==> consumed <= target_cycles + 22 && (
                remaining == 0 ==> consumed <= target_cycles + 22) && self.cycles == wadd64(
                    old(self).cycles,
                    consumed,
                ),
            decreases remaining,
        {
            let c = self.execute(mem, io);
            consumed = consumed.saturating_add(c as u64);
            remaining = remaining.saturating_sub(c as u64);
        }
        consumed
    }
}

proof fn lemma_set_hi(p: u16, v: u8)
    by (bit_vector)
    ensures
        (p & 0x00FF) | ((v as u16) << 8) == ((v as u16) << 8) | ((p & 0xFF) as u8 as u16),
{
}

proof fn lemma_set_lo(p: u16, v: u8)
    by (bit_vector)
    ensures
        (p & 0xFF00) | (v as u16) == ((((p >> 8) as u8) as u16) << 8) | (v as u16),
{
}

/// Law: for any register pair value pushed with SP in writable memory
/// (0x4002 <= SP), popping immediately afterwards returns the pushed value
/// and restores SP.  (With SP pointing into the ROM slot the pushed bytes
/// are dropped, so the requirement excludes 0x0000-0x4001.)
pub proof fn lemma_push_pop_round_trip(cpu: Z80, mem0: Memory, mem1: Memory, value: u16)
    requires
        mem0.wf(),
        0x4002 <= cpu.sp,
        mem0.same_mapping(mem1),
        mem1.wf(),
        mem1.spec_read(wsub16(cpu.sp, 2)) == lo(value),
        mem1.spec_read((wsub16(cpu.sp, 2) + 1) as u16) == hi(value),
    ensures
        spec_read_word(mem1, wsub16(cpu.sp, 2)) == value,
        wadd16(wsub16(cpu.sp, 2), 2) == cpu.sp,
{
    let nsp = wsub16(cpu.sp, 2);
    assert(nsp >= 0x4000 && nsp <= 0xFFFD);
    assert(wadd16(nsp, 1) == (nsp + 1) as u16);
    assert(hi(value) as int * 256 + lo(value) == value) by (bit_vector);
}

} // verus!
