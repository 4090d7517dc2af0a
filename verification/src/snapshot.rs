//! Snapshot and ROM image decoding: the 49179-byte SNA layout and the Z80
//! format (v1 headers, v2/v3 extended headers, RLE-compressed memory
//! blocks).  The decoders take plain bytes; reading files is the caller's
//! business.

use vstd::prelude::*;

use crate::cpu::{hi, lo, spec_read_word, wadd16, word, Z80};
use crate::memory::Memory;

verus! {

/// Why a snapshot or ROM image was rejected.
#[derive(Debug, Clone, Copy, PartialEq, Eq, Structural)]
pub enum SnapshotError {
    /// The byte array is shorter than the format's fixed layout.
    TooSmall,
}

impl SnapshotError {
    /// A human-readable reason.
    pub fn message(&self) -> (r: &'static str)
        ensures
            *self == SnapshotError::TooSmall ==> r@ == "snapshot image is too small"@,
    {
        match self {
            SnapshotError::TooSmall => "snapshot image is too small",
        }
    }
}

/// The 27-byte SNA header holding the register file, as saved for a CPU
/// state and a border colour.
pub open spec fn spec_sna_header(s: Z80, border: u8) -> Seq<u8> {
    seq![
        s.i,
        lo(s.hl_prime),
        hi(s.hl_prime),
        lo(s.de_prime),
        hi(s.de_prime),
        lo(s.bc_prime),
        hi(s.bc_prime),
        lo(s.af_prime),
        hi(s.af_prime),
        lo(s.hl),
        hi(s.hl),
        lo(s.de),
        hi(s.de),
        lo(s.bc),
        hi(s.bc),
        lo(s.iy),
        hi(s.iy),
        lo(s.ix),
        hi(s.ix),
        if s.iff2 {
            0x04u8
        } else {
            0u8
        },
        s.r,
        lo(s.af),
        hi(s.af),
        lo(s.sp),
        hi(s.sp),
        s.im,
        border & 0x07,
    ]
}

proof fn lemma_ram_index_injective(m: Memory, a: u16, b: u16)
    requires
        m.wf(),
        m.bank3 != 2,
        m.bank3 != 5,
        a != b,
        a >= 0x4000,
        b >= 0x4000,
    ensures
        m.ram_index(a) != m.ram_index(b),
{
}

/// The byte sequence an RLE-compressed block expands to: the marker
/// `ED ED count byte` stands for `count` copies of `byte`; any other byte is
/// literal.  Fewer than four remaining bytes can no longer form a marker and
/// are literal.
pub open spec fn spec_rle(src: Seq<u8>) -> Seq<u8>
    decreases src.len(),
{
    if src.len() == 0 {
        Seq::empty()
    } else if src.len() >= 4 && src[0] == 0xED && src[1] == 0xED {
        Seq::new(src[2] as nat, |i: int| src[3]) + spec_rle(src.skip(4))
    } else {
        seq![src[0]] + spec_rle(src.skip(1))
    }
}

/// The load address a v2/v3 memory block's page code maps to, per machine
/// class; pages outside the table are skipped.
pub open spec fn spec_block_dest(page: u8, is_128k: bool) -> Option<u16> {
    if is_128k {
        if page == 3 {
            Some(0x0000u16)
        } else if page == 4 {
            Some(0x8000u16)
        } else if page == 5 {
            Some(0x4000u16)
        } else if page >= 6 {
            Some(0xC000u16)
        } else {
            None::<u16>
        }
    } else {
        if page == 4 {
            Some(0x8000u16)
        } else if page == 5 {
            Some(0xC000u16)
        } else if page == 8 {
            Some(0x4000u16)
        } else {
            None::<u16>
        }
    }
}

/// The byte address `a` holds after the v2/v3 memory blocks from `offset`
/// on have been applied over the byte `cur` it held before: each block is
/// RLE-expanded (or taken literally for the 0xFFFF length code), lands at
/// its page's address truncated to one bank, and later blocks overwrite
/// earlier ones.  A block that would overrun the data ends the walk, as the
/// loader stops there.
pub open spec fn spec_z80_blocks_value(d: Seq<u8>, offset: int, is_128k: bool, a: u16, cur: u8) -> u8
    decreases d.len() - offset,
    when 0 <= offset <= d.len()
{
    if d.len() - offset < 3 {
        cur
    } else {
        let block_len = word(d[offset + 1], d[offset]) as int;
        let body = offset + 3;
        if block_len > d.len() || body > d.len() - block_len {
            cur
        } else {
            let page = d[offset + 2];
            let cur2 = if spec_block_dest(page, is_128k) is Some {
                let addr = spec_block_dest(page, is_128k)->0;
                if block_len == 0xFFFF {
                    let wrote: int = if 16384 <= d.len() - body {
                        16384
                    } else {
                        d.len() - body
                    };
                    if addr <= a < addr + wrote {
                        d[body + (a - addr)]
                    } else {
                        cur
                    }
                } else {
                    let decoded = spec_rle(d.subrange(body, body + block_len));
                    let wrote: int = if decoded.len() <= 16384 {
                        decoded.len() as int
                    } else {
                        16384
                    };
                    if addr <= a < addr + wrote {
                        decoded[a - addr]
                    } else {
                        cur
                    }
                }
            } else {
                cur
            };
            spec_z80_blocks_value(d, body + block_len, is_128k, a, cur2)
        }
    }
}

/// The two snapshot layouts this crate decodes.
#[derive(Debug, Clone, Copy, PartialEq, Eq, Structural)]
pub enum SnapshotFormat {
    Sna,
    Z80,
}

/// Load a snapshot of either format.  The caller picks the format (usually
/// from the file name).
pub fn load_snapshot(
    data: &Vec<u8>,
    format: SnapshotFormat,
    cpu: &mut Z80,
    mem: &mut Memory,
) -> (r: Result<(), SnapshotError>)
    requires
        old(mem).wf(),
    ensures
        final(mem).wf(),
        format == SnapshotFormat::Sna ==> (r is Ok <==> data@.len() >= 27 + 49152),
        format == SnapshotFormat::Z80 ==> (r is Ok <==> data@.len() >= 30),
        r is Err ==> *final(cpu) == *old(cpu) && *final(mem) == *old(mem),
{
    match format {
        SnapshotFormat::Sna => load_sna(data, cpu, mem),
        SnapshotFormat::Z80 => load_z80(data, cpu, mem),
    }
}

/// Load a 48K SNA snapshot: 27 header bytes of registers, then the 49152
/// bytes of memory from 0x4000, with PC popped from the saved stack.  An
/// image shorter than 49179 bytes is rejected with nothing changed.  On a
/// machine in 128K mode, the memory map is first pinned to the 48K layout
/// (ROM 1, bank 0, screen 5, paging locked).
pub fn load_sna(data: &Vec<u8>, cpu: &mut Z80, mem: &mut Memory) -> (r: Result<(), SnapshotError>)
    requires
        old(mem).wf(),
    ensures
        final(mem).wf(),
        r is Ok <==> data@.len() >= 27 + 49152,
        r is Err ==> *final(cpu) == *old(cpu) && *final(mem) == *old(mem) && r->Err_0
            == SnapshotError::TooSmall,
        r is Ok ==> ({
            let d = data@;
            &&& *final(cpu) == (Z80 {
                i: d[0],
                hl_prime: word(d[2], d[1]),
                de_prime: word(d[4], d[3]),
                bc_prime: word(d[6], d[5]),
                af_prime: word(d[8], d[7]),
                hl: word(d[10], d[9]),
                de: word(d[12], d[11]),
                bc: word(d[14], d[13]),
                iy: word(d[16], d[15]),
                ix: word(d[18], d[17]),
                iff1: d[19] & 0x04 != 0,
                iff2: d[19] & 0x04 != 0,
                r: d[20],
                af: word(d[22], d[21]),
                sp: wadd16(word(d[24], d[23]), 2),
                im: d[25] & 0x03,
                pc: spec_read_word(*final(mem), word(d[24], d[23])),
                halted: false,
                ..*old(cpu)
            })
            &&& forall|a: u16| a >= 0x4000 ==> final(mem).spec_read(a) == d[27 + a - 0x4000]
            &&& final(mem).bank3 == 0
            &&& final(mem).screen_bank == 5
            &&& !final(mem).trdos_rom_active
        }),
{
    if data.len() < 27 + 49152 {
        return Err(SnapshotError::TooSmall);
    }
    mem.reset();
    if mem.is_128k_mode() {
        mem.write_7ffd(0x30);
        proof {
            assert(0x30u8 & 0x07 == 0 && 0x30u8 & 0x08 == 0 && 0x30u8 & 0x40 == 0 && 0x30u8 & 0x80
                == 0) by (bit_vector);
        }
    }
    cpu.i = data[0];
    cpu.hl_prime = word_of(data[2], data[1]);
    cpu.de_prime = word_of(data[4], data[3]);
    cpu.bc_prime = word_of(data[6], data[5]);
    cpu.af_prime = word_of(data[8], data[7]);
    cpu.hl = word_of(data[10], data[9]);
    cpu.de = word_of(data[12], data[11]);
    cpu.bc = word_of(data[14], data[13]);
    cpu.iy = word_of(data[16], data[15]);
    cpu.ix = word_of(data[18], data[17]);
    let iff2 = data[19] & 0x04 != 0;
    cpu.iff1 = iff2;
    cpu.iff2 = iff2;
    cpu.r = data[20];
    cpu.af = word_of(data[22], data[21]);
    cpu.sp = word_of(data[24], data[23]);
    cpu.im = data[25] & 0x03;
    let mut i: usize = 0;
    while i < 49152
        invariant
            mem.wf(),
            data@.len() >= 27 + 49152,
            i <= 49152,
            mem.bank3 == 0,
            mem.screen_bank == 5,
            !mem.trdos_rom_active,
            mem.rom@.len() == old(mem).rom@.len(),
            forall|a: u16|
                0x4000 <= a < 0x4000 + i ==> #[trigger] mem.spec_read(a) == data@[27 + a - 0x4000],
        decreases 49152 - i,
    {
        let ghost pre = *mem;
        let addr: u16 = (0x4000 + i) as u16;
        mem.write(addr, data[27 + i]);
        proof {
            assert forall|a: u16| 0x4000 <= a < 0x4000 + (i + 1) implies #[trigger] mem.spec_read(
                a,
            ) == data@[27 + a - 0x4000] by {
                if a != addr {
                    lemma_ram_index_injective(pre, a, addr);
                    assert(pre.spec_read(a) == data@[27 + a - 0x4000]);
                }
            }
        }
        i = i + 1;
    }
    let sp = cpu.sp;
    cpu.pc = mem.read_word(sp);
    cpu.sp = cpu.sp.wrapping_add(2);
    cpu.halted = false;
    Ok(())
}

/// Build the 27-byte SNA register header for a CPU state and border colour.
pub fn encode_sna_header(cpu: &Z80, border: u8) -> (r: Vec<u8>)
    ensures
        r@ == spec_sna_header(*cpu, border),
{
    let mut out: Vec<u8> = Vec::new();
    out.push(cpu.i);
    out.push((cpu.hl_prime & 0xFF) as u8);
    out.push((cpu.hl_prime >> 8) as u8);
    out.push((cpu.de_prime & 0xFF) as u8);
    out.push((cpu.de_prime >> 8) as u8);
    out.push((cpu.bc_prime & 0xFF) as u8);
    out.push((cpu.bc_prime >> 8) as u8);
    out.push((cpu.af_prime & 0xFF) as u8);
    out.push((cpu.af_prime >> 8) as u8);
    out.push((cpu.hl & 0xFF) as u8);
    out.push((cpu.hl >> 8) as u8);
    out.push((cpu.de & 0xFF) as u8);
    out.push((cpu.de >> 8) as u8);
    out.push((cpu.bc & 0xFF) as u8);
    out.push((cpu.bc >> 8) as u8);
    out.push((cpu.iy & 0xFF) as u8);
    out.push((cpu.iy >> 8) as u8);
    out.push((cpu.ix & 0xFF) as u8);
    out.push((cpu.ix >> 8) as u8);
    out.push(if cpu.iff2 {
        0x04
    } else {
        0
    });
    out.push(cpu.r);
    out.push((cpu.af & 0xFF) as u8);
    out.push((cpu.af >> 8) as u8);
    out.push((cpu.sp & 0xFF) as u8);
    out.push((cpu.sp >> 8) as u8);
    out.push(cpu.im);
    out.push(border & 0x07);
    proof {
        assert(out@ =~= spec_sna_header(*cpu, border));
    }
    out
}

/// Law: saving the register header and loading it back restores every
/// register field it carries: the shadow and main pairs, I, R, IFF, IM and
/// SP.  It holds for the states a real machine can be in: interrupt mode at
/// most 3 and the two flip-flops equal (a SNA header stores one bit for
/// both, and two mode bits).
pub proof fn lemma_sna_register_round_trip(s: Z80, border: u8)
    requires
        s.im <= 3,
        s.iff1 == s.iff2,
    ensures
        ({
            let h = spec_sna_header(s, border);
            &&& h.len() == 27
            &&& h[0] == s.i
            &&& word(h[2], h[1]) == s.hl_prime
            &&& word(h[4], h[3]) == s.de_prime
            &&& word(h[6], h[5]) == s.bc_prime
            &&& word(h[8], h[7]) == s.af_prime
            &&& word(h[10], h[9]) == s.hl
            &&& word(h[12], h[11]) == s.de
            &&& word(h[14], h[13]) == s.bc
            &&& word(h[16], h[15]) == s.iy
            &&& word(h[18], h[17]) == s.ix
            &&& (h[19] & 0x04 != 0) == s.iff1
            &&& (h[19] & 0x04 != 0) == s.iff2
            &&& h[20] == s.r
            &&& word(h[22], h[21]) == s.af
            &&& word(h[24], h[23]) == s.sp
            &&& h[25] & 0x03 == s.im
        }),
{
    let h = spec_sna_header(s, border);
    lemma_rebuild(s.hl_prime);
    lemma_rebuild(s.de_prime);
    lemma_rebuild(s.bc_prime);
    lemma_rebuild(s.af_prime);
    lemma_rebuild(s.hl);
    lemma_rebuild(s.de);
    lemma_rebuild(s.bc);
    lemma_rebuild(s.iy);
    lemma_rebuild(s.ix);
    lemma_rebuild(s.af);
    lemma_rebuild(s.sp);
    assert(0x04u8 & 0x04 != 0 && 0u8 & 0x04 == 0) by (bit_vector);
    let im = s.im;
    assert(im & 0x03 == im) by (bit_vector)
        requires
            im <= 3,
    ;
}

proof fn lemma_rebuild(v: u16)
    by (bit_vector)
    ensures
        ((((v >> 8) as u8) as u16) << 8) | (((v & 0xFF) as u8) as u16) == v,
{
}

/// Little-endian word from two bytes.
fn word_of(h: u8, l: u8) -> (r: u16)
    ensures
        r == word(h, l),
{
    ((h as u16) << 8) | (l as u16)
}

/// Load a Z80-format snapshot.  The 30-byte v1 header carries the register
/// file (AF and AF' stored high byte first; R's top bit and the compression
/// flag in the byte at offset 12).  A zero PC selects the v2/v3 layout:
/// the real PC sits in an extended header, and memory follows as blocks,
/// each prefixed by a two-byte length and a page code, compressed unless
/// the length is 0xFFFF.  An image shorter than 30 bytes is rejected with
/// nothing changed.
pub fn load_z80(data: &Vec<u8>, cpu: &mut Z80, mem: &mut Memory) -> (r: Result<(), SnapshotError>)
    requires
        old(mem).wf(),
    ensures
        final(mem).wf(),
        r is Ok <==> data@.len() >= 30,
        r is Err ==> *final(cpu) == *old(cpu) && *final(mem) == *old(mem) && r->Err_0
            == SnapshotError::TooSmall,
        r is Ok ==> ({
            let d = data@;
            &&& final(cpu).af == word(d[0], d[1])
            &&& final(cpu).bc == word(d[3], d[2])
            &&& final(cpu).hl == word(d[5], d[4])
            &&& final(cpu).sp == word(d[9], d[8])
            &&& final(cpu).i == d[10]
            &&& final(cpu).r == ((d[11] & 0x7F) | ((d[12] & 0x01) << 7))
            &&& final(cpu).de == word(d[14], d[13])
            &&& final(cpu).bc_prime == word(d[16], d[15])
            &&& final(cpu).de_prime == word(d[18], d[17])
            &&& final(cpu).hl_prime == word(d[20], d[19])
            &&& final(cpu).af_prime == word(d[21], d[22])
            &&& final(cpu).iy == word(d[24], d[23])
            &&& final(cpu).ix == word(d[26], d[25])
            &&& final(cpu).iff1 == (d[27] != 0)
            &&& final(cpu).iff2 == (d[28] != 0)
            &&& final(cpu).im == d[29] & 0x03
            &&& !final(cpu).halted
            &&& (word(d[7], d[6]) != 0 ==> final(cpu).pc == word(d[7], d[6]))
            &&& (word(d[7], d[6]) == 0 && d.len() >= 34 ==> final(cpu).pc == word(d[33], d[32]))
            &&& final(cpu).cycles == old(cpu).cycles
        }),
        r is Ok && old(mem).bank3 != 2 && old(mem).bank3 != 5 && word(data@[7], data@[6]) != 0
            ==> ({
            let d = data@;
            &&& (d[12] & 0x20 != 0 ==> ({
                let decoded = spec_rle(d.subrange(30, d.len() as int));
                forall|j: int|
                    0 <= j < decoded.len() && j < 49152 ==> #[trigger] final(mem).spec_read(
                        (0x4000 + j) as u16,
                    ) == decoded[j]
            }))
            &&& (d[12] & 0x20 == 0 ==> forall|j: int|
                0 <= j < d.len() - 30 && j < 49152 ==> #[trigger] final(mem).spec_read(
                    (0x4000 + j) as u16,
                ) == d[30 + j])
        }),
        r is Ok && word(data@[7], data@[6]) == 0 && data@.len() >= 35 && old(mem).bank3 != 2 && old(
            mem,
        ).bank3 != 5 ==> ({
            let d = data@;
            let e = word(d[31], d[30]) as int;
            let off0: int = if e <= d.len() - 32 {
                32 + e
            } else {
                d.len() as int
            };
            forall|a: u16|
                a >= 0x4000 ==> #[trigger] final(mem).spec_read(a) == spec_z80_blocks_value(
                    d,
                    off0,
                    d[34] >= 3,
                    a,
                    old(mem).spec_read(a),
                )
        }),
{
    if data.len() < 30 {
        return Err(SnapshotError::TooSmall);
    }
    cpu.af = word_of(data[0], data[1]);
    cpu.bc = word_of(data[3], data[2]);
    cpu.hl = word_of(data[5], data[4]);
    cpu.pc = word_of(data[7], data[6]);
    cpu.sp = word_of(data[9], data[8]);
    cpu.i = data[10];
    cpu.r = (data[11] & 0x7F) | ((data[12] & 0x01) << 7);
    let flags1 = data[12];
    let compressed = flags1 & 0x20 != 0;
    cpu.de = word_of(data[14], data[13]);
    cpu.bc_prime = word_of(data[16], data[15]);
    cpu.de_prime = word_of(data[18], data[17]);
    cpu.hl_prime = word_of(data[20], data[19]);
    cpu.af_prime = word_of(data[21], data[22]);
    cpu.iy = word_of(data[24], data[23]);
    cpu.ix = word_of(data[26], data[25]);
    cpu.iff1 = data[27] != 0;
    cpu.iff2 = data[28] != 0;
    cpu.im = data[29] & 0x03;
    if cpu.pc != 0 {
        // version 1: one 48K memory image from 0x4000
        if compressed {
            decompress_block(data, 30, data.len(), mem, 0x4000, 49152);
        } else {
            let mut i: usize = 0;
            while i < 49152 && 30 + i < data.len()
                invariant
                    mem.wf(),
                    data@.len() >= 30,
                    i <= 49152,
                    old(mem).same_mapping(*mem),
                    old(mem).bank3 != 2 && old(mem).bank3 != 5 ==> forall|j: int|
                        0 <= j < i && j < data@.len() - 30 ==> #[trigger] mem.spec_read(
                            (0x4000 + j) as u16,
                        ) == data@[30 + j],
                decreases 49152 - i,
            {
                let ghost pre = *mem;
                mem.write((0x4000 + i) as u16, data[30 + i]);
                proof {
                    if pre.bank3 != 2 && pre.bank3 != 5 {
                        assert forall|j: int|
                            0 <= j < i + 1 && j < data@.len() - 30 implies #[trigger] mem.spec_read(
                            (0x4000 + j) as u16,
                        ) == data@[30 + j] by {
                            if j < i {
                                lemma_ram_index_injective(
                                    pre,
                                    (0x4000 + j) as u16,
                                    (0x4000 + i) as u16,
                                );
                                assert(pre.spec_read((0x4000 + j) as u16) == data@[30 + j]);
                            }
                        }
                    }
                }
                i = i + 1;
            }
        }
    } else {
        // version 2/3: extended header, then per-page blocks
        if data.len() >= 34 {
            let extra_len = word_of(data[31], data[30]) as usize;
            cpu.pc = word_of(data[33], data[32]);
            if data.len() >= 35 {
                let hw_mode = data[34];
                let is_128k = hw_mode >= 3;
                let mut offset: usize = if extra_len <= data.len() - 32 {
                    32 + extra_len
                } else {
                    data.len()
                };
                let ghost off0 = offset as int;
                let ghost m0 = *mem;
                while data.len() - offset >= 3
                    invariant
                        mem.wf(),
                        data@.len() >= 35,
                        offset <= data@.len(),
                        is_128k == (data@[34] >= 3),
                        m0.same_mapping(*mem),
                        mem.ram@.len() == m0.ram@.len(),
                        0 <= off0 <= data@.len(),
                        m0.bank3 != 2 && m0.bank3 != 5 ==> forall|a: u16|
                            a >= 0x4000 ==> #[trigger] spec_z80_blocks_value(
                                data@,
                                offset as int,
                                is_128k,
                                a,
                                mem.spec_read(a),
                            ) == spec_z80_blocks_value(data@, off0, is_128k, a, m0.spec_read(a)),
                    decreases data@.len() - offset,
                {
                    let ghost pre = *mem;
                    let block_len = word_of(data[offset + 1], data[offset]) as usize;
                    let page = data[offset + 2];
                    let body = offset + 3;
                    if block_len > data.len() || body > data.len() - block_len {
                        proof {
                            assert forall|a: u16| a >= 0x4000 implies #[trigger] spec_z80_blocks_value(
                                data@,
                                data@.len() as int,
                                is_128k,
                                a,
                                mem.spec_read(a),
                            ) == spec_z80_blocks_value(
                                data@,
                                offset as int,
                                is_128k,
                                a,
                                mem.spec_read(a),
                            ) by {}
                        }
                        offset = data.len();
                    } else {
                        let dest: Option<u16> = if is_128k {
                            if page == 3 {
                                Some(0x0000)
                            } else if page == 4 {
                                Some(0x8000)
                            } else if page == 5 {
                                Some(0x4000)
                            } else if page >= 6 {
                                Some(0xC000)
                            } else {
                                None
                            }
                        } else {
                            if page == 4 {
                                Some(0x8000)
                            } else if page == 5 {
                                Some(0xC000)
                            } else if page == 8 {
                                Some(0x4000)
                            } else {
                                None
                            }
                        };
                        match dest {
                            Some(addr) => {
                                if block_len == 0xFFFF {
                                    copy_block(data, body, mem, addr);
                                } else {
                                    decompress_block(data, body, body + block_len, mem, addr, 16384);
                                }
                            },
                            None => {},
                        }
                        proof {
                            if pre.bank3 != 2 && pre.bank3 != 5 {
                                assert forall|a: u16| a >= 0x4000 implies #[trigger] spec_z80_blocks_value(
                                    data@,
                                    body + block_len,
                                    is_128k,
                                    a,
                                    mem.spec_read(a),
                                ) == spec_z80_blocks_value(
                                    data@,
                                    offset as int,
                                    is_128k,
                                    a,
                                    pre.spec_read(a),
                                ) by {
                                    let d = data@;
                                    let bl = word(d[offset as int + 1], d[offset as int]) as int;
                                    let bdy = offset as int + 3;
                                    let pg = d[offset as int + 2];
                                    assert(bl == block_len as int);
                                    assert(dest == spec_block_dest(pg, is_128k));
                                    if dest is Some {
                                        let ad = dest->0;
                                        if bl == 0xFFFF {
                                            let wrote: int = if 16384 <= d.len() - bdy {
                                                16384
                                            } else {
                                                d.len() - bdy
                                            };
                                            if ad <= a < ad + wrote {
                                                assert(ad + (a - ad) == a);
                                                assert(mem.spec_read(((ad + (a - ad)) as u16))
                                                    == d[bdy + (a - ad)]);
                                            }
                                        } else {
                                            let decoded = spec_rle(d.subrange(bdy, bdy + bl));
                                            let wrote: int = if decoded.len() <= 16384 {
                                                decoded.len() as int
                                            } else {
                                                16384
                                            };
                                            if ad <= a < ad + wrote {
                                                assert(ad + (a - ad) == a);
                                                assert(mem.spec_read(((ad + (a - ad)) as u16))
                                                    == decoded[a - ad]);
                                            }
                                        }
                                    }
                                }
                            }
                        }
                        offset = body + block_len;
                    }
                }
                proof {
                    if m0.bank3 != 2 && m0.bank3 != 5 {
                        assert forall|a: u16| a >= 0x4000 implies #[trigger] mem.spec_read(a)
                            == spec_z80_blocks_value(
                            data@,
                            off0,
                            is_128k,
                            a,
                            m0.spec_read(a),
                        ) by {
                            assert(spec_z80_blocks_value(
                                data@,
                                offset as int,
                                is_128k,
                                a,
                                mem.spec_read(a),
                            ) == mem.spec_read(a));
                        }
                    }
                }
            }
        }
    }
    cpu.halted = false;
    Ok(())
}

/// Copy an uncompressed block (length code 0xFFFF) of up to one bank from
/// `data[body..]` into memory at `addr`, dropping writes into the ROM slot.
fn copy_block(data: &Vec<u8>, body: usize, mem: &mut Memory, addr: u16)
    requires
        old(mem).wf(),
        body <= data@.len(),
        addr as int + 16384 <= 0x10000,
    ensures
        final(mem).wf(),
        old(mem).same_mapping(*final(mem)),
        final(mem).ram@.len() == old(mem).ram@.len(),
        old(mem).bank3 != 2 && old(mem).bank3 != 5 ==> ({
            let wrote: int = if 16384 <= data@.len() - body {
                16384
            } else {
                data@.len() - body
            };
            &&& forall|j: int|
                0 <= j < wrote && addr + j >= 0x4000 ==> #[trigger] final(mem).spec_read(
                    (addr + j) as u16,
                ) == data@[body + j]
            &&& forall|a: u16|
                a >= 0x4000 && !(addr <= a < addr + wrote) ==> #[trigger] final(mem).spec_read(a)
                    == old(mem).spec_read(a)
        }),
{
    let mut i: usize = 0;
    while i < 16384 && data.len() - body > i
        invariant
            mem.wf(),
            body <= data@.len(),
            i <= 16384,
            body + i <= data@.len(),
            addr as int + 16384 <= 0x10000,
            old(mem).same_mapping(*mem),
            mem.ram@.len() == old(mem).ram@.len(),
            old(mem).bank3 != 2 && old(mem).bank3 != 5 ==> forall|j: int|
                0 <= j < i && addr + j >= 0x4000 ==> #[trigger] mem.spec_read((addr + j) as u16)
                    == data@[body + j],
            old(mem).bank3 != 2 && old(mem).bank3 != 5 ==> forall|a: u16|
                a >= 0x4000 && !(addr <= a < addr + i) ==> #[trigger] mem.spec_read(a) == old(
                    mem,
                ).spec_read(a),
        decreases 16384 - i,
    {
        let ghost p = *mem;
        let w = addr.wrapping_add(i as u16);
        mem.write(w, data[body + i]);
        proof {
            assert(w == addr + i);
            if p.bank3 != 2 && p.bank3 != 5 {
                assert forall|j: int| 0 <= j < i + 1 && addr + j >= 0x4000 implies #[trigger] mem.spec_read(
                    (addr + j) as u16,
                ) == data@[body + j] by {
                    if j < i {
                        if w >= 0x4000 && ((addr + j) as u16) != w {
                            lemma_ram_index_injective(p, (addr + j) as u16, w);
                        }
                        assert(p.spec_read((addr + j) as u16) == data@[body + j]);
                    }
                }
                assert forall|a: u16| a >= 0x4000 && !(addr <= a < addr + (i + 1)) implies #[trigger] mem.spec_read(
                    a,
                ) == old(mem).spec_read(a) by {
                    if w >= 0x4000 {
                        lemma_ram_index_injective(p, a, w);
                    }
                    assert(p.spec_read(a) == old(mem).spec_read(a));
                }
            }
        }
        i = i + 1;
    }
}

/// Expand one RLE-compressed block (`ED ED count byte` runs) from
/// `data[src_start..src_end]` into memory at `start`, writing at most
/// `max_len` bytes.  Whenever the slot-3 bank does not alias the fixed banks
/// (2 and 5), the decoded bytes land exactly at consecutive addresses from
/// `start` on, writes into the ROM slot being dropped.
fn decompress_block(
    data: &Vec<u8>,
    src_start: usize,
    src_end: usize,
    mem: &mut Memory,
    start: u16,
    max_len: usize,
)
    requires
        old(mem).wf(),
        src_start <= src_end <= data@.len(),
        start as int + max_len <= 0x10000,
    ensures
        final(mem).wf(),
        old(mem).same_mapping(*final(mem)),
        final(mem).ram@.len() == old(mem).ram@.len(),
        old(mem).bank3 != 2 && old(mem).bank3 != 5 ==> ({
            let decoded = spec_rle(data@.subrange(src_start as int, src_end as int));
            let wrote: int = if decoded.len() <= max_len {
                decoded.len() as int
            } else {
                max_len as int
            };
            &&& forall|j: int|
                0 <= j < decoded.len() && j < max_len && start + j >= 0x4000 ==> #[trigger] final(mem).spec_read((start + j) as u16) == decoded[j]
            &&& forall|a: u16|
                a >= 0x4000 && !(start <= a < start + wrote) ==> #[trigger] final(mem).spec_read(a)
                    == old(mem).spec_read(a)
        }),
{
    let ghost full = data@.subrange(src_start as int, src_end as int);
    let ghost decoded = spec_rle(full);
    let mut src = src_start;
    let mut dst: usize = 0;
    let ghost mut done: int = 0;
    proof {
        assert(decoded =~= decoded.take(0) + spec_rle(full));
    }
    while src < src_end && dst < max_len
        invariant
            mem.wf(),
            old(mem).same_mapping(*mem),
            mem.ram@.len() == old(mem).ram@.len(),
            src_start <= src <= src_end <= data@.len(),
            start as int + max_len <= 0x10000,
            full == data@.subrange(src_start as int, src_end as int),
            decoded == spec_rle(full),
            0 <= done,
            done + spec_rle(data@.subrange(src as int, src_end as int)).len() == decoded.len(),
            decoded == decoded.take(done) + spec_rle(data@.subrange(src as int, src_end as int)),
            dst == (if done <= max_len {
                done
            } else {
                max_len as int
            }),
            old(mem).bank3 != 2 && old(mem).bank3 != 5 ==> forall|j: int|
                0 <= j < dst && start + j >= 0x4000 ==> #[trigger] mem.spec_read(
                    (start + j) as u16,
                ) == decoded[j],
            old(mem).bank3 != 2 && old(mem).bank3 != 5 ==> forall|a: u16|
                a >= 0x4000 && !(start <= a < start + dst) ==> #[trigger] mem.spec_read(a) == old(
                    mem,
                ).spec_read(a),
        decreases src_end - src,
    {
        let ghost rem = data@.subrange(src as int, src_end as int);
        if src_end - src > 3 && data[src] == 0xED && data[src + 1] == 0xED {
            let count = data[src + 2] as usize;
            let byte = data[src + 3];
            proof {
                assert(rem.skip(4) =~= data@.subrange(src + 4, src_end as int));
                assert(spec_rle(rem) == Seq::new(count as nat, |i: int| byte) + spec_rle(
                    data@.subrange(src + 4, src_end as int),
                ));
            }
            let mut k: usize = 0;
            while k < count
                invariant
                    mem.wf(),
                    old(mem).same_mapping(*mem),
                    mem.ram@.len() == old(mem).ram@.len(),
                    src_start <= src,
                    src_end - src > 3,
                    src_end <= data@.len(),
                    start as int + max_len <= 0x10000,
                    full == data@.subrange(src_start as int, src_end as int),
                    decoded == spec_rle(full),
                    k <= count,
                    0 <= done,
                    done + (count - k) + spec_rle(data@.subrange(src + 4, src_end as int)).len()
                        == decoded.len(),
                    decoded == decoded.take(done) + Seq::new((count - k) as nat, |i: int| byte)
                        + spec_rle(data@.subrange(src + 4, src_end as int)),
                    dst == (if done <= max_len {
                        done
                    } else {
                        max_len as int
                    }),
                    old(mem).bank3 != 2 && old(mem).bank3 != 5 ==> forall|j: int|
                        0 <= j < dst && start + j >= 0x4000 ==> #[trigger] mem.spec_read(
                            (start + j) as u16,
                        ) == decoded[j],
                    old(mem).bank3 != 2 && old(mem).bank3 != 5 ==> forall|a: u16|
                        a >= 0x4000 && !(start <= a < start + dst) ==> #[trigger] mem.spec_read(a)
                            == old(mem).spec_read(a),
                decreases count - k,
            {
                proof {
                    assert(decoded[done] == byte);
                }
                if dst < max_len {
                    let ghost pre = *mem;
                    let addr = start.wrapping_add(dst as u16);
                    mem.write(addr, byte);
                    proof {
                        assert(addr == start + dst);
                        if pre.bank3 != 2 && pre.bank3 != 5 {
                            lemma_content_preserved(pre, *mem, start, dst as int, decoded, byte);
                        }
                    }
                    dst = dst + 1;
                }
                proof {
                    assert(decoded.take(done + 1) =~= decoded.take(done) + seq![decoded[done]]);
                    assert(Seq::new((count - k) as nat, |i: int| byte) =~= seq![byte] + Seq::new(
                        (count - (k + 1)) as nat,
                        |i: int| byte,
                    ));
                    assert(decoded =~= decoded.take(done + 1) + Seq::new(
                        (count - (k + 1)) as nat,
                        |i: int| byte,
                    ) + spec_rle(data@.subrange(src + 4, src_end as int)));
                    done = done + 1;
                }
                k = k + 1;
            }
            proof {
                assert(Seq::new(0nat, |i: int| byte) + spec_rle(
                    data@.subrange(src + 4, src_end as int),
                ) =~= spec_rle(data@.subrange(src + 4, src_end as int)));
            }
            src = src + 4;
        } else {
            let b = data[src];
            proof {
                assert(rem.skip(1) =~= data@.subrange(src + 1, src_end as int));
                assert(spec_rle(rem) == seq![b] + spec_rle(data@.subrange(src + 1, src_end as int)));
                assert(decoded[done] == b);
            }
            let ghost pre = *mem;
            let addr = start.wrapping_add(dst as u16);
            mem.write(addr, b);
            proof {
                assert(addr == start + dst);
                if pre.bank3 != 2 && pre.bank3 != 5 {
                    lemma_content_preserved(pre, *mem, start, dst as int, decoded, b);
                }
                assert(decoded.take(done + 1) =~= decoded.take(done) + seq![decoded[done]]);
                assert(decoded =~= decoded.take(done + 1) + spec_rle(
                    data@.subrange(src + 1, src_end as int),
                ));
                done = done + 1;
            }
            src = src + 1;
            dst = dst + 1;
        }
    }
    proof {
        if src >= src_end {
            assert(data@.subrange(src as int, src_end as int) =~= Seq::<u8>::empty());
            assert(decoded =~= decoded.take(done));
        }
    }
}

/// After a write of `decoded[d]` at `start + d`, the decoded prefix below
/// `d` still reads back, and the new byte reads back too (unless it fell
/// into the ROM slot).
proof fn lemma_content_preserved(
    pre: Memory,
    post: Memory,
    start: u16,
    d: int,
    decoded: Seq<u8>,
    b: u8,
)
    requires
        pre.wf(),
        post.wf(),
        pre.same_mapping(post),
        0 <= d,
        start + d <= 0xFFFF,
        0 <= d < decoded.len(),
        b == decoded[d],
        start + d >= 0x4000 ==> post.ram@ == pre.ram@.update(
            pre.ram_index((start + d) as u16),
            b,
        ) && post.spec_read((start + d) as u16) == b,
        start + d < 0x4000 ==> post.ram@ == pre.ram@,
        pre.bank3 != 2 && pre.bank3 != 5,
        forall|j: int|
            0 <= j < d && start + j >= 0x4000 ==> #[trigger] pre.spec_read((start + j) as u16)
                == decoded[j],
    ensures
        forall|j: int|
            0 <= j < d + 1 && start + j >= 0x4000 ==> #[trigger] post.spec_read((start + j) as u16)
                == decoded[j],
        forall|a: u16|
            a >= 0x4000 && !(start <= a <= start + d) ==> #[trigger] post.spec_read(a)
                == pre.spec_read(a),
{
    let addr = (start + d) as u16;
    assert forall|j: int| 0 <= j < d + 1 && start + j >= 0x4000 implies #[trigger] post.spec_read(
        (start + j) as u16,
    ) == decoded[j] by {
        let a = (start + j) as u16;
        if j < d {
            if addr >= 0x4000 {
                lemma_ram_index_injective(pre, a, addr);
                pre.lemma_ram_index_bounds_pub(a);
                pre.lemma_ram_index_bounds_pub(addr);
            }
            assert(pre.spec_read(a) == decoded[j]);
            pre.lemma_ram_index_bounds_pub(a);
        }
    }
    assert forall|a: u16| a >= 0x4000 && !(start <= a <= start + d) implies #[trigger] post.spec_read(
        a,
    ) == pre.spec_read(a) by {
        if addr >= 0x4000 {
            lemma_ram_index_injective(pre, a, addr);
            pre.lemma_ram_index_bounds_pub(a);
            pre.lemma_ram_index_bounds_pub(addr);
        }
        pre.lemma_ram_index_bounds_pub(a);
    }
}

/// Load a ROM image: 32 KiB or larger installs the 128K ROM pair, anything
/// else goes to main ROM bank 0.
pub fn load_rom(data: &Vec<u8>, mem: &mut Memory)
    requires
        old(mem).wf(),
    ensures
        final(mem).wf(),
        final(mem).ram@ == old(mem).ram@,
        data@.len() >= 2 * 16384 ==> final(mem).is_128k && forall|j: int|
            0 <= j < 2 * 16384 ==> final(mem).rom@[j] == data@[j],
        data@.len() <= 16384 ==> final(mem).is_128k == old(mem).is_128k && forall|j: int|
            0 <= j < data@.len() ==> final(mem).rom@[j] == data@[j],
{
    if data.len() >= 2 * 16384 {
        mem.load_rom_128k(data);
    } else {
        mem.load_rom(data, 0);
    }
}

} // verus!
