use zx_core::config::Config;
use zx_core::cpu::Z80;
use zx_core::memory::Memory;
use zx_core::snapshot::{
    encode_sna_header, load_rom, load_sna, load_snapshot, load_z80, SnapshotError, SnapshotFormat,
};

fn machine() -> (Z80, Memory) {
    (Z80::new(), Memory::new(Config::default()))
}

#[test]
fn test_sna_too_small_rejected() {
    let (mut cpu, mut mem) = machine();
    let r = load_sna(&vec![0u8; 100], &mut cpu, &mut mem);
    assert_eq!(r.err(), Some(SnapshotError::TooSmall));
    assert_eq!(cpu.pc, 0); // nothing was touched
}

#[test]
fn test_sna_load_registers_and_pc() {
    let (mut cpu, mut mem) = machine();
    let mut data = vec![0u8; 27 + 49152];
    data[0] = 0x3F; // I
    data[1] = 0x22; // HL' low
    data[2] = 0x11; // HL' high
    data[9] = 0x44; // HL low
    data[10] = 0x33; // HL high
    data[19] = 0x04; // IFF2 set
    data[20] = 0x55; // R
    data[21] = 0x66; // F
    data[22] = 0x77; // A
    data[23] = 0x00; // SP low
    data[24] = 0x80; // SP high -> SP = 0x8000
    data[25] = 0x01; // IM 1
    // the word at 0x8000 becomes PC: memory bytes start at offset 27
    data[27 + 0x4000] = 0x34; // address 0x8000
    data[27 + 0x4001] = 0x12; // address 0x8001
    let r = load_sna(&data, &mut cpu, &mut mem);
    assert!(r.is_ok());
    assert_eq!(cpu.i, 0x3F);
    assert_eq!(cpu.hl_prime, 0x1122);
    assert_eq!(cpu.hl, 0x3344);
    assert!(cpu.iff1 && cpu.iff2);
    assert_eq!(cpu.r, 0x55);
    assert_eq!(cpu.af, 0x7766);
    assert_eq!(cpu.im, 1);
    assert_eq!(cpu.pc, 0x1234);
    assert_eq!(cpu.sp, 0x8002);
    assert!(!cpu.halted);
    assert_eq!(mem.read(0x8000), 0x34);
}

#[test]
fn test_sna_header_round_trip() {
    // encode a register file, load it back, and compare
    let (mut cpu, mut mem) = machine();
    let mut saved = Z80::new();
    saved.af = 0x1234;
    saved.bc = 0x2345;
    saved.de = 0x3456;
    saved.hl = 0x4567;
    saved.af_prime = 0x5678;
    saved.bc_prime = 0x6789;
    saved.de_prime = 0x789A;
    saved.hl_prime = 0x89AB;
    saved.ix = 0x9ABC;
    saved.iy = 0xABCD;
    saved.sp = 0x9000;
    saved.i = 0x3F;
    saved.r = 0x55;
    saved.iff1 = true;
    saved.iff2 = true;
    saved.im = 2;
    let header = encode_sna_header(&saved, 3);
    assert_eq!(header.len(), 27);

    let mut image = header.clone();
    image.extend(std::iter::repeat(0u8).take(49152));
    let r = load_sna(&image, &mut cpu, &mut mem);
    assert!(r.is_ok());
    assert_eq!(cpu.af, saved.af);
    assert_eq!(cpu.bc, saved.bc);
    assert_eq!(cpu.de, saved.de);
    assert_eq!(cpu.hl, saved.hl);
    assert_eq!(cpu.af_prime, saved.af_prime);
    assert_eq!(cpu.bc_prime, saved.bc_prime);
    assert_eq!(cpu.de_prime, saved.de_prime);
    assert_eq!(cpu.hl_prime, saved.hl_prime);
    assert_eq!(cpu.ix, saved.ix);
    assert_eq!(cpu.iy, saved.iy);
    assert_eq!(cpu.i, saved.i);
    assert_eq!(cpu.r, saved.r);
    assert_eq!(cpu.iff1, saved.iff1);
    assert_eq!(cpu.iff2, saved.iff2);
    assert_eq!(cpu.im, saved.im);
    // SP rises by two through the PC pop
    assert_eq!(cpu.sp, saved.sp.wrapping_add(2));
}

#[test]
fn test_z80_v1_registers() {
    let (mut cpu, mut mem) = machine();
    let mut data = vec![0u8; 30];
    data[0] = 0x12; // A (stored high byte first)
    data[1] = 0x34; // F
    data[2] = 0x56; // C
    data[3] = 0x78; // B
    data[6] = 0x00; // PC low
    data[7] = 0x90; // PC high -> v1 with PC = 0x9000
    data[10] = 0x3F; // I
    data[11] = 0x2A; // R bits 0-6
    data[12] = 0x01; // R bit 7
    data[27] = 1; // IFF1
    data[28] = 1; // IFF2
    data[29] = 0x02; // IM 2
    let r = load_z80(&data, &mut cpu, &mut mem);
    assert!(r.is_ok());
    assert_eq!(cpu.af, 0x1234);
    assert_eq!(cpu.bc, 0x7856);
    assert_eq!(cpu.pc, 0x9000);
    assert_eq!(cpu.r, 0xAA);
    assert!(cpu.iff1 && cpu.iff2);
    assert_eq!(cpu.im, 2);
}

#[test]
fn test_z80_v1_compressed_memory() {
    let (mut cpu, mut mem) = machine();
    let mut data = vec![0u8; 30];
    data[7] = 0x90; // v1, PC = 0x9000
    data[12] = 0x20; // compressed flag
    // run of five 0x7E bytes at 0x4000, then a literal 0x55
    data.extend([0xED, 0xED, 0x05, 0x7E, 0x55]);
    let r = load_z80(&data, &mut cpu, &mut mem);
    assert!(r.is_ok());
    for k in 0..5u16 {
        assert_eq!(mem.read(0x4000 + k), 0x7E);
    }
    assert_eq!(mem.read(0x4005), 0x55);
}

#[test]
fn test_z80_too_small_rejected() {
    let (mut cpu, mut mem) = machine();
    let r = load_z80(&vec![0u8; 29], &mut cpu, &mut mem);
    assert_eq!(r.err(), Some(SnapshotError::TooSmall));
}

#[test]
fn test_load_snapshot_dispatch() {
    let (mut cpu, mut mem) = machine();
    assert!(load_snapshot(&vec![0u8; 10], SnapshotFormat::Sna, &mut cpu, &mut mem).is_err());
    assert!(load_snapshot(&vec![0u8; 30], SnapshotFormat::Z80, &mut cpu, &mut mem).is_ok());
}

#[test]
fn test_load_rom_sizes() {
    let (_, mut mem) = machine();
    // 16K image goes to main ROM 0
    let mut small = vec![0u8; 16384];
    small[0] = 0xAB;
    load_rom(&small, &mut mem);
    assert!(!mem.is_128k_mode());
    assert_eq!(mem.read(0x0000), 0xAB);
    // 32K image fills both main banks and selects 128K mode
    let mut big = vec![0u8; 32768];
    big[0] = 0x11;
    big[16384] = 0x22;
    load_rom(&big, &mut mem);
    assert!(mem.is_128k_mode());
    assert_eq!(mem.read(0x0000), 0x11);
    mem.write_7ffd(0x10); // select ROM 1
    assert_eq!(mem.read(0x0000), 0x22);
}
