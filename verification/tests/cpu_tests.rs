use zx_core::config::Config;
use zx_core::cpu::Z80;
use zx_core::fdc::FDC;
use zx_core::io::IoController;
use zx_core::keyboard::Keyboard;
use zx_core::memory::Memory;

fn machine() -> (Z80, Memory, IoController) {
    let config = Config::default();
    let mem = Memory::new(config);
    let kb = Keyboard::new();
    let fdc = FDC::new();
    let io = IoController::new(kb, fdc, config);
    (Z80::new(), mem, io)
}

#[test]
fn test_new_and_reset_state() {
    let (mut cpu, _, _) = machine();
    assert_eq!(cpu.af, 0xFFFF);
    assert_eq!(cpu.sp, 0xFFFF);
    assert_eq!(cpu.pc, 0);
    assert!(!cpu.iff1 && !cpu.iff2);
    assert_eq!(cpu.im, 0);
    cpu.bc = 0x1234;
    cpu.halted = true;
    cpu.reset();
    assert_eq!(cpu.bc, 0);
    assert!(!cpu.halted);
}

#[test]
fn test_and_flags_scenario() {
    // A=0xF0; AND 0x0F leaves A=0 with Z, H and PV (even parity) set
    let (mut cpu, mut mem, mut io) = machine();
    mem.write(0x8000, 0xE6); // AND n
    mem.write(0x8001, 0x0F);
    cpu.pc = 0x8000;
    cpu.set_a(0xF0);
    cpu.set_f(0x00);
    let cycles = cpu.execute(&mut mem, &mut io);
    assert_eq!(cycles, 7);
    assert_eq!(cpu.a(), 0x00);
    // S=0 Z=1 F5=0 H=1 F3=0 PV=1 N=0 C=0
    assert_eq!(cpu.f(), 0x54);
}

#[test]
fn test_block_move() {
    // LDIR moves 16 bytes of 0xAA from 0x4000 to 0x4100
    let (mut cpu, mut mem, mut io) = machine();
    for k in 0..16u16 {
        mem.write(0x4000 + k, 0xAA);
    }
    mem.write(0x8000, 0xED);
    mem.write(0x8001, 0xB0);
    cpu.pc = 0x8000;
    cpu.hl = 0x4000;
    cpu.de = 0x4100;
    cpu.bc = 0x0010;
    let mut steps = 0;
    while cpu.bc != 0 {
        cpu.execute(&mut mem, &mut io);
        steps += 1;
        assert!(steps <= 16);
    }
    for k in 0..16u16 {
        assert_eq!(mem.read(0x4100 + k), 0xAA);
    }
    assert_eq!(cpu.bc, 0);
    assert_eq!(cpu.hl, 0x4010);
    assert_eq!(cpu.de, 0x4110);
    assert_eq!(cpu.f() & 0x04, 0); // PV clear once BC is exhausted
    assert_eq!(cpu.pc, 0x8002);
}

#[test]
fn test_conditional_call_cycles() {
    // CALL Z,0x1234 at 0x0100: not taken costs 10 cycles, taken 17
    let (mut cpu, mut mem, mut io) = machine();
    let mut rom = vec![0u8; 16384];
    rom[0x0100] = 0xCC;
    rom[0x0101] = 0x34;
    rom[0x0102] = 0x12;
    mem.load_rom(&rom, 0);

    cpu.pc = 0x0100;
    cpu.sp = 0x8000;
    cpu.set_f(0x00); // Z = 0
    let c1 = cpu.execute(&mut mem, &mut io);
    assert_eq!(c1, 10);
    assert_eq!(cpu.pc, 0x0103);
    assert_eq!(cpu.sp, 0x8000);

    cpu.pc = 0x0100;
    cpu.set_f(0x40); // Z = 1
    let c2 = cpu.execute(&mut mem, &mut io);
    assert_eq!(c2, 17);
    assert_eq!(cpu.pc, 0x1234);
    assert_eq!(cpu.sp, 0x7FFE);
    assert_eq!(mem.read_word(0x7FFE), 0x0103);
}

#[test]
fn test_ex_af_twice_restores() {
    let (mut cpu, mut mem, mut io) = machine();
    mem.write(0x8000, 0x08);
    mem.write(0x8001, 0x08);
    cpu.pc = 0x8000;
    cpu.af = 0x1234;
    cpu.af_prime = 0x5678;
    cpu.execute(&mut mem, &mut io);
    assert_eq!(cpu.af, 0x5678);
    assert_eq!(cpu.af_prime, 0x1234);
    cpu.execute(&mut mem, &mut io);
    assert_eq!(cpu.af, 0x1234);
    assert_eq!(cpu.af_prime, 0x5678);
}

#[test]
fn test_exx_twice_restores() {
    let (mut cpu, mut mem, mut io) = machine();
    mem.write(0x8000, 0xD9);
    mem.write(0x8001, 0xD9);
    cpu.pc = 0x8000;
    cpu.bc = 0x1111;
    cpu.de = 0x2222;
    cpu.hl = 0x3333;
    cpu.bc_prime = 0x4444;
    cpu.de_prime = 0x5555;
    cpu.hl_prime = 0x6666;
    cpu.execute(&mut mem, &mut io);
    assert_eq!((cpu.bc, cpu.de, cpu.hl), (0x4444, 0x5555, 0x6666));
    cpu.execute(&mut mem, &mut io);
    assert_eq!((cpu.bc, cpu.de, cpu.hl), (0x1111, 0x2222, 0x3333));
    assert_eq!(
        (cpu.bc_prime, cpu.de_prime, cpu.hl_prime),
        (0x4444, 0x5555, 0x6666)
    );
}

#[test]
fn test_push_pop_round_trip() {
    // PUSH BC; POP DE leaves DE == BC and SP restored
    let (mut cpu, mut mem, mut io) = machine();
    mem.write(0x8000, 0xC5); // PUSH BC
    mem.write(0x8001, 0xD1); // POP DE
    cpu.pc = 0x8000;
    cpu.sp = 0x9000;
    cpu.bc = 0xBEEF;
    cpu.execute(&mut mem, &mut io);
    assert_eq!(cpu.sp, 0x8FFE);
    cpu.execute(&mut mem, &mut io);
    assert_eq!(cpu.de, 0xBEEF);
    assert_eq!(cpu.sp, 0x9000);
}

#[test]
fn test_overlay_trap() {
    // fetching at 0x3C00 activates the overlay ROM; a RET to 0x8000 ends it
    let (mut cpu, mut mem, mut io) = machine();
    let mut overlay = vec![0u8; 16384];
    overlay[0x3C00] = 0x76; // HALT, present only in the overlay image
    overlay[0x3C01] = 0xC9; // RET
    mem.load_trdos_rom(&overlay);
    assert!(!mem.is_trdos_rom_active());

    cpu.pc = 0x3C00;
    cpu.execute(&mut mem, &mut io);
    assert!(mem.is_trdos_rom_active());
    assert!(cpu.halted); // the fetched byte came from the overlay ROM

    cpu.halted = false;
    cpu.pc = 0x3C01;
    cpu.sp = 0x9000;
    mem.write_word(0x9000, 0x8000);
    cpu.execute(&mut mem, &mut io); // RET popping 0x8000
    assert_eq!(cpu.pc, 0x8000);
    assert!(!mem.is_trdos_rom_active());
}

#[test]
fn test_halt_consumes_four_cycles() {
    let (mut cpu, mut mem, mut io) = machine();
    mem.write(0x8000, 0x76);
    cpu.pc = 0x8000;
    cpu.execute(&mut mem, &mut io);
    assert!(cpu.halted);
    let before = cpu.cycles;
    let c = cpu.execute(&mut mem, &mut io);
    assert_eq!(c, 4);
    assert_eq!(cpu.pc, 0x8001); // PC does not advance while halted
    assert_eq!(cpu.cycles, before + 4);
}

#[test]
fn test_interrupt_im1() {
    let (mut cpu, mut mem, mut io) = machine();
    mem.write(0x8000, 0x76);
    cpu.pc = 0x8000;
    cpu.execute(&mut mem, &mut io);
    assert!(cpu.halted);
    cpu.iff1 = true;
    cpu.im = 1;
    cpu.sp = 0x9000;
    cpu.handle_interrupt(&mut mem);
    assert!(!cpu.halted);
    assert_eq!(cpu.pc, 0x0038);
    assert_eq!(mem.read_word(0x8FFE), 0x8001);
    assert!(!cpu.iff1 && !cpu.iff2);
}

#[test]
fn test_interrupt_im2_vector() {
    let (mut cpu, mut mem, _) = machine();
    cpu.pc = 0x8123;
    cpu.sp = 0x9000;
    cpu.iff1 = true;
    cpu.im = 2;
    cpu.i = 0x90;
    mem.write_word(0x90FF, 0x4567); // vector table entry at (I << 8) | 0xFF
    let before = cpu.cycles;
    cpu.handle_interrupt(&mut mem);
    assert_eq!(cpu.pc, 0x4567);
    assert_eq!(mem.read_word(0x8FFE), 0x8123);
    assert_eq!(cpu.cycles, before + 19);
}

#[test]
fn test_retn_restores_iff1() {
    let (mut cpu, mut mem, mut io) = machine();
    mem.write(0x8000, 0xED);
    mem.write(0x8001, 0x45); // RETN
    cpu.pc = 0x8000;
    cpu.sp = 0x9000;
    mem.write_word(0x9000, 0x8100);
    cpu.iff1 = false;
    cpu.iff2 = true;
    let c = cpu.execute(&mut mem, &mut io);
    assert_eq!(c, 14);
    assert!(cpu.iff1);
    assert_eq!(cpu.pc, 0x8100);
    assert_eq!(cpu.sp, 0x9002);
}

#[test]
fn test_interrupt_needs_iff1() {
    let (mut cpu, mut mem, _) = machine();
    cpu.pc = 0x8123;
    cpu.iff1 = false;
    cpu.handle_interrupt(&mut mem);
    assert_eq!(cpu.pc, 0x8123);
}

#[test]
fn test_nmi() {
    let (mut cpu, mut mem, _) = machine();
    cpu.pc = 0x8123;
    cpu.sp = 0x9000;
    cpu.iff1 = true;
    cpu.handle_nmi(&mut mem);
    assert_eq!(cpu.pc, 0x0066);
    assert!(cpu.iff2); // IFF1 saved into IFF2
    assert!(!cpu.iff1);
    assert_eq!(mem.read_word(0x8FFE), 0x8123);
}

#[test]
fn test_djnz_loop() {
    // DJNZ jumping back to itself: B counts down to zero
    let (mut cpu, mut mem, mut io) = machine();
    mem.write(0x8000, 0x10);
    mem.write(0x8001, 0xFE); // displacement -2
    cpu.pc = 0x8000;
    cpu.set_b(3);
    let c1 = cpu.execute(&mut mem, &mut io);
    assert_eq!(c1, 13);
    assert_eq!(cpu.pc, 0x8000);
    let c2 = cpu.execute(&mut mem, &mut io);
    assert_eq!(c2, 13);
    let c3 = cpu.execute(&mut mem, &mut io);
    assert_eq!(c3, 8); // B reached zero: fall through
    assert_eq!(cpu.pc, 0x8002);
    assert_eq!(cpu.b(), 0);
}

#[test]
fn test_indexed_load() {
    // LD (IX+5),n then LD A,(IX+5)
    let (mut cpu, mut mem, mut io) = machine();
    mem.write(0x8000, 0xDD);
    mem.write(0x8001, 0x36); // LD (IX+d),n
    mem.write(0x8002, 0x05);
    mem.write(0x8003, 0x77);
    mem.write(0x8004, 0xDD);
    mem.write(0x8005, 0x7E); // LD A,(IX+d)
    mem.write(0x8006, 0x05);
    cpu.pc = 0x8000;
    cpu.ix = 0x4000;
    let c1 = cpu.execute(&mut mem, &mut io);
    assert_eq!(c1, 19);
    assert_eq!(mem.read(0x4005), 0x77);
    cpu.execute(&mut mem, &mut io);
    assert_eq!(cpu.a(), 0x77);
}

#[test]
fn test_cb_set_and_bit() {
    // SET 3,B then BIT 3,B
    let (mut cpu, mut mem, mut io) = machine();
    mem.write(0x8000, 0xCB);
    mem.write(0x8001, 0xD8); // SET 3,B
    mem.write(0x8002, 0xCB);
    mem.write(0x8003, 0x58); // BIT 3,B
    cpu.pc = 0x8000;
    cpu.set_b(0);
    cpu.execute(&mut mem, &mut io);
    assert_eq!(cpu.b(), 0x08);
    cpu.execute(&mut mem, &mut io);
    assert_eq!(cpu.f() & 0x40, 0); // bit set: Z clear
}

#[test]
fn test_out_uses_a_in_high_port_byte() {
    // OUT (n),A drives A onto the high port byte: A=0x7F, n=0xFD hits the
    // paging port under partial decoding (0x7FFD)
    let (mut cpu, mut mem, mut io) = machine();
    mem.write(0x8000, 0xD3);
    mem.write(0x8001, 0xFD);
    cpu.pc = 0x8000;
    cpu.set_a(0x07);
    // port is 0x07FD: bit 15 and bit 1 are 0 under Pentagon decoding
    cpu.execute(&mut mem, &mut io);
    assert_eq!(mem.get_bank_at_slot_3(), 7);
    assert_eq!(io.last_7ffd, 0x07);
}

#[test]
fn test_run_reaches_target_cycles() {
    let (mut cpu, mut mem, mut io) = machine();
    // NOPs everywhere in RAM; run for at least 100 cycles
    cpu.pc = 0x8000;
    let start = cpu.cycles;
    cpu.run(&mut mem, &mut io, 100);
    assert!(cpu.cycles - start >= 100);
}

#[test]
fn test_add_a_sets_carry_and_half() {
    let (mut cpu, mut mem, mut io) = machine();
    mem.write(0x8000, 0xC6); // ADD A,n
    mem.write(0x8001, 0x01);
    cpu.pc = 0x8000;
    cpu.set_a(0xFF);
    cpu.set_f(0x00);
    cpu.execute(&mut mem, &mut io);
    assert_eq!(cpu.a(), 0x00);
    // Z, H and C set; no overflow, no sign
    assert_eq!(cpu.f(), 0x51);
}

#[test]
fn test_rst_and_ret() {
    let (mut cpu, mut mem, mut io) = machine();
    mem.write(0x8000, 0xEF); // RST 28
    cpu.pc = 0x8000;
    cpu.sp = 0x9000;
    let c = cpu.execute(&mut mem, &mut io);
    assert_eq!(c, 11);
    assert_eq!(cpu.pc, 0x0028);
    assert_eq!(mem.read_word(0x8FFE), 0x8001);
}
