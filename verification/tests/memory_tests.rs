use zx_core::config::{Config, MemorySize, OverlayIoMode, PortDecoding};
use zx_core::memory::Memory;

fn default_memory() -> Memory {
    Memory::new(Config::default())
}

#[test]
fn test_memory_read_write() {
    let mut mem = default_memory();
    mem.write(0x4000, 0x42);
    assert_eq!(mem.read(0x4000), 0x42);
}

#[test]
fn test_word_read_write() {
    let mut mem = default_memory();
    mem.write_word(0x8000, 0x1234);
    assert_eq!(mem.read_word(0x8000), 0x1234);
}

#[test]
fn test_bank_switching() {
    let mut mem = default_memory();
    mem.write(0xC000, 0x11); // bank 0
    mem.write_7ffd(0x01); // switch to bank 1
    mem.write(0xC000, 0x22); // bank 1

    mem.write_7ffd(0x00); // back to bank 0
    assert_eq!(mem.read(0xC000), 0x11);

    mem.write_7ffd(0x01); // back to bank 1
    assert_eq!(mem.read(0xC000), 0x22);
}

#[test]
fn test_rom_write_ignored() {
    let mut mem = default_memory();
    mem.write(0x0100, 0xAB);
    assert_eq!(mem.read(0x0100), 0x00);
    // every RAM address reads back what was written
    for addr in [0x4000u16, 0x7FFF, 0x8000, 0xBFFF, 0xC000, 0xFFFF] {
        mem.write(addr, 0x5C);
        assert_eq!(mem.read(addr), 0x5C);
    }
}

#[test]
fn test_paging_lock() {
    // bank 7 for slot 3 plus the lock bit: later writes must change nothing
    let mut mem = default_memory();
    mem.write_7ffd(0x27);
    assert_eq!(mem.get_bank_at_slot_3(), 7);
    assert!(mem.is_paging_disabled());
    mem.write_7ffd(0x00);
    assert_eq!(mem.get_bank_at_slot_3(), 7);
    assert!(mem.is_paging_disabled());
    // reset unlocks again
    mem.reset();
    assert!(!mem.is_paging_disabled());
    mem.write_7ffd(0x03);
    assert_eq!(mem.get_bank_at_slot_3(), 3);
}

#[test]
fn test_paging_fields() {
    let mut mem = default_memory();
    mem.write_7ffd(0x18);
    assert_eq!(mem.get_screen_bank(), 7);
    assert_eq!(mem.get_current_rom(), 1);
    assert_eq!(mem.get_bank_at_slot_3(), 0);
    assert!(!mem.is_paging_disabled());
}

#[test]
fn test_512k_bank_extension() {
    let config = Config {
        port_decoding: PortDecoding::Partial,
        memory_size: MemorySize::K512,
        overlay_io: OverlayIoMode::Passive,
    };
    let mut mem = Memory::new(config);
    // bits 6 and 7 widen the bank index on 512K machines
    mem.write_7ffd(0xC1);
    assert_eq!(mem.get_bank_at_slot_3(), 1 + 8 + 16);
    mem.write(0xC000, 0x77);
    assert_eq!(mem.read(0xC000), 0x77);
    mem.write_7ffd(0x01);
    assert_eq!(mem.get_bank_at_slot_3(), 1);
}

#[test]
fn test_overlay_rom_mapping() {
    let mut mem = default_memory();
    let mut main_rom = vec![0u8; 16384];
    main_rom[0x100] = 0x11;
    let mut overlay = vec![0u8; 16384];
    overlay[0x100] = 0x22;
    mem.load_rom(&main_rom, 0);
    mem.load_trdos_rom(&overlay);
    assert!(mem.is_trdos_rom_loaded());
    assert!(!mem.is_trdos_rom_active());
    assert_eq!(mem.read(0x0100), 0x11);
    mem.enable_trdos_rom();
    assert!(mem.is_trdos_rom_active());
    assert_eq!(mem.read(0x0100), 0x22);
    mem.disable_trdos_rom();
    assert_eq!(mem.read(0x0100), 0x11);
    // reset keeps the overlay image loaded but deactivates it
    mem.enable_trdos_rom();
    mem.reset();
    assert!(mem.is_trdos_rom_loaded());
    assert!(!mem.is_trdos_rom_active());
}

#[test]
fn test_screen_data() {
    let mut mem = default_memory();
    mem.write(0x4000, 0xAA);
    mem.write(0x4000 + 6911, 0x55);
    let screen = mem.get_screen_data();
    assert_eq!(screen.len(), 6912);
    assert_eq!(screen[0], 0xAA);
    assert_eq!(screen[6911], 0x55);
    assert_eq!(mem.get_screen_base(), 5 * 16384);
}
