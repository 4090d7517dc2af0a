use zx_core::config::{Config, MemorySize, OverlayIoMode, PortDecoding};
use zx_core::fdc::FDC;
use zx_core::graphics::{palette_color, Graphics, WINDOW_HEIGHT, WINDOW_WIDTH};
use zx_core::io::IoController;
use zx_core::keyboard::Keyboard;
use zx_core::memory::Memory;

fn router(config: Config) -> (IoController, Memory) {
    let mem = Memory::new(config);
    let kb = Keyboard::new();
    let fdc = FDC::new();
    (IoController::new(kb, fdc, config), mem)
}

#[test]
fn test_screen_address() {
    // First line, first byte
    assert_eq!(Graphics::screen_address(0, 0), 0);
    // First line, second byte
    assert_eq!(Graphics::screen_address(1, 0), 1);
    // Second line (should be at offset 256)
    assert_eq!(Graphics::screen_address(0, 1), 256);
    // Line 8 (first of second character row)
    assert_eq!(Graphics::screen_address(0, 8), 32);
}

#[test]
fn test_border_write_and_floating_bus() {
    let (mut io, mut mem) = router(Config::default());
    io.write(0x00FE, 0x35, &mut mem);
    assert_eq!(io.get_border_color(), 0x05); // low three bits only
    // unattached port reads as the floating bus
    assert_eq!(io.read(0x0011, &mut mem), 0xFF);
    io.reset();
    assert_eq!(io.get_border_color(), 0);
}

#[test]
fn test_keyboard_via_port() {
    let (mut io, mut mem) = router(Config::default());
    io.keyboard.update(&vec![(0u8, 0u8)]); // CAPS SHIFT down
    // row 0 selected through A8 low
    assert_eq!(io.read(0xFEFE, &mut mem), 0x1E);
    // no row selected
    assert_eq!(io.read(0xFFFE, &mut mem), 0x1F);
    // a different row sees no key
    assert_eq!(io.read(0xFDFE, &mut mem), 0x1F);
}

#[test]
fn test_paging_through_router() {
    let (mut io, mut mem) = router(Config::default());
    io.write(0x7FFD, 0x03, &mut mem);
    assert_eq!(mem.get_bank_at_slot_3(), 3);
    assert_eq!(io.last_7ffd, 0x03);
    // partial decoding matches any port with bits 15 and 1 low
    io.write(0x3FFD, 0x05, &mut mem);
    assert_eq!(mem.get_bank_at_slot_3(), 5);
}

#[test]
fn test_full_decoding_requires_exact_port() {
    let config = Config {
        port_decoding: PortDecoding::Full,
        memory_size: MemorySize::K128,
        overlay_io: OverlayIoMode::Passive,
    };
    let (mut io, mut mem) = router(config);
    io.write(0x3FFD, 0x05, &mut mem); // not 0x7FFD: ignored
    assert_eq!(mem.get_bank_at_slot_3(), 0);
    io.write(0x7FFD, 0x05, &mut mem);
    assert_eq!(mem.get_bank_at_slot_3(), 5);
}

#[test]
fn test_router_lock_stops_paging() {
    let (mut io, mut mem) = router(Config::default());
    io.write(0x7FFD, 0x27, &mut mem); // bank 7 plus lock
    assert_eq!(mem.get_bank_at_slot_3(), 7);
    io.write(0x7FFD, 0x00, &mut mem);
    assert_eq!(mem.get_bank_at_slot_3(), 7); // still locked
}

#[test]
fn test_fdc_through_router() {
    let (mut io, mut mem) = router(Config::default());
    io.write(0x003F, 9, &mut mem); // track register
    assert_eq!(io.read(0x003F, &mut mem), 9);
    io.write(0x005F, 5, &mut mem); // sector register
    assert_eq!(io.read(0x005F, &mut mem), 5);
    // status read reports NOT_READY with no disk and motor off
    let status = io.read(0x001F, &mut mem);
    assert_ne!(status & 0x80, 0);
}

#[test]
fn test_strict_overlay_io_mode() {
    let config = Config {
        port_decoding: PortDecoding::Partial,
        memory_size: MemorySize::K128,
        overlay_io: OverlayIoMode::Strict,
    };
    let (mut io, mut mem) = router(config);
    mem.load_trdos_rom(&vec![0u8; 16384]);
    // an FDC access maps the overlay in
    io.read(0x001F, &mut mem);
    assert!(mem.is_trdos_rom_active());
    // any other I/O access maps it out again
    io.read(0x0011, &mut mem);
    assert!(!mem.is_trdos_rom_active());
}

#[test]
fn test_graphics_new_and_palette() {
    let g = Graphics::new();
    assert_eq!(g.get_buffer().len(), WINDOW_WIDTH * WINDOW_HEIGHT);
    assert_eq!(palette_color(0), 0xFF000000);
    assert_eq!(palette_color(7), 0xFFD7D7D7);
    assert_eq!(palette_color(15), 0xFFFFFFFF);
    assert_eq!(palette_color(8), palette_color(0)); // bright black is black
}

#[test]
fn test_render_border_and_pixels() {
    let mut g = Graphics::new();
    let mut mem = Memory::new(Config::default());
    // ink-white cell at the top-left, leftmost pixel set
    mem.write(0x4000, 0x80);
    mem.write(0x4000 + 6144, 0x07); // ink 7, paper 0
    g.set_border(2);
    g.render(&mem);
    let buf = g.get_buffer();
    // corner pixel shows the border colour
    assert_eq!(buf[0], palette_color(2));
    // first screen pixel is ink white, its neighbour paper black
    let first = 32 * WINDOW_WIDTH + 32;
    assert_eq!(buf[first], palette_color(7));
    assert_eq!(buf[first + 1], palette_color(0));
}

#[test]
fn test_flash_toggles_every_16_frames() {
    let mut g = Graphics::new();
    let mem = Memory::new(Config::default());
    assert!(!g.flash_state);
    for _ in 0..15 {
        g.render(&mem);
        assert!(!g.flash_state);
    }
    g.render(&mem);
    assert!(g.flash_state);
    g.reset();
    assert!(!g.flash_state);
}

#[test]
fn test_keyboard_matrix_rows() {
    let mut kb = Keyboard::new();
    // ENTER is row 6 column 0; SPACE row 7 column 0
    kb.update(&vec![(6u8, 0u8), (7u8, 4u8)]);
    assert!(kb.is_key_pressed(6, 0));
    assert!(kb.is_key_pressed(7, 4));
    assert!(!kb.is_key_pressed(0, 0));
    assert_eq!(kb.read(0xBFFE), 0x1E); // row 6 selected
    assert_eq!(kb.read(0x7FFE), 0x0F); // row 7: bit 4 cleared
    // out-of-range presses are ignored, and update replaces the old state
    kb.update(&vec![(9u8, 0u8), (0u8, 7u8)]);
    assert!(!kb.is_key_pressed(6, 0));
    assert!(!kb.is_key_pressed(9, 0));
    kb.reset();
    assert_eq!(kb.read(0x00FE), 0x1F);
}
