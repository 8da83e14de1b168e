use lumiemu::ppu::{Ppu, CTRL_BG_PATTERN, CTRL_NAMETABLE_X, CTRL_NMI_ENABLE, CTRL_SPRITE_PATTERN};

#[test]
fn test_ppu_creation() {
    let ppu = Ppu::new();
    assert_eq!(ppu.scanline, 0);
    assert_eq!(ppu.cycle, 0);
    assert_eq!(ppu.frame, 0);
}

#[test]
fn test_ppuctrl_write() {
    let mut ppu = Ppu::new();
    ppu.write_register(0x2000, 0b10011001);

    assert!(ppu.ctrl & CTRL_NMI_ENABLE != 0);
    assert!(ppu.ctrl & CTRL_BG_PATTERN != 0);
    assert!(ppu.ctrl & CTRL_SPRITE_PATTERN != 0);
    assert!(ppu.ctrl & CTRL_NAMETABLE_X != 0);
}

#[test]
fn test_ppustatus_read() {
    let mut ppu = Ppu::new();
    ppu.status.vblank = true;

    let status = ppu.read_register(0x2002);
    assert_eq!(status & 0x80, 0x80); // VBlank bit set

    // Reading should clear VBlank
    let status = ppu.read_register(0x2002);
    assert_eq!(status & 0x80, 0x00); // VBlank bit cleared
}

#[test]
fn test_oam_write() {
    let mut ppu = Ppu::new();
    ppu.write_register(0x2003, 0x10); // OAMADDR = 0x10
    ppu.write_register(0x2004, 0x42); // Write to OAM

    assert_eq!(ppu.oam[0x10], 0x42);
    assert_eq!(ppu.oam_addr, 0x11); // Auto-incremented
}

#[test]
fn test_vram_address_write() {
    let mut ppu = Ppu::new();

    // Write high byte
    ppu.write_register(0x2006, 0x20);
    assert!(ppu.write_latch); // Should be true after first write

    // Write low byte
    ppu.write_register(0x2006, 0x00);
    assert_eq!(ppu.vram_addr, 0x2000);
    assert!(!ppu.write_latch); // Should be false after second write
}

#[test]
fn test_vblank_timing() {
    let mut ppu = Ppu::new();

    // Run to scanline 241
    for _ in 0..241 {
        for _ in 0..341 {
            ppu.tick();
        }
    }

    // Should enter VBlank
    ppu.tick(); // Cycle 1 of scanline 241
    assert!(ppu.status.vblank);
}

#[test]
fn test_vblank_cleared_on_prerender() {
    let mut ppu = Ppu::new();
    // Run to scanline 261 dot 1 and check VBlank is gone again.
    for _ in 0..261 {
        for _ in 0..341 {
            ppu.tick();
        }
    }
    assert!(ppu.status.vblank); // still inside VBlank on line 261 dot 0
    ppu.tick(); // dot 1 of the pre-render line
    assert_eq!(ppu.scanline, 261);
    assert_eq!(ppu.cycle, 1);
    assert!(!ppu.status.vblank);
    assert!(!ppu.nmi_interrupt);
}

#[test]
fn test_nmi_raised_when_enabled() {
    let mut ppu = Ppu::new();
    ppu.write_register(0x2000, 0x80); // NMI enable
    for _ in 0..241 {
        for _ in 0..341 {
            ppu.tick();
        }
    }
    ppu.tick();
    assert_eq!(ppu.scanline, 241);
    assert_eq!(ppu.cycle, 1);
    assert!(ppu.status.vblank);
    assert!(ppu.nmi_interrupt);
}

#[test]
fn test_palette_mirror_write() {
    let mut ppu = Ppu::new();
    // Point v at $3F10 and write: the value must land at $3F00.
    ppu.write_register(0x2006, 0x3F);
    ppu.write_register(0x2006, 0x10);
    ppu.write_register(0x2007, 0x2A);
    assert_eq!(ppu.read_palette_direct(0x00), 0x2A);
    // The same for $3F14 -> $3F04.
    ppu.write_register(0x2006, 0x3F);
    ppu.write_register(0x2006, 0x14);
    ppu.write_register(0x2007, 0x1B);
    assert_eq!(ppu.read_palette_direct(0x04), 0x1B);
}

#[test]
fn test_ppudata_buffered_read() {
    let mut ppu = Ppu::new();
    // Write $77 at $2000 (nametable RAM).
    ppu.write_register(0x2006, 0x20);
    ppu.write_register(0x2006, 0x00);
    ppu.write_register(0x2007, 0x77);
    // Point back and read twice: first is the stale buffer, then $77.
    ppu.write_register(0x2006, 0x20);
    ppu.write_register(0x2006, 0x00);
    let first = ppu.read_register(0x2007);
    assert_eq!(first, 0x00);
    let second = ppu.read_register(0x2007);
    assert_eq!(second, 0x77);
}
