use lumiemu::memory::NesMemory;

#[test]
fn test_ram_basic_readwrite() {
    let mut mem = NesMemory::new();

    mem.write(0x0000, 0x42);
    assert_eq!(mem.read(0x0000), 0x42);

    mem.write(0x07FF, 0x99);
    assert_eq!(mem.read(0x07FF), 0x99);
}

#[test]
fn test_ram_mirroring() {
    let mut mem = NesMemory::new();

    // Write to $0000, should be mirrored at $0800, $1000, $1800
    mem.write(0x0000, 0x42);
    assert_eq!(mem.read(0x0800), 0x42);
    assert_eq!(mem.read(0x1000), 0x42);
    assert_eq!(mem.read(0x1800), 0x42);

    // Write to $0234 (via mirror $1234), should be readable at all mirrors
    mem.write(0x1234, 0x99);
    assert_eq!(mem.read(0x0234), 0x99); // Original
    assert_eq!(mem.read(0x0A34), 0x99); // Mirror in $0800 range
    assert_eq!(mem.read(0x1A34), 0x99); // Mirror in $1800 range
}

#[test]
fn test_ppu_register_mirroring() {
    let mut mem = NesMemory::new();

    // PPU has 8 registers, mirrored throughout $2000-$3FFF
    // Test with $2004 (OAMDATA) which is read/write
    mem.write(0x2003, 0x00); // Set OAMADDR to 0
    mem.write(0x2004, 0x42); // Write to OAM
    mem.write(0x2003, 0x00); // Reset OAMADDR
    assert_eq!(mem.read(0x2004), 0x42); // Read from $2004
    assert_eq!(mem.read(0x200C), 0x42); // Mirror at $200C
    assert_eq!(mem.read(0x3004), 0x42); // Mirror at $3004
}

#[test]
fn test_cartridge_16kb() {
    let mut mem = NesMemory::new();

    // Load 16KB ROM
    let rom = vec![0x42; 0x4000];
    mem.load_prg_rom(rom);

    // Read from $8000-$BFFF
    assert_eq!(mem.read(0x8000), 0x42);
    assert_eq!(mem.read(0xBFFF), 0x42);

    // $C000-$FFFF should mirror $8000-$BFFF
    assert_eq!(mem.read(0xC000), 0x42);
    assert_eq!(mem.read(0xFFFF), 0x42);
}

#[test]
fn test_cartridge_32kb() {
    let mut mem = NesMemory::new();

    // Load 32KB ROM with different patterns in each half
    let mut rom = vec![0x11; 0x4000];
    rom.extend(vec![0x22; 0x4000]);
    mem.load_prg_rom(rom);

    // First 16KB
    assert_eq!(mem.read(0x8000), 0x11);
    assert_eq!(mem.read(0xBFFF), 0x11);

    // Second 16KB
    assert_eq!(mem.read(0xC000), 0x22);
    assert_eq!(mem.read(0xFFFF), 0x22);
}

#[test]
fn test_oam_dma_copies_page() {
    let mut mem = NesMemory::new();
    // Fill RAM page $0300 with a recognizable pattern.
    for i in 0..256u16 {
        mem.write(0x0300 + i, i as u8);
    }
    mem.write(0x2003, 0x00); // OAMADDR = 0
    mem.write(0x4014, 0x03); // DMA from page $03
    for i in 0..256usize {
        assert_eq!(mem.ppu.oam[i], i as u8);
    }
    assert_eq!(mem.take_dma_stall(), 513);
    assert_eq!(mem.take_dma_stall(), 0);
}

#[test]
fn test_journal_records_accesses() {
    let mut mem = NesMemory::new();
    mem.set_journal_enabled(true);
    mem.write(0x0010, 0x55);
    let _ = mem.read(0x0010);
    let accesses = mem.take_accesses();
    assert_eq!(accesses.len(), 2);
    assert_eq!(accesses[0].address, 0x0010);
    assert_eq!(accesses[0].value, 0x55);
    assert_eq!(accesses[0].old_value, Some(0x00));
    assert_eq!(accesses[1].address, 0x0010);
    assert_eq!(accesses[1].value, 0x55);
    assert_eq!(accesses[1].old_value, None);
}

#[test]
fn test_open_bus_regions() {
    let mut mem = NesMemory::new();
    assert_eq!(mem.read(0x4018), 0xFF); // disabled I/O region
    assert_eq!(mem.read(0x5000), 0xFF); // cartridge space, nothing loaded
    assert_eq!(mem.read(0x4000), 0x00); // write-only APU register
}
