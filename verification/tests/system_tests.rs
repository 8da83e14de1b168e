use lumiemu::controller::{BUTTON_A, BUTTON_START};
use lumiemu::error::EmulatorError;
use lumiemu::system::NesSystem;

/// A 16 KiB NOP-filled PRG image whose reset vector points at $8000.
fn nop_prg() -> Vec<u8> {
    let mut prg_rom = vec![0xEA; 0x4000];
    prg_rom[0x3FFC] = 0x00;
    prg_rom[0x3FFD] = 0x80;
    prg_rom
}

#[test]
fn test_system_creation() {
    // Create a simple test ROM
    let mut prg_rom = vec![0xEA; 0x4000]; // NOP instructions

    // Set reset vector to $8000
    prg_rom[0x3FFC] = 0x00;
    prg_rom[0x3FFD] = 0x80;

    let system = NesSystem::with_prg_rom(prg_rom).unwrap();

    // CPU should have initialized with PC at reset vector
    assert_eq!(system.cpu().pc, 0x8000);
}

#[test]
fn test_system_step() {
    // Create a simple program
    let mut prg_rom = vec![0xEA; 0x4000];

    // Program: LDA #$42, STA $00
    prg_rom[0] = 0xA9; // LDA #$42
    prg_rom[1] = 0x42;
    prg_rom[2] = 0x85; // STA $00
    prg_rom[3] = 0x00;

    // Reset vector
    prg_rom[0x3FFC] = 0x00;
    prg_rom[0x3FFD] = 0x80;

    let mut system = NesSystem::with_prg_rom(prg_rom).unwrap();

    // Step twice
    system.step().unwrap();
    assert_eq!(system.cpu().a, 0x42);

    system.step().unwrap();
    assert_eq!(system.read_memory(0x00), 0x42);
}

#[test]
fn test_lda_immediate_at_reset_vector() {
    let mut prg_rom = nop_prg();
    prg_rom[0] = 0xA9; // LDA #$42
    prg_rom[1] = 0x42;
    prg_rom[2] = 0x00; // BRK padding byte per the scenario
    let mut system = NesSystem::with_prg_rom(prg_rom).unwrap();
    let cycles = system.step().unwrap();
    assert_eq!(system.cpu().a, 0x42);
    assert_eq!(system.cpu().pc, 0x8002);
    assert_eq!(cycles, 2);
    assert!(!system.cpu().status.zero);
    assert!(!system.cpu().status.negative);
}

#[test]
fn test_adc_carry_chain() {
    let mut prg_rom = nop_prg();
    prg_rom[0] = 0xA9; // LDA #$FF
    prg_rom[1] = 0xFF;
    prg_rom[2] = 0x69; // ADC #$02
    prg_rom[3] = 0x02;
    let mut system = NesSystem::with_prg_rom(prg_rom).unwrap();
    system.step().unwrap();
    system.step().unwrap();
    assert_eq!(system.cpu().a, 0x01);
    assert!(system.cpu().status.carry);
    assert!(!system.cpu().status.negative);
    assert!(!system.cpu().status.zero);
}

#[test]
fn test_adc_overflow_flags() {
    // ADC of $7F + $01 with Carry clear sets Overflow and Negative,
    // clears Carry.
    let mut prg_rom = nop_prg();
    prg_rom[0] = 0xA9; // LDA #$7F
    prg_rom[1] = 0x7F;
    prg_rom[2] = 0x69; // ADC #$01
    prg_rom[3] = 0x01;
    let mut system = NesSystem::with_prg_rom(prg_rom).unwrap();
    system.step().unwrap();
    system.step().unwrap();
    assert_eq!(system.cpu().a, 0x80);
    assert!(system.cpu().status.overflow);
    assert!(system.cpu().status.negative);
    assert!(!system.cpu().status.carry);
}

/// A flat 64 KiB memory for scenarios that place code where the NES
/// bus would mirror RAM.
struct FlatMemory {
    ram: Vec<u8>,
}

impl lumiemu::cpu::CpuMemory for FlatMemory {
    fn inv(&self) -> bool {
        true
    }
    fn peek(&self, addr: u16) -> u8 {
        self.ram[addr as usize]
    }
    fn read_stable(_addr: u16) -> bool {
        true
    }
    fn write_rel(_pre: Self, _post: Self, _addr: u16, _value: u8) -> bool {
        true
    }
    fn clock(&self) -> (u64, u64) {
        (0, 0)
    }
    fn read(&mut self, addr: u16) -> u8 {
        self.ram[addr as usize]
    }
    fn write(&mut self, addr: u16, value: u8) {
        self.ram[addr as usize] = value;
    }
}

#[test]
fn test_subroutine_roundtrip() {
    // Program at $0000: JSR $1000; at $1000: RTS.
    let mut memory = FlatMemory { ram: vec![0; 0x10000] };
    memory.ram[0x0000] = 0x20; // JSR $1000
    memory.ram[0x0001] = 0x00;
    memory.ram[0x0002] = 0x10;
    memory.ram[0x1000] = 0x60; // RTS
    let mut cpu = lumiemu::cpu::Cpu6502::new(memory);
    cpu.pc = 0x0000;
    let sp0 = cpu.sp;
    cpu.step().unwrap(); // JSR
    assert_eq!(cpu.pc, 0x1000);
    cpu.step().unwrap(); // RTS
    assert_eq!(cpu.pc, 0x0003);
    assert_eq!(cpu.sp, sp0);
}

#[test]
fn test_nrom_16k_mirroring() {
    let mut prg_rom = vec![0x42; 0x4000];
    prg_rom[0x3FFC] = 0x00;
    prg_rom[0x3FFD] = 0x80;
    let mut system = NesSystem::with_prg_rom(prg_rom).unwrap();
    assert_eq!(system.read_memory(0x8000), 0x42);
    assert_eq!(system.read_memory(0xBFFF), 0x42);
    assert_eq!(system.read_memory(0xC000), 0x42);
    assert_eq!(system.read_memory(0xFFFF), 0x42);
}

#[test]
fn test_indirect_jmp_page_wrap_bug() {
    // JMP ($02FF) must take its high byte from $0200, not $0300.
    let mut system = NesSystem::with_prg_rom(nop_prg()).unwrap();
    system.cpu.memory.write(0x02FF, 0x34); // pointer low byte
    system.cpu.memory.write(0x0200, 0x12); // high byte, same page
    system.cpu.memory.write(0x0300, 0x56); // would be used without the bug
    system.cpu.memory.write(0x0000, 0x6C); // JMP ($02FF)
    system.cpu.memory.write(0x0001, 0xFF);
    system.cpu.memory.write(0x0002, 0x02);
    system.cpu.pc = 0x0000;
    system.step().unwrap();
    assert_eq!(system.cpu().pc, 0x1234);
}

#[test]
fn test_branch_page_cross_cycles() {
    // A taken branch across a page boundary costs 4 cycles; not taken
    // costs 2.
    let mut system = NesSystem::with_prg_rom(nop_prg()).unwrap();
    system.cpu.memory.write(0x00F0, 0xD0); // BNE +$20
    system.cpu.memory.write(0x00F1, 0x20);
    system.cpu.pc = 0x00F0;
    system.cpu.status.zero = false; // taken
    let cycles = system.step().unwrap();
    assert_eq!(system.cpu().pc, 0x0112);
    assert_eq!(cycles, 4);

    system.cpu.memory.write(0x0200, 0xD0); // BNE, not taken this time
    system.cpu.memory.write(0x0201, 0x20);
    system.cpu.pc = 0x0200;
    system.cpu.status.zero = true;
    let cycles = system.step().unwrap();
    assert_eq!(system.cpu().pc, 0x0202);
    assert_eq!(cycles, 2);
}

#[test]
fn test_horizontal_mirror_nametable() {
    // Write $5A at $2000; with horizontal mirroring $2400 shows it and
    // $2800 shows the default 0.
    let mut system = NesSystem::with_prg_rom(nop_prg()).unwrap();
    let mem = &mut system.cpu.memory;
    mem.write(0x2006, 0x20);
    mem.write(0x2006, 0x00);
    mem.write(0x2007, 0x5A);

    mem.write(0x2006, 0x24);
    mem.write(0x2006, 0x00);
    let _prime = mem.read(0x2007); // dummy read primes the buffer
    assert_eq!(mem.read(0x2007), 0x5A);

    mem.write(0x2006, 0x28);
    mem.write(0x2006, 0x00);
    let _prime = mem.read(0x2007);
    assert_eq!(mem.read(0x2007), 0x00);
}

#[test]
fn test_controller_latch() {
    // Latch A|START, then shift out eight bits LSB-first; later reads
    // return the open-bus fill bit.
    let mut system = NesSystem::with_prg_rom(nop_prg()).unwrap();
    system.press_button(BUTTON_A);
    system.press_button(BUTTON_START);
    system.cpu.memory.write(0x4016, 1);
    system.cpu.memory.write(0x4016, 0);
    let expected = [1u8, 0, 0, 1, 0, 0, 0, 0];
    for &bit in expected.iter() {
        assert_eq!(system.read_memory(0x4016) & 1, bit);
    }
    for _ in 0..4 {
        assert_eq!(system.read_memory(0x4016) & 1, 1);
    }
}

#[test]
fn test_run_frame_cycle_budget() {
    let mut system = NesSystem::with_prg_rom(nop_prg()).unwrap();
    let before = system.cpu().cycles;
    system.run_frame().unwrap();
    let delta = system.cpu().cycles - before;
    assert!(delta >= 29780);
    assert!(delta < 29780 + 520);
    assert_eq!(system.frame(), 1);
}

#[test]
fn test_double_reset_identical() {
    let mut system = NesSystem::with_prg_rom(nop_prg()).unwrap();
    for _ in 0..10 {
        system.step().unwrap();
    }
    system.reset();
    let cpu1 = (
        system.cpu().a,
        system.cpu().x,
        system.cpu().y,
        system.cpu().sp,
        system.cpu().pc,
        system.cpu().status,
        system.cpu().cycles,
    );
    let ppu1 = (system.ppu().scanline, system.ppu().cycle, system.ppu().ctrl);
    let apu1 = (system.apu().cycle, system.apu().frame_step);
    system.reset();
    let cpu2 = (
        system.cpu().a,
        system.cpu().x,
        system.cpu().y,
        system.cpu().sp,
        system.cpu().pc,
        system.cpu().status,
        system.cpu().cycles,
    );
    let ppu2 = (system.ppu().scanline, system.ppu().cycle, system.ppu().ctrl);
    let apu2 = (system.apu().cycle, system.apu().frame_step);
    assert_eq!(cpu1, cpu2);
    assert_eq!(ppu1, ppu2);
    assert_eq!(apu1, apu2);
}

#[test]
fn test_framebuffer_shape_after_frame() {
    let mut system = NesSystem::with_prg_rom(nop_prg()).unwrap();
    system.cpu.memory.write(0x2001, 0x08); // show background
    system.run_frame().unwrap();
    let fb = system.framebuffer();
    assert_eq!(fb.len(), 256 * 240);
    assert!(fb.iter().all(|&b| b <= 0x3F));
}

#[test]
fn test_invalid_opcode_error() {
    let mut system = NesSystem::with_prg_rom(nop_prg()).unwrap();
    system.cpu.memory.write(0x0000, 0x02); // no documented opcode
    system.cpu.pc = 0x0000;
    match system.step() {
        Err(EmulatorError::InvalidOpcode(op)) => assert_eq!(op, 0x02),
        other => panic!("expected an invalid-opcode error, got {:?}", other),
    }
}

#[test]
fn test_nmi_service() {
    let mut prg_rom = nop_prg();
    prg_rom[0x3FFA] = 0x00; // NMI vector -> $9000
    prg_rom[0x3FFB] = 0x90;
    let mut system = NesSystem::with_prg_rom(prg_rom).unwrap();
    let sp0 = system.cpu.sp;
    system.cpu.nmi_pending = true;
    let cycles = system.step().unwrap();
    assert_eq!(cycles, 7);
    assert_eq!(system.cpu().pc, 0x9000);
    assert_eq!(system.cpu().sp, sp0.wrapping_sub(3));
    assert!(system.cpu().status.interrupt);
}

#[test]
fn test_load_rejects_bad_rom() {
    let bytes = vec![0u8; 8];
    assert!(matches!(
        NesSystem::load(&bytes),
        Err(EmulatorError::RomLoadError(_))
    ));
    let mut bad_mapper = vec![b'N', b'E', b'S', 0x1A, 1, 0, 0x10, 0x20];
    bad_mapper.resize(16 + 0x4000, 0);
    assert!(matches!(
        NesSystem::load(&bad_mapper),
        Err(EmulatorError::UnsupportedMapper(0x21))
    ));
}

#[test]
fn test_load_full_rom() {
    let mut bytes = vec![b'N', b'E', b'S', 0x1A, 1, 1, 0, 0];
    bytes.resize(16, 0);
    bytes.resize(16 + 0x4000, 0xEA); // PRG: NOPs
    bytes.resize(16 + 0x4000 + 0x2000, 0x33); // CHR
    bytes[16 + 0x3FFC] = 0x00;
    bytes[16 + 0x3FFD] = 0x80;
    let mut system = NesSystem::load(&bytes).unwrap();
    assert_eq!(system.cpu().pc, 0x8000);
    assert_eq!(system.ppu().chr_rom[0], 0x33);
    system.step().unwrap();
    assert_eq!(system.frame(), 0);
}

#[test]
fn test_audio_channels_silent_at_poweron() {
    let system = NesSystem::with_prg_rom(nop_prg()).unwrap();
    let (p1, p2, t, n, d) = system.audio_channels();
    assert_eq!((p1, p2, t, n, d), (0, 0, 0, 0, 0));
}

#[test]
fn test_oam_dma_stalls_cpu() {
    // LDA #$03, STA $4014: the DMA write costs its instruction plus the
    // 513-cycle stall.
    let mut prg_rom = nop_prg();
    prg_rom[0] = 0xA9; // LDA #$03
    prg_rom[1] = 0x03;
    prg_rom[2] = 0x8D; // STA $4014
    prg_rom[3] = 0x14;
    prg_rom[4] = 0x40;
    let mut system = NesSystem::with_prg_rom(prg_rom).unwrap();
    assert_eq!(system.step().unwrap(), 2);
    let before = system.cpu().cycles;
    assert_eq!(system.step().unwrap(), 4 + 513);
    assert_eq!(system.cpu().cycles - before, 4 + 513);
}

#[test]
fn test_gxrom_chr_switch_reaches_ppu() {
    // A GxROM bank write must refresh the PPU's CHR window at once.
    let mut bytes = vec![b'N', b'E', b'S', 0x1A, 2, 2, 0x20, 0x40]; // mapper 66
    bytes.resize(16, 0);
    bytes.resize(16 + 0x8000, 0xEA); // one 32 KiB PRG bank of NOPs
    bytes[16 + 0x7FFC] = 0x00; // reset vector -> $8000
    bytes[16 + 0x7FFD] = 0x80;
    bytes.resize(16 + 0x8000 + 0x2000, 0xC1); // CHR bank 0
    bytes.resize(16 + 0x8000 + 0x4000, 0xC2); // CHR bank 1
    let mut system = NesSystem::load(&bytes).unwrap();
    assert_eq!(system.ppu().read_chr_direct(0), 0xC1);
    system.cpu.memory.write(0x8000, 0x01); // select CHR bank 1
    assert_eq!(system.ppu().read_chr_direct(0), 0xC2);
}
