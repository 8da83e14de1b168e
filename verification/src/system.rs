use vstd::prelude::*;

use crate::apu::Apu;
use crate::cartridge::Cartridge;
use crate::context::EmulatorContext;
use crate::context::MemoryAccess;
use crate::controller::Controller;
use crate::cpu::Cpu6502;
use crate::cpu::StatusFlags;
use crate::error::EmulatorError;
use crate::memory::NesMemory;
use crate::memory::spec_mem_wf;
use crate::memory::spec_peek;
use crate::ppu::Ppu;
use crate::ppu::spec_ppu_dot;
use vstd::arithmetic::div_mod::lemma_add_mod_noop;

verus! {

/// CPU cycles per NTSC frame that `run_frame` aims for.
pub const CYCLES_PER_FRAME: u64 = 29780;

/// A complete NES: the CPU owning the bus (and through it the PPU, APU,
/// controllers and cartridge), and a frame counter.
pub struct NesSystem {
    /// The 6502 and, behind it, the whole bus.
    pub cpu: Cpu6502<NesMemory>,
    /// Completed frames.
    pub frame: u64,
}

/// Well-formedness of the system: the bus behind the CPU is well formed.
pub open spec fn spec_sys_wf(s: NesSystem) -> bool {
    spec_mem_wf(s.cpu.memory)
}

/// The CPU state a reset produces over a given bus: registers cleared,
/// SP at $FD, the initial flags, a zeroed cycle counter, and PC loaded
/// from the little-endian reset vector at $FFFC/D; the bus itself is
/// untouched.
pub open spec fn spec_reset_cpu(pre_mem: NesMemory, c: Cpu6502<NesMemory>) -> bool {
    c.a == 0 && c.x == 0 && c.y == 0 && c.sp == 0xFD && c.cycles == 0 && c.status
        == StatusFlags::spec_initial() && !c.nmi_pending && c.pc == spec_peek(pre_mem, 0xFFFC)
        + 256 * spec_peek(pre_mem, 0xFFFD) && c.memory == pre_mem
}

/// How `reset` relates the system before and after: the frame counter
/// returns to zero and the CPU is in the reset state over the unchanged
/// bus.
pub open spec fn spec_reset_rel(pre: NesSystem, post: NesSystem) -> bool {
    post.frame == 0 && spec_reset_cpu(pre.cpu.memory, post.cpu)
}

/// Two consecutive resets produce the same machine as one: the CPU
/// state is pinned by the (unchanged) bus, and the PPU and APU are not
/// touched, so the second reset reproduces the first's state exactly.
pub proof fn lemma_reset_idempotent(s0: NesSystem, s1: NesSystem, s2: NesSystem)
    requires
        spec_reset_rel(s0, s1),
        spec_reset_rel(s1, s2),
    ensures
        s2.cpu == s1.cpu,
        s2.cpu.memory.ppu == s1.cpu.memory.ppu,
        s2.cpu.memory.apu == s1.cpu.memory.apu,
        s2.frame == s1.frame,
{
}

/// The framebuffer of a well-formed system has exactly 256 x 240
/// entries and every entry is a 6-bit palette index.
pub proof fn lemma_framebuffer_bounds(s: NesSystem)
    requires
        spec_sys_wf(s),
    ensures
        s.cpu.memory.ppu.framebuffer@.len() == 256 * 240,
        forall|i: int|
            0 <= i < s.cpu.memory.ppu.framebuffer@.len() ==> s.cpu.memory.ppu.framebuffer@[i]
                <= 0x3F,
{
}

impl NesSystem {
    /// Build a system from an iNES image: parse the cartridge (failing
    /// on bad magic, truncation or an unsupported mapper), wire it to a
    /// fresh bus, and reset the CPU through the cartridge's reset
    /// vector.
    pub fn load(bytes: &[u8]) -> (r: Result<NesSystem, EmulatorError>)
        ensures
            (r is Ok) == (crate::cartridge::spec_header_parses(bytes@)
                && crate::cartridge::spec_mapper_supported(crate::cartridge::spec_header(bytes@).mapper)
                && bytes@.len() >= crate::cartridge::spec_rom_total(
                crate::cartridge::spec_header(bytes@),
            )),
            r matches Ok(s) ==> spec_sys_wf(s) && s.frame == 0 && spec_reset_cpu(
                s.cpu.memory,
                s.cpu,
            ),
            r matches Err(e) ==> (e is RomLoadError || e is UnsupportedMapper),
            r matches Err(e) ==> ((e is UnsupportedMapper) == (crate::cartridge::spec_header_parses(
                bytes@,
            ) && !crate::cartridge::spec_mapper_supported(
                crate::cartridge::spec_header(bytes@).mapper,
            ))),
            r matches Err(e) ==> (e matches EmulatorError::UnsupportedMapper(m) ==> m
                == crate::cartridge::spec_header(bytes@).mapper),
    {
        let cartridge = match Cartridge::from_bytes(bytes) {
            Ok(c) => c,
            Err(e) => {
                return Err(e);
            },
        };
        let mut memory = NesMemory::new();
        memory.load_cartridge(cartridge);
        let cpu = Cpu6502::new(memory);
        let mut system = NesSystem { cpu, frame: 0 };
        system.reset();
        Ok(system)
    }

    /// Build a system around raw PRG data (a headerless NROM image),
    /// for tests and tooling; the CPU starts at that image's reset
    /// vector.
    pub fn with_prg_rom(prg_rom: Vec<u8>) -> (r: Result<NesSystem, EmulatorError>)
        ensures
            r matches Ok(s) ==> spec_sys_wf(s) && s.frame == 0 && spec_reset_cpu(
                s.cpu.memory,
                s.cpu,
            ) && (s.cpu.memory.cartridge matches Some(c) && c.prg_rom == prg_rom && c.header == (
            crate::cartridge::INesHeader {
                prg_rom_banks: 1u8,
                chr_rom_banks: 1u8,
                mapper: 0u8,
                mirroring: crate::cartridge::Mirroring::Horizontal,
                has_battery: false,
                has_trainer: false,
            }) && c.mapper_state == (crate::cartridge::MapperState {
                prg_bank: 0u8,
                chr_bank: 0u8,
            })),
            r is Ok,
    {
        let mut memory = NesMemory::new();
        memory.load_prg_rom(prg_rom);
        let cpu = Cpu6502::new(memory);
        let mut system = NesSystem { cpu, frame: 0 };
        system.reset();
        Ok(system)
    }

    /// Reset the system: clear the CPU registers and cycle counter,
    /// reload PC from the reset vector, and restart the frame count.
    /// The bus - RAM, PPU, APU, controllers, cartridge - is untouched.
    pub fn reset(&mut self)
        requires
            spec_sys_wf(*old(self)),
        ensures
            spec_sys_wf(*final(self)),
            spec_reset_rel(*old(self), *final(self)),
    {
        self.cpu.a = 0;
        self.cpu.x = 0;
        self.cpu.y = 0;
        self.cpu.sp = 0xFD;
        self.cpu.status = StatusFlags::initial();
        let lo = self.cpu.memory.peek(0xFFFC);
        let hi = self.cpu.memory.peek(0xFFFD);
        self.cpu.pc = hi as u16 * 256 + lo as u16;
        self.cpu.cycles = 0;
        self.cpu.nmi_pending = false;
        self.frame = 0;
    }

    /// Run one step: execute one instruction (or service a pending NMI),
    /// charge any OAM DMA stall, and clock the APU once and the PPU
    /// three times for every CPU cycle that passed, latching the PPU's
    /// NMI request into the CPU. Succeeds exactly when an NMI was
    /// pending or the opcode under PC is documented, failing otherwise
    /// with that invalid opcode; returns the CPU cycles consumed,
    /// between 2 and 520 (instruction plus DMA stall).
    pub fn step(&mut self) -> (r: Result<u32, EmulatorError>)
        requires
            spec_sys_wf(*old(self)),
            old(self).cpu.cycles + 520 <= u64::MAX,
        ensures
            spec_sys_wf(*final(self)),
            final(self).frame == old(self).frame,
            r matches Ok(c) ==> 2 <= c <= 520 && final(self).cpu.cycles == old(self).cpu.cycles
                + c,
            r is Err ==> final(self).cpu.cycles == old(self).cpu.cycles,
            !old(self).cpu.nmi_pending ==> ((r is Ok) == crate::opcodes::opcode_legal(
                spec_peek(old(self).cpu.memory, old(self).cpu.pc),
            )),
            old(self).cpu.nmi_pending ==> r is Ok,
            r matches Err(e) ==> !old(self).cpu.nmi_pending && e == EmulatorError::InvalidOpcode(
                spec_peek(old(self).cpu.memory, old(self).cpu.pc),
            ),
            r matches Ok(c) ==> final(self).cpu.memory.apu.cycle as int == (old(self).cpu.memory.apu.cycle + c) % 0x10000000000000000,
            r matches Ok(c) ==> spec_ppu_dot(final(self).cpu.memory.ppu) == (spec_ppu_dot(
                old(self).cpu.memory.ppu,
            ) + 3 * c) % 89342,
            r is Ok ==> !final(self).cpu.memory.ppu.nmi_interrupt,
            r is Ok ==> final(self).cpu.memory.dma_stall == 0,
            r is Err ==> final(self).cpu.memory.apu.cycle == old(self).cpu.memory.apu.cycle
                && spec_ppu_dot(final(self).cpu.memory.ppu) == spec_ppu_dot(
                old(self).cpu.memory.ppu,
            ),
    {
        let cycles = match self.cpu.step() {
            Ok(c) => c,
            Err(e) => {
                return Err(e);
            },
        };
        let stall = self.cpu.memory.take_dma_stall();
        let stall_capped: u32 = if stall > 513 {
            513
        } else {
            stall
        };
        let total: u32 = cycles as u32 + stall_capped;
        self.cpu.cycles = self.cpu.cycles + stall_capped as u64;
        let ghost cycles_after = self.cpu.cycles;
        let ghost apu0 = self.cpu.memory.apu.cycle as int;
        let ghost dot0 = spec_ppu_dot(self.cpu.memory.ppu);
        let mut i: u32 = 0;
        while i < total
            invariant
                i <= total,
                total >= 2,
                spec_mem_wf(self.cpu.memory),
                self.cpu.cycles == cycles_after,
                self.frame == old(self).frame,
                self.cpu.memory.apu.cycle as int == (apu0 + i) % 0x10000000000000000,
                spec_ppu_dot(self.cpu.memory.ppu) == (dot0 + 3 * i) % 89342,
                0 <= apu0 < 0x10000000000000000,
                0 <= dot0 < 89342,
                i > 0 ==> !self.cpu.memory.ppu.nmi_interrupt,
                self.cpu.memory.dma_stall == 0,
            decreases total - i,
        {
            self.cpu.memory.apu.clock();
            proof {
                lemma_add_mod_noop(apu0 + i, 1, 0x10000000000000000);
            }
            let mut t: u32 = 0;
            while t < 3
                invariant
                    t <= 3,
                    spec_mem_wf(self.cpu.memory),
                    self.cpu.cycles == cycles_after,
                    self.frame == old(self).frame,
                    self.cpu.memory.apu.cycle as int == (apu0 + i + 1) % 0x10000000000000000,
                    spec_ppu_dot(self.cpu.memory.ppu) == (dot0 + 3 * i + t) % 89342,
                    0 <= dot0 < 89342,
                    i < total,
                    t > 0 ==> !self.cpu.memory.ppu.nmi_interrupt,
                    self.cpu.memory.dma_stall == 0,
                decreases 3 - t,
            {
                proof {
                    lemma_add_mod_noop(dot0 + 3 * i + t, 1, 89342);
                }
                self.cpu.memory.ppu.tick();
                if self.cpu.memory.ppu.nmi_interrupt {
                    self.cpu.memory.ppu.nmi_interrupt = false;
                    self.cpu.nmi_pending = true;
                }
                t = t + 1;
            }
            i = i + 1;
        }
        Ok(total)
    }

    /// Run until at least `cycles` more CPU cycles have elapsed; the
    /// overshoot stays below one step (at most 519 cycles).
    pub fn run_cycles(&mut self, cycles: u64) -> (r: Result<(), EmulatorError>)
        requires
            spec_sys_wf(*old(self)),
            old(self).cpu.cycles + cycles + 520 <= u64::MAX,
        ensures
            spec_sys_wf(*final(self)),
            final(self).frame == old(self).frame,
            r is Ok ==> old(self).cpu.cycles + cycles <= final(self).cpu.cycles < old(self).cpu.cycles + cycles + 520,
            final(self).cpu.memory.apu.cycle as int == (old(self).cpu.memory.apu.cycle + (final(self).cpu.cycles - old(self).cpu.cycles)) % 0x10000000000000000,
            spec_ppu_dot(final(self).cpu.memory.ppu) == (spec_ppu_dot(old(self).cpu.memory.ppu) + 3
                * (final(self).cpu.cycles - old(self).cpu.cycles)) % 89342,
            r matches Err(e) ==> e is InvalidOpcode && final(self).cpu.cycles < old(self).cpu.cycles + cycles,
    {
        let ghost apu0 = self.cpu.memory.apu.cycle as int;
        let ghost dot0 = spec_ppu_dot(self.cpu.memory.ppu);
        let ghost cycles0 = self.cpu.cycles;
        proof {
            lemma_add_mod_noop(apu0, 0, 0x10000000000000000);
            lemma_add_mod_noop(dot0, 0, 89342);
        }
        let target: u64 = self.cpu.cycles + cycles;
        while self.cpu.cycles < target
            invariant
                spec_sys_wf(*self),
                target == cycles0 + cycles,
                cycles0 == old(self).cpu.cycles,
                target + 520 <= u64::MAX,
                cycles0 <= self.cpu.cycles < target + 520,
                self.frame == old(self).frame,
                apu0 == old(self).cpu.memory.apu.cycle as int,
                dot0 == spec_ppu_dot(old(self).cpu.memory.ppu),
                0 <= apu0 < 0x10000000000000000,
                0 <= dot0 < 89342,
                self.cpu.memory.apu.cycle as int == (apu0 + (self.cpu.cycles - cycles0))
                    % 0x10000000000000000,
                spec_ppu_dot(self.cpu.memory.ppu) == (dot0 + 3 * (self.cpu.cycles - cycles0))
                    % 89342,
            decreases target + 520 - self.cpu.cycles,
        {
            let ghost elapsed = self.cpu.cycles - cycles0;
            match self.step() {
                Ok(c) => {
                    proof {
                        lemma_add_mod_noop(apu0 + elapsed, c as int, 0x10000000000000000);
                        lemma_add_mod_noop(dot0 + 3 * elapsed, 3 * c, 89342);
                    }
                },
                Err(e) => {
                    return Err(e);
                },
            }
        }
        Ok(())
    }

    /// Run one NTSC frame: step until 29,780 more CPU cycles have
    /// elapsed. On success the cycle counter has grown by exactly that
    /// target, give or take the last instruction boundary (less than
    /// 520 cycles), and the frame counter has advanced by one.
    pub fn run_frame(&mut self) -> (r: Result<(), EmulatorError>)
        requires
            spec_sys_wf(*old(self)),
            old(self).cpu.cycles + 31000 <= u64::MAX,
            old(self).frame < u64::MAX,
        ensures
            spec_sys_wf(*final(self)),
            r is Ok ==> old(self).cpu.cycles + 29780 <= final(self).cpu.cycles < old(self).cpu.cycles + 29780 + 520,
            r is Ok ==> final(self).frame == old(self).frame + 1,
            r is Err ==> final(self).frame == old(self).frame,
            final(self).cpu.memory.apu.cycle as int == (old(self).cpu.memory.apu.cycle + (final(self).cpu.cycles - old(self).cpu.cycles)) % 0x10000000000000000,
            spec_ppu_dot(final(self).cpu.memory.ppu) == (spec_ppu_dot(old(self).cpu.memory.ppu) + 3
                * (final(self).cpu.cycles - old(self).cpu.cycles)) % 89342,
            r matches Err(e) ==> e is InvalidOpcode,
    {
        match self.run_cycles(CYCLES_PER_FRAME) {
            Ok(_) => {},
            Err(e) => {
                return Err(e);
            },
        }
        self.frame = self.frame + 1;
        Ok(())
    }

    /// The number of completed frames.
    pub fn frame(&self) -> (r: u64)
        ensures
            r == self.frame,
    {
        self.frame
    }

    /// The CPU (and, through its memory, the whole bus).
    pub fn cpu(&self) -> (r: &Cpu6502<NesMemory>)
        ensures
            r == &self.cpu,
    {
        &self.cpu
    }

    /// The CPU, mutable.
    pub fn cpu_mut(&mut self) -> (r: &mut Cpu6502<NesMemory>)
        ensures
            *r == old(self).cpu,
            final(self).cpu == *final(r),
            final(self).frame == old(self).frame,
    {
        &mut self.cpu
    }

    /// Read from memory as the CPU would, side effects included.
    pub fn read_memory(&mut self, addr: u16) -> (r: u8)
        requires
            spec_sys_wf(*old(self)),
        ensures
            spec_sys_wf(*final(self)),
            r == spec_peek(old(self).cpu.memory, addr),
            final(self).frame == old(self).frame,
            final(self).cpu == (Cpu6502 { memory: final(self).cpu.memory, ..old(self).cpu }),
            final(self).cpu.memory.ram == old(self).cpu.memory.ram && final(self).cpu.memory.apu
                == old(self).cpu.memory.apu && final(self).cpu.memory.cartridge == old(self).cpu.memory.cartridge && final(self).cpu.memory.context == old(self).cpu.memory.context
                && final(self).cpu.memory.dma_stall == old(self).cpu.memory.dma_stall,
            0x2000 <= addr < 0x4000 ==> crate::ppu::spec_reg_read(
                old(self).cpu.memory.ppu,
                final(self).cpu.memory.ppu,
                addr,
                r,
            ),
            !(0x2000 <= addr < 0x4000) ==> final(self).cpu.memory.ppu == old(self).cpu.memory.ppu,
            addr != 0x4016 ==> final(self).cpu.memory.controller1 == old(self).cpu.memory.controller1,
            addr != 0x4017 ==> final(self).cpu.memory.controller2 == old(self).cpu.memory.controller2,
    {
        self.cpu.memory.read(addr)
    }

    /// Read from memory without side effects, for tests and observers.
    pub fn peek_memory(&self, addr: u16) -> (r: u8)
        requires
            spec_sys_wf(*self),
        ensures
            r == spec_peek(self.cpu.memory, addr),
    {
        self.cpu.memory.peek(addr)
    }

    /// The PPU's framebuffer: 256 x 240 palette indices.
    pub fn framebuffer(&self) -> (r: &Vec<u8>)
        ensures
            r == &self.cpu.memory.ppu.framebuffer,
    {
        &self.cpu.memory.ppu.framebuffer
    }

    /// The PPU.
    pub fn ppu(&self) -> (r: &Ppu)
        ensures
            r == &self.cpu.memory.ppu,
    {
        &self.cpu.memory.ppu
    }

    /// The APU.
    pub fn apu(&self) -> (r: &Apu)
        ensures
            r == &self.cpu.memory.apu,
    {
        &self.cpu.memory.apu
    }

    /// The five audio channel levels for the host's mixer: both pulses,
    /// the triangle, the noise, and the DMC level.
    pub fn audio_channels(&self) -> (r: (u8, u8, u8, u8, u8))
        ensures
            r.0 == crate::apu::spec_pulse_output(self.cpu.memory.apu.pulse1),
            r.1 == crate::apu::spec_pulse_output(self.cpu.memory.apu.pulse2),
            r.2 == crate::apu::spec_triangle_output(self.cpu.memory.apu.triangle),
            r.3 == crate::apu::spec_noise_output(self.cpu.memory.apu.noise),
            r.4 == self.cpu.memory.apu.dmc.output_level,
            spec_sys_wf(*self) ==> r.0 <= 15 && r.1 <= 15 && r.2 <= 15 && r.3 <= 15 && r.4 <= 127,
    {
        self.cpu.memory.apu.channel_outputs()
    }

    /// Controller 1, mutable, for button changes between steps.
    pub fn controller1(&mut self) -> (r: &mut Controller)
        ensures
            *r == old(self).cpu.memory.controller1,
            final(self).cpu.memory.controller1 == *final(r),
            final(self).cpu.memory == (NesMemory {
                controller1: final(self).cpu.memory.controller1,
                ..old(self).cpu.memory
            }),
            final(self).cpu == (Cpu6502 { memory: final(self).cpu.memory, ..old(self).cpu }),
            final(self).frame == old(self).frame,
    {
        &mut self.cpu.memory.controller1
    }

    /// Controller 2, mutable, for button changes between steps.
    pub fn controller2(&mut self) -> (r: &mut Controller)
        ensures
            *r == old(self).cpu.memory.controller2,
            final(self).cpu.memory.controller2 == *final(r),
            final(self).cpu.memory == (NesMemory {
                controller2: final(self).cpu.memory.controller2,
                ..old(self).cpu.memory
            }),
            final(self).cpu == (Cpu6502 { memory: final(self).cpu.memory, ..old(self).cpu }),
            final(self).frame == old(self).frame,
    {
        &mut self.cpu.memory.controller2
    }

    /// Press or release a button on controller 1.
    pub fn set_button(&mut self, button: u8, pressed: bool)
        ensures
            final(self).cpu.memory.controller1.state.buttons == (if pressed {
                old(self).cpu.memory.controller1.state.buttons | button
            } else {
                old(self).cpu.memory.controller1.state.buttons & !button
            }),
            final(self).cpu.memory == (NesMemory {
                controller1: final(self).cpu.memory.controller1,
                ..old(self).cpu.memory
            }),
            final(self).cpu.memory.controller1 == (Controller {
                state: final(self).cpu.memory.controller1.state,
                ..old(self).cpu.memory.controller1
            }),
            final(self).cpu == (Cpu6502 { memory: final(self).cpu.memory, ..old(self).cpu }),
            final(self).frame == old(self).frame,
    {
        self.cpu.memory.controller1.state.set(button, pressed);
    }

    /// Press a button on controller 1.
    pub fn press_button(&mut self, button: u8)
        ensures
            final(self).cpu.memory.controller1.state.buttons == (old(self).cpu.memory.controller1.state.buttons | button),
            final(self).cpu.memory == (NesMemory {
                controller1: final(self).cpu.memory.controller1,
                ..old(self).cpu.memory
            }),
            final(self).cpu.memory.controller1 == (Controller {
                state: final(self).cpu.memory.controller1.state,
                ..old(self).cpu.memory.controller1
            }),
            final(self).cpu == (Cpu6502 { memory: final(self).cpu.memory, ..old(self).cpu }),
            final(self).frame == old(self).frame,
    {
        self.cpu.memory.controller1.state.press(button);
    }

    /// Release a button on controller 1.
    pub fn release_button(&mut self, button: u8)
        ensures
            final(self).cpu.memory.controller1.state.buttons == (old(self).cpu.memory.controller1.state.buttons & !button),
            final(self).cpu.memory == (NesMemory {
                controller1: final(self).cpu.memory.controller1,
                ..old(self).cpu.memory
            }),
            final(self).cpu.memory.controller1 == (Controller {
                state: final(self).cpu.memory.controller1.state,
                ..old(self).cpu.memory.controller1
            }),
            final(self).cpu == (Cpu6502 { memory: final(self).cpu.memory, ..old(self).cpu }),
            final(self).frame == old(self).frame,
    {
        self.cpu.memory.controller1.state.release(button);
    }

    /// Switch the bus's access recording on or off, for observers.
    pub fn set_journal_enabled(&mut self, enabled: bool)
        ensures
            final(self).cpu.memory.journal_enabled == enabled,
            final(self).frame == old(self).frame,
            spec_sys_wf(*old(self)) ==> spec_sys_wf(*final(self)),
    {
        self.cpu.memory.set_journal_enabled(enabled);
    }

    /// Hand over the accesses recorded since the last call, for the
    /// host to fan out to its observers.
    pub fn take_accesses(&mut self) -> (r: Vec<MemoryAccess>)
        ensures
            r == old(self).cpu.memory.journal,
            final(self).cpu.memory.journal@.len() == 0,
            final(self).frame == old(self).frame,
            spec_sys_wf(*old(self)) ==> spec_sys_wf(*final(self)),
    {
        self.cpu.memory.take_accesses()
    }

    /// Replace the context snapshot the bus records with each access.
    pub fn update_context(&mut self, context: EmulatorContext)
        ensures
            final(self).cpu.memory.context == context,
            final(self).frame == old(self).frame,
            spec_sys_wf(*old(self)) ==> spec_sys_wf(*final(self)),
    {
        self.cpu.memory.update_context(context);
    }
}

} // verus!
