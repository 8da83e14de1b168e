use vstd::prelude::*;

use crate::apu::Apu;
use crate::apu::spec_apu_wf;
use crate::apu::spec_apu_status;
use crate::apu::spec_apu_reg_write;
use crate::cartridge::Cartridge;
use crate::cartridge::INesHeader;
use crate::cartridge::MapperState;
use crate::cartridge::Mirroring;
use crate::cartridge::spec_read_prg;
use crate::cartridge::zero_vec;
use crate::context::AccessType;
use crate::context::EmulatorContext;
use crate::context::MemoryAccess;
use crate::controller::Controller;
use crate::ppu::Ppu;
use crate::ppu::spec_ppu_wf;
use crate::ppu::spec_reg_read;
use crate::cpu::CpuMemory;
use crate::ppu::spec_reg_write;

verus! {

/// The NES memory bus: CPU RAM, the PPU and APU behind their register
/// windows, two controllers, the cartridge, an access journal for
/// observers, and the pending DMA stall.
pub struct NesMemory {
    /// 2 KiB of internal RAM, mirrored through $0000-$1FFF.
    pub ram: Vec<u8>,
    /// The PPU, behind $2000-$3FFF.
    pub ppu: Ppu,
    /// The APU, behind $4000-$4017.
    pub apu: Apu,
    /// Controller 1 ($4016).
    pub controller1: Controller,
    /// Controller 2 ($4017 reads).
    pub controller2: Controller,
    /// The cartridge, if one is loaded.
    pub cartridge: Option<Cartridge>,
    /// Recorded accesses, for the host to hand to observers.
    pub journal: Vec<MemoryAccess>,
    /// Whether accesses are recorded into the journal.
    pub journal_enabled: bool,
    /// Context snapshot stored with each recorded access.
    pub context: EmulatorContext,
    /// CPU cycles of DMA stall to charge to the current instruction.
    pub dma_stall: u32,
}

/// Well-formedness of the bus: the RAM has its hardware size and the
/// PPU and APU are themselves well formed.
pub open spec fn spec_mem_wf(m: NesMemory) -> bool {
    m.ram@.len() == 2048 && spec_ppu_wf(m.ppu) && spec_apu_wf(m.apu)
}

/// What a PPU register holds when peeked at without side effects:
/// STATUS, OAMDATA and the DATA port's visible byte; 0 for the
/// write-only registers.
pub open spec fn spec_ppu_peek(p: Ppu, addr: u16) -> u8 {
    let reg = addr % 8;
    if reg == 2 {
        p.status.spec_bits()
    } else if reg == 4 {
        p.oam@[p.oam_addr as int]
    } else if reg == 7 {
        let a = p.vram_addr % 0x4000;
        if a >= 0x3F00 {
            p.palette@[(a - 0x3F00) % 32]
        } else {
            p.read_buffer
        }
    } else {
        0u8
    }
}

/// What a controller port returns, with bit 6 of the open bus set: the
/// A button while the strobe is high, else the low shift-register bit.
pub open spec fn spec_controller_peek(c: Controller) -> u8 {
    ((if c.strobe {
        c.state.buttons % 2
    } else {
        c.shift_register % 2
    }) + 0x40) as u8
}

/// The byte a side-effect-free read of the bus returns: RAM through its
/// mirrors, PPU registers through theirs, the controller and APU status
/// ports, the cartridge through its mapper, and open bus ($FF)
/// elsewhere.
pub open spec fn spec_peek(m: NesMemory, addr: u16) -> u8 {
    if addr < 0x2000 {
        m.ram@[(addr % 0x800) as int]
    } else if addr < 0x4000 {
        spec_ppu_peek(m.ppu, addr)
    } else if addr == 0x4015 {
        spec_apu_status(m.apu)
    } else if addr == 0x4016 {
        spec_controller_peek(m.controller1)
    } else if addr == 0x4017 {
        spec_controller_peek(m.controller2)
    } else if addr < 0x4018 {
        0u8
    } else if addr < 0x4020 {
        0xFFu8
    } else {
        match m.cartridge {
            Some(c) => spec_read_prg(c, addr),
            None => 0xFFu8,
        }
    }
}

impl NesMemory {
    /// A bus with zeroed RAM, fresh PPU, APU and controllers, and no
    /// cartridge.
    pub fn new() -> (r: NesMemory)
        ensures
            spec_mem_wf(r),
            r.ram@ == Seq::<u8>::new(2048, |i: int| 0u8),
            r.cartridge is None,
            r.journal@.len() == 0 && !r.journal_enabled,
            r.dma_stall == 0,
            r.context == (EmulatorContext { frame: 0, cycle: 0, pc: 0, last_input: 0 }),
            crate::apu::spec_apu_initial(r.apu),
            r.ppu.ctrl == 0 && r.ppu.mask == 0 && !r.ppu.status.vblank && r.ppu.scanline == 0
                && r.ppu.cycle == 0 && r.ppu.frame == 0 && !r.ppu.nmi_interrupt
                && r.ppu.vram_addr == 0 && r.ppu.temp_vram_addr == 0 && !r.ppu.write_latch
                && r.ppu.mirroring == Mirroring::Horizontal,
            r.ppu.vram@ == Seq::<u8>::new(2048, |i: int| 0u8),
            r.controller1 == (Controller {
                state: crate::controller::ControllerState { buttons: 0u8 },
                shift_register: 0u8,
                strobe: false,
            }),
            r.controller2 == (Controller {
                state: crate::controller::ControllerState { buttons: 0u8 },
                shift_register: 0u8,
                strobe: false,
            }),
    {
        NesMemory {
            ram: zero_vec(2048),
            ppu: Ppu::new(),
            apu: Apu::new(),
            controller1: Controller::new(),
            controller2: Controller::new(),
            cartridge: None,
            journal: Vec::new(),
            journal_enabled: false,
            context: EmulatorContext::new(),
            dma_stall: 0,
        }
    }

    /// Load a cartridge: hand the PPU the cartridge's mirroring and its
    /// active CHR bank (for GxROM only the first 8 KiB bank), then keep
    /// the cartridge for PRG and mapper accesses.
    pub fn load_cartridge(&mut self, cartridge: Cartridge)
        requires
            spec_mem_wf(*old(self)),
        ensures
            spec_mem_wf(*final(self)),
            final(self).cartridge == Some(cartridge),
            final(self).ppu == (Ppu {
                chr_rom: final(self).ppu.chr_rom,
                mirroring: cartridge.header.mirroring,
                ..old(self).ppu
            }),
            final(self).ppu.chr_rom@ == cartridge.chr_rom@.subrange(
                0,
                if cartridge.header.mapper == 66 && cartridge.chr_rom@.len() > 0x2000 {
                    0x2000int
                } else {
                    cartridge.chr_rom@.len() as int
                },
            ),
            final(self).ram == old(self).ram && final(self).apu == old(self).apu
                && final(self).controller1 == old(self).controller1
                && final(self).controller2 == old(self).controller2
                && final(self).journal == old(self).journal
                && final(self).journal_enabled == old(self).journal_enabled
                && final(self).context == old(self).context
                && final(self).dma_stall == old(self).dma_stall,
    {
        let chr_len = cartridge.chr_rom.len();
        let copy_len: usize = if cartridge.header.mapper == 66 && chr_len > 0x2000 {
            0x2000
        } else {
            chr_len
        };
        let chr = crate::cartridge::copy_range(cartridge.chr_rom.as_slice(), 0, copy_len);
        self.ppu.load_chr_rom(chr);
        self.ppu.mirroring = cartridge.header.mirroring;
        self.cartridge = Some(cartridge);
    }

    /// Install raw PRG data as a headerless NROM cartridge, for tests
    /// and tooling.
    pub fn load_prg_rom(&mut self, data: Vec<u8>)
        ensures
            final(self).cartridge matches Some(c) && c.prg_rom == data && c.header == (INesHeader {
                prg_rom_banks: 1u8,
                chr_rom_banks: 1u8,
                mapper: 0u8,
                mirroring: Mirroring::Horizontal,
                has_battery: false,
                has_trainer: false,
            }) && c.chr_rom@ == Seq::<u8>::new(0x2000, |i: int| 0u8) && c.mapper_state == (
            MapperState { prg_bank: 0u8, chr_bank: 0u8 }),
            *final(self) == (NesMemory { cartridge: final(self).cartridge, ..*old(self) }),
    {
        let fake_cart = Cartridge {
            prg_rom: data,
            chr_rom: zero_vec(0x2000),
            header: INesHeader {
                prg_rom_banks: 1,
                chr_rom_banks: 1,
                mapper: 0,
                mirroring: Mirroring::Horizontal,
                has_battery: false,
                has_trainer: false,
            },
            mapper_state: MapperState::new(),
        };
        self.cartridge = Some(fake_cart);
    }

    /// The PPU.
    pub fn ppu(&self) -> (r: &Ppu)
        ensures
            r == &self.ppu,
    {
        &self.ppu
    }

    /// The PPU, mutable.
    pub fn ppu_mut(&mut self) -> (r: &mut Ppu)
        ensures
            *r == old(self).ppu,
            final(self).ppu == *final(r),
            *final(self) == (NesMemory { ppu: final(self).ppu, ..*old(self) }),
    {
        &mut self.ppu
    }

    /// The APU.
    pub fn apu(&self) -> (r: &Apu)
        ensures
            r == &self.apu,
    {
        &self.apu
    }

    /// The APU, mutable.
    pub fn apu_mut(&mut self) -> (r: &mut Apu)
        ensures
            *r == old(self).apu,
            final(self).apu == *final(r),
            *final(self) == (NesMemory { apu: final(self).apu, ..*old(self) }),
    {
        &mut self.apu
    }

    /// Controller 1, mutable.
    pub fn controller1(&mut self) -> (r: &mut Controller)
        ensures
            *r == old(self).controller1,
            final(self).controller1 == *final(r),
            *final(self) == (NesMemory { controller1: final(self).controller1, ..*old(self) }),
    {
        &mut self.controller1
    }

    /// Controller 2, mutable.
    pub fn controller2(&mut self) -> (r: &mut Controller)
        ensures
            *r == old(self).controller2,
            final(self).controller2 == *final(r),
            *final(self) == (NesMemory { controller2: final(self).controller2, ..*old(self) }),
    {
        &mut self.controller2
    }

    /// Read the bus without side effects: the separate entry point for
    /// observers and debugging that the register-level read semantics
    /// do not disturb.
    pub fn peek(&self, addr: u16) -> (r: u8)
        requires
            spec_mem_wf(*self),
        ensures
            r == spec_peek(*self, addr),
    {
        if addr < 0x2000 {
            self.ram[(addr % 0x800) as usize]
        } else if addr < 0x4000 {
            let reg = addr % 8;
            if reg == 2 {
                self.ppu.status.bits()
            } else if reg == 4 {
                self.ppu.oam[self.ppu.oam_addr as usize]
            } else if reg == 7 {
                let a = self.ppu.vram_addr % 0x4000;
                if a >= 0x3F00 {
                    self.ppu.palette[((a - 0x3F00) % 32) as usize]
                } else {
                    self.ppu.read_buffer
                }
            } else {
                0
            }
        } else if addr == 0x4015 {
            self.apu.read_register(addr)
        } else if addr == 0x4016 {
            (if self.controller1.strobe {
                self.controller1.state.buttons % 2
            } else {
                self.controller1.shift_register % 2
            }) + 0x40
        } else if addr == 0x4017 {
            (if self.controller2.strobe {
                self.controller2.state.buttons % 2
            } else {
                self.controller2.shift_register % 2
            }) + 0x40
        } else if addr < 0x4018 {
            0
        } else if addr < 0x4020 {
            0xFF
        } else {
            match &self.cartridge {
                Some(c) => c.read_prg(addr),
                None => 0xFF,
            }
        }
    }

    /// Read one byte as the CPU does. The returned value is what a peek
    /// at the old state shows; the side effects are those of the device
    /// behind the address: PPU register reads follow `spec_reg_read`,
    /// controller reads shift their register, everything else leaves
    /// the bus as it was. The access lands in the journal when enabled.
    pub fn read(&mut self, addr: u16) -> (r: u8)
        requires
            spec_mem_wf(*old(self)),
        ensures
            spec_mem_wf(*final(self)),
            r == spec_peek(*old(self), addr),
            final(self).ram == old(self).ram && final(self).apu == old(self).apu
                && final(self).cartridge == old(self).cartridge
                && final(self).context == old(self).context
                && final(self).dma_stall == old(self).dma_stall
                && final(self).journal_enabled == old(self).journal_enabled,
            0x2000 <= addr < 0x4000 ==> spec_reg_read(old(self).ppu, final(self).ppu, addr, r),
            !(0x2000 <= addr < 0x4000) ==> final(self).ppu == old(self).ppu,
            addr == 0x4016 ==> (old(self).controller1.strobe ==> final(self).controller1
                == old(self).controller1) && (!old(self).controller1.strobe
                ==> final(self).controller1 == (Controller {
                shift_register: (old(self).controller1.shift_register / 2 + 0x80) as u8,
                ..old(self).controller1
            })),
            addr != 0x4016 ==> final(self).controller1 == old(self).controller1,
            addr == 0x4017 ==> (old(self).controller2.strobe ==> final(self).controller2
                == old(self).controller2) && (!old(self).controller2.strobe
                ==> final(self).controller2 == (Controller {
                shift_register: (old(self).controller2.shift_register / 2 + 0x80) as u8,
                ..old(self).controller2
            })),
            addr != 0x4017 ==> final(self).controller2 == old(self).controller2,
            old(self).journal_enabled ==> final(self).journal@ == old(self).journal@.push(
                MemoryAccess {
                    address: addr,
                    value: r,
                    access_type: AccessType::Read,
                    context: old(self).context,
                    old_value: None,
                },
            ),
            !old(self).journal_enabled ==> final(self).journal == old(self).journal,
    {
        let value = self.read_internal(addr);
        if self.journal_enabled {
            let ctx = self.context;
            self.journal.push(
                MemoryAccess {
                    address: addr,
                    value,
                    access_type: AccessType::Read,
                    context: ctx,
                    old_value: None,
                },
            );
        }
        value
    }

    /// The side-effecting read behind `read`, without the journal.
    fn read_internal(&mut self, addr: u16) -> (r: u8)
        requires
            spec_mem_wf(*old(self)),
        ensures
            spec_mem_wf(*final(self)),
            r == spec_peek(*old(self), addr),
            final(self).ram == old(self).ram && final(self).apu == old(self).apu
                && final(self).cartridge == old(self).cartridge
                && final(self).context == old(self).context
                && final(self).dma_stall == old(self).dma_stall
                && final(self).journal == old(self).journal
                && final(self).journal_enabled == old(self).journal_enabled,
            0x2000 <= addr < 0x4000 ==> spec_reg_read(old(self).ppu, final(self).ppu, addr, r),
            !(0x2000 <= addr < 0x4000) ==> final(self).ppu == old(self).ppu,
            addr == 0x4016 ==> (old(self).controller1.strobe ==> final(self).controller1
                == old(self).controller1) && (!old(self).controller1.strobe
                ==> final(self).controller1 == (Controller {
                shift_register: (old(self).controller1.shift_register / 2 + 0x80) as u8,
                ..old(self).controller1
            })),
            addr != 0x4016 ==> final(self).controller1 == old(self).controller1,
            addr == 0x4017 ==> (old(self).controller2.strobe ==> final(self).controller2
                == old(self).controller2) && (!old(self).controller2.strobe
                ==> final(self).controller2 == (Controller {
                shift_register: (old(self).controller2.shift_register / 2 + 0x80) as u8,
                ..old(self).controller2
            })),
            addr != 0x4017 ==> final(self).controller2 == old(self).controller2,
    {
        if addr < 0x2000 {
            self.ram[(addr % 0x800) as usize]
        } else if addr < 0x4000 {
            self.ppu.read_register(addr)
        } else if addr == 0x4015 {
            self.apu.read_register(addr)
        } else if addr == 0x4016 {
            self.controller1.read() + 0x40
        } else if addr == 0x4017 {
            self.controller2.read() + 0x40
        } else if addr < 0x4018 {
            0
        } else if addr < 0x4020 {
            0xFF
        } else {
            match &self.cartridge {
                Some(c) => c.read_prg(addr),
                None => 0xFF,
            }
        }
    }
}


impl NesMemory {
    /// Write one byte as the CPU does: RAM through its mirrors, PPU and
    /// APU registers by their own write semantics, the controller
    /// strobe to both pads, OAM DMA on $4014 (copying a 256-byte page
    /// into OAM and charging the 513-cycle stall), and mapper registers
    /// in cartridge space (a GxROM bank change refreshes the PPU's CHR
    /// copy). The access lands in the journal when enabled.
    pub fn write(&mut self, addr: u16, value: u8)
        requires
            spec_mem_wf(*old(self)),
        ensures
            spec_mem_wf(*final(self)),
            spec_mem_write_rel(*old(self), *final(self), addr, value),
            old(self).journal_enabled ==> final(self).journal@ == old(self).journal@.push(
                MemoryAccess {
                    address: addr,
                    value: value,
                    access_type: AccessType::Write,
                    context: old(self).context,
                    old_value: Some(spec_peek(*old(self), addr)),
                },
            ),
            !old(self).journal_enabled ==> final(self).journal == old(self).journal,
    {
        let old_value = self.peek(addr);
        self.write_internal(addr, value);
        if self.journal_enabled {
            let ctx = self.context;
            self.journal.push(
                MemoryAccess {
                    address: addr,
                    value,
                    access_type: AccessType::Write,
                    context: ctx,
                    old_value: Some(old_value),
                },
            );
        }
    }

    /// The side-effecting write behind `write`, without the journal.
    fn write_internal(&mut self, addr: u16, value: u8)
        requires
            spec_mem_wf(*old(self)),
        ensures
            spec_mem_wf(*final(self)),
            spec_mem_write_rel(*old(self), *final(self), addr, value),
            final(self).journal == old(self).journal,
    {
        if addr < 0x2000 {
            let idx = (addr % 0x800) as usize;
            self.ram[idx] = value;
        } else if addr < 0x4000 {
            self.ppu.write_register(addr, value);
        } else if addr == 0x4016 {
            self.controller1.write(value);
            self.controller2.write(value);
        } else if addr == 0x4014 {
            self.oam_dma(value);
        } else if addr < 0x4014 || addr == 0x4015 || addr == 0x4017 {
            self.apu.write_register(addr, value);
        } else if addr < 0x4020 {
        } else {
            let mut cart = self.cartridge.take();
            match &mut cart {
                Some(c) => {
                    let old_chr_bank = c.mapper_state.chr_bank;
                    c.write_prg(addr, value);
                    if c.header.mapper == 66 && c.mapper_state.chr_bank != old_chr_bank {
                        let bank = c.mapper_state.chr_bank as usize;
                        self.ppu.load_chr_bank(&c.chr_rom, bank);
                    }
                },
                None => {},
            }
            self.cartridge = cart;
        }
    }

    /// OAM DMA: copy the 256 bytes of CPU page `page` into OAM starting
    /// at the current OAM address (wrapping), and charge the CPU the
    /// 513-cycle stall.
    fn oam_dma(&mut self, page: u8)
        requires
            spec_mem_wf(*old(self)),
        ensures
            spec_mem_wf(*final(self)),
            final(self).dma_stall == 513,
            final(self).ppu == (Ppu { oam: final(self).ppu.oam, ..old(self).ppu }),
            final(self).ppu.oam@.len() == 256,
            forall|k: int|
                0 <= k < 256 ==> final(self).ppu.oam@[(old(self).ppu.oam_addr + k) % 256]
                    == spec_peek(*old(self), #[trigger] ((page * 256 + k) as u16)),
            final(self).ram == old(self).ram && final(self).apu == old(self).apu
                && final(self).controller1 == old(self).controller1
                && final(self).controller2 == old(self).controller2
                && final(self).cartridge == old(self).cartridge
                && final(self).context == old(self).context
                && final(self).journal == old(self).journal
                && final(self).journal_enabled == old(self).journal_enabled,
    {
        let base: u16 = page as u16 * 256;
        let mut buffer: Vec<u8> = Vec::new();
        let mut k: usize = 0;
        while k < 256
            invariant
                k <= 256,
                spec_mem_wf(*self),
                *self == *old(self),
                base == page * 256,
                buffer@.len() == k,
                forall|j: int|
                    0 <= j < k ==> buffer@[j] == spec_peek(
                        *old(self),
                        #[trigger] ((page * 256 + j) as u16),
                    ),
            decreases 256 - k,
        {
            let b = self.peek(base + k as u16);
            buffer.push(b);
            k = k + 1;
        }
        let start = self.ppu.oam_addr;
        let mut i: usize = 0;
        while i < 256
            invariant
                i <= 256,
                start == old(self).ppu.oam_addr,
                spec_mem_wf(*self),
                buffer@.len() == 256,
                forall|j: int|
                    0 <= j < 256 ==> buffer@[j] == spec_peek(
                        *old(self),
                        #[trigger] ((page * 256 + j) as u16),
                    ),
                self.ppu == (Ppu { oam: self.ppu.oam, ..old(self).ppu }),
                self.ppu.oam@.len() == 256,
                forall|j: int| 0 <= j < i ==> self.ppu.oam@[(start + j) % 256] == buffer@[j],
                self.ram == old(self).ram && self.apu == old(self).apu
                    && self.controller1 == old(self).controller1
                    && self.controller2 == old(self).controller2
                    && self.cartridge == old(self).cartridge
                    && self.context == old(self).context
                    && self.journal == old(self).journal
                    && self.journal_enabled == old(self).journal_enabled
                    && self.dma_stall == old(self).dma_stall,
            decreases 256 - i,
        {
            let idx = (start as usize + i) % 256;
            let b = buffer[i];
            self.ppu.oam[idx] = b;
            i = i + 1;
        }
        self.dma_stall = 513;
    }

    /// Take the DMA stall charged by writes since the last call, in CPU
    /// cycles, clearing it.
    pub fn take_dma_stall(&mut self) -> (r: u32)
        ensures
            r == old(self).dma_stall,
            *final(self) == (NesMemory { dma_stall: 0u32, ..*old(self) }),
    {
        let stall = self.dma_stall;
        self.dma_stall = 0;
        stall
    }

    /// Switch access recording on or off; turning it off drops what was
    /// recorded.
    pub fn set_journal_enabled(&mut self, enabled: bool)
        ensures
            final(self).journal_enabled == enabled,
            !enabled ==> final(self).journal@.len() == 0,
            enabled ==> final(self).journal == old(self).journal,
            final(self).ram == old(self).ram && final(self).ppu == old(self).ppu
                && final(self).apu == old(self).apu
                && final(self).controller1 == old(self).controller1
                && final(self).controller2 == old(self).controller2
                && final(self).cartridge == old(self).cartridge
                && final(self).context == old(self).context
                && final(self).dma_stall == old(self).dma_stall,
    {
        self.journal_enabled = enabled;
        if !enabled {
            self.journal.clear();
        }
    }

    /// Hand over the recorded accesses, leaving the journal empty.
    pub fn take_accesses(&mut self) -> (r: Vec<MemoryAccess>)
        ensures
            r == old(self).journal,
            *final(self) == (NesMemory { journal: final(self).journal, ..*old(self) }),
            final(self).journal@.len() == 0,
    {
        let mut taken: Vec<MemoryAccess> = Vec::new();
        core::mem::swap(&mut taken, &mut self.journal);
        taken
    }

    /// The context snapshot recorded with each access.
    pub fn context(&self) -> (r: EmulatorContext)
        ensures
            r == self.context,
    {
        self.context
    }

    /// Replace the context snapshot recorded with each access.
    pub fn update_context(&mut self, context: EmulatorContext)
        ensures
            *final(self) == (NesMemory { context: context, ..*old(self) }),
    {
        self.context = context;
    }
}

/// How a $4016 strobe write changes one controller: the strobe level
/// follows bit 0, and a falling edge latches the buttons into the shift
/// register.
pub open spec fn spec_controller_write(c: Controller, value: u8) -> Controller {
    Controller {
        strobe: value % 2 == 1,
        shift_register: if c.strobe && value % 2 == 0 {
            c.state.buttons
        } else {
            c.shift_register
        },
        ..c
    }
}


/// How a CPU-visible write relates the bus before (`pre`) and after
/// (`post`): RAM through its mirrors, PPU and APU registers by their
/// own write relations, the controller strobe to both pads, OAM DMA on
/// $4014, and mapper registers in cartridge space, where a GxROM bank
/// change refreshes the PPU's CHR window. The access journal is not
/// part of the relation.
pub open spec fn spec_mem_write_rel(pre: NesMemory, post: NesMemory, addr: u16, value: u8) -> bool {
    &&& post.context == pre.context
    &&& post.journal_enabled == pre.journal_enabled
    &&& addr < 0x2000 ==> post.ram@ == pre.ram@.update((addr % 0x800) as int, value)
        && post.ppu == pre.ppu && post.apu == pre.apu && post.controller1 == pre.controller1
        && post.controller2 == pre.controller2 && post.cartridge == pre.cartridge
        && post.dma_stall == pre.dma_stall
    &&& 0x2000 <= addr < 0x4000 ==> spec_reg_write(pre.ppu, post.ppu, addr, value)
        && post.ram == pre.ram && post.apu == pre.apu && post.controller1 == pre.controller1
        && post.controller2 == pre.controller2 && post.cartridge == pre.cartridge
        && post.dma_stall == pre.dma_stall
    &&& addr == 0x4016 ==> post.controller1 == spec_controller_write(pre.controller1, value)
        && post.controller2 == spec_controller_write(pre.controller2, value)
        && post.ram == pre.ram && post.ppu == pre.ppu && post.apu == pre.apu
        && post.cartridge == pre.cartridge && post.dma_stall == pre.dma_stall
    &&& addr == 0x4014 ==> post.dma_stall == 513 && post.ppu == (Ppu {
        oam: post.ppu.oam,
        ..pre.ppu
    }) && post.ppu.oam@.len() == 256 && (forall|k: int|
        0 <= k < 256 ==> post.ppu.oam@[(pre.ppu.oam_addr + k) % 256] == spec_peek(
            pre,
            #[trigger] ((value * 256 + k) as u16),
        )) && post.ram == pre.ram && post.apu == pre.apu && post.controller1 == pre.controller1
        && post.controller2 == pre.controller2 && post.cartridge == pre.cartridge
    &&& (0x4000 <= addr < 0x4014 || addr == 0x4015 || addr == 0x4017) ==> spec_apu_reg_write(
        pre.apu,
        post.apu,
        addr,
        value,
    ) && post.ram == pre.ram && post.ppu == pre.ppu && post.controller1 == pre.controller1
        && post.controller2 == pre.controller2 && post.cartridge == pre.cartridge
        && post.dma_stall == pre.dma_stall
    &&& 0x4018 <= addr < 0x4020 ==> post.ram == pre.ram && post.ppu == pre.ppu && post.apu
        == pre.apu && post.controller1 == pre.controller1 && post.controller2 == pre.controller2
        && post.cartridge == pre.cartridge && post.dma_stall == pre.dma_stall
    &&& addr >= 0x4020 ==> post.ram == pre.ram && post.apu == pre.apu && post.controller1
        == pre.controller1 && post.controller2 == pre.controller2 && post.dma_stall
        == pre.dma_stall && (pre.cartridge is None ==> post.cartridge is None && post.ppu
        == pre.ppu) && (pre.cartridge matches Some(c) ==> post.cartridge matches Some(c2)
        && c2.prg_rom == c.prg_rom && c2.chr_rom == c.chr_rom && c2.header == c.header && (
        c.header.mapper == 66 ==> c2.mapper_state == (MapperState {
            prg_bank: ((value / 16) % 4) as u8,
            chr_bank: (value % 4) as u8,
        }) && (c.mapper_state.chr_bank == (value % 4) as u8 ==> post.ppu == pre.ppu) && (
        c.mapper_state.chr_bank != (value % 4) as u8 ==> post.ppu == (Ppu {
            chr_rom: post.ppu.chr_rom,
            ..pre.ppu
        }) && post.ppu.chr_rom@.len() == pre.ppu.chr_rom@.len() && (forall|i: int|
            0 <= i < post.ppu.chr_rom@.len() ==> post.ppu.chr_rom@[i] == (if i < 0x2000 && (value
                % 4) * 0x2000 + i < c.chr_rom@.len() {
                c.chr_rom@[(value % 4) * 0x2000 + i]
            } else {
                pre.ppu.chr_rom@[i]
            })))) && (c.header.mapper != 66 ==> c2.mapper_state == c.mapper_state && post.ppu
        == pre.ppu))
}

impl CpuMemory for NesMemory {
    /// The bus's invariant is its well-formedness.
    open spec fn inv(&self) -> bool {
        spec_mem_wf(*self)
    }

    /// The bus's peeked value is its side-effect-free read.
    open spec fn peek(&self, addr: u16) -> u8 {
        spec_peek(*self, addr)
    }

    /// Reads are free of side effects everywhere but at the PPU
    /// register window and the two controller ports.
    open spec fn read_stable(addr: u16) -> bool {
        !(0x2000 <= addr < 0x4000) && addr != 0x4016 && addr != 0x4017
    }

    /// The bus's write relation.
    open spec fn write_rel(pre: NesMemory, post: NesMemory, addr: u16, value: u8) -> bool {
        spec_mem_write_rel(pre, post, addr, value)
    }

    /// The device clock: the APU's cycle count and the PPU's dot
    /// position, which register traffic never advances.
    open spec fn clock(&self) -> (u64, u64) {
        (self.apu.cycle, (self.ppu.scanline * 341 + self.ppu.cycle) as u64)
    }

    fn read(&mut self, addr: u16) -> (r: u8) {
        self.read(addr)
    }

    fn write(&mut self, addr: u16, value: u8) {
        self.write(addr, value)
    }
}


/// RAM mirroring: every address in $0000-$07FF reads the same byte at
/// its three mirrors $0800, $1000 and $1800 higher.
pub proof fn lemma_ram_mirroring(m: NesMemory, addr: u16)
    requires
        addr < 0x800,
    ensures
        spec_peek(m, addr) == spec_peek(m, (addr + 0x800) as u16),
        spec_peek(m, addr) == spec_peek(m, (addr + 0x1000) as u16),
        spec_peek(m, addr) == spec_peek(m, (addr + 0x1800) as u16),
{
}

/// Writing RAM then reading the same address gives back the written
/// value, for any address in the RAM window $0000-$1FFF.
pub proof fn lemma_ram_write_then_read(m1: NesMemory, m2: NesMemory, addr: u16, value: u8)
    requires
        addr < 0x2000,
        spec_mem_wf(m1),
        m2 == (NesMemory { ram: m2.ram, ..m1 }),
        m2.ram@ == m1.ram@.update((addr % 0x800) as int, value),
    ensures
        spec_peek(m2, addr) == value,
{
}

/// PPU register mirroring: the register window $2000-$2007 repeats
/// every 8 bytes up to $3FFF, so an address and its mirror select the
/// same register for peeks, reads and writes alike.
pub proof fn lemma_ppu_register_mirroring(
    pre: Ppu,
    post: Ppu,
    addr: u16,
    k: u16,
    value: u8,
    r: u8,
)
    requires
        0x2000 <= addr < 0x2008,
        addr + 8 * k < 0x4000,
    ensures
        spec_ppu_peek(pre, (addr + 8 * k) as u16) == spec_ppu_peek(pre, addr),
        spec_reg_write(pre, post, (addr + 8 * k) as u16, value) == spec_reg_write(
            pre,
            post,
            addr,
            value,
        ),
        spec_reg_read(pre, post, (addr + 8 * k) as u16, r) == spec_reg_read(pre, post, addr, r),
{
    let a2 = (addr + 8 * k) as u16;
    assert(a2 % 8 == addr % 8) by (nonlinear_arith)
        requires
            a2 == addr + 8 * k && 0x2000 <= addr < 0x2008 && addr + 8 * k < 0x4000,
    ;
}

} // verus!
