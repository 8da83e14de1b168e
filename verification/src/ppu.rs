use vstd::prelude::*;

use crate::cartridge::Mirroring;
use crate::cartridge::zero_vec;

verus! {

/// PPUCTRL bit: base nametable select, horizontal.
pub const CTRL_NAMETABLE_X: u8 = 0x01;

/// PPUCTRL bit: base nametable select, vertical.
pub const CTRL_NAMETABLE_Y: u8 = 0x02;

/// PPUCTRL bit: VRAM address increment per $2007 access (+1 or +32).
pub const CTRL_VRAM_INCREMENT: u8 = 0x04;

/// PPUCTRL bit: sprite pattern table select.
pub const CTRL_SPRITE_PATTERN: u8 = 0x08;

/// PPUCTRL bit: background pattern table select.
pub const CTRL_BG_PATTERN: u8 = 0x10;

/// PPUCTRL bit: 8x16 sprite size.
pub const CTRL_SPRITE_SIZE: u8 = 0x20;

/// PPUCTRL bit: raise NMI at the start of vertical blank.
pub const CTRL_NMI_ENABLE: u8 = 0x80;

/// PPUMASK bit: show the background.
pub const MASK_SHOW_BG: u8 = 0x08;

/// PPUMASK bit: show sprites.
pub const MASK_SHOW_SPRITES: u8 = 0x10;

/// The three meaningful PPUSTATUS flags; the byte the CPU reads puts
/// sprite overflow in bit 5, sprite-0 hit in bit 6 and VBlank in bit 7.
#[derive(Debug, Clone, Copy, PartialEq, Eq, Structural)]
pub struct PpuStatus {
    /// Sprite overflow (bit 5).
    pub sprite_overflow: bool,
    /// Sprite 0 hit (bit 6).
    pub sprite_zero_hit: bool,
    /// Vertical blank (bit 7).
    pub vblank: bool,
}

impl PpuStatus {
    /// The status byte: each flag contributes its bit.
    pub open spec fn spec_bits(self) -> u8 {
        ((if self.sprite_overflow { 0x20int } else { 0 }) + (if self.sprite_zero_hit {
            0x40int
        } else {
            0
        }) + (if self.vblank { 0x80int } else { 0 })) as u8
    }

    /// All three flags clear.
    pub fn new() -> (r: PpuStatus)
        ensures
            r == (PpuStatus { sprite_overflow: false, sprite_zero_hit: false, vblank: false }),
    {
        PpuStatus { sprite_overflow: false, sprite_zero_hit: false, vblank: false }
    }

    /// Pack the flags into the byte read from $2002.
    pub fn bits(&self) -> (r: u8)
        ensures
            r == self.spec_bits(),
    {
        (if self.sprite_overflow { 0x20u8 } else { 0 }) + (if self.sprite_zero_hit {
            0x40u8
        } else {
            0
        }) + (if self.vblank { 0x80u8 } else { 0 })
    }
}

/// The PPU's position within the 341 x 262 dot grid of one frame.
pub open spec fn spec_ppu_dot(p: Ppu) -> int {
    p.scanline * 341 + p.cycle
}

/// The physical nametable cell behind a VRAM address in $2000-$3EFF
/// (and the mirrors up to $3FFF): horizontal mirroring pairs $2000 with
/// $2400 and $2800 with $2C00, vertical pairs $2000 with $2800 and
/// $2400 with $2C00, and four-screen folds the four tables into the
/// 2 KiB the console has.
pub open spec fn spec_mirror_nt(mode: Mirroring, addr: u16) -> int {
    let off = (addr - 0x2000) % 0x1000;
    let nt = off / 0x400;
    let inner = off % 0x400;
    match mode {
        Mirroring::Horizontal => (nt / 2) * 0x400 + inner,
        Mirroring::Vertical => (nt % 2) * 0x400 + inner,
        Mirroring::FourScreen => off % 0x800,
    }
}

/// The NES picture processing unit: registers, scroll state, VRAM,
/// palette and sprite memory, its own copy of the active CHR bank, the
/// beam position, and the framebuffer it renders into.
pub struct Ppu {
    /// PPUCTRL register ($2000).
    pub ctrl: u8,
    /// PPUMASK register ($2001).
    pub mask: u8,
    /// PPUSTATUS register ($2002).
    pub status: PpuStatus,
    /// OAM address register ($2003).
    pub oam_addr: u8,
    /// Current VRAM address `v` (15 bits).
    pub vram_addr: u16,
    /// Temporary VRAM address `t` (15 bits), in the loopy layout
    /// `yyy NN YYYYY XXXXX`: fine Y, nametable, coarse Y, coarse X.
    pub temp_vram_addr: u16,
    /// Fine X scroll (3 bits).
    pub fine_x: u8,
    /// Write latch toggled by each $2005/$2006 write.
    pub write_latch: bool,
    /// Buffered byte returned by delayed $2007 reads.
    pub read_buffer: u8,
    /// 2 KiB of nametable RAM.
    pub vram: Vec<u8>,
    /// 32 bytes of palette RAM.
    pub palette: Vec<u8>,
    /// 256 bytes of sprite memory.
    pub oam: Vec<u8>,
    /// The active 8 KiB CHR bank (ROM copy or CHR-RAM).
    pub chr_rom: Vec<u8>,
    /// Nametable mirroring, taken from the cartridge.
    pub mirroring: Mirroring,
    /// Current scanline (0-261; 261 is the pre-render line).
    pub scanline: u16,
    /// Current dot within the scanline (0-340).
    pub cycle: u16,
    /// Frame counter.
    pub frame: u64,
    /// Framebuffer: 256 x 240 palette indices, each below 0x40.
    pub framebuffer: Vec<u8>,
    /// NMI request raised at the start of vertical blank.
    pub nmi_interrupt: bool,
}

/// Well-formedness of the PPU: the memories have their hardware sizes,
/// the beam stays on the 341 x 262 grid, and every framebuffer byte is
/// a 6-bit palette index.
pub open spec fn spec_ppu_wf(p: Ppu) -> bool {
    p.vram@.len() == 2048 && p.palette@.len() == 32 && p.oam@.len() == 256
        && p.framebuffer@.len() == 61440 && (forall|i: int|
        0 <= i < 61440 ==> p.framebuffer@[i] < 64) && p.scanline <= 261 && p.cycle <= 340
}

/// The byte a side-effect-free VRAM read returns: pattern tables from
/// CHR, nametables through mirroring, palette RAM at the top.
pub open spec fn spec_vram_direct(p: Ppu, addr: u16) -> u8 {
    let a = addr % 0x4000;
    if a < 0x2000 {
        if a < p.chr_rom@.len() {
            p.chr_rom@[a as int]
        } else {
            0u8
        }
    } else if a < 0x3F00 {
        p.vram@[spec_mirror_nt(p.mirroring, a)]
    } else {
        p.palette@[(a - 0x3F00) % 32]
    }
}

impl Ppu {
    /// A powered-on PPU: registers clear, memories zeroed, 8 KiB of
    /// blank CHR, horizontal mirroring until a cartridge says otherwise.
    pub fn new() -> (r: Ppu)
        ensures
            spec_ppu_wf(r),
            r.ctrl == 0 && r.mask == 0 && r.status == (PpuStatus {
                sprite_overflow: false,
                sprite_zero_hit: false,
                vblank: false,
            }) && r.oam_addr == 0
                && r.vram_addr == 0 && r.temp_vram_addr == 0 && r.fine_x == 0 && !r.write_latch
                && r.read_buffer == 0 && r.mirroring == Mirroring::Horizontal && r.scanline == 0
                && r.cycle == 0 && r.frame == 0 && !r.nmi_interrupt,
            r.vram@ == Seq::<u8>::new(2048, |i: int| 0u8),
            r.palette@ == Seq::<u8>::new(32, |i: int| 0u8),
            r.oam@ == Seq::<u8>::new(256, |i: int| 0u8),
            r.chr_rom@ == Seq::<u8>::new(8192, |i: int| 0u8),
            r.framebuffer@ == Seq::<u8>::new(61440, |i: int| 0u8),
    {
        Ppu {
            ctrl: 0,
            mask: 0,
            status: PpuStatus::new(),
            oam_addr: 0,
            vram_addr: 0,
            temp_vram_addr: 0,
            fine_x: 0,
            write_latch: false,
            read_buffer: 0,
            vram: zero_vec(2048),
            palette: zero_vec(32),
            oam: zero_vec(256),
            chr_rom: zero_vec(8192),
            mirroring: Mirroring::Horizontal,
            scanline: 0,
            cycle: 0,
            frame: 0,
            framebuffer: zero_vec(61440),
            nmi_interrupt: false,
        }
    }

    /// Replace the PPU's CHR data with a bank from the cartridge.
    pub fn load_chr_rom(&mut self, chr_rom: Vec<u8>)
        ensures
            *final(self) == (Ppu { chr_rom: chr_rom, ..*old(self) }),
    {
        self.chr_rom = chr_rom;
    }

    /// Copy an 8 KiB bank out of `source` over the start of the CHR
    /// data, for mappers that switch CHR banks; short sources and short
    /// CHR buffers copy what fits.
    pub fn load_chr_bank(&mut self, source: &Vec<u8>, bank: usize)
        requires
            bank * 0x2000 + 0x2000 <= usize::MAX,
        ensures
            final(self).chr_rom@.len() == old(self).chr_rom@.len(),
            forall|i: int|
                0 <= i < final(self).chr_rom@.len() ==> final(self).chr_rom@[i] == (if i < 0x2000
                    && bank * 0x2000 + i < source@.len() {
                    source@[bank * 0x2000 + i]
                } else {
                    old(self).chr_rom@[i]
                }),
            *final(self) == (Ppu { chr_rom: final(self).chr_rom, ..*old(self) }),
    {
        let offset: usize = bank * 0x2000;
        let mut i: usize = 0;
        while i < 0x2000
            invariant
                i <= 0x2000,
                offset == bank * 0x2000,
                offset + 0x2000 <= usize::MAX,
                self.chr_rom@.len() == old(self).chr_rom@.len(),
                forall|j: int|
                    0 <= j < self.chr_rom@.len() ==> self.chr_rom@[j] == (if j < i && offset + j
                        < source@.len() {
                        source@[offset + j]
                    } else {
                        old(self).chr_rom@[j]
                    }),
                *self == (Ppu { chr_rom: self.chr_rom, ..*old(self) }),
            decreases 0x2000 - i,
        {
            if offset + i < source.len() && i < self.chr_rom.len() {
                let b = source[offset + i];
                self.chr_rom[i] = b;
            }
            i = i + 1;
        }
    }

    /// The framebuffer of palette indices, row by row.
    pub fn framebuffer(&self) -> (r: &Vec<u8>)
        ensures
            r == &self.framebuffer,
    {
        &self.framebuffer
    }

    /// Read palette RAM directly, without bus side effects.
    pub fn read_palette_direct(&self, addr: u16) -> (r: u8)
        requires
            self.palette@.len() == 32,
        ensures
            r == self.palette@[(addr % 32) as int],
    {
        self.palette[(addr % 32) as usize]
    }

    /// Read nametable RAM directly, without bus side effects.
    pub fn read_nametable_direct(&self, addr: u16) -> (r: u8)
        requires
            spec_ppu_wf(*self),
        ensures
            r == spec_vram_direct(*self, addr),
    {
        self.read_vram_direct(addr)
    }

    /// Read CHR data directly, without bus side effects.
    pub fn read_chr_direct(&self, addr: u16) -> (r: u8)
        ensures
            r == (if addr < self.chr_rom@.len() {
                self.chr_rom@[addr as int]
            } else {
                0u8
            }),
    {
        if (addr as usize) < self.chr_rom.len() {
            self.chr_rom[addr as usize]
        } else {
            0
        }
    }

    /// The physical nametable cell behind a VRAM address.
    fn mirror_nametable(&self, addr: u16) -> (r: usize)
        requires
            addr >= 0x2000,
        ensures
            r == spec_mirror_nt(self.mirroring, addr),
            r < 2048,
    {
        let off: u16 = (addr - 0x2000) % 0x1000;
        let nt: u16 = off / 0x400;
        let inner: u16 = off % 0x400;
        let r: u16 = match self.mirroring {
            Mirroring::Horizontal => (nt / 2) * 0x400 + inner,
            Mirroring::Vertical => (nt % 2) * 0x400 + inner,
            Mirroring::FourScreen => off % 0x800,
        };
        r as usize
    }

    /// Read VRAM without side effects (used by rendering and debugging).
    fn read_vram_direct(&self, addr: u16) -> (r: u8)
        requires
            spec_ppu_wf(*self),
        ensures
            r == spec_vram_direct(*self, addr),
    {
        let a = addr % 0x4000;
        if a < 0x2000 {
            if (a as usize) < self.chr_rom.len() {
                self.chr_rom[a as usize]
            } else {
                0
            }
        } else if a < 0x3F00 {
            let m = self.mirror_nametable(a);
            self.vram[m]
        } else {
            self.palette[((a - 0x3F00) % 32) as usize]
        }
    }
}


/// A value folded into the 16-bit range, as wrapping addition leaves it.
pub open spec fn spec_wrap16(x: int) -> u16 {
    (x % 0x10000) as u16
}

/// The VRAM address step selected by PPUCTRL: 32 (down) or 1 (across).
pub open spec fn spec_vram_increment(ctrl: u8) -> int {
    if (ctrl / 4) % 2 == 1 {
        32int
    } else {
        1int
    }
}

/// The palette RAM cell a write to $3F00-$3FFF lands in: the 32-byte
/// space repeats, and $3F10/$14/$18/$1C alias their $3F00/$04/$08/$0C
/// counterparts.
pub open spec fn spec_palette_write_index(addr: u16) -> int {
    let pa = (addr - 0x3F00) % 32;
    if pa >= 16 && pa % 4 == 0 {
        pa - 16
    } else {
        pa
    }
}

/// Writes to the palette mirror addresses land at their base address:
/// what is written at $3F10, $3F14, $3F18 or $3F1C is readable at
/// $3F00, $3F04, $3F08 or $3F0C.
pub proof fn lemma_palette_alias()
    ensures
        spec_palette_write_index(0x3F10) == spec_palette_write_index(0x3F00),
        spec_palette_write_index(0x3F14) == spec_palette_write_index(0x3F04),
        spec_palette_write_index(0x3F18) == spec_palette_write_index(0x3F08),
        spec_palette_write_index(0x3F1C) == spec_palette_write_index(0x3F0C),
{
}

/// How a register write changes the PPU, relating the state before
/// (`pre`) and after (`post`) for the register selected by the address.
pub open spec fn spec_reg_write(pre: Ppu, post: Ppu, addr: u16, value: u8) -> bool {
    let reg = addr % 8;
    let t = pre.temp_vram_addr as int;
    &&& (reg == 0 ==> post == (Ppu {
        ctrl: value,
        temp_vram_addr: ((t / 4096) % 8 * 4096 + (value % 4) * 1024 + (t / 32) % 32
            * 32 + t % 32) as u16,
        ..pre
    }))
    &&& (reg == 1 ==> post == (Ppu { mask: value, ..pre }))
    &&& (reg == 2 ==> post == pre)
    &&& (reg == 3 ==> post == (Ppu { oam_addr: value, ..pre }))
    &&& (reg == 4 ==> post == (Ppu {
        oam: post.oam,
        oam_addr: ((pre.oam_addr + 1) % 256) as u8,
        ..pre
    }) && post.oam@ == pre.oam@.update(pre.oam_addr as int, value))
    &&& (reg == 5 && !pre.write_latch ==> post == (Ppu {
        fine_x: (value % 8) as u8,
        temp_vram_addr: ((t / 32) * 32 + value / 8) as u16,
        write_latch: true,
        ..pre
    }))
    &&& (reg == 5 && pre.write_latch ==> post == (Ppu {
        temp_vram_addr: ((value % 8) * 4096 + (t / 1024) % 4 * 1024 + (value / 8) * 32
            + t % 32) as u16,
        write_latch: false,
        ..pre
    }))
    &&& (reg == 6 && !pre.write_latch ==> post == (Ppu {
        temp_vram_addr: ((value % 64) * 256 + t % 256) as u16,
        write_latch: true,
        ..pre
    }))
    &&& (reg == 6 && pre.write_latch ==> post == (Ppu {
        temp_vram_addr: ((t / 256) * 256 + value) as u16,
        vram_addr: ((t / 256) * 256 + value) as u16,
        write_latch: false,
        ..pre
    }))
    &&& (reg == 7 ==> post.vram_addr == spec_wrap16(
        pre.vram_addr as int + spec_vram_increment(pre.ctrl),
    ) && post.temp_vram_addr == pre.temp_vram_addr && post.ctrl == pre.ctrl
        && post.mask == pre.mask && post.status == pre.status
        && post.oam_addr == pre.oam_addr && post.fine_x == pre.fine_x
        && post.write_latch == pre.write_latch && post.read_buffer == pre.read_buffer
        && post.mirroring == pre.mirroring && post.scanline == pre.scanline
        && post.cycle == pre.cycle && post.frame == pre.frame
        && post.framebuffer == pre.framebuffer && post.oam == pre.oam
        && post.nmi_interrupt == pre.nmi_interrupt && ({
        let a = (pre.vram_addr % 0x4000) as u16;
        &&& (a < 0x2000 ==> post.vram == pre.vram && post.palette == pre.palette
            && post.chr_rom@ == (if pre.chr_rom@.len() <= 0x2000 && a < pre.chr_rom@.len() {
                pre.chr_rom@.update(a as int, value)
            } else {
                pre.chr_rom@
            }))
        &&& (0x2000 <= a < 0x3F00 ==> post.vram@ == pre.vram@.update(
            spec_mirror_nt(pre.mirroring, a),
            value,
        ) && post.palette == pre.palette && post.chr_rom == pre.chr_rom)
        &&& (a >= 0x3F00 ==> post.palette@ == pre.palette@.update(
            spec_palette_write_index(a),
            value,
        ) && post.vram == pre.vram && post.chr_rom == pre.chr_rom)
    }))
}

/// How a register read changes the PPU and what it returns, relating
/// the state before (`pre`) and after (`post`) and the value `r`.
pub open spec fn spec_reg_read(pre: Ppu, post: Ppu, addr: u16, r: u8) -> bool {
    let reg = addr % 8;
    &&& (reg == 2 ==> r == pre.status.spec_bits() && post == (Ppu {
        status: PpuStatus { vblank: false, ..pre.status },
        write_latch: false,
        ..pre
    }))
    &&& (reg == 4 ==> r == pre.oam@[pre.oam_addr as int] && post
        == pre)
    &&& (reg == 7 ==> ({
        let a = (pre.vram_addr % 0x4000) as u16;
        &&& (a < 0x3F00 ==> r == pre.read_buffer && post.read_buffer
            == spec_vram_direct(pre, a))
        &&& (a >= 0x3F00 ==> r == pre.palette@[(a - 0x3F00) % 32] && post.read_buffer
            == pre.vram@[spec_mirror_nt(pre.mirroring, a)])
        &&& post.vram_addr as int == (pre.vram_addr % 0x4000
            + spec_vram_increment(pre.ctrl)) % 0x4000
        &&& post == (Ppu {
            vram_addr: post.vram_addr,
            read_buffer: post.read_buffer,
            ..pre
        })
    }))
    &&& (!(reg == 2 || reg == 4 || reg == 7) ==> r == 0 && post == pre)
}

impl Ppu {
    /// Step the VRAM address after a $2007 access, within the 14-bit
    /// VRAM space.
    fn increment_vram_addr(&mut self)
        ensures
            final(self).vram_addr as int == (old(self).vram_addr % 0x4000 + spec_vram_increment(
                old(self).ctrl,
            )) % 0x4000,
            *final(self) == (Ppu { vram_addr: final(self).vram_addr, ..*old(self) }),
    {
        let increment: u16 = if (self.ctrl / 4) % 2 == 1 {
            32
        } else {
            1
        };
        self.vram_addr = (self.vram_addr % 0x4000 + increment) % 0x4000;
    }

    /// The buffered $2007 read: palette addresses return their byte at
    /// once (refilling the buffer from the nametable underneath), other
    /// addresses return the previous buffer and refill it from VRAM;
    /// both step the VRAM address.
    fn read_vram(&mut self) -> (r: u8)
        requires
            spec_ppu_wf(*old(self)),
        ensures
            spec_ppu_wf(*final(self)),
            ({
                let a = (old(self).vram_addr % 0x4000) as u16;
                &&& (a < 0x3F00 ==> r == old(self).read_buffer && final(self).read_buffer
                    == spec_vram_direct(*old(self), a))
                &&& (a >= 0x3F00 ==> r == old(self).palette@[(a - 0x3F00) % 32] && final(self).read_buffer == old(self).vram@[spec_mirror_nt(old(self).mirroring, a)])
                &&& final(self).vram_addr as int == (old(self).vram_addr % 0x4000
                    + spec_vram_increment(old(self).ctrl)) % 0x4000
                &&& *final(self) == (Ppu {
                    vram_addr: final(self).vram_addr,
                    read_buffer: final(self).read_buffer,
                    ..*old(self)
                })
            }),
    {
        let addr = self.vram_addr % 0x4000;
        if addr < 0x2000 {
            let result = self.read_buffer;
            self.read_buffer = if (addr as usize) < self.chr_rom.len() {
                self.chr_rom[addr as usize]
            } else {
                0
            };
            self.increment_vram_addr();
            result
        } else if addr < 0x3F00 {
            let result = self.read_buffer;
            let m = self.mirror_nametable(addr);
            self.read_buffer = self.vram[m];
            self.increment_vram_addr();
            result
        } else {
            let m = self.mirror_nametable(addr);
            self.read_buffer = self.vram[m];
            let result = self.palette[((addr - 0x3F00) % 32) as usize];
            self.increment_vram_addr();
            result
        }
    }

    /// Write through the current VRAM address: CHR-RAM (only when the
    /// CHR buffer is RAM-sized), nametable RAM through mirroring, or
    /// palette RAM with the $3F10-style aliases folded onto their base.
    fn write_vram(&mut self, value: u8)
        requires
            spec_ppu_wf(*old(self)),
        ensures
            spec_ppu_wf(*final(self)),
            ({
                let a = (old(self).vram_addr % 0x4000) as u16;
                &&& (a < 0x2000 ==> *final(self) == (Ppu {
                    chr_rom: final(self).chr_rom,
                    ..*old(self)
                }) && final(self).chr_rom@ == (if old(self).chr_rom@.len() <= 0x2000 && a < old(self).chr_rom@.len() {
                    old(self).chr_rom@.update(a as int, value)
                } else {
                    old(self).chr_rom@
                }))
                &&& (0x2000 <= a < 0x3F00 ==> *final(self) == (Ppu {
                    vram: final(self).vram,
                    ..*old(self)
                }) && final(self).vram@ == old(self).vram@.update(
                    spec_mirror_nt(old(self).mirroring, a),
                    value,
                ))
                &&& (a >= 0x3F00 ==> *final(self) == (Ppu {
                    palette: final(self).palette,
                    ..*old(self)
                }) && final(self).palette@ == old(self).palette@.update(
                    spec_palette_write_index(a),
                    value,
                ))
            }),
    {
        let addr = self.vram_addr % 0x4000;
        if addr < 0x2000 {
            if self.chr_rom.len() <= 0x2000 && (addr as usize) < self.chr_rom.len() {
                self.chr_rom[addr as usize] = value;
            }
        } else if addr < 0x3F00 {
            let m = self.mirror_nametable(addr);
            self.vram[m] = value;
        } else {
            let mut palette_addr = (addr - 0x3F00) % 32;
            if palette_addr >= 16 && palette_addr % 4 == 0 {
                palette_addr = palette_addr - 16;
            }
            self.palette[palette_addr as usize] = value;
        }
    }

    /// Read a PPU register, selected by the address modulo 8. Only
    /// PPUSTATUS, OAMDATA and PPUDATA respond; reading PPUSTATUS clears
    /// the VBlank flag and the write latch.
    pub fn read_register(&mut self, addr: u16) -> (r: u8)
        requires
            spec_ppu_wf(*old(self)),
        ensures
            spec_ppu_wf(*final(self)),
            spec_reg_read(*old(self), *final(self), addr, r),
    {
        let reg = addr % 8;
        if reg == 2 {
            let status = self.status.bits();
            self.status.vblank = false;
            self.write_latch = false;
            status
        } else if reg == 4 {
            self.oam[self.oam_addr as usize]
        } else if reg == 7 {
            self.read_vram()
        } else {
            0
        }
    }

    /// Write a PPU register, selected by the address modulo 8: CTRL and
    /// MASK update their flags (CTRL also feeds the nametable bits of
    /// `t`), OAMADDR and OAMDATA address and fill sprite memory, SCROLL
    /// and ADDR feed `t` through the shared write latch (ADDR's second
    /// write copies `t` into `v`), and DATA stores through `v`.
    #[verifier::rlimit(60)]
    pub fn write_register(&mut self, addr: u16, value: u8)
        requires
            spec_ppu_wf(*old(self)),
        ensures
            spec_ppu_wf(*final(self)),
            spec_reg_write(*old(self), *final(self), addr, value),
    {
        let reg = addr % 8;
        if reg == 0 {
            self.ctrl = value;
            let t = self.temp_vram_addr;
            self.temp_vram_addr = (t / 4096) % 8 * 4096 + (value % 4) as u16 * 1024 + (t / 32) % 32
                * 32 + t % 32;
        } else if reg == 1 {
            self.mask = value;
        } else if reg == 3 {
            self.oam_addr = value;
        } else if reg == 4 {
            let idx = self.oam_addr as usize;
            self.oam[idx] = value;
            self.oam_addr = self.oam_addr.wrapping_add(1);
        } else if reg == 5 {
            if !self.write_latch {
                self.fine_x = value % 8;
                let t = self.temp_vram_addr;
                self.temp_vram_addr = (t / 32) * 32 + (value / 8) as u16;
                self.write_latch = true;
            } else {
                let t = self.temp_vram_addr;
                self.temp_vram_addr = (value % 8) as u16 * 4096 + (t / 1024) % 4 * 1024 + (value
                    / 8) as u16 * 32 + t % 32;
                self.write_latch = false;
            }
        } else if reg == 6 {
            if !self.write_latch {
                let t = self.temp_vram_addr;
                self.temp_vram_addr = (value % 64) as u16 * 256 + t % 256;
                self.write_latch = true;
            } else {
                let t = self.temp_vram_addr;
                self.temp_vram_addr = (t / 256) * 256 + value as u16;
                self.vram_addr = self.temp_vram_addr;
                self.write_latch = false;
            }
        } else if reg == 7 {
            self.write_vram(value);
            let increment: u16 = if (self.ctrl / 4) % 2 == 1 {
                32
            } else {
                1
            };
            self.vram_addr = self.vram_addr.wrapping_add(increment);
        }
    }
}


/// Two to a power between 0 and 7, for selecting a bit by division.
pub open spec fn spec_pow2_8(b: int) -> int {
    if b == 0 {
        1
    } else if b == 1 {
        2
    } else if b == 2 {
        4
    } else if b == 3 {
        8
    } else if b == 4 {
        16
    } else if b == 5 {
        32
    } else if b == 6 {
        64
    } else {
        128
    }
}

/// Bit `bit` of a byte, as 0 or 1.
fn bit_of(v: u8, bit: u8) -> (r: u8)
    requires
        bit < 8,
    ensures
        r as int == (v as int / spec_pow2_8(bit as int)) % 2,
{
    if bit == 0 {
        v % 2
    } else if bit == 1 {
        (v / 2) % 2
    } else if bit == 2 {
        (v / 4) % 2
    } else if bit == 3 {
        (v / 8) % 2
    } else if bit == 4 {
        (v / 16) % 2
    } else if bit == 5 {
        (v / 32) % 2
    } else if bit == 6 {
        (v / 64) % 2
    } else {
        (v / 128) % 2
    }
}

/// The CHR byte at an index, 0 beyond the buffer.
pub open spec fn spec_chr_at(p: Ppu, idx: int) -> u8 {
    if 0 <= idx < p.chr_rom@.len() {
        p.chr_rom@[idx]
    } else {
        0u8
    }
}

/// Sprite height selected by PPUCTRL: 8 or 16 pixels.
pub open spec fn spec_sprite_height(ctrl: u8) -> int {
    if (ctrl / 32) % 2 == 1 {
        16
    } else {
        8
    }
}

/// The 2-bit pattern value of screen position (x, y) within sprite `i`,
/// after applying the sprite's flip bits, read from the sprite pattern
/// table.
pub open spec fn spec_sprite_pv(p: Ppu, x: int, y: int, i: int) -> int {
    let sprite_y = p.oam@[i * 4] as int;
    let tile = p.oam@[i * 4 + 1] as int;
    let attr = p.oam@[i * 4 + 2] as int;
    let sprite_x = p.oam@[i * 4 + 3] as int;
    let h = spec_sprite_height(p.ctrl);
    let px = if (attr / 64) % 2 == 1 {
        7 - (x - sprite_x)
    } else {
        x - sprite_x
    };
    let py = if (attr / 128) % 2 == 1 {
        h - 1 - (y - sprite_y)
    } else {
        y - sprite_y
    };
    let pattern = (if (p.ctrl / 8) % 2 == 1 {
        0x1000int
    } else {
        0int
    }) + tile * 16;
    let low = spec_chr_at(p, pattern + py) as int;
    let high = spec_chr_at(p, pattern + 8 + py) as int;
    ((high / spec_pow2_8(7 - px)) % 2) * 2 + (low / spec_pow2_8(7 - px)) % 2
}

/// Whether screen position (x, y) falls inside sprite `i`'s box.
pub open spec fn spec_sprite_in_box(p: Ppu, x: int, y: int, i: int) -> bool {
    let sprite_y = p.oam@[i * 4] as int;
    let sprite_x = p.oam@[i * 4 + 3] as int;
    sprite_y <= y < sprite_y + spec_sprite_height(p.ctrl) && sprite_x <= x < sprite_x + 8
}

/// Scan sprites `i`..63 in OAM order for the first whose box covers
/// (x, y) with an opaque pixel; the result is its palette colour, a
/// visibility flag, and whether it draws over the background.
pub open spec fn spec_sprite_scan(p: Ppu, x: int, y: int, i: int) -> (u8, bool, bool)
    decreases 64 - i,
{
    if i >= 64 {
        (0u8, false, false)
    } else if spec_sprite_in_box(p, x, y, i) && spec_sprite_pv(p, x, y, i) != 0 {
        let attr = p.oam@[i * 4 + 2] as int;
        (
            p.palette@[0x10 + (attr % 4) * 4 + spec_sprite_pv(p, x, y, i)],
            true,
            (attr / 32) % 2 == 0,
        )
    } else {
        spec_sprite_scan(p, x, y, i + 1)
    }
}

/// The background colour of screen position (x, y): the scroll state in
/// `t` and fine X select a tile and pixel, the nametable supplies the
/// tile index and attribute bits, and the pattern table's two planes
/// give a 2-bit value looked up in the background palette (the
/// universal background colour when 0).
pub open spec fn spec_bg_pixel(p: Ppu, x: int, y: int) -> u8 {
    let t = p.temp_vram_addr as int;
    let coarse_x = t % 32;
    let coarse_y = (t / 32) % 32;
    let fine_y = (t / 4096) % 8;
    let nt = (t / 1024) % 4;
    let sx = x + p.fine_x + coarse_x * 8;
    let sy = y + fine_y + coarse_y * 8;
    let tile_x = (sx / 8) % 32;
    let tile_y = (sy / 8) % 30;
    let px = sx % 8;
    let py = sy % 8;
    let base = 0x2000 + nt * 0x400;
    let tile_index = spec_vram_direct(p, (base + tile_y * 32 + tile_x) as u16) as int;
    let attr = spec_vram_direct(p, (base + 0x3C0 + (tile_y / 4) * 8 + tile_x / 4) as u16) as int;
    let shift = ((tile_y % 4) / 2) * 4 + ((tile_x % 4) / 2) * 2;
    let palette_high = (attr / spec_pow2_8(shift)) % 4;
    let pattern = (if (p.ctrl / 16) % 2 == 1 {
        0x1000int
    } else {
        0int
    }) + tile_index * 16;
    let low = spec_chr_at(p, pattern + py) as int;
    let high = spec_chr_at(p, pattern + 8 + py) as int;
    let pv = ((high / spec_pow2_8(7 - px)) % 2) * 2 + (low / spec_pow2_8(7 - px)) % 2;
    if pv == 0 {
        p.palette@[0]
    } else {
        p.palette@[palette_high * 4 + pv]
    }
}

/// The palette index the PPU stores for the dot at (x, y): the
/// background colour (the universal background when the mask hides the
/// background), replaced by the first opaque sprite pixel when sprites
/// are shown and that sprite has priority or the background is
/// transparent; folded to a 6-bit index.
pub open spec fn spec_composed_pixel(p: Ppu, x: int, y: int) -> u8 {
    let bg = if (p.mask / 8) % 2 == 1 {
        spec_bg_pixel(p, x, y)
    } else {
        0u8
    };
    let sp = if (p.mask / 16) % 2 == 1 {
        spec_sprite_scan(p, x, y, 0)
    } else {
        (0u8, false, false)
    };
    let chosen = if sp.1 && (sp.2 || bg % 4 == 0) {
        sp.0
    } else {
        bg
    };
    (chosen % 64) as u8
}

impl Ppu {
    /// Whether rendering is enabled: the mask shows the background or
    /// sprites.
    fn is_rendering(&self) -> (r: bool)
        ensures
            r == ((self.mask / 8) % 2 == 1 || (self.mask / 16) % 2 == 1),
    {
        (self.mask / 8) % 2 == 1 || (self.mask / 16) % 2 == 1
    }

    /// The background colour of screen position (x, y).
    #[verifier::rlimit(60)]
    #[verifier::spinoff_prover]
    fn get_background_pixel(&self, x: usize, y: usize) -> (r: u8)
        requires
            spec_ppu_wf(*self),
            x < 256,
            y < 240,
        ensures
            r == spec_bg_pixel(*self, x as int, y as int),
    {
        let t = self.temp_vram_addr as usize;
        let coarse_x = t % 32;
        let coarse_y = (t / 32) % 32;
        let fine_y = (t / 4096) % 8;
        let nt = (t / 1024) % 4;
        let sx = x + self.fine_x as usize + coarse_x * 8;
        let sy = y + fine_y + coarse_y * 8;
        let tile_x = (sx / 8) % 32;
        let tile_y = (sy / 8) % 30;
        let px = sx % 8;
        let py = sy % 8;
        let base = 0x2000 + nt * 0x400;
        let tile_index = self.read_vram_direct((base + tile_y * 32 + tile_x) as u16) as usize;
        let attr = self.read_vram_direct((base + 0x3C0 + (tile_y / 4) * 8 + tile_x / 4) as u16);
        let shift = ((tile_y % 4) / 2) * 4 + ((tile_x % 4) / 2) * 2;
        let palette_high = if shift == 0 {
            attr % 4
        } else if shift == 2 {
            (attr / 4) % 4
        } else if shift == 4 {
            (attr / 16) % 4
        } else {
            (attr / 64) % 4
        };
        let pattern = (if (self.ctrl / 16) % 2 == 1 {
            0x1000usize
        } else {
            0usize
        }) + tile_index * 16;
        let low = if pattern + py < self.chr_rom.len() {
            self.chr_rom[pattern + py]
        } else {
            0
        };
        let high = if pattern + 8 + py < self.chr_rom.len() {
            self.chr_rom[pattern + 8 + py]
        } else {
            0
        };
        let bit = (7 - px) as u8;
        let pv = bit_of(high, bit) * 2 + bit_of(low, bit);
        if pv == 0 {
            self.palette[0]
        } else {
            self.palette[(palette_high as usize) * 4 + pv as usize]
        }
    }

    /// The first opaque sprite pixel covering screen position (x, y),
    /// scanning all 64 OAM entries in order: its palette colour, a
    /// visibility flag, and whether it has priority over the background.
    fn get_sprite_pixel(&self, x: usize, y: usize) -> (r: (u8, bool, bool))
        requires
            spec_ppu_wf(*self),
            x < 256,
            y < 240,
        ensures
            r == spec_sprite_scan(*self, x as int, y as int, 0),
    {
        let mut i: usize = 0;
        while i < 64
            invariant
                spec_ppu_wf(*self),
                x < 256,
                y < 240,
                i <= 64,
                spec_sprite_scan(*self, x as int, y as int, 0) == spec_sprite_scan(*self, x as int, y as int, i as int),
            decreases 64 - i,
        {
            let sprite_y = self.oam[i * 4] as usize;
            let tile_index = self.oam[i * 4 + 1];
            let attributes = self.oam[i * 4 + 2];
            let sprite_x = self.oam[i * 4 + 3] as usize;
            let sprite_height: usize = if (self.ctrl / 32) % 2 == 1 {
                16
            } else {
                8
            };
            if y >= sprite_y && y < sprite_y + sprite_height && x >= sprite_x && x < sprite_x + 8 {
                let mut pixel_x = x - sprite_x;
                let mut pixel_y = y - sprite_y;
                if (attributes / 64) % 2 == 1 {
                    pixel_x = 7 - pixel_x;
                }
                if (attributes / 128) % 2 == 1 {
                    pixel_y = sprite_height - 1 - pixel_y;
                }
                let pattern = (if (self.ctrl / 8) % 2 == 1 {
                    0x1000usize
                } else {
                    0usize
                }) + tile_index as usize * 16;
                let low = if pattern + pixel_y < self.chr_rom.len() {
                    self.chr_rom[pattern + pixel_y]
                } else {
                    0
                };
                let high = if pattern + 8 + pixel_y < self.chr_rom.len() {
                    self.chr_rom[pattern + 8 + pixel_y]
                } else {
                    0
                };
                let bit = (7 - pixel_x) as u8;
                let pv = bit_of(high, bit) * 2 + bit_of(low, bit);
                if pv != 0 {
                    let palette_addr = 0x10 + (attributes % 4) as usize * 4 + pv as usize;
                    let colour = self.palette[palette_addr];
                    let behind_bg = (attributes / 32) % 2 == 1;
                    return (colour, true, !behind_bg);
                }
            }
            i = i + 1;
        }
        (0, false, false)
    }

    /// Render the pixel under the beam: compose the background and the
    /// first opaque sprite by the sprite's priority bit, and store the
    /// 6-bit palette index in the framebuffer.
    fn render_pixel(&mut self)
        requires
            spec_ppu_wf(*old(self)),
            old(self).scanline < 240,
            1 <= old(self).cycle <= 256,
        ensures
            spec_ppu_wf(*final(self)),
            *final(self) == (Ppu { framebuffer: final(self).framebuffer, ..*old(self) }),
            final(self).framebuffer@ == old(self).framebuffer@.update(
                old(self).scanline * 256 + (old(self).cycle - 1),
                spec_composed_pixel(*old(self), old(self).cycle - 1, old(self).scanline as int),
            ),
    {
        let x = (self.cycle - 1) as usize;
        let y = self.scanline as usize;
        let pixel_index = y * 256 + x;
        let bg_pixel: u8 = if (self.mask / 8) % 2 == 1 {
            self.get_background_pixel(x, y)
        } else {
            0
        };
        let sprite_pixel: (u8, bool, bool) = if (self.mask / 16) % 2 == 1 {
            self.get_sprite_pixel(x, y)
        } else {
            (0, false, false)
        };
        let palette_index: u8 = if sprite_pixel.1 && (sprite_pixel.2 || bg_pixel % 4 == 0) {
            sprite_pixel.0
        } else {
            bg_pixel
        };
        self.framebuffer[pixel_index] = palette_index % 64;
    }

    /// Advance the PPU by one dot. Visible scanlines render a pixel
    /// while rendering is enabled; entering scanline 241 dot 1 sets
    /// VBlank (raising the NMI request when enabled), and entering the
    /// pre-render scanline 261 dot 1 clears VBlank, the sprite flags
    /// and the NMI request.
    pub fn tick(&mut self)
        requires
            spec_ppu_wf(*old(self)),
        ensures
            spec_ppu_wf(*final(self)),
            final(self).ctrl == old(self).ctrl && final(self).mask == old(self).mask
                && final(self).oam_addr == old(self).oam_addr
                && final(self).vram_addr == old(self).vram_addr
                && final(self).temp_vram_addr == old(self).temp_vram_addr
                && final(self).fine_x == old(self).fine_x
                && final(self).write_latch == old(self).write_latch
                && final(self).read_buffer == old(self).read_buffer
                && final(self).vram == old(self).vram
                && final(self).palette == old(self).palette && final(self).oam == old(self).oam
                && final(self).chr_rom == old(self).chr_rom
                && final(self).mirroring == old(self).mirroring,
            old(self).cycle < 340 ==> final(self).cycle == old(self).cycle + 1
                && final(self).scanline == old(self).scanline
                && final(self).frame == old(self).frame,
            old(self).cycle == 340 ==> final(self).cycle == 0 && (if old(self).scanline == 261 {
                final(self).scanline == 0 && final(self).frame == (if old(self).frame == u64::MAX {
                    0u64
                } else {
                    (old(self).frame + 1) as u64
                })
            } else {
                final(self).scanline == old(self).scanline + 1
                    && final(self).frame == old(self).frame
            }),
            final(self).scanline == 241 && final(self).cycle == 1 ==> final(self).status.vblank
                && final(self).nmi_interrupt == ((old(self).ctrl / 128) % 2 == 1 || old(self).nmi_interrupt),
            final(self).scanline == 261 && final(self).cycle == 1 ==> !final(self).status.vblank
                && !final(self).status.sprite_zero_hit && !final(self).status.sprite_overflow
                && !final(self).nmi_interrupt,
            !(final(self).scanline == 241 && final(self).cycle == 1) && !(final(self).scanline
                == 261 && final(self).cycle == 1) ==> final(self).status == old(self).status
                && final(self).nmi_interrupt == old(self).nmi_interrupt,
            old(self).scanline >= 240 || !((old(self).mask / 8) % 2 == 1 || (old(self).mask / 16)
                % 2 == 1) || !(1 <= old(self).cycle <= 256) ==> final(self).framebuffer == old(
                self,
            ).framebuffer,
            old(self).scanline < 240 && ((old(self).mask / 8) % 2 == 1 || (old(self).mask / 16) % 2
                == 1) && 1 <= old(self).cycle <= 256 ==> final(self).framebuffer@ == old(
                self,
            ).framebuffer@.update(
                old(self).scanline * 256 + (old(self).cycle - 1),
                spec_composed_pixel(*old(self), old(self).cycle - 1, old(self).scanline as int),
            ),
    {
        if self.scanline < 240 && self.is_rendering() {
            if self.cycle >= 1 && self.cycle <= 256 {
                self.render_pixel();
            }
        }
        self.cycle = self.cycle + 1;
        if self.cycle > 340 {
            self.cycle = 0;
            self.scanline = self.scanline + 1;
            if self.scanline > 261 {
                self.scanline = 0;
                self.frame = self.frame.wrapping_add(1);
            }
        }
        if self.scanline == 241 && self.cycle == 1 {
            self.status.vblank = true;
            if (self.ctrl / 128) % 2 == 1 {
                self.nmi_interrupt = true;
            }
        }
        if self.scanline == 261 && self.cycle == 1 {
            self.status.vblank = false;
            self.status.sprite_zero_hit = false;
            self.status.sprite_overflow = false;
            self.nmi_interrupt = false;
        }
    }
}

} // verus!
