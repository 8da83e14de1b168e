use vstd::prelude::*;

use crate::error::EmulatorError;

verus! {

/// Nametable mirroring arrangement requested by a cartridge.
#[derive(Debug, Clone, Copy, PartialEq, Eq, Structural)]
pub enum Mirroring {
    Horizontal,
    Vertical,
    FourScreen,
}

/// The parsed 16-byte iNES file header.
#[derive(Debug, Clone, Copy, PartialEq, Eq, Structural)]
pub struct INesHeader {
    /// Number of 16 KiB PRG-ROM banks.
    pub prg_rom_banks: u8,
    /// Number of 8 KiB CHR-ROM banks; 0 means 8 KiB of CHR-RAM.
    pub chr_rom_banks: u8,
    /// Mapper number.
    pub mapper: u8,
    /// Nametable mirroring.
    pub mirroring: Mirroring,
    /// Whether the cartridge has battery-backed PRG-RAM.
    pub has_battery: bool,
    /// Whether a 512-byte trainer precedes the PRG data.
    pub has_trainer: bool,
}

/// Whether the first bytes carry the iNES magic "NES\x1A" and a full
/// 16-byte header is present.
pub open spec fn spec_header_parses(bytes: Seq<u8>) -> bool {
    bytes.len() >= 16 && bytes[0] == 0x4Eu8 && bytes[1] == 0x45u8 && bytes[2] == 0x53u8
        && bytes[3] == 0x1Au8
}

/// The mirroring encoded in flags byte 6: bit 3 selects four-screen,
/// else bit 0 selects vertical over horizontal.
pub open spec fn spec_mirroring(flags6: u8) -> Mirroring {
    if (flags6 / 8) % 2 == 1 {
        Mirroring::FourScreen
    } else if flags6 % 2 == 1 {
        Mirroring::Vertical
    } else {
        Mirroring::Horizontal
    }
}

/// The header described by a well-formed iNES image: bank counts from
/// bytes 4 and 5, the mapper from the high nibbles of flag bytes 7 and
/// 6, and mirroring, battery and trainer bits from flags byte 6.
pub open spec fn spec_header(bytes: Seq<u8>) -> INesHeader {
    INesHeader {
        prg_rom_banks: bytes[4],
        chr_rom_banks: bytes[5],
        mapper: ((bytes[7] / 16) * 16 + bytes[6] / 16) as u8,
        mirroring: spec_mirroring(bytes[6]),
        has_battery: (bytes[6] / 2) % 2 == 1,
        has_trainer: (bytes[6] / 4) % 2 == 1,
    }
}

/// The 16 header bytes that encode this header's logical fields.
pub open spec fn spec_serialize_header(h: INesHeader) -> Seq<u8> {
    seq![
        0x4Eu8,
        0x45u8,
        0x53u8,
        0x1Au8,
        h.prg_rom_banks,
        h.chr_rom_banks,
        (((h.mapper % 16) * 16) + (if h.mirroring is FourScreen {
            8int
        } else {
            0int
        }) + (if h.has_trainer { 4int } else { 0int }) + (if h.has_battery {
            2int
        } else {
            0int
        }) + (if h.mirroring is Vertical { 1int } else { 0int })) as u8,
        ((h.mapper / 16) * 16) as u8,
        0u8,
        0u8,
        0u8,
        0u8,
        0u8,
        0u8,
        0u8,
        0u8,
    ]
}

impl INesHeader {
    /// Parse the iNES header from the first 16 bytes of a ROM image.
    /// Succeeds exactly when 16 bytes and the magic number are present.
    pub fn parse(bytes: &[u8]) -> (r: Result<INesHeader, EmulatorError>)
        ensures
            (r is Ok) == spec_header_parses(bytes@),
            r matches Ok(h) ==> h == spec_header(bytes@),
            r matches Err(e) ==> e is RomLoadError,
    {
        if bytes.len() < 16 {
            return Err(EmulatorError::RomLoadError("Header too short".to_string()));
        }
        if !(bytes[0] == 0x4E && bytes[1] == 0x45 && bytes[2] == 0x53 && bytes[3] == 0x1A) {
            return Err(EmulatorError::RomLoadError("Invalid iNES magic number".to_string()));
        }
        let prg_rom_banks = bytes[4];
        let chr_rom_banks = bytes[5];
        let flags6 = bytes[6];
        let flags7 = bytes[7];
        let mapper = (flags7 / 16) * 16 + flags6 / 16;
        let four_screen = (flags6 / 8) % 2 == 1;
        let vertical = flags6 % 2 == 1;
        let mirroring = if four_screen {
            Mirroring::FourScreen
        } else if vertical {
            Mirroring::Vertical
        } else {
            Mirroring::Horizontal
        };
        let has_battery = (flags6 / 2) % 2 == 1;
        let has_trainer = (flags6 / 4) % 2 == 1;
        Ok(INesHeader { prg_rom_banks, chr_rom_banks, mapper, mirroring, has_battery, has_trainer })
    }

    /// Serialize the logical header fields back into 16 iNES bytes.
    pub fn serialize(&self) -> (r: Vec<u8>)
        ensures
            r@ == spec_serialize_header(*self),
            r@.len() == 16,
    {
        let mirror_bit: u8 = if let Mirroring::Vertical = self.mirroring { 1 } else { 0 };
        let four_screen_bit: u8 = if let Mirroring::FourScreen = self.mirroring { 8 } else { 0 };
        let flags6: u8 = (self.mapper % 16) * 16 + four_screen_bit
            + (if self.has_trainer { 4u8 } else { 0 }) + (if self.has_battery { 2u8 } else { 0 })
            + mirror_bit;
        let flags7: u8 = (self.mapper / 16) * 16;
        let mut out: Vec<u8> = Vec::new();
        out.push(0x4E);
        out.push(0x45);
        out.push(0x53);
        out.push(0x1A);
        out.push(self.prg_rom_banks);
        out.push(self.chr_rom_banks);
        out.push(flags6);
        out.push(flags7);
        out.push(0);
        out.push(0);
        out.push(0);
        out.push(0);
        out.push(0);
        out.push(0);
        out.push(0);
        out.push(0);
        proof {
            assert(out@ =~= spec_serialize_header(*self));
        }
        out
    }
}

/// Serializing a header's logical fields and parsing the result gives
/// back an equal header: the textual form loses nothing.
pub proof fn lemma_header_roundtrip(h: INesHeader)
    ensures
        spec_header_parses(spec_serialize_header(h)),
        spec_header(spec_serialize_header(h)) == h,
{
    let bytes = spec_serialize_header(h);
    let m16 = h.mapper % 16;
    let fs: int = if h.mirroring is FourScreen { 8 } else { 0 };
    let tr: int = if h.has_trainer { 4 } else { 0 };
    let bat: int = if h.has_battery { 2 } else { 0 };
    let v: int = if h.mirroring is Vertical { 1 } else { 0 };
    let b6 = bytes[6];
    assert(b6 == m16 * 16 + fs + tr + bat + v);
    assert(b6 / 16 == m16 && (b6 / 8) % 2 == fs / 8 && (b6 / 4) % 2 == tr / 4 && (b6 / 2) % 2
        == bat / 2 && b6 % 2 == v) by (nonlinear_arith)
        requires
            b6 == m16 * 16 + fs + tr + bat + v && m16 < 16 && (fs == 0 || fs == 8) && (tr == 0
                || tr == 4) && (bat == 0 || bat == 2) && (v == 0 || v == 1),
    ;
    let b7 = bytes[7];
    assert(b7 / 16 == h.mapper / 16) by (nonlinear_arith)
        requires
            b7 == (h.mapper / 16) * 16 && h.mapper < 256,
    ;
    assert(spec_header(bytes).mapper == h.mapper);
    assert(spec_header(bytes).mirroring == h.mirroring);
    assert(spec_header(bytes) == h);
}

/// Bank registers held by the mapper.
#[derive(Debug, Clone, Copy, PartialEq, Eq, Structural)]
pub struct MapperState {
    /// Current PRG bank (mapper 66).
    pub prg_bank: u8,
    /// Current CHR bank (mapper 66).
    pub chr_bank: u8,
}

impl MapperState {
    /// Both bank registers start at 0.
    pub fn new() -> (r: MapperState)
        ensures
            r.prg_bank == 0 && r.chr_bank == 0,
    {
        MapperState { prg_bank: 0, chr_bank: 0 }
    }
}

/// A byte range copied out of a ROM image.
pub(crate) fn copy_range(bytes: &[u8], start: usize, len: usize) -> (r: Vec<u8>)
    requires
        start + len <= bytes@.len(),
    ensures
        r@ == bytes@.subrange(start as int, start + len),
{
    let total = bytes.len();
    let mut out: Vec<u8> = Vec::new();
    let mut i: usize = 0;
    while i < len
        invariant
            i <= len,
            start + len <= total && total == bytes@.len(),
            out@.len() == i,
            forall|j: int| 0 <= j < i ==> out@[j] == bytes@[start + j],
        decreases len - i,
    {
        out.push(bytes[start + i]);
        i = i + 1;
    }
    proof {
        assert(out@ =~= bytes@.subrange(start as int, start + len));
    }
    out
}

/// A vector of `len` zero bytes.
pub(crate) fn zero_vec(len: usize) -> (r: Vec<u8>)
    ensures
        r@ == Seq::<u8>::new(len as nat, |i: int| 0u8),
{
    let mut out: Vec<u8> = Vec::new();
    let mut i: usize = 0;
    while i < len
        invariant
            i <= len,
            out@.len() == i,
            forall|j: int| 0 <= j < i ==> out@[j] == 0u8,
        decreases len - i,
    {
        out.push(0);
        i = i + 1;
    }
    proof {
        assert(out@ =~= Seq::<u8>::new(len as nat, |i: int| 0u8));
    }
    out
}

/// Whether this core implements the mapper: NROM (0) and GxROM (66).
pub open spec fn spec_mapper_supported(mapper: u8) -> bool {
    mapper == 0 || mapper == 66
}

/// Where the PRG data begins: after the header and, when the trainer
/// flag is set, a further 512 bytes.
pub open spec fn spec_data_offset(h: INesHeader) -> int {
    16 + if h.has_trainer {
        512int
    } else {
        0int
    }
}

/// PRG size in bytes: 16 KiB per bank.
pub open spec fn spec_prg_size(h: INesHeader) -> int {
    h.prg_rom_banks * 0x4000
}

/// CHR size in bytes: 8 KiB per bank.
pub open spec fn spec_chr_size(h: INesHeader) -> int {
    h.chr_rom_banks * 0x2000
}

/// How many bytes a ROM image with this header must hold.
pub open spec fn spec_rom_total(h: INesHeader) -> int {
    spec_data_offset(h) + spec_prg_size(h) + spec_chr_size(h)
}

/// An NES cartridge: the PRG and CHR byte arrays, the parsed header,
/// and the mapper's bank registers.
#[derive(Debug, Clone)]
pub struct Cartridge {
    /// PRG-ROM (program code).
    pub prg_rom: Vec<u8>,
    /// CHR-ROM (graphics data), or 8 KiB of CHR-RAM when the header
    /// declares zero CHR banks.
    pub chr_rom: Vec<u8>,
    /// Cartridge header.
    pub header: INesHeader,
    /// Mapper state for banking.
    pub mapper_state: MapperState,
}

/// The byte a PRG read returns, by mapper rule. NROM mirrors a 16 KiB
/// image across $8000-$FFFF and maps a 32 KiB image linearly; GxROM
/// selects a 32 KiB bank. Addresses outside the mapped ROM read as open
/// bus ($FF).
pub open spec fn spec_read_prg(c: Cartridge, addr: u16) -> u8 {
    if c.header.mapper == 0 {
        if c.prg_rom@.len() <= 0x4000 {
            if (addr as int % 0x4000) < c.prg_rom@.len() {
                c.prg_rom@[addr as int % 0x4000]
            } else {
                0xFFu8
            }
        } else {
            if addr >= 0x8000 && addr - 0x8000 < c.prg_rom@.len() {
                c.prg_rom@[addr - 0x8000]
            } else {
                0xFFu8
            }
        }
    } else if c.header.mapper == 66 {
        if addr >= 0x8000 && c.mapper_state.prg_bank * 0x8000 + (addr - 0x8000)
            < c.prg_rom@.len() {
            c.prg_rom@[c.mapper_state.prg_bank * 0x8000 + (addr - 0x8000)]
        } else {
            0xFFu8
        }
    } else {
        0xFFu8
    }
}

/// The byte a CHR read returns: NROM reads the CHR array directly,
/// GxROM through its 8 KiB bank register; out-of-range reads give 0.
pub open spec fn spec_read_chr(c: Cartridge, addr: u16) -> u8 {
    if c.header.mapper == 0 {
        if addr < c.chr_rom@.len() {
            c.chr_rom@[addr as int]
        } else {
            0u8
        }
    } else if c.header.mapper == 66 {
        if c.mapper_state.chr_bank * 0x2000 + addr < c.chr_rom@.len() {
            c.chr_rom@[c.mapper_state.chr_bank * 0x2000 + addr]
        } else {
            0u8
        }
    } else {
        0u8
    }
}

impl Cartridge {
    /// Parse a whole iNES image: header, optional trainer skip, PRG and
    /// CHR data. Fails with a ROM-load error on bad magic or truncation
    /// and with an unsupported-mapper error on any mapper other than
    /// NROM (0) and GxROM (66); a parseable header with an unsupported
    /// mapper reports the mapper even when the image is also truncated.
    /// When the header declares zero CHR banks the cartridge gets 8 KiB
    /// of zeroed CHR-RAM.
    pub fn from_bytes(bytes: &[u8]) -> (r: Result<Cartridge, EmulatorError>)
        ensures
            (r is Ok) == (spec_header_parses(bytes@) && spec_mapper_supported(
                spec_header(bytes@).mapper,
            ) && bytes@.len() >= spec_rom_total(spec_header(bytes@))),
            r matches Ok(c) ==> {
                let h = spec_header(bytes@);
                let off = spec_data_offset(h);
                c.header == h && c.mapper_state == MapperState { prg_bank: 0u8, chr_bank: 0u8 }
                    && c.prg_rom@ == bytes@.subrange(off, off + spec_prg_size(h)) && (if h
                    .chr_rom_banks > 0 {
                    c.chr_rom@ == bytes@.subrange(
                        off + spec_prg_size(h),
                        off + spec_prg_size(h) + spec_chr_size(h),
                    )
                } else {
                    c.chr_rom@ == Seq::<u8>::new(0x2000, |i: int| 0u8)
                })
            },
            r matches Err(e) ==> (e is RomLoadError || e is UnsupportedMapper),
            r matches Err(e) ==> ((e is UnsupportedMapper) == (spec_header_parses(bytes@)
                && !spec_mapper_supported(spec_header(bytes@).mapper))),
            r matches Err(e) ==> (e matches EmulatorError::UnsupportedMapper(m) ==> m
                == spec_header(bytes@).mapper),
    {
        let header = match INesHeader::parse(bytes) {
            Ok(h) => h,
            Err(e) => {
                return Err(e);
            },
        };
        if !(header.mapper == 0 || header.mapper == 66) {
            return Err(EmulatorError::UnsupportedMapper(header.mapper));
        }
        let offset: usize = if header.has_trainer {
            528
        } else {
            16
        };
        let prg_size: usize = header.prg_rom_banks as usize * 0x4000;
        let chr_size: usize = header.chr_rom_banks as usize * 0x2000;
        if bytes.len() < offset + prg_size + chr_size {
            return Err(EmulatorError::RomLoadError("ROM image truncated".to_string()));
        }
        let prg_rom = copy_range(bytes, offset, prg_size);
        let chr_rom = if chr_size > 0 {
            copy_range(bytes, offset + prg_size, chr_size)
        } else {
            zero_vec(0x2000)
        };
        Ok(Cartridge { prg_rom, chr_rom, header, mapper_state: MapperState::new() })
    }

    /// The PRG-ROM bytes.
    pub fn prg_rom(&self) -> (r: &Vec<u8>)
        ensures
            r == &self.prg_rom,
    {
        &self.prg_rom
    }

    /// The CHR-ROM/RAM bytes.
    pub fn chr_rom(&self) -> (r: &Vec<u8>)
        ensures
            r == &self.chr_rom,
    {
        &self.chr_rom
    }

    /// The CHR bytes, mutable, for CHR-RAM writes.
    pub fn chr_rom_mut(&mut self) -> (r: &mut Vec<u8>)
        ensures
            *r == old(self).chr_rom,
            final(self).chr_rom == *final(r),
            final(self).prg_rom == old(self).prg_rom && final(self).header == old(self).header
                && final(self).mapper_state == old(self).mapper_state,
    {
        &mut self.chr_rom
    }

    /// The parsed header.
    pub fn header(&self) -> (r: &INesHeader)
        ensures
            r == &self.header,
    {
        &self.header
    }

    /// Read from the PRG address space, routed by the mapper.
    pub fn read_prg(&self, addr: u16) -> (r: u8)
        ensures
            r == spec_read_prg(*self, addr),
    {
        if self.header.mapper == 0 {
            self.read_prg_mapper0(addr)
        } else if self.header.mapper == 66 {
            self.read_prg_mapper66(addr)
        } else {
            0xFF
        }
    }

    /// NROM PRG read: a 16 KiB image is mirrored, a 32 KiB image linear.
    fn read_prg_mapper0(&self, addr: u16) -> (r: u8)
        requires
            self.header.mapper == 0,
        ensures
            r == spec_read_prg(*self, addr),
    {
        if self.prg_rom.len() <= 0x4000 {
            let rom_addr: usize = (addr % 0x4000) as usize;
            if rom_addr < self.prg_rom.len() {
                self.prg_rom[rom_addr]
            } else {
                0xFF
            }
        } else {
            if addr >= 0x8000 {
                let rom_addr: usize = (addr - 0x8000) as usize;
                if rom_addr < self.prg_rom.len() {
                    self.prg_rom[rom_addr]
                } else {
                    0xFF
                }
            } else {
                0xFF
            }
        }
    }

    /// GxROM PRG read through the selected 32 KiB bank.
    fn read_prg_mapper66(&self, addr: u16) -> (r: u8)
        requires
            self.header.mapper == 66,
        ensures
            r == spec_read_prg(*self, addr),
    {
        if addr >= 0x8000 {
            let rom_addr: usize = self.mapper_state.prg_bank as usize * 0x8000 + (addr - 0x8000)
                as usize;
            if rom_addr < self.prg_rom.len() {
                self.prg_rom[rom_addr]
            } else {
                0xFF
            }
        } else {
            0xFF
        }
    }

    /// Write to the PRG address space: NROM ignores writes; a GxROM
    /// write sets the PRG bank from bits 4-5 and the CHR bank from
    /// bits 0-1.
    pub fn write_prg(&mut self, addr: u16, value: u8)
        ensures
            final(self).prg_rom == old(self).prg_rom && final(self).chr_rom == old(self).chr_rom
                && final(self).header == old(self).header,
            old(self).header.mapper == 66 ==> final(self).mapper_state == (MapperState {
                prg_bank: ((value / 16) % 4) as u8,
                chr_bank: (value % 4) as u8,
            }),
            old(self).header.mapper != 66 ==> final(self).mapper_state == old(self).mapper_state,
    {
        if self.header.mapper == 66 {
            self.mapper_state.prg_bank = (value / 16) % 4;
            self.mapper_state.chr_bank = value % 4;
        }
    }

    /// Read from the CHR address space, routed by the mapper.
    pub fn read_chr(&self, addr: u16) -> (r: u8)
        ensures
            r == spec_read_chr(*self, addr),
    {
        if self.header.mapper == 0 {
            let a = addr as usize;
            if a < self.chr_rom.len() {
                self.chr_rom[a]
            } else {
                0
            }
        } else if self.header.mapper == 66 {
            let a = self.mapper_state.chr_bank as usize * 0x2000 + addr as usize;
            if a < self.chr_rom.len() {
                self.chr_rom[a]
            } else {
                0
            }
        } else {
            0
        }
    }

    /// Write to the CHR address space; lands only when the cartridge has
    /// CHR-RAM (zero declared CHR banks) and the address is in range.
    pub fn write_chr(&mut self, addr: u16, value: u8)
        ensures
            final(self).prg_rom == old(self).prg_rom && final(self).header == old(self).header
                && final(self).mapper_state == old(self).mapper_state,
            final(self).chr_rom@.len() == old(self).chr_rom@.len(),
            old(self).header.chr_rom_banks != 0 ==> final(self).chr_rom == old(self).chr_rom,
            old(self).header.chr_rom_banks == 0 && old(self).header.mapper == 0
                ==> final(self).chr_rom@ == (if addr < old(self).chr_rom@.len() {
                    old(self).chr_rom@.update(addr as int, value)
                } else {
                    old(self).chr_rom@
                }),
            old(self).header.chr_rom_banks == 0 && old(self).header.mapper == 66
                ==> final(self).chr_rom@ == (if old(self).mapper_state.chr_bank * 0x2000 + addr
                    < old(self).chr_rom@.len() {
                    old(self).chr_rom@.update(
                        old(self).mapper_state.chr_bank * 0x2000 + addr,
                        value,
                    )
                } else {
                    old(self).chr_rom@
                }),
    {
        if self.header.chr_rom_banks == 0 {
            if self.header.mapper == 0 {
                let a = addr as usize;
                if a < self.chr_rom.len() {
                    self.chr_rom[a] = value;
                }
            } else if self.header.mapper == 66 {
                let a = self.mapper_state.chr_bank as usize * 0x2000 + addr as usize;
                if a < self.chr_rom.len() {
                    self.chr_rom[a] = value;
                }
            }
        }
    }
}

} // verus!
