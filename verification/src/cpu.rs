use vstd::prelude::*;

verus! {

/// Status flag mask: carry.
pub const CARRY: u8 = 0x01;

/// Status flag mask: zero.
pub const ZERO: u8 = 0x02;

/// Status flag mask: interrupt disable.
pub const INTERRUPT: u8 = 0x04;

/// Status flag mask: decimal mode (unused on the NES).
pub const DECIMAL: u8 = 0x08;

/// Status flag mask: break command.
pub const BREAK: u8 = 0x10;

/// Status flag mask: the always-set bit 5.
pub const UNUSED: u8 = 0x20;

/// Status flag mask: overflow.
pub const OVERFLOW: u8 = 0x40;

/// Status flag mask: negative.
pub const NEGATIVE: u8 = 0x80;

/// The 6502 processor status, one field per flag. The packed byte layout
/// (carry in bit 0 up to negative in bit 7) appears on the stack via PHP
/// and BRK and is rebuilt by PLP and RTI.
#[derive(Debug, Clone, Copy, PartialEq, Eq, Structural)]
pub struct StatusFlags {
    /// Carry (bit 0).
    pub carry: bool,
    /// Zero (bit 1).
    pub zero: bool,
    /// Interrupt disable (bit 2).
    pub interrupt: bool,
    /// Decimal mode (bit 3); never consulted on the NES.
    pub decimal: bool,
    /// Break command (bit 4); only meaningful in the pushed byte.
    pub brk: bool,
    /// Bit 5, which reads as 1 whenever the status byte is observed.
    pub unused: bool,
    /// Overflow (bit 6).
    pub overflow: bool,
    /// Negative (bit 7).
    pub negative: bool,
}

impl StatusFlags {
    /// The packed status byte: each flag contributes its bit.
    pub open spec fn spec_bits(self) -> u8 {
        ((if self.carry { 0x01int } else { 0 }) + (if self.zero { 0x02int } else { 0 })
            + (if self.interrupt { 0x04int } else { 0 }) + (if self.decimal { 0x08int } else { 0 })
            + (if self.brk { 0x10int } else { 0 }) + (if self.unused { 0x20int } else { 0 })
            + (if self.overflow { 0x40int } else { 0 }) + (if self.negative { 0x80int } else { 0 })) as u8
    }

    /// The flags encoded by a packed status byte.
    pub open spec fn spec_from_bits(b: u8) -> StatusFlags {
        StatusFlags {
            carry: b % 2 == 1,
            zero: (b / 2) % 2 == 1,
            interrupt: (b / 4) % 2 == 1,
            decimal: (b / 8) % 2 == 1,
            brk: (b / 16) % 2 == 1,
            unused: (b / 32) % 2 == 1,
            overflow: (b / 64) % 2 == 1,
            negative: (b / 128) % 2 == 1,
        }
    }

    /// The state of the flags selected by a mask: true when every flag
    /// whose bit is in `mask` is set (and vacuously for an empty mask).
    pub open spec fn spec_contains(self, mask: u8) -> bool {
        (mask % 2 == 1 ==> self.carry) && ((mask / 2) % 2 == 1 ==> self.zero)
            && ((mask / 4) % 2 == 1 ==> self.interrupt) && ((mask / 8) % 2 == 1 ==> self.decimal)
            && ((mask / 16) % 2 == 1 ==> self.brk) && ((mask / 32) % 2 == 1 ==> self.unused)
            && ((mask / 64) % 2 == 1 ==> self.overflow) && ((mask / 128) % 2 == 1 ==> self.negative)
    }

    /// The flags after every flag selected by `mask` is set to `value`.
    pub open spec fn spec_assign(self, mask: u8, value: bool) -> StatusFlags {
        StatusFlags {
            carry: if mask % 2 == 1 { value } else { self.carry },
            zero: if (mask / 2) % 2 == 1 { value } else { self.zero },
            interrupt: if (mask / 4) % 2 == 1 { value } else { self.interrupt },
            decimal: if (mask / 8) % 2 == 1 { value } else { self.decimal },
            brk: if (mask / 16) % 2 == 1 { value } else { self.brk },
            unused: if (mask / 32) % 2 == 1 { value } else { self.unused },
            overflow: if (mask / 64) % 2 == 1 { value } else { self.overflow },
            negative: if (mask / 128) % 2 == 1 { value } else { self.negative },
        }
    }

    /// The flags at power-on and after reset: interrupt disable and the
    /// always-set bit.
    pub open spec fn spec_initial() -> StatusFlags {
        StatusFlags {
            carry: false,
            zero: false,
            interrupt: true,
            decimal: false,
            brk: false,
            unused: true,
            overflow: false,
            negative: false,
        }
    }

    /// The power-on flags: interrupt disable and the always-set bit.
    pub fn initial() -> (r: StatusFlags)
        ensures
            r == StatusFlags::spec_initial(),
    {
        StatusFlags {
            carry: false,
            zero: false,
            interrupt: true,
            decimal: false,
            brk: false,
            unused: true,
            overflow: false,
            negative: false,
        }
    }

    /// Pack the flags into the status byte pushed on the stack.
    pub fn bits(&self) -> (r: u8)
        ensures
            r == self.spec_bits(),
    {
        let b: u8 = (if self.carry { 0x01u8 } else { 0 }) + (if self.zero { 0x02u8 } else { 0 })
            + (if self.interrupt { 0x04u8 } else { 0 }) + (if self.decimal { 0x08u8 } else { 0 })
            + (if self.brk { 0x10u8 } else { 0 }) + (if self.unused { 0x20u8 } else { 0 })
            + (if self.overflow { 0x40u8 } else { 0 }) + (if self.negative { 0x80u8 } else { 0 });
        b
    }

    /// Rebuild flags from a packed status byte, as PLP and RTI receive it.
    pub fn from_bits(b: u8) -> (r: StatusFlags)
        ensures
            r == StatusFlags::spec_from_bits(b),
    {
        StatusFlags {
            carry: b % 2 == 1,
            zero: (b / 2) % 2 == 1,
            interrupt: (b / 4) % 2 == 1,
            decimal: (b / 8) % 2 == 1,
            brk: (b / 16) % 2 == 1,
            unused: (b / 32) % 2 == 1,
            overflow: (b / 64) % 2 == 1,
            negative: (b / 128) % 2 == 1,
        }
    }
}

/// Unpacking a packed status byte recovers exactly the flags that were
/// packed, and the packed byte of any flags with bit 5 set has bit 5 set:
/// the status observed through PHP always shows the always-set bit.
pub proof fn lemma_status_bits_roundtrip(f: StatusFlags)
    ensures
        StatusFlags::spec_from_bits(f.spec_bits()) == f,
        f.unused ==> (f.spec_bits() & UNUSED) == UNUSED,
{
    let c: u8 = if f.carry { 1 } else { 0 };
    let z: u8 = if f.zero { 1 } else { 0 };
    let i: u8 = if f.interrupt { 1 } else { 0 };
    let d: u8 = if f.decimal { 1 } else { 0 };
    let b: u8 = if f.brk { 1 } else { 0 };
    let u: u8 = if f.unused { 1 } else { 0 };
    let v: u8 = if f.overflow { 1 } else { 0 };
    let n: u8 = if f.negative { 1 } else { 0 };
    let bits = f.spec_bits();
    assert(bits == c + 2 * z + 4 * i + 8 * d + 16 * b + 32 * u + 64 * v + 128 * n);
    assert(bits % 2 == c && (bits / 2) % 2 == z && (bits / 4) % 2 == i && (bits / 8) % 2 == d
        && (bits / 16) % 2 == b && (bits / 32) % 2 == u && (bits / 64) % 2 == v
        && (bits / 128) % 2 == n && (u == 1 ==> (bits & 0x20) == 0x20)) by (bit_vector)
        requires
            c <= 1 && z <= 1 && i <= 1 && d <= 1 && b <= 1 && u <= 1 && v <= 1 && n <= 1
                && bits == c + 2 * z + 4 * i + 8 * d + 16 * b + 32 * u + 64 * v + 128 * n,
    ;
}

/// The program counter after one byte is consumed, wrapping at the top
/// of the address space.
pub open spec fn spec_next_pc(pc: u16) -> u16 {
    if pc == 0xFFFF {
        0u16
    } else {
        (pc + 1) as u16
    }
}

/// Memory as seen by the CPU: reads and writes may have side effects in
/// the device behind the bus, so both take the memory mutably. The
/// implementation supplies a model of itself: its well-formedness
/// `inv`, the value `peek` a read returns, which addresses are free of
/// read side effects (`read_stable`), the relation `write_rel` a write
/// establishes, and a device-clock view `clock` that plain accesses
/// never advance.
pub trait CpuMemory: Sized {
    /// The implementation's own well-formedness.
    spec fn inv(&self) -> bool;

    /// The value a read returns, as a function of the current state.
    spec fn peek(&self, addr: u16) -> u8;

    /// Whether a read at this address leaves every peeked value as it
    /// was (no read side effects).
    spec fn read_stable(addr: u16) -> bool;

    /// How a write relates the state before it to the state after it.
    spec fn write_rel(pre: Self, post: Self, addr: u16, value: u8) -> bool;

    /// A device-clock view - whatever the implementation counts - that
    /// plain reads and writes never advance.
    spec fn clock(&self) -> (u64, u64);

    /// Read one byte; the access may have bus-level side effects, but
    /// returns the peeked value and never advances the device clock.
    fn read(&mut self, addr: u16) -> (r: u8)
        requires
            old(self).inv(),
        ensures
            final(self).inv(),
            r == old(self).peek(addr),
            final(self).clock() == old(self).clock(),
            Self::read_stable(addr) ==> forall|a: u16|
                final(self).peek(a) == old(self).peek(a),
    ;

    /// Write one byte, establishing the implementation's write relation.
    fn write(&mut self, addr: u16, value: u8)
        requires
            old(self).inv(),
        ensures
            final(self).inv(),
            final(self).clock() == old(self).clock(),
            Self::write_rel(*old(self), *final(self), addr, value),
    ;
}

/// The 6502 CPU: registers, status flags, a cycle counter, and the
/// memory interface it executes against.
pub struct Cpu6502<M: CpuMemory> {
    /// Accumulator.
    pub a: u8,
    /// X index register.
    pub x: u8,
    /// Y index register.
    pub y: u8,
    /// Stack pointer; the stack lives in $0100-$01FF.
    pub sp: u8,
    /// Program counter.
    pub pc: u16,
    /// Status flags.
    pub status: StatusFlags,
    /// Memory interface.
    pub memory: M,
    /// Total cycles executed.
    pub cycles: u64,
    /// Whether an NMI is pending and will be serviced before the next
    /// instruction.
    pub nmi_pending: bool,
}

impl<M: CpuMemory> Cpu6502<M> {
    /// A CPU in its power-on state over the given memory.
    pub fn new(memory: M) -> (r: Cpu6502<M>)
        ensures
            r.a == 0 && r.x == 0 && r.y == 0 && r.sp == 0xFD && r.pc == 0 && r.cycles == 0
                && r.status == StatusFlags::spec_initial() && !r.nmi_pending,
            r.memory == memory,
    {
        Cpu6502 {
            a: 0,
            x: 0,
            y: 0,
            sp: 0xFD,
            pc: 0,
            status: StatusFlags::initial(),
            memory,
            cycles: 0,
            nmi_pending: false,
        }
    }

    /// Set every status flag selected by `flag` to `value`.
    pub fn set_flag(&mut self, flag: u8, value: bool)
        ensures
            final(self).status == old(self).status.spec_assign(flag, value),
            final(self).a == old(self).a && final(self).x == old(self).x
                && final(self).y == old(self).y && final(self).sp == old(self).sp
                && final(self).pc == old(self).pc && final(self).cycles == old(self).cycles
                && final(self).memory == old(self).memory
                && final(self).nmi_pending == old(self).nmi_pending,
    {
        let s = self.status;
        self.status = StatusFlags {
            carry: if flag % 2 == 1 { value } else { s.carry },
            zero: if (flag / 2) % 2 == 1 { value } else { s.zero },
            interrupt: if (flag / 4) % 2 == 1 { value } else { s.interrupt },
            decimal: if (flag / 8) % 2 == 1 { value } else { s.decimal },
            brk: if (flag / 16) % 2 == 1 { value } else { s.brk },
            unused: if (flag / 32) % 2 == 1 { value } else { s.unused },
            overflow: if (flag / 64) % 2 == 1 { value } else { s.overflow },
            negative: if (flag / 128) % 2 == 1 { value } else { s.negative },
        };
    }

    /// Whether every status flag selected by `flag` is set.
    pub fn get_flag(&self, flag: u8) -> (r: bool)
        ensures
            r == self.status.spec_contains(flag),
    {
        (flag % 2 == 0 || self.status.carry) && ((flag / 2) % 2 == 0 || self.status.zero)
            && ((flag / 4) % 2 == 0 || self.status.interrupt)
            && ((flag / 8) % 2 == 0 || self.status.decimal)
            && ((flag / 16) % 2 == 0 || self.status.brk)
            && ((flag / 32) % 2 == 0 || self.status.unused)
            && ((flag / 64) % 2 == 0 || self.status.overflow)
            && ((flag / 128) % 2 == 0 || self.status.negative)
    }

    /// Set the zero and negative flags from a result value: zero exactly
    /// when the value is 0, negative exactly when bit 7 is set.
    pub fn update_zn(&mut self, value: u8)
        ensures
            final(self).status == (StatusFlags {
                zero: value == 0,
                negative: value >= 0x80,
                ..old(self).status
            }),
            final(self).a == old(self).a && final(self).x == old(self).x
                && final(self).y == old(self).y && final(self).sp == old(self).sp
                && final(self).pc == old(self).pc && final(self).cycles == old(self).cycles
                && final(self).memory == old(self).memory
                && final(self).nmi_pending == old(self).nmi_pending,
    {
        self.status.zero = value == 0;
        self.status.negative = value >= 0x80;
    }

    /// Push a byte onto the stack at $0100|SP, then decrement SP, which
    /// wraps modulo 256.
    pub fn push(&mut self, value: u8)
        requires
            old(self).memory.inv(),
        ensures
            final(self).memory.inv(),
            final(self).memory.clock() == old(self).memory.clock(),
            M::write_rel(
                old(self).memory,
                final(self).memory,
                (0x0100 + old(self).sp) as u16,
                value,
            ),
            final(self).sp == (if old(self).sp == 0 { 0xFFu8 } else { (old(self).sp - 1) as u8 }),
            final(self).a == old(self).a && final(self).x == old(self).x
                && final(self).y == old(self).y && final(self).pc == old(self).pc
                && final(self).status == old(self).status
                && final(self).cycles == old(self).cycles
                && final(self).nmi_pending == old(self).nmi_pending,
    {
        let addr: u16 = 0x0100 + self.sp as u16;
        self.memory.write(addr, value);
        self.sp = self.sp.wrapping_sub(1);
    }

    /// Pop a byte from the stack: increment SP (wrapping), then read.
    pub fn pop(&mut self) -> (r: u8)
        requires
            old(self).memory.inv(),
        ensures
            final(self).memory.inv(),
            final(self).memory.clock() == old(self).memory.clock(),
            final(self).sp == (if old(self).sp == 0xFF { 0u8 } else { (old(self).sp + 1) as u8 }),
            r == old(self).memory.peek((0x0100 + final(self).sp) as u16),
            final(self).a == old(self).a && final(self).x == old(self).x
                && final(self).y == old(self).y && final(self).pc == old(self).pc
                && final(self).status == old(self).status
                && final(self).cycles == old(self).cycles
                && final(self).nmi_pending == old(self).nmi_pending,
    {
        self.sp = self.sp.wrapping_add(1);
        let addr: u16 = 0x0100 + self.sp as u16;
        self.memory.read(addr)
    }

    /// Push a 16-bit word, high byte first.
    pub fn push_word(&mut self, value: u16)
        requires
            old(self).memory.inv(),
        ensures
            final(self).memory.inv(),
            final(self).memory.clock() == old(self).memory.clock(),
            final(self).sp as int == (old(self).sp - 2) % 256,
            final(self).a == old(self).a && final(self).x == old(self).x
                && final(self).y == old(self).y && final(self).pc == old(self).pc
                && final(self).status == old(self).status
                && final(self).cycles == old(self).cycles
                && final(self).nmi_pending == old(self).nmi_pending,
    {
        self.push((value / 256) as u8);
        self.push((value % 256) as u8);
    }

    /// Pop a 16-bit word, low byte first.
    pub fn pop_word(&mut self) -> (r: u16)
        requires
            old(self).memory.inv(),
        ensures
            final(self).memory.inv(),
            final(self).memory.clock() == old(self).memory.clock(),
            final(self).sp as int == (old(self).sp + 2) % 256,
            final(self).a == old(self).a && final(self).x == old(self).x
                && final(self).y == old(self).y && final(self).pc == old(self).pc
                && final(self).status == old(self).status
                && final(self).cycles == old(self).cycles
                && final(self).nmi_pending == old(self).nmi_pending,
    {
        let lo = self.pop();
        let hi = self.pop();
        hi as u16 * 256 + lo as u16
    }

    /// Read the byte at PC and advance PC, wrapping modulo 65536.
    pub fn fetch_byte(&mut self) -> (r: u8)
        requires
            old(self).memory.inv(),
        ensures
            final(self).memory.inv(),
            final(self).memory.clock() == old(self).memory.clock(),
            final(self).pc as int == (old(self).pc + 1) % 0x10000,
            r == old(self).memory.peek(old(self).pc),
            M::read_stable(old(self).pc) ==> forall|a: u16|
                final(self).memory.peek(a) == old(self).memory.peek(a),
            final(self).a == old(self).a && final(self).x == old(self).x
                && final(self).y == old(self).y && final(self).sp == old(self).sp
                && final(self).status == old(self).status
                && final(self).cycles == old(self).cycles
                && final(self).nmi_pending == old(self).nmi_pending,
    {
        let pc = self.pc;
        let byte = self.memory.read(pc);
        self.pc = self.pc.wrapping_add(1);
        byte
    }

    /// Read the little-endian word at `addr` (the high byte at `addr`+1,
    /// wrapping), without touching PC.
    pub fn read_word(&mut self, addr: u16) -> (r: u16)
        requires
            old(self).memory.inv(),
        ensures
            final(self).memory.inv(),
            final(self).memory.clock() == old(self).memory.clock(),
            M::read_stable(addr) ==> r as int == old(self).memory.peek(addr) + 256 * old(
                self,
            ).memory.peek(spec_next_pc(addr)),
            M::read_stable(addr) && M::read_stable(spec_next_pc(addr)) ==> forall|a: u16|
                final(self).memory.peek(a) == old(self).memory.peek(a),
            final(self).a == old(self).a && final(self).x == old(self).x
                && final(self).y == old(self).y && final(self).sp == old(self).sp
                && final(self).pc == old(self).pc && final(self).status == old(self).status
                && final(self).cycles == old(self).cycles
                && final(self).nmi_pending == old(self).nmi_pending,
    {
        let lo = self.memory.read(addr);
        let hi = self.memory.read(addr.wrapping_add(1));
        hi as u16 * 256 + lo as u16
    }

    /// Read the little-endian word at PC and advance PC by 2.
    pub fn fetch_word(&mut self) -> (r: u16)
        requires
            old(self).memory.inv(),
        ensures
            final(self).memory.inv(),
            final(self).memory.clock() == old(self).memory.clock(),
            final(self).pc as int == (old(self).pc + 2) % 0x10000,
            M::read_stable(old(self).pc) ==> r as int == old(self).memory.peek(old(self).pc) + 256
                * old(self).memory.peek(spec_next_pc(old(self).pc)),
            M::read_stable(old(self).pc) && M::read_stable(spec_next_pc(old(self).pc))
                ==> forall|a: u16| final(self).memory.peek(a) == old(self).memory.peek(a),
            final(self).a == old(self).a && final(self).x == old(self).x
                && final(self).y == old(self).y && final(self).sp == old(self).sp
                && final(self).status == old(self).status
                && final(self).cycles == old(self).cycles
                && final(self).nmi_pending == old(self).nmi_pending,
    {
        let lo = self.fetch_byte();
        let hi = self.fetch_byte();
        hi as u16 * 256 + lo as u16
    }

    /// Zero-page operand address: $00nn.
    pub fn addr_zero_page(&mut self) -> (r: u16)
        requires
            old(self).memory.inv(),
        ensures
            final(self).memory.inv(),
            final(self).memory.clock() == old(self).memory.clock(),
            r < 0x100,
            final(self).pc as int == (old(self).pc + 1) % 0x10000,
            final(self).a == old(self).a && final(self).x == old(self).x
                && final(self).y == old(self).y && final(self).sp == old(self).sp
                && final(self).status == old(self).status
                && final(self).cycles == old(self).cycles
                && final(self).nmi_pending == old(self).nmi_pending,
    {
        self.fetch_byte() as u16
    }

    /// Zero-page,X operand address; the sum wraps within page 0.
    pub fn addr_zero_page_x(&mut self) -> (r: u16)
        requires
            old(self).memory.inv(),
        ensures
            final(self).memory.inv(),
            final(self).memory.clock() == old(self).memory.clock(),
            r < 0x100,
            final(self).pc as int == (old(self).pc + 1) % 0x10000,
            final(self).a == old(self).a && final(self).x == old(self).x
                && final(self).y == old(self).y && final(self).sp == old(self).sp
                && final(self).status == old(self).status
                && final(self).cycles == old(self).cycles
                && final(self).nmi_pending == old(self).nmi_pending,
    {
        let b = self.fetch_byte();
        b.wrapping_add(self.x) as u16
    }

    /// Zero-page,Y operand address; the sum wraps within page 0.
    pub fn addr_zero_page_y(&mut self) -> (r: u16)
        requires
            old(self).memory.inv(),
        ensures
            final(self).memory.inv(),
            final(self).memory.clock() == old(self).memory.clock(),
            r < 0x100,
            final(self).pc as int == (old(self).pc + 1) % 0x10000,
            final(self).a == old(self).a && final(self).x == old(self).x
                && final(self).y == old(self).y && final(self).sp == old(self).sp
                && final(self).status == old(self).status
                && final(self).cycles == old(self).cycles
                && final(self).nmi_pending == old(self).nmi_pending,
    {
        let b = self.fetch_byte();
        b.wrapping_add(self.y) as u16
    }

    /// Absolute operand address: the word after the opcode.
    pub fn addr_absolute(&mut self) -> (r: u16)
        requires
            old(self).memory.inv(),
        ensures
            final(self).memory.inv(),
            final(self).memory.clock() == old(self).memory.clock(),
            final(self).pc as int == (old(self).pc + 2) % 0x10000,
            M::read_stable(old(self).pc) ==> r as int == old(self).memory.peek(old(self).pc) + 256
                * old(self).memory.peek(spec_next_pc(old(self).pc)),
            final(self).a == old(self).a && final(self).x == old(self).x
                && final(self).y == old(self).y && final(self).sp == old(self).sp
                && final(self).status == old(self).status
                && final(self).cycles == old(self).cycles
                && final(self).nmi_pending == old(self).nmi_pending,
    {
        self.fetch_word()
    }

    /// Absolute,X operand address and whether indexing crossed a page.
    pub fn addr_absolute_x(&mut self) -> (r: (u16, bool))
        requires
            old(self).memory.inv(),
        ensures
            final(self).memory.inv(),
            final(self).memory.clock() == old(self).memory.clock(),
            final(self).pc as int == (old(self).pc + 2) % 0x10000,
            final(self).a == old(self).a && final(self).x == old(self).x
                && final(self).y == old(self).y && final(self).sp == old(self).sp
                && final(self).status == old(self).status
                && final(self).cycles == old(self).cycles
                && final(self).nmi_pending == old(self).nmi_pending,
    {
        let base = self.fetch_word();
        let addr = base.wrapping_add(self.x as u16);
        let page_crossed = base / 256 != addr / 256;
        (addr, page_crossed)
    }

    /// Absolute,Y operand address and whether indexing crossed a page.
    pub fn addr_absolute_y(&mut self) -> (r: (u16, bool))
        requires
            old(self).memory.inv(),
        ensures
            final(self).memory.inv(),
            final(self).memory.clock() == old(self).memory.clock(),
            final(self).pc as int == (old(self).pc + 2) % 0x10000,
            final(self).a == old(self).a && final(self).x == old(self).x
                && final(self).y == old(self).y && final(self).sp == old(self).sp
                && final(self).status == old(self).status
                && final(self).cycles == old(self).cycles
                && final(self).nmi_pending == old(self).nmi_pending,
    {
        let base = self.fetch_word();
        let addr = base.wrapping_add(self.y as u16);
        let page_crossed = base / 256 != addr / 256;
        (addr, page_crossed)
    }

    /// Indirect operand address (JMP only), reproducing the 6502 bug: a
    /// pointer at $xxFF takes its high byte from $xx00 of the same page.
    pub fn addr_indirect(&mut self) -> (r: u16)
        requires
            old(self).memory.inv(),
        ensures
            final(self).memory.inv(),
            final(self).memory.clock() == old(self).memory.clock(),
            final(self).pc as int == (old(self).pc + 2) % 0x10000,
            ({
                let m = old(self).memory;
                let pc1 = spec_next_pc(old(self).pc);
                let ptr: int = m.peek(old(self).pc) + 256 * m.peek(pc1);
                let high_addr: int = if ptr % 256 == 0xFF {
                    ptr - 0xFF
                } else if ptr == 0xFFFF {
                    0int
                } else {
                    ptr + 1
                };
                (M::read_stable(old(self).pc) && M::read_stable(pc1) && M::read_stable(ptr as u16)
                    && M::read_stable(high_addr as u16)) ==> r as int == m.peek(ptr as u16) + 256
                    * m.peek(high_addr as u16)
            }),
            final(self).a == old(self).a && final(self).x == old(self).x
                && final(self).y == old(self).y && final(self).sp == old(self).sp
                && final(self).status == old(self).status
                && final(self).cycles == old(self).cycles
                && final(self).nmi_pending == old(self).nmi_pending,
    {
        let ptr = self.fetch_word();
        if ptr % 256 == 0xFF {
            let lo = self.memory.read(ptr);
            let hi = self.memory.read(ptr - 0xFF);
            hi as u16 * 256 + lo as u16
        } else {
            self.read_word(ptr)
        }
    }

    /// Indexed-indirect `(d,X)` operand address: the pointer `d`+X wraps
    /// in page 0 and its two bytes are read there.
    pub fn addr_indexed_indirect(&mut self) -> (r: u16)
        requires
            old(self).memory.inv(),
        ensures
            final(self).memory.inv(),
            final(self).memory.clock() == old(self).memory.clock(),
            final(self).pc as int == (old(self).pc + 1) % 0x10000,
            final(self).a == old(self).a && final(self).x == old(self).x
                && final(self).y == old(self).y && final(self).sp == old(self).sp
                && final(self).status == old(self).status
                && final(self).cycles == old(self).cycles
                && final(self).nmi_pending == old(self).nmi_pending,
    {
        let b = self.fetch_byte();
        let ptr = b.wrapping_add(self.x);
        let lo = self.memory.read(ptr as u16);
        let hi = self.memory.read(ptr.wrapping_add(1) as u16);
        hi as u16 * 256 + lo as u16
    }

    /// Indirect-indexed `(d),Y` operand address and whether adding Y
    /// crossed a page.
    pub fn addr_indirect_indexed(&mut self) -> (r: (u16, bool))
        requires
            old(self).memory.inv(),
        ensures
            final(self).memory.inv(),
            final(self).memory.clock() == old(self).memory.clock(),
            final(self).pc as int == (old(self).pc + 1) % 0x10000,
            final(self).a == old(self).a && final(self).x == old(self).x
                && final(self).y == old(self).y && final(self).sp == old(self).sp
                && final(self).status == old(self).status
                && final(self).cycles == old(self).cycles
                && final(self).nmi_pending == old(self).nmi_pending,
    {
        let ptr = self.fetch_byte();
        let lo = self.memory.read(ptr as u16);
        let hi = self.memory.read(ptr.wrapping_add(1) as u16);
        let base = hi as u16 * 256 + lo as u16;
        let addr = base.wrapping_add(self.y as u16);
        let page_crossed = base / 256 != addr / 256;
        (addr, page_crossed)
    }

    /// Reset the CPU: clear the registers, set SP to $FD and the flags
    /// to interrupt-disable plus the always-set bit, load PC from the
    /// reset vector at $FFFC/D, and zero the cycle counter.
    pub fn reset(&mut self)
        requires
            old(self).memory.inv(),
        ensures
            final(self).memory.inv(),
            final(self).memory.clock() == old(self).memory.clock(),
            final(self).a == 0 && final(self).x == 0 && final(self).y == 0
                && final(self).sp == 0xFD && final(self).cycles == 0
                && final(self).status == StatusFlags::spec_initial()
                && !final(self).nmi_pending,
    {
        self.a = 0;
        self.x = 0;
        self.y = 0;
        self.sp = 0xFD;
        self.status = StatusFlags::initial();
        self.pc = self.read_word(0xFFFC);
        self.cycles = 0;
        self.nmi_pending = false;
    }

    /// Service a non-maskable interrupt: push PC (high byte first) and
    /// the status with Break clear and the always-set bit set, disable
    /// interrupts, and load PC from the NMI vector at $FFFA/B.
    pub fn nmi(&mut self)
        requires
            old(self).memory.inv(),
        ensures
            final(self).memory.inv(),
            final(self).memory.clock() == old(self).memory.clock(),
            final(self).a == old(self).a && final(self).x == old(self).x
                && final(self).y == old(self).y,
            final(self).sp as int == (old(self).sp - 3) % 256,
            final(self).status == (StatusFlags { interrupt: true, ..old(self).status }),
            final(self).cycles == old(self).cycles,
            final(self).nmi_pending == old(self).nmi_pending,
    {
        let pc = self.pc;
        self.push_word(pc);
        let mut f = self.status;
        f.brk = false;
        f.unused = true;
        let b = f.bits();
        self.push(b);
        self.status.interrupt = true;
        self.pc = self.read_word(0xFFFA);
    }
}

} // verus!
