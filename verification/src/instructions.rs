use vstd::prelude::*;

use crate::cpu::Cpu6502;
use crate::cpu::CpuMemory;
use crate::cpu::StatusFlags;
use crate::cpu::CARRY;
use crate::cpu::ZERO;
use crate::cpu::OVERFLOW;
use crate::cpu::NEGATIVE;
use crate::error::EmulatorError;
use crate::opcodes::get_opcode_info;
use crate::opcodes::opcode_legal;
use crate::opcodes::opcode_base_cycles;
use crate::opcodes::opcode_branch;
use crate::opcodes::opcode_page_cross;

verus! {

/// The parts of the CPU an accumulator-and-flags instruction leaves
/// alone: every register but A and the flags, the cycle counter, and
/// the memory behind the bus.
pub open spec fn alu_frame<M: CpuMemory>(pre: Cpu6502<M>, post: Cpu6502<M>) -> bool {
    post.x == pre.x && post.y == pre.y && post.sp == pre.sp && post.pc == pre.pc
        && post.cycles == pre.cycles && post.memory == pre.memory
        && post.nmi_pending == pre.nmi_pending
}

/// The number an ADC adds for the incoming carry.
pub open spec fn carry_in(f: StatusFlags) -> int {
    if f.carry { 1int } else { 0int }
}

impl<M: CpuMemory> Cpu6502<M> {
    /// ADC: add the operand and the carry to A. Carry holds exactly when
    /// the unsigned sum exceeds 255; overflow holds exactly when the two
    /// addends share a sign that the result does not.
    pub fn adc(&mut self, value: u8)
        ensures
            alu_frame(*old(self), *final(self)),
            final(self).a as int == (old(self).a + value + carry_in(old(self).status)) % 256,
            final(self).status.carry == (old(self).a + value + carry_in(old(self).status) > 255),
            final(self).status.overflow == ((((old(self).a ^ final(self).a) & (value
                ^ final(self).a)) & 0x80) != 0),
            final(self).status.zero == (final(self).a == 0),
            final(self).status.negative == (final(self).a >= 0x80),
            final(self).status.interrupt == old(self).status.interrupt
                && final(self).status.decimal == old(self).status.decimal
                && final(self).status.brk == old(self).status.brk
                && final(self).status.unused == old(self).status.unused,
    {
        let carry: u16 = if self.status.carry { 1 } else { 0 };
        let sum: u16 = self.a as u16 + value as u16 + carry;
        self.status.carry = sum > 255;
        let result: u8 = (sum % 256) as u8;
        let a0 = self.a;
        self.status.overflow = (((a0 ^ result) & (value ^ result)) & 0x80) != 0;
        self.a = result;
        self.update_zn(result);
    }

    /// SBC: subtract with borrow, which the 6502 performs as an ADC of
    /// the operand's bitwise complement.
    pub fn sbc(&mut self, value: u8)
        ensures
            alu_frame(*old(self), *final(self)),
            final(self).a as int == (old(self).a + (255 - value)
                + carry_in(old(self).status)) % 256,
            final(self).status.carry == (old(self).a + (255 - value)
                + carry_in(old(self).status) > 255),
            final(self).status.overflow == ((((old(self).a ^ final(self).a) & (((255
                - value) as u8) ^ final(self).a)) & 0x80) != 0),
            final(self).status.zero == (final(self).a == 0),
            final(self).status.negative == (final(self).a >= 0x80),
            final(self).status.interrupt == old(self).status.interrupt
                && final(self).status.decimal == old(self).status.decimal
                && final(self).status.brk == old(self).status.brk
                && final(self).status.unused == old(self).status.unused,
    {
        let complement: u8 = 255 - value;
        self.adc(complement);
    }

    /// AND: bitwise-and the operand into A.
    pub fn and(&mut self, value: u8)
        ensures
            alu_frame(*old(self), *final(self)),
            final(self).a == (old(self).a & value),
            final(self).status == (StatusFlags {
                zero: final(self).a == 0,
                negative: final(self).a >= 0x80,
                ..old(self).status
            }),
    {
        self.a = self.a & value;
        let v = self.a;
        self.update_zn(v);
    }

    /// ORA: bitwise-or the operand into A.
    pub fn ora(&mut self, value: u8)
        ensures
            alu_frame(*old(self), *final(self)),
            final(self).a == (old(self).a | value),
            final(self).status == (StatusFlags {
                zero: final(self).a == 0,
                negative: final(self).a >= 0x80,
                ..old(self).status
            }),
    {
        self.a = self.a | value;
        let v = self.a;
        self.update_zn(v);
    }

    /// EOR: bitwise-xor the operand into A.
    pub fn eor(&mut self, value: u8)
        ensures
            alu_frame(*old(self), *final(self)),
            final(self).a == (old(self).a ^ value),
            final(self).status == (StatusFlags {
                zero: final(self).a == 0,
                negative: final(self).a >= 0x80,
                ..old(self).status
            }),
    {
        self.a = self.a ^ value;
        let v = self.a;
        self.update_zn(v);
    }

    /// BIT: copy the operand's bit 7 to Negative and bit 6 to Overflow,
    /// and set Zero exactly when A masks the operand to nothing.
    pub fn bit(&mut self, value: u8)
        ensures
            alu_frame(*old(self), *final(self)),
            final(self).a == old(self).a,
            final(self).status == (StatusFlags {
                zero: (old(self).a & value) == 0,
                overflow: (value & 0x40) != 0,
                negative: value >= 0x80,
                ..old(self).status
            }),
    {
        self.status.zero = (self.a & value) == 0;
        self.status.overflow = (value & 0x40) != 0;
        self.status.negative = value >= 0x80;
    }

    /// Comparison: Carry holds exactly when the register is at least the
    /// operand; Zero and Negative follow the wrapped difference.
    pub fn compare(&mut self, register: u8, value: u8)
        ensures
            alu_frame(*old(self), *final(self)),
            final(self).a == old(self).a,
            final(self).status == (StatusFlags {
                carry: register >= value,
                zero: register == value,
                negative: (register - value) % 256 >= 0x80,
                ..old(self).status
            }),
    {
        let result = register.wrapping_sub(value);
        self.status.carry = register >= value;
        self.update_zn(result);
    }

    /// CMP: compare A with the operand.
    pub fn cmp(&mut self, value: u8)
        ensures
            alu_frame(*old(self), *final(self)),
            final(self).a == old(self).a,
            final(self).status == (StatusFlags {
                carry: old(self).a >= value,
                zero: old(self).a == value,
                negative: (old(self).a - value) % 256 >= 0x80,
                ..old(self).status
            }),
    {
        let r = self.a;
        self.compare(r, value);
    }

    /// CPX: compare X with the operand.
    pub fn cpx(&mut self, value: u8)
        ensures
            alu_frame(*old(self), *final(self)),
            final(self).a == old(self).a,
            final(self).status == (StatusFlags {
                carry: old(self).x >= value,
                zero: old(self).x == value,
                negative: (old(self).x - value) % 256 >= 0x80,
                ..old(self).status
            }),
    {
        let r = self.x;
        self.compare(r, value);
    }

    /// CPY: compare Y with the operand.
    pub fn cpy(&mut self, value: u8)
        ensures
            alu_frame(*old(self), *final(self)),
            final(self).a == old(self).a,
            final(self).status == (StatusFlags {
                carry: old(self).y >= value,
                zero: old(self).y == value,
                negative: (old(self).y - value) % 256 >= 0x80,
                ..old(self).status
            }),
    {
        let r = self.y;
        self.compare(r, value);
    }

    /// ASL on the accumulator: Carry receives the departing bit 7.
    pub fn asl_acc(&mut self)
        ensures
            alu_frame(*old(self), *final(self)),
            final(self).a == (old(self).a % 128) * 2,
            final(self).status == (StatusFlags {
                carry: old(self).a >= 0x80,
                zero: final(self).a == 0,
                negative: final(self).a >= 0x80,
                ..old(self).status
            }),
    {
        self.status.carry = self.a >= 0x80;
        self.a = self.a % 128 * 2;
        let v = self.a;
        self.update_zn(v);
    }

    /// LSR on the accumulator: Carry receives the departing bit 0.
    pub fn lsr_acc(&mut self)
        ensures
            alu_frame(*old(self), *final(self)),
            final(self).a == old(self).a / 2,
            final(self).status == (StatusFlags {
                carry: old(self).a % 2 == 1,
                zero: final(self).a == 0,
                negative: false,
                ..old(self).status
            }),
    {
        self.status.carry = self.a % 2 == 1;
        self.a = self.a / 2;
        let v = self.a;
        self.update_zn(v);
    }

    /// ROL on the accumulator: the prior Carry enters bit 0 and Carry
    /// receives the departing bit 7.
    pub fn rol_acc(&mut self)
        ensures
            alu_frame(*old(self), *final(self)),
            final(self).a as int == (old(self).a % 128) * 2 + carry_in(old(self).status),
            final(self).status == (StatusFlags {
                carry: old(self).a >= 0x80,
                zero: final(self).a == 0,
                negative: final(self).a >= 0x80,
                ..old(self).status
            }),
    {
        let carry: u8 = if self.status.carry { 1 } else { 0 };
        self.status.carry = self.a >= 0x80;
        self.a = self.a % 128 * 2 + carry;
        let v = self.a;
        self.update_zn(v);
    }

    /// ROR on the accumulator: the prior Carry enters bit 7 and Carry
    /// receives the departing bit 0.
    pub fn ror_acc(&mut self)
        ensures
            alu_frame(*old(self), *final(self)),
            final(self).a as int == old(self).a / 2 + (if old(self).status.carry {
                0x80int
            } else {
                0int
            }),
            final(self).status == (StatusFlags {
                carry: old(self).a % 2 == 1,
                zero: final(self).a == 0,
                negative: final(self).a >= 0x80,
                ..old(self).status
            }),
    {
        let carry: u8 = if self.status.carry { 0x80 } else { 0 };
        self.status.carry = self.a % 2 == 1;
        self.a = self.a / 2 + carry;
        let v = self.a;
        self.update_zn(v);
    }

    /// ASL on memory: shift the byte left, Carry from bit 7.
    pub fn asl(&mut self, addr: u16)
        requires
            old(self).memory.inv(),
        ensures
            final(self).memory.inv(),
            final(self).memory.clock() == old(self).memory.clock(),
            final(self).a == old(self).a && final(self).x == old(self).x
                && final(self).y == old(self).y && final(self).sp == old(self).sp
                && final(self).pc == old(self).pc && final(self).cycles == old(self).cycles
                && final(self).nmi_pending == old(self).nmi_pending,
            final(self).status.overflow == old(self).status.overflow
                && final(self).status.interrupt == old(self).status.interrupt
                && final(self).status.decimal == old(self).status.decimal
                && final(self).status.brk == old(self).status.brk
                && final(self).status.unused == old(self).status.unused,
    {
        let v = self.memory.read(addr);
        self.status.carry = v >= 0x80;
        let value = v % 128 * 2;
        self.memory.write(addr, value);
        self.update_zn(value);
    }

    /// LSR on memory: shift the byte right, Carry from bit 0.
    pub fn lsr(&mut self, addr: u16)
        requires
            old(self).memory.inv(),
        ensures
            final(self).memory.inv(),
            final(self).memory.clock() == old(self).memory.clock(),
            final(self).a == old(self).a && final(self).x == old(self).x
                && final(self).y == old(self).y && final(self).sp == old(self).sp
                && final(self).pc == old(self).pc && final(self).cycles == old(self).cycles
                && final(self).nmi_pending == old(self).nmi_pending,
            final(self).status.overflow == old(self).status.overflow
                && final(self).status.interrupt == old(self).status.interrupt
                && final(self).status.decimal == old(self).status.decimal
                && final(self).status.brk == old(self).status.brk
                && final(self).status.unused == old(self).status.unused,
    {
        let v = self.memory.read(addr);
        self.status.carry = v % 2 == 1;
        let value = v / 2;
        self.memory.write(addr, value);
        self.update_zn(value);
    }

    /// ROL on memory: rotate the byte left through Carry.
    pub fn rol(&mut self, addr: u16)
        requires
            old(self).memory.inv(),
        ensures
            final(self).memory.inv(),
            final(self).memory.clock() == old(self).memory.clock(),
            final(self).a == old(self).a && final(self).x == old(self).x
                && final(self).y == old(self).y && final(self).sp == old(self).sp
                && final(self).pc == old(self).pc && final(self).cycles == old(self).cycles
                && final(self).nmi_pending == old(self).nmi_pending,
            final(self).status.overflow == old(self).status.overflow
                && final(self).status.interrupt == old(self).status.interrupt
                && final(self).status.decimal == old(self).status.decimal
                && final(self).status.brk == old(self).status.brk
                && final(self).status.unused == old(self).status.unused,
    {
        let v = self.memory.read(addr);
        let carry: u8 = if self.status.carry { 1 } else { 0 };
        self.status.carry = v >= 0x80;
        let value = v % 128 * 2 + carry;
        self.memory.write(addr, value);
        self.update_zn(value);
    }

    /// ROR on memory: rotate the byte right through Carry.
    pub fn ror(&mut self, addr: u16)
        requires
            old(self).memory.inv(),
        ensures
            final(self).memory.inv(),
            final(self).memory.clock() == old(self).memory.clock(),
            final(self).a == old(self).a && final(self).x == old(self).x
                && final(self).y == old(self).y && final(self).sp == old(self).sp
                && final(self).pc == old(self).pc && final(self).cycles == old(self).cycles
                && final(self).nmi_pending == old(self).nmi_pending,
            final(self).status.overflow == old(self).status.overflow
                && final(self).status.interrupt == old(self).status.interrupt
                && final(self).status.decimal == old(self).status.decimal
                && final(self).status.brk == old(self).status.brk
                && final(self).status.unused == old(self).status.unused,
    {
        let v = self.memory.read(addr);
        let carry: u8 = if self.status.carry { 0x80 } else { 0 };
        self.status.carry = v % 2 == 1;
        let value = v / 2 + carry;
        self.memory.write(addr, value);
        self.update_zn(value);
    }

    /// INC: add one (wrapping) to the byte at `addr` and set Z/N from it.
    pub fn inc(&mut self, addr: u16)
        requires
            old(self).memory.inv(),
        ensures
            final(self).memory.inv(),
            final(self).memory.clock() == old(self).memory.clock(),
            final(self).a == old(self).a && final(self).x == old(self).x
                && final(self).y == old(self).y && final(self).sp == old(self).sp
                && final(self).pc == old(self).pc && final(self).cycles == old(self).cycles
                && final(self).nmi_pending == old(self).nmi_pending,
            final(self).status.carry == old(self).status.carry
                && final(self).status.overflow == old(self).status.overflow
                && final(self).status.interrupt == old(self).status.interrupt
                && final(self).status.decimal == old(self).status.decimal
                && final(self).status.brk == old(self).status.brk
                && final(self).status.unused == old(self).status.unused,
    {
        let value = self.memory.read(addr).wrapping_add(1);
        self.memory.write(addr, value);
        self.update_zn(value);
    }

    /// DEC: subtract one (wrapping) from the byte at `addr` and set Z/N.
    pub fn dec(&mut self, addr: u16)
        requires
            old(self).memory.inv(),
        ensures
            final(self).memory.inv(),
            final(self).memory.clock() == old(self).memory.clock(),
            final(self).a == old(self).a && final(self).x == old(self).x
                && final(self).y == old(self).y && final(self).sp == old(self).sp
                && final(self).pc == old(self).pc && final(self).cycles == old(self).cycles
                && final(self).nmi_pending == old(self).nmi_pending,
            final(self).status.carry == old(self).status.carry
                && final(self).status.overflow == old(self).status.overflow
                && final(self).status.interrupt == old(self).status.interrupt
                && final(self).status.decimal == old(self).status.decimal
                && final(self).status.brk == old(self).status.brk
                && final(self).status.unused == old(self).status.unused,
    {
        let value = self.memory.read(addr).wrapping_sub(1);
        self.memory.write(addr, value);
        self.update_zn(value);
    }

    /// Conditional branch: 2 cycles when not taken, 3 when taken within
    /// the page, 4 when the adjusted PC lands on another page.
    pub fn branch(&mut self, condition: bool, offset: i8) -> (r: u8)
        requires
            old(self).memory.inv(),
        ensures
            final(self).memory.inv(),
            final(self).memory.clock() == old(self).memory.clock(),
            !condition ==> r == 2 && *final(self) == *old(self),
            condition ==> final(self).pc as int == (old(self).pc + offset) % 0x10000
                && r == (if old(self).pc / 256 != final(self).pc / 256 { 4u8 } else { 3u8 })
                && final(self).a == old(self).a && final(self).x == old(self).x
                && final(self).y == old(self).y && final(self).sp == old(self).sp
                && final(self).status == old(self).status
                && final(self).cycles == old(self).cycles
                && final(self).memory == old(self).memory
                && final(self).nmi_pending == old(self).nmi_pending,
            2 <= r <= 4,
    {
        if !condition {
            return 2;
        }
        let old_pc = self.pc;
        self.pc = self.pc.wrapping_add_signed(offset as i16);
        if old_pc / 256 != self.pc / 256 {
            4
        } else {
            3
        }
    }

    /// BRK: push the PC past the padding byte and the status with Break
    /// and the always-set bit, disable interrupts, and jump through the
    /// IRQ vector at $FFFE/F.
    pub fn brk(&mut self)
        requires
            old(self).memory.inv(),
        ensures
            final(self).memory.inv(),
            final(self).memory.clock() == old(self).memory.clock(),
            final(self).a == old(self).a && final(self).x == old(self).x
                && final(self).y == old(self).y,
            final(self).sp as int == (old(self).sp - 3) % 256,
            final(self).status == (StatusFlags { interrupt: true, ..old(self).status }),
            final(self).cycles == old(self).cycles,
            final(self).nmi_pending == old(self).nmi_pending,
    {
        self.pc = self.pc.wrapping_add(1);
        let pc = self.pc;
        self.push_word(pc);
        let mut f = self.status;
        f.brk = true;
        f.unused = true;
        let b = f.bits();
        self.push(b);
        self.status.interrupt = true;
        self.pc = self.read_word(0xFFFE);
    }

    /// Dispatch one already-fetched opcode. Exactly the 151 documented
    /// opcodes succeed; anything else reports an invalid opcode and
    /// leaves the CPU untouched. On success the returned cycle count is
    /// at least the opcode's base cost, at most 7, and is added to the
    /// cycle counter.
    #[verifier::rlimit(100)]
    #[verifier::spinoff_prover]
    pub fn execute(&mut self, opcode: u8) -> (r: Result<u8, EmulatorError>)
        requires
            old(self).cycles + 7 <= u64::MAX,
            old(self).memory.inv(),
        ensures
            final(self).memory.inv(),
            final(self).memory.clock() == old(self).memory.clock(),
            (r is Ok) == opcode_legal(opcode),
            r matches Ok(c) ==> opcode_base_cycles(opcode) <= c <= 7
                && final(self).cycles == old(self).cycles + c
                && final(self).nmi_pending == old(self).nmi_pending,
            r matches Ok(c) ==> (!opcode_page_cross(opcode) && !opcode_branch(opcode) ==> c
                == opcode_base_cycles(opcode)),
            r matches Ok(c) ==> (opcode_page_cross(opcode) ==> opcode_base_cycles(opcode) <= c
                <= opcode_base_cycles(opcode) + 1),
            r matches Err(e) ==> e == EmulatorError::InvalidOpcode(opcode)
                && *final(self) == *old(self),
            r is Ok && opcode == 0x08 ==> M::write_rel(
                old(self).memory,
                final(self).memory,
                (0x0100 + old(self).sp) as u16,
                (StatusFlags { brk: true, unused: true, ..old(self).status }).spec_bits(),
            ) && final(self).sp as int == (old(self).sp - 1) % 256 && final(self).a == old(self).a
                && final(self).status == old(self).status && final(self).pc == old(self).pc,
            r is Ok && opcode == 0x48 ==> M::write_rel(
                old(self).memory,
                final(self).memory,
                (0x0100 + old(self).sp) as u16,
                old(self).a,
            ) && final(self).sp as int == (old(self).sp - 1) % 256 && final(self).a == old(self).a
                && final(self).status == old(self).status && final(self).pc == old(self).pc,
            r is Ok && opcode == 0xA9 ==> final(self).a == old(self).memory.peek(old(self).pc)
                && final(self).pc as int == (old(self).pc + 1) % 0x10000 && final(self).status == (
            StatusFlags {
                zero: final(self).a == 0,
                negative: final(self).a >= 0x80,
                ..old(self).status
            }) && final(self).x == old(self).x && final(self).y == old(self).y && final(self).sp
                == old(self).sp,
            r is Ok && opcode == 0x69 ==> final(self).a as int == (old(self).a + old(self).memory.peek(old(self).pc) + carry_in(old(self).status)) % 256 && final(self).pc as int
                == (old(self).pc + 1) % 0x10000 && final(self).status.carry == (old(self).a + old(self).memory.peek(old(self).pc) + carry_in(old(self).status) > 255)
                && final(self).status.zero == (final(self).a == 0) && final(self).status.negative
                == (final(self).a >= 0x80) && final(self).x == old(self).x && final(self).y == old(self).y && final(self).sp == old(self).sp,
    {
        let info = match get_opcode_info(opcode) {
            Some(info) => info,
            None => {
                return Err(EmulatorError::InvalidOpcode(opcode));
            },
        };
        let mut cycles = info.cycles;
        match opcode {
            0x69 => { let v = self.fetch_byte(); self.adc(v); },
            0x65 => { let a = self.addr_zero_page(); let v = self.memory.read(a); self.adc(v); },
            0x75 => { let a = self.addr_zero_page_x(); let v = self.memory.read(a); self.adc(v); },
            0x6D => { let a = self.addr_absolute(); let v = self.memory.read(a); self.adc(v); },
            0x7D => { let (a, p) = self.addr_absolute_x(); let v = self.memory.read(a); self.adc(v); if p { cycles = cycles + 1; } },
            0x79 => { let (a, p) = self.addr_absolute_y(); let v = self.memory.read(a); self.adc(v); if p { cycles = cycles + 1; } },
            0x61 => { let a = self.addr_indexed_indirect(); let v = self.memory.read(a); self.adc(v); },
            0x71 => { let (a, p) = self.addr_indirect_indexed(); let v = self.memory.read(a); self.adc(v); if p { cycles = cycles + 1; } },
            0x29 => { let v = self.fetch_byte(); self.and(v); },
            0x25 => { let a = self.addr_zero_page(); let v = self.memory.read(a); self.and(v); },
            0x35 => { let a = self.addr_zero_page_x(); let v = self.memory.read(a); self.and(v); },
            0x2D => { let a = self.addr_absolute(); let v = self.memory.read(a); self.and(v); },
            0x3D => { let (a, p) = self.addr_absolute_x(); let v = self.memory.read(a); self.and(v); if p { cycles = cycles + 1; } },
            0x39 => { let (a, p) = self.addr_absolute_y(); let v = self.memory.read(a); self.and(v); if p { cycles = cycles + 1; } },
            0x21 => { let a = self.addr_indexed_indirect(); let v = self.memory.read(a); self.and(v); },
            0x31 => { let (a, p) = self.addr_indirect_indexed(); let v = self.memory.read(a); self.and(v); if p { cycles = cycles + 1; } },
            0x0A => { self.asl_acc(); },
            0x06 => { let a = self.addr_zero_page(); self.asl(a); },
            0x16 => { let a = self.addr_zero_page_x(); self.asl(a); },
            0x0E => { let a = self.addr_absolute(); self.asl(a); },
            0x1E => { let (a, _p) = self.addr_absolute_x(); self.asl(a); },
            0x90 => { let o = self.fetch_byte() as i8; let c = !self.get_flag(CARRY); cycles = self.branch(c, o); },
            0xB0 => { let o = self.fetch_byte() as i8; let c = self.get_flag(CARRY); cycles = self.branch(c, o); },
            0xF0 => { let o = self.fetch_byte() as i8; let c = self.get_flag(ZERO); cycles = self.branch(c, o); },
            0x24 => { let a = self.addr_zero_page(); let v = self.memory.read(a); self.bit(v); },
            0x2C => { let a = self.addr_absolute(); let v = self.memory.read(a); self.bit(v); },
            0x30 => { let o = self.fetch_byte() as i8; let c = self.get_flag(NEGATIVE); cycles = self.branch(c, o); },
            0xD0 => { let o = self.fetch_byte() as i8; let c = !self.get_flag(ZERO); cycles = self.branch(c, o); },
            0x10 => { let o = self.fetch_byte() as i8; let c = !self.get_flag(NEGATIVE); cycles = self.branch(c, o); },
            0x00 => { self.brk(); },
            0x50 => { let o = self.fetch_byte() as i8; let c = !self.get_flag(OVERFLOW); cycles = self.branch(c, o); },
            0x70 => { let o = self.fetch_byte() as i8; let c = self.get_flag(OVERFLOW); cycles = self.branch(c, o); },
            0x18 => { self.status.carry = false; },
            0xD8 => { self.status.decimal = false; },
            0x58 => { self.status.interrupt = false; },
            0xB8 => { self.status.overflow = false; },
            0xC9 => { let v = self.fetch_byte(); self.cmp(v); },
            0xC5 => { let a = self.addr_zero_page(); let v = self.memory.read(a); self.cmp(v); },
            0xD5 => { let a = self.addr_zero_page_x(); let v = self.memory.read(a); self.cmp(v); },
            0xCD => { let a = self.addr_absolute(); let v = self.memory.read(a); self.cmp(v); },
            0xDD => { let (a, p) = self.addr_absolute_x(); let v = self.memory.read(a); self.cmp(v); if p { cycles = cycles + 1; } },
            0xD9 => { let (a, p) = self.addr_absolute_y(); let v = self.memory.read(a); self.cmp(v); if p { cycles = cycles + 1; } },
            0xC1 => { let a = self.addr_indexed_indirect(); let v = self.memory.read(a); self.cmp(v); },
            0xD1 => { let (a, p) = self.addr_indirect_indexed(); let v = self.memory.read(a); self.cmp(v); if p { cycles = cycles + 1; } },
            0xE0 => { let v = self.fetch_byte(); self.cpx(v); },
            0xE4 => { let a = self.addr_zero_page(); let v = self.memory.read(a); self.cpx(v); },
            0xEC => { let a = self.addr_absolute(); let v = self.memory.read(a); self.cpx(v); },
            0xC0 => { let v = self.fetch_byte(); self.cpy(v); },
            0xC4 => { let a = self.addr_zero_page(); let v = self.memory.read(a); self.cpy(v); },
            0xCC => { let a = self.addr_absolute(); let v = self.memory.read(a); self.cpy(v); },
            0xC6 => { let a = self.addr_zero_page(); self.dec(a); },
            0xD6 => { let a = self.addr_zero_page_x(); self.dec(a); },
            0xCE => { let a = self.addr_absolute(); self.dec(a); },
            0xDE => { let (a, _p) = self.addr_absolute_x(); self.dec(a); },
            0xCA => { self.x = self.x.wrapping_sub(1); let v = self.x; self.update_zn(v); },
            0x88 => { self.y = self.y.wrapping_sub(1); let v = self.y; self.update_zn(v); },
            0x49 => { let v = self.fetch_byte(); self.eor(v); },
            0x45 => { let a = self.addr_zero_page(); let v = self.memory.read(a); self.eor(v); },
            0x55 => { let a = self.addr_zero_page_x(); let v = self.memory.read(a); self.eor(v); },
            0x4D => { let a = self.addr_absolute(); let v = self.memory.read(a); self.eor(v); },
            0x5D => { let (a, p) = self.addr_absolute_x(); let v = self.memory.read(a); self.eor(v); if p { cycles = cycles + 1; } },
            0x59 => { let (a, p) = self.addr_absolute_y(); let v = self.memory.read(a); self.eor(v); if p { cycles = cycles + 1; } },
            0x41 => { let a = self.addr_indexed_indirect(); let v = self.memory.read(a); self.eor(v); },
            0x51 => { let (a, p) = self.addr_indirect_indexed(); let v = self.memory.read(a); self.eor(v); if p { cycles = cycles + 1; } },
            0xE6 => { let a = self.addr_zero_page(); self.inc(a); },
            0xF6 => { let a = self.addr_zero_page_x(); self.inc(a); },
            0xEE => { let a = self.addr_absolute(); self.inc(a); },
            0xFE => { let (a, _p) = self.addr_absolute_x(); self.inc(a); },
            0xE8 => { self.x = self.x.wrapping_add(1); let v = self.x; self.update_zn(v); },
            0xC8 => { self.y = self.y.wrapping_add(1); let v = self.y; self.update_zn(v); },
            0x4C => { self.pc = self.addr_absolute(); },
            0x6C => { self.pc = self.addr_indirect(); },
            0x20 => { let a = self.fetch_word(); let t = self.pc.wrapping_sub(1); self.push_word(t); self.pc = a; },
            0xA9 => { let v = self.fetch_byte(); self.a = v; self.update_zn(v); },
            0xA5 => { let a = self.addr_zero_page(); let v = self.memory.read(a); self.a = v; self.update_zn(v); },
            0xB5 => { let a = self.addr_zero_page_x(); let v = self.memory.read(a); self.a = v; self.update_zn(v); },
            0xAD => { let a = self.addr_absolute(); let v = self.memory.read(a); self.a = v; self.update_zn(v); },
            0xBD => { let (a, p) = self.addr_absolute_x(); let v = self.memory.read(a); self.a = v; self.update_zn(v); if p { cycles = cycles + 1; } },
            0xB9 => { let (a, p) = self.addr_absolute_y(); let v = self.memory.read(a); self.a = v; self.update_zn(v); if p { cycles = cycles + 1; } },
            0xA1 => { let a = self.addr_indexed_indirect(); let v = self.memory.read(a); self.a = v; self.update_zn(v); },
            0xB1 => { let (a, p) = self.addr_indirect_indexed(); let v = self.memory.read(a); self.a = v; self.update_zn(v); if p { cycles = cycles + 1; } },
            0xA2 => { let v = self.fetch_byte(); self.x = v; self.update_zn(v); },
            0xA6 => { let a = self.addr_zero_page(); let v = self.memory.read(a); self.x = v; self.update_zn(v); },
            0xB6 => { let a = self.addr_zero_page_y(); let v = self.memory.read(a); self.x = v; self.update_zn(v); },
            0xAE => { let a = self.addr_absolute(); let v = self.memory.read(a); self.x = v; self.update_zn(v); },
            0xBE => { let (a, p) = self.addr_absolute_y(); let v = self.memory.read(a); self.x = v; self.update_zn(v); if p { cycles = cycles + 1; } },
            0xA0 => { let v = self.fetch_byte(); self.y = v; self.update_zn(v); },
            0xA4 => { let a = self.addr_zero_page(); let v = self.memory.read(a); self.y = v; self.update_zn(v); },
            0xB4 => { let a = self.addr_zero_page_x(); let v = self.memory.read(a); self.y = v; self.update_zn(v); },
            0xAC => { let a = self.addr_absolute(); let v = self.memory.read(a); self.y = v; self.update_zn(v); },
            0xBC => { let (a, p) = self.addr_absolute_x(); let v = self.memory.read(a); self.y = v; self.update_zn(v); if p { cycles = cycles + 1; } },
            0x4A => { self.lsr_acc(); },
            0x46 => { let a = self.addr_zero_page(); self.lsr(a); },
            0x56 => { let a = self.addr_zero_page_x(); self.lsr(a); },
            0x4E => { let a = self.addr_absolute(); self.lsr(a); },
            0x5E => { let (a, _p) = self.addr_absolute_x(); self.lsr(a); },
            0xEA => {},
            0x09 => { let v = self.fetch_byte(); self.ora(v); },
            0x05 => { let a = self.addr_zero_page(); let v = self.memory.read(a); self.ora(v); },
            0x15 => { let a = self.addr_zero_page_x(); let v = self.memory.read(a); self.ora(v); },
            0x0D => { let a = self.addr_absolute(); let v = self.memory.read(a); self.ora(v); },
            0x1D => { let (a, p) = self.addr_absolute_x(); let v = self.memory.read(a); self.ora(v); if p { cycles = cycles + 1; } },
            0x19 => { let (a, p) = self.addr_absolute_y(); let v = self.memory.read(a); self.ora(v); if p { cycles = cycles + 1; } },
            0x01 => { let a = self.addr_indexed_indirect(); let v = self.memory.read(a); self.ora(v); },
            0x11 => { let (a, p) = self.addr_indirect_indexed(); let v = self.memory.read(a); self.ora(v); if p { cycles = cycles + 1; } },
            0x48 => { let v = self.a; self.push(v); },
            0x08 => { let mut f = self.status; f.brk = true; f.unused = true; let b = f.bits(); self.push(b); },
            0x68 => { let v = self.pop(); self.a = v; self.update_zn(v); },
            0x28 => { let s = self.pop(); let mut f = StatusFlags::from_bits(s); f.brk = false; f.unused = true; self.status = f; },
            0x2A => { self.rol_acc(); },
            0x26 => { let a = self.addr_zero_page(); self.rol(a); },
            0x36 => { let a = self.addr_zero_page_x(); self.rol(a); },
            0x2E => { let a = self.addr_absolute(); self.rol(a); },
            0x3E => { let (a, _p) = self.addr_absolute_x(); self.rol(a); },
            0x6A => { self.ror_acc(); },
            0x66 => { let a = self.addr_zero_page(); self.ror(a); },
            0x76 => { let a = self.addr_zero_page_x(); self.ror(a); },
            0x6E => { let a = self.addr_absolute(); self.ror(a); },
            0x7E => { let (a, _p) = self.addr_absolute_x(); self.ror(a); },
            0x40 => { let s = self.pop(); let mut f = StatusFlags::from_bits(s); f.brk = false; f.unused = true; self.status = f; self.pc = self.pop_word(); },
            0x60 => { let t = self.pop_word(); self.pc = t.wrapping_add(1); },
            0xE9 => { let v = self.fetch_byte(); self.sbc(v); },
            0xE5 => { let a = self.addr_zero_page(); let v = self.memory.read(a); self.sbc(v); },
            0xF5 => { let a = self.addr_zero_page_x(); let v = self.memory.read(a); self.sbc(v); },
            0xED => { let a = self.addr_absolute(); let v = self.memory.read(a); self.sbc(v); },
            0xFD => { let (a, p) = self.addr_absolute_x(); let v = self.memory.read(a); self.sbc(v); if p { cycles = cycles + 1; } },
            0xF9 => { let (a, p) = self.addr_absolute_y(); let v = self.memory.read(a); self.sbc(v); if p { cycles = cycles + 1; } },
            0xE1 => { let a = self.addr_indexed_indirect(); let v = self.memory.read(a); self.sbc(v); },
            0xF1 => { let (a, p) = self.addr_indirect_indexed(); let v = self.memory.read(a); self.sbc(v); if p { cycles = cycles + 1; } },
            0x38 => { self.status.carry = true; },
            0xF8 => { self.status.decimal = true; },
            0x78 => { self.status.interrupt = true; },
            0x85 => { let a = self.addr_zero_page(); let v = self.a; self.memory.write(a, v); },
            0x95 => { let a = self.addr_zero_page_x(); let v = self.a; self.memory.write(a, v); },
            0x8D => { let a = self.addr_absolute(); let v = self.a; self.memory.write(a, v); },
            0x9D => { let (a, _p) = self.addr_absolute_x(); let v = self.a; self.memory.write(a, v); },
            0x99 => { let (a, _p) = self.addr_absolute_y(); let v = self.a; self.memory.write(a, v); },
            0x81 => { let a = self.addr_indexed_indirect(); let v = self.a; self.memory.write(a, v); },
            0x91 => { let (a, _p) = self.addr_indirect_indexed(); let v = self.a; self.memory.write(a, v); },
            0x86 => { let a = self.addr_zero_page(); let v = self.x; self.memory.write(a, v); },
            0x96 => { let a = self.addr_zero_page_y(); let v = self.x; self.memory.write(a, v); },
            0x8E => { let a = self.addr_absolute(); let v = self.x; self.memory.write(a, v); },
            0x84 => { let a = self.addr_zero_page(); let v = self.y; self.memory.write(a, v); },
            0x94 => { let a = self.addr_zero_page_x(); let v = self.y; self.memory.write(a, v); },
            0x8C => { let a = self.addr_absolute(); let v = self.y; self.memory.write(a, v); },
            0xAA => { self.x = self.a; let v = self.x; self.update_zn(v); },
            0xA8 => { self.y = self.a; let v = self.y; self.update_zn(v); },
            0xBA => { self.x = self.sp; let v = self.x; self.update_zn(v); },
            0x8A => { self.a = self.x; let v = self.a; self.update_zn(v); },
            0x9A => { self.sp = self.x; },
            0x98 => { self.a = self.y; let v = self.a; self.update_zn(v); },
            _ => {
                return Err(EmulatorError::InvalidOpcode(opcode));
            },
        }
        self.cycles = self.cycles + cycles as u64;
        Ok(cycles)
    }

    /// Execute one step: service a pending NMI for 7 cycles, or fetch
    /// and dispatch the next instruction.
    pub fn step(&mut self) -> (r: Result<u8, EmulatorError>)
        requires
            old(self).cycles + 7 <= u64::MAX,
            old(self).memory.inv(),
        ensures
            final(self).memory.inv(),
            final(self).memory.clock() == old(self).memory.clock(),
            r matches Ok(c) ==> 2 <= c <= 7 && final(self).cycles == old(self).cycles + c,
            r is Err ==> final(self).cycles == old(self).cycles,
            !old(self).nmi_pending ==> ((r is Ok) == opcode_legal(
                old(self).memory.peek(old(self).pc),
            )),
            !old(self).nmi_pending ==> (r matches Ok(c) ==> opcode_base_cycles(
                old(self).memory.peek(old(self).pc),
            ) <= c),
            r matches Err(e) ==> !old(self).nmi_pending && e == EmulatorError::InvalidOpcode(
                old(self).memory.peek(old(self).pc),
            ),
            !old(self).nmi_pending && old(self).memory.peek(old(self).pc) == 0xA9
                && M::read_stable(old(self).pc) ==> (r is Ok && final(self).a
                == old(self).memory.peek(crate::cpu::spec_next_pc(old(self).pc)) && final(self).pc as int == (old(self).pc + 2) % 0x10000 && final(self).status == (StatusFlags {
                zero: final(self).a == 0,
                negative: final(self).a >= 0x80,
                ..old(self).status
            })),
            !old(self).nmi_pending && old(self).memory.peek(old(self).pc) == 0x69
                && M::read_stable(old(self).pc) ==> (r is Ok && final(self).a as int == (old(self).a + old(self).memory.peek(
                crate::cpu::spec_next_pc(old(self).pc),
            ) + carry_in(old(self).status)) % 256 && final(self).status.carry == (old(self).a + old(self).memory.peek(crate::cpu::spec_next_pc(old(self).pc)) + carry_in(old(self).status)
                > 255)),
            old(self).nmi_pending ==> r == Result::<u8, EmulatorError>::Ok(7u8)
                && final(self).sp as int == (old(self).sp - 3) % 256
                && final(self).status == (StatusFlags { interrupt: true, ..old(self).status })
                && final(self).a == old(self).a && final(self).x == old(self).x
                && final(self).y == old(self).y,
            !final(self).nmi_pending,
    {
        if self.nmi_pending {
            self.nmi_pending = false;
            self.nmi();
            self.cycles = self.cycles + 7;
            Ok(7)
        } else {
            let opcode = self.fetch_byte();
            self.execute(opcode)
        }
    }
}

} // verus!
