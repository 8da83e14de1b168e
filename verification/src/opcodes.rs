use vstd::prelude::*;

verus! {

/// Addressing modes of the 6502.
#[derive(Debug, Clone, Copy, PartialEq, Eq, Structural)]
pub enum AddressingMode {
    Implied,
    Accumulator,
    Immediate,
    ZeroPage,
    ZeroPageX,
    ZeroPageY,
    Relative,
    Absolute,
    AbsoluteX,
    AbsoluteY,
    Indirect,
    IndexedIndirect,
    IndirectIndexed,
}

/// Static information about one opcode: mnemonic, addressing mode, base
/// cycle count, and whether a crossed page boundary adds one cycle.
pub struct OpcodeInfo {
    pub mnemonic: &'static str,
    pub mode: AddressingMode,
    pub cycles: u8,
    pub page_cross_cycle: bool,
}

/// Base cycle count of each of the 151 documented opcodes, and 0 for
/// every illegal opcode byte.
pub open spec fn opcode_base_cycles(op: u8) -> u8 {
    match op {
        0x69 | 0x29 | 0x0A | 0x90 | 0xB0 | 0xF0 | 0x30 | 0xD0
          | 0x10 | 0x50 | 0x70 | 0x18 | 0xD8 | 0x58 | 0xB8 | 0xC9
          | 0xE0 | 0xC0 | 0xCA | 0x88 | 0x49 | 0xE8 | 0xC8 | 0xA9
          | 0xA2 | 0xA0 | 0x4A | 0xEA | 0x09 | 0x2A | 0x6A | 0xE9
          | 0x38 | 0xF8 | 0x78 | 0xAA | 0xA8 | 0xBA | 0x8A | 0x9A
          | 0x98 => 2,
        0x65 | 0x25 | 0x24 | 0xC5 | 0xE4 | 0xC4 | 0x45 | 0x4C
          | 0xA5 | 0xA6 | 0xA4 | 0x05 | 0x48 | 0x08 | 0xE5 | 0x85
          | 0x86 | 0x84 => 3,
        0x75 | 0x6D | 0x7D | 0x79 | 0x35 | 0x2D | 0x3D | 0x39
          | 0x2C | 0xD5 | 0xCD | 0xDD | 0xD9 | 0xEC | 0xCC | 0x55
          | 0x4D | 0x5D | 0x59 | 0xB5 | 0xAD | 0xBD | 0xB9 | 0xB6
          | 0xAE | 0xBE | 0xB4 | 0xAC | 0xBC | 0x15 | 0x0D | 0x1D
          | 0x19 | 0x68 | 0x28 | 0xF5 | 0xED | 0xFD | 0xF9 | 0x95
          | 0x8D | 0x96 | 0x8E | 0x94 | 0x8C => 4,
        0x71 | 0x31 | 0x06 | 0xD1 | 0xC6 | 0x51 | 0xE6 | 0x6C
          | 0xB1 | 0x46 | 0x11 | 0x26 | 0x66 | 0xF1 | 0x9D | 0x99 => 5,
        0x61 | 0x21 | 0x16 | 0x0E | 0xC1 | 0xD6 | 0xCE | 0x41
          | 0xF6 | 0xEE | 0x20 | 0xA1 | 0x56 | 0x4E | 0x01 | 0x36
          | 0x2E | 0x76 | 0x6E | 0x40 | 0x60 | 0xE1 | 0x81 | 0x91 => 6,
        0x1E | 0x00 | 0xDE | 0xFE | 0x5E | 0x3E | 0x7E => 7,
        _ => 0,
    }
}

/// An opcode byte names a documented instruction exactly when it has a
/// base cycle count.
pub open spec fn opcode_legal(op: u8) -> bool {
    opcode_base_cycles(op) != 0
}

/// Whether reads through this opcode pay one extra cycle on a crossed
/// page boundary.
pub open spec fn opcode_page_cross(op: u8) -> bool {
    match op {
        0x7D | 0x79 | 0x71 | 0x3D | 0x39 | 0x31 | 0xDD | 0xD9
          | 0xD1 | 0x5D | 0x59 | 0x51 | 0xBD | 0xB9 | 0xB1 | 0xBE
          | 0xBC | 0x1D | 0x19 | 0x11 | 0xFD | 0xF9 | 0xF1 => true,
        _ => false,
    }
}

/// The eight conditional branch opcodes, whose cost varies with the
/// branch taken and the page crossed.
pub open spec fn opcode_branch(op: u8) -> bool {
    op == 0x90 || op == 0xB0 || op == 0xF0 || op == 0x30 || op == 0xD0 || op == 0x10 || op == 0x50
        || op == 0x70
}

/// The addressing mode of each documented opcode (and the implied mode
/// for everything else, including illegal bytes, which never reach it).
pub open spec fn opcode_mode(op: u8) -> AddressingMode {
    match op {
        0x0A | 0x4A | 0x2A | 0x6A => AddressingMode::Accumulator,
        0x69 | 0x29 | 0xC9 | 0xE0 | 0xC0 | 0x49 | 0xA9 | 0xA2
        | 0xA0 | 0x09 | 0xE9 => AddressingMode::Immediate,
        0x65 | 0x25 | 0x06 | 0x24 | 0xC5 | 0xE4 | 0xC4 | 0xC6
        | 0x45 | 0xE6 | 0xA5 | 0xA6 | 0xA4 | 0x46 | 0x05 | 0x26
        | 0x66 | 0xE5 | 0x85 | 0x86 | 0x84 => AddressingMode::ZeroPage,
        0x75 | 0x35 | 0x16 | 0xD5 | 0xD6 | 0x55 | 0xF6 | 0xB5
        | 0xB4 | 0x56 | 0x15 | 0x36 | 0x76 | 0xF5 | 0x95 | 0x94 => AddressingMode::ZeroPageX,
        0xB6 | 0x96 => AddressingMode::ZeroPageY,
        0x90 | 0xB0 | 0xF0 | 0x30 | 0xD0 | 0x10 | 0x50 | 0x70 => AddressingMode::Relative,
        0x6D | 0x2D | 0x0E | 0x2C | 0xCD | 0xEC | 0xCC | 0xCE
        | 0x4D | 0xEE | 0x4C | 0x20 | 0xAD | 0xAE | 0xAC | 0x4E
        | 0x0D | 0x2E | 0x6E | 0xED | 0x8D | 0x8E | 0x8C => AddressingMode::Absolute,
        0x7D | 0x3D | 0x1E | 0xDD | 0xDE | 0x5D | 0xFE | 0xBD
        | 0xBC | 0x5E | 0x1D | 0x3E | 0x7E | 0xFD | 0x9D => AddressingMode::AbsoluteX,
        0x79 | 0x39 | 0xD9 | 0x59 | 0xB9 | 0xBE | 0x19 | 0xF9
        | 0x99 => AddressingMode::AbsoluteY,
        0x6C => AddressingMode::Indirect,
        0x61 | 0x21 | 0xC1 | 0x41 | 0xA1 | 0x01 | 0xE1 | 0x81 => AddressingMode::IndexedIndirect,
        0x71 | 0x31 | 0xD1 | 0x51 | 0xB1 | 0x11 | 0xF1 | 0x91 => AddressingMode::IndirectIndexed,
        _ => AddressingMode::Implied,
    }
}

/// Opcode information for a given opcode byte; `None` for illegal or
/// unofficial opcodes.
pub fn get_opcode_info(opcode: u8) -> (r: Option<OpcodeInfo>)
    ensures
        r is Some <==> opcode_legal(opcode),
        r matches Some(info) ==> info.cycles == opcode_base_cycles(opcode)
            && info.page_cross_cycle == opcode_page_cross(opcode) && info.mode == opcode_mode(
            opcode,
        ) && 2 <= info.cycles <= 7,
{
    match opcode {
        0x69 => Some(OpcodeInfo { mnemonic: "ADC", mode: AddressingMode::Immediate, cycles: 2, page_cross_cycle: false }),
        0x65 => Some(OpcodeInfo { mnemonic: "ADC", mode: AddressingMode::ZeroPage, cycles: 3, page_cross_cycle: false }),
        0x75 => Some(OpcodeInfo { mnemonic: "ADC", mode: AddressingMode::ZeroPageX, cycles: 4, page_cross_cycle: false }),
        0x6D => Some(OpcodeInfo { mnemonic: "ADC", mode: AddressingMode::Absolute, cycles: 4, page_cross_cycle: false }),
        0x7D => Some(OpcodeInfo { mnemonic: "ADC", mode: AddressingMode::AbsoluteX, cycles: 4, page_cross_cycle: true }),
        0x79 => Some(OpcodeInfo { mnemonic: "ADC", mode: AddressingMode::AbsoluteY, cycles: 4, page_cross_cycle: true }),
        0x61 => Some(OpcodeInfo { mnemonic: "ADC", mode: AddressingMode::IndexedIndirect, cycles: 6, page_cross_cycle: false }),
        0x71 => Some(OpcodeInfo { mnemonic: "ADC", mode: AddressingMode::IndirectIndexed, cycles: 5, page_cross_cycle: true }),
        0x29 => Some(OpcodeInfo { mnemonic: "AND", mode: AddressingMode::Immediate, cycles: 2, page_cross_cycle: false }),
        0x25 => Some(OpcodeInfo { mnemonic: "AND", mode: AddressingMode::ZeroPage, cycles: 3, page_cross_cycle: false }),
        0x35 => Some(OpcodeInfo { mnemonic: "AND", mode: AddressingMode::ZeroPageX, cycles: 4, page_cross_cycle: false }),
        0x2D => Some(OpcodeInfo { mnemonic: "AND", mode: AddressingMode::Absolute, cycles: 4, page_cross_cycle: false }),
        0x3D => Some(OpcodeInfo { mnemonic: "AND", mode: AddressingMode::AbsoluteX, cycles: 4, page_cross_cycle: true }),
        0x39 => Some(OpcodeInfo { mnemonic: "AND", mode: AddressingMode::AbsoluteY, cycles: 4, page_cross_cycle: true }),
        0x21 => Some(OpcodeInfo { mnemonic: "AND", mode: AddressingMode::IndexedIndirect, cycles: 6, page_cross_cycle: false }),
        0x31 => Some(OpcodeInfo { mnemonic: "AND", mode: AddressingMode::IndirectIndexed, cycles: 5, page_cross_cycle: true }),
        0x0A => Some(OpcodeInfo { mnemonic: "ASL", mode: AddressingMode::Accumulator, cycles: 2, page_cross_cycle: false }),
        0x06 => Some(OpcodeInfo { mnemonic: "ASL", mode: AddressingMode::ZeroPage, cycles: 5, page_cross_cycle: false }),
        0x16 => Some(OpcodeInfo { mnemonic: "ASL", mode: AddressingMode::ZeroPageX, cycles: 6, page_cross_cycle: false }),
        0x0E => Some(OpcodeInfo { mnemonic: "ASL", mode: AddressingMode::Absolute, cycles: 6, page_cross_cycle: false }),
        0x1E => Some(OpcodeInfo { mnemonic: "ASL", mode: AddressingMode::AbsoluteX, cycles: 7, page_cross_cycle: false }),
        0x90 => Some(OpcodeInfo { mnemonic: "BCC", mode: AddressingMode::Relative, cycles: 2, page_cross_cycle: false }),
        0xB0 => Some(OpcodeInfo { mnemonic: "BCS", mode: AddressingMode::Relative, cycles: 2, page_cross_cycle: false }),
        0xF0 => Some(OpcodeInfo { mnemonic: "BEQ", mode: AddressingMode::Relative, cycles: 2, page_cross_cycle: false }),
        0x24 => Some(OpcodeInfo { mnemonic: "BIT", mode: AddressingMode::ZeroPage, cycles: 3, page_cross_cycle: false }),
        0x2C => Some(OpcodeInfo { mnemonic: "BIT", mode: AddressingMode::Absolute, cycles: 4, page_cross_cycle: false }),
        0x30 => Some(OpcodeInfo { mnemonic: "BMI", mode: AddressingMode::Relative, cycles: 2, page_cross_cycle: false }),
        0xD0 => Some(OpcodeInfo { mnemonic: "BNE", mode: AddressingMode::Relative, cycles: 2, page_cross_cycle: false }),
        0x10 => Some(OpcodeInfo { mnemonic: "BPL", mode: AddressingMode::Relative, cycles: 2, page_cross_cycle: false }),
        0x00 => Some(OpcodeInfo { mnemonic: "BRK", mode: AddressingMode::Implied, cycles: 7, page_cross_cycle: false }),
        0x50 => Some(OpcodeInfo { mnemonic: "BVC", mode: AddressingMode::Relative, cycles: 2, page_cross_cycle: false }),
        0x70 => Some(OpcodeInfo { mnemonic: "BVS", mode: AddressingMode::Relative, cycles: 2, page_cross_cycle: false }),
        0x18 => Some(OpcodeInfo { mnemonic: "CLC", mode: AddressingMode::Implied, cycles: 2, page_cross_cycle: false }),
        0xD8 => Some(OpcodeInfo { mnemonic: "CLD", mode: AddressingMode::Implied, cycles: 2, page_cross_cycle: false }),
        0x58 => Some(OpcodeInfo { mnemonic: "CLI", mode: AddressingMode::Implied, cycles: 2, page_cross_cycle: false }),
        0xB8 => Some(OpcodeInfo { mnemonic: "CLV", mode: AddressingMode::Implied, cycles: 2, page_cross_cycle: false }),
        0xC9 => Some(OpcodeInfo { mnemonic: "CMP", mode: AddressingMode::Immediate, cycles: 2, page_cross_cycle: false }),
        0xC5 => Some(OpcodeInfo { mnemonic: "CMP", mode: AddressingMode::ZeroPage, cycles: 3, page_cross_cycle: false }),
        0xD5 => Some(OpcodeInfo { mnemonic: "CMP", mode: AddressingMode::ZeroPageX, cycles: 4, page_cross_cycle: false }),
        0xCD => Some(OpcodeInfo { mnemonic: "CMP", mode: AddressingMode::Absolute, cycles: 4, page_cross_cycle: false }),
        0xDD => Some(OpcodeInfo { mnemonic: "CMP", mode: AddressingMode::AbsoluteX, cycles: 4, page_cross_cycle: true }),
        0xD9 => Some(OpcodeInfo { mnemonic: "CMP", mode: AddressingMode::AbsoluteY, cycles: 4, page_cross_cycle: true }),
        0xC1 => Some(OpcodeInfo { mnemonic: "CMP", mode: AddressingMode::IndexedIndirect, cycles: 6, page_cross_cycle: false }),
        0xD1 => Some(OpcodeInfo { mnemonic: "CMP", mode: AddressingMode::IndirectIndexed, cycles: 5, page_cross_cycle: true }),
        0xE0 => Some(OpcodeInfo { mnemonic: "CPX", mode: AddressingMode::Immediate, cycles: 2, page_cross_cycle: false }),
        0xE4 => Some(OpcodeInfo { mnemonic: "CPX", mode: AddressingMode::ZeroPage, cycles: 3, page_cross_cycle: false }),
        0xEC => Some(OpcodeInfo { mnemonic: "CPX", mode: AddressingMode::Absolute, cycles: 4, page_cross_cycle: false }),
        0xC0 => Some(OpcodeInfo { mnemonic: "CPY", mode: AddressingMode::Immediate, cycles: 2, page_cross_cycle: false }),
        0xC4 => Some(OpcodeInfo { mnemonic: "CPY", mode: AddressingMode::ZeroPage, cycles: 3, page_cross_cycle: false }),
        0xCC => Some(OpcodeInfo { mnemonic: "CPY", mode: AddressingMode::Absolute, cycles: 4, page_cross_cycle: false }),
        0xC6 => Some(OpcodeInfo { mnemonic: "DEC", mode: AddressingMode::ZeroPage, cycles: 5, page_cross_cycle: false }),
        0xD6 => Some(OpcodeInfo { mnemonic: "DEC", mode: AddressingMode::ZeroPageX, cycles: 6, page_cross_cycle: false }),
        0xCE => Some(OpcodeInfo { mnemonic: "DEC", mode: AddressingMode::Absolute, cycles: 6, page_cross_cycle: false }),
        0xDE => Some(OpcodeInfo { mnemonic: "DEC", mode: AddressingMode::AbsoluteX, cycles: 7, page_cross_cycle: false }),
        0xCA => Some(OpcodeInfo { mnemonic: "DEX", mode: AddressingMode::Implied, cycles: 2, page_cross_cycle: false }),
        0x88 => Some(OpcodeInfo { mnemonic: "DEY", mode: AddressingMode::Implied, cycles: 2, page_cross_cycle: false }),
        0x49 => Some(OpcodeInfo { mnemonic: "EOR", mode: AddressingMode::Immediate, cycles: 2, page_cross_cycle: false }),
        0x45 => Some(OpcodeInfo { mnemonic: "EOR", mode: AddressingMode::ZeroPage, cycles: 3, page_cross_cycle: false }),
        0x55 => Some(OpcodeInfo { mnemonic: "EOR", mode: AddressingMode::ZeroPageX, cycles: 4, page_cross_cycle: false }),
        0x4D => Some(OpcodeInfo { mnemonic: "EOR", mode: AddressingMode::Absolute, cycles: 4, page_cross_cycle: false }),
        0x5D => Some(OpcodeInfo { mnemonic: "EOR", mode: AddressingMode::AbsoluteX, cycles: 4, page_cross_cycle: true }),
        0x59 => Some(OpcodeInfo { mnemonic: "EOR", mode: AddressingMode::AbsoluteY, cycles: 4, page_cross_cycle: true }),
        0x41 => Some(OpcodeInfo { mnemonic: "EOR", mode: AddressingMode::IndexedIndirect, cycles: 6, page_cross_cycle: false }),
        0x51 => Some(OpcodeInfo { mnemonic: "EOR", mode: AddressingMode::IndirectIndexed, cycles: 5, page_cross_cycle: true }),
        0xE6 => Some(OpcodeInfo { mnemonic: "INC", mode: AddressingMode::ZeroPage, cycles: 5, page_cross_cycle: false }),
        0xF6 => Some(OpcodeInfo { mnemonic: "INC", mode: AddressingMode::ZeroPageX, cycles: 6, page_cross_cycle: false }),
        0xEE => Some(OpcodeInfo { mnemonic: "INC", mode: AddressingMode::Absolute, cycles: 6, page_cross_cycle: false }),
        0xFE => Some(OpcodeInfo { mnemonic: "INC", mode: AddressingMode::AbsoluteX, cycles: 7, page_cross_cycle: false }),
        0xE8 => Some(OpcodeInfo { mnemonic: "INX", mode: AddressingMode::Implied, cycles: 2, page_cross_cycle: false }),
        0xC8 => Some(OpcodeInfo { mnemonic: "INY", mode: AddressingMode::Implied, cycles: 2, page_cross_cycle: false }),
        0x4C => Some(OpcodeInfo { mnemonic: "JMP", mode: AddressingMode::Absolute, cycles: 3, page_cross_cycle: false }),
        0x6C => Some(OpcodeInfo { mnemonic: "JMP", mode: AddressingMode::Indirect, cycles: 5, page_cross_cycle: false }),
        0x20 => Some(OpcodeInfo { mnemonic: "JSR", mode: AddressingMode::Absolute, cycles: 6, page_cross_cycle: false }),
        0xA9 => Some(OpcodeInfo { mnemonic: "LDA", mode: AddressingMode::Immediate, cycles: 2, page_cross_cycle: false }),
        0xA5 => Some(OpcodeInfo { mnemonic: "LDA", mode: AddressingMode::ZeroPage, cycles: 3, page_cross_cycle: false }),
        0xB5 => Some(OpcodeInfo { mnemonic: "LDA", mode: AddressingMode::ZeroPageX, cycles: 4, page_cross_cycle: false }),
        0xAD => Some(OpcodeInfo { mnemonic: "LDA", mode: AddressingMode::Absolute, cycles: 4, page_cross_cycle: false }),
        0xBD => Some(OpcodeInfo { mnemonic: "LDA", mode: AddressingMode::AbsoluteX, cycles: 4, page_cross_cycle: true }),
        0xB9 => Some(OpcodeInfo { mnemonic: "LDA", mode: AddressingMode::AbsoluteY, cycles: 4, page_cross_cycle: true }),
        0xA1 => Some(OpcodeInfo { mnemonic: "LDA", mode: AddressingMode::IndexedIndirect, cycles: 6, page_cross_cycle: false }),
        0xB1 => Some(OpcodeInfo { mnemonic: "LDA", mode: AddressingMode::IndirectIndexed, cycles: 5, page_cross_cycle: true }),
        0xA2 => Some(OpcodeInfo { mnemonic: "LDX", mode: AddressingMode::Immediate, cycles: 2, page_cross_cycle: false }),
        0xA6 => Some(OpcodeInfo { mnemonic: "LDX", mode: AddressingMode::ZeroPage, cycles: 3, page_cross_cycle: false }),
        0xB6 => Some(OpcodeInfo { mnemonic: "LDX", mode: AddressingMode::ZeroPageY, cycles: 4, page_cross_cycle: false }),
        0xAE => Some(OpcodeInfo { mnemonic: "LDX", mode: AddressingMode::Absolute, cycles: 4, page_cross_cycle: false }),
        0xBE => Some(OpcodeInfo { mnemonic: "LDX", mode: AddressingMode::AbsoluteY, cycles: 4, page_cross_cycle: true }),
        0xA0 => Some(OpcodeInfo { mnemonic: "LDY", mode: AddressingMode::Immediate, cycles: 2, page_cross_cycle: false }),
        0xA4 => Some(OpcodeInfo { mnemonic: "LDY", mode: AddressingMode::ZeroPage, cycles: 3, page_cross_cycle: false }),
        0xB4 => Some(OpcodeInfo { mnemonic: "LDY", mode: AddressingMode::ZeroPageX, cycles: 4, page_cross_cycle: false }),
        0xAC => Some(OpcodeInfo { mnemonic: "LDY", mode: AddressingMode::Absolute, cycles: 4, page_cross_cycle: false }),
        0xBC => Some(OpcodeInfo { mnemonic: "LDY", mode: AddressingMode::AbsoluteX, cycles: 4, page_cross_cycle: true }),
        0x4A => Some(OpcodeInfo { mnemonic: "LSR", mode: AddressingMode::Accumulator, cycles: 2, page_cross_cycle: false }),
        0x46 => Some(OpcodeInfo { mnemonic: "LSR", mode: AddressingMode::ZeroPage, cycles: 5, page_cross_cycle: false }),
        0x56 => Some(OpcodeInfo { mnemonic: "LSR", mode: AddressingMode::ZeroPageX, cycles: 6, page_cross_cycle: false }),
        0x4E => Some(OpcodeInfo { mnemonic: "LSR", mode: AddressingMode::Absolute, cycles: 6, page_cross_cycle: false }),
        0x5E => Some(OpcodeInfo { mnemonic: "LSR", mode: AddressingMode::AbsoluteX, cycles: 7, page_cross_cycle: false }),
        0xEA => Some(OpcodeInfo { mnemonic: "NOP", mode: AddressingMode::Implied, cycles: 2, page_cross_cycle: false }),
        0x09 => Some(OpcodeInfo { mnemonic: "ORA", mode: AddressingMode::Immediate, cycles: 2, page_cross_cycle: false }),
        0x05 => Some(OpcodeInfo { mnemonic: "ORA", mode: AddressingMode::ZeroPage, cycles: 3, page_cross_cycle: false }),
        0x15 => Some(OpcodeInfo { mnemonic: "ORA", mode: AddressingMode::ZeroPageX, cycles: 4, page_cross_cycle: false }),
        0x0D => Some(OpcodeInfo { mnemonic: "ORA", mode: AddressingMode::Absolute, cycles: 4, page_cross_cycle: false }),
        0x1D => Some(OpcodeInfo { mnemonic: "ORA", mode: AddressingMode::AbsoluteX, cycles: 4, page_cross_cycle: true }),
        0x19 => Some(OpcodeInfo { mnemonic: "ORA", mode: AddressingMode::AbsoluteY, cycles: 4, page_cross_cycle: true }),
        0x01 => Some(OpcodeInfo { mnemonic: "ORA", mode: AddressingMode::IndexedIndirect, cycles: 6, page_cross_cycle: false }),
        0x11 => Some(OpcodeInfo { mnemonic: "ORA", mode: AddressingMode::IndirectIndexed, cycles: 5, page_cross_cycle: true }),
        0x48 => Some(OpcodeInfo { mnemonic: "PHA", mode: AddressingMode::Implied, cycles: 3, page_cross_cycle: false }),
        0x08 => Some(OpcodeInfo { mnemonic: "PHP", mode: AddressingMode::Implied, cycles: 3, page_cross_cycle: false }),
        0x68 => Some(OpcodeInfo { mnemonic: "PLA", mode: AddressingMode::Implied, cycles: 4, page_cross_cycle: false }),
        0x28 => Some(OpcodeInfo { mnemonic: "PLP", mode: AddressingMode::Implied, cycles: 4, page_cross_cycle: false }),
        0x2A => Some(OpcodeInfo { mnemonic: "ROL", mode: AddressingMode::Accumulator, cycles: 2, page_cross_cycle: false }),
        0x26 => Some(OpcodeInfo { mnemonic: "ROL", mode: AddressingMode::ZeroPage, cycles: 5, page_cross_cycle: false }),
        0x36 => Some(OpcodeInfo { mnemonic: "ROL", mode: AddressingMode::ZeroPageX, cycles: 6, page_cross_cycle: false }),
        0x2E => Some(OpcodeInfo { mnemonic: "ROL", mode: AddressingMode::Absolute, cycles: 6, page_cross_cycle: false }),
        0x3E => Some(OpcodeInfo { mnemonic: "ROL", mode: AddressingMode::AbsoluteX, cycles: 7, page_cross_cycle: false }),
        0x6A => Some(OpcodeInfo { mnemonic: "ROR", mode: AddressingMode::Accumulator, cycles: 2, page_cross_cycle: false }),
        0x66 => Some(OpcodeInfo { mnemonic: "ROR", mode: AddressingMode::ZeroPage, cycles: 5, page_cross_cycle: false }),
        0x76 => Some(OpcodeInfo { mnemonic: "ROR", mode: AddressingMode::ZeroPageX, cycles: 6, page_cross_cycle: false }),
        0x6E => Some(OpcodeInfo { mnemonic: "ROR", mode: AddressingMode::Absolute, cycles: 6, page_cross_cycle: false }),
        0x7E => Some(OpcodeInfo { mnemonic: "ROR", mode: AddressingMode::AbsoluteX, cycles: 7, page_cross_cycle: false }),
        0x40 => Some(OpcodeInfo { mnemonic: "RTI", mode: AddressingMode::Implied, cycles: 6, page_cross_cycle: false }),
        0x60 => Some(OpcodeInfo { mnemonic: "RTS", mode: AddressingMode::Implied, cycles: 6, page_cross_cycle: false }),
        0xE9 => Some(OpcodeInfo { mnemonic: "SBC", mode: AddressingMode::Immediate, cycles: 2, page_cross_cycle: false }),
        0xE5 => Some(OpcodeInfo { mnemonic: "SBC", mode: AddressingMode::ZeroPage, cycles: 3, page_cross_cycle: false }),
        0xF5 => Some(OpcodeInfo { mnemonic: "SBC", mode: AddressingMode::ZeroPageX, cycles: 4, page_cross_cycle: false }),
        0xED => Some(OpcodeInfo { mnemonic: "SBC", mode: AddressingMode::Absolute, cycles: 4, page_cross_cycle: false }),
        0xFD => Some(OpcodeInfo { mnemonic: "SBC", mode: AddressingMode::AbsoluteX, cycles: 4, page_cross_cycle: true }),
        0xF9 => Some(OpcodeInfo { mnemonic: "SBC", mode: AddressingMode::AbsoluteY, cycles: 4, page_cross_cycle: true }),
        0xE1 => Some(OpcodeInfo { mnemonic: "SBC", mode: AddressingMode::IndexedIndirect, cycles: 6, page_cross_cycle: false }),
        0xF1 => Some(OpcodeInfo { mnemonic: "SBC", mode: AddressingMode::IndirectIndexed, cycles: 5, page_cross_cycle: true }),
        0x38 => Some(OpcodeInfo { mnemonic: "SEC", mode: AddressingMode::Implied, cycles: 2, page_cross_cycle: false }),
        0xF8 => Some(OpcodeInfo { mnemonic: "SED", mode: AddressingMode::Implied, cycles: 2, page_cross_cycle: false }),
        0x78 => Some(OpcodeInfo { mnemonic: "SEI", mode: AddressingMode::Implied, cycles: 2, page_cross_cycle: false }),
        0x85 => Some(OpcodeInfo { mnemonic: "STA", mode: AddressingMode::ZeroPage, cycles: 3, page_cross_cycle: false }),
        0x95 => Some(OpcodeInfo { mnemonic: "STA", mode: AddressingMode::ZeroPageX, cycles: 4, page_cross_cycle: false }),
        0x8D => Some(OpcodeInfo { mnemonic: "STA", mode: AddressingMode::Absolute, cycles: 4, page_cross_cycle: false }),
        0x9D => Some(OpcodeInfo { mnemonic: "STA", mode: AddressingMode::AbsoluteX, cycles: 5, page_cross_cycle: false }),
        0x99 => Some(OpcodeInfo { mnemonic: "STA", mode: AddressingMode::AbsoluteY, cycles: 5, page_cross_cycle: false }),
        0x81 => Some(OpcodeInfo { mnemonic: "STA", mode: AddressingMode::IndexedIndirect, cycles: 6, page_cross_cycle: false }),
        0x91 => Some(OpcodeInfo { mnemonic: "STA", mode: AddressingMode::IndirectIndexed, cycles: 6, page_cross_cycle: false }),
        0x86 => Some(OpcodeInfo { mnemonic: "STX", mode: AddressingMode::ZeroPage, cycles: 3, page_cross_cycle: false }),
        0x96 => Some(OpcodeInfo { mnemonic: "STX", mode: AddressingMode::ZeroPageY, cycles: 4, page_cross_cycle: false }),
        0x8E => Some(OpcodeInfo { mnemonic: "STX", mode: AddressingMode::Absolute, cycles: 4, page_cross_cycle: false }),
        0x84 => Some(OpcodeInfo { mnemonic: "STY", mode: AddressingMode::ZeroPage, cycles: 3, page_cross_cycle: false }),
        0x94 => Some(OpcodeInfo { mnemonic: "STY", mode: AddressingMode::ZeroPageX, cycles: 4, page_cross_cycle: false }),
        0x8C => Some(OpcodeInfo { mnemonic: "STY", mode: AddressingMode::Absolute, cycles: 4, page_cross_cycle: false }),
        0xAA => Some(OpcodeInfo { mnemonic: "TAX", mode: AddressingMode::Implied, cycles: 2, page_cross_cycle: false }),
        0xA8 => Some(OpcodeInfo { mnemonic: "TAY", mode: AddressingMode::Implied, cycles: 2, page_cross_cycle: false }),
        0xBA => Some(OpcodeInfo { mnemonic: "TSX", mode: AddressingMode::Implied, cycles: 2, page_cross_cycle: false }),
        0x8A => Some(OpcodeInfo { mnemonic: "TXA", mode: AddressingMode::Implied, cycles: 2, page_cross_cycle: false }),
        0x9A => Some(OpcodeInfo { mnemonic: "TXS", mode: AddressingMode::Implied, cycles: 2, page_cross_cycle: false }),
        0x98 => Some(OpcodeInfo { mnemonic: "TYA", mode: AddressingMode::Implied, cycles: 2, page_cross_cycle: false }),
        _ => None,
    }
}

} // verus!
