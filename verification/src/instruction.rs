//! The instruction table: one descriptor per supported opcode, holding
//! the operation tag, addressing mode, encoded length and base cycle
//! cost.  Pure data, constructed once and looked up by opcode.

use vstd::prelude::*;

verus! {

/// The rule for computing an instruction's operand address from the bytes
/// that follow it and the index registers.
#[derive(Clone, Copy, Debug, PartialEq, Eq, Hash, Structural)]
pub enum AddressingMode {
    Immediate,
    ZeroPage,
    ZeroPageX,
    ZeroPageY,
    Relative,
    Absolute,
    AbsoluteX,
    AbsoluteY,
    Indirect,
    IndirectX,
    IndirectY,
    Implied,
}

/// The operation an instruction performs, a closed tag in place of a
/// mnemonic string so that dispatch is checked exhaustively.
#[derive(Clone, Copy, Debug, PartialEq, Eq, Hash, Structural)]
pub enum Operation {
    Adc,
    And,
    Asl,
    Bcc,
    Bcs,
    Beq,
    Bit,
    Bmi,
    Bne,
    Bpl,
    Brk,
    Bvc,
    Bvs,
    Clc,
    Cld,
    Cli,
    Clv,
    Cmp,
    Cpx,
    Cpy,
    Dec,
    Dex,
    Dey,
    Eor,
    Inc,
    Inx,
    Iny,
    Jmp,
    Jsr,
    Lda,
    Ldx,
    Ldy,
    Lsr,
    Nop,
    Ora,
    Pha,
    Php,
    Pla,
    Plp,
    Rol,
    Ror,
    Rti,
    Rts,
    Sbc,
    Sec,
    Sed,
    Sei,
    Sta,
    Stx,
    Sty,
    Tax,
    Tay,
    Tsx,
    Txa,
    Txs,
    Tya,
}

/// One instruction descriptor: opcode, operation, addressing mode, length
/// in bytes, base cycle cost.
#[derive(Clone, Copy, Debug, PartialEq, Eq, Hash, Structural)]
pub struct Instruction {
    pub opcode: u8,
    pub operation: Operation,
    pub addressing_mode: AddressingMode,
    pub bytes: u8,
    pub cycles: u8,
}

impl Instruction {
    /// A descriptor from its five fields.
    pub fn new(opcode: u8, operation: Operation, addressing_mode: AddressingMode, bytes: u8, cycles: u8) -> (r: Instruction)
        ensures
            r == (Instruction { opcode, operation, addressing_mode, bytes, cycles }),
    {
        Instruction { opcode, operation, addressing_mode, bytes, cycles }
    }
}

/// The whole instruction table as a mathematical sequence.
pub open spec fn spec_instruction_table() -> Seq<Instruction> {
    Seq::empty()
        .push(Instruction { opcode: 0x0A, operation: Operation::Asl, addressing_mode: AddressingMode::Implied, bytes: 1, cycles: 2 })
        .push(Instruction { opcode: 0x00, operation: Operation::Brk, addressing_mode: AddressingMode::Implied, bytes: 1, cycles: 7 })
        .push(Instruction { opcode: 0x18, operation: Operation::Clc, addressing_mode: AddressingMode::Implied, bytes: 1, cycles: 2 })
        .push(Instruction { opcode: 0xD8, operation: Operation::Cld, addressing_mode: AddressingMode::Implied, bytes: 1, cycles: 2 })
        .push(Instruction { opcode: 0x58, operation: Operation::Cli, addressing_mode: AddressingMode::Implied, bytes: 1, cycles: 2 })
        .push(Instruction { opcode: 0xB8, operation: Operation::Clv, addressing_mode: AddressingMode::Implied, bytes: 1, cycles: 2 })
        .push(Instruction { opcode: 0xCA, operation: Operation::Dex, addressing_mode: AddressingMode::Implied, bytes: 1, cycles: 2 })
        .push(Instruction { opcode: 0x88, operation: Operation::Dey, addressing_mode: AddressingMode::Implied, bytes: 1, cycles: 2 })
        .push(Instruction { opcode: 0xE8, operation: Operation::Inx, addressing_mode: AddressingMode::Implied, bytes: 1, cycles: 2 })
        .push(Instruction { opcode: 0xC8, operation: Operation::Iny, addressing_mode: AddressingMode::Implied, bytes: 1, cycles: 2 })
        .push(Instruction { opcode: 0x4A, operation: Operation::Lsr, addressing_mode: AddressingMode::Implied, bytes: 1, cycles: 2 })
        .push(Instruction { opcode: 0xEA, operation: Operation::Nop, addressing_mode: AddressingMode::Implied, bytes: 1, cycles: 2 })
        .push(Instruction { opcode: 0x48, operation: Operation::Pha, addressing_mode: AddressingMode::Implied, bytes: 1, cycles: 3 })
        .push(Instruction { opcode: 0x08, operation: Operation::Php, addressing_mode: AddressingMode::Implied, bytes: 1, cycles: 3 })
        .push(Instruction { opcode: 0x68, operation: Operation::Pla, addressing_mode: AddressingMode::Implied, bytes: 1, cycles: 4 })
        .push(Instruction { opcode: 0x28, operation: Operation::Plp, addressing_mode: AddressingMode::Implied, bytes: 1, cycles: 4 })
        .push(Instruction { opcode: 0x2A, operation: Operation::Rol, addressing_mode: AddressingMode::Implied, bytes: 1, cycles: 2 })
        .push(Instruction { opcode: 0x6A, operation: Operation::Ror, addressing_mode: AddressingMode::Implied, bytes: 1, cycles: 2 })
        .push(Instruction { opcode: 0x40, operation: Operation::Rti, addressing_mode: AddressingMode::Implied, bytes: 1, cycles: 6 })
        .push(Instruction { opcode: 0x60, operation: Operation::Rts, addressing_mode: AddressingMode::Implied, bytes: 1, cycles: 6 })
        .push(Instruction { opcode: 0x38, operation: Operation::Sec, addressing_mode: AddressingMode::Implied, bytes: 1, cycles: 2 })
        .push(Instruction { opcode: 0xF8, operation: Operation::Sed, addressing_mode: AddressingMode::Implied, bytes: 1, cycles: 2 })
        .push(Instruction { opcode: 0x78, operation: Operation::Sei, addressing_mode: AddressingMode::Implied, bytes: 1, cycles: 2 })
        .push(Instruction { opcode: 0xAA, operation: Operation::Tax, addressing_mode: AddressingMode::Implied, bytes: 1, cycles: 2 })
        .push(Instruction { opcode: 0xA8, operation: Operation::Tay, addressing_mode: AddressingMode::Implied, bytes: 1, cycles: 2 })
        .push(Instruction { opcode: 0xBA, operation: Operation::Tsx, addressing_mode: AddressingMode::Implied, bytes: 1, cycles: 2 })
        .push(Instruction { opcode: 0x8A, operation: Operation::Txa, addressing_mode: AddressingMode::Implied, bytes: 1, cycles: 2 })
        .push(Instruction { opcode: 0x9A, operation: Operation::Txs, addressing_mode: AddressingMode::Implied, bytes: 1, cycles: 2 })
        .push(Instruction { opcode: 0x98, operation: Operation::Tya, addressing_mode: AddressingMode::Implied, bytes: 1, cycles: 2 })
        .push(Instruction { opcode: 0x69, operation: Operation::Adc, addressing_mode: AddressingMode::Immediate, bytes: 2, cycles: 2 })
        .push(Instruction { opcode: 0x65, operation: Operation::Adc, addressing_mode: AddressingMode::ZeroPage, bytes: 2, cycles: 3 })
        .push(Instruction { opcode: 0x75, operation: Operation::Adc, addressing_mode: AddressingMode::ZeroPageX, bytes: 2, cycles: 4 })
        .push(Instruction { opcode: 0x6D, operation: Operation::Adc, addressing_mode: AddressingMode::Absolute, bytes: 3, cycles: 4 })
        .push(Instruction { opcode: 0x7D, operation: Operation::Adc, addressing_mode: AddressingMode::AbsoluteX, bytes: 3, cycles: 4 })
        .push(Instruction { opcode: 0x79, operation: Operation::Adc, addressing_mode: AddressingMode::AbsoluteY, bytes: 3, cycles: 4 })
        .push(Instruction { opcode: 0x61, operation: Operation::Adc, addressing_mode: AddressingMode::IndirectX, bytes: 2, cycles: 6 })
        .push(Instruction { opcode: 0x71, operation: Operation::Adc, addressing_mode: AddressingMode::IndirectY, bytes: 2, cycles: 5 })
        .push(Instruction { opcode: 0x29, operation: Operation::And, addressing_mode: AddressingMode::Immediate, bytes: 2, cycles: 2 })
        .push(Instruction { opcode: 0x25, operation: Operation::And, addressing_mode: AddressingMode::ZeroPage, bytes: 2, cycles: 3 })
        .push(Instruction { opcode: 0x35, operation: Operation::And, addressing_mode: AddressingMode::ZeroPageX, bytes: 2, cycles: 4 })
        .push(Instruction { opcode: 0x2D, operation: Operation::And, addressing_mode: AddressingMode::Absolute, bytes: 3, cycles: 4 })
        .push(Instruction { opcode: 0x3D, operation: Operation::And, addressing_mode: AddressingMode::AbsoluteX, bytes: 3, cycles: 4 })
        .push(Instruction { opcode: 0x39, operation: Operation::And, addressing_mode: AddressingMode::AbsoluteY, bytes: 3, cycles: 4 })
        .push(Instruction { opcode: 0x21, operation: Operation::And, addressing_mode: AddressingMode::IndirectX, bytes: 2, cycles: 6 })
        .push(Instruction { opcode: 0x31, operation: Operation::And, addressing_mode: AddressingMode::IndirectY, bytes: 2, cycles: 5 })
        .push(Instruction { opcode: 0x06, operation: Operation::Asl, addressing_mode: AddressingMode::ZeroPage, bytes: 2, cycles: 5 })
        .push(Instruction { opcode: 0x16, operation: Operation::Asl, addressing_mode: AddressingMode::ZeroPageX, bytes: 2, cycles: 6 })
        .push(Instruction { opcode: 0x0E, operation: Operation::Asl, addressing_mode: AddressingMode::Absolute, bytes: 3, cycles: 6 })
        .push(Instruction { opcode: 0x1E, operation: Operation::Asl, addressing_mode: AddressingMode::AbsoluteX, bytes: 3, cycles: 7 })
        .push(Instruction { opcode: 0x90, operation: Operation::Bcc, addressing_mode: AddressingMode::Relative, bytes: 2, cycles: 2 })
        .push(Instruction { opcode: 0xB0, operation: Operation::Bcs, addressing_mode: AddressingMode::Relative, bytes: 2, cycles: 2 })
        .push(Instruction { opcode: 0xF0, operation: Operation::Beq, addressing_mode: AddressingMode::Relative, bytes: 2, cycles: 2 })
        .push(Instruction { opcode: 0x24, operation: Operation::Bit, addressing_mode: AddressingMode::ZeroPage, bytes: 2, cycles: 3 })
        .push(Instruction { opcode: 0x2C, operation: Operation::Bit, addressing_mode: AddressingMode::Absolute, bytes: 3, cycles: 4 })
        .push(Instruction { opcode: 0x30, operation: Operation::Bmi, addressing_mode: AddressingMode::Relative, bytes: 2, cycles: 2 })
        .push(Instruction { opcode: 0xD0, operation: Operation::Bne, addressing_mode: AddressingMode::Relative, bytes: 2, cycles: 2 })
        .push(Instruction { opcode: 0x10, operation: Operation::Bpl, addressing_mode: AddressingMode::Relative, bytes: 2, cycles: 2 })
        .push(Instruction { opcode: 0x50, operation: Operation::Bvc, addressing_mode: AddressingMode::Relative, bytes: 2, cycles: 2 })
        .push(Instruction { opcode: 0x70, operation: Operation::Bvs, addressing_mode: AddressingMode::Relative, bytes: 2, cycles: 2 })
        .push(Instruction { opcode: 0xC9, operation: Operation::Cmp, addressing_mode: AddressingMode::Immediate, bytes: 2, cycles: 2 })
        .push(Instruction { opcode: 0xC5, operation: Operation::Cmp, addressing_mode: AddressingMode::ZeroPage, bytes: 2, cycles: 3 })
        .push(Instruction { opcode: 0xD5, operation: Operation::Cmp, addressing_mode: AddressingMode::ZeroPageX, bytes: 2, cycles: 4 })
        .push(Instruction { opcode: 0xCD, operation: Operation::Cmp, addressing_mode: AddressingMode::Absolute, bytes: 3, cycles: 4 })
        .push(Instruction { opcode: 0xDD, operation: Operation::Cmp, addressing_mode: AddressingMode::AbsoluteX, bytes: 3, cycles: 4 })
        .push(Instruction { opcode: 0xD9, operation: Operation::Cmp, addressing_mode: AddressingMode::AbsoluteY, bytes: 3, cycles: 4 })
        .push(Instruction { opcode: 0xC1, operation: Operation::Cmp, addressing_mode: AddressingMode::IndirectX, bytes: 2, cycles: 6 })
        .push(Instruction { opcode: 0xD1, operation: Operation::Cmp, addressing_mode: AddressingMode::IndirectY, bytes: 2, cycles: 5 })
        .push(Instruction { opcode: 0xE0, operation: Operation::Cpx, addressing_mode: AddressingMode::Immediate, bytes: 2, cycles: 2 })
        .push(Instruction { opcode: 0xE4, operation: Operation::Cpx, addressing_mode: AddressingMode::ZeroPage, bytes: 2, cycles: 3 })
        .push(Instruction { opcode: 0xEC, operation: Operation::Cpx, addressing_mode: AddressingMode::Absolute, bytes: 3, cycles: 4 })
        .push(Instruction { opcode: 0xC0, operation: Operation::Cpy, addressing_mode: AddressingMode::Immediate, bytes: 2, cycles: 2 })
        .push(Instruction { opcode: 0xC4, operation: Operation::Cpy, addressing_mode: AddressingMode::ZeroPage, bytes: 2, cycles: 3 })
        .push(Instruction { opcode: 0xCC, operation: Operation::Cpy, addressing_mode: AddressingMode::Absolute, bytes: 3, cycles: 4 })
        .push(Instruction { opcode: 0xC6, operation: Operation::Dec, addressing_mode: AddressingMode::ZeroPage, bytes: 2, cycles: 5 })
        .push(Instruction { opcode: 0xD6, operation: Operation::Dec, addressing_mode: AddressingMode::ZeroPageX, bytes: 2, cycles: 6 })
        .push(Instruction { opcode: 0xCE, operation: Operation::Dec, addressing_mode: AddressingMode::Absolute, bytes: 3, cycles: 6 })
        .push(Instruction { opcode: 0xDE, operation: Operation::Dec, addressing_mode: AddressingMode::AbsoluteX, bytes: 3, cycles: 7 })
        .push(Instruction { opcode: 0x49, operation: Operation::Eor, addressing_mode: AddressingMode::Immediate, bytes: 2, cycles: 2 })
        .push(Instruction { opcode: 0x45, operation: Operation::Eor, addressing_mode: AddressingMode::ZeroPage, bytes: 2, cycles: 3 })
        .push(Instruction { opcode: 0x55, operation: Operation::Eor, addressing_mode: AddressingMode::ZeroPageX, bytes: 2, cycles: 4 })
        .push(Instruction { opcode: 0x4D, operation: Operation::Eor, addressing_mode: AddressingMode::Absolute, bytes: 3, cycles: 4 })
        .push(Instruction { opcode: 0x5D, operation: Operation::Eor, addressing_mode: AddressingMode::AbsoluteX, bytes: 3, cycles: 4 })
        .push(Instruction { opcode: 0x59, operation: Operation::Eor, addressing_mode: AddressingMode::AbsoluteY, bytes: 3, cycles: 4 })
        .push(Instruction { opcode: 0x41, operation: Operation::Eor, addressing_mode: AddressingMode::IndirectX, bytes: 2, cycles: 6 })
        .push(Instruction { opcode: 0x51, operation: Operation::Eor, addressing_mode: AddressingMode::IndirectY, bytes: 2, cycles: 5 })
        .push(Instruction { opcode: 0xE6, operation: Operation::Inc, addressing_mode: AddressingMode::ZeroPage, bytes: 2, cycles: 5 })
        .push(Instruction { opcode: 0xF6, operation: Operation::Inc, addressing_mode: AddressingMode::ZeroPageX, bytes: 2, cycles: 6 })
        .push(Instruction { opcode: 0xEE, operation: Operation::Inc, addressing_mode: AddressingMode::Absolute, bytes: 3, cycles: 6 })
        .push(Instruction { opcode: 0xFE, operation: Operation::Inc, addressing_mode: AddressingMode::AbsoluteX, bytes: 3, cycles: 7 })
        .push(Instruction { opcode: 0x4C, operation: Operation::Jmp, addressing_mode: AddressingMode::Absolute, bytes: 3, cycles: 3 })
        .push(Instruction { opcode: 0x6C, operation: Operation::Jmp, addressing_mode: AddressingMode::Indirect, bytes: 3, cycles: 5 })
        .push(Instruction { opcode: 0x20, operation: Operation::Jsr, addressing_mode: AddressingMode::Absolute, bytes: 3, cycles: 6 })
        .push(Instruction { opcode: 0xA9, operation: Operation::Lda, addressing_mode: AddressingMode::Immediate, bytes: 2, cycles: 2 })
        .push(Instruction { opcode: 0xA5, operation: Operation::Lda, addressing_mode: AddressingMode::ZeroPage, bytes: 2, cycles: 3 })
        .push(Instruction { opcode: 0xB5, operation: Operation::Lda, addressing_mode: AddressingMode::ZeroPageX, bytes: 2, cycles: 4 })
        .push(Instruction { opcode: 0xAD, operation: Operation::Lda, addressing_mode: AddressingMode::Absolute, bytes: 3, cycles: 4 })
        .push(Instruction { opcode: 0xBD, operation: Operation::Lda, addressing_mode: AddressingMode::AbsoluteX, bytes: 3, cycles: 4 })
        .push(Instruction { opcode: 0xB9, operation: Operation::Lda, addressing_mode: AddressingMode::AbsoluteY, bytes: 3, cycles: 4 })
        .push(Instruction { opcode: 0xA1, operation: Operation::Lda, addressing_mode: AddressingMode::IndirectX, bytes: 2, cycles: 6 })
        .push(Instruction { opcode: 0xB1, operation: Operation::Lda, addressing_mode: AddressingMode::IndirectY, bytes: 2, cycles: 5 })
        .push(Instruction { opcode: 0xA2, operation: Operation::Ldx, addressing_mode: AddressingMode::Immediate, bytes: 2, cycles: 2 })
        .push(Instruction { opcode: 0xA6, operation: Operation::Ldx, addressing_mode: AddressingMode::ZeroPage, bytes: 2, cycles: 3 })
        .push(Instruction { opcode: 0xB6, operation: Operation::Ldx, addressing_mode: AddressingMode::ZeroPageY, bytes: 2, cycles: 4 })
        .push(Instruction { opcode: 0xAE, operation: Operation::Ldx, addressing_mode: AddressingMode::Absolute, bytes: 3, cycles: 4 })
        .push(Instruction { opcode: 0xBE, operation: Operation::Ldx, addressing_mode: AddressingMode::AbsoluteY, bytes: 3, cycles: 4 })
        .push(Instruction { opcode: 0xA0, operation: Operation::Ldy, addressing_mode: AddressingMode::Immediate, bytes: 2, cycles: 2 })
        .push(Instruction { opcode: 0xA4, operation: Operation::Ldy, addressing_mode: AddressingMode::ZeroPage, bytes: 2, cycles: 3 })
        .push(Instruction { opcode: 0xB4, operation: Operation::Ldy, addressing_mode: AddressingMode::ZeroPageX, bytes: 2, cycles: 4 })
        .push(Instruction { opcode: 0xAC, operation: Operation::Ldy, addressing_mode: AddressingMode::Absolute, bytes: 3, cycles: 4 })
        .push(Instruction { opcode: 0xBC, operation: Operation::Ldy, addressing_mode: AddressingMode::AbsoluteX, bytes: 3, cycles: 4 })
        .push(Instruction { opcode: 0x46, operation: Operation::Lsr, addressing_mode: AddressingMode::ZeroPage, bytes: 2, cycles: 5 })
        .push(Instruction { opcode: 0x56, operation: Operation::Lsr, addressing_mode: AddressingMode::ZeroPageX, bytes: 2, cycles: 6 })
        .push(Instruction { opcode: 0x4E, operation: Operation::Lsr, addressing_mode: AddressingMode::Absolute, bytes: 3, cycles: 6 })
        .push(Instruction { opcode: 0x5E, operation: Operation::Lsr, addressing_mode: AddressingMode::AbsoluteX, bytes: 3, cycles: 7 })
        .push(Instruction { opcode: 0x09, operation: Operation::Ora, addressing_mode: AddressingMode::Immediate, bytes: 2, cycles: 2 })
        .push(Instruction { opcode: 0x05, operation: Operation::Ora, addressing_mode: AddressingMode::ZeroPage, bytes: 2, cycles: 3 })
        .push(Instruction { opcode: 0x15, operation: Operation::Ora, addressing_mode: AddressingMode::ZeroPageX, bytes: 2, cycles: 4 })
        .push(Instruction { opcode: 0x0D, operation: Operation::Ora, addressing_mode: AddressingMode::Absolute, bytes: 3, cycles: 4 })
        .push(Instruction { opcode: 0x1D, operation: Operation::Ora, addressing_mode: AddressingMode::AbsoluteX, bytes: 3, cycles: 4 })
        .push(Instruction { opcode: 0x19, operation: Operation::Ora, addressing_mode: AddressingMode::AbsoluteY, bytes: 3, cycles: 4 })
        .push(Instruction { opcode: 0x01, operation: Operation::Ora, addressing_mode: AddressingMode::IndirectX, bytes: 2, cycles: 6 })
        .push(Instruction { opcode: 0x11, operation: Operation::Ora, addressing_mode: AddressingMode::IndirectY, bytes: 2, cycles: 5 })
        .push(Instruction { opcode: 0x26, operation: Operation::Rol, addressing_mode: AddressingMode::ZeroPage, bytes: 2, cycles: 5 })
        .push(Instruction { opcode: 0x36, operation: Operation::Rol, addressing_mode: AddressingMode::ZeroPageX, bytes: 2, cycles: 6 })
        .push(Instruction { opcode: 0x2E, operation: Operation::Rol, addressing_mode: AddressingMode::Absolute, bytes: 3, cycles: 6 })
        .push(Instruction { opcode: 0x3E, operation: Operation::Rol, addressing_mode: AddressingMode::AbsoluteX, bytes: 3, cycles: 7 })
        .push(Instruction { opcode: 0x66, operation: Operation::Ror, addressing_mode: AddressingMode::ZeroPage, bytes: 2, cycles: 5 })
        .push(Instruction { opcode: 0x76, operation: Operation::Ror, addressing_mode: AddressingMode::ZeroPageX, bytes: 2, cycles: 6 })
        .push(Instruction { opcode: 0x6E, operation: Operation::Ror, addressing_mode: AddressingMode::Absolute, bytes: 3, cycles: 6 })
        .push(Instruction { opcode: 0x7E, operation: Operation::Ror, addressing_mode: AddressingMode::AbsoluteX, bytes: 3, cycles: 7 })
        .push(Instruction { opcode: 0xE9, operation: Operation::Sbc, addressing_mode: AddressingMode::Immediate, bytes: 2, cycles: 2 })
        .push(Instruction { opcode: 0xE5, operation: Operation::Sbc, addressing_mode: AddressingMode::ZeroPage, bytes: 2, cycles: 3 })
        .push(Instruction { opcode: 0xF5, operation: Operation::Sbc, addressing_mode: AddressingMode::ZeroPageX, bytes: 2, cycles: 4 })
        .push(Instruction { opcode: 0xED, operation: Operation::Sbc, addressing_mode: AddressingMode::Absolute, bytes: 3, cycles: 4 })
        .push(Instruction { opcode: 0xFD, operation: Operation::Sbc, addressing_mode: AddressingMode::AbsoluteX, bytes: 3, cycles: 4 })
        .push(Instruction { opcode: 0xF9, operation: Operation::Sbc, addressing_mode: AddressingMode::AbsoluteY, bytes: 3, cycles: 4 })
        .push(Instruction { opcode: 0xE1, operation: Operation::Sbc, addressing_mode: AddressingMode::IndirectX, bytes: 2, cycles: 6 })
        .push(Instruction { opcode: 0xF1, operation: Operation::Sbc, addressing_mode: AddressingMode::IndirectY, bytes: 2, cycles: 5 })
        .push(Instruction { opcode: 0x85, operation: Operation::Sta, addressing_mode: AddressingMode::ZeroPage, bytes: 2, cycles: 3 })
        .push(Instruction { opcode: 0x95, operation: Operation::Sta, addressing_mode: AddressingMode::ZeroPageX, bytes: 2, cycles: 4 })
        .push(Instruction { opcode: 0x8D, operation: Operation::Sta, addressing_mode: AddressingMode::Absolute, bytes: 3, cycles: 4 })
        .push(Instruction { opcode: 0x9D, operation: Operation::Sta, addressing_mode: AddressingMode::AbsoluteX, bytes: 3, cycles: 5 })
        .push(Instruction { opcode: 0x99, operation: Operation::Sta, addressing_mode: AddressingMode::AbsoluteY, bytes: 3, cycles: 5 })
        .push(Instruction { opcode: 0x81, operation: Operation::Sta, addressing_mode: AddressingMode::IndirectX, bytes: 2, cycles: 6 })
        .push(Instruction { opcode: 0x91, operation: Operation::Sta, addressing_mode: AddressingMode::IndirectY, bytes: 2, cycles: 6 })
        .push(Instruction { opcode: 0x86, operation: Operation::Stx, addressing_mode: AddressingMode::ZeroPage, bytes: 2, cycles: 3 })
        .push(Instruction { opcode: 0x96, operation: Operation::Stx, addressing_mode: AddressingMode::ZeroPageY, bytes: 2, cycles: 4 })
        .push(Instruction { opcode: 0x8E, operation: Operation::Stx, addressing_mode: AddressingMode::Absolute, bytes: 3, cycles: 4 })
        .push(Instruction { opcode: 0x84, operation: Operation::Sty, addressing_mode: AddressingMode::ZeroPage, bytes: 2, cycles: 3 })
        .push(Instruction { opcode: 0x94, operation: Operation::Sty, addressing_mode: AddressingMode::ZeroPageX, bytes: 2, cycles: 4 })
        .push(Instruction { opcode: 0x8C, operation: Operation::Sty, addressing_mode: AddressingMode::Absolute, bytes: 3, cycles: 4 })
}

/// The first descriptor at or after position `i` whose opcode matches.
pub open spec fn spec_find_from(table: Seq<Instruction>, opcode: u8, i: int) -> Option<Instruction>
    decreases table.len() - i,
{
    if i < 0 || i >= table.len() {
        None
    } else if table[i].opcode == opcode {
        Some(table[i])
    } else {
        spec_find_from(table, opcode, i + 1)
    }
}

/// The first descriptor in the table whose opcode matches.
pub open spec fn spec_find_instruction(table: Seq<Instruction>, opcode: u8) -> Option<Instruction> {
    spec_find_from(table, opcode, 0)
}

/// Build the instruction table.
pub fn instructions() -> (r: Vec<Instruction>)
    ensures
        r@ == spec_instruction_table(),
{
    let mut table: Vec<Instruction> = Vec::new();
    table.push(Instruction { opcode: 0x0A, operation: Operation::Asl, addressing_mode: AddressingMode::Implied, bytes: 1, cycles: 2 });
    table.push(Instruction { opcode: 0x00, operation: Operation::Brk, addressing_mode: AddressingMode::Implied, bytes: 1, cycles: 7 });
    table.push(Instruction { opcode: 0x18, operation: Operation::Clc, addressing_mode: AddressingMode::Implied, bytes: 1, cycles: 2 });
    table.push(Instruction { opcode: 0xD8, operation: Operation::Cld, addressing_mode: AddressingMode::Implied, bytes: 1, cycles: 2 });
    table.push(Instruction { opcode: 0x58, operation: Operation::Cli, addressing_mode: AddressingMode::Implied, bytes: 1, cycles: 2 });
    table.push(Instruction { opcode: 0xB8, operation: Operation::Clv, addressing_mode: AddressingMode::Implied, bytes: 1, cycles: 2 });
    table.push(Instruction { opcode: 0xCA, operation: Operation::Dex, addressing_mode: AddressingMode::Implied, bytes: 1, cycles: 2 });
    table.push(Instruction { opcode: 0x88, operation: Operation::Dey, addressing_mode: AddressingMode::Implied, bytes: 1, cycles: 2 });
    table.push(Instruction { opcode: 0xE8, operation: Operation::Inx, addressing_mode: AddressingMode::Implied, bytes: 1, cycles: 2 });
    table.push(Instruction { opcode: 0xC8, operation: Operation::Iny, addressing_mode: AddressingMode::Implied, bytes: 1, cycles: 2 });
    table.push(Instruction { opcode: 0x4A, operation: Operation::Lsr, addressing_mode: AddressingMode::Implied, bytes: 1, cycles: 2 });
    table.push(Instruction { opcode: 0xEA, operation: Operation::Nop, addressing_mode: AddressingMode::Implied, bytes: 1, cycles: 2 });
    table.push(Instruction { opcode: 0x48, operation: Operation::Pha, addressing_mode: AddressingMode::Implied, bytes: 1, cycles: 3 });
    table.push(Instruction { opcode: 0x08, operation: Operation::Php, addressing_mode: AddressingMode::Implied, bytes: 1, cycles: 3 });
    table.push(Instruction { opcode: 0x68, operation: Operation::Pla, addressing_mode: AddressingMode::Implied, bytes: 1, cycles: 4 });
    table.push(Instruction { opcode: 0x28, operation: Operation::Plp, addressing_mode: AddressingMode::Implied, bytes: 1, cycles: 4 });
    table.push(Instruction { opcode: 0x2A, operation: Operation::Rol, addressing_mode: AddressingMode::Implied, bytes: 1, cycles: 2 });
    table.push(Instruction { opcode: 0x6A, operation: Operation::Ror, addressing_mode: AddressingMode::Implied, bytes: 1, cycles: 2 });
    table.push(Instruction { opcode: 0x40, operation: Operation::Rti, addressing_mode: AddressingMode::Implied, bytes: 1, cycles: 6 });
    table.push(Instruction { opcode: 0x60, operation: Operation::Rts, addressing_mode: AddressingMode::Implied, bytes: 1, cycles: 6 });
    table.push(Instruction { opcode: 0x38, operation: Operation::Sec, addressing_mode: AddressingMode::Implied, bytes: 1, cycles: 2 });
    table.push(Instruction { opcode: 0xF8, operation: Operation::Sed, addressing_mode: AddressingMode::Implied, bytes: 1, cycles: 2 });
    table.push(Instruction { opcode: 0x78, operation: Operation::Sei, addressing_mode: AddressingMode::Implied, bytes: 1, cycles: 2 });
    table.push(Instruction { opcode: 0xAA, operation: Operation::Tax, addressing_mode: AddressingMode::Implied, bytes: 1, cycles: 2 });
    table.push(Instruction { opcode: 0xA8, operation: Operation::Tay, addressing_mode: AddressingMode::Implied, bytes: 1, cycles: 2 });
    table.push(Instruction { opcode: 0xBA, operation: Operation::Tsx, addressing_mode: AddressingMode::Implied, bytes: 1, cycles: 2 });
    table.push(Instruction { opcode: 0x8A, operation: Operation::Txa, addressing_mode: AddressingMode::Implied, bytes: 1, cycles: 2 });
    table.push(Instruction { opcode: 0x9A, operation: Operation::Txs, addressing_mode: AddressingMode::Implied, bytes: 1, cycles: 2 });
    table.push(Instruction { opcode: 0x98, operation: Operation::Tya, addressing_mode: AddressingMode::Implied, bytes: 1, cycles: 2 });
    table.push(Instruction { opcode: 0x69, operation: Operation::Adc, addressing_mode: AddressingMode::Immediate, bytes: 2, cycles: 2 });
    table.push(Instruction { opcode: 0x65, operation: Operation::Adc, addressing_mode: AddressingMode::ZeroPage, bytes: 2, cycles: 3 });
    table.push(Instruction { opcode: 0x75, operation: Operation::Adc, addressing_mode: AddressingMode::ZeroPageX, bytes: 2, cycles: 4 });
    table.push(Instruction { opcode: 0x6D, operation: Operation::Adc, addressing_mode: AddressingMode::Absolute, bytes: 3, cycles: 4 });
    table.push(Instruction { opcode: 0x7D, operation: Operation::Adc, addressing_mode: AddressingMode::AbsoluteX, bytes: 3, cycles: 4 });
    table.push(Instruction { opcode: 0x79, operation: Operation::Adc, addressing_mode: AddressingMode::AbsoluteY, bytes: 3, cycles: 4 });
    table.push(Instruction { opcode: 0x61, operation: Operation::Adc, addressing_mode: AddressingMode::IndirectX, bytes: 2, cycles: 6 });
    table.push(Instruction { opcode: 0x71, operation: Operation::Adc, addressing_mode: AddressingMode::IndirectY, bytes: 2, cycles: 5 });
    table.push(Instruction { opcode: 0x29, operation: Operation::And, addressing_mode: AddressingMode::Immediate, bytes: 2, cycles: 2 });
    table.push(Instruction { opcode: 0x25, operation: Operation::And, addressing_mode: AddressingMode::ZeroPage, bytes: 2, cycles: 3 });
    table.push(Instruction { opcode: 0x35, operation: Operation::And, addressing_mode: AddressingMode::ZeroPageX, bytes: 2, cycles: 4 });
    table.push(Instruction { opcode: 0x2D, operation: Operation::And, addressing_mode: AddressingMode::Absolute, bytes: 3, cycles: 4 });
    table.push(Instruction { opcode: 0x3D, operation: Operation::And, addressing_mode: AddressingMode::AbsoluteX, bytes: 3, cycles: 4 });
    table.push(Instruction { opcode: 0x39, operation: Operation::And, addressing_mode: AddressingMode::AbsoluteY, bytes: 3, cycles: 4 });
    table.push(Instruction { opcode: 0x21, operation: Operation::And, addressing_mode: AddressingMode::IndirectX, bytes: 2, cycles: 6 });
    table.push(Instruction { opcode: 0x31, operation: Operation::And, addressing_mode: AddressingMode::IndirectY, bytes: 2, cycles: 5 });
    table.push(Instruction { opcode: 0x06, operation: Operation::Asl, addressing_mode: AddressingMode::ZeroPage, bytes: 2, cycles: 5 });
    table.push(Instruction { opcode: 0x16, operation: Operation::Asl, addressing_mode: AddressingMode::ZeroPageX, bytes: 2, cycles: 6 });
    table.push(Instruction { opcode: 0x0E, operation: Operation::Asl, addressing_mode: AddressingMode::Absolute, bytes: 3, cycles: 6 });
    table.push(Instruction { opcode: 0x1E, operation: Operation::Asl, addressing_mode: AddressingMode::AbsoluteX, bytes: 3, cycles: 7 });
    table.push(Instruction { opcode: 0x90, operation: Operation::Bcc, addressing_mode: AddressingMode::Relative, bytes: 2, cycles: 2 });
    table.push(Instruction { opcode: 0xB0, operation: Operation::Bcs, addressing_mode: AddressingMode::Relative, bytes: 2, cycles: 2 });
    table.push(Instruction { opcode: 0xF0, operation: Operation::Beq, addressing_mode: AddressingMode::Relative, bytes: 2, cycles: 2 });
    table.push(Instruction { opcode: 0x24, operation: Operation::Bit, addressing_mode: AddressingMode::ZeroPage, bytes: 2, cycles: 3 });
    table.push(Instruction { opcode: 0x2C, operation: Operation::Bit, addressing_mode: AddressingMode::Absolute, bytes: 3, cycles: 4 });
    table.push(Instruction { opcode: 0x30, operation: Operation::Bmi, addressing_mode: AddressingMode::Relative, bytes: 2, cycles: 2 });
    table.push(Instruction { opcode: 0xD0, operation: Operation::Bne, addressing_mode: AddressingMode::Relative, bytes: 2, cycles: 2 });
    table.push(Instruction { opcode: 0x10, operation: Operation::Bpl, addressing_mode: AddressingMode::Relative, bytes: 2, cycles: 2 });
    table.push(Instruction { opcode: 0x50, operation: Operation::Bvc, addressing_mode: AddressingMode::Relative, bytes: 2, cycles: 2 });
    table.push(Instruction { opcode: 0x70, operation: Operation::Bvs, addressing_mode: AddressingMode::Relative, bytes: 2, cycles: 2 });
    table.push(Instruction { opcode: 0xC9, operation: Operation::Cmp, addressing_mode: AddressingMode::Immediate, bytes: 2, cycles: 2 });
    table.push(Instruction { opcode: 0xC5, operation: Operation::Cmp, addressing_mode: AddressingMode::ZeroPage, bytes: 2, cycles: 3 });
    table.push(Instruction { opcode: 0xD5, operation: Operation::Cmp, addressing_mode: AddressingMode::ZeroPageX, bytes: 2, cycles: 4 });
    table.push(Instruction { opcode: 0xCD, operation: Operation::Cmp, addressing_mode: AddressingMode::Absolute, bytes: 3, cycles: 4 });
    table.push(Instruction { opcode: 0xDD, operation: Operation::Cmp, addressing_mode: AddressingMode::AbsoluteX, bytes: 3, cycles: 4 });
    table.push(Instruction { opcode: 0xD9, operation: Operation::Cmp, addressing_mode: AddressingMode::AbsoluteY, bytes: 3, cycles: 4 });
    table.push(Instruction { opcode: 0xC1, operation: Operation::Cmp, addressing_mode: AddressingMode::IndirectX, bytes: 2, cycles: 6 });
    table.push(Instruction { opcode: 0xD1, operation: Operation::Cmp, addressing_mode: AddressingMode::IndirectY, bytes: 2, cycles: 5 });
    table.push(Instruction { opcode: 0xE0, operation: Operation::Cpx, addressing_mode: AddressingMode::Immediate, bytes: 2, cycles: 2 });
    table.push(Instruction { opcode: 0xE4, operation: Operation::Cpx, addressing_mode: AddressingMode::ZeroPage, bytes: 2, cycles: 3 });
    table.push(Instruction { opcode: 0xEC, operation: Operation::Cpx, addressing_mode: AddressingMode::Absolute, bytes: 3, cycles: 4 });
    table.push(Instruction { opcode: 0xC0, operation: Operation::Cpy, addressing_mode: AddressingMode::Immediate, bytes: 2, cycles: 2 });
    table.push(Instruction { opcode: 0xC4, operation: Operation::Cpy, addressing_mode: AddressingMode::ZeroPage, bytes: 2, cycles: 3 });
    table.push(Instruction { opcode: 0xCC, operation: Operation::Cpy, addressing_mode: AddressingMode::Absolute, bytes: 3, cycles: 4 });
    table.push(Instruction { opcode: 0xC6, operation: Operation::Dec, addressing_mode: AddressingMode::ZeroPage, bytes: 2, cycles: 5 });
    table.push(Instruction { opcode: 0xD6, operation: Operation::Dec, addressing_mode: AddressingMode::ZeroPageX, bytes: 2, cycles: 6 });
    table.push(Instruction { opcode: 0xCE, operation: Operation::Dec, addressing_mode: AddressingMode::Absolute, bytes: 3, cycles: 6 });
    table.push(Instruction { opcode: 0xDE, operation: Operation::Dec, addressing_mode: AddressingMode::AbsoluteX, bytes: 3, cycles: 7 });
    table.push(Instruction { opcode: 0x49, operation: Operation::Eor, addressing_mode: AddressingMode::Immediate, bytes: 2, cycles: 2 });
    table.push(Instruction { opcode: 0x45, operation: Operation::Eor, addressing_mode: AddressingMode::ZeroPage, bytes: 2, cycles: 3 });
    table.push(Instruction { opcode: 0x55, operation: Operation::Eor, addressing_mode: AddressingMode::ZeroPageX, bytes: 2, cycles: 4 });
    table.push(Instruction { opcode: 0x4D, operation: Operation::Eor, addressing_mode: AddressingMode::Absolute, bytes: 3, cycles: 4 });
    table.push(Instruction { opcode: 0x5D, operation: Operation::Eor, addressing_mode: AddressingMode::AbsoluteX, bytes: 3, cycles: 4 });
    table.push(Instruction { opcode: 0x59, operation: Operation::Eor, addressing_mode: AddressingMode::AbsoluteY, bytes: 3, cycles: 4 });
    table.push(Instruction { opcode: 0x41, operation: Operation::Eor, addressing_mode: AddressingMode::IndirectX, bytes: 2, cycles: 6 });
    table.push(Instruction { opcode: 0x51, operation: Operation::Eor, addressing_mode: AddressingMode::IndirectY, bytes: 2, cycles: 5 });
    table.push(Instruction { opcode: 0xE6, operation: Operation::Inc, addressing_mode: AddressingMode::ZeroPage, bytes: 2, cycles: 5 });
    table.push(Instruction { opcode: 0xF6, operation: Operation::Inc, addressing_mode: AddressingMode::ZeroPageX, bytes: 2, cycles: 6 });
    table.push(Instruction { opcode: 0xEE, operation: Operation::Inc, addressing_mode: AddressingMode::Absolute, bytes: 3, cycles: 6 });
    table.push(Instruction { opcode: 0xFE, operation: Operation::Inc, addressing_mode: AddressingMode::AbsoluteX, bytes: 3, cycles: 7 });
    table.push(Instruction { opcode: 0x4C, operation: Operation::Jmp, addressing_mode: AddressingMode::Absolute, bytes: 3, cycles: 3 });
    table.push(Instruction { opcode: 0x6C, operation: Operation::Jmp, addressing_mode: AddressingMode::Indirect, bytes: 3, cycles: 5 });
    table.push(Instruction { opcode: 0x20, operation: Operation::Jsr, addressing_mode: AddressingMode::Absolute, bytes: 3, cycles: 6 });
    table.push(Instruction { opcode: 0xA9, operation: Operation::Lda, addressing_mode: AddressingMode::Immediate, bytes: 2, cycles: 2 });
    table.push(Instruction { opcode: 0xA5, operation: Operation::Lda, addressing_mode: AddressingMode::ZeroPage, bytes: 2, cycles: 3 });
    table.push(Instruction { opcode: 0xB5, operation: Operation::Lda, addressing_mode: AddressingMode::ZeroPageX, bytes: 2, cycles: 4 });
    table.push(Instruction { opcode: 0xAD, operation: Operation::Lda, addressing_mode: AddressingMode::Absolute, bytes: 3, cycles: 4 });
    table.push(Instruction { opcode: 0xBD, operation: Operation::Lda, addressing_mode: AddressingMode::AbsoluteX, bytes: 3, cycles: 4 });
    table.push(Instruction { opcode: 0xB9, operation: Operation::Lda, addressing_mode: AddressingMode::AbsoluteY, bytes: 3, cycles: 4 });
    table.push(Instruction { opcode: 0xA1, operation: Operation::Lda, addressing_mode: AddressingMode::IndirectX, bytes: 2, cycles: 6 });
    table.push(Instruction { opcode: 0xB1, operation: Operation::Lda, addressing_mode: AddressingMode::IndirectY, bytes: 2, cycles: 5 });
    table.push(Instruction { opcode: 0xA2, operation: Operation::Ldx, addressing_mode: AddressingMode::Immediate, bytes: 2, cycles: 2 });
    table.push(Instruction { opcode: 0xA6, operation: Operation::Ldx, addressing_mode: AddressingMode::ZeroPage, bytes: 2, cycles: 3 });
    table.push(Instruction { opcode: 0xB6, operation: Operation::Ldx, addressing_mode: AddressingMode::ZeroPageY, bytes: 2, cycles: 4 });
    table.push(Instruction { opcode: 0xAE, operation: Operation::Ldx, addressing_mode: AddressingMode::Absolute, bytes: 3, cycles: 4 });
    table.push(Instruction { opcode: 0xBE, operation: Operation::Ldx, addressing_mode: AddressingMode::AbsoluteY, bytes: 3, cycles: 4 });
    table.push(Instruction { opcode: 0xA0, operation: Operation::Ldy, addressing_mode: AddressingMode::Immediate, bytes: 2, cycles: 2 });
    table.push(Instruction { opcode: 0xA4, operation: Operation::Ldy, addressing_mode: AddressingMode::ZeroPage, bytes: 2, cycles: 3 });
    table.push(Instruction { opcode: 0xB4, operation: Operation::Ldy, addressing_mode: AddressingMode::ZeroPageX, bytes: 2, cycles: 4 });
    table.push(Instruction { opcode: 0xAC, operation: Operation::Ldy, addressing_mode: AddressingMode::Absolute, bytes: 3, cycles: 4 });
    table.push(Instruction { opcode: 0xBC, operation: Operation::Ldy, addressing_mode: AddressingMode::AbsoluteX, bytes: 3, cycles: 4 });
    table.push(Instruction { opcode: 0x46, operation: Operation::Lsr, addressing_mode: AddressingMode::ZeroPage, bytes: 2, cycles: 5 });
    table.push(Instruction { opcode: 0x56, operation: Operation::Lsr, addressing_mode: AddressingMode::ZeroPageX, bytes: 2, cycles: 6 });
    table.push(Instruction { opcode: 0x4E, operation: Operation::Lsr, addressing_mode: AddressingMode::Absolute, bytes: 3, cycles: 6 });
    table.push(Instruction { opcode: 0x5E, operation: Operation::Lsr, addressing_mode: AddressingMode::AbsoluteX, bytes: 3, cycles: 7 });
    table.push(Instruction { opcode: 0x09, operation: Operation::Ora, addressing_mode: AddressingMode::Immediate, bytes: 2, cycles: 2 });
    table.push(Instruction { opcode: 0x05, operation: Operation::Ora, addressing_mode: AddressingMode::ZeroPage, bytes: 2, cycles: 3 });
    table.push(Instruction { opcode: 0x15, operation: Operation::Ora, addressing_mode: AddressingMode::ZeroPageX, bytes: 2, cycles: 4 });
    table.push(Instruction { opcode: 0x0D, operation: Operation::Ora, addressing_mode: AddressingMode::Absolute, bytes: 3, cycles: 4 });
    table.push(Instruction { opcode: 0x1D, operation: Operation::Ora, addressing_mode: AddressingMode::AbsoluteX, bytes: 3, cycles: 4 });
    table.push(Instruction { opcode: 0x19, operation: Operation::Ora, addressing_mode: AddressingMode::AbsoluteY, bytes: 3, cycles: 4 });
    table.push(Instruction { opcode: 0x01, operation: Operation::Ora, addressing_mode: AddressingMode::IndirectX, bytes: 2, cycles: 6 });
    table.push(Instruction { opcode: 0x11, operation: Operation::Ora, addressing_mode: AddressingMode::IndirectY, bytes: 2, cycles: 5 });
    table.push(Instruction { opcode: 0x26, operation: Operation::Rol, addressing_mode: AddressingMode::ZeroPage, bytes: 2, cycles: 5 });
    table.push(Instruction { opcode: 0x36, operation: Operation::Rol, addressing_mode: AddressingMode::ZeroPageX, bytes: 2, cycles: 6 });
    table.push(Instruction { opcode: 0x2E, operation: Operation::Rol, addressing_mode: AddressingMode::Absolute, bytes: 3, cycles: 6 });
    table.push(Instruction { opcode: 0x3E, operation: Operation::Rol, addressing_mode: AddressingMode::AbsoluteX, bytes: 3, cycles: 7 });
    table.push(Instruction { opcode: 0x66, operation: Operation::Ror, addressing_mode: AddressingMode::ZeroPage, bytes: 2, cycles: 5 });
    table.push(Instruction { opcode: 0x76, operation: Operation::Ror, addressing_mode: AddressingMode::ZeroPageX, bytes: 2, cycles: 6 });
    table.push(Instruction { opcode: 0x6E, operation: Operation::Ror, addressing_mode: AddressingMode::Absolute, bytes: 3, cycles: 6 });
    table.push(Instruction { opcode: 0x7E, operation: Operation::Ror, addressing_mode: AddressingMode::AbsoluteX, bytes: 3, cycles: 7 });
    table.push(Instruction { opcode: 0xE9, operation: Operation::Sbc, addressing_mode: AddressingMode::Immediate, bytes: 2, cycles: 2 });
    table.push(Instruction { opcode: 0xE5, operation: Operation::Sbc, addressing_mode: AddressingMode::ZeroPage, bytes: 2, cycles: 3 });
    table.push(Instruction { opcode: 0xF5, operation: Operation::Sbc, addressing_mode: AddressingMode::ZeroPageX, bytes: 2, cycles: 4 });
    table.push(Instruction { opcode: 0xED, operation: Operation::Sbc, addressing_mode: AddressingMode::Absolute, bytes: 3, cycles: 4 });
    table.push(Instruction { opcode: 0xFD, operation: Operation::Sbc, addressing_mode: AddressingMode::AbsoluteX, bytes: 3, cycles: 4 });
    table.push(Instruction { opcode: 0xF9, operation: Operation::Sbc, addressing_mode: AddressingMode::AbsoluteY, bytes: 3, cycles: 4 });
    table.push(Instruction { opcode: 0xE1, operation: Operation::Sbc, addressing_mode: AddressingMode::IndirectX, bytes: 2, cycles: 6 });
    table.push(Instruction { opcode: 0xF1, operation: Operation::Sbc, addressing_mode: AddressingMode::IndirectY, bytes: 2, cycles: 5 });
    table.push(Instruction { opcode: 0x85, operation: Operation::Sta, addressing_mode: AddressingMode::ZeroPage, bytes: 2, cycles: 3 });
    table.push(Instruction { opcode: 0x95, operation: Operation::Sta, addressing_mode: AddressingMode::ZeroPageX, bytes: 2, cycles: 4 });
    table.push(Instruction { opcode: 0x8D, operation: Operation::Sta, addressing_mode: AddressingMode::Absolute, bytes: 3, cycles: 4 });
    table.push(Instruction { opcode: 0x9D, operation: Operation::Sta, addressing_mode: AddressingMode::AbsoluteX, bytes: 3, cycles: 5 });
    table.push(Instruction { opcode: 0x99, operation: Operation::Sta, addressing_mode: AddressingMode::AbsoluteY, bytes: 3, cycles: 5 });
    table.push(Instruction { opcode: 0x81, operation: Operation::Sta, addressing_mode: AddressingMode::IndirectX, bytes: 2, cycles: 6 });
    table.push(Instruction { opcode: 0x91, operation: Operation::Sta, addressing_mode: AddressingMode::IndirectY, bytes: 2, cycles: 6 });
    table.push(Instruction { opcode: 0x86, operation: Operation::Stx, addressing_mode: AddressingMode::ZeroPage, bytes: 2, cycles: 3 });
    table.push(Instruction { opcode: 0x96, operation: Operation::Stx, addressing_mode: AddressingMode::ZeroPageY, bytes: 2, cycles: 4 });
    table.push(Instruction { opcode: 0x8E, operation: Operation::Stx, addressing_mode: AddressingMode::Absolute, bytes: 3, cycles: 4 });
    table.push(Instruction { opcode: 0x84, operation: Operation::Sty, addressing_mode: AddressingMode::ZeroPage, bytes: 2, cycles: 3 });
    table.push(Instruction { opcode: 0x94, operation: Operation::Sty, addressing_mode: AddressingMode::ZeroPageX, bytes: 2, cycles: 4 });
    table.push(Instruction { opcode: 0x8C, operation: Operation::Sty, addressing_mode: AddressingMode::Absolute, bytes: 3, cycles: 4 });
    table
}

/// Look an opcode up in a table: the first matching descriptor, or
/// nothing when no descriptor carries the opcode.
pub fn find_instruction(table: &Vec<Instruction>, opcode: u8) -> (r: Option<Instruction>)
    ensures
        r == spec_find_instruction(table@, opcode),
{
    let mut i: usize = 0;
    while i < table.len()
        invariant
            i <= table@.len(),
            spec_find_from(table@, opcode, 0) == spec_find_from(table@, opcode, i as int),
        decreases table@.len() - i,
    {
        if table[i].opcode == opcode {
            return Some(table[i]);
        }
        i = i + 1;
    }
    None
}

} // verus!
