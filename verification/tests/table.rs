//! The instruction table: size, opcode uniqueness, lookup, and the
//! length-per-addressing-mode consistency of every descriptor.

use nes_core::instruction::{find_instruction, instructions, AddressingMode, Operation};

#[test]
fn test_table_size_and_lookup() {
    let table = instructions();
    assert_eq!(table.len(), 151);

    let lda = find_instruction(&table, 0xA9).unwrap();
    assert_eq!(lda.operation, Operation::Lda);
    assert_eq!(lda.addressing_mode, AddressingMode::Immediate);
    assert_eq!(lda.bytes, 2);
    assert_eq!(lda.cycles, 2);

    let brk = find_instruction(&table, 0x00).unwrap();
    assert_eq!(brk.operation, Operation::Brk);
    assert_eq!(brk.addressing_mode, AddressingMode::Implied);
    assert_eq!(brk.bytes, 1);
    assert_eq!(brk.cycles, 7);

    let sta = find_instruction(&table, 0x91).unwrap();
    assert_eq!(sta.operation, Operation::Sta);
    assert_eq!(sta.addressing_mode, AddressingMode::IndirectY);
    assert_eq!(sta.bytes, 2);
    assert_eq!(sta.cycles, 6);

    // an opcode absent from the table
    assert!(find_instruction(&table, 0x02).is_none());
}

#[test]
fn test_table_opcodes_unique() {
    let table = instructions();
    for i in 0..table.len() {
        for j in (i + 1)..table.len() {
            assert_ne!(table[i].opcode, table[j].opcode);
        }
    }
}

#[test]
fn test_table_lengths_match_modes() {
    let table = instructions();
    for ins in &table {
        let operand_bytes = match ins.addressing_mode {
            AddressingMode::Implied => 0,
            AddressingMode::Immediate
            | AddressingMode::Relative
            | AddressingMode::ZeroPage
            | AddressingMode::ZeroPageX
            | AddressingMode::ZeroPageY
            | AddressingMode::IndirectX
            | AddressingMode::IndirectY => 1,
            AddressingMode::Absolute
            | AddressingMode::AbsoluteX
            | AddressingMode::AbsoluteY
            | AddressingMode::Indirect => 2,
        };
        assert_eq!(ins.bytes, 1 + operand_bytes, "opcode {:#04X}", ins.opcode);
        assert!(ins.cycles >= 2);
    }
}
