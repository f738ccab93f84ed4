use cpu_core::{AddressingMode, Instruction, OpcodeTable, Operation};

#[test]
fn test_get_instruction() {
    let table = OpcodeTable::new();
    assert_eq!(
        table.get(0xA9),
        Some(Instruction::new(0xA9, "LDA", 2, 2, AddressingMode::Immediate))
    );
}

#[test]
fn table_lists_exclusive_or() {
    let table = OpcodeTable::new();
    assert_eq!(
        table.get(0x51),
        Some(Instruction::new(0x51, "EOR", 2, 5, AddressingMode::IndirectY))
    );
    let d = table.descriptor(0x51).unwrap();
    assert_eq!(d.operation, Operation::Eor);
}

#[test]
fn table_has_no_entry_for_unknown_opcodes() {
    let table = OpcodeTable::new();
    assert_eq!(table.get(0x02), None);
    assert_eq!(table.get(0xFF), None);
    assert!(table.descriptor(0x4C).is_none());
}

#[test]
fn table_size_and_lengths() {
    let table = OpcodeTable::new();
    let mut count = 0;
    for op in 0..=255u8 {
        if let Some(ins) = table.get(op) {
            count += 1;
            assert_eq!(ins.opcode, op);
            assert_eq!(ins.bytes, ins.addressing_mode.length());
            assert!(ins.bytes >= 1 && ins.bytes <= 3);
        }
    }
    assert_eq!(count, 108);
}

#[test]
fn table_break_entry() {
    let table = OpcodeTable::new();
    assert_eq!(
        table.get(0x00),
        Some(Instruction::new(0x00, "BRK", 1, 7, AddressingMode::Implicit))
    );
    assert_eq!(Operation::Brk.mnemonic(), "BRK");
}

#[test]
fn mode_lengths() {
    assert_eq!(AddressingMode::Implicit.length(), 1);
    assert_eq!(AddressingMode::Accumulator.length(), 1);
    assert_eq!(AddressingMode::Immediate.length(), 2);
    assert_eq!(AddressingMode::IndirectY.length(), 2);
    assert_eq!(AddressingMode::AbsoluteX.length(), 3);
    assert_eq!(AddressingMode::Indirect.length(), 3);
}
