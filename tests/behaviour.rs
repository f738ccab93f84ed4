use cpu_core::{AddressingMode, Cpu, CpuError, Flag, OpcodeTable, StatusFlags};

#[test]
fn zero_and_negative_follow_the_result_byte() {
    let mut cpu = Cpu::new();
    for v in 0..=255u8 {
        cpu.update_zero_and_negative_flags(v);
        assert_eq!(cpu.get_zero_flag(), if v == 0 { 1 } else { 0 });
        assert_eq!(cpu.get_negative_flag(), if v & 0x80 != 0 { 1 } else { 0 });
        assert_eq!(cpu.get_carry_flag(), 0);
        assert_eq!(cpu.get_overflow_flag(), 0);
        assert!(cpu.status().get(Flag::InterruptDisable));
    }
}

#[test]
fn load_immediate_five() {
    let mut cpu = Cpu::new();
    cpu.load_and_run(vec![0xA9, 0x05, 0x00]).unwrap();
    assert_eq!(cpu.a, 0x05);
    assert_eq!(cpu.get_zero_flag(), 0);
    assert_eq!(cpu.get_negative_flag(), 0);
    assert_eq!(cpu.pc, 0x8003);
}

#[test]
fn load_immediate_negative_value() {
    let mut cpu = Cpu::new();
    cpu.load_and_run(vec![0xA9, 0x80, 0x00]).unwrap();
    assert_eq!(cpu.get_negative_flag(), 1);
    assert_eq!(cpu.get_zero_flag(), 0);
}

#[test]
fn increment_x_wraps_through_zero() {
    let mut cpu = Cpu::new();
    cpu.load_and_run(vec![0xA2, 0xFF, 0xE8, 0xE8, 0x00]).unwrap();
    assert_eq!(cpu.x, 0x01);
}

#[test]
fn decrement_y_wraps_below_zero() {
    let mut cpu = Cpu::new();
    cpu.load_and_run(vec![0xA0, 0x00, 0x88, 0x00]).unwrap();
    assert_eq!(cpu.y, 0xFF);
    assert_eq!(cpu.get_negative_flag(), 1);
}

#[test]
fn add_wraps_with_carry_and_no_overflow() {
    let mut cpu = Cpu::new();
    cpu.load_and_run(vec![0xA9, 0xFF, 0x69, 0x01, 0x00]).unwrap();
    assert_eq!(cpu.a, 0x00);
    assert_eq!(cpu.get_carry_flag(), 1);
    assert_eq!(cpu.get_overflow_flag(), 0);
    assert_eq!(cpu.get_zero_flag(), 1);
}

#[test]
fn add_of_two_positives_overflows() {
    let mut cpu = Cpu::new();
    cpu.load_and_run(vec![0xA9, 0x50, 0x69, 0x50, 0x00]).unwrap();
    assert_eq!(cpu.a, 0xA0);
    assert_eq!(cpu.get_overflow_flag(), 1);
    assert_eq!(cpu.get_carry_flag(), 0);
    assert_eq!(cpu.get_negative_flag(), 1);
}

#[test]
fn add_uses_incoming_carry() {
    let mut cpu = Cpu::new();
    // 0xFF + 0x01 sets Carry, then 0x10 + 0x05 + 1 = 0x16.
    cpu.load_and_run(vec![0xA9, 0xFF, 0x69, 0x01, 0xA9, 0x10, 0x69, 0x05, 0x00]).unwrap();
    assert_eq!(cpu.a, 0x16);
    assert_eq!(cpu.get_carry_flag(), 0);
}

#[test]
fn subtract_with_carry_set_is_exact() {
    let mut cpu = Cpu::new();
    // Carry set by 0xFF + 0x01; then 0x10 - 0x05 with no borrow = 0x0B.
    cpu.load_and_run(vec![0xA9, 0xFF, 0x69, 0x01, 0xA9, 0x10, 0xE9, 0x05, 0x00]).unwrap();
    assert_eq!(cpu.a, 0x0B);
    assert_eq!(cpu.get_carry_flag(), 1);
}

#[test]
fn subtract_borrow_clears_carry() {
    let mut cpu = Cpu::new();
    // Carry clear: 0x00 + !0x01 + 0 = 0xFE, no carry out.
    cpu.load_and_run(vec![0xA9, 0x00, 0xE9, 0x01, 0x00]).unwrap();
    assert_eq!(cpu.a, 0xFE);
    assert_eq!(cpu.get_carry_flag(), 0);
    assert_eq!(cpu.get_negative_flag(), 1);
}

#[test]
fn rotate_left_nine_times_restores_any_value() {
    for start in [0x00u8, 0x01, 0x13, 0x80, 0xA5, 0xFF] {
        let mut cpu = Cpu::new();
        let mut program = vec![0xA9, start];
        program.extend(std::iter::repeat(0x2A).take(9));
        program.push(0x00);
        cpu.load_and_run(program).unwrap();
        assert_eq!(cpu.a, start);
        assert_eq!(cpu.get_carry_flag(), 0);
    }
}

#[test]
fn rotate_left_eight_times_restores_all_ones_with_carry() {
    let mut cpu = Cpu::new();
    // 0xFF + 0x01 sets Carry; 0xFF with Carry set is fixed by each rotation.
    let mut program = vec![0xA9, 0xFF, 0x69, 0x01, 0xA9, 0xFF];
    program.extend(std::iter::repeat(0x2A).take(8));
    program.push(0x00);
    cpu.load_and_run(program).unwrap();
    assert_eq!(cpu.a, 0xFF);
    assert_eq!(cpu.get_carry_flag(), 1);
}

#[test]
fn rotate_left_eight_times_moves_other_values() {
    let mut cpu = Cpu::new();
    let mut program = vec![0xA9, 0x13];
    program.extend(std::iter::repeat(0x2A).take(8));
    program.push(0x00);
    cpu.load_and_run(program).unwrap();
    assert_eq!(cpu.a, 0x09);
    assert_eq!(cpu.get_carry_flag(), 1);
}

#[test]
fn rotate_right_injects_carry_into_bit_seven() {
    let mut cpu = Cpu::new();
    // ASL 0x80 sets Carry and leaves 0; ROR then gives 0x80 with Carry clear.
    cpu.load_and_run(vec![0xA9, 0x80, 0x0A, 0x6A, 0x00]).unwrap();
    assert_eq!(cpu.a, 0x80);
    assert_eq!(cpu.get_carry_flag(), 0);
    assert_eq!(cpu.get_negative_flag(), 1);
}

#[test]
fn exclusive_or_immediate() {
    let mut cpu = Cpu::new();
    cpu.load_and_run(vec![0xA9, 0xF0, 0x49, 0xFF, 0x00]).unwrap();
    assert_eq!(cpu.a, 0x0F);
    assert_eq!(cpu.get_negative_flag(), 0);
}

#[test]
fn store_accumulator_absolute_x() {
    let mut cpu = Cpu::new();
    cpu.load_and_run(vec![0xA9, 0x42, 0xA2, 0x05, 0x9D, 0x00, 0x02, 0x00]).unwrap();
    assert_eq!(cpu.mem_read(0x0205), 0x42);
}

#[test]
fn every_opcode_is_dispatched_or_rejected() {
    let table = OpcodeTable::new();
    for op in 0..=255u8 {
        let mut cpu = Cpu::new();
        let length = table.get(op).map(|ins| ins.bytes).unwrap_or(1);
        let mut program = vec![op];
        program.extend(std::iter::repeat(0x10).take(length as usize - 1));
        program.push(0x00);
        let result = cpu.load_and_run(program);
        match table.get(op) {
            Some(ins) => {
                assert_eq!(result, Ok(()));
                let expected = if op == 0x00 { 0x8001 } else { 0x8000 + ins.bytes as u16 + 1 };
                assert_eq!(cpu.pc, expected);
            }
            None => {
                assert_eq!(
                    result,
                    Err(CpuError::UnrecognizedOpcode { opcode: op, address: 0x8000 })
                );
                assert_eq!(cpu.pc, 0x8000);
            }
        }
    }
}

#[test]
fn unknown_opcode_after_valid_ones_reports_its_address() {
    let mut cpu = Cpu::new();
    let result = cpu.load_and_run(vec![0xA9, 0x01, 0xE8, 0x02, 0x00]);
    assert_eq!(result, Err(CpuError::UnrecognizedOpcode { opcode: 0x02, address: 0x8003 }));
    assert_eq!(cpu.a, 0x01);
    assert_eq!(cpu.x, 0x01);
}

#[test]
fn step_reports_halt() {
    let mut cpu = Cpu::new();
    cpu.load(vec![0xE8, 0x00]);
    cpu.reset();
    assert_eq!(cpu.step(), Ok(false));
    assert_eq!(cpu.x, 1);
    assert_eq!(cpu.pc, 0x8001);
    assert_eq!(cpu.step(), Ok(true));
    assert_eq!(cpu.pc, 0x8002);
}

#[test]
fn address_of_implicit_and_accumulator_is_unsupported() {
    let cpu = Cpu::new();
    assert_eq!(
        cpu.get_address(AddressingMode::Implicit),
        Err(CpuError::UnsupportedAddressingMode { mode: AddressingMode::Implicit })
    );
    assert_eq!(
        cpu.get_address(AddressingMode::Accumulator),
        Err(CpuError::UnsupportedAddressingMode { mode: AddressingMode::Accumulator })
    );
}

#[test]
fn addressing_modes_resolve() {
    let mut cpu = Cpu::new();
    cpu.pc = 0x0300;
    cpu.x = 0x05;
    cpu.y = 0x10;
    cpu.mem_write(0x0300, 0xFE);
    cpu.mem_write(0x0301, 0x12);
    assert_eq!(cpu.get_address(AddressingMode::Immediate), Ok(0x0300));
    assert_eq!(cpu.get_address(AddressingMode::ZeroPage), Ok(0x00FE));
    // Zero-page indexing wraps at 8 bits.
    assert_eq!(cpu.get_address(AddressingMode::ZeroPageX), Ok(0x0003));
    assert_eq!(cpu.get_address(AddressingMode::ZeroPageY), Ok(0x000E));
    assert_eq!(cpu.get_address(AddressingMode::Absolute), Ok(0x12FE));
    assert_eq!(cpu.get_address(AddressingMode::AbsoluteX), Ok(0x1303));
    assert_eq!(cpu.get_address(AddressingMode::AbsoluteY), Ok(0x130E));
    assert_eq!(cpu.get_address(AddressingMode::Indirect), Ok(0x12FE));
    assert_eq!(cpu.get_address(AddressingMode::Relative), Ok(0x03FE));
    // Indirect X: pointer at 0xFE + 5 = 0x03 (wrapped), word at 0x03/0x04.
    cpu.mem_write(0x0003, 0x34);
    cpu.mem_write(0x0004, 0x56);
    assert_eq!(cpu.get_address(AddressingMode::IndirectX), Ok(0x5634));
    // Indirect Y: pointer at 0xFE, high byte from 0xFF, then + Y.
    cpu.mem_write(0x00FE, 0xF8);
    cpu.mem_write(0x00FF, 0xFF);
    assert_eq!(cpu.get_address(AddressingMode::IndirectY), Ok(0x0008));
}

#[test]
fn indirect_pointer_high_byte_wraps_in_zero_page() {
    let mut cpu = Cpu::new();
    cpu.pc = 0x0400;
    cpu.mem_write(0x0400, 0xFF);
    cpu.mem_write(0x00FF, 0x20);
    cpu.mem_write(0x0000, 0x30);
    assert_eq!(cpu.get_address(AddressingMode::IndirectY), Ok(0x3020));
    cpu.x = 0x00;
    assert_eq!(cpu.get_address(AddressingMode::IndirectX), Ok(0x3020));
}

#[test]
fn word_access_is_little_endian_and_wraps() {
    let mut cpu = Cpu::new();
    cpu.mem_write_u16(0x1000, 0xBEEF);
    assert_eq!(cpu.mem_read(0x1000), 0xEF);
    assert_eq!(cpu.mem_read(0x1001), 0xBE);
    assert_eq!(cpu.mem_read_u16(0x1000), 0xBEEF);
    cpu.mem_write_u16(0xFFFF, 0x1234);
    assert_eq!(cpu.mem_read(0xFFFF), 0x34);
    assert_eq!(cpu.mem_read(0x0000), 0x12);
    assert_eq!(cpu.mem_read_u16(0xFFFF), 0x1234);
}

#[test]
fn load_writes_program_and_reset_vector() {
    let mut cpu = Cpu::new();
    cpu.load(vec![0xA9, 0x07, 0x00]);
    assert_eq!(cpu.mem_read(0x8000), 0xA9);
    assert_eq!(cpu.mem_read(0x8001), 0x07);
    assert_eq!(cpu.mem_read_u16(0xFFFC), 0x8000);
    assert_eq!(cpu.pc, 0);
    cpu.reset();
    assert_eq!(cpu.pc, 0x8000);
}

#[test]
fn load_largest_program() {
    let mut cpu = Cpu::new();
    let mut program = vec![0xE8; 0x8000];
    program[0] = 0x00;
    cpu.load(program);
    assert_eq!(cpu.mem_read(0xFFFB), 0xE8);
    assert_eq!(cpu.mem_read_u16(0xFFFC), 0x8000);
}

#[test]
fn reset_clears_registers_and_sets_default_status() {
    let mut cpu = Cpu::new();
    cpu.load_and_run(vec![0xA9, 0xFF, 0x69, 0x01, 0xA2, 0x80, 0xA0, 0x01, 0x00]).unwrap();
    assert_eq!(cpu.get_carry_flag(), 1);
    cpu.reset();
    assert_eq!((cpu.a, cpu.x, cpu.y), (0, 0, 0));
    assert_eq!(cpu.pc, 0x8000);
    let status = cpu.status();
    assert_eq!(status, StatusFlags::reset_value());
    assert!(status.get(Flag::InterruptDisable));
    assert!(!status.get(Flag::Carry));
    assert!(!status.get(Flag::Zero));
    assert!(!status.get(Flag::Decimal));
    assert!(!status.get(Flag::Overflow));
    assert!(!status.get(Flag::Negative));
}

#[test]
fn status_flags_set_and_get() {
    let mut s = StatusFlags::reset_value();
    s.set(Flag::Overflow, true);
    s.set(Flag::Carry, true);
    assert!(s.get(Flag::Overflow));
    assert!(s.get(Flag::Carry));
    assert!(s.get(Flag::InterruptDisable));
    s.set(Flag::InterruptDisable, false);
    assert!(!s.get(Flag::InterruptDisable));
    assert!(s.get(Flag::Overflow));
    assert!(!s.get(Flag::Decimal));
}

#[test]
fn increment_and_decrement_memory_wrap() {
    let mut cpu = Cpu::new();
    cpu.mem_write(0x20, 0xFF);
    cpu.mem_write(0x21, 0x00);
    cpu.load_and_run(vec![0xE6, 0x20, 0xC6, 0x21, 0x00]).unwrap();
    assert_eq!(cpu.mem_read(0x20), 0x00);
    assert_eq!(cpu.mem_read(0x21), 0xFF);
    assert_eq!(cpu.get_negative_flag(), 1);
    assert_eq!(cpu.get_zero_flag(), 0);
}
