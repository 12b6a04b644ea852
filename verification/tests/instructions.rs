//! Per-instruction behavior: registers, flags, stack and jumps.

use backseater::machine::Machine;
use backseater::opcodes::Opcode::{
    self, AddTargetLhsRhs, AddTargetSourceImmediate, AndTargetLhsRhs, CompareTargetLhsRhs,
    DivmodTargetModLhsRhs, HaltAndCatchFire, LeftShiftTargetLhsRhs, MoveAddressRegister,
    MoveRegisterAddress, MoveRegisterImmediate, MovePointerSource, MoveTargetPointer,
    MoveTargetSource, MultiplyHighLowLhsRhs, NotTargetSource, OrTargetLhsRhs, PopRegister,
    PushRegister, RightShiftTargetLhsRhs, SubtractTargetLhsRhs, SubtractTargetSourceImmediate,
    SubtractWithCarryTargetLhsRhs, XorTargetLhsRhs,
};
use backseater::periphery::FixedPeriphery;
use backseater::processor::{
    Flag, ENTRY_POINT, INSTRUCTION_POINTER, STACK_START,
};
use backseater::{Instruction, Register, Size, Word};

fn create_machine_with_opcodes(opcodes: &[Opcode]) -> Machine<FixedPeriphery> {
    let mut machine = Machine::new();
    let mut address = ENTRY_POINT;
    for &opcode in opcodes {
        machine.memory.write_opcode(address, opcode);
        address += Instruction::SIZE as u32;
    }
    machine
}

fn execute_instruction_with_machine(
    mut machine: Machine<FixedPeriphery>,
    opcode: Opcode,
) -> Machine<FixedPeriphery> {
    let instruction_pointer = machine.processor.registers[INSTRUCTION_POINTER as usize];
    machine.memory.write_opcode(instruction_pointer, opcode);
    machine.make_tick();
    assert_eq!(
        machine.processor.registers[INSTRUCTION_POINTER as usize],
        instruction_pointer + Instruction::SIZE as u32
    );
    machine
}

#[test]
fn make_tick_increases_instruction_pointer() {
    let mut machine = create_machine_with_opcodes(&[MoveRegisterImmediate {
        register: 0.into(),
        immediate: 0,
    }]);
    machine.make_tick();
    assert_eq!(
        machine.processor.registers[INSTRUCTION_POINTER as usize],
        ENTRY_POINT + Instruction::SIZE as u32
    );
}

#[test]
fn move_constant_into_register() {
    let register: Register = 0x0A.into();
    let value = 0xABCD_1234;
    let mut machine = create_machine_with_opcodes(&[MoveRegisterImmediate {
        register,
        immediate: value,
    }]);
    machine.make_tick();
    assert_eq!(machine.processor.registers[register.0 as usize], value);
}

#[test]
fn move_from_address_into_register() {
    let address = 0xF0;
    let data = 0xABCD_1234;
    let register: Register = 0x0A.into();
    let mut machine = create_machine_with_opcodes(&[MoveRegisterAddress { register, address }]);
    machine.memory.write_data(address, data);
    machine.make_tick();
    assert_eq!(machine.processor.registers[register.0 as usize], data);
}

#[test]
fn move_from_one_register_to_another() {
    let mut machine = Machine::new();
    let source: Register = 0x5.into();
    let target: Register = 0x0A.into();
    let data = 0xCAFE;
    machine.processor.registers[source.0 as usize] = data;
    let machine = execute_instruction_with_machine(machine, MoveTargetSource { target, source });
    assert_eq!(machine.processor.registers[target.0 as usize], data);
}

#[test]
fn move_from_register_into_memory() {
    let register = Register(5);
    let data = 0xC0FFEE;
    let address = 0xF0;
    let mut machine = create_machine_with_opcodes(&[MoveAddressRegister { address, register }]);
    machine.processor.registers[register.0 as usize] = data;
    machine.make_tick();
    assert_eq!(machine.memory.read_data(address), data);
}

#[test]
fn move_from_memory_addressed_by_register_into_another_register() {
    let address = 0xF0;
    let data = 0xC0FFEE;
    let target: Register = 0x0A.into();
    let pointer: Register = 0x05.into();
    let mut machine = create_machine_with_opcodes(&[MoveTargetPointer { target, pointer }]);
    machine.processor.registers[pointer.0 as usize] = address;
    machine.memory.write_data(address, data);
    machine.make_tick();
    assert_eq!(machine.processor.registers[target.0 as usize], data);
}

#[test]
fn move_from_memory_addressed_by_register_into_same_register() {
    let address = 0xF0;
    let data = 0xC0FFEE;
    let register: Register = 0x05.into();
    let mut machine = create_machine_with_opcodes(&[MoveTargetPointer {
        target: register,
        pointer: register,
    }]);
    machine.processor.registers[register.0 as usize] = address;
    machine.memory.write_data(address, data);
    machine.make_tick();
    assert_eq!(machine.processor.registers[register.0 as usize], data);
}

#[test]
fn move_from_register_into_memory_addressed_by_another_register() {
    let data = 0xC0FFEE;
    let address = 0xF0;
    let pointer: Register = 0x0A.into();
    let source: Register = 0x05.into();
    let mut machine = create_machine_with_opcodes(&[MovePointerSource { pointer, source }]);
    machine.processor.registers[source.0 as usize] = data;
    machine.processor.registers[pointer.0 as usize] = address;
    machine.make_tick();
    assert_eq!(machine.memory.read_data(address), data);
}

#[test]
fn move_from_register_into_memory_addressed_by_same_register() {
    let address = 0xF0;
    let register: Register = 0x05.into();
    let mut machine = create_machine_with_opcodes(&[MovePointerSource {
        pointer: register,
        source: register,
    }]);
    machine.processor.registers[register.0 as usize] = address;
    machine.make_tick();
    assert_eq!(machine.memory.read_data(address), address);
}

#[test]
fn halt_and_catch_fire_prevents_further_instructions() {
    let register: Register = 0x05.into();
    let value = 0x0000_0042;
    let mut machine = create_machine_with_opcodes(&[
        HaltAndCatchFire {},
        MoveRegisterImmediate {
            register,
            immediate: value,
        },
    ]);
    machine.make_tick();
    machine.make_tick();
    assert_eq!(
        machine.processor.registers[INSTRUCTION_POINTER as usize],
        ENTRY_POINT
    );
    assert_eq!(machine.processor.registers[register.0 as usize], 0x0);
}

fn check_addition(lhs: Word, rhs: Word, zero: bool, carry: bool) {
    let lhs_register: Register = 0x42.into();
    let rhs_register: Register = 0x43.into();
    let target_register: Register = 0x0A.into();
    let expected = lhs.wrapping_add(rhs);
    let mut machine = create_machine_with_opcodes(&[AddTargetLhsRhs {
        target: target_register,
        lhs: lhs_register,
        rhs: rhs_register,
    }]);
    machine.processor.registers[lhs_register.0 as usize] = lhs;
    machine.processor.registers[rhs_register.0 as usize] = rhs;
    machine.make_tick();
    assert_eq!(machine.processor.registers[lhs_register.0 as usize], lhs);
    assert_eq!(machine.processor.registers[rhs_register.0 as usize], rhs);
    assert_eq!(
        machine.processor.registers[target_register.0 as usize],
        expected
    );
    assert_eq!(machine.processor.get_flag(Flag::Zero), zero);
    assert_eq!(machine.processor.get_flag(Flag::Carry), carry);
}

#[test]
fn add_two_values_with_no_flags_set() {
    check_addition(10, 12, false, false);
}

#[test]
fn add_two_values_with_only_zero_flag_set() {
    check_addition(0, 0, true, false);
}

#[test]
fn add_two_values_with_only_carry_flag_set() {
    check_addition(Word::MAX, 5, false, true);
}

#[test]
fn add_two_values_with_both_zero_and_carry_flags_set() {
    check_addition(Word::MAX, 1, true, true);
}

fn check_subtraction(lhs: Word, rhs: Word, zero: bool, carry: bool) {
    let lhs_register: Register = 0x42.into();
    let rhs_register: Register = 0x43.into();
    let target_register: Register = 0x0A.into();
    let expected = lhs.wrapping_sub(rhs);
    let mut machine = create_machine_with_opcodes(&[SubtractTargetLhsRhs {
        target: target_register,
        lhs: lhs_register,
        rhs: rhs_register,
    }]);
    machine.processor.registers[lhs_register.0 as usize] = lhs;
    machine.processor.registers[rhs_register.0 as usize] = rhs;
    machine.make_tick();
    assert_eq!(machine.processor.registers[lhs_register.0 as usize], lhs);
    assert_eq!(machine.processor.registers[rhs_register.0 as usize], rhs);
    assert_eq!(
        machine.processor.registers[target_register.0 as usize],
        expected
    );
    assert_eq!(machine.processor.get_flag(Flag::Zero), zero);
    assert_eq!(machine.processor.get_flag(Flag::Carry), carry);
}

#[test]
fn subtract_two_values_with_no_flags_set() {
    check_subtraction(10, 8, false, false);
}

#[test]
fn subtract_two_values_with_only_zero_flag_set() {
    check_subtraction(10, 10, true, false);
}

#[test]
fn subtract_two_values_with_only_carry_flag_set() {
    check_subtraction(10, 12, false, true);
}

#[test]
fn subtract_two_values_with_carry_with_no_flags_set() {
    let lhs_register: Register = 0x42.into();
    let rhs_register: Register = 0x43.into();
    let target_register: Register = 0x0A.into();
    let lhs: Word = 14;
    let rhs = 12;
    let expected = lhs.wrapping_sub(rhs + 1);
    let mut machine = create_machine_with_opcodes(&[SubtractWithCarryTargetLhsRhs {
        target: target_register,
        lhs: lhs_register,
        rhs: rhs_register,
    }]);
    machine.processor.registers[lhs_register.0 as usize] = lhs;
    machine.processor.registers[rhs_register.0 as usize] = rhs;
    machine.processor.set_flag(Flag::Carry, true);
    machine.make_tick();
    assert_eq!(machine.processor.registers[lhs_register.0 as usize], lhs);
    assert_eq!(machine.processor.registers[rhs_register.0 as usize], rhs);
    assert_eq!(
        machine.processor.registers[target_register.0 as usize],
        expected
    );
    assert!(!machine.processor.get_flag(Flag::Zero));
    assert!(!machine.processor.get_flag(Flag::Carry));
}

#[test]
fn subtract_two_values_with_carry_with_zero_flag_set() {
    let lhs_register: Register = 0x42.into();
    let rhs_register: Register = 0x43.into();
    let target_register: Register = 0x0A.into();
    let lhs: Word = 14;
    let rhs = 13;
    let expected = lhs.wrapping_sub(rhs + 1);
    let mut machine = create_machine_with_opcodes(&[SubtractWithCarryTargetLhsRhs {
        target: target_register,
        lhs: lhs_register,
        rhs: rhs_register,
    }]);
    machine.processor.registers[lhs_register.0 as usize] = lhs;
    machine.processor.registers[rhs_register.0 as usize] = rhs;
    machine.processor.set_flag(Flag::Carry, true);
    machine.make_tick();
    assert_eq!(machine.processor.registers[lhs_register.0 as usize], lhs);
    assert_eq!(machine.processor.registers[rhs_register.0 as usize], rhs);
    assert_eq!(
        machine.processor.registers[target_register.0 as usize],
        expected
    );
    assert!(machine.processor.get_flag(Flag::Zero));
    assert!(!machine.processor.get_flag(Flag::Carry));
}

#[test]
fn subtract_two_values_with_carry_with_both_carry_and_zero_flags_set() {
    let lhs_register: Register = 0x42.into();
    let rhs_register: Register = 0x43.into();
    let target_register: Register = 0x0A.into();
    let lhs: Word = 0;
    let rhs = Word::MAX;
    let expected = lhs.wrapping_sub(rhs).wrapping_sub(1);
    let mut machine = Machine::new();
    machine.processor.set_flag(Flag::Carry, true);
    machine.processor.registers[lhs_register.0 as usize] = lhs;
    machine.processor.registers[rhs_register.0 as usize] = rhs;
    let mut machine = execute_instruction_with_machine(
        machine,
        SubtractWithCarryTargetLhsRhs {
            target: target_register,
            lhs: lhs_register,
            rhs: rhs_register,
        },
    );
    machine.make_tick();
    assert_eq!(machine.processor.registers[lhs_register.0 as usize], lhs);
    assert_eq!(machine.processor.registers[rhs_register.0 as usize], rhs);
    assert_eq!(
        machine.processor.registers[target_register.0 as usize],
        expected
    );
    assert!(machine.processor.get_flag(Flag::Zero));
    assert!(machine.processor.get_flag(Flag::Carry));
}

#[test]
fn multiply_two_values_without_any_flags_set() {
    let lhs_register: Register = 0x42.into();
    let rhs_register: Register = 0x43.into();
    let target_high: Register = 0x09.into();
    let target_low: Register = 0x0A.into();
    let lhs: Word = 3;
    let rhs = 4;
    let expected = lhs * rhs;
    let mut machine = Machine::new();
    machine.processor.registers[lhs_register.0 as usize] = lhs;
    machine.processor.registers[rhs_register.0 as usize] = rhs;
    let mut machine = execute_instruction_with_machine(
        machine,
        MultiplyHighLowLhsRhs {
            high: target_high,
            low: target_low,
            lhs: lhs_register,
            rhs: rhs_register,
        },
    );
    machine.make_tick();
    assert_eq!(machine.processor.registers[lhs_register.0 as usize], lhs);
    assert_eq!(machine.processor.registers[rhs_register.0 as usize], rhs);
    assert_eq!(machine.processor.registers[target_high.0 as usize], 0);
    assert_eq!(machine.processor.registers[target_low.0 as usize], expected);
    assert!(!machine.processor.get_flag(Flag::Zero));
    assert!(!machine.processor.get_flag(Flag::Carry));
}

#[test]
fn multiply_two_values_with_zero_flag_set() {
    let lhs_register: Register = 0x42.into();
    let rhs_register: Register = 0x43.into();
    let target_high: Register = 0x09.into();
    let target_low: Register = 0x0A.into();
    let lhs: Word = 3;
    let rhs = 0;
    let expected = lhs * rhs;
    let mut machine = Machine::new();
    machine.processor.registers[lhs_register.0 as usize] = lhs;
    machine.processor.registers[rhs_register.0 as usize] = rhs;
    let mut machine = execute_instruction_with_machine(
        machine,
        MultiplyHighLowLhsRhs {
            high: target_high,
            low: target_low,
            lhs: lhs_register,
            rhs: rhs_register,
        },
    );
    machine.make_tick();
    assert_eq!(machine.processor.registers[lhs_register.0 as usize], lhs);
    assert_eq!(machine.processor.registers[rhs_register.0 as usize], rhs);
    assert_eq!(machine.processor.registers[target_high.0 as usize], 0);
    assert_eq!(machine.processor.registers[target_low.0 as usize], expected);
    assert!(machine.processor.get_flag(Flag::Zero));
    assert!(!machine.processor.get_flag(Flag::Carry));
}

#[test]
fn multiply_two_values_with_overflow() {
    let lhs_register: Register = 0x42.into();
    let rhs_register: Register = 0x43.into();
    let target_high: Register = 0x09.into();
    let target_low: Register = 0x0A.into();
    let lhs: Word = Word::MAX;
    let rhs = 5;
    let result = lhs as u64 * rhs as u64;
    let high_expected = (result >> 32) as u32;
    let low_expected = result as u32;
    let mut machine = Machine::new();
    machine.processor.registers[lhs_register.0 as usize] = lhs;
    machine.processor.registers[rhs_register.0 as usize] = rhs;
    let mut machine = execute_instruction_with_machine(
        machine,
        MultiplyHighLowLhsRhs {
            high: target_high,
            low: target_low,
            lhs: lhs_register,
            rhs: rhs_register,
        },
    );
    machine.make_tick();
    assert_eq!(machine.processor.registers[lhs_register.0 as usize], lhs);
    assert_eq!(machine.processor.registers[rhs_register.0 as usize], rhs);
    assert_eq!(
        machine.processor.registers[target_high.0 as usize],
        high_expected
    );
    assert_eq!(
        machine.processor.registers[target_low.0 as usize],
        low_expected
    );
    assert!(!machine.processor.get_flag(Flag::Zero));
    assert!(machine.processor.get_flag(Flag::Carry));
}

#[test]
fn multiply_two_values_with_overflow_and_zero_flag_set() {
    let lhs_register: Register = 0x42.into();
    let rhs_register: Register = 0x43.into();
    let target_high: Register = 0x09.into();
    let target_low: Register = 0x0A.into();
    let lhs: Word = 1 << (Word::BITS - 1);
    let rhs = 2;
    let result = lhs as u64 * rhs as u64;
    let high_expected = (result >> 32) as u32;
    let low_expected = result as u32;
    let mut machine = Machine::new();
    machine.processor.registers[lhs_register.0 as usize] = lhs;
    machine.processor.registers[rhs_register.0 as usize] = rhs;
    let mut machine = execute_instruction_with_machine(
        machine,
        MultiplyHighLowLhsRhs {
            high: target_high,
            low: target_low,
            lhs: lhs_register,
            rhs: rhs_register,
        },
    );
    machine.make_tick();
    assert_eq!(machine.processor.registers[lhs_register.0 as usize], lhs);
    assert_eq!(machine.processor.registers[rhs_register.0 as usize], rhs);
    assert_eq!(
        machine.processor.registers[target_high.0 as usize],
        high_expected
    );
    assert_eq!(
        machine.processor.registers[target_low.0 as usize],
        low_expected
    );
    assert!(machine.processor.get_flag(Flag::Zero));
    assert!(machine.processor.get_flag(Flag::Carry));
}

#[test]
fn divmod_two_values_with_no_flags_set() {
    let lhs_register: Register = 0x42.into();
    let rhs_register: Register = 0x43.into();
    let target_quotient: Register = 0x09.into();
    let target_remainder: Register = 0x0A.into();
    let lhs: Word = 15;
    let rhs = 6;
    let expected_quotient = 2;
    let expected_remainder = 3;
    let mut machine = Machine::new();
    machine.processor.registers[lhs_register.0 as usize] = lhs;
    machine.processor.registers[rhs_register.0 as usize] = rhs;
    let mut machine = execute_instruction_with_machine(
        machine,
        DivmodTargetModLhsRhs {
            result: target_quotient,
            remainder: target_remainder,
            lhs: lhs_register,
            rhs: rhs_register,
        },
    );
    machine.make_tick();
    assert_eq!(machine.processor.registers[lhs_register.0 as usize], lhs);
    assert_eq!(machine.processor.registers[rhs_register.0 as usize], rhs);
    assert_eq!(
        machine.processor.registers[target_quotient.0 as usize],
        expected_quotient
    );
    assert_eq!(
        machine.processor.registers[target_remainder.0 as usize],
        expected_remainder
    );
    assert!(!machine.processor.get_flag(Flag::Zero));
    assert!(!machine.processor.get_flag(Flag::DivideByZero));
}

#[test]
fn divmod_two_values_with_zero_flag_set() {
    let lhs_register: Register = 0x42.into();
    let rhs_register: Register = 0x43.into();
    let target_quotient: Register = 0x09.into();
    let target_remainder: Register = 0x0A.into();
    let lhs: Word = 0;
    let rhs = 6;
    let expected_quotient = 0;
    let expected_remainder = 0;
    let mut machine = Machine::new();
    machine.processor.registers[lhs_register.0 as usize] = lhs;
    machine.processor.registers[rhs_register.0 as usize] = rhs;
    let mut machine = execute_instruction_with_machine(
        machine,
        DivmodTargetModLhsRhs {
            result: target_quotient,
            remainder: target_remainder,
            lhs: lhs_register,
            rhs: rhs_register,
        },
    );
    machine.make_tick();
    assert_eq!(machine.processor.registers[lhs_register.0 as usize], lhs);
    assert_eq!(machine.processor.registers[rhs_register.0 as usize], rhs);
    assert_eq!(
        machine.processor.registers[target_quotient.0 as usize],
        expected_quotient
    );
    assert_eq!(
        machine.processor.registers[target_remainder.0 as usize],
        expected_remainder
    );
    assert!(machine.processor.get_flag(Flag::Zero));
    assert!(!machine.processor.get_flag(Flag::DivideByZero));
}

#[test]
fn divmod_two_values_divide_by_zero() {
    let lhs_register: Register = 0x42.into();
    let rhs_register: Register = 0x43.into();
    let target_quotient: Register = 0x09.into();
    let target_remainder: Register = 0x0A.into();
    let lhs: Word = 15;
    let rhs = 0;
    let expected_quotient = 0;
    let expected_remainder = 15;
    let mut machine = Machine::new();
    machine.processor.registers[lhs_register.0 as usize] = lhs;
    machine.processor.registers[rhs_register.0 as usize] = rhs;
    let mut machine = execute_instruction_with_machine(
        machine,
        DivmodTargetModLhsRhs {
            result: target_quotient,
            remainder: target_remainder,
            lhs: lhs_register,
            rhs: rhs_register,
        },
    );
    machine.make_tick();
    assert_eq!(machine.processor.registers[lhs_register.0 as usize], lhs);
    assert_eq!(machine.processor.registers[rhs_register.0 as usize], rhs);
    assert_eq!(
        machine.processor.registers[target_quotient.0 as usize],
        expected_quotient
    );
    assert_eq!(
        machine.processor.registers[target_remainder.0 as usize],
        expected_remainder
    );
    assert!(machine.processor.get_flag(Flag::Zero));
    assert!(machine.processor.get_flag(Flag::DivideByZero));
}

fn check_bitwise(opcode_of: fn(Register, Register, Register) -> Opcode, lhs: Word, rhs: Word, expected: Word, zero: bool) {
    let lhs_register: Register = 0x42.into();
    let rhs_register: Register = 0x43.into();
    let target_register: Register = 0x0A.into();
    let mut machine = Machine::new();
    machine.processor.set_flag(Flag::Carry, true);
    machine.processor.registers[lhs_register.0 as usize] = lhs;
    machine.processor.registers[rhs_register.0 as usize] = rhs;
    let mut machine = execute_instruction_with_machine(
        machine,
        opcode_of(target_register, lhs_register, rhs_register),
    );
    machine.make_tick();
    assert_eq!(machine.processor.registers[lhs_register.0 as usize], lhs);
    assert_eq!(machine.processor.registers[rhs_register.0 as usize], rhs);
    assert_eq!(
        machine.processor.registers[target_register.0 as usize],
        expected
    );
    assert_eq!(machine.processor.get_flag(Flag::Zero), zero);
}

fn and_of(target: Register, lhs: Register, rhs: Register) -> Opcode {
    AndTargetLhsRhs { target, lhs, rhs }
}

fn or_of(target: Register, lhs: Register, rhs: Register) -> Opcode {
    OrTargetLhsRhs { target, lhs, rhs }
}

fn xor_of(target: Register, lhs: Register, rhs: Register) -> Opcode {
    XorTargetLhsRhs { target, lhs, rhs }
}

#[test]
fn bitwise_and_two_values_with_no_flags_set() {
    check_bitwise(
        and_of,
        0b0110_1110_1001_1010_0110_1110_1001_1010,
        0b1011_1010_0101_1001_1011_1010_0101_1001,
        0b0010_1010_0001_1000_0010_1010_0001_1000,
        false,
    );
}

#[test]
fn bitwise_and_two_values_with_zero_flag_set() {
    check_bitwise(
        and_of,
        0b0100_0100_1000_0110_0100_0100_1000_0010,
        0b1011_1010_0101_1001_1011_1010_0101_1001,
        0,
        true,
    );
}

#[test]
fn bitwise_or_two_values_with_no_flags_set() {
    check_bitwise(
        or_of,
        0b0110_1110_1001_1010_0110_1110_1001_1010,
        0b1011_1010_0101_1001_1011_1010_0101_1001,
        0b1111_1110_1101_1011_1111_1110_1101_1011,
        false,
    );
}

#[test]
fn bitwise_or_two_values_with_zero_flag_set() {
    check_bitwise(or_of, 0, 0, 0, true);
}

#[test]
fn bitwise_xor_two_values_with_no_flags_set() {
    check_bitwise(
        xor_of,
        0b0110_1110_1001_1010_0110_1110_1001_1010,
        0b1011_1010_0101_1001_1011_1010_0101_1001,
        0b1101_0100_1100_0011_1101_0100_1100_0011,
        false,
    );
}

#[test]
fn bitwise_xor_two_values_with_zero_flag_set() {
    check_bitwise(
        xor_of,
        0b1011_1010_1001_0010_0100_0100_1001_0010,
        0b1011_1010_1001_0010_0100_0100_1001_0010,
        0,
        true,
    );
}

#[test]
fn bitwise_not_value_with_no_flags_set() {
    let mut machine = Machine::new();
    let source: Register = 0x5.into();
    let target: Register = 0x0A.into();
    let data = 0b0010_1010_0001_1000_0010_1010_0001_1000;
    let expected = 0b1101_0101_1110_0111_1101_0101_1110_0111;
    machine.processor.registers[source.0 as usize] = data;
    let machine = execute_instruction_with_machine(machine, NotTargetSource { target, source });
    assert_eq!(machine.processor.registers[target.0 as usize], expected);
    assert!(!machine.processor.get_flag(Flag::Zero));
}

#[test]
fn bitwise_not_value_with_zero_flag_set() {
    let mut machine = Machine::new();
    let source: Register = 0x5.into();
    let target: Register = 0x0A.into();
    let data = 0xFFFFFFFF;
    let expected = 0;
    machine.processor.registers[source.0 as usize] = data;
    let machine = execute_instruction_with_machine(machine, NotTargetSource { target, source });
    assert_eq!(machine.processor.registers[target.0 as usize], expected);
    assert!(machine.processor.get_flag(Flag::Zero));
}

fn check_shift(left: bool, lhs: Word, rhs: Word, expected: Word, zero: bool, carry: bool) {
    let lhs_register: Register = 0x5.into();
    let rhs_register: Register = 0x6.into();
    let target_register: Register = 0x0A.into();
    let mut machine = Machine::new();
    machine.processor.registers[lhs_register.0 as usize] = lhs;
    machine.processor.registers[rhs_register.0 as usize] = rhs;
    let opcode = if left {
        LeftShiftTargetLhsRhs {
            target: target_register,
            lhs: lhs_register,
            rhs: rhs_register,
        }
    } else {
        RightShiftTargetLhsRhs {
            target: target_register,
            lhs: lhs_register,
            rhs: rhs_register,
        }
    };
    let machine = execute_instruction_with_machine(machine, opcode);
    assert_eq!(machine.processor.registers[lhs_register.0 as usize], lhs);
    assert_eq!(machine.processor.registers[rhs_register.0 as usize], rhs);
    assert_eq!(
        machine.processor.registers[target_register.0 as usize],
        expected
    );
    assert_eq!(machine.processor.get_flag(Flag::Zero), zero);
    assert_eq!(machine.processor.get_flag(Flag::Carry), carry);
}

#[test]
fn left_shift_without_any_flags_set() {
    check_shift(true, 0b1, 2, 0b100, false, false);
}

#[test]
fn left_shift_with_carry_flag_set() {
    check_shift(true, 0b11 << 30, 1, 0b1 << 31, false, true);
}

#[test]
fn left_shift_with_carry_and_zero_flags_set() {
    check_shift(true, 0b1 << 31, 1, 0, true, true);
}

#[test]
fn left_shift_way_too_far() {
    check_shift(true, 0xFFFF_FFFF, 123, 0, true, true);
}

#[test]
fn left_shift_zero_way_too_far() {
    check_shift(true, 0, 123, 0, true, false);
}

#[test]
fn right_shift_without_any_flags_set() {
    check_shift(false, 0b10, 1, 0b1, false, false);
}

#[test]
fn right_shift_with_carry_flag_set() {
    check_shift(false, 0b11, 1, 0b1, false, true);
}

#[test]
fn right_shift_with_zero_flag_set() {
    check_shift(false, 0b0, 1, 0b0, true, false);
}

#[test]
fn right_shift_with_carry_and_zero_flags_set() {
    check_shift(false, 0b1, 1, 0b0, true, true);
}

#[test]
fn right_shift_way_too_far() {
    check_shift(false, 0xFFFF_FFFF, 123, 0b0, true, true);
}

#[test]
fn right_shift_zero_way_too_far() {
    check_shift(false, 0, 123, 0b0, true, false);
}

#[test]
fn add_immediate_with_no_flags_set() {
    let target_register: Register = 0xAB.into();
    let source_register: Register = 0x07.into();
    let immediate = 2;
    let source_value = 40;
    let expected_value = 42;
    let mut machine = Machine::new();
    machine.processor.registers[source_register.0 as usize] = source_value;
    let machine = execute_instruction_with_machine(
        machine,
        AddTargetSourceImmediate {
            target: target_register,
            source: source_register,
            immediate,
        },
    );
    assert_eq!(
        machine.processor.registers[source_register.0 as usize],
        source_value
    );
    assert_eq!(
        machine.processor.registers[target_register.0 as usize],
        expected_value
    );
    assert!(!machine.processor.get_flag(Flag::Zero));
    assert!(!machine.processor.get_flag(Flag::Carry));
}

#[test]
fn add_immediate_with_zero_flag_set() {
    let target_register: Register = 0xAB.into();
    let source_register: Register = 0x07.into();
    let immediate = 0;
    let source_value = 0;
    let expected_value = 0;
    let mut machine = Machine::new();
    machine.processor.registers[source_register.0 as usize] = source_value;
    let machine = execute_instruction_with_machine(
        machine,
        AddTargetSourceImmediate {
            target: target_register,
            source: source_register,
            immediate,
        },
    );
    assert_eq!(
        machine.processor.registers[source_register.0 as usize],
        source_value
    );
    assert_eq!(
        machine.processor.registers[target_register.0 as usize],
        expected_value
    );
    assert!(machine.processor.get_flag(Flag::Zero));
    assert!(!machine.processor.get_flag(Flag::Carry));
}

#[test]
fn add_immediate_with_carry_flag_set() {
    let target_register: Register = 0xAB.into();
    let source_register: Register = 0x07.into();
    let immediate = 5;
    let source_value = Word::MAX;
    let expected_value = 4;
    let mut machine = Machine::new();
    machine.processor.registers[source_register.0 as usize] = source_value;
    let machine = execute_instruction_with_machine(
        machine,
        AddTargetSourceImmediate {
            target: target_register,
            source: source_register,
            immediate,
        },
    );
    assert_eq!(
        machine.processor.registers[source_register.0 as usize],
        source_value
    );
    assert_eq!(
        machine.processor.registers[target_register.0 as usize],
        expected_value
    );
    assert!(!machine.processor.get_flag(Flag::Zero));
    assert!(machine.processor.get_flag(Flag::Carry));
}

#[test]
fn add_immediate_with_zero_and_carry_flags_set() {
    let target_register: Register = 0xAB.into();
    let source_register: Register = 0x07.into();
    let immediate = 1;
    let source_value = Word::MAX;
    let expected_value = 0;
    let mut machine = Machine::new();
    machine.processor.registers[source_register.0 as usize] = source_value;
    let machine = execute_instruction_with_machine(
        machine,
        AddTargetSourceImmediate {
            target: target_register,
            source: source_register,
            immediate,
        },
    );
    assert_eq!(
        machine.processor.registers[source_register.0 as usize],
        source_value
    );
    assert_eq!(
        machine.processor.registers[target_register.0 as usize],
        expected_value
    );
    assert!(machine.processor.get_flag(Flag::Zero));
    assert!(machine.processor.get_flag(Flag::Carry));
}

#[test]
fn subtract_immediate_with_no_flags_set() {
    let target_register: Register = 0xAB.into();
    let source_register: Register = 0x07.into();
    let immediate = 2;
    let source_value = 44;
    let expected_value = 42;
    let mut machine = Machine::new();
    machine.processor.registers[source_register.0 as usize] = source_value;
    let machine = execute_instruction_with_machine(
        machine,
        SubtractTargetSourceImmediate {
            target: target_register,
            source: source_register,
            immediate,
        },
    );
    assert_eq!(
        machine.processor.registers[source_register.0 as usize],
        source_value
    );
    assert_eq!(
        machine.processor.registers[target_register.0 as usize],
        expected_value
    );
    assert!(!machine.processor.get_flag(Flag::Zero));
    assert!(!machine.processor.get_flag(Flag::Carry));
}

#[test]
fn subtract_immediate_with_zero_flag_set() {
    let target_register: Register = 0xAB.into();
    let source_register: Register = 0x07.into();
    let immediate = 42;
    let source_value = 42;
    let expected_value = 0;
    let mut machine = Machine::new();
    machine.processor.registers[source_register.0 as usize] = source_value;
    let machine = execute_instruction_with_machine(
        machine,
        SubtractTargetSourceImmediate {
            target: target_register,
            source: source_register,
            immediate,
        },
    );
    assert_eq!(
        machine.processor.registers[source_register.0 as usize],
        source_value
    );
    assert_eq!(
        machine.processor.registers[target_register.0 as usize],
        expected_value
    );
    assert!(machine.processor.get_flag(Flag::Zero));
    assert!(!machine.processor.get_flag(Flag::Carry));
}

#[test]
fn subtract_immediate_with_carry_flag_set() {
    let target_register: Register = 0xAB.into();
    let source_register: Register = 0x07.into();
    let immediate = 2;
    let source_value = 1;
    let expected_value = Word::MAX;
    let mut machine = Machine::new();
    machine.processor.registers[source_register.0 as usize] = source_value;
    let machine = execute_instruction_with_machine(
        machine,
        SubtractTargetSourceImmediate {
            target: target_register,
            source: source_register,
            immediate,
        },
    );
    assert_eq!(
        machine.processor.registers[source_register.0 as usize],
        source_value
    );
    assert_eq!(
        machine.processor.registers[target_register.0 as usize],
        expected_value
    );
    assert!(!machine.processor.get_flag(Flag::Zero));
    assert!(machine.processor.get_flag(Flag::Carry));
}

#[test]
fn compare_lower_value_against_higher_value() {
    let lhs_register: Register = 0x42.into();
    let rhs_register: Register = 0x43.into();
    let target_register: Register = 0x0A.into();
    let lhs = 10;
    let rhs = 12;
    let expected = Word::MAX;
    let mut machine = Machine::new();
    machine.processor.registers[lhs_register.0 as usize] = lhs;
    machine.processor.registers[rhs_register.0 as usize] = rhs;
    let mut machine = execute_instruction_with_machine(
        machine,
        CompareTargetLhsRhs {
            target: target_register,
            lhs: lhs_register,
            rhs: rhs_register,
        },
    );
    machine.make_tick();
    assert_eq!(machine.processor.registers[lhs_register.0 as usize], lhs);
    assert_eq!(machine.processor.registers[rhs_register.0 as usize], rhs);
    assert_eq!(
        machine.processor.registers[target_register.0 as usize],
        expected
    );
    assert!(!machine.processor.get_flag(Flag::Zero));
}

#[test]
fn compare_higher_value_against_lower_value() {
    let lhs_register: Register = 0x42.into();
    let rhs_register: Register = 0x43.into();
    let target_register: Register = 0x0A.into();
    let lhs = 14;
    let rhs = 12;
    let expected = 1;
    let mut machine = Machine::new();
    machine.processor.registers[lhs_register.0 as usize] = lhs;
    machine.processor.registers[rhs_register.0 as usize] = rhs;
    let mut machine = execute_instruction_with_machine(
        machine,
        CompareTargetLhsRhs {
            target: target_register,
            lhs: lhs_register,
            rhs: rhs_register,
        },
    );
    machine.make_tick();
    assert_eq!(machine.processor.registers[lhs_register.0 as usize], lhs);
    assert_eq!(machine.processor.registers[rhs_register.0 as usize], rhs);
    assert_eq!(
        machine.processor.registers[target_register.0 as usize],
        expected
    );
    assert!(!machine.processor.get_flag(Flag::Zero));
}

#[test]
fn compare_equal_values() {
    let lhs_register: Register = 0x42.into();
    let rhs_register: Register = 0x43.into();
    let target_register: Register = 0x0A.into();
    let lhs = 12;
    let rhs = 12;
    let expected = 0;
    let mut machine = Machine::new();
    machine.processor.registers[lhs_register.0 as usize] = lhs;
    machine.processor.registers[rhs_register.0 as usize] = rhs;
    let mut machine = execute_instruction_with_machine(
        machine,
        CompareTargetLhsRhs {
            target: target_register,
            lhs: lhs_register,
            rhs: rhs_register,
        },
    );
    machine.make_tick();
    assert_eq!(machine.processor.registers[lhs_register.0 as usize], lhs);
    assert_eq!(machine.processor.registers[rhs_register.0 as usize], rhs);
    assert_eq!(
        machine.processor.registers[target_register.0 as usize],
        expected
    );
    assert!(machine.processor.get_flag(Flag::Zero));
}

#[test]
fn push_and_pop_stack_value() {
    let mut machine = Machine::new();
    let source_register: Register = 0xAB.into();
    let target_register: Register = 0x06.into();
    let data = 42;
    machine.processor.registers[source_register.0 as usize] = data;
    assert_eq!(machine.processor.get_stack_pointer(), STACK_START);
    let machine = execute_instruction_with_machine(
        machine,
        PushRegister {
            register: source_register,
        },
    );
    assert_eq!(
        machine.processor.get_stack_pointer(),
        STACK_START + Word::SIZE as u32
    );
    assert_eq!(machine.memory.read_data(STACK_START), data);
    let machine = execute_instruction_with_machine(
        machine,
        PopRegister {
            register: target_register,
        },
    );
    assert_eq!(machine.processor.get_stack_pointer(), STACK_START);
    assert_eq!(machine.processor.registers[target_register.0 as usize], data);
}

#[test]
fn push_and_pop_multiple_stack_values() {
    let values = [1, 4, 5, 42, 2, 3];
    let mut machine = Machine::new();
    for (index, &value) in values.iter().enumerate() {
        let register = Register(index as u8);
        machine.processor.registers[register.0 as usize] = value;
        machine = execute_instruction_with_machine(machine, PushRegister { register });
        assert_eq!(
            machine.processor.get_stack_pointer(),
            STACK_START + (register.0 as u32 + 1) * Word::SIZE as u32
        );
        assert_eq!(
            machine
                .memory
                .read_data(STACK_START + register.0 as u32 * Word::SIZE as u32),
            value
        );
    }
    for &value in values.iter().rev() {
        let target: Register = 0xAB.into();
        machine = execute_instruction_with_machine(machine, PopRegister { register: target });
        assert_eq!(machine.processor.registers[target.0 as usize], value);
    }
    assert_eq!(machine.processor.get_stack_pointer(), STACK_START);
}

#[test]
fn call_and_return() {
    let mut machine = Machine::new();
    let call_address = ENTRY_POINT + 200 * Instruction::SIZE as u32;
    machine.memory.write_opcode(
        ENTRY_POINT,
        Opcode::CallAddress {
            address: call_address,
        },
    );
    let target_register = Register(0xAB);
    let value = 42;
    machine.memory.write_opcode(
        call_address,
        Opcode::MoveRegisterImmediate {
            register: target_register,
            immediate: value,
        },
    );
    machine
        .memory
        .write_opcode(call_address + Instruction::SIZE as u32, Opcode::Return {});

    machine.make_tick();
    assert_eq!(
        machine.memory.read_data(STACK_START),
        ENTRY_POINT + Instruction::SIZE as u32
    );
    assert_eq!(
        machine.processor.registers[INSTRUCTION_POINTER as usize],
        call_address
    );

    machine.make_tick();
    assert_eq!(
        machine.processor.registers[target_register.0 as usize],
        value
    );
    assert_eq!(
        machine.processor.registers[INSTRUCTION_POINTER as usize],
        call_address + Instruction::SIZE as u32
    );

    machine.make_tick();
    assert_eq!(
        machine.processor.registers[INSTRUCTION_POINTER as usize],
        ENTRY_POINT + Instruction::SIZE as u32
    );
}
