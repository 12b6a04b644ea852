//! Jumps: unconditional, register-conditioned and flag-conditioned.

use backseater::machine::Machine;
use backseater::opcodes::Opcode;
use backseater::periphery::FixedPeriphery;
use backseater::processor::{ENTRY_POINT, INSTRUCTION_POINTER};
use backseater::{Instruction, Register, Size, Word};

fn machine_with_program(opcodes: &[Opcode]) -> Machine<FixedPeriphery> {
    let mut machine = Machine::new();
    let mut address = ENTRY_POINT;
    for &opcode in opcodes {
        machine.memory.write_opcode(address, opcode);
        address += Instruction::SIZE as u32;
    }
    machine
}

fn instruction_pointer_of(machine: &Machine<FixedPeriphery>) -> u32 {
    machine.processor.registers[INSTRUCTION_POINTER as usize]
}

#[test]
fn jump_to_address() {
    let address = ENTRY_POINT + 42;
    let mut machine = machine_with_program(&[Opcode::JumpAddress { address }]);
    machine.make_tick();
    assert_eq!(instruction_pointer_of(&machine), address);
}

#[test]
fn jump_to_pointer() {
    let register = Register(0xAB);
    let address = ENTRY_POINT + 42;
    let mut machine = machine_with_program(&[Opcode::JumpRegister { register }]);
    machine.processor.registers[register.0 as usize] = address;
    machine.make_tick();
    assert_eq!(instruction_pointer_of(&machine), address);
}

/// Run a compare of registers 1 and 2 holding `lhs` and `rhs`, then the
/// given conditional jump on the compare result, and say whether it
/// jumped to the target address.
fn compare_then_jump(
    jump_of: fn(Register, u32) -> Opcode,
    lhs: Word,
    rhs: Word,
    should_jump: bool,
) {
    let target_address = ENTRY_POINT + 42 * Instruction::SIZE as u32;
    let target_register: Register = 0.into();
    let mut machine = machine_with_program(&[
        Opcode::CompareTargetLhsRhs {
            target: target_register,
            lhs: 1.into(),
            rhs: 2.into(),
        },
        jump_of(target_register, target_address),
    ]);
    machine.processor.registers[1] = lhs;
    machine.processor.registers[2] = rhs;
    machine.make_tick();
    machine.make_tick();
    let expected = if should_jump {
        target_address
    } else {
        ENTRY_POINT + 2 * Instruction::SIZE as u32
    };
    assert_eq!(instruction_pointer_of(&machine), expected);
}

fn jump_if_equal(register: Register, address: u32) -> Opcode {
    Opcode::JumpAddressIfEqual { register, address }
}

fn jump_if_greater_than(register: Register, address: u32) -> Opcode {
    Opcode::JumpAddressIfGreaterThan { register, address }
}

fn jump_if_less_than(register: Register, address: u32) -> Opcode {
    Opcode::JumpAddressIfLessThan { register, address }
}

fn jump_if_less_than_or_equal(register: Register, address: u32) -> Opcode {
    Opcode::JumpAddressIfLessThanOrEqual { register, address }
}

fn jump_if_greater_than_or_equal(register: Register, address: u32) -> Opcode {
    Opcode::JumpAddressIfGreaterThanOrEqual { register, address }
}

#[test]
fn jump_to_address_if_equal_that_jumps() {
    compare_then_jump(jump_if_equal, 42, 42, true);
}

#[test]
fn jump_to_address_if_equal_that_does_not_jump() {
    compare_then_jump(jump_if_equal, 42, 43, false);
}

#[test]
fn jump_to_address_if_greater_than_that_jumps() {
    compare_then_jump(jump_if_greater_than, 43, 42, true);
}

#[test]
fn jump_to_address_if_greater_than_that_does_not_jump_01() {
    compare_then_jump(jump_if_greater_than, 42, 43, false);
}

#[test]
fn jump_to_address_if_greater_than_that_does_not_jump_02() {
    compare_then_jump(jump_if_greater_than, 42, 42, false);
}

#[test]
fn jump_to_address_if_less_than_that_jumps() {
    compare_then_jump(jump_if_less_than, 41, 42, true);
}

#[test]
fn jump_to_address_if_less_than_that_does_not_jump_01() {
    compare_then_jump(jump_if_less_than, 43, 42, false);
}

#[test]
fn jump_to_address_if_less_than_that_does_not_jump_02() {
    compare_then_jump(jump_if_less_than, 42, 42, false);
}

#[test]
fn jump_to_address_if_less_than_or_equal_that_jumps_01() {
    compare_then_jump(jump_if_less_than_or_equal, 41, 42, true);
}

#[test]
fn jump_to_address_if_less_than_or_equal_that_jumps_02() {
    compare_then_jump(jump_if_less_than_or_equal, 42, 42, true);
}

#[test]
fn jump_to_address_if_less_than_or_equal_that_does_not_jump() {
    compare_then_jump(jump_if_less_than_or_equal, 43, 42, false);
}

#[test]
fn jump_to_address_if_greater_than_or_equal_that_jumps_01() {
    compare_then_jump(jump_if_greater_than_or_equal, 43, 42, true);
}

#[test]
fn jump_to_address_if_greater_than_or_equal_that_jumps_02() {
    compare_then_jump(jump_if_greater_than_or_equal, 42, 42, true);
}

#[test]
fn jump_to_address_if_greater_than_or_equal_that_does_not_jump() {
    compare_then_jump(jump_if_greater_than_or_equal, 41, 42, false);
}

/// Run a multiply of registers 1 and 2 holding `lhs` and `rhs` (setting
/// the Zero and Carry flags), then the given flag-conditioned jump, and
/// check whether it jumped.
fn multiply_then_jump(jump_of: fn(u32) -> Opcode, lhs: Word, rhs: Word, should_jump: bool) {
    let target_address = ENTRY_POINT + 42 * Instruction::SIZE as u32;
    let high_register: Register = 3.into();
    let target_register: Register = 0.into();
    let mut machine = machine_with_program(&[
        Opcode::MultiplyHighLowLhsRhs {
            high: high_register,
            low: target_register,
            lhs: 1.into(),
            rhs: 2.into(),
        },
        jump_of(target_address),
    ]);
    machine.processor.registers[1] = lhs;
    machine.processor.registers[2] = rhs;
    machine.make_tick();
    machine.make_tick();
    let expected = if should_jump {
        target_address
    } else {
        ENTRY_POINT + 2 * Instruction::SIZE as u32
    };
    assert_eq!(instruction_pointer_of(&machine), expected);
}

fn jump_if_zero(address: u32) -> Opcode {
    Opcode::JumpAddressIfZero { address }
}

fn jump_if_not_zero(address: u32) -> Opcode {
    Opcode::JumpAddressIfNotZero { address }
}

fn jump_if_carry(address: u32) -> Opcode {
    Opcode::JumpAddressIfCarry { address }
}

fn jump_if_not_carry(address: u32) -> Opcode {
    Opcode::JumpAddressIfNotCarry { address }
}

#[test]
fn jump_to_address_if_zero_flag_set_that_jumps() {
    multiply_then_jump(jump_if_zero, 5, 0, true);
}

#[test]
fn jump_to_address_if_zero_flag_set_that_does_not_jump() {
    multiply_then_jump(jump_if_zero, 5, 2, false);
}

#[test]
fn jump_to_address_if_zero_flag_not_set_that_jumps() {
    multiply_then_jump(jump_if_not_zero, 5, 3, true);
}

#[test]
fn jump_to_address_if_zero_flag_not_set_that_does_not_jump() {
    multiply_then_jump(jump_if_not_zero, 5, 0, false);
}

#[test]
fn jump_to_address_if_carry_flag_set_that_jumps() {
    multiply_then_jump(jump_if_carry, Word::MAX, 2, true);
}

#[test]
fn jump_to_address_if_carry_flag_set_that_does_not_jump() {
    multiply_then_jump(jump_if_carry, 5, 2, false);
}

#[test]
fn jump_to_address_if_carry_flag_not_set_that_jumps() {
    multiply_then_jump(jump_if_not_carry, 5, 3, true);
}

#[test]
fn jump_to_address_if_carry_flag_not_set_that_does_not_jump() {
    multiply_then_jump(jump_if_not_carry, 2, Word::MAX, false);
}

/// Run a divmod of registers 1 and 2 holding `lhs` and `rhs` (setting
/// the DivideByZero flag), then the given flag-conditioned jump.
fn divmod_then_jump(jump_of: fn(u32) -> Opcode, lhs: Word, rhs: Word, should_jump: bool) {
    let target_address = ENTRY_POINT + 42 * Instruction::SIZE as u32;
    let remainder_register: Register = 3.into();
    let target_register: Register = 0.into();
    let mut machine = machine_with_program(&[
        Opcode::DivmodTargetModLhsRhs {
            result: target_register,
            remainder: remainder_register,
            lhs: 1.into(),
            rhs: 2.into(),
        },
        jump_of(target_address),
    ]);
    machine.processor.registers[1] = lhs;
    machine.processor.registers[2] = rhs;
    machine.make_tick();
    machine.make_tick();
    let expected = if should_jump {
        target_address
    } else {
        ENTRY_POINT + 2 * Instruction::SIZE as u32
    };
    assert_eq!(instruction_pointer_of(&machine), expected);
}

fn jump_if_divide_by_zero(address: u32) -> Opcode {
    Opcode::JumpAddressIfDivideByZero { address }
}

fn jump_if_not_divide_by_zero(address: u32) -> Opcode {
    Opcode::JumpAddressIfNotDivideByZero { address }
}

#[test]
fn jump_to_address_if_divide_by_zero_flag_set_that_jumps() {
    divmod_then_jump(jump_if_divide_by_zero, 5, 0, true);
}

#[test]
fn jump_to_address_if_divide_by_zero_flag_set_that_does_not_jump() {
    divmod_then_jump(jump_if_divide_by_zero, 5, 2, false);
}

#[test]
fn jump_to_address_if_divide_by_zero_flag_not_set_that_jumps() {
    divmod_then_jump(jump_if_not_divide_by_zero, 5, 3, true);
}

#[test]
fn jump_to_address_if_divide_by_zero_flag_not_set_that_does_not_jump() {
    divmod_then_jump(jump_if_not_divide_by_zero, 2, 0, false);
}
