//! The processor: register file, condition flags, cycle counter, and the
//! fetch-decode-execute step.
//!
//! The whole transition of one tick is captured by the specification
//! function [`step_of`]; `make_tick` promises that the machine moved to
//! `step_of` of its old state, for some answer of the peripherals.
//!
//! Choices the architecture leaves open are fixed here:
//! - the two cycle-count registers are read-only for programs: writes by
//!   instructions to them are dropped;
//! - a tick whose instruction is `HaltAndCatchFire` changes nothing at
//!   all (the cycle counter freezes while halted);
//! - a stack access outside the stack region, a data access outside
//!   memory, and an instruction that does not decode all fault: the
//!   machine records the fault and every later tick is a no-op.

use vstd::arithmetic::power2::pow2;
use vstd::prelude::*;

use crate::memory::{
    instruction_at, mem_with_word, valid_data_address, valid_instruction_address, word_at, Memory,
    MEMORY_SIZE,
};
use crate::opcodes::{decode_spec, Opcode};
use crate::periphery::Periphery;
use crate::{Address, Instruction, Register, Word};

verus! {

/// Number of registers in the register file.
pub const NUM_REGISTERS: usize = 256;

/// Register holding the upper half of the cycle counter.
pub const CYCLE_COUNT_HIGH: u8 = 251;

/// Register holding the lower half of the cycle counter.
pub const CYCLE_COUNT_LOW: u8 = 252;

/// Register holding the condition flags.
pub const FLAGS: u8 = 253;

/// Register holding the address of the next instruction.
pub const INSTRUCTION_POINTER: u8 = 254;

/// Register holding the address of the next free stack slot.
pub const STACK_POINTER: u8 = 255;

/// Address where ROM code is placed and execution begins.
pub const ENTRY_POINT: Address = 0x1000;

/// First address of the stack region; the stack grows upward from here.
pub const STACK_START: Address = 0x800;

/// Size of the stack region in bytes.
pub const STACK_SIZE: Address = 0x800;

/// A condition flag inside the `FLAGS` register.
#[derive(Clone, Copy, Debug, PartialEq, Eq, Structural)]
pub enum Flag {
    Zero,
    Carry,
    DivideByZero,
}

/// What stopped the machine for good.
#[derive(Clone, Copy, Debug, PartialEq, Eq, Structural)]
pub enum Fault {
    /// The word at the instruction pointer does not decode.
    InvalidOpcode,
    /// A push or call found the stack pointer outside the stack region.
    StackOverflow,
    /// A pop or return found the stack pointer at or below the stack start.
    StackUnderflow,
    /// A data or instruction access left the memory.
    AddressOutOfBounds,
}

/// The register file at power-on: all registers zero but for the
/// instruction pointer, which starts at the entry point, and the stack
/// pointer, which starts at the bottom of the stack region.
pub open spec fn initial_regs() -> Seq<Word> {
    Seq::new(NUM_REGISTERS as nat, |i: int| 0u32).update(
        INSTRUCTION_POINTER as int,
        ENTRY_POINT,
    ).update(STACK_POINTER as int, STACK_START)
}

/// The mathematical state of the whole machine: register file, memory
/// bytes, and the fault, if one occurred.
#[verifier::ext_equal]
pub ghost struct VmState {
    pub regs: Seq<Word>,
    pub mem: Seq<u8>,
    pub fault: Option<Fault>,
}

/// A state of the right dimensions.
pub open spec fn state_wf(s: VmState) -> bool {
    s.regs.len() == NUM_REGISTERS && s.mem.len() == MEMORY_SIZE
}

/// The value of register `r`.
pub open spec fn reg_val(s: VmState, r: u8) -> Word {
    s.regs[r as int]
}

/// The instruction pointer.
pub open spec fn ip_of(s: VmState) -> Word {
    reg_val(s, INSTRUCTION_POINTER)
}

/// The stack pointer.
pub open spec fn sp_of(s: VmState) -> Word {
    reg_val(s, STACK_POINTER)
}

/// The 64-bit cycle counter, as observed through its two registers.
pub open spec fn cycle_of(s: VmState) -> int {
    reg_val(s, CYCLE_COUNT_HIGH) * 0x1_0000_0000 + reg_val(s, CYCLE_COUNT_LOW)
}

/// `s` with the fault recorded and everything else unchanged.
pub open spec fn faulted(s: VmState, f: Fault) -> VmState {
    VmState { regs: s.regs, mem: s.mem, fault: Some(f) }
}

/// A register write as an instruction performs it: writes to the two
/// cycle-count registers are dropped, every other register is updated.
pub open spec fn wreg(regs: Seq<Word>, r: u8, v: Word) -> Seq<Word> {
    if r == CYCLE_COUNT_HIGH || r == CYCLE_COUNT_LOW {
        regs
    } else {
        regs.update(r as int, v)
    }
}

/// The single-bit mask of a flag inside the `FLAGS` register.
pub open spec fn flag_mask(f: Flag) -> Word {
    match f {
        Flag::Zero => 1,
        Flag::Carry => 2,
        Flag::DivideByZero => 4,
    }
}

/// Whether the bit selected by `mask` is set in `flags`.
pub open spec fn flag_bit(flags: Word, mask: Word) -> bool {
    (flags / mask) % 2 == 1
}

/// Whether flag `f` is set in state `s`.
pub open spec fn flag_of(s: VmState, f: Flag) -> bool {
    flag_bit(reg_val(s, FLAGS), flag_mask(f))
}

/// `flags` with the bit selected by `mask` forced to `value`.
pub open spec fn with_bit(flags: Word, mask: Word, value: bool) -> Word {
    if value && !flag_bit(flags, mask) {
        (flags + mask) as Word
    } else if !value && flag_bit(flags, mask) {
        (flags - mask) as Word
    } else {
        flags
    }
}

/// The register file with flag `f` forced to `value`.
pub open spec fn regs_with_flag(regs: Seq<Word>, f: Flag, value: bool) -> Seq<Word> {
    wreg(regs, FLAGS, with_bit(regs[FLAGS as int], flag_mask(f), value))
}

/// The register file with the Zero and Carry flags set as given.
pub open spec fn regs_with_zero_carry(regs: Seq<Word>, zero: bool, carry: bool) -> Seq<Word> {
    regs_with_flag(regs_with_flag(regs, Flag::Zero, zero), Flag::Carry, carry)
}

/// The register file with the Zero and DivideByZero flags set as given.
pub open spec fn regs_with_zero_divide(regs: Seq<Word>, zero: bool, divide: bool) -> Seq<Word> {
    regs_with_flag(regs_with_flag(regs, Flag::Zero, zero), Flag::DivideByZero, divide)
}

/// The register file with the cycle counter one higher, wrapping at
/// sixty-four bits.
pub open spec fn bump_cycle(regs: Seq<Word>) -> Seq<Word> {
    let high = regs[CYCLE_COUNT_HIGH as int];
    let low = regs[CYCLE_COUNT_LOW as int];
    if low == 0xFFFF_FFFFu32 {
        regs.update(CYCLE_COUNT_LOW as int, 0u32).update(
            CYCLE_COUNT_HIGH as int,
            if high == 0xFFFF_FFFFu32 {
                0u32
            } else {
                (high + 1) as Word
            },
        )
    } else {
        regs.update(CYCLE_COUNT_LOW as int, (low + 1) as Word)
    }
}

/// How every non-jump instruction retires: the instruction pointer moves
/// past the 8-byte instruction and the cycle counter ticks.
pub open spec fn advance(regs: Seq<Word>, old_ip: Word) -> Seq<Word> {
    bump_cycle(regs.update(INSTRUCTION_POINTER as int, ((old_ip + 8) % 0x1_0000_0000) as Word))
}

/// How every jump retires: the instruction pointer is set to `target`
/// and the cycle counter ticks.
pub open spec fn jump_to(regs: Seq<Word>, target: Word) -> Seq<Word> {
    bump_cycle(regs.update(INSTRUCTION_POINTER as int, target))
}

/// `v` truncated to 32 bits.
pub open spec fn wrap32(v: int) -> Word {
    (v % 0x1_0000_0000) as Word
}

/// The state after writing `result` to `target` and the Zero and Carry
/// flags, then retiring.
pub open spec fn arith_state(
    pre: VmState,
    target: u8,
    result: Word,
    zero: bool,
    carry: bool,
) -> VmState {
    VmState {
        regs: advance(regs_with_zero_carry(wreg(pre.regs, target, result), zero, carry), ip_of(pre)),
        mem: pre.mem,
        fault: None,
    }
}

/// The state after writing `result` to `target` and the Zero flag alone,
/// then retiring: the bitwise instructions leave Carry untouched.
pub open spec fn bitwise_state(pre: VmState, target: u8, result: Word) -> VmState {
    VmState {
        regs: advance(regs_with_flag(wreg(pre.regs, target, result), Flag::Zero, result == 0), ip_of(pre)),
        mem: pre.mem,
        fault: None,
    }
}

/// The state after a jump that is taken iff `cond` holds.
pub open spec fn cond_jump_state(pre: VmState, cond: bool, target: Word) -> VmState {
    VmState {
        regs: if cond {
            jump_to(pre.regs, target)
        } else {
            advance(pre.regs, ip_of(pre))
        },
        mem: pre.mem,
        fault: None,
    }
}

/// The effect of executing `op` on `pre`, with `ms` the timer's answer
/// and `kd` the keyboard's, should the instruction consult them.
///
/// Callers only apply this to states without a fault and to decodable
/// instructions; `HaltAndCatchFire` is handled by [`step_of`].
pub open spec fn exec_spec(pre: VmState, op: Opcode, ms: u64, kd: bool) -> VmState {
    let regs = pre.regs;
    let mem = pre.mem;
    let old_ip = ip_of(pre);
    match op {
        Opcode::MoveRegisterImmediate { register, immediate } => VmState {
            regs: advance(wreg(regs, register.0, immediate), old_ip),
            mem,
            fault: None,
        },
        Opcode::MoveRegisterAddress { register, address } => if !valid_data_address(address) {
            faulted(pre, Fault::AddressOutOfBounds)
        } else {
            VmState {
                regs: advance(wreg(regs, register.0, word_at(mem, address as int) as Word), old_ip),
                mem,
                fault: None,
            }
        },
        Opcode::MoveTargetSource { target, source } => VmState {
            regs: advance(wreg(regs, target.0, regs[source.0 as int]), old_ip),
            mem,
            fault: None,
        },
        Opcode::MoveAddressRegister { address, register } => if !valid_data_address(address) {
            faulted(pre, Fault::AddressOutOfBounds)
        } else {
            VmState {
                regs: advance(regs, old_ip),
                mem: mem_with_word(mem, address as int, regs[register.0 as int]),
                fault: None,
            }
        },
        Opcode::MoveTargetPointer { target, pointer } => {
            let address = regs[pointer.0 as int];
            if !valid_data_address(address) {
                faulted(pre, Fault::AddressOutOfBounds)
            } else {
                VmState {
                    regs: advance(wreg(regs, target.0, word_at(mem, address as int) as Word), old_ip),
                    mem,
                    fault: None,
                }
            }
        },
        Opcode::MovePointerSource { pointer, source } => {
            let address = regs[pointer.0 as int];
            if !valid_data_address(address) {
                faulted(pre, Fault::AddressOutOfBounds)
            } else {
                VmState {
                    regs: advance(regs, old_ip),
                    mem: mem_with_word(mem, address as int, regs[source.0 as int]),
                    fault: None,
                }
            }
        },
        Opcode::AddTargetLhsRhs { target, lhs, rhs } => {
            let a = regs[lhs.0 as int];
            let b = regs[rhs.0 as int];
            arith_state(pre, target.0, wrap32(a + b), wrap32(a + b) == 0, a + b >= 0x1_0000_0000)
        },
        Opcode::AddTargetSourceImmediate { target, source, immediate } => {
            let a = regs[source.0 as int];
            arith_state(
                pre,
                target.0,
                wrap32(a + immediate),
                wrap32(a + immediate) == 0,
                a + immediate >= 0x1_0000_0000,
            )
        },
        Opcode::SubtractTargetLhsRhs { target, lhs, rhs } => {
            let a = regs[lhs.0 as int];
            let b = regs[rhs.0 as int];
            arith_state(pre, target.0, wrap32(a - b), wrap32(a - b) == 0, a < b)
        },
        Opcode::SubtractTargetSourceImmediate { target, source, immediate } => {
            let a = regs[source.0 as int];
            arith_state(pre, target.0, wrap32(a - immediate), wrap32(a - immediate) == 0, a < immediate)
        },
        Opcode::SubtractWithCarryTargetLhsRhs { target, lhs, rhs } => {
            let a = regs[lhs.0 as int];
            let b = regs[rhs.0 as int];
            let borrow: int = if flag_of(pre, Flag::Carry) {
                1
            } else {
                0
            };
            arith_state(
                pre,
                target.0,
                wrap32(a - b - borrow),
                wrap32(a - b - borrow) == 0,
                a < b + borrow,
            )
        },
        Opcode::MultiplyHighLowLhsRhs { high, low, lhs, rhs } => {
            let a = regs[lhs.0 as int];
            let b = regs[rhs.0 as int];
            let product = a * b;
            let high_part = (product / 0x1_0000_0000) as Word;
            let low_part = wrap32(product);
            VmState {
                regs: advance(
                    regs_with_zero_carry(
                        wreg(wreg(regs, high.0, high_part), low.0, low_part),
                        low_part == 0,
                        high_part != 0,
                    ),
                    old_ip,
                ),
                mem,
                fault: None,
            }
        },
        Opcode::DivmodTargetModLhsRhs { result, remainder, lhs, rhs } => {
            let a = regs[lhs.0 as int];
            let b = regs[rhs.0 as int];
            let quotient: Word = if b == 0 {
                0
            } else {
                (a as int / b as int) as Word
            };
            let rest: Word = if b == 0 {
                a
            } else {
                (a as int % b as int) as Word
            };
            VmState {
                regs: advance(
                    regs_with_zero_divide(
                        wreg(wreg(regs, result.0, quotient), remainder.0, rest),
                        quotient == 0,
                        b == 0,
                    ),
                    old_ip,
                ),
                mem,
                fault: None,
            }
        },
        Opcode::AndTargetLhsRhs { target, lhs, rhs } => bitwise_state(
            pre,
            target.0,
            regs[lhs.0 as int] & regs[rhs.0 as int],
        ),
        Opcode::OrTargetLhsRhs { target, lhs, rhs } => bitwise_state(
            pre,
            target.0,
            regs[lhs.0 as int] | regs[rhs.0 as int],
        ),
        Opcode::XorTargetLhsRhs { target, lhs, rhs } => bitwise_state(
            pre,
            target.0,
            regs[lhs.0 as int] ^ regs[rhs.0 as int],
        ),
        Opcode::NotTargetSource { target, source } => bitwise_state(
            pre,
            target.0,
            !regs[source.0 as int],
        ),
        Opcode::LeftShiftTargetLhsRhs { target, lhs, rhs } => {
            let a = regs[lhs.0 as int];
            let b = regs[rhs.0 as int];
            if b >= 32 {
                arith_state(pre, target.0, 0, true, a != 0)
            } else {
                let wide = a * pow2(b as nat);
                arith_state(pre, target.0, wrap32(wide), wrap32(wide) == 0, wide >= 0x1_0000_0000)
            }
        },
        Opcode::RightShiftTargetLhsRhs { target, lhs, rhs } => {
            let a = regs[lhs.0 as int];
            let b = regs[rhs.0 as int];
            if b >= 32 {
                arith_state(pre, target.0, 0, true, a != 0)
            } else {
                let result = (a as int / pow2(b as nat) as int) as Word;
                let lost = a as int % pow2(b as nat) as int != 0;
                arith_state(pre, target.0, result, result == 0, lost)
            }
        },
        Opcode::CompareTargetLhsRhs { target, lhs, rhs } => {
            let a = regs[lhs.0 as int];
            let b = regs[rhs.0 as int];
            let result: Word = if a > b {
                1
            } else if a == b {
                0
            } else {
                0xFFFF_FFFFu32
            };
            bitwise_state(pre, target.0, result)
        },
        Opcode::JumpAddress { address } => VmState {
            regs: jump_to(regs, address),
            mem,
            fault: None,
        },
        Opcode::JumpRegister { register } => VmState {
            regs: jump_to(regs, regs[register.0 as int]),
            mem,
            fault: None,
        },
        Opcode::JumpAddressIfEqual { register, address } => cond_jump_state(
            pre,
            regs[register.0 as int] == 0,
            address,
        ),
        Opcode::JumpAddressIfGreaterThan { register, address } => cond_jump_state(
            pre,
            regs[register.0 as int] == 1,
            address,
        ),
        Opcode::JumpAddressIfLessThan { register, address } => cond_jump_state(
            pre,
            regs[register.0 as int] == 0xFFFF_FFFFu32,
            address,
        ),
        Opcode::JumpAddressIfLessThanOrEqual { register, address } => cond_jump_state(
            pre,
            regs[register.0 as int] == 0 || regs[register.0 as int] == 0xFFFF_FFFFu32,
            address,
        ),
        Opcode::JumpAddressIfGreaterThanOrEqual { register, address } => cond_jump_state(
            pre,
            regs[register.0 as int] == 0 || regs[register.0 as int] == 1,
            address,
        ),
        Opcode::JumpAddressIfZero { address } => cond_jump_state(pre, flag_of(pre, Flag::Zero), address),
        Opcode::JumpAddressIfNotZero { address } => cond_jump_state(
            pre,
            !flag_of(pre, Flag::Zero),
            address,
        ),
        Opcode::JumpAddressIfCarry { address } => cond_jump_state(pre, flag_of(pre, Flag::Carry), address),
        Opcode::JumpAddressIfNotCarry { address } => cond_jump_state(
            pre,
            !flag_of(pre, Flag::Carry),
            address,
        ),
        Opcode::JumpAddressIfDivideByZero { address } => cond_jump_state(
            pre,
            flag_of(pre, Flag::DivideByZero),
            address,
        ),
        Opcode::JumpAddressIfNotDivideByZero { address } => cond_jump_state(
            pre,
            !flag_of(pre, Flag::DivideByZero),
            address,
        ),
        Opcode::PushRegister { register } => {
            let sp = sp_of(pre);
            if !(STACK_START <= sp && sp + 4 <= STACK_START + STACK_SIZE) {
                faulted(pre, Fault::StackOverflow)
            } else {
                VmState {
                    regs: advance(wreg(regs, STACK_POINTER, (sp + 4) as Word), old_ip),
                    mem: mem_with_word(mem, sp as int, regs[register.0 as int]),
                    fault: None,
                }
            }
        },
        Opcode::PopRegister { register } => {
            let sp = sp_of(pre);
            if !(STACK_START + 4 <= sp && sp <= STACK_START + STACK_SIZE) {
                faulted(pre, Fault::StackUnderflow)
            } else {
                VmState {
                    regs: advance(
                        wreg(
                            wreg(regs, STACK_POINTER, (sp - 4) as Word),
                            register.0,
                            word_at(mem, sp - 4) as Word,
                        ),
                        old_ip,
                    ),
                    mem,
                    fault: None,
                }
            }
        },
        Opcode::CallAddress { address } => {
            let sp = sp_of(pre);
            if !(STACK_START <= sp && sp + 4 <= STACK_START + STACK_SIZE) {
                faulted(pre, Fault::StackOverflow)
            } else {
                VmState {
                    regs: jump_to(wreg(regs, STACK_POINTER, (sp + 4) as Word), address),
                    mem: mem_with_word(mem, sp as int, wrap32(old_ip + 8)),
                    fault: None,
                }
            }
        },
        Opcode::Return {  } => {
            let sp = sp_of(pre);
            if !(STACK_START + 4 <= sp && sp <= STACK_START + STACK_SIZE) {
                faulted(pre, Fault::StackUnderflow)
            } else {
                VmState {
                    regs: jump_to(
                        wreg(regs, STACK_POINTER, (sp - 4) as Word),
                        word_at(mem, sp - 4) as Word,
                    ),
                    mem,
                    fault: None,
                }
            }
        },
        Opcode::HaltAndCatchFire {  } => pre,
        Opcode::PollTime { high, low } => VmState {
            regs: advance(
                wreg(
                    wreg(regs, high.0, (ms as int / 0x1_0000_0000) as Word),
                    low.0,
                    (ms as int % 0x1_0000_0000) as Word,
                ),
                old_ip,
            ),
            mem,
            fault: None,
        },
        Opcode::GetKeyState { target, keycode } => VmState {
            regs: advance(
                wreg(
                    regs,
                    target.0,
                    if kd {
                        1
                    } else {
                        0
                    },
                ),
                old_ip,
            ),
            mem,
            fault: None,
        },
    }
}

/// One whole tick: nothing on a faulted machine, nothing on a halt
/// instruction, a fault on an unfetchable or undecodable instruction,
/// and otherwise the instruction's effect.
pub open spec fn step_of(pre: VmState, ms: u64, kd: bool) -> VmState {
    if pre.fault is Some {
        pre
    } else if !valid_instruction_address(ip_of(pre)) {
        faulted(pre, Fault::AddressOutOfBounds)
    } else {
        match decode_spec(instruction_at(pre.mem, ip_of(pre) as int) as Instruction) {
            None => faulted(pre, Fault::InvalidOpcode),
            Some(op) => if op is HaltAndCatchFire {
                pre
            } else {
                exec_spec(pre, op, ms, kd)
            },
        }
    }
}

/// The register file, flag register, cycle counter and fault state.
pub struct Processor {
    pub registers: Vec<Word>,
    pub fault: Option<Fault>,
}

/// The mathematical state of a processor together with a memory.
pub open spec fn vm(p: Processor, m: Memory) -> VmState {
    VmState { regs: p.registers@, mem: m@, fault: p.fault }
}

impl Processor {
    /// A processor is well formed when it has exactly `NUM_REGISTERS`
    /// registers.
    pub open spec fn wf(&self) -> bool {
        self.registers@.len() == NUM_REGISTERS
    }

    /// A fresh processor: every register zero except the instruction
    /// pointer, which starts at the entry point, and the stack pointer,
    /// which starts at the bottom of the stack region; no fault.
    pub fn new() -> (r: Processor)
        ensures
            r.wf(),
            r.registers@ == initial_regs(),
            r.fault is None,
    {
        let mut registers: Vec<Word> = Vec::new();
        let mut i: usize = 0;
        while i < NUM_REGISTERS
            invariant
                i <= NUM_REGISTERS,
                registers@.len() == i,
                forall|j: int| 0 <= j < i ==> registers@[j] == 0u32,
            decreases NUM_REGISTERS - i,
        {
            registers.push(0u32);
            i = i + 1;
        }
        registers[INSTRUCTION_POINTER as usize] = ENTRY_POINT;
        registers[STACK_POINTER as usize] = STACK_START;
        let r = Processor { registers, fault: None };
        assert(r.registers@ =~= initial_regs());
        r
    }

    /// The value of register `r`.
    pub fn read_register(&self, r: Register) -> (v: Word)
        requires
            self.wf(),
        ensures
            v == self.registers@[r.0 as int],
    {
        self.registers[r.0 as usize]
    }

    /// Write `v` to register `r` as instructions do: writes to the
    /// cycle-count registers are dropped.
    fn write_register(&mut self, r: Register, v: Word)
        requires
            old(self).wf(),
        ensures
            final(self).wf(),
            final(self).registers@ == wreg(old(self).registers@, r.0, v),
            final(self).fault == old(self).fault,
    {
        if r.0 != CYCLE_COUNT_HIGH && r.0 != CYCLE_COUNT_LOW {
            self.registers[r.0 as usize] = v;
        }
    }

    /// Whether flag `f` is currently set.
    pub fn get_flag(&self, f: Flag) -> (r: bool)
        requires
            self.wf(),
        ensures
            r == flag_bit(self.registers@[FLAGS as int], flag_mask(f)),
    {
        let flags = self.registers[FLAGS as usize];
        let mask = mask_of(f);
        (flags / mask) % 2 == 1
    }

    /// Force flag `f` to `value`, leaving every other bit alone.
    pub fn set_flag(&mut self, f: Flag, value: bool)
        requires
            old(self).wf(),
        ensures
            final(self).wf(),
            final(self).registers@ == regs_with_flag(old(self).registers@, f, value),
            final(self).fault == old(self).fault,
    {
        let flags = self.registers[FLAGS as usize];
        let mask = mask_of(f);
        let bit_set = (flags / mask) % 2 == 1;
        let updated: Word = if value && !bit_set {
            proof {
                assert(flags + mask <= 0xFFFF_FFFFu32) by (bit_vector)
                    requires
                        (mask == 1u32 || mask == 2u32 || mask == 4u32) && (flags / mask) % 2
                            != 1u32,
                ;
            }
            flags + mask
        } else if !value && bit_set {
            proof {
                assert(flags >= mask) by (bit_vector)
                    requires
                        (mask == 1u32 || mask == 2u32 || mask == 4u32) && (flags / mask) % 2
                            == 1u32,
                ;
            }
            flags - mask
        } else {
            flags
        };
        self.registers[FLAGS as usize] = updated;
    }

    /// Set the Zero and Carry flags, in that order.
    fn set_flags_zero_carry(&mut self, zero: bool, carry: bool)
        requires
            old(self).wf(),
        ensures
            final(self).wf(),
            final(self).registers@ == regs_with_zero_carry(old(self).registers@, zero, carry),
            final(self).fault == old(self).fault,
    {
        self.set_flag(Flag::Zero, zero);
        self.set_flag(Flag::Carry, carry);
    }

    /// Set the Zero and DivideByZero flags, in that order.
    fn set_flags_zero_divide(&mut self, zero: bool, divide: bool)
        requires
            old(self).wf(),
        ensures
            final(self).wf(),
            final(self).registers@ == regs_with_zero_divide(old(self).registers@, zero, divide),
            final(self).fault == old(self).fault,
    {
        self.set_flag(Flag::Zero, zero);
        self.set_flag(Flag::DivideByZero, divide);
    }

    /// Count one executed instruction on the 64-bit cycle counter.
    fn count_cycle(&mut self)
        requires
            old(self).wf(),
        ensures
            final(self).wf(),
            final(self).registers@ == bump_cycle(old(self).registers@),
            final(self).fault == old(self).fault,
    {
        let low = self.registers[CYCLE_COUNT_LOW as usize];
        if low == 0xFFFF_FFFFu32 {
            self.registers[CYCLE_COUNT_LOW as usize] = 0;
            let high = self.registers[CYCLE_COUNT_HIGH as usize];
            self.registers[CYCLE_COUNT_HIGH as usize] = if high == 0xFFFF_FFFFu32 {
                0
            } else {
                high + 1
            };
        } else {
            self.registers[CYCLE_COUNT_LOW as usize] = low + 1;
        }
    }

    /// Retire a non-jump instruction: step the instruction pointer past
    /// it and count the cycle.
    fn retire(&mut self, old_ip: Word)
        requires
            old(self).wf(),
            old_ip + 8 < 0x1_0000_0000,
        ensures
            final(self).wf(),
            final(self).registers@ == advance(old(self).registers@, old_ip),
            final(self).fault == old(self).fault,
    {
        self.registers[INSTRUCTION_POINTER as usize] = old_ip + 8;
        self.count_cycle();
    }

    /// Retire a jump: set the instruction pointer to `target` and count
    /// the cycle.
    fn retire_jump(&mut self, target: Word)
        requires
            old(self).wf(),
        ensures
            final(self).wf(),
            final(self).registers@ == jump_to(old(self).registers@, target),
            final(self).fault == old(self).fault,
    {
        self.registers[INSTRUCTION_POINTER as usize] = target;
        self.count_cycle();
    }

    /// One whole tick: fetch the instruction at the instruction pointer,
    /// decode it, execute it.
    ///
    /// The machine moves to [`step_of`] of its old state, for some answer
    /// of the peripherals: a faulted machine and a machine whose current
    /// instruction is `HaltAndCatchFire` do not change at all.
    pub fn make_tick<P: Periphery>(&mut self, memory: &mut Memory, periphery: &mut P)
        requires
            old(self).wf(),
            old(memory).wf(),
        ensures
            final(self).wf(),
            final(memory).wf(),
            exists|ms: u64, kd: bool|
                vm(*final(self), *final(memory)) == step_of(vm(*old(self), *old(memory)), ms, kd),
    {
        let ghost pre = vm(*old(self), *old(memory));
        if self.fault.is_some() {
            proof {
                assert(vm(*self, *memory) == step_of(pre, 0u64, false));
            }
            return ;
        }
        let ip = self.registers[INSTRUCTION_POINTER as usize];
        if (ip as u64) + 8 > MEMORY_SIZE as u64 {
            self.fault = Some(Fault::AddressOutOfBounds);
            proof {
                assert(vm(*self, *memory) =~= step_of(pre, 0u64, false));
            }
            return ;
        }
        match memory.read_opcode(ip) {
            Err(_) => {
                self.fault = Some(Fault::InvalidOpcode);
                proof {
                    assert(vm(*self, *memory) =~= step_of(pre, 0u64, false));
                }
            },
            Ok(op) => {
                match op {
                    Opcode::HaltAndCatchFire {  } => {
                        proof {
                            assert(vm(*self, *memory) == step_of(pre, 0u64, false));
                        }
                    },
                    _ => {
                        self.execute(memory, periphery, op, ip);
                        proof {
                            let (ms, kd) = choose|ms: u64, kd: bool|
                                vm(*self, *memory) == exec_spec(pre, op, ms, kd);
                            assert(vm(*self, *memory) == step_of(pre, ms, kd));
                        }
                    },
                }
            },
        }
    }

    /// Execute one decoded, non-halt instruction.
    fn execute<P: Periphery>(
        &mut self,
        memory: &mut Memory,
        periphery: &mut P,
        op: Opcode,
        ip: Word,
    )
        requires
            old(self).wf(),
            old(memory).wf(),
            old(self).fault is None,
            ip == ip_of(vm(*old(self), *old(memory))),
            valid_instruction_address(ip),
            !(op is HaltAndCatchFire),
        ensures
            final(self).wf(),
            final(memory).wf(),
            exists|ms: u64, kd: bool|
                vm(*final(self), *final(memory)) == exec_spec(
                    vm(*old(self), *old(memory)),
                    op,
                    ms,
                    kd,
                ),
    {
        match op {
            Opcode::MoveRegisterImmediate { .. } | Opcode::MoveRegisterAddress { .. }
                | Opcode::MoveTargetSource { .. } | Opcode::MoveAddressRegister { .. }
                | Opcode::MoveTargetPointer { .. } | Opcode::MovePointerSource { .. } => {
                self.execute_move(memory, op, ip);
            },
            Opcode::AddTargetLhsRhs { .. } | Opcode::AddTargetSourceImmediate { .. }
                | Opcode::SubtractTargetLhsRhs { .. } | Opcode::SubtractTargetSourceImmediate {
                ..
            } | Opcode::SubtractWithCarryTargetLhsRhs { .. } | Opcode::MultiplyHighLowLhsRhs {
                ..
            } | Opcode::DivmodTargetModLhsRhs { .. } => {
                self.execute_arith(memory, op, ip);
            },
            Opcode::AndTargetLhsRhs { .. } | Opcode::OrTargetLhsRhs { .. }
                | Opcode::XorTargetLhsRhs { .. } | Opcode::NotTargetSource { .. }
                | Opcode::LeftShiftTargetLhsRhs { .. } | Opcode::RightShiftTargetLhsRhs { .. }
                | Opcode::CompareTargetLhsRhs { .. } => {
                self.execute_bitwise(memory, op, ip);
            },
            Opcode::JumpAddress { .. } | Opcode::JumpRegister { .. } | Opcode::JumpAddressIfEqual {
                ..
            } | Opcode::JumpAddressIfGreaterThan { .. } | Opcode::JumpAddressIfLessThan { .. }
                | Opcode::JumpAddressIfLessThanOrEqual { .. }
                | Opcode::JumpAddressIfGreaterThanOrEqual { .. } | Opcode::JumpAddressIfZero {
                ..
            } | Opcode::JumpAddressIfNotZero { .. } | Opcode::JumpAddressIfCarry { .. }
                | Opcode::JumpAddressIfNotCarry { .. } | Opcode::JumpAddressIfDivideByZero { .. }
                | Opcode::JumpAddressIfNotDivideByZero { .. } => {
                self.execute_jump(memory, op, ip);
            },
            Opcode::PushRegister { .. } | Opcode::PopRegister { .. } | Opcode::CallAddress { .. }
                | Opcode::Return { .. } => {
                self.execute_stack(memory, op, ip);
            },
            Opcode::PollTime { .. } | Opcode::GetKeyState { .. } => {
                self.execute_peripheral(memory, periphery, op, ip);
            },
            Opcode::HaltAndCatchFire { .. } => {
                proof {
                    assert(false);
                }
            },
        }
    }

    /// Execute a data-movement instruction.
    fn execute_move(&mut self, memory: &mut Memory, op: Opcode, ip: Word)
        requires
            old(self).wf(),
            old(memory).wf(),
            old(self).fault is None,
            ip == ip_of(vm(*old(self), *old(memory))),
            valid_instruction_address(ip),
            op is MoveRegisterImmediate || op is MoveRegisterAddress || op is MoveTargetSource
                || op is MoveAddressRegister || op is MoveTargetPointer
                || op is MovePointerSource,
        ensures
            final(self).wf(),
            final(memory).wf(),
            exists|ms: u64, kd: bool|
                vm(*final(self), *final(memory)) == exec_spec(
                    vm(*old(self), *old(memory)),
                    op,
                    ms,
                    kd,
                ),
    {
        let ghost pre = vm(*old(self), *old(memory));
        match op {
            Opcode::MoveRegisterImmediate { register, immediate } => {
                self.write_register(register, immediate);
                self.retire(ip);
                proof {
                    assert(vm(*self, *memory) =~= exec_spec(pre, op, 0u64, false));
                }
            },
            Opcode::MoveRegisterAddress { register, address } => {
                if (address as u64) + 4 > MEMORY_SIZE as u64 {
                    self.fault = Some(Fault::AddressOutOfBounds);
                } else {
                    let value = memory.read_data(address);
                    self.write_register(register, value);
                    self.retire(ip);
                }
                proof {
                    assert(vm(*self, *memory) =~= exec_spec(pre, op, 0u64, false));
                }
            },
            Opcode::MoveTargetSource { target, source } => {
                let value = self.read_register(source);
                self.write_register(target, value);
                self.retire(ip);
                proof {
                    assert(vm(*self, *memory) =~= exec_spec(pre, op, 0u64, false));
                }
            },
            Opcode::MoveAddressRegister { address, register } => {
                if (address as u64) + 4 > MEMORY_SIZE as u64 {
                    self.fault = Some(Fault::AddressOutOfBounds);
                } else {
                    let value = self.read_register(register);
                    memory.write_data(address, value);
                    self.retire(ip);
                }
                proof {
                    assert(vm(*self, *memory) =~= exec_spec(pre, op, 0u64, false));
                }
            },
            Opcode::MoveTargetPointer { target, pointer } => {
                let address = self.read_register(pointer);
                if (address as u64) + 4 > MEMORY_SIZE as u64 {
                    self.fault = Some(Fault::AddressOutOfBounds);
                } else {
                    let value = memory.read_data(address);
                    self.write_register(target, value);
                    self.retire(ip);
                }
                proof {
                    assert(vm(*self, *memory) =~= exec_spec(pre, op, 0u64, false));
                }
            },
            Opcode::MovePointerSource { pointer, source } => {
                let address = self.read_register(pointer);
                if (address as u64) + 4 > MEMORY_SIZE as u64 {
                    self.fault = Some(Fault::AddressOutOfBounds);
                } else {
                    let value = self.read_register(source);
                    memory.write_data(address, value);
                    self.retire(ip);
                }
                proof {
                    assert(vm(*self, *memory) =~= exec_spec(pre, op, 0u64, false));
                }
            },
            _ => {
                proof {
                    assert(false);
                }
            },
        }
    }

    /// Execute an arithmetic instruction.
    fn execute_arith(&mut self, memory: &mut Memory, op: Opcode, ip: Word)
        requires
            old(self).wf(),
            old(memory).wf(),
            old(self).fault is None,
            ip == ip_of(vm(*old(self), *old(memory))),
            valid_instruction_address(ip),
            op is AddTargetLhsRhs || op is AddTargetSourceImmediate || op is SubtractTargetLhsRhs
                || op is SubtractTargetSourceImmediate || op is SubtractWithCarryTargetLhsRhs
                || op is MultiplyHighLowLhsRhs || op is DivmodTargetModLhsRhs,
        ensures
            final(self).wf(),
            final(memory).wf(),
            exists|ms: u64, kd: bool|
                vm(*final(self), *final(memory)) == exec_spec(
                    vm(*old(self), *old(memory)),
                    op,
                    ms,
                    kd,
                ),
    {
        let ghost pre = vm(*old(self), *old(memory));
        match op {
            Opcode::AddTargetLhsRhs { target, lhs, rhs } => {
                let a = self.read_register(lhs);
                let b = self.read_register(rhs);
                self.binary_add(target, a, b, ip);
                proof {
                    assert(vm(*self, *memory) =~= exec_spec(pre, op, 0u64, false));
                }
            },
            Opcode::AddTargetSourceImmediate { target, source, immediate } => {
                let a = self.read_register(source);
                self.binary_add(target, a, immediate, ip);
                proof {
                    assert(vm(*self, *memory) =~= exec_spec(pre, op, 0u64, false));
                }
            },
            Opcode::SubtractTargetLhsRhs { target, lhs, rhs } => {
                let a = self.read_register(lhs);
                let b = self.read_register(rhs);
                self.binary_sub(target, a, b, false, ip);
                proof {
                    assert(vm(*self, *memory) =~= exec_spec(pre, op, 0u64, false));
                }
            },
            Opcode::SubtractTargetSourceImmediate { target, source, immediate } => {
                let a = self.read_register(source);
                self.binary_sub(target, a, immediate, false, ip);
                proof {
                    assert(vm(*self, *memory) =~= exec_spec(pre, op, 0u64, false));
                }
            },
            Opcode::SubtractWithCarryTargetLhsRhs { target, lhs, rhs } => {
                let a = self.read_register(lhs);
                let b = self.read_register(rhs);
                let borrow = self.get_flag(Flag::Carry);
                self.binary_sub(target, a, b, borrow, ip);
                proof {
                    assert(vm(*self, *memory) =~= exec_spec(pre, op, 0u64, false));
                }
            },
            Opcode::MultiplyHighLowLhsRhs { high, low, lhs, rhs } => {
                let a = self.read_register(lhs);
                let b = self.read_register(rhs);
                proof {
                    assert((a as int) * (b as int) < 0x1_0000_0000_0000_0000int)
                        by (nonlinear_arith)
                        requires
                            a < 0x1_0000_0000,
                            b < 0x1_0000_0000,
                    ;
                }
                let product: u64 = (a as u64) * (b as u64);
                let high_part = (product / 0x1_0000_0000) as u32;
                let low_part = (product % 0x1_0000_0000) as u32;
                self.write_register(high, high_part);
                self.write_register(low, low_part);
                self.set_flags_zero_carry(low_part == 0, high_part != 0);
                self.retire(ip);
                proof {
                    assert(vm(*self, *memory) =~= exec_spec(pre, op, 0u64, false));
                }
            },
            Opcode::DivmodTargetModLhsRhs { result, remainder, lhs, rhs } => {
                let a = self.read_register(lhs);
                let b = self.read_register(rhs);
                let quotient: u32 = if b == 0 {
                    0
                } else {
                    a / b
                };
                let rest: u32 = if b == 0 {
                    a
                } else {
                    a % b
                };
                self.write_register(result, quotient);
                self.write_register(remainder, rest);
                self.set_flags_zero_divide(quotient == 0, b == 0);
                self.retire(ip);
                proof {
                    assert(vm(*self, *memory) =~= exec_spec(pre, op, 0u64, false));
                }
            },
            _ => {
                proof {
                    assert(false);
                }
            },
        }
    }

    /// Execute a bitwise, shift or compare instruction.
    fn execute_bitwise(&mut self, memory: &mut Memory, op: Opcode, ip: Word)
        requires
            old(self).wf(),
            old(memory).wf(),
            old(self).fault is None,
            ip == ip_of(vm(*old(self), *old(memory))),
            valid_instruction_address(ip),
            op is AndTargetLhsRhs || op is OrTargetLhsRhs || op is XorTargetLhsRhs
                || op is NotTargetSource || op is LeftShiftTargetLhsRhs
                || op is RightShiftTargetLhsRhs || op is CompareTargetLhsRhs,
        ensures
            final(self).wf(),
            final(memory).wf(),
            exists|ms: u64, kd: bool|
                vm(*final(self), *final(memory)) == exec_spec(
                    vm(*old(self), *old(memory)),
                    op,
                    ms,
                    kd,
                ),
    {
        let ghost pre = vm(*old(self), *old(memory));
        match op {
            Opcode::AndTargetLhsRhs { target, lhs, rhs } => {
                let a = self.read_register(lhs);
                let b = self.read_register(rhs);
                self.write_result_zero_flag(target, a & b, ip);
                proof {
                    assert(vm(*self, *memory) =~= exec_spec(pre, op, 0u64, false));
                }
            },
            Opcode::OrTargetLhsRhs { target, lhs, rhs } => {
                let a = self.read_register(lhs);
                let b = self.read_register(rhs);
                self.write_result_zero_flag(target, a | b, ip);
                proof {
                    assert(vm(*self, *memory) =~= exec_spec(pre, op, 0u64, false));
                }
            },
            Opcode::XorTargetLhsRhs { target, lhs, rhs } => {
                let a = self.read_register(lhs);
                let b = self.read_register(rhs);
                self.write_result_zero_flag(target, a ^ b, ip);
                proof {
                    assert(vm(*self, *memory) =~= exec_spec(pre, op, 0u64, false));
                }
            },
            Opcode::NotTargetSource { target, source } => {
                let value = self.read_register(source);
                self.write_result_zero_flag(target, !value, ip);
                proof {
                    assert(vm(*self, *memory) =~= exec_spec(pre, op, 0u64, false));
                }
            },
            Opcode::LeftShiftTargetLhsRhs { target, lhs, rhs } => {
                let a = self.read_register(lhs);
                let b = self.read_register(rhs);
                if b >= 32 {
                    self.write_register(target, 0);
                    self.set_flags_zero_carry(true, a != 0);
                    self.retire(ip);
                } else {
                    let factor = pow2_u64(b);
                    proof {
                        assert((a as int) * (factor as int) < 0x1_0000_0000_0000_0000int)
                            by (nonlinear_arith)
                            requires
                                a < 0x1_0000_0000,
                                factor <= 0x8000_0000,
                        ;
                    }
                    let wide: u64 = (a as u64) * factor;
                    let result = (wide % 0x1_0000_0000) as u32;
                    self.write_register(target, result);
                    self.set_flags_zero_carry(result == 0, wide >= 0x1_0000_0000);
                    self.retire(ip);
                }
                proof {
                    assert(vm(*self, *memory) =~= exec_spec(pre, op, 0u64, false));
                }
            },
            Opcode::RightShiftTargetLhsRhs { target, lhs, rhs } => {
                let a = self.read_register(lhs);
                let b = self.read_register(rhs);
                if b >= 32 {
                    self.write_register(target, 0);
                    self.set_flags_zero_carry(true, a != 0);
                    self.retire(ip);
                } else {
                    let factor = pow2_u64(b) as u32;
                    let result = a / factor;
                    let lost = a % factor != 0;
                    self.write_register(target, result);
                    self.set_flags_zero_carry(result == 0, lost);
                    self.retire(ip);
                }
                proof {
                    assert(vm(*self, *memory) =~= exec_spec(pre, op, 0u64, false));
                }
            },
            Opcode::CompareTargetLhsRhs { target, lhs, rhs } => {
                let a = self.read_register(lhs);
                let b = self.read_register(rhs);
                let result: u32 = if a > b {
                    1
                } else if a == b {
                    0
                } else {
                    0xFFFF_FFFF
                };
                self.write_result_zero_flag(target, result, ip);
                proof {
                    assert(vm(*self, *memory) =~= exec_spec(pre, op, 0u64, false));
                }
            },
            _ => {
                proof {
                    assert(false);
                }
            },
        }
    }

    /// Execute a jump, conditional or not.
    fn execute_jump(&mut self, memory: &mut Memory, op: Opcode, ip: Word)
        requires
            old(self).wf(),
            old(memory).wf(),
            old(self).fault is None,
            ip == ip_of(vm(*old(self), *old(memory))),
            valid_instruction_address(ip),
            op is JumpAddress || op is JumpRegister || op is JumpAddressIfEqual
                || op is JumpAddressIfGreaterThan || op is JumpAddressIfLessThan
                || op is JumpAddressIfLessThanOrEqual || op is JumpAddressIfGreaterThanOrEqual
                || op is JumpAddressIfZero || op is JumpAddressIfNotZero
                || op is JumpAddressIfCarry || op is JumpAddressIfNotCarry
                || op is JumpAddressIfDivideByZero || op is JumpAddressIfNotDivideByZero,
        ensures
            final(self).wf(),
            final(memory).wf(),
            exists|ms: u64, kd: bool|
                vm(*final(self), *final(memory)) == exec_spec(
                    vm(*old(self), *old(memory)),
                    op,
                    ms,
                    kd,
                ),
    {
        let ghost pre = vm(*old(self), *old(memory));
        match op {
            Opcode::JumpAddress { address } => {
                self.retire_jump(address);
                proof {
                    assert(vm(*self, *memory) =~= exec_spec(pre, op, 0u64, false));
                }
            },
            Opcode::JumpRegister { register } => {
                let target = self.read_register(register);
                self.retire_jump(target);
                proof {
                    assert(vm(*self, *memory) =~= exec_spec(pre, op, 0u64, false));
                }
            },
            Opcode::JumpAddressIfEqual { register, address } => {
                let value = self.read_register(register);
                self.branch(value == 0, address, ip);
                proof {
                    assert(vm(*self, *memory) =~= exec_spec(pre, op, 0u64, false));
                }
            },
            Opcode::JumpAddressIfGreaterThan { register, address } => {
                let value = self.read_register(register);
                self.branch(value == 1, address, ip);
                proof {
                    assert(vm(*self, *memory) =~= exec_spec(pre, op, 0u64, false));
                }
            },
            Opcode::JumpAddressIfLessThan { register, address } => {
                let value = self.read_register(register);
                self.branch(value == 0xFFFF_FFFF, address, ip);
                proof {
                    assert(vm(*self, *memory) =~= exec_spec(pre, op, 0u64, false));
                }
            },
            Opcode::JumpAddressIfLessThanOrEqual { register, address } => {
                let value = self.read_register(register);
                self.branch(value == 0 || value == 0xFFFF_FFFF, address, ip);
                proof {
                    assert(vm(*self, *memory) =~= exec_spec(pre, op, 0u64, false));
                }
            },
            Opcode::JumpAddressIfGreaterThanOrEqual { register, address } => {
                let value = self.read_register(register);
                self.branch(value == 0 || value == 1, address, ip);
                proof {
                    assert(vm(*self, *memory) =~= exec_spec(pre, op, 0u64, false));
                }
            },
            Opcode::JumpAddressIfZero { address } => {
                let cond = self.get_flag(Flag::Zero);
                self.branch(cond, address, ip);
                proof {
                    assert(vm(*self, *memory) =~= exec_spec(pre, op, 0u64, false));
                }
            },
            Opcode::JumpAddressIfNotZero { address } => {
                let cond = self.get_flag(Flag::Zero);
                self.branch(!cond, address, ip);
                proof {
                    assert(vm(*self, *memory) =~= exec_spec(pre, op, 0u64, false));
                }
            },
            Opcode::JumpAddressIfCarry { address } => {
                let cond = self.get_flag(Flag::Carry);
                self.branch(cond, address, ip);
                proof {
                    assert(vm(*self, *memory) =~= exec_spec(pre, op, 0u64, false));
                }
            },
            Opcode::JumpAddressIfNotCarry { address } => {
                let cond = self.get_flag(Flag::Carry);
                self.branch(!cond, address, ip);
                proof {
                    assert(vm(*self, *memory) =~= exec_spec(pre, op, 0u64, false));
                }
            },
            Opcode::JumpAddressIfDivideByZero { address } => {
                let cond = self.get_flag(Flag::DivideByZero);
                self.branch(cond, address, ip);
                proof {
                    assert(vm(*self, *memory) =~= exec_spec(pre, op, 0u64, false));
                }
            },
            Opcode::JumpAddressIfNotDivideByZero { address } => {
                let cond = self.get_flag(Flag::DivideByZero);
                self.branch(!cond, address, ip);
                proof {
                    assert(vm(*self, *memory) =~= exec_spec(pre, op, 0u64, false));
                }
            },
            _ => {
                proof {
                    assert(false);
                }
            },
        }
    }

    /// Execute a stack or subroutine instruction.
    fn execute_stack(&mut self, memory: &mut Memory, op: Opcode, ip: Word)
        requires
            old(self).wf(),
            old(memory).wf(),
            old(self).fault is None,
            ip == ip_of(vm(*old(self), *old(memory))),
            valid_instruction_address(ip),
            op is PushRegister || op is PopRegister || op is CallAddress || op is Return,
        ensures
            final(self).wf(),
            final(memory).wf(),
            exists|ms: u64, kd: bool|
                vm(*final(self), *final(memory)) == exec_spec(
                    vm(*old(self), *old(memory)),
                    op,
                    ms,
                    kd,
                ),
    {
        let ghost pre = vm(*old(self), *old(memory));
        match op {
            Opcode::PushRegister { register } => {
                let sp = self.registers[STACK_POINTER as usize];
                if !(STACK_START <= sp && sp <= STACK_START + STACK_SIZE - 4) {
                    self.fault = Some(Fault::StackOverflow);
                } else {
                    let value = self.read_register(register);
                    memory.write_data(sp, value);
                    self.write_register(Register(STACK_POINTER), sp + 4);
                    self.retire(ip);
                }
                proof {
                    assert(vm(*self, *memory) =~= exec_spec(pre, op, 0u64, false));
                }
            },
            Opcode::PopRegister { register } => {
                let sp = self.registers[STACK_POINTER as usize];
                if !(STACK_START + 4 <= sp && sp <= STACK_START + STACK_SIZE) {
                    self.fault = Some(Fault::StackUnderflow);
                } else {
                    let value = memory.read_data(sp - 4);
                    self.write_register(Register(STACK_POINTER), sp - 4);
                    self.write_register(register, value);
                    self.retire(ip);
                }
                proof {
                    assert(vm(*self, *memory) =~= exec_spec(pre, op, 0u64, false));
                }
            },
            Opcode::CallAddress { address } => {
                let sp = self.registers[STACK_POINTER as usize];
                if !(STACK_START <= sp && sp <= STACK_START + STACK_SIZE - 4) {
                    self.fault = Some(Fault::StackOverflow);
                } else {
                    memory.write_data(sp, ip + 8);
                    self.write_register(Register(STACK_POINTER), sp + 4);
                    self.retire_jump(address);
                }
                proof {
                    assert(vm(*self, *memory) =~= exec_spec(pre, op, 0u64, false));
                }
            },
            Opcode::Return {  } => {
                let sp = self.registers[STACK_POINTER as usize];
                if !(STACK_START + 4 <= sp && sp <= STACK_START + STACK_SIZE) {
                    self.fault = Some(Fault::StackUnderflow);
                } else {
                    let target = memory.read_data(sp - 4);
                    self.write_register(Register(STACK_POINTER), sp - 4);
                    self.retire_jump(target);
                }
                proof {
                    assert(vm(*self, *memory) =~= exec_spec(pre, op, 0u64, false));
                }
            },
            _ => {
                proof {
                    assert(false);
                }
            },
        }
    }

    /// Execute an instruction that consults the periphery.
    fn execute_peripheral<P: Periphery>(
        &mut self,
        memory: &mut Memory,
        periphery: &mut P,
        op: Opcode,
        ip: Word,
    )
        requires
            old(self).wf(),
            old(memory).wf(),
            old(self).fault is None,
            ip == ip_of(vm(*old(self), *old(memory))),
            valid_instruction_address(ip),
            op is PollTime || op is GetKeyState,
        ensures
            final(self).wf(),
            final(memory).wf(),
            exists|ms: u64, kd: bool|
                vm(*final(self), *final(memory)) == exec_spec(
                    vm(*old(self), *old(memory)),
                    op,
                    ms,
                    kd,
                ),
    {
        let ghost pre = vm(*old(self), *old(memory));
        match op {
            Opcode::PollTime { high, low } => {
                let ms = periphery.poll_ms();
                let high_part = (ms / 0x1_0000_0000) as u32;
                let low_part = (ms % 0x1_0000_0000) as u32;
                self.write_register(high, high_part);
                self.write_register(low, low_part);
                self.retire(ip);
                proof {
                    assert(vm(*self, *memory) =~= exec_spec(pre, op, ms, false));
                }
            },
            Opcode::GetKeyState { target, keycode } => {
                let code = self.read_register(keycode);
                let pressed = periphery.key_down(code);
                self.write_register(
                    target,
                    if pressed {
                        1
                    } else {
                        0
                    },
                );
                self.retire(ip);
                proof {
                    assert(vm(*self, *memory) =~= exec_spec(pre, op, 0u64, pressed));
                }
            },
            _ => {
                proof {
                    assert(false);
                }
            },
        }
    }

    /// Add `a` and `b` into `target`, setting Zero and Carry.
    fn binary_add(&mut self, target: Register, a: Word, b: Word, ip: Word)
        requires
            old(self).wf(),
            ip + 8 < 0x1_0000_0000,
        ensures
            final(self).wf(),
            final(self).registers@ == advance(
                regs_with_zero_carry(
                    wreg(old(self).registers@, target.0, wrap32(a + b)),
                    wrap32(a + b) == 0,
                    a + b >= 0x1_0000_0000,
                ),
                ip,
            ),
            final(self).fault == old(self).fault,
    {
        let sum: u64 = (a as u64) + (b as u64);
        let result = (sum % 0x1_0000_0000) as u32;
        self.write_register(target, result);
        self.set_flags_zero_carry(result == 0, sum >= 0x1_0000_0000);
        self.retire(ip);
    }

    /// Subtract `b` (plus a borrow) from `a` into `target`, setting Zero
    /// and Carry.
    fn binary_sub(&mut self, target: Register, a: Word, b: Word, borrow: bool, ip: Word)
        requires
            old(self).wf(),
            ip + 8 < 0x1_0000_0000,
        ensures
            final(self).wf(),
            final(self).registers@ == ({
                let c: int = if borrow {
                    1
                } else {
                    0
                };
                advance(
                    regs_with_zero_carry(
                        wreg(old(self).registers@, target.0, wrap32(a - b - c)),
                        wrap32(a - b - c) == 0,
                        a < b + c,
                    ),
                    ip,
                )
            }),
            final(self).fault == old(self).fault,
    {
        let ghost c: int = if borrow {
            1
        } else {
            0
        };
        let subtrahend: u64 = (b as u64) + (if borrow {
            1
        } else {
            0
        });
        let result: u32 = if (a as u64) >= subtrahend {
            ((a as u64) - subtrahend) as u32
        } else {
            ((a as u64) + 0x1_0000_0000 - subtrahend) as u32
        };
        proof {
            assert(result == wrap32(a - b - c));
        }
        self.write_register(target, result);
        self.set_flags_zero_carry(result == 0, (a as u64) < subtrahend);
        self.retire(ip);
    }

    /// Write `result` to `target` and set the Zero flag alone.
    fn write_result_zero_flag(&mut self, target: Register, result: Word, ip: Word)
        requires
            old(self).wf(),
            ip + 8 < 0x1_0000_0000,
        ensures
            final(self).wf(),
            final(self).registers@ == advance(
                regs_with_flag(
                    wreg(old(self).registers@, target.0, result),
                    Flag::Zero,
                    result == 0,
                ),
                ip,
            ),
            final(self).fault == old(self).fault,
    {
        self.write_register(target, result);
        self.set_flag(Flag::Zero, result == 0);
        self.retire(ip);
    }

    /// Take the jump to `address` when `cond` holds, else step past the
    /// instruction.
    fn branch(&mut self, cond: bool, address: Address, ip: Word)
        requires
            old(self).wf(),
            ip + 8 < 0x1_0000_0000,
        ensures
            final(self).wf(),
            final(self).registers@ == if cond {
                jump_to(old(self).registers@, address)
            } else {
                advance(old(self).registers@, ip)
            },
            final(self).fault == old(self).fault,
    {
        if cond {
            self.retire_jump(address);
        } else {
            self.retire(ip);
        }
    }

    /// The current stack pointer.
    pub fn get_stack_pointer(&self) -> (r: Word)
        requires
            self.wf(),
        ensures
            r == self.registers@[STACK_POINTER as int],
    {
        self.registers[STACK_POINTER as usize]
    }

    /// The 64-bit cycle count, assembled from its two registers.
    pub fn get_cycle_count(&self) -> (r: u64)
        requires
            self.wf(),
        ensures
            r == self.registers@[CYCLE_COUNT_HIGH as int] * 0x1_0000_0000
                + self.registers@[CYCLE_COUNT_LOW as int],
    {
        let high = self.registers[CYCLE_COUNT_HIGH as usize];
        let low = self.registers[CYCLE_COUNT_LOW as usize];
        high as u64 * 0x1_0000_0000 + low as u64
    }
}

/// Two to the power `e`, computed by repeated doubling.
fn pow2_u64(e: u32) -> (r: u64)
    requires
        e < 32,
    ensures
        r == pow2(e as nat),
        1 <= r <= 0x8000_0000,
{
    proof {
        vstd::arithmetic::power2::lemma2_to64();
    }
    let mut r: u64 = 1;
    let mut i: u32 = 0;
    while i < e
        invariant
            i <= e,
            e < 32,
            r == pow2(i as nat),
            r <= 0x8000_0000,
        decreases e - i,
    {
        proof {
            vstd::arithmetic::power2::lemma2_to64();
            if i < 30 {
                vstd::arithmetic::power2::lemma_pow2_strictly_increases(i as nat, 30);
            }
            vstd::arithmetic::power2::lemma_pow2_adds(i as nat, 1);
        }
        r = r * 2;
        i = i + 1;
    }
    r
}

/// The executable mask of a flag.
fn mask_of(f: Flag) -> (m: Word)
    ensures
        m == flag_mask(f),
        m == 1 || m == 2 || m == 4,
{
    match f {
        Flag::Zero => 1,
        Flag::Carry => 2,
        Flag::DivideByZero => 4,
    }
}

} // verus!
