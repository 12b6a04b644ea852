//! Laws of the machine, proved once and for all against the step
//! semantics [`step_of`] and the per-instruction semantics
//! [`exec_spec`].

use vstd::prelude::*;

use crate::memory::{instruction_at, mem_with_word, valid_instruction_address, word_at, MEMORY_SIZE};
use crate::opcodes::{decode_spec, Opcode};
use crate::processor::{
    advance, arith_state, bump_cycle, cycle_of, exec_spec, ip_of, jump_to, reg_val, sp_of,
    state_wf, step_of, wrap32, VmState, CYCLE_COUNT_HIGH, CYCLE_COUNT_LOW, FLAGS,
    INSTRUCTION_POINTER, STACK_POINTER, STACK_SIZE, STACK_START,
};
use crate::{Instruction, Register, Word};
use vstd::arithmetic::power2::pow2;

verus! {

/// Whether `op` sets the instruction pointer itself.
pub open spec fn is_control_flow(op: Opcode) -> bool {
    op is JumpAddress || op is JumpRegister || op is JumpAddressIfEqual
        || op is JumpAddressIfGreaterThan || op is JumpAddressIfLessThan
        || op is JumpAddressIfLessThanOrEqual || op is JumpAddressIfGreaterThanOrEqual
        || op is JumpAddressIfZero || op is JumpAddressIfNotZero || op is JumpAddressIfCarry
        || op is JumpAddressIfNotCarry || op is JumpAddressIfDivideByZero
        || op is JumpAddressIfNotDivideByZero || op is CallAddress || op is Return
}

/// Whether `op` is an arithmetic or bitwise instruction.
pub open spec fn is_arith_or_bitwise(op: Opcode) -> bool {
    op is AddTargetLhsRhs || op is AddTargetSourceImmediate || op is SubtractTargetLhsRhs
        || op is SubtractTargetSourceImmediate || op is SubtractWithCarryTargetLhsRhs
        || op is MultiplyHighLowLhsRhs || op is DivmodTargetModLhsRhs || op is AndTargetLhsRhs
        || op is OrTargetLhsRhs || op is XorTargetLhsRhs || op is NotTargetSource
        || op is LeftShiftTargetLhsRhs || op is RightShiftTargetLhsRhs
}

/// Whether register `r` is a declared target of `op`.
pub open spec fn declared_target(op: Opcode, r: u8) -> bool {
    match op {
        Opcode::AddTargetLhsRhs { target, .. } => r == target.0,
        Opcode::AddTargetSourceImmediate { target, .. } => r == target.0,
        Opcode::SubtractTargetLhsRhs { target, .. } => r == target.0,
        Opcode::SubtractTargetSourceImmediate { target, .. } => r == target.0,
        Opcode::SubtractWithCarryTargetLhsRhs { target, .. } => r == target.0,
        Opcode::MultiplyHighLowLhsRhs { high, low, .. } => r == high.0 || r == low.0,
        Opcode::DivmodTargetModLhsRhs { result, remainder, .. } => r == result.0 || r
            == remainder.0,
        Opcode::AndTargetLhsRhs { target, .. } => r == target.0,
        Opcode::OrTargetLhsRhs { target, .. } => r == target.0,
        Opcode::XorTargetLhsRhs { target, .. } => r == target.0,
        Opcode::NotTargetSource { target, .. } => r == target.0,
        Opcode::LeftShiftTargetLhsRhs { target, .. } => r == target.0,
        Opcode::RightShiftTargetLhsRhs { target, .. } => r == target.0,
        Opcode::CompareTargetLhsRhs { target, .. } => r == target.0,
        _ => false,
    }
}

/// Frame facts about retiring, quantified so that every occurrence of
/// `advance` or `jump_to` picks them up: registers other than the
/// instruction pointer and the cycle counter keep their values, the
/// instruction pointer lands where retiring sends it, and the cycle
/// counter grows by one, wrapping at its 64-bit top.
proof fn lemma_retire_frames()
    ensures
        forall|regs: Seq<Word>, old_ip: Word, k: int|
            regs.len() == 256 && 0 <= k < 256 && k != INSTRUCTION_POINTER && k != CYCLE_COUNT_HIGH
                && k != CYCLE_COUNT_LOW ==> #[trigger] advance(regs, old_ip)[k] == regs[k],
        forall|regs: Seq<Word>, target: Word, k: int|
            regs.len() == 256 && 0 <= k < 256 && k != INSTRUCTION_POINTER && k != CYCLE_COUNT_HIGH
                && k != CYCLE_COUNT_LOW ==> #[trigger] jump_to(regs, target)[k] == regs[k],
        forall|regs: Seq<Word>, old_ip: Word|
            regs.len() == 256 ==> (#[trigger] advance(regs, old_ip))[INSTRUCTION_POINTER as int]
                == ((old_ip + 8) % 0x1_0000_0000) as Word,
        forall|regs: Seq<Word>, target: Word|
            regs.len() == 256 ==> (#[trigger] jump_to(regs, target))[INSTRUCTION_POINTER as int]
                == target,
        forall|regs: Seq<Word>, old_ip: Word|
            regs.len() == 256 ==> (#[trigger] advance(regs, old_ip))[CYCLE_COUNT_HIGH as int]
                * 0x1_0000_0000 + advance(regs, old_ip)[CYCLE_COUNT_LOW as int] == cycle_next(
                regs[CYCLE_COUNT_HIGH as int] * 0x1_0000_0000 + regs[CYCLE_COUNT_LOW as int],
            ),
        forall|regs: Seq<Word>, target: Word|
            regs.len() == 256 ==> (#[trigger] jump_to(regs, target))[CYCLE_COUNT_HIGH as int]
                * 0x1_0000_0000 + jump_to(regs, target)[CYCLE_COUNT_LOW as int] == cycle_next(
                regs[CYCLE_COUNT_HIGH as int] * 0x1_0000_0000 + regs[CYCLE_COUNT_LOW as int],
            ),
{
    assert forall|regs: Seq<Word>, old_ip: Word, k: int|
        regs.len() == 256 && 0 <= k < 256 && k != INSTRUCTION_POINTER && k != CYCLE_COUNT_HIGH && k
            != CYCLE_COUNT_LOW implies #[trigger] advance(regs, old_ip)[k] == regs[k] by {
        lemma_bump_cycle_frame(
            regs.update(INSTRUCTION_POINTER as int, ((old_ip + 8) % 0x1_0000_0000) as Word),
            k,
        );
    }
    assert forall|regs: Seq<Word>, target: Word, k: int|
        regs.len() == 256 && 0 <= k < 256 && k != INSTRUCTION_POINTER && k != CYCLE_COUNT_HIGH && k
            != CYCLE_COUNT_LOW implies #[trigger] jump_to(regs, target)[k] == regs[k] by {
        lemma_bump_cycle_frame(regs.update(INSTRUCTION_POINTER as int, target), k);
    }
    assert forall|regs: Seq<Word>, old_ip: Word| regs.len() == 256 implies (#[trigger] advance(
        regs,
        old_ip,
    ))[INSTRUCTION_POINTER as int] == ((old_ip + 8) % 0x1_0000_0000) as Word by {
        lemma_bump_cycle_frame(
            regs.update(INSTRUCTION_POINTER as int, ((old_ip + 8) % 0x1_0000_0000) as Word),
            INSTRUCTION_POINTER as int,
        );
    }
    assert forall|regs: Seq<Word>, target: Word| regs.len() == 256 implies (#[trigger] jump_to(
        regs,
        target,
    ))[INSTRUCTION_POINTER as int] == target by {
        lemma_bump_cycle_frame(
            regs.update(INSTRUCTION_POINTER as int, target),
            INSTRUCTION_POINTER as int,
        );
    }
    assert forall|regs: Seq<Word>, old_ip: Word| regs.len() == 256 implies (#[trigger] advance(
        regs,
        old_ip,
    ))[CYCLE_COUNT_HIGH as int] * 0x1_0000_0000 + advance(regs, old_ip)[CYCLE_COUNT_LOW as int]
        == cycle_next(
        regs[CYCLE_COUNT_HIGH as int] * 0x1_0000_0000 + regs[CYCLE_COUNT_LOW as int],
    ) by {
        lemma_bump_cycle_delta(
            regs.update(INSTRUCTION_POINTER as int, ((old_ip + 8) % 0x1_0000_0000) as Word),
        );
    }
    assert forall|regs: Seq<Word>, target: Word| regs.len() == 256 implies (#[trigger] jump_to(
        regs,
        target,
    ))[CYCLE_COUNT_HIGH as int] * 0x1_0000_0000 + jump_to(regs, target)[CYCLE_COUNT_LOW as int]
        == cycle_next(
        regs[CYCLE_COUNT_HIGH as int] * 0x1_0000_0000 + regs[CYCLE_COUNT_LOW as int],
    ) by {
        lemma_bump_cycle_delta(regs.update(INSTRUCTION_POINTER as int, target));
    }
}

/// Counting a cycle leaves every register outside the two counter halves
/// alone.
proof fn lemma_bump_cycle_frame(regs: Seq<Word>, k: int)
    requires
        regs.len() == 256,
        0 <= k < 256,
        k != CYCLE_COUNT_HIGH,
        k != CYCLE_COUNT_LOW,
    ensures
        bump_cycle(regs).len() == 256,
        bump_cycle(regs)[k] == regs[k],
{
}

/// Counting a cycle adds one to the 64-bit counter, wrapping at its top.
proof fn lemma_bump_cycle_delta(regs: Seq<Word>)
    requires
        regs.len() == 256,
    ensures
        bump_cycle(regs).len() == 256,
        bump_cycle(regs)[CYCLE_COUNT_HIGH as int] * 0x1_0000_0000 + bump_cycle(regs)[
            CYCLE_COUNT_LOW as int
        ] == cycle_next(
            regs[CYCLE_COUNT_HIGH as int] * 0x1_0000_0000 + regs[CYCLE_COUNT_LOW as int],
        ),
{
}

/// The cycle counter's successor, wrapping at the 64-bit top.
pub open spec fn cycle_next(c: int) -> int {
    if c == 0xFFFF_FFFF_FFFF_FFFF {
        0
    } else {
        c + 1
    }
}

/// On a fetchable, decodable, non-halt instruction, one tick is exactly
/// the instruction's effect.
proof fn lemma_step_is_exec(pre: VmState, op: Opcode, ms: u64, kd: bool)
    requires
        pre.fault is None,
        valid_instruction_address(ip_of(pre)),
        decode_spec(instruction_at(pre.mem, ip_of(pre) as int) as Instruction) == Some(op),
        !(op is HaltAndCatchFire),
    ensures
        step_of(pre, ms, kd) == exec_spec(pre, op, ms, kd),
{
}

/// After any non-jump, non-halt instruction that does not fault, the
/// instruction pointer has moved exactly eight bytes.
pub proof fn lemma_ip_advancement(pre: VmState, op: Opcode, ms: u64, kd: bool)
    requires
        state_wf(pre),
        pre.fault is None,
        valid_instruction_address(ip_of(pre)),
        decode_spec(instruction_at(pre.mem, ip_of(pre) as int) as Instruction) == Some(op),
        !is_control_flow(op),
        !(op is HaltAndCatchFire),
        step_of(pre, ms, kd).fault is None,
    ensures
        ip_of(step_of(pre, ms, kd)) == ip_of(pre) + 8,
{
    lemma_step_is_exec(pre, op, ms, kd);
    match op {
        Opcode::MoveRegisterImmediate { .. } | Opcode::MoveRegisterAddress { .. }
            | Opcode::MoveTargetSource { .. } | Opcode::MoveAddressRegister { .. }
            | Opcode::MoveTargetPointer { .. } | Opcode::MovePointerSource { .. } => {
            lemma_ip_after_move(pre, op, ms, kd);
        },
        Opcode::AddTargetLhsRhs { .. } | Opcode::AddTargetSourceImmediate { .. }
            | Opcode::SubtractTargetLhsRhs { .. } | Opcode::SubtractTargetSourceImmediate { .. }
            | Opcode::SubtractWithCarryTargetLhsRhs { .. } | Opcode::MultiplyHighLowLhsRhs { .. }
            | Opcode::DivmodTargetModLhsRhs { .. } => {
            lemma_ip_after_arith(pre, op, ms, kd);
        },
        Opcode::AndTargetLhsRhs { .. } | Opcode::OrTargetLhsRhs { .. } | Opcode::XorTargetLhsRhs {
            ..
        } | Opcode::NotTargetSource { .. } | Opcode::LeftShiftTargetLhsRhs { .. }
            | Opcode::RightShiftTargetLhsRhs { .. } | Opcode::CompareTargetLhsRhs { .. } => {
            lemma_ip_after_bitwise(pre, op, ms, kd);
        },
        _ => {
            lemma_ip_after_rest(pre, op, ms, kd);
        },
    }
}

/// The instruction pointer after a data-movement instruction.
proof fn lemma_ip_after_move(pre: VmState, op: Opcode, ms: u64, kd: bool)
    requires
        state_wf(pre),
        pre.fault is None,
        ip_of(pre) + 8 <= MEMORY_SIZE,
        op is MoveRegisterImmediate || op is MoveRegisterAddress || op is MoveTargetSource
            || op is MoveAddressRegister || op is MoveTargetPointer || op is MovePointerSource,
        exec_spec(pre, op, ms, kd).fault is None,
    ensures
        ip_of(exec_spec(pre, op, ms, kd)) == ip_of(pre) + 8,
{
    lemma_retire_frames();
}

/// The instruction pointer after an arithmetic instruction.
proof fn lemma_ip_after_arith(pre: VmState, op: Opcode, ms: u64, kd: bool)
    requires
        state_wf(pre),
        pre.fault is None,
        ip_of(pre) + 8 <= MEMORY_SIZE,
        op is AddTargetLhsRhs || op is AddTargetSourceImmediate || op is SubtractTargetLhsRhs
            || op is SubtractTargetSourceImmediate || op is SubtractWithCarryTargetLhsRhs
            || op is MultiplyHighLowLhsRhs || op is DivmodTargetModLhsRhs,
        exec_spec(pre, op, ms, kd).fault is None,
    ensures
        ip_of(exec_spec(pre, op, ms, kd)) == ip_of(pre) + 8,
{
    lemma_retire_frames();
}

/// The instruction pointer after a bitwise, shift or compare
/// instruction.
#[verifier::rlimit(100)]
proof fn lemma_ip_after_bitwise(pre: VmState, op: Opcode, ms: u64, kd: bool)
    requires
        state_wf(pre),
        pre.fault is None,
        ip_of(pre) + 8 <= MEMORY_SIZE,
        op is AndTargetLhsRhs || op is OrTargetLhsRhs || op is XorTargetLhsRhs
            || op is NotTargetSource || op is LeftShiftTargetLhsRhs
            || op is RightShiftTargetLhsRhs || op is CompareTargetLhsRhs,
        exec_spec(pre, op, ms, kd).fault is None,
    ensures
        ip_of(exec_spec(pre, op, ms, kd)) == ip_of(pre) + 8,
{
    lemma_retire_frames();
}

/// The instruction pointer after a push, pop or peripheral instruction.
#[verifier::rlimit(100)]
proof fn lemma_ip_after_rest(pre: VmState, op: Opcode, ms: u64, kd: bool)
    requires
        state_wf(pre),
        pre.fault is None,
        ip_of(pre) + 8 <= MEMORY_SIZE,
        op is PushRegister || op is PopRegister || op is PollTime || op is GetKeyState,
        exec_spec(pre, op, ms, kd).fault is None,
    ensures
        ip_of(exec_spec(pre, op, ms, kd)) == ip_of(pre) + 8,
{
    lemma_retire_frames();
}

/// An arithmetic or bitwise instruction modifies no register besides its
/// declared targets, the flags, the instruction pointer and the cycle
/// counter; in particular its operand registers keep their values.
pub proof fn lemma_register_invariance(pre: VmState, op: Opcode, ms: u64, kd: bool, r: u8)
    requires
        state_wf(pre),
        pre.fault is None,
        valid_instruction_address(ip_of(pre)),
        decode_spec(instruction_at(pre.mem, ip_of(pre) as int) as Instruction) == Some(op),
        is_arith_or_bitwise(op),
        !declared_target(op, r),
        r != INSTRUCTION_POINTER,
        r != FLAGS,
        r != CYCLE_COUNT_HIGH,
        r != CYCLE_COUNT_LOW,
    ensures
        reg_val(step_of(pre, ms, kd), r) == reg_val(pre, r),
{
    lemma_step_is_exec(pre, op, ms, kd);
    match op {
        Opcode::AddTargetLhsRhs { .. } | Opcode::AddTargetSourceImmediate { .. }
            | Opcode::SubtractTargetLhsRhs { .. } | Opcode::SubtractTargetSourceImmediate { .. }
            | Opcode::SubtractWithCarryTargetLhsRhs { .. } | Opcode::MultiplyHighLowLhsRhs { .. }
            | Opcode::DivmodTargetModLhsRhs { .. } => {
            lemma_untouched_by_arith(pre, op, ms, kd, r);
        },
        Opcode::LeftShiftTargetLhsRhs { .. } | Opcode::RightShiftTargetLhsRhs { .. } => {
            lemma_untouched_by_shift(pre, op, ms, kd, r);
        },
        _ => {
            lemma_untouched_by_bitwise(pre, op, ms, kd, r);
        },
    }
}

/// Registers an arithmetic instruction leaves alone.
proof fn lemma_untouched_by_arith(pre: VmState, op: Opcode, ms: u64, kd: bool, r: u8)
    requires
        state_wf(pre),
        pre.fault is None,
        op is AddTargetLhsRhs || op is AddTargetSourceImmediate || op is SubtractTargetLhsRhs
            || op is SubtractTargetSourceImmediate || op is SubtractWithCarryTargetLhsRhs
            || op is MultiplyHighLowLhsRhs || op is DivmodTargetModLhsRhs,
        !declared_target(op, r),
        r != INSTRUCTION_POINTER,
        r != FLAGS,
        r != CYCLE_COUNT_HIGH,
        r != CYCLE_COUNT_LOW,
    ensures
        reg_val(exec_spec(pre, op, ms, kd), r) == reg_val(pre, r),
{
    lemma_retire_frames();
}

/// Registers a bitwise or compare instruction leaves alone.
#[verifier::rlimit(100)]
proof fn lemma_untouched_by_bitwise(pre: VmState, op: Opcode, ms: u64, kd: bool, r: u8)
    requires
        state_wf(pre),
        pre.fault is None,
        op is AndTargetLhsRhs || op is OrTargetLhsRhs || op is XorTargetLhsRhs
            || op is NotTargetSource || op is CompareTargetLhsRhs,
        !declared_target(op, r),
        r != INSTRUCTION_POINTER,
        r != FLAGS,
        r != CYCLE_COUNT_HIGH,
        r != CYCLE_COUNT_LOW,
    ensures
        reg_val(exec_spec(pre, op, ms, kd), r) == reg_val(pre, r),
{
    lemma_retire_frames();
}

/// A register other than the target keeps its value after writing a
/// result and the Zero and Carry flags.
proof fn lemma_arith_state_frame(
    pre: VmState,
    target: u8,
    result: Word,
    zero: bool,
    carry: bool,
    r: u8,
)
    requires
        state_wf(pre),
        r != target,
        r != INSTRUCTION_POINTER,
        r != FLAGS,
        r != CYCLE_COUNT_HIGH,
        r != CYCLE_COUNT_LOW,
    ensures
        reg_val(arith_state(pre, target, result, zero, carry), r) == reg_val(pre, r),
{
    lemma_retire_frames();
}

/// Registers a shift instruction leaves alone.
proof fn lemma_untouched_by_shift(pre: VmState, op: Opcode, ms: u64, kd: bool, r: u8)
    requires
        state_wf(pre),
        pre.fault is None,
        op is LeftShiftTargetLhsRhs || op is RightShiftTargetLhsRhs,
        !declared_target(op, r),
        r != INSTRUCTION_POINTER,
        r != FLAGS,
        r != CYCLE_COUNT_HIGH,
        r != CYCLE_COUNT_LOW,
    ensures
        reg_val(exec_spec(pre, op, ms, kd), r) == reg_val(pre, r),
{
    match op {
        Opcode::LeftShiftTargetLhsRhs { target, lhs, rhs } => {
            let a = pre.regs[lhs.0 as int];
            let b = pre.regs[rhs.0 as int];
            if b >= 32 {
                lemma_arith_state_frame(pre, target.0, 0, true, a != 0, r);
            } else {
                let wide = a * pow2(b as nat);
                lemma_arith_state_frame(
                    pre,
                    target.0,
                    wrap32(wide),
                    wrap32(wide) == 0,
                    wide >= 0x1_0000_0000,
                    r,
                );
            }
        },
        Opcode::RightShiftTargetLhsRhs { target, lhs, rhs } => {
            let a = pre.regs[lhs.0 as int];
            let b = pre.regs[rhs.0 as int];
            if b >= 32 {
                lemma_arith_state_frame(pre, target.0, 0, true, a != 0, r);
            } else {
                let result = (a as int / pow2(b as nat) as int) as Word;
                let lost = a as int % pow2(b as nat) as int != 0;
                lemma_arith_state_frame(pre, target.0, result, result == 0, lost, r);
            }
        },
        _ => {},
    }
}

/// Every non-halted tick that does not fault increases the cycle counter
/// by exactly one (stated away from the wrap at the 64-bit limit).
pub proof fn lemma_cycle_monotonicity(pre: VmState, op: Opcode, ms: u64, kd: bool)
    requires
        state_wf(pre),
        pre.fault is None,
        valid_instruction_address(ip_of(pre)),
        decode_spec(instruction_at(pre.mem, ip_of(pre) as int) as Instruction) == Some(op),
        !(op is HaltAndCatchFire),
        step_of(pre, ms, kd).fault is None,
        cycle_of(pre) < 0xFFFF_FFFF_FFFF_FFFF,
    ensures
        cycle_of(step_of(pre, ms, kd)) == cycle_of(pre) + 1,
{
    lemma_step_is_exec(pre, op, ms, kd);
    match op {
        Opcode::MoveRegisterImmediate { .. } | Opcode::MoveRegisterAddress { .. }
            | Opcode::MoveTargetSource { .. } | Opcode::MoveAddressRegister { .. }
            | Opcode::MoveTargetPointer { .. } | Opcode::MovePointerSource { .. } => {
            lemma_cycle_after_move(pre, op, ms, kd);
        },
        Opcode::AddTargetLhsRhs { .. } | Opcode::AddTargetSourceImmediate { .. }
            | Opcode::SubtractTargetLhsRhs { .. } | Opcode::SubtractTargetSourceImmediate { .. }
            | Opcode::SubtractWithCarryTargetLhsRhs { .. } | Opcode::MultiplyHighLowLhsRhs { .. }
            | Opcode::DivmodTargetModLhsRhs { .. } => {
            lemma_cycle_after_arith(pre, op, ms, kd);
        },
        Opcode::AndTargetLhsRhs { .. } | Opcode::OrTargetLhsRhs { .. } | Opcode::XorTargetLhsRhs {
            ..
        } | Opcode::NotTargetSource { .. } | Opcode::CompareTargetLhsRhs { .. } => {
            lemma_cycle_after_bitwise(pre, op, ms, kd);
        },
        Opcode::LeftShiftTargetLhsRhs { .. } | Opcode::RightShiftTargetLhsRhs { .. } => {
            lemma_cycle_after_shift(pre, op, ms, kd);
        },
        Opcode::JumpAddress { .. } | Opcode::JumpRegister { .. } | Opcode::JumpAddressIfEqual {
            ..
        } | Opcode::JumpAddressIfGreaterThan { .. } | Opcode::JumpAddressIfLessThan { .. }
            | Opcode::JumpAddressIfLessThanOrEqual { .. }
            | Opcode::JumpAddressIfGreaterThanOrEqual { .. } | Opcode::JumpAddressIfZero { .. }
            | Opcode::JumpAddressIfNotZero { .. } | Opcode::JumpAddressIfCarry { .. }
            | Opcode::JumpAddressIfNotCarry { .. } | Opcode::JumpAddressIfDivideByZero { .. }
            | Opcode::JumpAddressIfNotDivideByZero { .. } => {
            lemma_cycle_after_jump(pre, op, ms, kd);
        },
        Opcode::PushRegister { .. } | Opcode::PopRegister { .. } | Opcode::CallAddress { .. }
            | Opcode::Return { .. } => {
            lemma_cycle_after_stack(pre, op, ms, kd);
        },
        _ => {
            lemma_cycle_after_rest(pre, op, ms, kd);
        },
    }
}

/// The cycle counter after a data-movement instruction.
proof fn lemma_cycle_after_move(pre: VmState, op: Opcode, ms: u64, kd: bool)
    requires
        state_wf(pre),
        pre.fault is None,
        op is MoveRegisterImmediate || op is MoveRegisterAddress || op is MoveTargetSource
            || op is MoveAddressRegister || op is MoveTargetPointer || op is MovePointerSource,
        exec_spec(pre, op, ms, kd).fault is None,
        cycle_of(pre) < 0xFFFF_FFFF_FFFF_FFFF,
    ensures
        cycle_of(exec_spec(pre, op, ms, kd)) == cycle_of(pre) + 1,
{
    lemma_retire_frames();
}

/// The cycle counter after an arithmetic instruction.
proof fn lemma_cycle_after_arith(pre: VmState, op: Opcode, ms: u64, kd: bool)
    requires
        state_wf(pre),
        pre.fault is None,
        op is AddTargetLhsRhs || op is AddTargetSourceImmediate || op is SubtractTargetLhsRhs
            || op is SubtractTargetSourceImmediate || op is SubtractWithCarryTargetLhsRhs
            || op is MultiplyHighLowLhsRhs || op is DivmodTargetModLhsRhs,
        exec_spec(pre, op, ms, kd).fault is None,
        cycle_of(pre) < 0xFFFF_FFFF_FFFF_FFFF,
    ensures
        cycle_of(exec_spec(pre, op, ms, kd)) == cycle_of(pre) + 1,
{
    lemma_retire_frames();
}

/// The cycle counter after a bitwise or compare instruction.
#[verifier::rlimit(100)]
proof fn lemma_cycle_after_bitwise(pre: VmState, op: Opcode, ms: u64, kd: bool)
    requires
        state_wf(pre),
        pre.fault is None,
        op is AndTargetLhsRhs || op is OrTargetLhsRhs || op is XorTargetLhsRhs
            || op is NotTargetSource || op is CompareTargetLhsRhs,
        exec_spec(pre, op, ms, kd).fault is None,
        cycle_of(pre) < 0xFFFF_FFFF_FFFF_FFFF,
    ensures
        cycle_of(exec_spec(pre, op, ms, kd)) == cycle_of(pre) + 1,
{
    lemma_retire_frames();
}

/// The cycle counter after writing a result and the Zero and Carry
/// flags.
proof fn lemma_cycle_after_arith_state(pre: VmState, target: u8, result: Word, zero: bool, carry: bool)
    requires
        state_wf(pre),
        cycle_of(pre) < 0xFFFF_FFFF_FFFF_FFFF,
    ensures
        cycle_of(arith_state(pre, target, result, zero, carry)) == cycle_of(pre) + 1,
{
    lemma_retire_frames();
}

/// The cycle counter after a shift instruction.
proof fn lemma_cycle_after_shift(pre: VmState, op: Opcode, ms: u64, kd: bool)
    requires
        state_wf(pre),
        pre.fault is None,
        op is LeftShiftTargetLhsRhs || op is RightShiftTargetLhsRhs,
        exec_spec(pre, op, ms, kd).fault is None,
        cycle_of(pre) < 0xFFFF_FFFF_FFFF_FFFF,
    ensures
        cycle_of(exec_spec(pre, op, ms, kd)) == cycle_of(pre) + 1,
{
    match op {
        Opcode::LeftShiftTargetLhsRhs { target, lhs, rhs } => {
            let a = pre.regs[lhs.0 as int];
            let b = pre.regs[rhs.0 as int];
            if b >= 32 {
                lemma_cycle_after_arith_state(pre, target.0, 0, true, a != 0);
            } else {
                let wide = a * pow2(b as nat);
                lemma_cycle_after_arith_state(
                    pre,
                    target.0,
                    wrap32(wide),
                    wrap32(wide) == 0,
                    wide >= 0x1_0000_0000,
                );
            }
        },
        Opcode::RightShiftTargetLhsRhs { target, lhs, rhs } => {
            let a = pre.regs[lhs.0 as int];
            let b = pre.regs[rhs.0 as int];
            if b >= 32 {
                lemma_cycle_after_arith_state(pre, target.0, 0, true, a != 0);
            } else {
                let result = (a as int / pow2(b as nat) as int) as Word;
                let lost = a as int % pow2(b as nat) as int != 0;
                lemma_cycle_after_arith_state(pre, target.0, result, result == 0, lost);
            }
        },
        _ => {},
    }
}

/// The cycle counter after a jump.
#[verifier::rlimit(100)]
proof fn lemma_cycle_after_jump(pre: VmState, op: Opcode, ms: u64, kd: bool)
    requires
        state_wf(pre),
        pre.fault is None,
        op is JumpAddress || op is JumpRegister || op is JumpAddressIfEqual
            || op is JumpAddressIfGreaterThan || op is JumpAddressIfLessThan
            || op is JumpAddressIfLessThanOrEqual || op is JumpAddressIfGreaterThanOrEqual
            || op is JumpAddressIfZero || op is JumpAddressIfNotZero || op is JumpAddressIfCarry
            || op is JumpAddressIfNotCarry || op is JumpAddressIfDivideByZero
            || op is JumpAddressIfNotDivideByZero,
        exec_spec(pre, op, ms, kd).fault is None,
        cycle_of(pre) < 0xFFFF_FFFF_FFFF_FFFF,
    ensures
        cycle_of(exec_spec(pre, op, ms, kd)) == cycle_of(pre) + 1,
{
    lemma_retire_frames();
}

/// The cycle counter after a stack or subroutine instruction.
#[verifier::rlimit(100)]
proof fn lemma_cycle_after_stack(pre: VmState, op: Opcode, ms: u64, kd: bool)
    requires
        state_wf(pre),
        pre.fault is None,
        op is PushRegister || op is PopRegister || op is CallAddress || op is Return,
        exec_spec(pre, op, ms, kd).fault is None,
        cycle_of(pre) < 0xFFFF_FFFF_FFFF_FFFF,
    ensures
        cycle_of(exec_spec(pre, op, ms, kd)) == cycle_of(pre) + 1,
{
    lemma_retire_frames();
}

/// The cycle counter after a peripheral instruction.
#[verifier::rlimit(100)]
proof fn lemma_cycle_after_rest(pre: VmState, op: Opcode, ms: u64, kd: bool)
    requires
        state_wf(pre),
        pre.fault is None,
        op is PollTime || op is GetKeyState,
        exec_spec(pre, op, ms, kd).fault is None,
        cycle_of(pre) < 0xFFFF_FFFF_FFFF_FFFF,
    ensures
        cycle_of(exec_spec(pre, op, ms, kd)) == cycle_of(pre) + 1,
{
    lemma_retire_frames();
}

/// A tick whose instruction consults no peripheral is deterministic:
/// the timer's and keyboard's answers cannot matter.
#[verifier::rlimit(100)]
pub proof fn lemma_step_deterministic(
    pre: VmState,
    op: Opcode,
    ms1: u64,
    kd1: bool,
    ms2: u64,
    kd2: bool,
)
    requires
        pre.fault is None,
        valid_instruction_address(ip_of(pre)),
        decode_spec(instruction_at(pre.mem, ip_of(pre) as int) as Instruction) == Some(op),
        !(op is PollTime),
        !(op is GetKeyState),
    ensures
        step_of(pre, ms1, kd1) == step_of(pre, ms2, kd2),
{
}

/// A push or call that does not fault moves the stack pointer up one
/// word and keeps it inside the stack region; alignment to whole words
/// is preserved.
pub proof fn lemma_stack_discipline_push(pre: VmState, op: Opcode, ms: u64, kd: bool)
    requires
        state_wf(pre),
        pre.fault is None,
        op is PushRegister || op is CallAddress,
        exec_spec(pre, op, ms, kd).fault is None,
    ensures
        sp_of(exec_spec(pre, op, ms, kd)) == sp_of(pre) + 4,
        STACK_START < sp_of(exec_spec(pre, op, ms, kd)) <= STACK_START + STACK_SIZE,
        sp_of(pre) % 4 == 0 ==> sp_of(exec_spec(pre, op, ms, kd)) % 4 == 0,
{
    lemma_retire_frames();
    match op {
        Opcode::PushRegister { .. } => {},
        Opcode::CallAddress { .. } => {},
        _ => {},
    }
}

/// A pop or return that does not fault moves the stack pointer down one
/// word and keeps it inside the stack region; alignment to whole words
/// is preserved. A pop whose target is the stack pointer register
/// itself is left out: there the popped word wins.
pub proof fn lemma_stack_discipline_pop(pre: VmState, target: Register, ms: u64, kd: bool)
    requires
        state_wf(pre),
        pre.fault is None,
        target.0 != STACK_POINTER,
        exec_spec(pre, Opcode::PopRegister { register: target }, ms, kd).fault is None,
    ensures
        sp_of(exec_spec(pre, Opcode::PopRegister { register: target }, ms, kd)) == sp_of(pre) - 4,
        STACK_START <= sp_of(exec_spec(pre, Opcode::PopRegister { register: target }, ms, kd))
            < STACK_START + STACK_SIZE,
        sp_of(pre) % 4 == 0 ==> sp_of(
            exec_spec(pre, Opcode::PopRegister { register: target }, ms, kd),
        ) % 4 == 0,
{
    lemma_retire_frames();
}

/// A return that does not fault moves the stack pointer down one word
/// and keeps it inside the stack region, preserving alignment.
pub proof fn lemma_stack_discipline_return(pre: VmState, ms: u64, kd: bool)
    requires
        state_wf(pre),
        pre.fault is None,
        exec_spec(pre, Opcode::Return {  }, ms, kd).fault is None,
    ensures
        sp_of(exec_spec(pre, Opcode::Return {  }, ms, kd)) == sp_of(pre) - 4,
        STACK_START <= sp_of(exec_spec(pre, Opcode::Return {  }, ms, kd)) < STACK_START
            + STACK_SIZE,
        sp_of(pre) % 4 == 0 ==> sp_of(exec_spec(pre, Opcode::Return {  }, ms, kd)) % 4 == 0,
{
    lemma_retire_frames();
}

/// Whether `r` is an ordinary data register: none of the stack pointer,
/// instruction pointer or cycle-count registers, whose values the stack
/// instructions themselves manage.
pub open spec fn ordinary_register(r: u8) -> bool {
    r != STACK_POINTER && r != INSTRUCTION_POINTER && r != CYCLE_COUNT_HIGH && r != CYCLE_COUNT_LOW
}

/// The state after pushing the registers of `sources`, one after the
/// other.
pub open spec fn run_pushes(s: VmState, sources: Seq<u8>) -> VmState
    decreases sources.len(),
{
    if sources.len() == 0 {
        s
    } else {
        run_pushes(
            exec_spec(s, Opcode::PushRegister { register: Register(sources[0]) }, 0, false),
            sources.skip(1),
        )
    }
}

/// The state after popping into the registers of `targets`, one after
/// the other.
pub open spec fn run_pops(s: VmState, targets: Seq<u8>) -> VmState
    decreases targets.len(),
{
    if targets.len() == 0 {
        s
    } else {
        run_pops(
            exec_spec(s, Opcode::PopRegister { register: Register(targets[0]) }, 0, false),
            targets.skip(1),
        )
    }
}

/// What one push does: the stack pointer climbs one word, the pushed
/// slot takes the source's value, every ordinary register keeps its
/// value, and no fault arises.
proof fn lemma_push_step(s: VmState, r: u8)
    requires
        state_wf(s),
        s.fault is None,
        ordinary_register(r),
        STACK_START <= sp_of(s),
        sp_of(s) + 4 <= STACK_START + STACK_SIZE,
    ensures
        ({
            let s1 = exec_spec(s, Opcode::PushRegister { register: Register(r) }, 0, false);
            &&& state_wf(s1)
            &&& s1.fault is None
            &&& sp_of(s1) == sp_of(s) + 4
            &&& forall|k: u8| ordinary_register(k) ==> #[trigger] reg_val(s1, k) == reg_val(s, k)
            &&& s1.mem == mem_with_word(s.mem, sp_of(s) as int, reg_val(s, r))
        }),
{
    lemma_retire_frames();
}

/// What a run of pushes does: the stack pointer climbs one word per
/// push, the pushed slots hold the sources' values, every other byte of
/// memory and every ordinary register keep their values, and no fault
/// arises.
#[verifier::rlimit(100)]
proof fn lemma_pushes(s: VmState, sources: Seq<u8>)
    requires
        state_wf(s),
        s.fault is None,
        STACK_START <= sp_of(s),
        sp_of(s) + 4 * sources.len() <= STACK_START + STACK_SIZE,
        forall|i: int| 0 <= i < sources.len() ==> ordinary_register(#[trigger] sources[i]),
    ensures
        ({
            let f = run_pushes(s, sources);
            let sp = sp_of(s) as int;
            &&& state_wf(f)
            &&& f.fault is None
            &&& sp_of(f) == sp + 4 * sources.len()
            &&& forall|r: u8| ordinary_register(r) ==> #[trigger] reg_val(f, r) == reg_val(s, r)
            &&& forall|a: int|
                sp <= a < sp + 4 * sources.len() && (a - sp) % 4 == 0 ==> #[trigger] word_at(
                    f.mem,
                    a,
                ) == reg_val(s, sources[(a - sp) / 4])
            &&& forall|a: int|
                0 <= a < MEMORY_SIZE && !(sp <= a < sp + 4 * sources.len()) ==> #[trigger] f.mem[a]
                    == s.mem[a]
        }),
    decreases sources.len(),
{
    if sources.len() == 0 {
    } else {
        let sp = sp_of(s) as int;
        lemma_push_step(s, sources[0]);
        let pushed = exec_spec(
            s,
            Opcode::PushRegister { register: Register(sources[0]) },
            0,
            false,
        );
        crate::memory::lemma_word_write_read(s.mem, sp, reg_val(s, sources[0]));
        lemma_pushes(pushed, sources.skip(1));
        let f = run_pushes(pushed, sources.skip(1));
        assert(run_pushes(s, sources) == f);
        assert(sp_of(f) == sp + 4 * sources.len());
        assert forall|a: int|
            sp <= a < sp + 4 * sources.len() && (a - sp) % 4 == 0 implies #[trigger] word_at(
            f.mem,
            a,
        ) == reg_val(s, sources[(a - sp) / 4]) by {
            if a < sp + 4 {
                assert(a == sp);
                assert(f.mem[sp] == pushed.mem[sp]);
                assert(f.mem[sp + 1] == pushed.mem[sp + 1]);
                assert(f.mem[sp + 2] == pushed.mem[sp + 2]);
                assert(f.mem[sp + 3] == pushed.mem[sp + 3]);
                assert(word_at(f.mem, sp) == word_at(pushed.mem, sp));
            } else {
                let d = (a - sp) / 4;
                assert(a - (sp + 4) == 4 * (d - 1));
                assert(word_at(f.mem, a) == reg_val(pushed, sources.skip(1)[d - 1]));
                assert(sources.skip(1)[d - 1] == sources[d]);
            }
        }
        assert forall|a: int|
            0 <= a < MEMORY_SIZE && !(sp <= a < sp + 4 * sources.len()) implies #[trigger] f.mem[a]
            == s.mem[a] by {
            assert(f.mem[a] == pushed.mem[a]);
        }
    }
}

/// What one pop does: the stack pointer descends one word, the target
/// register takes the word its slot held, every other ordinary register
/// keeps its value, memory is untouched, and no fault arises.
proof fn lemma_pop_step(s: VmState, r: u8)
    requires
        state_wf(s),
        s.fault is None,
        ordinary_register(r),
        STACK_START + 4 <= sp_of(s),
        sp_of(s) <= STACK_START + STACK_SIZE,
    ensures
        ({
            let s1 = exec_spec(s, Opcode::PopRegister { register: Register(r) }, 0, false);
            &&& state_wf(s1)
            &&& s1.fault is None
            &&& s1.mem == s.mem
            &&& sp_of(s1) == sp_of(s) - 4
            &&& reg_val(s1, r) == word_at(s.mem, sp_of(s) - 4)
            &&& forall|k: u8|
                ordinary_register(k) && k != r ==> #[trigger] reg_val(s1, k) == reg_val(s, k)
        }),
{
    lemma_retire_frames();
}

/// What a run of pops does: the stack pointer descends one word per
/// pop, each pop hands the word its slot held to its target register,
/// memory is untouched, registers that no pop targets keep their
/// values, and no fault arises.
#[verifier::rlimit(100)]
proof fn lemma_pops(s: VmState, targets: Seq<u8>, vals: Seq<Word>)
    requires
        state_wf(s),
        s.fault is None,
        targets.len() == vals.len(),
        sp_of(s) == STACK_START + 4 * targets.len(),
        4 * targets.len() <= STACK_SIZE,
        forall|j: int| 0 <= j < targets.len() ==> ordinary_register(#[trigger] targets[j]),
        forall|a: int|
            STACK_START <= a < STACK_START + 4 * vals.len() && (a - STACK_START) % 4 == 0
                ==> #[trigger] word_at(s.mem, a) == vals[(a - STACK_START) / 4],
    ensures
        ({
            let f = run_pops(s, targets);
            &&& state_wf(f)
            &&& f.fault is None
            &&& sp_of(f) == STACK_START
            &&& f.mem == s.mem
            &&& forall|r: u8|
                ordinary_register(r) && (forall|j: int|
                    0 <= j < targets.len() ==> targets[j] != r) ==> #[trigger] reg_val(f, r)
                    == reg_val(s, r)
            &&& forall|j: int|
                0 <= j < targets.len() && (forall|j2: int|
                    j < j2 < targets.len() ==> targets[j2] != targets[j]) ==> #[trigger] reg_val(
                    f,
                    targets[j],
                ) == vals[targets.len() - 1 - j]
        }),
    decreases targets.len(),
{
    if targets.len() == 0 {
    } else {
        let m = targets.len() as int;
        assert(word_at(s.mem, STACK_START + 4 * (m - 1)) == vals[m - 1]);
        lemma_pop_step(s, targets[0]);
        let popped = exec_spec(
            s,
            Opcode::PopRegister { register: Register(targets[0]) },
            0,
            false,
        );
        assert(reg_val(popped, targets[0]) == vals[m - 1]);
        lemma_pops(popped, targets.skip(1), vals.take(m - 1));
        let f = run_pops(popped, targets.skip(1));
        assert(run_pops(s, targets) == f);
        assert forall|r: u8|
            ordinary_register(r) && (forall|j: int|
                0 <= j < targets.len() ==> targets[j] != r) implies #[trigger] reg_val(f, r)
            == reg_val(s, r) by {
            assert(forall|j: int| 0 <= j < m - 1 ==> #[trigger] targets.skip(1)[j] != r);
            assert(reg_val(f, r) == reg_val(popped, r));
            assert(reg_val(popped, r) == reg_val(s, r));
        }
        assert forall|j: int|
            0 <= j < targets.len() && (forall|j2: int|
                j < j2 < targets.len() ==> targets[j2] != targets[j]) implies #[trigger] reg_val(
            f,
            targets[j],
        ) == vals[targets.len() - 1 - j] by {
            if j == 0 {
                assert(forall|j2: int|
                    0 <= j2 < m - 1 ==> #[trigger] targets.skip(1)[j2] != targets[0]);
                assert(reg_val(f, targets[0]) == reg_val(popped, targets[0]));
            } else {
                assert(targets.skip(1)[j - 1] == targets[j]);
                assert(forall|j2: int|
                    j - 1 < j2 < m - 1 ==> #[trigger] targets.skip(1)[j2] != targets.skip(1)[j
                        - 1]);
                assert(reg_val(f, targets.skip(1)[j - 1]) == vals.take(m - 1)[(m - 1) - 1 - (j
                    - 1)]);
                assert(vals.take(m - 1)[m - 1 - j] == vals[m - 1 - j]);
            }
        }
    }
}

/// Pushing a sequence of registers and then popping the same number of
/// words in reverse restores the pushed values in reverse order and
/// leaves the stack pointer back at the stack start.
///
/// The pop targets may repeat; a target register ends up with the value
/// of its last pop. Register indices with an architectural role (the
/// stack pointer, the instruction pointer and the two cycle-count
/// registers) are excluded: the stack instructions themselves maintain
/// them.
pub proof fn lemma_stack_round_trip(s0: VmState, sources: Seq<u8>, targets: Seq<u8>)
    requires
        state_wf(s0),
        s0.fault is None,
        sp_of(s0) == STACK_START,
        sources.len() == targets.len(),
        4 * sources.len() <= STACK_SIZE,
        forall|i: int| 0 <= i < sources.len() ==> ordinary_register(#[trigger] sources[i]),
        forall|j: int| 0 <= j < targets.len() ==> ordinary_register(#[trigger] targets[j]),
    ensures
        ({
            let f = run_pops(run_pushes(s0, sources), targets);
            &&& state_wf(f)
            &&& f.fault is None
            &&& sp_of(f) == STACK_START
            &&& forall|j: int|
                0 <= j < targets.len() && (forall|j2: int|
                    j < j2 < targets.len() ==> targets[j2] != targets[j]) ==> #[trigger] reg_val(
                    f,
                    targets[j],
                ) == reg_val(s0, sources[sources.len() - 1 - j])
        }),
{
    lemma_pushes(s0, sources);
    let mid = run_pushes(s0, sources);
    let vals = Seq::new(sources.len(), |i: int| reg_val(s0, sources[i]));
    assert forall|a: int|
        STACK_START <= a < STACK_START + 4 * vals.len() && (a - STACK_START) % 4 == 0
        implies #[trigger] word_at(mid.mem, a) == vals[(a - STACK_START) / 4] by {
        assert(word_at(mid.mem, a) == reg_val(s0, sources[(a - STACK_START) / 4]));
    }
    lemma_pops(mid, targets, vals);
    let f = run_pops(mid, targets);
    assert forall|j: int|
        0 <= j < targets.len() && (forall|j2: int|
            j < j2 < targets.len() ==> targets[j2] != targets[j]) implies #[trigger] reg_val(
        f,
        targets[j],
    ) == reg_val(s0, sources[sources.len() - 1 - j]) by {
        assert(reg_val(f, targets[j]) == vals[targets.len() - 1 - j]);
    }
}

} // verus!
