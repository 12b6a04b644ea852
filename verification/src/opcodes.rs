//! The instruction set: one variant per mnemonic, and the bidirectional
//! mapping between a variant and its 64-bit encoded form.
//!
//! An encoded instruction carries a 16-bit tag in its high bits; the
//! remaining 48 bits hold the operands, packed left-to-right in declared
//! order: register indices take 8 bits, immediates and addresses 32 bits.
//! Bits that no operand claims must be zero, so decoding is injective and
//! `encode` and `decode` are exact inverses.

use vstd::prelude::*;

use crate::{Address, Instruction, Register, Word};

verus! {

/// An instruction of the machine, with operands by name.
#[derive(Clone, Copy, Debug, PartialEq, Eq, Structural)]
pub enum Opcode {
    MoveRegisterImmediate { register: Register, immediate: Word },
    MoveRegisterAddress { register: Register, address: Address },
    MoveTargetSource { target: Register, source: Register },
    MoveAddressRegister { address: Address, register: Register },
    MoveTargetPointer { target: Register, pointer: Register },
    MovePointerSource { pointer: Register, source: Register },
    AddTargetLhsRhs { target: Register, lhs: Register, rhs: Register },
    AddTargetSourceImmediate { target: Register, source: Register, immediate: Word },
    SubtractTargetLhsRhs { target: Register, lhs: Register, rhs: Register },
    SubtractTargetSourceImmediate { target: Register, source: Register, immediate: Word },
    SubtractWithCarryTargetLhsRhs { target: Register, lhs: Register, rhs: Register },
    MultiplyHighLowLhsRhs { high: Register, low: Register, lhs: Register, rhs: Register },
    DivmodTargetModLhsRhs { result: Register, remainder: Register, lhs: Register, rhs: Register },
    AndTargetLhsRhs { target: Register, lhs: Register, rhs: Register },
    OrTargetLhsRhs { target: Register, lhs: Register, rhs: Register },
    XorTargetLhsRhs { target: Register, lhs: Register, rhs: Register },
    NotTargetSource { target: Register, source: Register },
    LeftShiftTargetLhsRhs { target: Register, lhs: Register, rhs: Register },
    RightShiftTargetLhsRhs { target: Register, lhs: Register, rhs: Register },
    CompareTargetLhsRhs { target: Register, lhs: Register, rhs: Register },
    JumpAddress { address: Address },
    JumpRegister { register: Register },
    JumpAddressIfEqual { register: Register, address: Address },
    JumpAddressIfGreaterThan { register: Register, address: Address },
    JumpAddressIfLessThan { register: Register, address: Address },
    JumpAddressIfLessThanOrEqual { register: Register, address: Address },
    JumpAddressIfGreaterThanOrEqual { register: Register, address: Address },
    JumpAddressIfZero { address: Address },
    JumpAddressIfNotZero { address: Address },
    JumpAddressIfCarry { address: Address },
    JumpAddressIfNotCarry { address: Address },
    JumpAddressIfDivideByZero { address: Address },
    JumpAddressIfNotDivideByZero { address: Address },
    PushRegister { register: Register },
    PopRegister { register: Register },
    CallAddress { address: Address },
    Return {},
    HaltAndCatchFire {},
    PollTime { high: Register, low: Register },
    GetKeyState { target: Register, keycode: Register },
}

/// The error of decoding a 64-bit word whose tag is unknown or whose
/// operands violate the field layout.
#[derive(Clone, Copy, Debug, PartialEq, Eq, Structural)]
pub struct InvalidOpcode {
    pub instruction: Instruction,
}

// Packing: the operand layouts that occur in the instruction set, as
// arithmetic over the byte positions of a 64-bit big-endian value.

/// Tag, one register at bits 47..40, one word at bits 39..8.
pub open spec fn pack_reg_word(tag: u16, r: u8, w: Word) -> int {
    tag * 0x1_0000_0000_0000 + r * 0x100_0000_0000 + w * 0x100
}

/// Tag, one word at bits 47..16, one register at bits 15..8.
pub open spec fn pack_word_reg(tag: u16, w: Word, r: u8) -> int {
    tag * 0x1_0000_0000_0000 + w * 0x1_0000 + r * 0x100
}

/// Tag and up to four registers at bits 47..40, 39..32, 31..24, 23..16.
pub open spec fn pack_regs(tag: u16, r1: u8, r2: u8, r3: u8, r4: u8) -> int {
    tag * 0x1_0000_0000_0000 + r1 * 0x100_0000_0000 + r2 * 0x1_0000_0000 + r3 * 0x100_0000 + r4
        * 0x1_0000
}

/// Tag, two registers, then a word in the lowest 32 bits.
pub open spec fn pack_reg_reg_word(tag: u16, r1: u8, r2: u8, w: Word) -> int {
    tag * 0x1_0000_0000_0000 + r1 * 0x100_0000_0000 + r2 * 0x1_0000_0000 + w
}

// Field extraction from a 64-bit value, by bit position.

pub open spec fn field_tag(w: Instruction) -> u16 {
    ((w as int) / 0x1_0000_0000_0000) as u16
}

pub open spec fn field_reg1(w: Instruction) -> u8 {
    (((w as int) / 0x100_0000_0000) % 0x100) as u8
}

pub open spec fn field_reg2(w: Instruction) -> u8 {
    (((w as int) / 0x1_0000_0000) % 0x100) as u8
}

pub open spec fn field_reg3(w: Instruction) -> u8 {
    (((w as int) / 0x100_0000) % 0x100) as u8
}

pub open spec fn field_reg4(w: Instruction) -> u8 {
    (((w as int) / 0x1_0000) % 0x100) as u8
}

/// The register slot at bits 15..8, used when a word precedes it.
pub open spec fn field_reg_last(w: Instruction) -> u8 {
    (((w as int) / 0x100) % 0x100) as u8
}

/// The word slot at bits 47..16.
pub open spec fn field_word_high(w: Instruction) -> Word {
    (((w as int) / 0x1_0000) % 0x1_0000_0000) as Word
}

/// The word slot at bits 39..8.
pub open spec fn field_word_mid(w: Instruction) -> Word {
    (((w as int) / 0x100) % 0x1_0000_0000) as Word
}

/// The word slot at bits 31..0.
pub open spec fn field_word_low(w: Instruction) -> Word {
    ((w as int) % 0x1_0000_0000) as Word
}

/// The unique tag of each opcode variant.
pub open spec fn tag_of(op: Opcode) -> u16 {
    match op {
        Opcode::MoveRegisterImmediate { .. } => 0,
        Opcode::MoveRegisterAddress { .. } => 1,
        Opcode::MoveTargetSource { .. } => 2,
        Opcode::MoveAddressRegister { .. } => 3,
        Opcode::MoveTargetPointer { .. } => 4,
        Opcode::MovePointerSource { .. } => 5,
        Opcode::AddTargetLhsRhs { .. } => 6,
        Opcode::AddTargetSourceImmediate { .. } => 7,
        Opcode::SubtractTargetLhsRhs { .. } => 8,
        Opcode::SubtractTargetSourceImmediate { .. } => 9,
        Opcode::SubtractWithCarryTargetLhsRhs { .. } => 10,
        Opcode::MultiplyHighLowLhsRhs { .. } => 11,
        Opcode::DivmodTargetModLhsRhs { .. } => 12,
        Opcode::AndTargetLhsRhs { .. } => 13,
        Opcode::OrTargetLhsRhs { .. } => 14,
        Opcode::XorTargetLhsRhs { .. } => 15,
        Opcode::NotTargetSource { .. } => 16,
        Opcode::LeftShiftTargetLhsRhs { .. } => 17,
        Opcode::RightShiftTargetLhsRhs { .. } => 18,
        Opcode::CompareTargetLhsRhs { .. } => 19,
        Opcode::JumpAddress { .. } => 20,
        Opcode::JumpRegister { .. } => 21,
        Opcode::JumpAddressIfEqual { .. } => 22,
        Opcode::JumpAddressIfGreaterThan { .. } => 23,
        Opcode::JumpAddressIfLessThan { .. } => 24,
        Opcode::JumpAddressIfLessThanOrEqual { .. } => 25,
        Opcode::JumpAddressIfGreaterThanOrEqual { .. } => 26,
        Opcode::JumpAddressIfZero { .. } => 27,
        Opcode::JumpAddressIfNotZero { .. } => 28,
        Opcode::JumpAddressIfCarry { .. } => 29,
        Opcode::JumpAddressIfNotCarry { .. } => 30,
        Opcode::JumpAddressIfDivideByZero { .. } => 31,
        Opcode::JumpAddressIfNotDivideByZero { .. } => 32,
        Opcode::PushRegister { .. } => 33,
        Opcode::PopRegister { .. } => 34,
        Opcode::CallAddress { .. } => 35,
        Opcode::Return { .. } => 36,
        Opcode::HaltAndCatchFire { .. } => 37,
        Opcode::PollTime { .. } => 38,
        Opcode::GetKeyState { .. } => 39,
    }
}

/// The 64-bit encoding of an opcode, as a mathematical integer.
#[verifier::opaque]
pub open spec fn encode_spec(op: Opcode) -> int {
    match op {
        Opcode::MoveRegisterImmediate { register, immediate } => pack_reg_word(
            0,
            register.0,
            immediate,
        ),
        Opcode::MoveRegisterAddress { register, address } => pack_reg_word(1, register.0, address),
        Opcode::MoveTargetSource { target, source } => pack_regs(2, target.0, source.0, 0, 0),
        Opcode::MoveAddressRegister { address, register } => pack_word_reg(3, address, register.0),
        Opcode::MoveTargetPointer { target, pointer } => pack_regs(4, target.0, pointer.0, 0, 0),
        Opcode::MovePointerSource { pointer, source } => pack_regs(5, pointer.0, source.0, 0, 0),
        Opcode::AddTargetLhsRhs { target, lhs, rhs } => pack_regs(6, target.0, lhs.0, rhs.0, 0),
        Opcode::AddTargetSourceImmediate { target, source, immediate } => pack_reg_reg_word(
            7,
            target.0,
            source.0,
            immediate,
        ),
        Opcode::SubtractTargetLhsRhs { target, lhs, rhs } => pack_regs(
            8,
            target.0,
            lhs.0,
            rhs.0,
            0,
        ),
        Opcode::SubtractTargetSourceImmediate { target, source, immediate } => pack_reg_reg_word(
            9,
            target.0,
            source.0,
            immediate,
        ),
        Opcode::SubtractWithCarryTargetLhsRhs { target, lhs, rhs } => pack_regs(
            10,
            target.0,
            lhs.0,
            rhs.0,
            0,
        ),
        Opcode::MultiplyHighLowLhsRhs { high, low, lhs, rhs } => pack_regs(
            11,
            high.0,
            low.0,
            lhs.0,
            rhs.0,
        ),
        Opcode::DivmodTargetModLhsRhs { result, remainder, lhs, rhs } => pack_regs(
            12,
            result.0,
            remainder.0,
            lhs.0,
            rhs.0,
        ),
        Opcode::AndTargetLhsRhs { target, lhs, rhs } => pack_regs(13, target.0, lhs.0, rhs.0, 0),
        Opcode::OrTargetLhsRhs { target, lhs, rhs } => pack_regs(14, target.0, lhs.0, rhs.0, 0),
        Opcode::XorTargetLhsRhs { target, lhs, rhs } => pack_regs(15, target.0, lhs.0, rhs.0, 0),
        Opcode::NotTargetSource { target, source } => pack_regs(16, target.0, source.0, 0, 0),
        Opcode::LeftShiftTargetLhsRhs { target, lhs, rhs } => pack_regs(
            17,
            target.0,
            lhs.0,
            rhs.0,
            0,
        ),
        Opcode::RightShiftTargetLhsRhs { target, lhs, rhs } => pack_regs(
            18,
            target.0,
            lhs.0,
            rhs.0,
            0,
        ),
        Opcode::CompareTargetLhsRhs { target, lhs, rhs } => pack_regs(
            19,
            target.0,
            lhs.0,
            rhs.0,
            0,
        ),
        Opcode::JumpAddress { address } => pack_word_reg(20, address, 0),
        Opcode::JumpRegister { register } => pack_regs(21, register.0, 0, 0, 0),
        Opcode::JumpAddressIfEqual { register, address } => pack_reg_word(22, register.0, address),
        Opcode::JumpAddressIfGreaterThan { register, address } => pack_reg_word(
            23,
            register.0,
            address,
        ),
        Opcode::JumpAddressIfLessThan { register, address } => pack_reg_word(
            24,
            register.0,
            address,
        ),
        Opcode::JumpAddressIfLessThanOrEqual { register, address } => pack_reg_word(
            25,
            register.0,
            address,
        ),
        Opcode::JumpAddressIfGreaterThanOrEqual { register, address } => pack_reg_word(
            26,
            register.0,
            address,
        ),
        Opcode::JumpAddressIfZero { address } => pack_word_reg(27, address, 0),
        Opcode::JumpAddressIfNotZero { address } => pack_word_reg(28, address, 0),
        Opcode::JumpAddressIfCarry { address } => pack_word_reg(29, address, 0),
        Opcode::JumpAddressIfNotCarry { address } => pack_word_reg(30, address, 0),
        Opcode::JumpAddressIfDivideByZero { address } => pack_word_reg(31, address, 0),
        Opcode::JumpAddressIfNotDivideByZero { address } => pack_word_reg(32, address, 0),
        Opcode::PushRegister { register } => pack_regs(33, register.0, 0, 0, 0),
        Opcode::PopRegister { register } => pack_regs(34, register.0, 0, 0, 0),
        Opcode::CallAddress { address } => pack_word_reg(35, address, 0),
        Opcode::Return {  } => pack_regs(36, 0, 0, 0, 0),
        Opcode::HaltAndCatchFire {  } => pack_regs(37, 0, 0, 0, 0),
        Opcode::PollTime { high, low } => pack_regs(38, high.0, low.0, 0, 0),
        Opcode::GetKeyState { target, keycode } => pack_regs(39, target.0, keycode.0, 0, 0),
    }
}

/// The candidate opcode a 64-bit word denotes, before the layout check.
///
/// Slicing the operand fields of `w` positionally for the tag's layout
/// gives a candidate; `w` decodes to it exactly when re-encoding the
/// candidate reproduces `w`, which also forces all unclaimed bits to zero.
#[verifier::opaque]
pub open spec fn candidate_spec(w: Instruction) -> Option<Opcode> {
    let tag = field_tag(w);
    if tag == 0 {
        Some(
            Opcode::MoveRegisterImmediate {
                register: Register(field_reg1(w)),
                immediate: field_word_mid(w),
            },
        )
    } else if tag == 1 {
        Some(
            Opcode::MoveRegisterAddress {
                register: Register(field_reg1(w)),
                address: field_word_mid(w),
            },
        )
    } else if tag == 2 {
        Some(
            Opcode::MoveTargetSource {
                target: Register(field_reg1(w)),
                source: Register(field_reg2(w)),
            },
        )
    } else if tag == 3 {
        Some(
            Opcode::MoveAddressRegister {
                address: field_word_high(w),
                register: Register(field_reg_last(w)),
            },
        )
    } else if tag == 4 {
        Some(
            Opcode::MoveTargetPointer {
                target: Register(field_reg1(w)),
                pointer: Register(field_reg2(w)),
            },
        )
    } else if tag == 5 {
        Some(
            Opcode::MovePointerSource {
                pointer: Register(field_reg1(w)),
                source: Register(field_reg2(w)),
            },
        )
    } else if tag == 6 {
        Some(
            Opcode::AddTargetLhsRhs {
                target: Register(field_reg1(w)),
                lhs: Register(field_reg2(w)),
                rhs: Register(field_reg3(w)),
            },
        )
    } else if tag == 7 {
        Some(
            Opcode::AddTargetSourceImmediate {
                target: Register(field_reg1(w)),
                source: Register(field_reg2(w)),
                immediate: field_word_low(w),
            },
        )
    } else if tag == 8 {
        Some(
            Opcode::SubtractTargetLhsRhs {
                target: Register(field_reg1(w)),
                lhs: Register(field_reg2(w)),
                rhs: Register(field_reg3(w)),
            },
        )
    } else if tag == 9 {
        Some(
            Opcode::SubtractTargetSourceImmediate {
                target: Register(field_reg1(w)),
                source: Register(field_reg2(w)),
                immediate: field_word_low(w),
            },
        )
    } else if tag == 10 {
        Some(
            Opcode::SubtractWithCarryTargetLhsRhs {
                target: Register(field_reg1(w)),
                lhs: Register(field_reg2(w)),
                rhs: Register(field_reg3(w)),
            },
        )
    } else if tag == 11 {
        Some(
            Opcode::MultiplyHighLowLhsRhs {
                high: Register(field_reg1(w)),
                low: Register(field_reg2(w)),
                lhs: Register(field_reg3(w)),
                rhs: Register(field_reg4(w)),
            },
        )
    } else if tag == 12 {
        Some(
            Opcode::DivmodTargetModLhsRhs {
                result: Register(field_reg1(w)),
                remainder: Register(field_reg2(w)),
                lhs: Register(field_reg3(w)),
                rhs: Register(field_reg4(w)),
            },
        )
    } else if tag == 13 {
        Some(
            Opcode::AndTargetLhsRhs {
                target: Register(field_reg1(w)),
                lhs: Register(field_reg2(w)),
                rhs: Register(field_reg3(w)),
            },
        )
    } else if tag == 14 {
        Some(
            Opcode::OrTargetLhsRhs {
                target: Register(field_reg1(w)),
                lhs: Register(field_reg2(w)),
                rhs: Register(field_reg3(w)),
            },
        )
    } else if tag == 15 {
        Some(
            Opcode::XorTargetLhsRhs {
                target: Register(field_reg1(w)),
                lhs: Register(field_reg2(w)),
                rhs: Register(field_reg3(w)),
            },
        )
    } else if tag == 16 {
        Some(
            Opcode::NotTargetSource {
                target: Register(field_reg1(w)),
                source: Register(field_reg2(w)),
            },
        )
    } else if tag == 17 {
        Some(
            Opcode::LeftShiftTargetLhsRhs {
                target: Register(field_reg1(w)),
                lhs: Register(field_reg2(w)),
                rhs: Register(field_reg3(w)),
            },
        )
    } else if tag == 18 {
        Some(
            Opcode::RightShiftTargetLhsRhs {
                target: Register(field_reg1(w)),
                lhs: Register(field_reg2(w)),
                rhs: Register(field_reg3(w)),
            },
        )
    } else if tag == 19 {
        Some(
            Opcode::CompareTargetLhsRhs {
                target: Register(field_reg1(w)),
                lhs: Register(field_reg2(w)),
                rhs: Register(field_reg3(w)),
            },
        )
    } else if tag == 20 {
        Some(Opcode::JumpAddress { address: field_word_high(w) })
    } else if tag == 21 {
        Some(Opcode::JumpRegister { register: Register(field_reg1(w)) })
    } else if tag == 22 {
        Some(
            Opcode::JumpAddressIfEqual {
                register: Register(field_reg1(w)),
                address: field_word_mid(w),
            },
        )
    } else if tag == 23 {
        Some(
            Opcode::JumpAddressIfGreaterThan {
                register: Register(field_reg1(w)),
                address: field_word_mid(w),
            },
        )
    } else if tag == 24 {
        Some(
            Opcode::JumpAddressIfLessThan {
                register: Register(field_reg1(w)),
                address: field_word_mid(w),
            },
        )
    } else if tag == 25 {
        Some(
            Opcode::JumpAddressIfLessThanOrEqual {
                register: Register(field_reg1(w)),
                address: field_word_mid(w),
            },
        )
    } else if tag == 26 {
        Some(
            Opcode::JumpAddressIfGreaterThanOrEqual {
                register: Register(field_reg1(w)),
                address: field_word_mid(w),
            },
        )
    } else if tag == 27 {
        Some(Opcode::JumpAddressIfZero { address: field_word_high(w) })
    } else if tag == 28 {
        Some(Opcode::JumpAddressIfNotZero { address: field_word_high(w) })
    } else if tag == 29 {
        Some(Opcode::JumpAddressIfCarry { address: field_word_high(w) })
    } else if tag == 30 {
        Some(Opcode::JumpAddressIfNotCarry { address: field_word_high(w) })
    } else if tag == 31 {
        Some(Opcode::JumpAddressIfDivideByZero { address: field_word_high(w) })
    } else if tag == 32 {
        Some(Opcode::JumpAddressIfNotDivideByZero { address: field_word_high(w) })
    } else if tag == 33 {
        Some(Opcode::PushRegister { register: Register(field_reg1(w)) })
    } else if tag == 34 {
        Some(Opcode::PopRegister { register: Register(field_reg1(w)) })
    } else if tag == 35 {
        Some(Opcode::CallAddress { address: field_word_high(w) })
    } else if tag == 36 {
        Some(Opcode::Return {  })
    } else if tag == 37 {
        Some(Opcode::HaltAndCatchFire {  })
    } else if tag == 38 {
        Some(
            Opcode::PollTime { high: Register(field_reg1(w)), low: Register(field_reg2(w)) },
        )
    } else if tag == 39 {
        Some(
            Opcode::GetKeyState {
                target: Register(field_reg1(w)),
                keycode: Register(field_reg2(w)),
            },
        )
    } else {
        None
    }
}

/// The opcode a 64-bit word decodes to, if any.
pub open spec fn decode_spec(w: Instruction) -> Option<Opcode> {
    match candidate_spec(w) {
        Some(op) => if encode_spec(op) == w {
            Some(op)
        } else {
            None
        },
        None => None,
    }
}

impl Opcode {
    /// The 64-bit encoded form of this opcode.
    pub fn encode(&self) -> (r: Instruction)
        ensures
            r == encode_spec(*self),
    {
        proof {
            reveal(encode_spec);
        }
        match *self {
            Opcode::MoveRegisterImmediate { register, immediate } => encode_reg_word(
                0,
                register.0,
                immediate,
            ),
            Opcode::MoveRegisterAddress { register, address } => encode_reg_word(
                1,
                register.0,
                address,
            ),
            Opcode::MoveTargetSource { target, source } => encode_regs(2, target.0, source.0, 0, 0),
            Opcode::MoveAddressRegister { address, register } => encode_word_reg(
                3,
                address,
                register.0,
            ),
            Opcode::MoveTargetPointer { target, pointer } => encode_regs(
                4,
                target.0,
                pointer.0,
                0,
                0,
            ),
            Opcode::MovePointerSource { pointer, source } => encode_regs(
                5,
                pointer.0,
                source.0,
                0,
                0,
            ),
            Opcode::AddTargetLhsRhs { target, lhs, rhs } => encode_regs(
                6,
                target.0,
                lhs.0,
                rhs.0,
                0,
            ),
            Opcode::AddTargetSourceImmediate { target, source, immediate } => encode_reg_reg_word(
                7,
                target.0,
                source.0,
                immediate,
            ),
            Opcode::SubtractTargetLhsRhs { target, lhs, rhs } => encode_regs(
                8,
                target.0,
                lhs.0,
                rhs.0,
                0,
            ),
            Opcode::SubtractTargetSourceImmediate { target, source, immediate } =>
                encode_reg_reg_word(9, target.0, source.0, immediate),
            Opcode::SubtractWithCarryTargetLhsRhs { target, lhs, rhs } => encode_regs(
                10,
                target.0,
                lhs.0,
                rhs.0,
                0,
            ),
            Opcode::MultiplyHighLowLhsRhs { high, low, lhs, rhs } => encode_regs(
                11,
                high.0,
                low.0,
                lhs.0,
                rhs.0,
            ),
            Opcode::DivmodTargetModLhsRhs { result, remainder, lhs, rhs } => encode_regs(
                12,
                result.0,
                remainder.0,
                lhs.0,
                rhs.0,
            ),
            Opcode::AndTargetLhsRhs { target, lhs, rhs } => encode_regs(
                13,
                target.0,
                lhs.0,
                rhs.0,
                0,
            ),
            Opcode::OrTargetLhsRhs { target, lhs, rhs } => encode_regs(
                14,
                target.0,
                lhs.0,
                rhs.0,
                0,
            ),
            Opcode::XorTargetLhsRhs { target, lhs, rhs } => encode_regs(
                15,
                target.0,
                lhs.0,
                rhs.0,
                0,
            ),
            Opcode::NotTargetSource { target, source } => encode_regs(16, target.0, source.0, 0, 0),
            Opcode::LeftShiftTargetLhsRhs { target, lhs, rhs } => encode_regs(
                17,
                target.0,
                lhs.0,
                rhs.0,
                0,
            ),
            Opcode::RightShiftTargetLhsRhs { target, lhs, rhs } => encode_regs(
                18,
                target.0,
                lhs.0,
                rhs.0,
                0,
            ),
            Opcode::CompareTargetLhsRhs { target, lhs, rhs } => encode_regs(
                19,
                target.0,
                lhs.0,
                rhs.0,
                0,
            ),
            Opcode::JumpAddress { address } => encode_word_reg(20, address, 0),
            Opcode::JumpRegister { register } => encode_regs(21, register.0, 0, 0, 0),
            Opcode::JumpAddressIfEqual { register, address } => encode_reg_word(
                22,
                register.0,
                address,
            ),
            Opcode::JumpAddressIfGreaterThan { register, address } => encode_reg_word(
                23,
                register.0,
                address,
            ),
            Opcode::JumpAddressIfLessThan { register, address } => encode_reg_word(
                24,
                register.0,
                address,
            ),
            Opcode::JumpAddressIfLessThanOrEqual { register, address } => encode_reg_word(
                25,
                register.0,
                address,
            ),
            Opcode::JumpAddressIfGreaterThanOrEqual { register, address } => encode_reg_word(
                26,
                register.0,
                address,
            ),
            Opcode::JumpAddressIfZero { address } => encode_word_reg(27, address, 0),
            Opcode::JumpAddressIfNotZero { address } => encode_word_reg(28, address, 0),
            Opcode::JumpAddressIfCarry { address } => encode_word_reg(29, address, 0),
            Opcode::JumpAddressIfNotCarry { address } => encode_word_reg(30, address, 0),
            Opcode::JumpAddressIfDivideByZero { address } => encode_word_reg(31, address, 0),
            Opcode::JumpAddressIfNotDivideByZero { address } => encode_word_reg(32, address, 0),
            Opcode::PushRegister { register } => encode_regs(33, register.0, 0, 0, 0),
            Opcode::PopRegister { register } => encode_regs(34, register.0, 0, 0, 0),
            Opcode::CallAddress { address } => encode_word_reg(35, address, 0),
            Opcode::Return {  } => encode_regs(36, 0, 0, 0, 0),
            Opcode::HaltAndCatchFire {  } => encode_regs(37, 0, 0, 0, 0),
            Opcode::PollTime { high, low } => encode_regs(38, high.0, low.0, 0, 0),
            Opcode::GetKeyState { target, keycode } => encode_regs(39, target.0, keycode.0, 0, 0),
        }
    }

    /// Decode a 64-bit word, failing with `InvalidOpcode` when its tag is
    /// unknown or any bit outside the tag's operand fields is set.
    pub fn decode(w: Instruction) -> (r: Result<Opcode, InvalidOpcode>)
        ensures
            match decode_spec(w) {
                Some(op) => r == Ok::<Opcode, InvalidOpcode>(op),
                None => r == Err::<Opcode, InvalidOpcode>(InvalidOpcode { instruction: w }),
            },
    {
        proof {
            reveal(candidate_spec);
        }
        let tag = (w / 0x1_0000_0000_0000) as u16;
        let r1 = Register(((w / 0x100_0000_0000) % 0x100) as u8);
        let r2 = Register(((w / 0x1_0000_0000) % 0x100) as u8);
        let r3 = Register(((w / 0x100_0000) % 0x100) as u8);
        let r4 = Register(((w / 0x1_0000) % 0x100) as u8);
        let r_last = Register(((w / 0x100) % 0x100) as u8);
        let word_high = ((w / 0x1_0000) % 0x1_0000_0000) as Word;
        let word_mid = ((w / 0x100) % 0x1_0000_0000) as Word;
        let word_low = (w % 0x1_0000_0000) as Word;
        let candidate: Option<Opcode> = match tag {
            0 => Some(Opcode::MoveRegisterImmediate { register: r1, immediate: word_mid }),
            1 => Some(Opcode::MoveRegisterAddress { register: r1, address: word_mid }),
            2 => Some(Opcode::MoveTargetSource { target: r1, source: r2 }),
            3 => Some(Opcode::MoveAddressRegister { address: word_high, register: r_last }),
            4 => Some(Opcode::MoveTargetPointer { target: r1, pointer: r2 }),
            5 => Some(Opcode::MovePointerSource { pointer: r1, source: r2 }),
            6 => Some(Opcode::AddTargetLhsRhs { target: r1, lhs: r2, rhs: r3 }),
            7 => Some(
                Opcode::AddTargetSourceImmediate { target: r1, source: r2, immediate: word_low },
            ),
            8 => Some(Opcode::SubtractTargetLhsRhs { target: r1, lhs: r2, rhs: r3 }),
            9 => Some(
                Opcode::SubtractTargetSourceImmediate {
                    target: r1,
                    source: r2,
                    immediate: word_low,
                },
            ),
            10 => Some(Opcode::SubtractWithCarryTargetLhsRhs { target: r1, lhs: r2, rhs: r3 }),
            11 => Some(Opcode::MultiplyHighLowLhsRhs { high: r1, low: r2, lhs: r3, rhs: r4 }),
            12 => Some(
                Opcode::DivmodTargetModLhsRhs { result: r1, remainder: r2, lhs: r3, rhs: r4 },
            ),
            13 => Some(Opcode::AndTargetLhsRhs { target: r1, lhs: r2, rhs: r3 }),
            14 => Some(Opcode::OrTargetLhsRhs { target: r1, lhs: r2, rhs: r3 }),
            15 => Some(Opcode::XorTargetLhsRhs { target: r1, lhs: r2, rhs: r3 }),
            16 => Some(Opcode::NotTargetSource { target: r1, source: r2 }),
            17 => Some(Opcode::LeftShiftTargetLhsRhs { target: r1, lhs: r2, rhs: r3 }),
            18 => Some(Opcode::RightShiftTargetLhsRhs { target: r1, lhs: r2, rhs: r3 }),
            19 => Some(Opcode::CompareTargetLhsRhs { target: r1, lhs: r2, rhs: r3 }),
            20 => Some(Opcode::JumpAddress { address: word_high }),
            21 => Some(Opcode::JumpRegister { register: r1 }),
            22 => Some(Opcode::JumpAddressIfEqual { register: r1, address: word_mid }),
            23 => Some(Opcode::JumpAddressIfGreaterThan { register: r1, address: word_mid }),
            24 => Some(Opcode::JumpAddressIfLessThan { register: r1, address: word_mid }),
            25 => Some(Opcode::JumpAddressIfLessThanOrEqual { register: r1, address: word_mid }),
            26 => Some(
                Opcode::JumpAddressIfGreaterThanOrEqual { register: r1, address: word_mid },
            ),
            27 => Some(Opcode::JumpAddressIfZero { address: word_high }),
            28 => Some(Opcode::JumpAddressIfNotZero { address: word_high }),
            29 => Some(Opcode::JumpAddressIfCarry { address: word_high }),
            30 => Some(Opcode::JumpAddressIfNotCarry { address: word_high }),
            31 => Some(Opcode::JumpAddressIfDivideByZero { address: word_high }),
            32 => Some(Opcode::JumpAddressIfNotDivideByZero { address: word_high }),
            33 => Some(Opcode::PushRegister { register: r1 }),
            34 => Some(Opcode::PopRegister { register: r1 }),
            35 => Some(Opcode::CallAddress { address: word_high }),
            36 => Some(Opcode::Return {  }),
            37 => Some(Opcode::HaltAndCatchFire {  }),
            38 => Some(Opcode::PollTime { high: r1, low: r2 }),
            39 => Some(Opcode::GetKeyState { target: r1, keycode: r2 }),
            _ => None,
        };
        match candidate {
            Some(op) => {
                if op.encode() == w {
                    Ok(op)
                } else {
                    Err(InvalidOpcode { instruction: w })
                }
            },
            None => Err(InvalidOpcode { instruction: w }),
        }
    }
}

// Executable packing, one function per operand layout.

fn encode_reg_word(tag: u16, r: u8, w: Word) -> (v: Instruction)
    ensures
        v == pack_reg_word(tag, r, w),
{
    (tag as u64) * 0x1_0000_0000_0000 + (r as u64) * 0x100_0000_0000 + (w as u64) * 0x100
}

fn encode_word_reg(tag: u16, w: Word, r: u8) -> (v: Instruction)
    ensures
        v == pack_word_reg(tag, w, r),
{
    (tag as u64) * 0x1_0000_0000_0000 + (w as u64) * 0x1_0000 + (r as u64) * 0x100
}

fn encode_regs(tag: u16, r1: u8, r2: u8, r3: u8, r4: u8) -> (v: Instruction)
    ensures
        v == pack_regs(tag, r1, r2, r3, r4),
{
    (tag as u64) * 0x1_0000_0000_0000 + (r1 as u64) * 0x100_0000_0000 + (r2 as u64) * 0x1_0000_0000
        + (r3 as u64) * 0x100_0000 + (r4 as u64) * 0x1_0000
}

fn encode_reg_reg_word(tag: u16, r1: u8, r2: u8, w: Word) -> (v: Instruction)
    ensures
        v == pack_reg_reg_word(tag, r1, r2, w),
{
    (tag as u64) * 0x1_0000_0000_0000 + (r1 as u64) * 0x100_0000_0000 + (r2 as u64) * 0x1_0000_0000
        + (w as u64)
}

// Unpacking lemmas: slicing the fields of a packed value recovers them.

proof fn lemma_unpack_reg_word(tag: u16, r: u8, w: Word)
    requires
        tag < 0x100,
    ensures
        0 <= pack_reg_word(tag, r, w) < 0x1_0000_0000_0000_0000,
        field_tag(pack_reg_word(tag, r, w) as Instruction) == tag,
        field_reg1(pack_reg_word(tag, r, w) as Instruction) == r,
        field_word_mid(pack_reg_word(tag, r, w) as Instruction) == w,
{
    let v = pack_reg_word(tag, r, w);
    assert(0 <= v < 0x1_0000_0000_0000_0000);
    let vu = v as Instruction;
    assert(vu / 0x1_0000_0000_0000 == tag as u64 && (vu / 0x100_0000_0000) % 0x100 == r as u64 && (
    vu / 0x100) % 0x1_0000_0000 == w as u64) by (bit_vector)
        requires
            vu == (tag as u64) * 0x1_0000_0000_0000 + (r as u64) * 0x100_0000_0000 + (w as u64)
                * 0x100 && tag < 0x100,
    ;
}

proof fn lemma_unpack_word_reg(tag: u16, w: Word, r: u8)
    requires
        tag < 0x100,
    ensures
        0 <= pack_word_reg(tag, w, r) < 0x1_0000_0000_0000_0000,
        field_tag(pack_word_reg(tag, w, r) as Instruction) == tag,
        field_word_high(pack_word_reg(tag, w, r) as Instruction) == w,
        field_reg_last(pack_word_reg(tag, w, r) as Instruction) == r,
{
    let v = pack_word_reg(tag, w, r);
    assert(0 <= v < 0x1_0000_0000_0000_0000);
    let vu = v as Instruction;
    assert(vu / 0x1_0000_0000_0000 == tag as u64 && (vu / 0x1_0000) % 0x1_0000_0000 == w as u64 && (
    vu / 0x100) % 0x100 == r as u64) by (bit_vector)
        requires
            vu == (tag as u64) * 0x1_0000_0000_0000 + (w as u64) * 0x1_0000 + (r as u64) * 0x100
                && tag < 0x100,
    ;
}

proof fn lemma_unpack_regs(tag: u16, r1: u8, r2: u8, r3: u8, r4: u8)
    requires
        tag < 0x100,
    ensures
        0 <= pack_regs(tag, r1, r2, r3, r4) < 0x1_0000_0000_0000_0000,
        field_tag(pack_regs(tag, r1, r2, r3, r4) as Instruction) == tag,
        field_reg1(pack_regs(tag, r1, r2, r3, r4) as Instruction) == r1,
        field_reg2(pack_regs(tag, r1, r2, r3, r4) as Instruction) == r2,
        field_reg3(pack_regs(tag, r1, r2, r3, r4) as Instruction) == r3,
        field_reg4(pack_regs(tag, r1, r2, r3, r4) as Instruction) == r4,
{
    let v = pack_regs(tag, r1, r2, r3, r4);
    assert(0 <= v < 0x1_0000_0000_0000_0000);
    let vu = v as Instruction;
    assert(vu / 0x1_0000_0000_0000 == tag as u64 && (vu / 0x100_0000_0000) % 0x100 == r1 as u64 && (
    vu / 0x1_0000_0000) % 0x100 == r2 as u64 && (vu / 0x100_0000) % 0x100 == r3 as u64 && (vu
        / 0x1_0000) % 0x100 == r4 as u64) by (bit_vector)
        requires
            vu == (tag as u64) * 0x1_0000_0000_0000 + (r1 as u64) * 0x100_0000_0000 + (r2 as u64)
                * 0x1_0000_0000 + (r3 as u64) * 0x100_0000 + (r4 as u64) * 0x1_0000 && tag < 0x100,
    ;
}

proof fn lemma_unpack_reg_reg_word(tag: u16, r1: u8, r2: u8, w: Word)
    requires
        tag < 0x100,
    ensures
        0 <= pack_reg_reg_word(tag, r1, r2, w) < 0x1_0000_0000_0000_0000,
        field_tag(pack_reg_reg_word(tag, r1, r2, w) as Instruction) == tag,
        field_reg1(pack_reg_reg_word(tag, r1, r2, w) as Instruction) == r1,
        field_reg2(pack_reg_reg_word(tag, r1, r2, w) as Instruction) == r2,
        field_word_low(pack_reg_reg_word(tag, r1, r2, w) as Instruction) == w,
{
    let v = pack_reg_reg_word(tag, r1, r2, w);
    assert(0 <= v < 0x1_0000_0000_0000_0000);
    let vu = v as Instruction;
    assert(vu / 0x1_0000_0000_0000 == tag as u64 && (vu / 0x100_0000_0000) % 0x100 == r1 as u64 && (
    vu / 0x1_0000_0000) % 0x100 == r2 as u64 && vu % 0x1_0000_0000 == w as u64) by (bit_vector)
        requires
            vu == (tag as u64) * 0x1_0000_0000_0000 + (r1 as u64) * 0x100_0000_0000 + (r2 as u64)
                * 0x1_0000_0000 + (w as u64) && tag < 0x100,
    ;
}

/// Every opcode's encoding fits in 64 bits.
pub proof fn lemma_encode_in_range(op: Opcode)
    ensures
        0 <= encode_spec(op) < 0x1_0000_0000_0000_0000,
{
    lemma_decode_encode(op);
}

/// Decoding an encoded opcode restores the opcode exactly, and the
/// encoding's high sixteen bits are the variant's tag.
pub proof fn lemma_decode_encode(op: Opcode)
    ensures
        0 <= encode_spec(op) < 0x1_0000_0000_0000_0000,
        field_tag(encode_spec(op) as Instruction) == tag_of(op),
        decode_spec(encode_spec(op) as Instruction) == Some(op),
{
    reveal(encode_spec);
    reveal(candidate_spec);
    match op {
        Opcode::MoveRegisterImmediate { register, immediate } => {
            lemma_unpack_reg_word(0, register.0, immediate);
        },
        Opcode::MoveRegisterAddress { register, address } => {
            lemma_unpack_reg_word(1, register.0, address);
        },
        Opcode::MoveTargetSource { target, source } => {
            lemma_unpack_regs(2, target.0, source.0, 0, 0);
        },
        Opcode::MoveAddressRegister { address, register } => {
            lemma_unpack_word_reg(3, address, register.0);
        },
        Opcode::MoveTargetPointer { target, pointer } => {
            lemma_unpack_regs(4, target.0, pointer.0, 0, 0);
        },
        Opcode::MovePointerSource { pointer, source } => {
            lemma_unpack_regs(5, pointer.0, source.0, 0, 0);
        },
        Opcode::AddTargetLhsRhs { target, lhs, rhs } => {
            lemma_unpack_regs(6, target.0, lhs.0, rhs.0, 0);
        },
        Opcode::AddTargetSourceImmediate { target, source, immediate } => {
            lemma_unpack_reg_reg_word(7, target.0, source.0, immediate);
        },
        Opcode::SubtractTargetLhsRhs { target, lhs, rhs } => {
            lemma_unpack_regs(8, target.0, lhs.0, rhs.0, 0);
        },
        Opcode::SubtractTargetSourceImmediate { target, source, immediate } => {
            lemma_unpack_reg_reg_word(9, target.0, source.0, immediate);
        },
        Opcode::SubtractWithCarryTargetLhsRhs { target, lhs, rhs } => {
            lemma_unpack_regs(10, target.0, lhs.0, rhs.0, 0);
        },
        Opcode::MultiplyHighLowLhsRhs { high, low, lhs, rhs } => {
            lemma_unpack_regs(11, high.0, low.0, lhs.0, rhs.0);
        },
        Opcode::DivmodTargetModLhsRhs { result, remainder, lhs, rhs } => {
            lemma_unpack_regs(12, result.0, remainder.0, lhs.0, rhs.0);
        },
        Opcode::AndTargetLhsRhs { target, lhs, rhs } => {
            lemma_unpack_regs(13, target.0, lhs.0, rhs.0, 0);
        },
        Opcode::OrTargetLhsRhs { target, lhs, rhs } => {
            lemma_unpack_regs(14, target.0, lhs.0, rhs.0, 0);
        },
        Opcode::XorTargetLhsRhs { target, lhs, rhs } => {
            lemma_unpack_regs(15, target.0, lhs.0, rhs.0, 0);
        },
        Opcode::NotTargetSource { target, source } => {
            lemma_unpack_regs(16, target.0, source.0, 0, 0);
        },
        Opcode::LeftShiftTargetLhsRhs { target, lhs, rhs } => {
            lemma_unpack_regs(17, target.0, lhs.0, rhs.0, 0);
        },
        Opcode::RightShiftTargetLhsRhs { target, lhs, rhs } => {
            lemma_unpack_regs(18, target.0, lhs.0, rhs.0, 0);
        },
        Opcode::CompareTargetLhsRhs { target, lhs, rhs } => {
            lemma_unpack_regs(19, target.0, lhs.0, rhs.0, 0);
        },
        Opcode::JumpAddress { address } => {
            lemma_unpack_word_reg(20, address, 0);
        },
        Opcode::JumpRegister { register } => {
            lemma_unpack_regs(21, register.0, 0, 0, 0);
        },
        Opcode::JumpAddressIfEqual { register, address } => {
            lemma_unpack_reg_word(22, register.0, address);
        },
        Opcode::JumpAddressIfGreaterThan { register, address } => {
            lemma_unpack_reg_word(23, register.0, address);
        },
        Opcode::JumpAddressIfLessThan { register, address } => {
            lemma_unpack_reg_word(24, register.0, address);
        },
        Opcode::JumpAddressIfLessThanOrEqual { register, address } => {
            lemma_unpack_reg_word(25, register.0, address);
        },
        Opcode::JumpAddressIfGreaterThanOrEqual { register, address } => {
            lemma_unpack_reg_word(26, register.0, address);
        },
        Opcode::JumpAddressIfZero { address } => {
            lemma_unpack_word_reg(27, address, 0);
        },
        Opcode::JumpAddressIfNotZero { address } => {
            lemma_unpack_word_reg(28, address, 0);
        },
        Opcode::JumpAddressIfCarry { address } => {
            lemma_unpack_word_reg(29, address, 0);
        },
        Opcode::JumpAddressIfNotCarry { address } => {
            lemma_unpack_word_reg(30, address, 0);
        },
        Opcode::JumpAddressIfDivideByZero { address } => {
            lemma_unpack_word_reg(31, address, 0);
        },
        Opcode::JumpAddressIfNotDivideByZero { address } => {
            lemma_unpack_word_reg(32, address, 0);
        },
        Opcode::PushRegister { register } => {
            lemma_unpack_regs(33, register.0, 0, 0, 0);
        },
        Opcode::PopRegister { register } => {
            lemma_unpack_regs(34, register.0, 0, 0, 0);
        },
        Opcode::CallAddress { address } => {
            lemma_unpack_word_reg(35, address, 0);
        },
        Opcode::Return {  } => {
            lemma_unpack_regs(36, 0, 0, 0, 0);
        },
        Opcode::HaltAndCatchFire {  } => {
            lemma_unpack_regs(37, 0, 0, 0, 0);
        },
        Opcode::PollTime { high, low } => {
            lemma_unpack_regs(38, high.0, low.0, 0, 0);
        },
        Opcode::GetKeyState { target, keycode } => {
            lemma_unpack_regs(39, target.0, keycode.0, 0, 0);
        },
    }
}

/// Re-encoding a successfully decoded word reproduces that word exactly.
pub proof fn lemma_encode_decode(w: Instruction)
    ensures
        decode_spec(w) matches Some(op) ==> encode_spec(op) == w,
{
}

// The opcode catalog: the ABI as data, for export to external
// toolchains.

/// The kind of an operand field.
#[derive(Clone, Copy, Debug, PartialEq, Eq, Structural)]
pub enum FieldKind {
    Register,
    Immediate,
    Address,
}

/// One operand field: its name, kind, and where its bits sit inside the
/// 64-bit encoding, counting offsets from the most significant bit (the
/// tag occupies offsets 0 to 15).
pub struct FieldDescription {
    pub name: &'static str,
    pub kind: FieldKind,
    pub offset_bits: u32,
    pub width_bits: u32,
}

/// One catalog entry: mnemonic, tag, and operand layout.
pub struct OpcodeDescription {
    pub name: &'static str,
    pub tag: u16,
    pub fields: Vec<FieldDescription>,
}

fn reg_field(name: &'static str, offset_bits: u32) -> (r: FieldDescription)
    ensures
        r.name == name,
        r.kind == FieldKind::Register,
        r.offset_bits == offset_bits,
        r.width_bits == 8,
{
    FieldDescription { name, kind: FieldKind::Register, offset_bits, width_bits: 8 }
}

fn imm_field(name: &'static str, offset_bits: u32) -> (r: FieldDescription)
    ensures
        r.name == name,
        r.kind == FieldKind::Immediate,
        r.offset_bits == offset_bits,
        r.width_bits == 32,
{
    FieldDescription { name, kind: FieldKind::Immediate, offset_bits, width_bits: 32 }
}

fn addr_field(name: &'static str, offset_bits: u32) -> (r: FieldDescription)
    ensures
        r.name == name,
        r.kind == FieldKind::Address,
        r.offset_bits == offset_bits,
        r.width_bits == 32,
{
    FieldDescription { name, kind: FieldKind::Address, offset_bits, width_bits: 32 }
}

fn one_field(f0: FieldDescription) -> (r: Vec<FieldDescription>)
    ensures
        r@.len() == 1,
        r@[0] == f0,
{
    let mut r: Vec<FieldDescription> = Vec::new();
    r.push(f0);
    r
}

fn two_fields(f0: FieldDescription, f1: FieldDescription) -> (r: Vec<FieldDescription>)
    ensures
        r@.len() == 2,
        r@[0] == f0,
        r@[1] == f1,
{
    let mut r: Vec<FieldDescription> = Vec::new();
    r.push(f0);
    r.push(f1);
    r
}

fn three_fields(f0: FieldDescription, f1: FieldDescription, f2: FieldDescription) -> (r: Vec<
    FieldDescription,
>)
    ensures
        r@.len() == 3,
        r@[0] == f0,
        r@[1] == f1,
        r@[2] == f2,
{
    let mut r: Vec<FieldDescription> = Vec::new();
    r.push(f0);
    r.push(f1);
    r.push(f2);
    r
}

fn four_fields(
    f0: FieldDescription,
    f1: FieldDescription,
    f2: FieldDescription,
    f3: FieldDescription,
) -> (r: Vec<FieldDescription>)
    ensures
        r@.len() == 4,
        r@[0] == f0,
        r@[1] == f1,
        r@[2] == f2,
        r@[3] == f3,
{
    let mut r: Vec<FieldDescription> = Vec::new();
    r.push(f0);
    r.push(f1);
    r.push(f2);
    r.push(f3);
    r
}

/// Whether `f` is the operand field with the given name, kind, bit
/// offset and bit width.
pub open spec fn field_is(
    f: FieldDescription,
    name: Seq<char>,
    kind: FieldKind,
    offset_bits: u32,
    width_bits: u32,
) -> bool {
    f.name@ == name && f.kind == kind && f.offset_bits == offset_bits && f.width_bits == width_bits
}

/// The mnemonic of the opcode with the given tag.
pub open spec fn catalog_name(tag: u16) -> Seq<char> {
    if tag == 0 {
        "MoveRegisterImmediate"@
    } else if tag == 1 {
        "MoveRegisterAddress"@
    } else if tag == 2 {
        "MoveTargetSource"@
    } else if tag == 3 {
        "MoveAddressRegister"@
    } else if tag == 4 {
        "MoveTargetPointer"@
    } else if tag == 5 {
        "MovePointerSource"@
    } else if tag == 6 {
        "AddTargetLhsRhs"@
    } else if tag == 7 {
        "AddTargetSourceImmediate"@
    } else if tag == 8 {
        "SubtractTargetLhsRhs"@
    } else if tag == 9 {
        "SubtractTargetSourceImmediate"@
    } else if tag == 10 {
        "SubtractWithCarryTargetLhsRhs"@
    } else if tag == 11 {
        "MultiplyHighLowLhsRhs"@
    } else if tag == 12 {
        "DivmodTargetModLhsRhs"@
    } else if tag == 13 {
        "AndTargetLhsRhs"@
    } else if tag == 14 {
        "OrTargetLhsRhs"@
    } else if tag == 15 {
        "XorTargetLhsRhs"@
    } else if tag == 16 {
        "NotTargetSource"@
    } else if tag == 17 {
        "LeftShiftTargetLhsRhs"@
    } else if tag == 18 {
        "RightShiftTargetLhsRhs"@
    } else if tag == 19 {
        "CompareTargetLhsRhs"@
    } else if tag == 20 {
        "JumpAddress"@
    } else if tag == 21 {
        "JumpRegister"@
    } else if tag == 22 {
        "JumpAddressIfEqual"@
    } else if tag == 23 {
        "JumpAddressIfGreaterThan"@
    } else if tag == 24 {
        "JumpAddressIfLessThan"@
    } else if tag == 25 {
        "JumpAddressIfLessThanOrEqual"@
    } else if tag == 26 {
        "JumpAddressIfGreaterThanOrEqual"@
    } else if tag == 27 {
        "JumpAddressIfZero"@
    } else if tag == 28 {
        "JumpAddressIfNotZero"@
    } else if tag == 29 {
        "JumpAddressIfCarry"@
    } else if tag == 30 {
        "JumpAddressIfNotCarry"@
    } else if tag == 31 {
        "JumpAddressIfDivideByZero"@
    } else if tag == 32 {
        "JumpAddressIfNotDivideByZero"@
    } else if tag == 33 {
        "PushRegister"@
    } else if tag == 34 {
        "PopRegister"@
    } else if tag == 35 {
        "CallAddress"@
    } else if tag == 36 {
        "Return"@
    } else if tag == 37 {
        "HaltAndCatchFire"@
    } else if tag == 38 {
        "PollTime"@
    } else {
        "GetKeyState"@
    }
}

/// Whether `fields` is exactly the operand layout of the opcode with
/// the given tag: so many fields, each with its name, kind, bit offset
/// and bit width.
pub open spec fn catalog_layout(tag: u16, fields: Seq<FieldDescription>) -> bool {
    if tag == 0 {
        fields.len() == 2 && field_is(fields[0], "register"@, FieldKind::Register, 16, 8) && field_is(fields[1], "immediate"@, FieldKind::Immediate, 24, 32)
    } else if tag == 1 {
        fields.len() == 2 && field_is(fields[0], "register"@, FieldKind::Register, 16, 8) && field_is(fields[1], "address"@, FieldKind::Address, 24, 32)
    } else if tag == 2 {
        fields.len() == 2 && field_is(fields[0], "target"@, FieldKind::Register, 16, 8) && field_is(fields[1], "source"@, FieldKind::Register, 24, 8)
    } else if tag == 3 {
        fields.len() == 2 && field_is(fields[0], "address"@, FieldKind::Address, 16, 32) && field_is(fields[1], "register"@, FieldKind::Register, 48, 8)
    } else if tag == 4 {
        fields.len() == 2 && field_is(fields[0], "target"@, FieldKind::Register, 16, 8) && field_is(fields[1], "pointer"@, FieldKind::Register, 24, 8)
    } else if tag == 5 {
        fields.len() == 2 && field_is(fields[0], "pointer"@, FieldKind::Register, 16, 8) && field_is(fields[1], "source"@, FieldKind::Register, 24, 8)
    } else if tag == 6 {
        fields.len() == 3 && field_is(fields[0], "target"@, FieldKind::Register, 16, 8) && field_is(fields[1], "lhs"@, FieldKind::Register, 24, 8) && field_is(fields[2], "rhs"@, FieldKind::Register, 32, 8)
    } else if tag == 7 {
        fields.len() == 3 && field_is(fields[0], "target"@, FieldKind::Register, 16, 8) && field_is(fields[1], "source"@, FieldKind::Register, 24, 8) && field_is(fields[2], "immediate"@, FieldKind::Immediate, 32, 32)
    } else if tag == 8 {
        fields.len() == 3 && field_is(fields[0], "target"@, FieldKind::Register, 16, 8) && field_is(fields[1], "lhs"@, FieldKind::Register, 24, 8) && field_is(fields[2], "rhs"@, FieldKind::Register, 32, 8)
    } else if tag == 9 {
        fields.len() == 3 && field_is(fields[0], "target"@, FieldKind::Register, 16, 8) && field_is(fields[1], "source"@, FieldKind::Register, 24, 8) && field_is(fields[2], "immediate"@, FieldKind::Immediate, 32, 32)
    } else if tag == 10 {
        fields.len() == 3 && field_is(fields[0], "target"@, FieldKind::Register, 16, 8) && field_is(fields[1], "lhs"@, FieldKind::Register, 24, 8) && field_is(fields[2], "rhs"@, FieldKind::Register, 32, 8)
    } else if tag == 11 {
        fields.len() == 4 && field_is(fields[0], "high"@, FieldKind::Register, 16, 8) && field_is(fields[1], "low"@, FieldKind::Register, 24, 8) && field_is(fields[2], "lhs"@, FieldKind::Register, 32, 8) && field_is(fields[3], "rhs"@, FieldKind::Register, 40, 8)
    } else if tag == 12 {
        fields.len() == 4 && field_is(fields[0], "result"@, FieldKind::Register, 16, 8) && field_is(fields[1], "remainder"@, FieldKind::Register, 24, 8) && field_is(fields[2], "lhs"@, FieldKind::Register, 32, 8) && field_is(fields[3], "rhs"@, FieldKind::Register, 40, 8)
    } else if tag == 13 {
        fields.len() == 3 && field_is(fields[0], "target"@, FieldKind::Register, 16, 8) && field_is(fields[1], "lhs"@, FieldKind::Register, 24, 8) && field_is(fields[2], "rhs"@, FieldKind::Register, 32, 8)
    } else if tag == 14 {
        fields.len() == 3 && field_is(fields[0], "target"@, FieldKind::Register, 16, 8) && field_is(fields[1], "lhs"@, FieldKind::Register, 24, 8) && field_is(fields[2], "rhs"@, FieldKind::Register, 32, 8)
    } else if tag == 15 {
        fields.len() == 3 && field_is(fields[0], "target"@, FieldKind::Register, 16, 8) && field_is(fields[1], "lhs"@, FieldKind::Register, 24, 8) && field_is(fields[2], "rhs"@, FieldKind::Register, 32, 8)
    } else if tag == 16 {
        fields.len() == 2 && field_is(fields[0], "target"@, FieldKind::Register, 16, 8) && field_is(fields[1], "source"@, FieldKind::Register, 24, 8)
    } else if tag == 17 {
        fields.len() == 3 && field_is(fields[0], "target"@, FieldKind::Register, 16, 8) && field_is(fields[1], "lhs"@, FieldKind::Register, 24, 8) && field_is(fields[2], "rhs"@, FieldKind::Register, 32, 8)
    } else if tag == 18 {
        fields.len() == 3 && field_is(fields[0], "target"@, FieldKind::Register, 16, 8) && field_is(fields[1], "lhs"@, FieldKind::Register, 24, 8) && field_is(fields[2], "rhs"@, FieldKind::Register, 32, 8)
    } else if tag == 19 {
        fields.len() == 3 && field_is(fields[0], "target"@, FieldKind::Register, 16, 8) && field_is(fields[1], "lhs"@, FieldKind::Register, 24, 8) && field_is(fields[2], "rhs"@, FieldKind::Register, 32, 8)
    } else if tag == 20 {
        fields.len() == 1 && field_is(fields[0], "address"@, FieldKind::Address, 16, 32)
    } else if tag == 21 {
        fields.len() == 1 && field_is(fields[0], "register"@, FieldKind::Register, 16, 8)
    } else if tag == 22 {
        fields.len() == 2 && field_is(fields[0], "register"@, FieldKind::Register, 16, 8) && field_is(fields[1], "address"@, FieldKind::Address, 24, 32)
    } else if tag == 23 {
        fields.len() == 2 && field_is(fields[0], "register"@, FieldKind::Register, 16, 8) && field_is(fields[1], "address"@, FieldKind::Address, 24, 32)
    } else if tag == 24 {
        fields.len() == 2 && field_is(fields[0], "register"@, FieldKind::Register, 16, 8) && field_is(fields[1], "address"@, FieldKind::Address, 24, 32)
    } else if tag == 25 {
        fields.len() == 2 && field_is(fields[0], "register"@, FieldKind::Register, 16, 8) && field_is(fields[1], "address"@, FieldKind::Address, 24, 32)
    } else if tag == 26 {
        fields.len() == 2 && field_is(fields[0], "register"@, FieldKind::Register, 16, 8) && field_is(fields[1], "address"@, FieldKind::Address, 24, 32)
    } else if tag == 27 {
        fields.len() == 1 && field_is(fields[0], "address"@, FieldKind::Address, 16, 32)
    } else if tag == 28 {
        fields.len() == 1 && field_is(fields[0], "address"@, FieldKind::Address, 16, 32)
    } else if tag == 29 {
        fields.len() == 1 && field_is(fields[0], "address"@, FieldKind::Address, 16, 32)
    } else if tag == 30 {
        fields.len() == 1 && field_is(fields[0], "address"@, FieldKind::Address, 16, 32)
    } else if tag == 31 {
        fields.len() == 1 && field_is(fields[0], "address"@, FieldKind::Address, 16, 32)
    } else if tag == 32 {
        fields.len() == 1 && field_is(fields[0], "address"@, FieldKind::Address, 16, 32)
    } else if tag == 33 {
        fields.len() == 1 && field_is(fields[0], "register"@, FieldKind::Register, 16, 8)
    } else if tag == 34 {
        fields.len() == 1 && field_is(fields[0], "register"@, FieldKind::Register, 16, 8)
    } else if tag == 35 {
        fields.len() == 1 && field_is(fields[0], "address"@, FieldKind::Address, 16, 32)
    } else if tag == 36 {
        fields.len() == 0
    } else if tag == 37 {
        fields.len() == 0
    } else if tag == 38 {
        fields.len() == 2 && field_is(fields[0], "high"@, FieldKind::Register, 16, 8) && field_is(fields[1], "low"@, FieldKind::Register, 24, 8)
    } else {
        fields.len() == 2 && field_is(fields[0], "target"@, FieldKind::Register, 16, 8) && field_is(fields[1], "keycode"@, FieldKind::Register, 24, 8)
    }
}

/// The catalog entry for the given tag: its contract pins the
/// entry's mnemonic and complete operand layout.
#[verifier::rlimit(100)]
fn describe(tag: u16) -> (r: OpcodeDescription)
    requires
        tag < 40,
    ensures
        r.tag == tag,
        r.name@ == catalog_name(tag),
        catalog_layout(tag, r.fields@),
{
    match tag {
        0 => OpcodeDescription {
            name: "MoveRegisterImmediate",
            tag,
            fields: two_fields(reg_field("register", 16), imm_field("immediate", 24)),
        },
        1 => OpcodeDescription {
            name: "MoveRegisterAddress",
            tag,
            fields: two_fields(reg_field("register", 16), addr_field("address", 24)),
        },
        2 => OpcodeDescription {
            name: "MoveTargetSource",
            tag,
            fields: two_fields(reg_field("target", 16), reg_field("source", 24)),
        },
        3 => OpcodeDescription {
            name: "MoveAddressRegister",
            tag,
            fields: two_fields(addr_field("address", 16), reg_field("register", 48)),
        },
        4 => OpcodeDescription {
            name: "MoveTargetPointer",
            tag,
            fields: two_fields(reg_field("target", 16), reg_field("pointer", 24)),
        },
        5 => OpcodeDescription {
            name: "MovePointerSource",
            tag,
            fields: two_fields(reg_field("pointer", 16), reg_field("source", 24)),
        },
        6 => OpcodeDescription {
            name: "AddTargetLhsRhs",
            tag,
            fields: three_fields(reg_field("target", 16), reg_field("lhs", 24), reg_field("rhs", 32)),
        },
        7 => OpcodeDescription {
            name: "AddTargetSourceImmediate",
            tag,
            fields: three_fields(reg_field("target", 16), reg_field("source", 24), imm_field("immediate", 32)),
        },
        8 => OpcodeDescription {
            name: "SubtractTargetLhsRhs",
            tag,
            fields: three_fields(reg_field("target", 16), reg_field("lhs", 24), reg_field("rhs", 32)),
        },
        9 => OpcodeDescription {
            name: "SubtractTargetSourceImmediate",
            tag,
            fields: three_fields(reg_field("target", 16), reg_field("source", 24), imm_field("immediate", 32)),
        },
        10 => OpcodeDescription {
            name: "SubtractWithCarryTargetLhsRhs",
            tag,
            fields: three_fields(reg_field("target", 16), reg_field("lhs", 24), reg_field("rhs", 32)),
        },
        11 => OpcodeDescription {
            name: "MultiplyHighLowLhsRhs",
            tag,
            fields: four_fields(reg_field("high", 16), reg_field("low", 24), reg_field("lhs", 32), reg_field("rhs", 40)),
        },
        12 => OpcodeDescription {
            name: "DivmodTargetModLhsRhs",
            tag,
            fields: four_fields(reg_field("result", 16), reg_field("remainder", 24), reg_field("lhs", 32), reg_field("rhs", 40)),
        },
        13 => OpcodeDescription {
            name: "AndTargetLhsRhs",
            tag,
            fields: three_fields(reg_field("target", 16), reg_field("lhs", 24), reg_field("rhs", 32)),
        },
        14 => OpcodeDescription {
            name: "OrTargetLhsRhs",
            tag,
            fields: three_fields(reg_field("target", 16), reg_field("lhs", 24), reg_field("rhs", 32)),
        },
        15 => OpcodeDescription {
            name: "XorTargetLhsRhs",
            tag,
            fields: three_fields(reg_field("target", 16), reg_field("lhs", 24), reg_field("rhs", 32)),
        },
        16 => OpcodeDescription {
            name: "NotTargetSource",
            tag,
            fields: two_fields(reg_field("target", 16), reg_field("source", 24)),
        },
        17 => OpcodeDescription {
            name: "LeftShiftTargetLhsRhs",
            tag,
            fields: three_fields(reg_field("target", 16), reg_field("lhs", 24), reg_field("rhs", 32)),
        },
        18 => OpcodeDescription {
            name: "RightShiftTargetLhsRhs",
            tag,
            fields: three_fields(reg_field("target", 16), reg_field("lhs", 24), reg_field("rhs", 32)),
        },
        19 => OpcodeDescription {
            name: "CompareTargetLhsRhs",
            tag,
            fields: three_fields(reg_field("target", 16), reg_field("lhs", 24), reg_field("rhs", 32)),
        },
        20 => OpcodeDescription {
            name: "JumpAddress",
            tag,
            fields: one_field(addr_field("address", 16)),
        },
        21 => OpcodeDescription {
            name: "JumpRegister",
            tag,
            fields: one_field(reg_field("register", 16)),
        },
        22 => OpcodeDescription {
            name: "JumpAddressIfEqual",
            tag,
            fields: two_fields(reg_field("register", 16), addr_field("address", 24)),
        },
        23 => OpcodeDescription {
            name: "JumpAddressIfGreaterThan",
            tag,
            fields: two_fields(reg_field("register", 16), addr_field("address", 24)),
        },
        24 => OpcodeDescription {
            name: "JumpAddressIfLessThan",
            tag,
            fields: two_fields(reg_field("register", 16), addr_field("address", 24)),
        },
        25 => OpcodeDescription {
            name: "JumpAddressIfLessThanOrEqual",
            tag,
            fields: two_fields(reg_field("register", 16), addr_field("address", 24)),
        },
        26 => OpcodeDescription {
            name: "JumpAddressIfGreaterThanOrEqual",
            tag,
            fields: two_fields(reg_field("register", 16), addr_field("address", 24)),
        },
        27 => OpcodeDescription {
            name: "JumpAddressIfZero",
            tag,
            fields: one_field(addr_field("address", 16)),
        },
        28 => OpcodeDescription {
            name: "JumpAddressIfNotZero",
            tag,
            fields: one_field(addr_field("address", 16)),
        },
        29 => OpcodeDescription {
            name: "JumpAddressIfCarry",
            tag,
            fields: one_field(addr_field("address", 16)),
        },
        30 => OpcodeDescription {
            name: "JumpAddressIfNotCarry",
            tag,
            fields: one_field(addr_field("address", 16)),
        },
        31 => OpcodeDescription {
            name: "JumpAddressIfDivideByZero",
            tag,
            fields: one_field(addr_field("address", 16)),
        },
        32 => OpcodeDescription {
            name: "JumpAddressIfNotDivideByZero",
            tag,
            fields: one_field(addr_field("address", 16)),
        },
        33 => OpcodeDescription {
            name: "PushRegister",
            tag,
            fields: one_field(reg_field("register", 16)),
        },
        34 => OpcodeDescription {
            name: "PopRegister",
            tag,
            fields: one_field(reg_field("register", 16)),
        },
        35 => OpcodeDescription {
            name: "CallAddress",
            tag,
            fields: one_field(addr_field("address", 16)),
        },
        36 => OpcodeDescription {
            name: "Return",
            tag,
            fields: Vec::new(),
        },
        37 => OpcodeDescription {
            name: "HaltAndCatchFire",
            tag,
            fields: Vec::new(),
        },
        38 => OpcodeDescription {
            name: "PollTime",
            tag,
            fields: two_fields(reg_field("high", 16), reg_field("low", 24)),
        },
        _ => OpcodeDescription {
            name: "GetKeyState",
            tag,
            fields: two_fields(reg_field("target", 16), reg_field("keycode", 24)),
        },
    }
}

/// The whole opcode catalog, one entry per tag in tag order: the map an
/// external toolchain needs to target this machine. The contract pins
/// each entry completely: its tag, its mnemonic, and its operand
/// fields' names, kinds, bit offsets and bit widths.
pub fn opcode_catalog() -> (r: Vec<OpcodeDescription>)
    ensures
        r@.len() == 40,
        forall|k: int| 0 <= k < 40 ==> (#[trigger] r@[k]).tag == k,
        forall|k: int| 0 <= k < 40 ==> (#[trigger] r@[k]).name@ == catalog_name(k as u16),
        forall|k: int| 0 <= k < 40 ==> catalog_layout(k as u16, (#[trigger] r@[k]).fields@),
{
    let mut out: Vec<OpcodeDescription> = Vec::new();
    let mut tag: u16 = 0;
    while tag < 40
        invariant
            out@.len() == tag as int,
            tag <= 40,
            forall|k: int| 0 <= k < tag as int ==> (#[trigger] out@[k]).tag == k,
            forall|k: int|
                0 <= k < tag as int ==> (#[trigger] out@[k]).name@ == catalog_name(k as u16),
            forall|k: int|
                0 <= k < tag as int ==> catalog_layout(k as u16, (#[trigger] out@[k]).fields@),
        decreases 40 - tag,
    {
        let entry = describe(tag);
        out.push(entry);
        tag = tag + 1;
    }
    out
}

} // verus!
