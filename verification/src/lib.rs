//! A verified emulator core for the Backseater, a fictional 32-bit register
//! machine with 256 registers, a flat byte-addressable memory, a condition
//! flag register, an upward-growing stack and a 64-bit cycle counter.
//!
//! Instructions are 64-bit words: a 16-bit tag followed by operand fields
//! (8-bit register indices, 32-bit immediates and addresses) packed
//! left-to-right, big-endian on disk.

use vstd::prelude::*;

pub mod laws;
pub mod machine;
pub mod memory;
pub mod opcodes;
pub mod pacing;
pub mod periphery;
pub mod processor;
pub mod terminal;

verus! {

/// A 32-bit machine word: register values and data memory units.
pub type Word = u32;

/// Half of a machine word, used for split encoding fields.
pub type HalfWord = u16;

/// A 32-bit memory address.
pub type Address = u32;

/// A 64-bit encoded instruction: opcode tag plus operands.
pub type Instruction = u64;

/// An index into the register file.
#[derive(Clone, Copy, Debug, PartialEq, Eq, Structural, Default)]
pub struct Register(pub u8);

impl From<u8> for Register {
    fn from(value: u8) -> (r: Self) {
        Register(value)
    }
}

impl vstd::std_specs::convert::FromSpecImpl<u8> for Register {
    open spec fn obeys_from_spec() -> bool {
        true
    }

    open spec fn from_spec(value: u8) -> Self {
        Register(value)
    }
}

/// Splitting a word into its big-endian halves.
pub trait AsHalfWords {
    fn as_half_words(&self) -> (r: (HalfWord, HalfWord))
        ensures
            r.0 == self.spec_high_half(),
            r.1 == self.spec_low_half(),
    ;

    spec fn spec_high_half(&self) -> HalfWord;

    spec fn spec_low_half(&self) -> HalfWord;
}

impl AsHalfWords for Word {
    fn as_half_words(&self) -> (r: (HalfWord, HalfWord)) {
        ((*self / 0x1_0000) as HalfWord, (*self % 0x1_0000) as HalfWord)
    }

    open spec fn spec_high_half(&self) -> HalfWord {
        (*self / 0x1_0000) as HalfWord
    }

    open spec fn spec_low_half(&self) -> HalfWord {
        (*self % 0x1_0000) as HalfWord
    }
}

/// Splitting an instruction into its big-endian word halves.
pub trait AsWords {
    fn as_words(&self) -> (r: (Word, Word))
        ensures
            r.0 == self.spec_high_word(),
            r.1 == self.spec_low_word(),
    ;

    spec fn spec_high_word(&self) -> Word;

    spec fn spec_low_word(&self) -> Word;
}

impl AsWords for Instruction {
    fn as_words(&self) -> (r: (Word, Word)) {
        ((*self / 0x1_0000_0000) as Word, (*self % 0x1_0000_0000) as Word)
    }

    open spec fn spec_high_word(&self) -> Word {
        (*self / 0x1_0000_0000) as Word
    }

    open spec fn spec_low_word(&self) -> Word {
        (*self % 0x1_0000_0000) as Word
    }
}

/// Width in bytes of a primitive machine quantity.
pub trait Size {
    const SIZE: usize;
}

impl Size for Instruction {
    const SIZE: usize = 8;
}

impl Size for Word {
    const SIZE: usize = 4;
}

impl Size for HalfWord {
    const SIZE: usize = 2;
}

/// A pair of screen dimensions for the hosting renderer.
pub struct Size2D {
    pub width: i32,
    pub height: i32,
}

/// A compile-time-style check: callers must supply a true condition.
pub fn static_assert(condition: bool)
    requires
        condition,
{
}

} // verus!
