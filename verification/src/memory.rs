//! The memory subsystem: a flat, zero-initialised byte array.
//!
//! Words (4 bytes) and instructions (8 bytes) are stored big-endian.
//! Accesses are byte-addressed; callers check bounds before reading or
//! writing, and the processor turns an out-of-bounds access by a running
//! program into a fault.

use vstd::prelude::*;

use crate::opcodes::{decode_spec, encode_spec, InvalidOpcode, Opcode};
use crate::{Address, Instruction, Word};

verus! {

/// Total size of the machine's memory in bytes.
pub const MEMORY_SIZE: usize = 0x10_0000;

/// Whether a 4-byte word access starting at `address` stays in memory.
pub open spec fn valid_data_address(address: Address) -> bool {
    address + 4 <= MEMORY_SIZE
}

/// Whether an 8-byte instruction access starting at `address` stays in memory.
pub open spec fn valid_instruction_address(address: Address) -> bool {
    address + 8 <= MEMORY_SIZE
}

/// The word stored big-endian at `address`.
pub open spec fn word_at(mem: Seq<u8>, address: int) -> int {
    mem[address] * 0x100_0000 + mem[address + 1] * 0x1_0000 + mem[address + 2] * 0x100
        + mem[address + 3]
}

/// The instruction stored big-endian at `address`.
pub open spec fn instruction_at(mem: Seq<u8>, address: int) -> int {
    word_at(mem, address) * 0x1_0000_0000 + word_at(mem, address + 4)
}

/// Byte `k` (0 = most significant) of the big-endian encoding of `value`.
pub open spec fn word_byte(value: Word, k: int) -> u8 {
    if k == 0 {
        (value / 0x100_0000) as u8
    } else if k == 1 {
        ((value / 0x1_0000) % 0x100) as u8
    } else if k == 2 {
        ((value / 0x100) % 0x100) as u8
    } else {
        (value % 0x100) as u8
    }
}

/// `mem` with the big-endian bytes of `value` written at `address`.
pub open spec fn mem_with_word(mem: Seq<u8>, address: int, value: Word) -> Seq<u8> {
    mem.update(address, word_byte(value, 0)).update(address + 1, word_byte(value, 1)).update(
        address + 2,
        word_byte(value, 2),
    ).update(address + 3, word_byte(value, 3))
}

/// `mem` with the big-endian bytes of the 64-bit `value` written at `address`.
pub open spec fn mem_with_instruction(mem: Seq<u8>, address: int, value: Instruction) -> Seq<u8> {
    mem_with_word(
        mem_with_word(mem, address, (value / 0x1_0000_0000) as Word),
        address + 4,
        (value % 0x1_0000_0000) as Word,
    )
}

/// Reading a word back from its own big-endian bytes restores it.
pub proof fn lemma_word_bytes_roundtrip(value: Word)
    ensures
        word_byte(value, 0) * 0x100_0000 + word_byte(value, 1) * 0x1_0000 + word_byte(value, 2)
            * 0x100 + word_byte(value, 3) == value,
{
    assert((value / 0x100_0000) * 0x100_0000 + ((value / 0x1_0000) % 0x100) * 0x1_0000 + ((value
        / 0x100) % 0x100) * 0x100 + (value % 0x100) == value) by (bit_vector);
}

/// The flat byte memory of the machine.
pub struct Memory {
    data: Vec<u8>,
}

impl View for Memory {
    type V = Seq<u8>;

    closed spec fn view(&self) -> Seq<u8> {
        self.data@
    }
}

impl Memory {
    /// The memory is well formed when it spans exactly `MEMORY_SIZE` bytes.
    pub open spec fn wf(&self) -> bool {
        self@.len() == MEMORY_SIZE
    }

    /// A fresh, zero-filled memory.
    pub fn new() -> (r: Memory)
        ensures
            r.wf(),
            r@ == Seq::<u8>::new(MEMORY_SIZE as nat, |i: int| 0u8),
    {
        let mut data: Vec<u8> = Vec::new();
        let mut i: usize = 0;
        while i < MEMORY_SIZE
            invariant
                i <= MEMORY_SIZE,
                data@.len() == i,
                forall|j: int| 0 <= j < i ==> data@[j] == 0u8,
            decreases MEMORY_SIZE - i,
        {
            data.push(0u8);
            i = i + 1;
        }
        let r = Memory { data };
        assert(r@ =~= Seq::<u8>::new(MEMORY_SIZE as nat, |i: int| 0u8));
        r
    }

    /// The word stored big-endian at `address`.
    pub fn read_data(&self, address: Address) -> (r: Word)
        requires
            self.wf(),
            valid_data_address(address),
        ensures
            r == word_at(self@, address as int),
    {
        let i = address as usize;
        let b0 = self.data[i] as u32;
        let b1 = self.data[i + 1] as u32;
        let b2 = self.data[i + 2] as u32;
        let b3 = self.data[i + 3] as u32;
        b0 * 0x100_0000 + b1 * 0x1_0000 + b2 * 0x100 + b3
    }

    /// Store `value` big-endian at `address`.
    pub fn write_data(&mut self, address: Address, value: Word)
        requires
            old(self).wf(),
            valid_data_address(address),
        ensures
            final(self).wf(),
            final(self)@ == mem_with_word(old(self)@, address as int, value),
    {
        let i = address as usize;
        self.data[i] = (value / 0x100_0000) as u8;
        self.data[i + 1] = ((value / 0x1_0000) % 0x100) as u8;
        self.data[i + 2] = ((value / 0x100) % 0x100) as u8;
        self.data[i + 3] = (value % 0x100) as u8;
        assert(self@ =~= mem_with_word(old(self)@, address as int, value));
    }

    /// The 64-bit instruction stored big-endian at `address`.
    pub fn read_instruction(&self, address: Address) -> (r: Instruction)
        requires
            self.wf(),
            valid_instruction_address(address),
        ensures
            r == instruction_at(self@, address as int),
    {
        let high = self.read_data(address);
        let low = self.read_data(address + 4);
        high as u64 * 0x1_0000_0000 + low as u64
    }

    /// Decode the instruction stored at `address`.
    ///
    /// Fails with `InvalidOpcode` exactly when the stored 64-bit word does
    /// not decode.
    pub fn read_opcode(&self, address: Address) -> (r: Result<Opcode, InvalidOpcode>)
        requires
            self.wf(),
            valid_instruction_address(address),
        ensures
            match r {
                Ok(op) => decode_spec(instruction_at(self@, address as int) as Instruction)
                    == Some(op),
                Err(e) => decode_spec(instruction_at(self@, address as int) as Instruction)
                    is None && e.instruction == instruction_at(self@, address as int),
            },
    {
        let instruction = self.read_instruction(address);
        Opcode::decode(instruction)
    }

    /// Store the encoding of `opcode` big-endian at `address`.
    pub fn write_opcode(&mut self, address: Address, opcode: Opcode)
        requires
            old(self).wf(),
            valid_instruction_address(address),
        ensures
            final(self).wf(),
            final(self)@ == mem_with_instruction(
                old(self)@,
                address as int,
                encode_spec(opcode) as Instruction,
            ),
    {
        let instruction = opcode.encode();
        self.write_instruction(address, instruction);
    }

    /// Store the 64-bit `value` big-endian at `address`.
    pub fn write_instruction(&mut self, address: Address, value: Instruction)
        requires
            old(self).wf(),
            valid_instruction_address(address),
        ensures
            final(self).wf(),
            final(self)@ == mem_with_instruction(old(self)@, address as int, value),
    {
        self.write_data(address, (value / 0x1_0000_0000) as Word);
        self.write_data(address + 4, (value % 0x1_0000_0000) as Word);
    }

    /// Overwrite the single byte at `address`.
    pub fn write_byte(&mut self, address: Address, value: u8)
        requires
            old(self).wf(),
            address < MEMORY_SIZE,
        ensures
            final(self).wf(),
            final(self)@ == old(self)@.update(address as int, value),
    {
        self.data[address as usize] = value;
    }

    /// The single byte at `address`.
    pub fn read_byte(&self, address: Address) -> (r: u8)
        requires
            self.wf(),
            address < MEMORY_SIZE,
        ensures
            r == self@[address as int],
    {
        self.data[address as usize]
    }
}

/// Writing a word and reading it back at the same address restores it.
pub proof fn lemma_word_write_read(mem: Seq<u8>, address: int, value: Word)
    requires
        0 <= address,
        address + 4 <= mem.len(),
    ensures
        word_at(mem_with_word(mem, address, value), address) == value,
{
    lemma_word_bytes_roundtrip(value);
}

/// Writing a word leaves every byte outside its 4-byte span unchanged.
pub proof fn lemma_word_write_frame(mem: Seq<u8>, address: int, value: Word, other: int)
    requires
        0 <= address,
        address + 4 <= mem.len(),
        0 <= other < mem.len(),
        other < address || address + 4 <= other,
    ensures
        mem_with_word(mem, address, value)[other] == mem[other],
{
}

/// Writing an instruction and reading it back at the same address restores it.
pub proof fn lemma_instruction_write_read(mem: Seq<u8>, address: int, value: Instruction)
    requires
        0 <= address,
        address + 8 <= mem.len(),
    ensures
        instruction_at(mem_with_instruction(mem, address, value), address) == value,
{
    let high = (value / 0x1_0000_0000) as Word;
    let low = (value % 0x1_0000_0000) as Word;
    let after_high = mem_with_word(mem, address, high);
    let after_low = mem_with_word(after_high, address + 4, low);
    lemma_word_write_read(mem, address, high);
    assert(word_at(after_low, address) == word_at(after_high, address)) by {
        lemma_word_write_frame(after_high, address + 4, low, address);
        lemma_word_write_frame(after_high, address + 4, low, address + 1);
        lemma_word_write_frame(after_high, address + 4, low, address + 2);
        lemma_word_write_frame(after_high, address + 4, low, address + 3);
    }
    lemma_word_write_read(after_high, address + 4, low);
    assert(high * 0x1_0000_0000 + low == value) by (bit_vector)
        requires
            high == (value / 0x1_0000_0000) as Word && low == (value % 0x1_0000_0000) as Word,
    ;
}

} // verus!
