//! The machine facade: memory, processor and periphery together, with
//! tick, halted-query and ROM loading.

use vstd::prelude::*;

use crate::memory::{
    instruction_at, valid_instruction_address, word_byte, Memory, MEMORY_SIZE,
};
use crate::opcodes::{decode_spec, encode_spec, InvalidOpcode, Opcode};
use crate::periphery::{FixedPeriphery, Periphery};
use crate::processor::{ip_of, step_of, vm, Processor, VmState, ENTRY_POINT};
use crate::{Instruction, Word};

verus! {

/// Why a ROM image was rejected.
#[derive(Clone, Copy, Debug, PartialEq, Eq, Structural)]
pub enum RomError {
    /// The image's length is not a multiple of eight bytes.
    SizeNotAligned,
    /// The image does not fit between the entry point and the end of
    /// memory.
    TooLarge,
    /// Some eight-byte group of the image does not decode.
    InvalidInstruction,
}

/// Whether the machine is observably halted: it has faulted, or the
/// instruction at the instruction pointer is `HaltAndCatchFire`.
pub open spec fn halted_spec(s: VmState) -> bool {
    s.fault is Some || (valid_instruction_address(ip_of(s)) && decode_spec(
        instruction_at(s.mem, ip_of(s) as int) as Instruction,
    ) == Some(Opcode::HaltAndCatchFire {  }))
}

/// Whether `rom` is a loadable image: its length is a multiple of eight,
/// it fits in memory at the entry point, and every eight-byte group
/// decodes.
pub open spec fn loadable_spec(rom: Seq<u8>) -> bool {
    rom.len() % 8 == 0 && ENTRY_POINT + rom.len() <= MEMORY_SIZE && (forall|k: int|
        #![trigger instruction_at(rom, k)]
        0 <= k < rom.len() && k % 8 == 0 ==> decode_spec(instruction_at(rom, k) as Instruction)
            is Some)
}

/// The whole machine: memory, processor, and the host's peripherals.
pub struct Machine<P: Periphery> {
    pub memory: Memory,
    pub processor: Processor,
    pub periphery: P,
}

impl Machine<FixedPeriphery> {
    /// A fresh machine with zeroed memory, the register file at its
    /// power-on values, and a periphery that answers zero milliseconds
    /// and no key pressed.
    pub fn new() -> (r: Machine<FixedPeriphery>)
        ensures
            r.wf(),
            r.processor.registers@ == crate::processor::initial_regs(),
            r.memory@ == Seq::<u8>::new(MEMORY_SIZE as nat, |i: int| 0u8),
            r.processor.fault is None,
    {
        Machine {
            memory: Memory::new(),
            processor: Processor::new(),
            periphery: FixedPeriphery::new(),
        }
    }
}

impl<P: Periphery> Machine<P> {
    /// A machine is well formed when its memory and processor are.
    pub open spec fn wf(&self) -> bool {
        self.memory.wf() && self.processor.wf()
    }

    /// The mathematical state of this machine.
    pub open spec fn state(&self) -> VmState {
        vm(self.processor, self.memory)
    }

    /// A fresh machine driven by the given periphery.
    pub fn with_periphery(periphery: P) -> (r: Machine<P>)
        ensures
            r.wf(),
            r.processor.registers@ == crate::processor::initial_regs(),
            r.memory@ == Seq::<u8>::new(MEMORY_SIZE as nat, |i: int| 0u8),
            r.processor.fault is None,
    {
        Machine { memory: Memory::new(), processor: Processor::new(), periphery }
    }

    /// One fetch-decode-execute step; see [`step_of`] for what it does.
    pub fn make_tick(&mut self)
        requires
            old(self).wf(),
        ensures
            final(self).wf(),
            exists|ms: u64, kd: bool| final(self).state() == step_of(old(self).state(), ms, kd),
    {
        self.processor.make_tick(&mut self.memory, &mut self.periphery);
    }

    /// Whether the machine is halted: it has faulted, or the instruction
    /// at the instruction pointer is `HaltAndCatchFire`.
    #[must_use]
    pub fn is_halted(&self) -> (r: bool)
        requires
            self.wf(),
        ensures
            r == halted_spec(self.state()),
    {
        if self.processor.fault.is_some() {
            return true;
        }
        let ip = self.processor.registers[crate::processor::INSTRUCTION_POINTER as usize];
        if (ip as u64) + 8 > MEMORY_SIZE as u64 {
            return false;
        }
        let opcode = self.read_opcode_at_instruction_pointer(ip);
        match opcode {
            Ok(Opcode::HaltAndCatchFire {  }) => true,
            _ => false,
        }
    }

    /// The decoded instruction at the instruction pointer.
    fn read_opcode_at_instruction_pointer(&self, ip: Word) -> (r: Result<Opcode, InvalidOpcode>)
        requires
            self.wf(),
            ip == ip_of(self.state()),
            valid_instruction_address(ip),
        ensures
            match r {
                Ok(op) => decode_spec(instruction_at(self.memory@, ip as int) as Instruction)
                    == Some(op),
                Err(_) => decode_spec(instruction_at(self.memory@, ip as int) as Instruction)
                    is None,
            },
    {
        self.memory.read_opcode(ip)
    }

    /// Load a ROM image: interpret `rom` as consecutive big-endian
    /// 64-bit instructions and place them in memory at the entry point.
    ///
    /// Rejects an image whose length is not a multiple of eight, one
    /// that does not fit in memory, and one with an instruction that
    /// does not decode; a rejected image leaves the machine untouched.
    pub fn load_rom(&mut self, rom: &Vec<u8>) -> (r: Result<(), RomError>)
        requires
            old(self).wf(),
        ensures
            final(self).wf(),
            final(self).processor == old(self).processor,
            match r {
                Ok(()) => loadable_spec(rom@) && final(self).memory@.len() == MEMORY_SIZE && (
                forall|i: int|
                    0 <= i < MEMORY_SIZE ==> final(self).memory@[i] == (if ENTRY_POINT <= i
                        < ENTRY_POINT + rom@.len() {
                        rom@[i - ENTRY_POINT]
                    } else {
                        old(self).memory@[i]
                    })),
                Err(RomError::SizeNotAligned) => rom@.len() % 8 != 0 && *final(self) == *old(self),
                Err(RomError::TooLarge) => rom@.len() % 8 == 0 && ENTRY_POINT + rom@.len()
                    > MEMORY_SIZE && *final(self) == *old(self),
                Err(RomError::InvalidInstruction) => rom@.len() % 8 == 0 && ENTRY_POINT
                    + rom@.len() <= MEMORY_SIZE && !loadable_spec(rom@) && *final(self) == *old(self),
            },
    {
        let n = rom.len();
        if n % 8 != 0 {
            return Err(RomError::SizeNotAligned);
        }
        if n > MEMORY_SIZE - (ENTRY_POINT as usize) {
            return Err(RomError::TooLarge);
        }
        let count = n / 8;
        let mut k: usize = 0;
        while k < count
            invariant
                *self == *old(self),
                self.wf(),
                n == rom@.len(),
                n % 8 == 0,
                ENTRY_POINT + n <= MEMORY_SIZE,
                count == n / 8,
                k <= count,
                forall|j: int|
                    #![trigger instruction_at(rom@, j)]
                    0 <= j < 8 * k && j % 8 == 0 ==> decode_spec(
                        instruction_at(rom@, j) as Instruction,
                    ) is Some,
            decreases count - k,
        {
            let value = instruction_in_buffer(rom, 8 * k);
            match Opcode::decode(value) {
                Ok(_) => {},
                Err(_) => {
                    proof {
                        assert(decode_spec(
                            instruction_at(rom@, 8 * (k as int)) as Instruction,
                        ) is None);
                        assert(!loadable_spec(rom@));
                    }
                    return Err(RomError::InvalidInstruction);
                },
            }
            k = k + 1;
        }
        let mut i: usize = 0;
        while i < n
            invariant
                self.wf(),
                self.processor == old(self).processor,
                n == rom@.len(),
                ENTRY_POINT + n <= MEMORY_SIZE,
                i <= n,
                forall|j: int|
                    0 <= j < MEMORY_SIZE ==> self.memory@[j] == (if ENTRY_POINT <= j < ENTRY_POINT
                        + i {
                        rom@[j - ENTRY_POINT]
                    } else {
                        old(self).memory@[j]
                    }),
            decreases n - i,
        {
            self.memory.write_byte((ENTRY_POINT as usize + i) as u32, rom[i]);
            i = i + 1;
        }
        Ok(())
    }
}

/// The 64-bit big-endian value of the eight bytes at `offset`.
fn instruction_in_buffer(buffer: &Vec<u8>, offset: usize) -> (r: Instruction)
    requires
        offset + 8 <= buffer@.len(),
    ensures
        r == instruction_at(buffer@, offset as int),
{
    let n = buffer.len();
    let b0 = buffer[offset] as u64;
    let b1 = buffer[offset + 1] as u64;
    let b2 = buffer[offset + 2] as u64;
    let b3 = buffer[offset + 3] as u64;
    let b4 = buffer[offset + 4] as u64;
    let b5 = buffer[offset + 5] as u64;
    let b6 = buffer[offset + 6] as u64;
    let b7 = buffer[offset + 7] as u64;
    b0 * 0x100_0000_0000_0000 + b1 * 0x1_0000_0000_0000 + b2 * 0x100_0000_0000 + b3 * 0x1_0000_0000
        + b4 * 0x100_0000 + b5 * 0x1_0000 + b6 * 0x100 + b7
}

/// The encodings of `program`, one 64-bit big-endian instruction after
/// the other: the byte form in which a program is saved as a ROM.
pub fn program_to_bytes(program: &Vec<Opcode>) -> (r: Vec<u8>)
    ensures
        r@.len() == 8 * program@.len(),
        forall|k: int|
            #![trigger instruction_at(r@, k)]
            0 <= k < 8 * program@.len() && k % 8 == 0 ==> instruction_at(r@, k) == encode_spec(
                program@[k / 8],
            ),
{
    let mut out: Vec<u8> = Vec::new();
    let mut k: usize = 0;
    while k < program.len()
        invariant
            k <= program@.len(),
            out@.len() == 8 * k,
            forall|j: int|
                #![trigger instruction_at(out@, j)]
                0 <= j < 8 * k && j % 8 == 0 ==> instruction_at(out@, j) == encode_spec(
                    program@[j / 8],
                ),
        decreases program@.len() - k,
    {
        let ghost out_before = out@;
        let value = program[k].encode();
        let high = (value / 0x1_0000_0000) as Word;
        let low = (value % 0x1_0000_0000) as Word;
        push_word_bytes(&mut out, high);
        push_word_bytes(&mut out, low);
        proof {
            crate::memory::lemma_word_bytes_roundtrip(high);
            crate::memory::lemma_word_bytes_roundtrip(low);
            assert(high * 0x1_0000_0000 + low == value) by (bit_vector)
                requires
                    high == (value / 0x1_0000_0000) as Word && low == (value % 0x1_0000_0000)
                        as Word,
            ;
            assert(instruction_at(out@, 8 * (k as int)) == value);
            assert forall|j: int|
                #![trigger instruction_at(out@, j)]
                0 <= j < 8 * (k + 1) && j % 8 == 0 implies instruction_at(out@, j) == encode_spec(
                program@[j / 8],
            ) by {
                if j < 8 * k {
                    assert(instruction_at(out@, j) == instruction_at(out_before, j));
                } else {
                    assert(j == 8 * (k as int));
                }
            }
        }
        k = k + 1;
    }
    out
}

/// A program placed in memory through `load_rom` reads back exactly.
///
/// If `bytes` holds the encodings of `program` one after the other, as
/// `program_to_bytes` promises, and `mem` holds `bytes` at the entry
/// point over an otherwise untouched `old_mem`, as a successful
/// `load_rom` promises, then every program position's instruction slot
/// still holds its encoding and decodes back to the original opcode.
pub proof fn lemma_loaded_program_decodes(
    program: Seq<Opcode>,
    bytes: Seq<u8>,
    old_mem: Seq<u8>,
    mem: Seq<u8>,
    k: int,
)
    requires
        bytes.len() == 8 * program.len(),
        forall|j: int|
            #![trigger instruction_at(bytes, j)]
            0 <= j < 8 * program.len() && j % 8 == 0 ==> instruction_at(bytes, j) == encode_spec(
                program[j / 8],
            ),
        mem.len() == MEMORY_SIZE,
        ENTRY_POINT + bytes.len() <= MEMORY_SIZE,
        forall|i: int|
            0 <= i < MEMORY_SIZE ==> #[trigger] mem[i] == (if ENTRY_POINT <= i < ENTRY_POINT
                + bytes.len() {
                bytes[i - ENTRY_POINT]
            } else {
                old_mem[i]
            }),
        0 <= k < program.len(),
    ensures
        instruction_at(mem, ENTRY_POINT + 8 * k) == encode_spec(program[k]),
        decode_spec(instruction_at(mem, ENTRY_POINT + 8 * k) as Instruction) == Some(program[k]),
{
    let base = ENTRY_POINT + 8 * k;
    assert(mem[base] == bytes[8 * k]);
    assert(mem[base + 1] == bytes[8 * k + 1]);
    assert(mem[base + 2] == bytes[8 * k + 2]);
    assert(mem[base + 3] == bytes[8 * k + 3]);
    assert(mem[base + 4] == bytes[8 * k + 4]);
    assert(mem[base + 5] == bytes[8 * k + 5]);
    assert(mem[base + 6] == bytes[8 * k + 6]);
    assert(mem[base + 7] == bytes[8 * k + 7]);
    assert(instruction_at(mem, base) == instruction_at(bytes, 8 * k));
    assert(instruction_at(bytes, 8 * k) == encode_spec(program[k]));
    crate::opcodes::lemma_decode_encode(program[k]);
}

/// Append the four big-endian bytes of `value`.
fn push_word_bytes(out: &mut Vec<u8>, value: Word)
    ensures
        final(out)@ == old(out)@ + seq![
            word_byte(value, 0),
            word_byte(value, 1),
            word_byte(value, 2),
            word_byte(value, 3),
        ],
{
    out.push((value / 0x100_0000) as u8);
    out.push(((value / 0x1_0000) % 0x100) as u8);
    out.push(((value / 0x100) % 0x100) as u8);
    out.push((value % 0x100) as u8);
    assert(out@ =~= old(out)@ + seq![
        word_byte(value, 0),
        word_byte(value, 1),
        word_byte(value, 2),
        word_byte(value, 3),
    ]);
}

} // verus!
