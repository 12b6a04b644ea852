//! The text-mode terminal: a character grid that lives at a fixed place
//! in memory.
//!
//! Writes into the region are ordinary memory writes; the host's renderer
//! reads the grid back through [`char_at`] and draws it.

use vstd::prelude::*;

use crate::memory::Memory;
use crate::Address;

verus! {

/// First byte of the terminal's character grid.
pub const TERMINAL_BUFFER_START: Address = 0;

/// Width of the grid in characters.
pub const TERMINAL_WIDTH: usize = 80;

/// Height of the grid in characters.
pub const TERMINAL_HEIGHT: usize = 25;

/// The memory address of the grid cell in the given column and row.
pub open spec fn cell_address(column: int, row: int) -> int {
    TERMINAL_BUFFER_START + row * TERMINAL_WIDTH + column
}

/// The byte shown in the given column and row of the terminal.
pub fn char_at(memory: &Memory, column: usize, row: usize) -> (r: u8)
    requires
        memory.wf(),
        column < TERMINAL_WIDTH,
        row < TERMINAL_HEIGHT,
    ensures
        r == memory@[cell_address(column as int, row as int)],
{
    memory.read_byte((TERMINAL_BUFFER_START as usize + row * TERMINAL_WIDTH + column) as Address)
}

} // verus!
