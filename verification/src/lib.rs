//! An 8-bit accumulator machine: a 256-cell memory shared by program and
//! data, memory-mapped input ports, a bounded most-recent-first output log,
//! and a sixteen-kind instruction set selected by an opcode's high nibble.
//!
//! `operator` holds the instruction table (decode and per-instruction
//! semantics), `state` the machine snapshot and the fetch-execute loop,
//! `uistate` the cursor state a display layer keeps over the machine.

pub mod operator;
pub mod state;
pub mod uistate;
