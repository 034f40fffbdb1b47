//! The record that the virtual machine leaves for each cycle it executes.

use crate::program::Instruction;
use vstd::prelude::*;

verus! {

/// What the processor did in one cycle: the clock, the frame pointer and the
/// program counter at its start, and the instruction it executed.
#[derive(Clone, Copy, Debug, PartialEq, Eq)]
pub struct CpuEvent {
    pub clk: u32,
    pub fp: i32,
    pub pc: u32,
    pub instruction: Instruction<i32>,
}

} // verus!
