//! Instructions of the virtual machine whose execution the shard proofs
//! attest.

use vstd::prelude::*;

verus! {

/// The number of operands that an instruction carries.
pub const OPERAND_COUNT: usize = 5;

/// One instruction: an opcode and its operands.
#[derive(Clone, Copy, Debug, PartialEq, Eq)]
pub struct Instruction<F> {
    pub opcode: u32,
    pub operands: [F; OPERAND_COUNT],
}

} // verus!
