//! Builds the program that verifies a batch of shard proofs inside a
//! recursive STARK and reduces them to one public statement.

pub mod challenger;
pub mod cpu;
pub mod field;
pub mod fri;
pub mod poseidon2;
pub mod program;
pub mod reconstruction;
pub mod reduce;
pub mod stark;
pub mod util;
