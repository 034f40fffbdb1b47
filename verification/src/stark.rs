//! What the reduction reads of a shard proof and of a verifying key, and the
//! call by which one proof is handed to the shard verifier.

use crate::challenger::{DuplexChallenger, TranscriptState};
use crate::field::Felt;
use crate::fri::TwoAdicMultiplicativeCoset;
use vstd::prelude::*;

verus! {

/// The number of elements in a commitment digest.
pub const DIGEST_SIZE: usize = 8;

/// Where the public values of an execution shard hold the shard's index.
pub const SHARD_INDEX_OFFSET: usize = 32;

/// A commitment to the preprocessed columns of a machine.
#[derive(Clone, Copy, Debug, PartialEq, Eq)]
pub struct VerifyingKey {
    pub commitment: [Felt; DIGEST_SIZE],
}

impl View for VerifyingKey {
    type V = Seq<Felt>;

    open spec fn view(&self) -> Seq<Felt> {
        self.commitment@
    }
}

/// A shard proof, as far as the reduction reads it: the commitment to the
/// main trace and the public values. The openings stay with the caller, who
/// finds them again by the proof's position in the batch.
#[derive(Clone, Debug, PartialEq, Eq)]
pub struct ShardProof {
    pub main_commit: [Felt; DIGEST_SIZE],
    pub public_values: Vec<Felt>,
}

/// A shard proof as a mathematical value.
pub struct ShardProofSpec {
    pub main_commit: Seq<Felt>,
    pub public_values: Seq<Felt>,
}

impl View for ShardProof {
    type V = ShardProofSpec;

    open spec fn view(&self) -> ShardProofSpec {
        ShardProofSpec { main_commit: self.main_commit@, public_values: self.public_values@ }
    }
}

/// The machines whose proofs a batch may hold.
#[derive(Clone, Copy, Debug, PartialEq, Eq, Structural)]
pub enum Machine {
    /// The machine that executes the program: its proofs are execution shards.
    Riscv,
    /// The machine that runs the reduction itself: its proofs are earlier
    /// reductions.
    Recursion,
}

/// One call of the shard verifier: the proof by its position in the batch,
/// and everything else that is handed over with it but the configuration of
/// the commitment scheme, which the program holds once for all its calls.
/// The verifier absorbs into `challenger`, which is a copy made for this call
/// alone.
#[derive(Clone, Debug, PartialEq, Eq)]
pub struct ShardVerification {
    pub proof_index: usize,
    pub machine: Machine,
    pub vk: VerifyingKey,
    pub challenger: DuplexChallenger,
    pub sorted_indices: Vec<usize>,
    pub prep_sorted_indices: Vec<usize>,
    pub prep_domains: Vec<TwoAdicMultiplicativeCoset>,
}

/// A call of the shard verifier as a mathematical value.
pub struct ShardVerificationSpec {
    pub proof_index: usize,
    pub machine: Machine,
    pub vk: Seq<Felt>,
    pub challenger: TranscriptState,
    pub sorted_indices: Seq<usize>,
    pub prep_sorted_indices: Seq<usize>,
    pub prep_domains: Seq<TwoAdicMultiplicativeCoset>,
}

impl View for ShardVerification {
    type V = ShardVerificationSpec;

    open spec fn view(&self) -> ShardVerificationSpec {
        ShardVerificationSpec {
            proof_index: self.proof_index,
            machine: self.machine,
            vk: self.vk@,
            challenger: self.challenger@,
            sorted_indices: self.sorted_indices@,
            prep_sorted_indices: self.prep_sorted_indices@,
            prep_domains: self.prep_domains@,
        }
    }
}

} // verus!
