//! The reduction: one program that verifies a batch of proofs and states
//! what they establish together.
//!
//! A batch mixes two kinds of proof. An execution shard is verified against
//! the machine that ran the program, with a copy of the transcript that its
//! prover used; on the side, the reduction rebuilds that transcript from the
//! shards it sees. A proof of an earlier reduction is verified against the
//! recursion machine, with a transcript of its own that starts from the
//! recursion verifying key.

use crate::challenger::{absorb_all, fresh, DuplexChallenger, TranscriptState};
use crate::field::Felt;
use crate::fri::{const_fri_config, fri_config_spec, FriConfig, FriConfigSpec, FriConfigVariable,
    TwoAdicMultiplicativeCoset};
use crate::poseidon2::{Perm, PermSpec};
use crate::stark::{Machine, ShardProof, ShardProofSpec, ShardVerification, ShardVerificationSpec,
    VerifyingKey, DIGEST_SIZE, SHARD_INDEX_OFFSET};
use crate::util::copy_vec;
use vstd::prelude::*;

verus! {

/// Everything the reduction reads, in the order in which it is read.
#[derive(Clone, Debug, PartialEq, Eq)]
pub struct ReduceWitness {
    /// The proofs of the batch.
    pub proofs: Vec<ShardProof>,
    /// For each proof, zero if it is an execution shard.
    pub is_recursive_flags: Vec<usize>,
    /// For each proof, where each chip's columns stand in it.
    pub sorted_indices: Vec<Vec<usize>>,
    /// The transcript with which the shards of the execution were proved.
    pub sp1_challenger: DuplexChallenger,
    /// The transcript that the reduction goes on rebuilding.
    pub reconstruct_challenger: DuplexChallenger,
    /// Where each chip's preprocessed columns stand, for the execution machine.
    pub prep_sorted_indices: Vec<usize>,
    /// The domains of the preprocessed columns of the execution machine.
    pub prep_domains: Vec<TwoAdicMultiplicativeCoset>,
    /// Where each chip's preprocessed columns stand, for the recursion machine.
    pub recursion_prep_sorted_indices: Vec<usize>,
    /// The domains of the preprocessed columns of the recursion machine.
    pub recursion_prep_domains: Vec<TwoAdicMultiplicativeCoset>,
    /// The verifying key of the execution machine.
    pub sp1_vk: VerifyingKey,
    /// The verifying key of the recursion machine.
    pub recursion_vk: VerifyingKey,
}

/// A witness as a mathematical value.
pub struct ReduceWitnessSpec {
    pub proofs: Seq<ShardProofSpec>,
    pub is_recursive_flags: Seq<usize>,
    pub sorted_indices: Seq<Seq<usize>>,
    pub sp1_challenger: TranscriptState,
    pub reconstruct_challenger: TranscriptState,
    pub prep_sorted_indices: Seq<usize>,
    pub prep_domains: Seq<TwoAdicMultiplicativeCoset>,
    pub recursion_prep_sorted_indices: Seq<usize>,
    pub recursion_prep_domains: Seq<TwoAdicMultiplicativeCoset>,
    pub sp1_vk: Seq<Felt>,
    pub recursion_vk: Seq<Felt>,
}

impl View for ReduceWitness {
    type V = ReduceWitnessSpec;

    open spec fn view(&self) -> ReduceWitnessSpec {
        ReduceWitnessSpec {
            proofs: self.proofs@.map_values(|p: ShardProof| p@),
            is_recursive_flags: self.is_recursive_flags@,
            sorted_indices: self.sorted_indices@.map_values(|v: Vec<usize>| v@),
            sp1_challenger: self.sp1_challenger@,
            reconstruct_challenger: self.reconstruct_challenger@,
            prep_sorted_indices: self.prep_sorted_indices@,
            prep_domains: self.prep_domains@,
            recursion_prep_sorted_indices: self.recursion_prep_sorted_indices@,
            recursion_prep_domains: self.recursion_prep_domains@,
            sp1_vk: self.sp1_vk@,
            recursion_vk: self.recursion_vk@,
        }
    }
}

/// What the statement says of the execution itself. The reduction states
/// these values as it is given them; it derives none of them from the proofs.
#[derive(Clone, Copy, Debug, PartialEq, Eq)]
pub struct ExecutionSummary {
    pub committed_values_digest: [Felt; DIGEST_SIZE],
    pub start_pc: Felt,
    pub next_pc: Felt,
    pub exit_code: Felt,
}

/// The public statement of a reduction, its fields in the order in which a
/// later reduction reads them.
#[derive(Clone, Debug, PartialEq, Eq)]
pub struct PublicStatement {
    pub committed_values_digest: [Felt; DIGEST_SIZE],
    pub start_pc: Felt,
    pub next_pc: Felt,
    pub exit_code: Felt,
    /// The rebuilt transcript after the last proof.
    pub reconstruct_challenger: DuplexChallenger,
    /// The rebuilt transcript before the first proof.
    pub pre_reconstruct_challenger: DuplexChallenger,
    /// The transcript with which the shards of the execution were proved.
    pub verify_start_challenger: DuplexChallenger,
    pub recursion_vk: VerifyingKey,
}

/// A public statement as a mathematical value.
pub struct PublicStatementSpec {
    pub committed_values_digest: Seq<Felt>,
    pub start_pc: Felt,
    pub next_pc: Felt,
    pub exit_code: Felt,
    pub reconstruct_challenger: TranscriptState,
    pub pre_reconstruct_challenger: TranscriptState,
    pub verify_start_challenger: TranscriptState,
    pub recursion_vk: Seq<Felt>,
}

impl View for PublicStatement {
    type V = PublicStatementSpec;

    open spec fn view(&self) -> PublicStatementSpec {
        PublicStatementSpec {
            committed_values_digest: self.committed_values_digest@,
            start_pc: self.start_pc,
            next_pc: self.next_pc,
            exit_code: self.exit_code,
            reconstruct_challenger: self.reconstruct_challenger@,
            pre_reconstruct_challenger: self.pre_reconstruct_challenger@,
            verify_start_challenger: self.verify_start_challenger@,
            recursion_vk: self.recursion_vk@,
        }
    }
}

/// The program that a reduction compiles to: the configuration of the
/// commitment scheme, one call of the shard verifier for each proof of the
/// batch, in the order of the batch, and the public statement.
#[derive(Clone, Debug, PartialEq, Eq)]
pub struct RecursionProgram {
    pub config: FriConfigVariable,
    pub verifications: Vec<ShardVerification>,
    pub statement: PublicStatement,
}

/// A program as a mathematical value.
pub struct RecursionProgramSpec {
    pub config: FriConfigSpec,
    pub verifications: Seq<ShardVerificationSpec>,
    pub statement: PublicStatementSpec,
}

impl View for RecursionProgram {
    type V = RecursionProgramSpec;

    open spec fn view(&self) -> RecursionProgramSpec {
        RecursionProgramSpec {
            config: self.config@,
            verifications: self.verifications@.map_values(|v: ShardVerification| v@),
            statement: self.statement@,
        }
    }
}

/// Why a witness cannot be built into a program.
#[derive(Clone, Copy, Debug, PartialEq, Eq, Structural)]
pub enum BuildError {
    /// There is not one flag for each proof.
    FlagCountMismatch,
    /// There is not one column order for each proof.
    MetadataCountMismatch,
    /// The public values of the execution shard at this position end before
    /// the shard index.
    MissingShardIndex { proof: usize },
}

/// The path that a proof takes through the reduction.
#[derive(Clone, Copy, Debug, PartialEq, Eq, Structural)]
pub enum Branch {
    /// An execution shard; `first_shard` says whether it opens an execution.
    Base { first_shard: bool },
    /// A proof of an earlier reduction.
    Recursive,
}

/// Whether a flag marks an execution shard.
pub open spec fn is_base(flag: usize) -> bool {
    flag == 0
}

/// Whether the public values reach the shard index.
pub open spec fn has_shard_index(proof: ShardProofSpec) -> bool {
    proof.public_values.len() > SHARD_INDEX_OFFSET
}

/// Whether the shard index is one: the shard opens an execution.
pub open spec fn is_first_shard(proof: ShardProofSpec) -> bool {
    proof.public_values[SHARD_INDEX_OFFSET as int]@ == 1
}

/// The path of a proof with the given flag; none for an execution shard
/// whose public values end before the shard index.
pub open spec fn branch_of(flag: usize, proof: ShardProofSpec) -> Option<Branch> {
    if !is_base(flag) {
        Some(Branch::Recursive)
    } else if has_shard_index(proof) {
        Some(Branch::Base { first_shard: is_first_shard(proof) })
    } else {
        None
    }
}

/// The rebuilt transcript after an execution shard with the given
/// commitment. A first shard starts the transcript afresh from the verifying
/// key; any shard then adds its commitment.
pub open spec fn base_step(
    perm: PermSpec,
    vk: Seq<Felt>,
    t: TranscriptState,
    commit: Seq<Felt>,
    first_shard: bool,
) -> TranscriptState {
    absorb_all(
        perm,
        if first_shard {
            absorb_all(perm, fresh(), vk)
        } else {
            t
        },
        commit,
    )
}

/// The rebuilt transcript after one proof of the batch. Only execution
/// shards change it.
pub open spec fn reconstruct_step(
    perm: PermSpec,
    vk: Seq<Felt>,
    t: TranscriptState,
    proof: ShardProofSpec,
    flag: usize,
) -> TranscriptState {
    if is_base(flag) {
        base_step(perm, vk, t, proof.main_commit, is_first_shard(proof))
    } else {
        t
    }
}

/// The rebuilt transcript after the first `count` proofs of the batch.
pub open spec fn reconstruct_upto(
    perm: PermSpec,
    vk: Seq<Felt>,
    t: TranscriptState,
    proofs: Seq<ShardProofSpec>,
    flags: Seq<usize>,
    count: nat,
) -> TranscriptState
    decreases count,
{
    if count == 0 {
        t
    } else {
        reconstruct_step(
            perm,
            vk,
            reconstruct_upto(perm, vk, t, proofs, flags, (count - 1) as nat),
            proofs[count - 1],
            flags[count - 1],
        )
    }
}

/// The rebuilt transcript after the whole batch.
pub open spec fn reconstruct(
    perm: PermSpec,
    vk: Seq<Felt>,
    t: TranscriptState,
    proofs: Seq<ShardProofSpec>,
    flags: Seq<usize>,
) -> TranscriptState {
    reconstruct_upto(perm, vk, t, proofs, flags, proofs.len())
}

/// The transcript from which every proof of an earlier reduction starts: it
/// has absorbed the recursion verifying key.
pub open spec fn recursion_start(perm: PermSpec, recursion_vk: Seq<Felt>) -> TranscriptState {
    absorb_all(perm, fresh(), recursion_vk)
}

/// The transcript with which a proof of an earlier reduction is verified:
/// after the recursion verifying key it absorbs the proof's commitment and
/// then all its public values.
pub open spec fn recursive_transcript(
    perm: PermSpec,
    start: TranscriptState,
    proof: ShardProofSpec,
) -> TranscriptState {
    absorb_all(perm, absorb_all(perm, start, proof.main_commit), proof.public_values)
}

/// The call of the shard verifier for an execution shard at position `i`:
/// against the execution machine, with the transcript that the shards were
/// proved with, as the witness gives it.
pub open spec fn base_verification_spec(w: ReduceWitnessSpec, i: int) -> ShardVerificationSpec {
    ShardVerificationSpec {
        proof_index: i as usize,
        machine: Machine::Riscv,
        vk: w.sp1_vk,
        challenger: w.sp1_challenger,
        sorted_indices: w.sorted_indices[i],
        prep_sorted_indices: w.prep_sorted_indices,
        prep_domains: w.prep_domains,
    }
}

/// The call of the shard verifier for a proof of an earlier reduction at
/// position `i`: against the recursion machine, with a transcript of the
/// proof's own.
pub open spec fn recursive_verification_spec(perm: PermSpec, w: ReduceWitnessSpec, i: int) ->
    ShardVerificationSpec {
    ShardVerificationSpec {
        proof_index: i as usize,
        machine: Machine::Recursion,
        vk: w.recursion_vk,
        challenger: recursive_transcript(
            perm,
            recursion_start(perm, w.recursion_vk),
            w.proofs[i],
        ),
        sorted_indices: w.sorted_indices[i],
        prep_sorted_indices: w.recursion_prep_sorted_indices,
        prep_domains: w.recursion_prep_domains,
    }
}

/// The call of the shard verifier for the proof at position `i`.
pub open spec fn verification_spec(perm: PermSpec, w: ReduceWitnessSpec, i: int) ->
    ShardVerificationSpec {
    if is_base(w.is_recursive_flags[i]) {
        base_verification_spec(w, i)
    } else {
        recursive_verification_spec(perm, w, i)
    }
}

/// The public statement of the reduction of a witness.
pub open spec fn statement_spec(perm: PermSpec, w: ReduceWitnessSpec, summary: ExecutionSummary) ->
    PublicStatementSpec {
    PublicStatementSpec {
        committed_values_digest: summary.committed_values_digest@,
        start_pc: summary.start_pc,
        next_pc: summary.next_pc,
        exit_code: summary.exit_code,
        reconstruct_challenger: reconstruct(
            perm,
            w.sp1_vk,
            w.reconstruct_challenger,
            w.proofs,
            w.is_recursive_flags,
        ),
        pre_reconstruct_challenger: w.reconstruct_challenger,
        verify_start_challenger: w.sp1_challenger,
        recursion_vk: w.recursion_vk,
    }
}

/// The program that the reduction of a witness compiles to.
pub open spec fn program_spec(
    perm: PermSpec,
    config: FriConfig,
    w: ReduceWitnessSpec,
    summary: ExecutionSummary,
) -> RecursionProgramSpec {
    RecursionProgramSpec {
        config: fri_config_spec(config),
        verifications: Seq::new(w.proofs.len(), |i: int| verification_spec(perm, w, i)),
        statement: statement_spec(perm, w, summary),
    }
}

/// Whether the witness has one flag and one column order for each proof.
pub open spec fn well_shaped(w: ReduceWitnessSpec) -> bool {
    &&& w.is_recursive_flags.len() == w.proofs.len()
    &&& w.sorted_indices.len() == w.proofs.len()
}

/// Whether the proof at position `i` is an execution shard whose public
/// values end before the shard index.
pub open spec fn lacks_shard_index(w: ReduceWitnessSpec, i: int) -> bool {
    is_base(w.is_recursive_flags[i]) && !has_shard_index(w.proofs[i])
}

/// Whether a program can be built from the witness.
pub open spec fn buildable(w: ReduceWitnessSpec) -> bool {
    &&& well_shaped(w)
    &&& forall|i: int| 0 <= i < w.proofs.len() ==> !lacks_shard_index(w, i)
}

/// Whether the witness is refused with the given error. The counts are
/// compared first, the flags before the column orders. Then the proofs are
/// read in the order of the batch, and the first execution shard without a
/// shard index is reported.
pub open spec fn rejects(w: ReduceWitnessSpec, error: BuildError) -> bool {
    match error {
        BuildError::FlagCountMismatch => w.is_recursive_flags.len() != w.proofs.len(),
        BuildError::MetadataCountMismatch => {
            &&& w.is_recursive_flags.len() == w.proofs.len()
            &&& w.sorted_indices.len() != w.proofs.len()
        },
        BuildError::MissingShardIndex { proof } => {
            &&& well_shaped(w)
            &&& proof < w.proofs.len()
            &&& lacks_shard_index(w, proof as int)
            &&& forall|j: int| 0 <= j < proof ==> !lacks_shard_index(w, j)
        },
    }
}

/// What building a program from a witness may give: the program of the
/// witness where one can be built, and else the error with which the witness
/// is refused.
pub open spec fn builds_to(
    perm: PermSpec,
    config: FriConfig,
    w: ReduceWitnessSpec,
    summary: ExecutionSummary,
    outcome: Result<RecursionProgramSpec, BuildError>,
) -> bool {
    match outcome {
        Ok(program) => buildable(w) && program == program_spec(perm, config, w, summary),
        Err(error) => rejects(w, error),
    }
}

/// The same witness, with the same permutation, parameters and summary,
/// gives the same outcome every time: the same program, or the same error.
pub proof fn lemma_outcome_is_determined(
    perm: PermSpec,
    config: FriConfig,
    w: ReduceWitnessSpec,
    summary: ExecutionSummary,
    first: Result<RecursionProgramSpec, BuildError>,
    second: Result<RecursionProgramSpec, BuildError>,
)
    requires
        builds_to(perm, config, w, summary, first),
        builds_to(perm, config, w, summary, second),
    ensures
        first == second,
{
    match (first, second) {
        (
            Err(BuildError::MissingShardIndex { proof: a }),
            Err(BuildError::MissingShardIndex { proof: b }),
        ) => {
            if a < b {
                assert(lacks_shard_index(w, a as int));
            } else if b < a {
                assert(lacks_shard_index(w, b as int));
            }
        },
        (Ok(_), Err(BuildError::MissingShardIndex { proof })) => {
            assert(lacks_shard_index(w, proof as int));
        },
        (Err(BuildError::MissingShardIndex { proof }), Ok(_)) => {
            assert(lacks_shard_index(w, proof as int));
        },
        _ => {},
    }
}

/// The number that a field element stands for.
fn felt_to_var(felt: Felt) -> (var: u32)
    ensures
        var == felt@,
{
    felt.as_canonical_u32()
}

/// Decides the path of a proof from its flag and its public values.
pub fn select_branch(flag: usize, proof: &ShardProof) -> (branch: Option<Branch>)
    ensures
        branch == branch_of(flag, proof@),
{
    if flag != 0 {
        Some(Branch::Recursive)
    } else if proof.public_values.len() > SHARD_INDEX_OFFSET {
        let shard = felt_to_var(proof.public_values[SHARD_INDEX_OFFSET]);
        Some(Branch::Base { first_shard: shard == 1 })
    } else {
        None
    }
}

/// Compares the counts of a witness with the size of its batch.
pub fn check_witness(witness: &ReduceWitness) -> (r: Result<(), BuildError>)
    ensures
        r is Ok <==> well_shaped(witness@),
        r matches Err(e) ==> rejects(witness@, e),
{
    if witness.is_recursive_flags.len() != witness.proofs.len() {
        Err(BuildError::FlagCountMismatch)
    } else if witness.sorted_indices.len() != witness.proofs.len() {
        Err(BuildError::MetadataCountMismatch)
    } else {
        Ok(())
    }
}

/// The transcript from which every proof of an earlier reduction starts.
pub fn setup_recursion_challenger(perm: &Perm, recursion_vk: &VerifyingKey) -> (challenger:
    DuplexChallenger)
    ensures
        challenger@ == recursion_start(perm@, recursion_vk@),
{
    let mut challenger = DuplexChallenger::initialize();
    challenger.observe_slice(perm, &recursion_vk.commitment);
    challenger
}

/// Takes an execution shard into the rebuilt transcript.
pub fn reconstruct_base_shard(
    perm: &Perm,
    vk: &VerifyingKey,
    proof: &ShardProof,
    first_shard: bool,
    reconstruct_challenger: &mut DuplexChallenger,
)
    ensures
        final(reconstruct_challenger)@ == base_step(
            perm@,
            vk@,
            old(reconstruct_challenger)@,
            proof@.main_commit,
            first_shard,
        ),
{
    if first_shard {
        *reconstruct_challenger = DuplexChallenger::initialize();
        reconstruct_challenger.observe_slice(perm, &vk.commitment);
    }
    reconstruct_challenger.observe_slice(perm, &proof.main_commit);
}

/// The transcript with which a proof of an earlier reduction is verified: a
/// copy of `recursion_challenger` that has absorbed the proof's commitment
/// and its public values.
pub fn recursive_challenger(
    perm: &Perm,
    recursion_challenger: &DuplexChallenger,
    proof: &ShardProof,
) -> (current: DuplexChallenger)
    ensures
        current@ == recursive_transcript(perm@, recursion_challenger@, proof@),
{
    let mut current = recursion_challenger.fork();
    current.observe_slice(perm, &proof.main_commit);
    current.observe_slice(perm, proof.public_values.as_slice());
    current
}

/// The call of the shard verifier for the execution shard at position
/// `index`: against the execution machine, with a copy of the transcript
/// that the shards were proved with.
fn base_verification(witness: &ReduceWitness, index: usize) -> (call: ShardVerification)
    requires
        well_shaped(witness@),
        index < witness.proofs@.len(),
    ensures
        call@ == base_verification_spec(witness@, index as int),
{
    ShardVerification {
        proof_index: index,
        machine: Machine::Riscv,
        vk: witness.sp1_vk,
        challenger: witness.sp1_challenger.fork(),
        sorted_indices: copy_vec(&witness.sorted_indices[index]),
        prep_sorted_indices: copy_vec(&witness.prep_sorted_indices),
        prep_domains: copy_vec(&witness.prep_domains),
    }
}

/// The call of the shard verifier for the proof of an earlier reduction at
/// position `index`: against the recursion machine, with a transcript that
/// starts from `recursion_challenger`.
fn recursive_verification(
    perm: &Perm,
    witness: &ReduceWitness,
    recursion_challenger: &DuplexChallenger,
    index: usize,
) -> (call: ShardVerification)
    requires
        well_shaped(witness@),
        index < witness.proofs@.len(),
        recursion_challenger@ == recursion_start(perm@, witness.recursion_vk@),
    ensures
        call@ == recursive_verification_spec(perm@, witness@, index as int),
{
    ShardVerification {
        proof_index: index,
        machine: Machine::Recursion,
        vk: witness.recursion_vk,
        challenger: recursive_challenger(perm, recursion_challenger, &witness.proofs[index]),
        sorted_indices: copy_vec(&witness.sorted_indices[index]),
        prep_sorted_indices: copy_vec(&witness.recursion_prep_sorted_indices),
        prep_domains: copy_vec(&witness.recursion_prep_domains),
    }
}

/// Puts the public statement together.
pub fn assemble_statement(
    summary: ExecutionSummary,
    reconstruct_challenger: DuplexChallenger,
    pre_reconstruct_challenger: DuplexChallenger,
    verify_start_challenger: DuplexChallenger,
    recursion_vk: VerifyingKey,
) -> (statement: PublicStatement)
    ensures
        statement@ == (PublicStatementSpec {
            committed_values_digest: summary.committed_values_digest@,
            start_pc: summary.start_pc,
            next_pc: summary.next_pc,
            exit_code: summary.exit_code,
            reconstruct_challenger: reconstruct_challenger@,
            pre_reconstruct_challenger: pre_reconstruct_challenger@,
            verify_start_challenger: verify_start_challenger@,
            recursion_vk: recursion_vk@,
        }),
{
    PublicStatement {
        committed_values_digest: summary.committed_values_digest,
        start_pc: summary.start_pc,
        next_pc: summary.next_pc,
        exit_code: summary.exit_code,
        reconstruct_challenger,
        pre_reconstruct_challenger,
        verify_start_challenger,
        recursion_vk,
    }
}

/// Whether a statement hangs together: the transcript with which the shards
/// were proved is the rebuilt transcript once that has also absorbed the
/// digest of the committed values. Building a program does not test this;
/// whoever takes the statement over has to.
pub open spec fn start_challenger_matches(perm: PermSpec, statement: PublicStatementSpec) -> bool {
    statement.verify_start_challenger == absorb_all(
        perm,
        statement.reconstruct_challenger,
        statement.committed_values_digest,
    )
}

impl PublicStatement {
    /// Tests whether the statement hangs together.
    pub fn check_start_challenger(&self, perm: &Perm) -> (ok: bool)
        ensures
            ok == start_challenger_matches(perm@, self@),
    {
        let mut expected = self.reconstruct_challenger.fork();
        expected.observe_slice(perm, &self.committed_values_digest);
        self.verify_start_challenger.same_state(&expected)
    }
}

/// Whether a batch stands, given what the shard verifier said of each call:
/// it must have been asked about every call, and have accepted every proof.
/// One refusal brings the whole batch down.
pub open spec fn batch_accepted(calls: nat, verdicts: Seq<bool>) -> bool {
    &&& verdicts.len() == calls
    &&& forall|i: int| 0 <= i < verdicts.len() ==> verdicts[i]
}

impl RecursionProgram {
    /// Tests whether the batch stands, given the verdicts of the shard
    /// verifier on the calls of the program, in their order.
    pub fn accepts(&self, verdicts: &[bool]) -> (ok: bool)
        ensures
            ok == batch_accepted(self.verifications@.len(), verdicts@),
    {
        if verdicts.len() != self.verifications.len() {
            return false;
        }
        let mut i: usize = 0;
        while i < verdicts.len()
            invariant
                i <= verdicts.len(),
                verdicts@.len() == self.verifications@.len(),
                forall|j: int| 0 <= j < i ==> verdicts@[j],
            decreases verdicts.len() - i,
        {
            if !verdicts[i] {
                return false;
            }
            i = i + 1;
        }
        true
    }
}

/// Builds the program that reduces a batch of proofs.
///
/// The work goes in stages, and none is gone back to. The counts of the
/// witness are compared. The configuration of the commitment scheme is
/// built. The recursion transcript absorbs the recursion verifying key. The
/// proofs are taken in the order of the batch, and none is skipped: each is
/// handed to the shard verifier with a transcript of its own, and only the
/// rebuilt transcript is carried from one proof to the next. The statement is
/// put together, and the program is made of the configuration, the calls and
/// the statement.
pub fn build_reduce(
    perm: &Perm,
    config: FriConfig,
    witness: &ReduceWitness,
    summary: ExecutionSummary,
) -> (r: Result<RecursionProgram, BuildError>)
    ensures
        r is Ok <==> buildable(witness@),
        r matches Ok(program) ==> program@ == program_spec(perm@, config, witness@, summary),
        r matches Err(error) ==> rejects(witness@, error),
        builds_to(
            perm@,
            config,
            witness@,
            summary,
            match r {
                Ok(program) => Ok(program@),
                Err(error) => Err(error),
            },
        ),
{
    match check_witness(witness) {
        Err(error) => {
            return Err(error);
        },
        Ok(()) => {},
    }
    let config_variable = const_fri_config(config);
    let num_proofs: usize = witness.proofs.len();
    let pre_reconstruct_challenger = witness.reconstruct_challenger.fork();
    let mut reconstruct_challenger = witness.reconstruct_challenger.fork();
    let recursion_challenger = setup_recursion_challenger(perm, &witness.recursion_vk);
    let mut verifications: Vec<ShardVerification> = Vec::new();
    let mut i: usize = 0;
    while i < num_proofs
        invariant
            i <= num_proofs == witness.proofs@.len(),
            well_shaped(witness@),
            recursion_challenger@ == recursion_start(perm@, witness.recursion_vk@),
            reconstruct_challenger@ == reconstruct_upto(
                perm@,
                witness@.sp1_vk,
                witness@.reconstruct_challenger,
                witness@.proofs,
                witness@.is_recursive_flags,
                i as nat,
            ),
            verifications@.len() == i,
            forall|j: int|
                0 <= j < i ==> (#[trigger] verifications@[j])@ == verification_spec(
                    perm@,
                    witness@,
                    j,
                ),
            forall|j: int| 0 <= j < i ==> !lacks_shard_index(witness@, j),
        decreases num_proofs - i,
    {
        let proof = &witness.proofs[i];
        match select_branch(witness.is_recursive_flags[i], proof) {
            None => {
                assert(lacks_shard_index(witness@, i as int));
                return Err(BuildError::MissingShardIndex { proof: i });
            },
            Some(Branch::Base { first_shard }) => {
                reconstruct_base_shard(
                    perm,
                    &witness.sp1_vk,
                    proof,
                    first_shard,
                    &mut reconstruct_challenger,
                );
                verifications.push(base_verification(witness, i));
            },
            Some(Branch::Recursive) => {
                verifications.push(
                    recursive_verification(perm, witness, &recursion_challenger, i),
                );
            },
        }
        i = i + 1;
    }
    let statement = assemble_statement(
        summary,
        reconstruct_challenger,
        pre_reconstruct_challenger,
        witness.sp1_challenger.fork(),
        witness.recursion_vk,
    );
    let program = RecursionProgram { config: config_variable, verifications, statement };
    assert(program@.verifications =~= program_spec(
        perm@,
        config,
        witness@,
        summary,
    ).verifications);
    Ok(program)
}

} // verus!
