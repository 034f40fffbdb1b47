use p3_baby_bear::{BabyBear, DiffusionMatrixBabyBear};
use p3_challenger::{CanObserve, DuplexChallenger as Plonky3Challenger};
use p3_field::{AbstractField, PrimeField32};
use p3_poseidon2::{Poseidon2, Poseidon2ExternalMatrixGeneral};
use sp1_recursion_program::challenger::DuplexChallenger;
use sp1_recursion_program::field::Felt;
use sp1_recursion_program::fri::{const_fri_config, FriConfig, TwoAdicMultiplicativeCoset};
use sp1_recursion_program::poseidon2::Perm;
use sp1_recursion_program::reduce::{
    assemble_statement, build_reduce, check_witness, reconstruct_base_shard, recursive_challenger,
    select_branch, setup_recursion_challenger, Branch, BuildError, ExecutionSummary,
    ReduceWitness,
};
use sp1_recursion_program::stark::{Machine, ShardProof, VerifyingKey, SHARD_INDEX_OFFSET};

type Plonky3Perm =
    Poseidon2<BabyBear, Poseidon2ExternalMatrixGeneral, DiffusionMatrixBabyBear, 16, 7>;
type Plonky3 = Plonky3Challenger<BabyBear, Plonky3Perm, 16, 8>;

fn felt(value: u32) -> Felt {
    Felt::new(value).unwrap()
}

fn felts(values: &[u32]) -> Vec<Felt> {
    values.iter().map(|v| felt(*v)).collect()
}

/// A fixed stream of field elements for each seed.
fn stream(seed: u32, count: usize) -> Vec<u32> {
    let mut x = u64::from(seed);
    let mut out = Vec::new();
    for _ in 0..count {
        x = (x * 48271) % 2147483647;
        out.push((x % 2013265921) as u32);
    }
    out
}

fn digest(seed: u32) -> [Felt; 8] {
    let values = stream(seed, 8);
    let mut out = [Felt::zero(); 8];
    for i in 0..8 {
        out[i] = felt(values[i]);
    }
    out
}

fn test_perm() -> Perm {
    let external = stream(11, 8 * 16);
    let internal = stream(23, 13);
    let mut rows = Vec::new();
    for r in 0..8 {
        let mut row = [Felt::zero(); 16];
        for c in 0..16 {
            row[c] = felt(external[r * 16 + c]);
        }
        rows.push(row);
    }
    Perm { external_constants: rows, internal_constants: felts(&internal) }
}

fn plonky3_perm(perm: &Perm) -> Plonky3Perm {
    let external = perm
        .external_constants
        .iter()
        .map(|row| row.map(|e| BabyBear::from_canonical_u32(e.as_canonical_u32())))
        .collect::<Vec<_>>();
    let internal = perm
        .internal_constants
        .iter()
        .map(|e| BabyBear::from_canonical_u32(e.as_canonical_u32()))
        .collect::<Vec<_>>();
    Poseidon2::new(
        external.len(),
        external,
        Poseidon2ExternalMatrixGeneral,
        internal.len(),
        internal,
        DiffusionMatrixBabyBear,
    )
}

/// The sponge of the challenger crate after it has absorbed the given runs of elements.
fn plonky3_after(perm: &Perm, runs: &[&[Felt]]) -> Plonky3 {
    let mut theirs = Plonky3Challenger::new(plonky3_perm(perm));
    for run in runs {
        for e in run.iter() {
            theirs.observe(BabyBear::from_canonical_u32(e.as_canonical_u32()));
        }
    }
    theirs
}

fn assert_same(ours: &DuplexChallenger, theirs: &Plonky3) {
    let state: Vec<u32> = ours.sponge_state.iter().map(|e| e.as_canonical_u32()).collect();
    let input: Vec<u32> = ours.input_buffer.iter().map(|e| e.as_canonical_u32()).collect();
    let output: Vec<u32> = ours.output_buffer.iter().map(|e| e.as_canonical_u32()).collect();
    let their_state: Vec<u32> = theirs.sponge_state.iter().map(|e| e.as_canonical_u32()).collect();
    let their_input: Vec<u32> = theirs.input_buffer.iter().map(|e| e.as_canonical_u32()).collect();
    let their_output: Vec<u32> = theirs.output_buffer.iter().map(|e| e.as_canonical_u32()).collect();
    assert_eq!(state, their_state);
    assert_eq!(input, their_input);
    assert_eq!(output, their_output);
}

/// An execution shard with the given shard index and commitment.
fn base_proof(shard: u32, commit_seed: u32) -> ShardProof {
    let mut public_values = felts(&stream(commit_seed + 1000, 36));
    public_values[SHARD_INDEX_OFFSET] = felt(shard);
    ShardProof { main_commit: digest(commit_seed), public_values }
}

/// A proof of an earlier reduction with the given public values.
fn recursive_proof(commit_seed: u32, public_values: &[u32]) -> ShardProof {
    ShardProof { main_commit: digest(commit_seed), public_values: felts(public_values) }
}

fn challenger_after(perm: &Perm, seed: u32, count: usize) -> DuplexChallenger {
    let mut c = DuplexChallenger::initialize();
    c.observe_slice(perm, &felts(&stream(seed, count)));
    c
}

fn coset(log_n: usize) -> TwoAdicMultiplicativeCoset {
    TwoAdicMultiplicativeCoset { log_n, shift: Felt::one() }
}

/// A witness for the given proofs and flags, with everything else fixed.
fn witness(perm: &Perm, proofs: Vec<ShardProof>, flags: Vec<usize>) -> ReduceWitness {
    let sorted_indices = (0..proofs.len()).map(|i| vec![i, 2 * i + 1, 7]).collect();
    ReduceWitness {
        proofs,
        is_recursive_flags: flags,
        sorted_indices,
        sp1_challenger: challenger_after(perm, 501, 11),
        reconstruct_challenger: challenger_after(perm, 502, 19),
        prep_sorted_indices: vec![4, 0, 2],
        prep_domains: vec![coset(3), coset(10)],
        recursion_prep_sorted_indices: vec![1, 5],
        recursion_prep_domains: vec![coset(16)],
        sp1_vk: VerifyingKey { commitment: digest(601) },
        recursion_vk: VerifyingKey { commitment: digest(602) },
    }
}

fn parameters() -> FriConfig {
    FriConfig { log_blowup: 1, num_queries: 100, proof_of_work_bits: 16 }
}

fn summary() -> ExecutionSummary {
    ExecutionSummary {
        committed_values_digest: digest(701),
        start_pc: felt(0x200800),
        next_pc: felt(0),
        exit_code: felt(0),
    }
}

#[test]
fn two_shards_of_one_execution_rebuild_the_transcript_from_the_key() {
    let perm = test_perm();
    let c1 = base_proof(1, 1);
    let c2 = base_proof(2, 2);
    let w = witness(&perm, vec![c1.clone(), c2.clone()], vec![0, 0]);
    let program = build_reduce(&perm, parameters(), &w, summary()).unwrap();
    let expected =
        plonky3_after(&perm, &[&w.sp1_vk.commitment, &c1.main_commit, &c2.main_commit]);
    assert_same(&program.statement.reconstruct_challenger, &expected);
    let state = felts(&[
        254610400, 1907167039, 1032362541, 1468689757, 166599107, 929191133, 670653735,
        1801161852, 463234361, 781378070, 267407723, 42269856, 349832820, 1063202072,
        1883742221, 1123900487,
    ]);
    assert_eq!(program.statement.reconstruct_challenger.sponge_state.to_vec(), state);
    assert_eq!(program.statement.reconstruct_challenger.input_buffer, vec![]);
    assert_eq!(program.statement.reconstruct_challenger.output_buffer, state);
}

#[test]
fn one_recursive_proof_is_verified_with_the_key_the_commitment_and_the_public_values() {
    let perm = test_perm();
    let values = stream(77, 13);
    let proof = recursive_proof(3, &values);
    let w = witness(&perm, vec![proof.clone()], vec![1]);
    let program = build_reduce(&perm, parameters(), &w, summary()).unwrap();
    assert_eq!(program.verifications.len(), 1);
    let expected = plonky3_after(
        &perm,
        &[&w.recursion_vk.commitment, &proof.main_commit, &proof.public_values],
    );
    assert_same(&program.verifications[0].challenger, &expected);
    let state = felts(&[
        1254888250, 1018009839, 1908248985, 1242215807, 1906558930, 706998835, 1735524800,
        1385126478, 776931745, 1627825969, 176042039, 807425217, 1047568592, 1079782023,
        1648005236, 422635715,
    ]);
    assert_eq!(program.verifications[0].challenger.sponge_state.to_vec(), state);
    assert_eq!(
        program.verifications[0].challenger.input_buffer,
        felts(&[523502267, 537856108, 1922380685, 322175118, 1786033051])
    );
    assert_eq!(program.verifications[0].challenger.output_buffer, vec![]);
    let start = plonky3_after(&perm, &[&w.recursion_vk.commitment]);
    assert_same(&setup_recursion_challenger(&perm, &w.recursion_vk), &start);
}

#[test]
fn recursive_proof_without_public_values_absorbs_the_key_and_the_commitment() {
    let perm = test_perm();
    let proof = recursive_proof(3, &[]);
    let w = witness(&perm, vec![proof.clone()], vec![5]);
    let program = build_reduce(&perm, parameters(), &w, summary()).unwrap();
    let expected = plonky3_after(&perm, &[&w.recursion_vk.commitment, &proof.main_commit]);
    assert_same(&program.verifications[0].challenger, &expected);
}

#[test]
fn shards_of_one_execution_are_absorbed_in_the_order_of_the_batch() {
    let perm = test_perm();
    let shards: Vec<ShardProof> = (1..=5).map(|i| base_proof(i, 10 + i)).collect();
    let w = witness(&perm, shards.clone(), vec![0; 5]);
    let program = build_reduce(&perm, parameters(), &w, summary()).unwrap();
    let mut runs: Vec<&[Felt]> = vec![&w.sp1_vk.commitment];
    for s in &shards {
        runs.push(&s.main_commit);
    }
    assert_same(&program.statement.reconstruct_challenger, &plonky3_after(&perm, &runs));

    let mut swapped = shards.clone();
    swapped.swap(2, 3);
    let w2 = witness(&perm, swapped, vec![0; 5]);
    let program2 = build_reduce(&perm, parameters(), &w2, summary()).unwrap();
    assert_ne!(
        program.statement.reconstruct_challenger,
        program2.statement.reconstruct_challenger
    );
}

#[test]
fn what_comes_before_the_first_shard_does_not_reach_the_rebuilt_transcript() {
    let perm = test_perm();
    let tail = vec![base_proof(1, 21), base_proof(2, 22), base_proof(3, 23)];
    let alone = witness(&perm, tail.clone(), vec![0, 0, 0]);
    let expected = build_reduce(&perm, parameters(), &alone, summary())
        .unwrap()
        .statement
        .reconstruct_challenger;

    let mut longer = vec![base_proof(7, 31), base_proof(8, 32)];
    longer.extend(tail.clone());
    let mut w = witness(&perm, longer, vec![0; 5]);
    w.reconstruct_challenger = challenger_after(&perm, 900, 3);
    let program = build_reduce(&perm, parameters(), &w, summary()).unwrap();
    assert_eq!(program.statement.reconstruct_challenger, expected);

    let mut runs: Vec<&[Felt]> = vec![&w.sp1_vk.commitment];
    for s in &tail {
        runs.push(&s.main_commit);
    }
    assert_same(&expected, &plonky3_after(&perm, &runs));
}

#[test]
fn shards_after_the_first_continue_the_transcript_they_are_given() {
    let perm = test_perm();
    let shards = vec![base_proof(4, 41), base_proof(5, 42)];
    let w = witness(&perm, shards.clone(), vec![0, 0]);
    let program = build_reduce(&perm, parameters(), &w, summary()).unwrap();
    let mut expected = w.reconstruct_challenger.fork();
    expected.observe_slice(&perm, &shards[0].main_commit);
    expected.observe_slice(&perm, &shards[1].main_commit);
    assert_eq!(program.statement.reconstruct_challenger, expected);
    assert_eq!(program.statement.pre_reconstruct_challenger, w.reconstruct_challenger);
}

#[test]
fn a_second_first_shard_starts_the_transcript_again() {
    let perm = test_perm();
    let shards = vec![base_proof(1, 1), base_proof(2, 2), base_proof(1, 3), base_proof(2, 4)];
    let w = witness(&perm, shards.clone(), vec![0; 4]);
    let program = build_reduce(&perm, parameters(), &w, summary()).unwrap();
    let expected = plonky3_after(
        &perm,
        &[&w.sp1_vk.commitment, &shards[2].main_commit, &shards[3].main_commit],
    );
    assert_same(&program.statement.reconstruct_challenger, &expected);
}

#[test]
fn a_recursive_proof_among_shards_leaves_the_rebuilt_transcript() {
    let perm = test_perm();
    let s1 = base_proof(1, 1);
    let s2 = base_proof(2, 2);
    let r = recursive_proof(50, &stream(51, 9));
    let plain = witness(&perm, vec![s1.clone(), s2.clone()], vec![0, 0]);
    let expected = build_reduce(&perm, parameters(), &plain, summary())
        .unwrap()
        .statement
        .reconstruct_challenger;
    for position in 0..3 {
        let mut proofs = vec![s1.clone(), s2.clone()];
        proofs.insert(position, r.clone());
        let mut flags = vec![0, 0];
        flags.insert(position, 1);
        let w = witness(&perm, proofs, flags);
        let program = build_reduce(&perm, parameters(), &w, summary()).unwrap();
        assert_eq!(program.statement.reconstruct_challenger, expected);
        assert_eq!(program.verifications.len(), 3);
        assert_eq!(program.verifications[position].machine, Machine::Recursion);
    }
}

#[test]
fn rearranging_recursive_proofs_leaves_the_rebuilt_transcript() {
    let perm = test_perm();
    let s1 = base_proof(1, 1);
    let s2 = base_proof(2, 2);
    let r1 = recursive_proof(50, &stream(51, 9));
    let r2 = recursive_proof(60, &stream(61, 40));
    let flags = vec![2, 0, 1, 0];
    let a = witness(&perm, vec![r1.clone(), s1.clone(), r2.clone(), s2.clone()], flags.clone());
    let b = witness(&perm, vec![r2.clone(), s1.clone(), r1.clone(), s2.clone()], flags);
    let pa = build_reduce(&perm, parameters(), &a, summary()).unwrap();
    let pb = build_reduce(&perm, parameters(), &b, summary()).unwrap();
    assert_eq!(pa.statement.reconstruct_challenger, pb.statement.reconstruct_challenger);
    assert_eq!(pa.verifications[0].challenger, pb.verifications[2].challenger);
    assert_eq!(pa.verifications[2].challenger, pb.verifications[0].challenger);
    assert_ne!(pa.verifications[0].challenger, pa.verifications[2].challenger);
}

#[test]
fn shards_do_not_reach_the_transcript_of_a_recursive_proof() {
    let perm = test_perm();
    let r = recursive_proof(50, &stream(51, 9));
    let alone = witness(&perm, vec![r.clone()], vec![1]);
    let expected =
        build_reduce(&perm, parameters(), &alone, summary()).unwrap().verifications[0]
            .challenger
            .clone();
    let mixed =
        witness(&perm, vec![base_proof(1, 1), r.clone(), base_proof(2, 2), r.clone()], vec![0, 1, 0, 9]);
    let program = build_reduce(&perm, parameters(), &mixed, summary()).unwrap();
    assert_eq!(program.verifications[1].challenger, expected);
    assert_eq!(program.verifications[3].challenger, expected);
}

#[test]
fn building_twice_gives_the_same_program() {
    let perm = test_perm();
    let proofs = vec![
        base_proof(1, 1),
        recursive_proof(50, &stream(51, 9)),
        base_proof(2, 2),
    ];
    let w = witness(&perm, proofs, vec![0, 1, 0]);
    let first = build_reduce(&perm, parameters(), &w, summary()).unwrap();
    let second = build_reduce(&perm, parameters(), &w.clone(), summary()).unwrap();
    assert_eq!(first, second);
}

#[test]
fn an_empty_batch_builds_and_states_the_transcripts_it_was_given() {
    let perm = test_perm();
    let w = witness(&perm, vec![], vec![]);
    let program = build_reduce(&perm, parameters(), &w, summary()).unwrap();
    assert!(program.verifications.is_empty());
    assert_eq!(program.statement.reconstruct_challenger, w.reconstruct_challenger);
    assert_eq!(program.statement.pre_reconstruct_challenger, w.reconstruct_challenger);
    assert_eq!(program.statement.verify_start_challenger, w.sp1_challenger);
    assert_eq!(program.statement.recursion_vk, w.recursion_vk);
    assert_eq!(program.config, const_fri_config(parameters()));
}

#[test]
fn an_empty_batch_with_fresh_transcripts_states_fresh_transcripts() {
    let perm = test_perm();
    let mut w = witness(&perm, vec![], vec![]);
    w.sp1_challenger = DuplexChallenger::initialize();
    w.reconstruct_challenger = DuplexChallenger::initialize();
    let program = build_reduce(&perm, parameters(), &w, summary()).unwrap();
    assert_eq!(program.statement.reconstruct_challenger, DuplexChallenger::initialize());
    assert_eq!(program.statement.pre_reconstruct_challenger, DuplexChallenger::initialize());
    assert_eq!(program.statement.verify_start_challenger, DuplexChallenger::initialize());
}

#[test]
fn the_statement_carries_the_summary_and_the_recursion_key() {
    let perm = test_perm();
    let w = witness(&perm, vec![base_proof(1, 1)], vec![0]);
    let s = summary();
    let program = build_reduce(&perm, parameters(), &w, s).unwrap();
    assert_eq!(program.statement.committed_values_digest, s.committed_values_digest);
    assert_eq!(program.statement.start_pc, s.start_pc);
    assert_eq!(program.statement.next_pc, s.next_pc);
    assert_eq!(program.statement.exit_code, s.exit_code);
    assert_eq!(program.statement.recursion_vk, w.recursion_vk);
    assert_eq!(program.statement.verify_start_challenger, w.sp1_challenger);
    assert_eq!(program.statement.pre_reconstruct_challenger, w.reconstruct_challenger);
}

#[test]
fn the_program_holds_the_configuration_of_the_scheme() {
    let perm = test_perm();
    let w = witness(&perm, vec![base_proof(1, 1)], vec![0]);
    let program = build_reduce(&perm, parameters(), &w, summary()).unwrap();
    assert_eq!(program.config.log_blowup, 1);
    assert_eq!(program.config.num_queries, 100);
    assert_eq!(program.config.proof_of_work_bits, 16);
    assert_eq!(program.config.generators.len(), 27);
    assert_eq!(program.config.generators[1].as_canonical_u32(), 0x78000000);
}

#[test]
fn a_shard_is_verified_with_a_copy_of_the_witnessed_transcript() {
    let perm = test_perm();
    let w = witness(&perm, vec![base_proof(1, 1), base_proof(2, 2)], vec![0, 0]);
    let program = build_reduce(&perm, parameters(), &w, summary()).unwrap();
    assert_eq!(program.verifications.len(), 2);
    for (i, call) in program.verifications.iter().enumerate() {
        assert_eq!(call.proof_index, i);
        assert_eq!(call.machine, Machine::Riscv);
        assert_eq!(call.vk, w.sp1_vk);
        assert_eq!(call.challenger, w.sp1_challenger);
        assert_eq!(call.sorted_indices, w.sorted_indices[i]);
        assert_eq!(call.prep_sorted_indices, w.prep_sorted_indices);
        assert_eq!(call.prep_domains, w.prep_domains);
    }
}

#[test]
fn a_recursive_proof_is_verified_against_the_recursion_machine() {
    let perm = test_perm();
    let w = witness(
        &perm,
        vec![base_proof(1, 1), recursive_proof(50, &stream(51, 9))],
        vec![0, 3],
    );
    let program = build_reduce(&perm, parameters(), &w, summary()).unwrap();
    let call = &program.verifications[1];
    assert_eq!(call.proof_index, 1);
    assert_eq!(call.machine, Machine::Recursion);
    assert_eq!(call.vk, w.recursion_vk);
    assert_eq!(call.sorted_indices, w.sorted_indices[1]);
    assert_eq!(call.prep_sorted_indices, w.recursion_prep_sorted_indices);
    assert_eq!(call.prep_domains, w.recursion_prep_domains);
    assert_ne!(call.challenger, w.sp1_challenger);
}

#[test]
fn a_missing_flag_is_refused() {
    let perm = test_perm();
    let mut w = witness(&perm, vec![base_proof(1, 1), base_proof(2, 2)], vec![0, 0]);
    w.is_recursive_flags.pop();
    assert_eq!(build_reduce(&perm, parameters(), &w, summary()), Err(BuildError::FlagCountMismatch));
    assert_eq!(check_witness(&w), Err(BuildError::FlagCountMismatch));
    w.is_recursive_flags = vec![0, 0, 0];
    assert_eq!(build_reduce(&perm, parameters(), &w, summary()), Err(BuildError::FlagCountMismatch));
}

#[test]
fn a_missing_column_order_is_refused() {
    let perm = test_perm();
    let mut w = witness(&perm, vec![base_proof(1, 1), base_proof(2, 2)], vec![0, 0]);
    w.sorted_indices.pop();
    assert_eq!(
        build_reduce(&perm, parameters(), &w, summary()),
        Err(BuildError::MetadataCountMismatch)
    );
    assert_eq!(check_witness(&w), Err(BuildError::MetadataCountMismatch));
    w.sorted_indices = vec![vec![], vec![], vec![]];
    assert_eq!(
        build_reduce(&perm, parameters(), &w, summary()),
        Err(BuildError::MetadataCountMismatch)
    );
}

#[test]
fn the_flags_are_counted_before_the_column_orders() {
    let perm = test_perm();
    let mut w = witness(&perm, vec![base_proof(1, 1)], vec![0]);
    w.is_recursive_flags.clear();
    w.sorted_indices.clear();
    assert_eq!(build_reduce(&perm, parameters(), &w, summary()), Err(BuildError::FlagCountMismatch));
}

#[test]
fn a_shard_without_a_shard_index_is_refused_by_its_position() {
    let perm = test_perm();
    let mut short = base_proof(2, 2);
    short.public_values.truncate(SHARD_INDEX_OFFSET);
    let mut also_short = base_proof(3, 3);
    also_short.public_values.clear();
    let w = witness(
        &perm,
        vec![base_proof(1, 1), recursive_proof(9, &[]), short, also_short],
        vec![0, 1, 0, 0],
    );
    assert_eq!(
        build_reduce(&perm, parameters(), &w, summary()),
        Err(BuildError::MissingShardIndex { proof: 2 })
    );
    assert_eq!(check_witness(&w), Ok(()));
}

#[test]
fn the_counts_are_compared_before_the_shards_are_read() {
    let perm = test_perm();
    let mut short = base_proof(1, 1);
    short.public_values.clear();
    let mut w = witness(&perm, vec![short], vec![0]);
    w.sorted_indices.clear();
    assert_eq!(
        build_reduce(&perm, parameters(), &w, summary()),
        Err(BuildError::MetadataCountMismatch)
    );
}

#[test]
fn the_shard_index_is_the_last_public_value_that_must_be_there() {
    let perm = test_perm();
    let mut proof = base_proof(1, 1);
    proof.public_values.truncate(SHARD_INDEX_OFFSET + 1);
    let w = witness(&perm, vec![proof.clone()], vec![0]);
    let program = build_reduce(&perm, parameters(), &w, summary()).unwrap();
    let expected = plonky3_after(&perm, &[&w.sp1_vk.commitment, &proof.main_commit]);
    assert_same(&program.statement.reconstruct_challenger, &expected);
}

#[test]
fn select_branch_reads_the_flag_and_the_shard_index() {
    assert_eq!(select_branch(0, &base_proof(1, 1)), Some(Branch::Base { first_shard: true }));
    assert_eq!(select_branch(0, &base_proof(2, 1)), Some(Branch::Base { first_shard: false }));
    assert_eq!(select_branch(0, &base_proof(0, 1)), Some(Branch::Base { first_shard: false }));
    assert_eq!(select_branch(1, &base_proof(1, 1)), Some(Branch::Recursive));
    assert_eq!(select_branch(usize::MAX, &recursive_proof(1, &[])), Some(Branch::Recursive));
    assert_eq!(select_branch(0, &recursive_proof(1, &stream(2, 32))), None);
    assert_eq!(select_branch(0, &recursive_proof(1, &[])), None);
}

#[test]
fn reconstruct_base_shard_resets_only_on_a_first_shard() {
    let perm = test_perm();
    let vk = VerifyingKey { commitment: digest(601) };
    let proof = base_proof(1, 1);
    let start = challenger_after(&perm, 5, 5);

    let mut continued = start.fork();
    reconstruct_base_shard(&perm, &vk, &proof, false, &mut continued);
    let mut expected = start.fork();
    expected.observe_slice(&perm, &proof.main_commit);
    assert_eq!(continued, expected);

    let mut reset = start.fork();
    reconstruct_base_shard(&perm, &vk, &proof, true, &mut reset);
    assert_same(&reset, &plonky3_after(&perm, &[&vk.commitment, &proof.main_commit]));
    assert_ne!(reset, continued);
}

#[test]
fn recursive_challenger_leaves_the_transcript_it_copies() {
    let perm = test_perm();
    let vk = VerifyingKey { commitment: digest(602) };
    let start = setup_recursion_challenger(&perm, &vk);
    let before = start.clone();
    let proof = recursive_proof(3, &stream(4, 20));
    let current = recursive_challenger(&perm, &start, &proof);
    assert_eq!(start, before);
    let mut expected = start.fork();
    expected.observe_slice(&perm, &proof.main_commit);
    expected.observe_slice(&perm, &proof.public_values);
    assert_eq!(current, expected);
}

#[test]
fn assemble_statement_keeps_the_order_of_the_transcripts() {
    let perm = test_perm();
    let a = challenger_after(&perm, 1, 1);
    let b = challenger_after(&perm, 2, 2);
    let c = challenger_after(&perm, 3, 3);
    let vk = VerifyingKey { commitment: digest(602) };
    let s = assemble_statement(summary(), a.clone(), b.clone(), c.clone(), vk);
    assert_eq!(s.reconstruct_challenger, a);
    assert_eq!(s.pre_reconstruct_challenger, b);
    assert_eq!(s.verify_start_challenger, c);
    assert_eq!(s.recursion_vk, vk);
    assert_eq!(s.committed_values_digest, summary().committed_values_digest);
}

#[test]
fn the_start_transcript_is_checked_against_the_rebuilt_one_and_the_digest() {
    let perm = test_perm();
    let shards = vec![base_proof(1, 1), base_proof(2, 2)];
    let mut w = witness(&perm, shards.clone(), vec![0, 0]);
    let s = summary();
    let mut witnessed = DuplexChallenger::initialize();
    witnessed.observe_slice(&perm, &w.sp1_vk.commitment);
    witnessed.observe_slice(&perm, &shards[0].main_commit);
    witnessed.observe_slice(&perm, &shards[1].main_commit);
    witnessed.observe_slice(&perm, &s.committed_values_digest);
    w.sp1_challenger = witnessed;
    let program = build_reduce(&perm, parameters(), &w, s).unwrap();
    assert!(program.statement.check_start_challenger(&perm));

    let mut other = s;
    other.committed_values_digest = digest(702);
    let program = build_reduce(&perm, parameters(), &w, other).unwrap();
    assert!(!program.statement.check_start_challenger(&perm));

    let w = witness(&perm, shards, vec![0, 0]);
    let program = build_reduce(&perm, parameters(), &w, s).unwrap();
    assert!(!program.statement.check_start_challenger(&perm));
}

#[test]
fn a_batch_stands_only_if_every_proof_is_accepted() {
    let perm = test_perm();
    let w = witness(
        &perm,
        vec![base_proof(1, 1), recursive_proof(50, &stream(51, 9)), base_proof(2, 2)],
        vec![0, 1, 0],
    );
    let program = build_reduce(&perm, parameters(), &w, summary()).unwrap();
    assert!(program.accepts(&[true, true, true]));
    assert!(!program.accepts(&[true, false, true]));
    assert!(!program.accepts(&[false, true, true]));
    assert!(!program.accepts(&[true, true, false]));
    assert!(!program.accepts(&[true, true]));
    assert!(!program.accepts(&[true, true, true, true]));
    assert!(!program.accepts(&[]));
}

#[test]
fn an_empty_batch_stands_on_no_verdicts() {
    let perm = test_perm();
    let w = witness(&perm, vec![], vec![]);
    let program = build_reduce(&perm, parameters(), &w, summary()).unwrap();
    assert!(program.accepts(&[]));
    assert!(!program.accepts(&[true]));
}
