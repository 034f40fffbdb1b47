//! What the rebuilt transcript of a batch is: theorems about the model of
//! the reduction.

use crate::challenger::{absorb_all, fresh, lemma_absorb_all_concat, TranscriptState};
use crate::field::Felt;
use crate::fri::FriConfig;
use crate::poseidon2::PermSpec;
use crate::reduce::{
    base_step, buildable, is_base, is_first_shard, program_spec, reconstruct, reconstruct_upto,
    verification_spec, ExecutionSummary, ReduceWitnessSpec,
};
use crate::stark::{ShardProofSpec, ShardVerificationSpec};
use vstd::prelude::*;

verus! {

/// The commitments of a sequence of proofs, one after the other.
pub open spec fn commitments(proofs: Seq<ShardProofSpec>) -> Seq<Felt>
    decreases proofs.len(),
{
    if proofs.len() == 0 {
        Seq::empty()
    } else {
        commitments(proofs.drop_last()) + proofs.last().main_commit
    }
}

/// The execution shards among the first `count` proofs of a batch, in the
/// order of the batch.
pub open spec fn base_shards_upto(proofs: Seq<ShardProofSpec>, flags: Seq<usize>, count: nat) -> Seq<
    ShardProofSpec,
>
    decreases count,
{
    if count == 0 {
        Seq::empty()
    } else if is_base(flags[count - 1]) {
        base_shards_upto(proofs, flags, (count - 1) as nat).push(proofs[count - 1])
    } else {
        base_shards_upto(proofs, flags, (count - 1) as nat)
    }
}

/// The execution shards of a batch, in the order of the batch.
pub open spec fn base_shards(proofs: Seq<ShardProofSpec>, flags: Seq<usize>) -> Seq<ShardProofSpec> {
    base_shards_upto(proofs, flags, proofs.len())
}

/// The rebuilt transcript after a sequence of execution shards.
pub open spec fn reconstruct_shards(
    perm: PermSpec,
    vk: Seq<Felt>,
    t: TranscriptState,
    shards: Seq<ShardProofSpec>,
) -> TranscriptState
    decreases shards.len(),
{
    if shards.len() == 0 {
        t
    } else {
        base_step(
            perm,
            vk,
            reconstruct_shards(perm, vk, t, shards.drop_last()),
            shards.last().main_commit,
            is_first_shard(shards.last()),
        )
    }
}

proof fn lemma_reconstruct_upto_is_shards(
    perm: PermSpec,
    vk: Seq<Felt>,
    t: TranscriptState,
    proofs: Seq<ShardProofSpec>,
    flags: Seq<usize>,
    count: nat,
)
    ensures
        reconstruct_upto(perm, vk, t, proofs, flags, count) == reconstruct_shards(
            perm,
            vk,
            t,
            base_shards_upto(proofs, flags, count),
        ),
    decreases count,
{
    if count > 0 {
        let before = (count - 1) as nat;
        lemma_reconstruct_upto_is_shards(perm, vk, t, proofs, flags, before);
        if is_base(flags[count - 1]) {
            let shards = base_shards_upto(proofs, flags, before);
            assert(shards.push(proofs[count - 1]).drop_last() =~= shards);
        }
    }
}

/// Only the execution shards of a batch, and their order, bear on the
/// rebuilt transcript: it is the transcript that those shards alone would
/// give.
pub proof fn lemma_reconstruct_reads_base_shards(
    perm: PermSpec,
    vk: Seq<Felt>,
    t: TranscriptState,
    proofs: Seq<ShardProofSpec>,
    flags: Seq<usize>,
)
    ensures
        reconstruct(perm, vk, t, proofs, flags) == reconstruct_shards(
            perm,
            vk,
            t,
            base_shards(proofs, flags),
        ),
{
    lemma_reconstruct_upto_is_shards(perm, vk, t, proofs, flags, proofs.len());
}

/// Two batches with the same execution shards in the same order rebuild the
/// same transcript from the same start, whatever proofs of earlier
/// reductions stand among the shards and however those are arranged.
pub proof fn lemma_recursive_proofs_leave_reconstruction(
    perm: PermSpec,
    vk: Seq<Felt>,
    t: TranscriptState,
    proofs: Seq<ShardProofSpec>,
    flags: Seq<usize>,
    other_proofs: Seq<ShardProofSpec>,
    other_flags: Seq<usize>,
)
    requires
        base_shards(proofs, flags) == base_shards(other_proofs, other_flags),
    ensures
        reconstruct(perm, vk, t, proofs, flags) == reconstruct(
            perm,
            vk,
            t,
            other_proofs,
            other_flags,
        ),
{
    lemma_reconstruct_reads_base_shards(perm, vk, t, proofs, flags);
    lemma_reconstruct_reads_base_shards(perm, vk, t, other_proofs, other_flags);
}

proof fn lemma_base_shards_by_position(
    proofs: Seq<ShardProofSpec>,
    flags: Seq<usize>,
    other_proofs: Seq<ShardProofSpec>,
    other_flags: Seq<usize>,
    count: nat,
)
    requires
        forall|i: int| 0 <= i < count ==> is_base(flags[i]) == is_base(other_flags[i]),
        forall|i: int| 0 <= i < count && is_base(flags[i]) ==> proofs[i] == other_proofs[i],
    ensures
        base_shards_upto(proofs, flags, count) == base_shards_upto(
            other_proofs,
            other_flags,
            count,
        ),
    decreases count,
{
    if count > 0 {
        lemma_base_shards_by_position(proofs, flags, other_proofs, other_flags, (count - 1) as nat);
    }
}

/// Exchanging the proofs of earlier reductions of a batch for others, or
/// rearranging them among their positions, leaves the rebuilt transcript as
/// it is, as long as every execution shard keeps its position.
pub proof fn lemma_reconstruction_keeps_under_recursive_exchange(
    perm: PermSpec,
    vk: Seq<Felt>,
    t: TranscriptState,
    proofs: Seq<ShardProofSpec>,
    flags: Seq<usize>,
    other_proofs: Seq<ShardProofSpec>,
    other_flags: Seq<usize>,
)
    requires
        proofs.len() == other_proofs.len(),
        forall|i: int| 0 <= i < proofs.len() ==> is_base(flags[i]) == is_base(other_flags[i]),
        forall|i: int| 0 <= i < proofs.len() && is_base(flags[i]) ==> proofs[i] == other_proofs[i],
    ensures
        reconstruct(perm, vk, t, proofs, flags) == reconstruct(
            perm,
            vk,
            t,
            other_proofs,
            other_flags,
        ),
{
    lemma_base_shards_by_position(proofs, flags, other_proofs, other_flags, proofs.len());
    lemma_recursive_proofs_leave_reconstruction(
        perm,
        vk,
        t,
        proofs,
        flags,
        other_proofs,
        other_flags,
    );
}

/// The commitments of the execution shards at the positions from `from` up
/// to, but not including, `to`, one after the other.
pub open spec fn base_commitments(
    proofs: Seq<ShardProofSpec>,
    flags: Seq<usize>,
    from: int,
    to: int,
) -> Seq<Felt>
    decreases to - from,
{
    if to <= from {
        Seq::empty()
    } else if is_base(flags[to - 1]) {
        base_commitments(proofs, flags, from, to - 1) + proofs[to - 1].main_commit
    } else {
        base_commitments(proofs, flags, from, to - 1)
    }
}

proof fn lemma_reconstruct_upto_after_reset(
    perm: PermSpec,
    vk: Seq<Felt>,
    t: TranscriptState,
    proofs: Seq<ShardProofSpec>,
    flags: Seq<usize>,
    reset: int,
    count: nat,
)
    requires
        0 <= reset < count,
        is_base(flags[reset]),
        is_first_shard(proofs[reset]),
        forall|j: int| reset < j < count && is_base(flags[j]) ==> !is_first_shard(proofs[j]),
    ensures
        reconstruct_upto(perm, vk, t, proofs, flags, count) == absorb_all(
            perm,
            fresh(),
            vk + base_commitments(proofs, flags, reset, count as int),
        ),
    decreases count,
{
    let before = (count - 1) as nat;
    let earlier = reconstruct_upto(perm, vk, t, proofs, flags, before);
    let commit = proofs[count - 1].main_commit;
    if count == reset + 1 {
        assert(base_commitments(proofs, flags, reset, reset) =~= Seq::<Felt>::empty());
        assert(vk + base_commitments(proofs, flags, reset, count as int) =~= vk + commit);
        lemma_absorb_all_concat(perm, fresh(), vk, commit);
    } else {
        lemma_reconstruct_upto_after_reset(perm, vk, t, proofs, flags, reset, before);
        let sofar = base_commitments(proofs, flags, reset, before as int);
        if is_base(flags[count - 1]) {
            lemma_absorb_all_concat(perm, fresh(), vk + sofar, commit);
            assert((vk + sofar) + commit =~= vk + (sofar + commit));
        }
    }
}

/// Once an execution shard with shard index one has been taken, and as long
/// as no other follows, the rebuilt transcript is the fresh transcript that
/// has absorbed the verifying key and then the commitments of the execution
/// shards from that one on, in the order of the batch. Neither the
/// transcript from which the reduction started nor any proof before that
/// shard bears on it.
pub proof fn lemma_reconstruct_after_reset(
    perm: PermSpec,
    vk: Seq<Felt>,
    t: TranscriptState,
    proofs: Seq<ShardProofSpec>,
    flags: Seq<usize>,
    reset: int,
)
    requires
        0 <= reset < proofs.len(),
        is_base(flags[reset]),
        is_first_shard(proofs[reset]),
        forall|j: int|
            reset < j < proofs.len() && is_base(flags[j]) ==> !is_first_shard(proofs[j]),
    ensures
        reconstruct(perm, vk, t, proofs, flags) == absorb_all(
            perm,
            fresh(),
            vk + base_commitments(proofs, flags, reset, proofs.len() as int),
        ),
{
    lemma_reconstruct_upto_after_reset(perm, vk, t, proofs, flags, reset, proofs.len());
}

/// Whether two batches agree `k` places after the positions `from` and
/// `other_from`: both hold an execution shard there or neither does, and two
/// shards have the same commitment and both open an execution or neither.
pub open spec fn agree_after(
    proofs: Seq<ShardProofSpec>,
    flags: Seq<usize>,
    from: int,
    other_proofs: Seq<ShardProofSpec>,
    other_flags: Seq<usize>,
    other_from: int,
    k: int,
) -> bool {
    let here = proofs[from + k];
    let there = other_proofs[other_from + k];
    &&& is_base(flags[from + k]) == is_base(other_flags[other_from + k])
    &&& is_base(flags[from + k]) ==> {
        &&& here.main_commit == there.main_commit
        &&& is_first_shard(here) == is_first_shard(there)
    }
}

proof fn lemma_base_commitments_shifted(
    proofs: Seq<ShardProofSpec>,
    flags: Seq<usize>,
    from: int,
    other_proofs: Seq<ShardProofSpec>,
    other_flags: Seq<usize>,
    other_from: int,
    count: nat,
)
    requires
        forall|k: int|
            0 <= k < count ==> #[trigger] agree_after(
                proofs,
                flags,
                from,
                other_proofs,
                other_flags,
                other_from,
                k,
            ),
    ensures
        base_commitments(proofs, flags, from, from + count) == base_commitments(
            other_proofs,
            other_flags,
            other_from,
            other_from + count,
        ),
    decreases count,
{
    if count > 0 {
        lemma_base_commitments_shifted(
            proofs,
            flags,
            from,
            other_proofs,
            other_flags,
            other_from,
            (count - 1) as nat,
        );
        assert(agree_after(proofs, flags, from, other_proofs, other_flags, other_from, count - 1));
    }
}

/// Two batches that agree from a first shard on rebuild the same transcript,
/// however many proofs stand before that shard in either, and from whatever
/// transcript either reduction started.
pub proof fn lemma_reconstruct_forgets_what_precedes(
    perm: PermSpec,
    vk: Seq<Felt>,
    t: TranscriptState,
    proofs: Seq<ShardProofSpec>,
    flags: Seq<usize>,
    reset: int,
    other_t: TranscriptState,
    other_proofs: Seq<ShardProofSpec>,
    other_flags: Seq<usize>,
    other_reset: int,
)
    requires
        0 <= reset < proofs.len(),
        0 <= other_reset < other_proofs.len(),
        proofs.len() - reset == other_proofs.len() - other_reset,
        is_base(flags[reset]),
        is_first_shard(proofs[reset]),
        forall|j: int|
            reset < j < proofs.len() && is_base(flags[j]) ==> !is_first_shard(proofs[j]),
        forall|k: int|
            0 <= k < proofs.len() - reset ==> #[trigger] agree_after(
                proofs,
                flags,
                reset,
                other_proofs,
                other_flags,
                other_reset,
                k,
            ),
    ensures
        reconstruct(perm, vk, t, proofs, flags) == reconstruct(
            perm,
            vk,
            other_t,
            other_proofs,
            other_flags,
        ),
{
    let tail = (proofs.len() - reset) as nat;
    assert(agree_after(proofs, flags, reset, other_proofs, other_flags, other_reset, 0));
    assert forall|j: int|
        other_reset < j < other_proofs.len() && is_base(other_flags[j]) implies !is_first_shard(
        other_proofs[j],
    ) by {
        assert(agree_after(
            proofs,
            flags,
            reset,
            other_proofs,
            other_flags,
            other_reset,
            j - other_reset,
        ));
    }
    lemma_reconstruct_after_reset(perm, vk, t, proofs, flags, reset);
    lemma_reconstruct_after_reset(perm, vk, other_t, other_proofs, other_flags, other_reset);
    lemma_base_commitments_shifted(
        proofs,
        flags,
        reset,
        other_proofs,
        other_flags,
        other_reset,
        tail,
    );
}

proof fn lemma_base_commitments_of_shards(
    proofs: Seq<ShardProofSpec>,
    flags: Seq<usize>,
    count: nat,
)
    requires
        count <= proofs.len(),
        forall|i: int| 0 <= i < count ==> is_base(flags[i]),
    ensures
        base_commitments(proofs, flags, 0, count as int) == commitments(proofs.take(count as int)),
    decreases count,
{
    if count > 0 {
        lemma_base_commitments_of_shards(proofs, flags, (count - 1) as nat);
        assert(proofs.take(count as int).drop_last() =~= proofs.take(count - 1));
    }
}

/// For a batch that holds the shards of one execution and nothing else, the
/// first shard with shard index one and no other, the rebuilt transcript is
/// the fresh transcript that has absorbed the verifying key and then the
/// commitment of every shard, in the order of the batch.
pub proof fn lemma_reconstruct_one_execution(
    perm: PermSpec,
    vk: Seq<Felt>,
    t: TranscriptState,
    proofs: Seq<ShardProofSpec>,
    flags: Seq<usize>,
)
    requires
        proofs.len() >= 1,
        forall|i: int| 0 <= i < proofs.len() ==> is_base(flags[i]),
        is_first_shard(proofs[0]),
        forall|i: int| 1 <= i < proofs.len() ==> !is_first_shard(proofs[i]),
    ensures
        reconstruct(perm, vk, t, proofs, flags) == absorb_all(
            perm,
            fresh(),
            vk + commitments(proofs),
        ),
{
    lemma_reconstruct_after_reset(perm, vk, t, proofs, flags, 0);
    lemma_base_commitments_of_shards(proofs, flags, proofs.len());
    assert(proofs.take(proofs.len() as int) =~= proofs);
}

/// The transcript with which a proof of an earlier reduction is verified is
/// the fresh transcript that has absorbed the recursion verifying key, the
/// proof's commitment and the proof's public values, in this order. No other
/// proof of the batch bears on it.
pub proof fn lemma_recursive_verification_transcript(
    perm: PermSpec,
    w: ReduceWitnessSpec,
    i: int,
)
    requires
        0 <= i < w.proofs.len(),
        !is_base(w.is_recursive_flags[i]),
    ensures
        verification_spec(perm, w, i).challenger == absorb_all(
            perm,
            fresh(),
            w.recursion_vk + w.proofs[i].main_commit + w.proofs[i].public_values,
        ),
{
    let commit = w.proofs[i].main_commit;
    lemma_absorb_all_concat(perm, fresh(), w.recursion_vk, commit);
    lemma_absorb_all_concat(perm, fresh(), w.recursion_vk + commit, w.proofs[i].public_values);
}

/// An execution shard is verified with the transcript that its prover used,
/// as the witness gives it: nothing that the reduction absorbs reaches it.
pub proof fn lemma_base_verification_transcript(perm: PermSpec, w: ReduceWitnessSpec, i: int)
    requires
        0 <= i < w.proofs.len(),
        is_base(w.is_recursive_flags[i]),
    ensures
        verification_spec(perm, w, i).challenger == w.sp1_challenger,
{
}

/// An empty batch builds. Its program calls the shard verifier not once, and
/// its statement gives the transcripts as the witness held them.
pub proof fn lemma_empty_batch(
    perm: PermSpec,
    config: FriConfig,
    w: ReduceWitnessSpec,
    summary: ExecutionSummary,
)
    requires
        w.proofs.len() == 0,
        w.is_recursive_flags.len() == 0,
        w.sorted_indices.len() == 0,
    ensures
        buildable(w),
        program_spec(perm, config, w, summary).verifications == Seq::<
            ShardVerificationSpec,
        >::empty(),
        program_spec(perm, config, w, summary).statement.reconstruct_challenger
            == w.reconstruct_challenger,
        program_spec(perm, config, w, summary).statement.pre_reconstruct_challenger
            == w.reconstruct_challenger,
        program_spec(perm, config, w, summary).statement.verify_start_challenger
            == w.sp1_challenger,
{
    assert(program_spec(perm, config, w, summary).verifications =~= Seq::<
        ShardVerificationSpec,
    >::empty());
}

} // verus!
