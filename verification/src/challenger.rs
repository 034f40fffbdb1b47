//! The duplex-sponge transcript from which Fiat-Shamir challenges derive.
//!
//! A transcript absorbs field elements one at a time. Absorbed elements wait
//! in a buffer; when the buffer holds `HASH_RATE` of them they overwrite the
//! head of the sponge state, and the state is permuted.

use crate::field::{felt_of, Felt};
use crate::poseidon2::{permute_spec, Perm, PermSpec, PERMUTATION_WIDTH};
use crate::util::copy_vec;
use vstd::prelude::*;

verus! {

/// The number of elements a transcript absorbs between two permutations.
pub const HASH_RATE: usize = 8;

/// A transcript as a mathematical value.
pub struct TranscriptState {
    pub sponge_state: Seq<Felt>,
    pub input_buffer: Seq<Felt>,
    pub output_buffer: Seq<Felt>,
}

/// The transcript that has absorbed nothing: a zero state and empty buffers.
pub open spec fn fresh() -> TranscriptState {
    TranscriptState {
        sponge_state: Seq::new(PERMUTATION_WIDTH as nat, |i: int| felt_of(0)),
        input_buffer: Seq::empty(),
        output_buffer: Seq::empty(),
    }
}

/// The sponge state with its head overwritten by the buffered input.
pub open spec fn overwritten(t: TranscriptState) -> Seq<Felt> {
    Seq::new(
        t.sponge_state.len(),
        |i: int|
            if i < t.input_buffer.len() {
                t.input_buffer[i]
            } else {
                t.sponge_state[i]
            },
    )
}

/// One duplexing: the buffered input enters the state, the state is
/// permuted, and the whole new state becomes the output buffer.
pub open spec fn duplex(perm: PermSpec, t: TranscriptState) -> TranscriptState {
    let state = permute_spec(perm, overwritten(t));
    TranscriptState { sponge_state: state, input_buffer: Seq::empty(), output_buffer: state }
}

/// The transcript after it absorbs one element: pending output is dropped,
/// the element is buffered, and a full buffer is duplexed.
pub open spec fn absorb(perm: PermSpec, t: TranscriptState, element: Felt) -> TranscriptState {
    let buffered = TranscriptState {
        sponge_state: t.sponge_state,
        input_buffer: t.input_buffer.push(element),
        output_buffer: Seq::empty(),
    };
    if buffered.input_buffer.len() == HASH_RATE {
        duplex(perm, buffered)
    } else {
        buffered
    }
}

/// The transcript after it absorbs a sequence of elements, first to last.
pub open spec fn absorb_all(perm: PermSpec, t: TranscriptState, elements: Seq<Felt>) ->
    TranscriptState
    decreases elements.len(),
{
    if elements.len() == 0 {
        t
    } else {
        absorb(perm, absorb_all(perm, t, elements.drop_last()), elements.last())
    }
}

/// Absorbing a concatenation is absorbing its parts in turn.
pub proof fn lemma_absorb_all_concat(
    perm: PermSpec,
    t: TranscriptState,
    first: Seq<Felt>,
    second: Seq<Felt>,
)
    ensures
        absorb_all(perm, t, first + second) == absorb_all(
            perm,
            absorb_all(perm, t, first),
            second,
        ),
    decreases second.len(),
{
    if second.len() == 0 {
        assert(first + second =~= first);
    } else {
        lemma_absorb_all_concat(perm, t, first, second.drop_last());
        assert((first + second).drop_last() =~= first + second.drop_last());
        assert((first + second).last() == second.last());
    }
}

/// A transcript.
#[derive(Clone, Debug, PartialEq, Eq)]
pub struct DuplexChallenger {
    pub sponge_state: [Felt; PERMUTATION_WIDTH],
    pub input_buffer: Vec<Felt>,
    pub output_buffer: Vec<Felt>,
}

impl View for DuplexChallenger {
    type V = TranscriptState;

    open spec fn view(&self) -> TranscriptState {
        TranscriptState {
            sponge_state: self.sponge_state@,
            input_buffer: self.input_buffer@,
            output_buffer: self.output_buffer@,
        }
    }
}

impl DuplexChallenger {
    /// A transcript that has absorbed nothing.
    pub fn initialize() -> (c: DuplexChallenger)
        ensures
            c@ == fresh(),
    {
        let zero = Felt::zero();
        let c = DuplexChallenger {
            sponge_state: [zero;PERMUTATION_WIDTH],
            input_buffer: Vec::new(),
            output_buffer: Vec::new(),
        };
        assert(c@.sponge_state =~= fresh().sponge_state);
        c
    }

    /// An independent copy: what either absorbs later, the other does not see.
    pub fn fork(&self) -> (c: DuplexChallenger)
        ensures
            c@ == self@,
    {
        DuplexChallenger {
            sponge_state: self.sponge_state,
            input_buffer: copy_vec(&self.input_buffer),
            output_buffer: copy_vec(&self.output_buffer),
        }
    }

    /// The state that the next permutation takes: the sponge state with its
    /// head overwritten by the buffered input.
    pub fn absorbed_state(&self) -> (state: [Felt; PERMUTATION_WIDTH])
        ensures
            state@ == overwritten(self@),
    {
        let mut state = self.sponge_state;
        let mut i: usize = 0;
        while i < self.input_buffer.len() && i < PERMUTATION_WIDTH
            invariant
                i <= self.input_buffer@.len(),
                i <= PERMUTATION_WIDTH,
                forall|j: int|
                    0 <= j < PERMUTATION_WIDTH ==> state@[j] == if j < i {
                        self.input_buffer@[j]
                    } else {
                        self.sponge_state@[j]
                    },
            decreases PERMUTATION_WIDTH - i,
        {
            let element = self.input_buffer[i];
            state[i] = element;
            i = i + 1;
        }
        assert(state@ =~= overwritten(self@));
        state
    }

    /// Takes a permuted state over: it becomes the sponge state and the
    /// pending output, and the input buffer is emptied.
    pub fn install_state(&mut self, permuted: [Felt; PERMUTATION_WIDTH])
        ensures
            final(self)@ == (TranscriptState {
                sponge_state: permuted@,
                input_buffer: Seq::empty(),
                output_buffer: permuted@,
            }),
    {
        let mut output: Vec<Felt> = Vec::new();
        let mut k: usize = 0;
        while k < PERMUTATION_WIDTH
            invariant
                k <= PERMUTATION_WIDTH,
                output@ == permuted@.take(k as int),
            decreases PERMUTATION_WIDTH - k,
        {
            output.push(permuted[k]);
            k = k + 1;
            assert(permuted@.take(k as int) =~= permuted@.take(k - 1).push(permuted@[k - 1]));
        }
        assert(permuted@.take(k as int) =~= permuted@);
        self.sponge_state = permuted;
        self.input_buffer = Vec::new();
        self.output_buffer = output;
    }

    /// Moves the buffered input into the state and permutes it.
    pub fn duplexing(&mut self, perm: &Perm)
        ensures
            final(self)@ == duplex(perm@, old(self)@),
    {
        let state = self.absorbed_state();
        let permuted = perm.permute(&state);
        self.install_state(permuted);
    }

    /// Absorbs one element.
    pub fn observe(&mut self, perm: &Perm, element: Felt)
        ensures
            final(self)@ == absorb(perm@, old(self)@, element),
    {
        self.output_buffer = Vec::new();
        self.input_buffer.push(element);
        if self.input_buffer.len() == HASH_RATE {
            self.duplexing(perm);
        }
    }

    /// Absorbs the elements of a slice, first to last.
    pub fn observe_slice(&mut self, perm: &Perm, elements: &[Felt])
        ensures
            final(self)@ == absorb_all(perm@, old(self)@, elements@),
    {
        let mut i: usize = 0;
        while i < elements.len()
            invariant
                i <= elements.len(),
                self@ == absorb_all(perm@, old(self)@, elements@.take(i as int)),
            decreases elements.len() - i,
        {
            self.observe(perm, elements[i]);
            i = i + 1;
            proof {
                assert(elements@.take(i as int).drop_last() =~= elements@.take(i - 1));
            }
        }
        assert(elements@.take(i as int) =~= elements@);
    }

    /// Whether two transcripts are in the same state.
    pub fn same_state(&self, other: &DuplexChallenger) -> (same: bool)
        ensures
            same == (self@ == other@),
    {
        let mut i: usize = 0;
        while i < PERMUTATION_WIDTH
            invariant
                i <= PERMUTATION_WIDTH,
                forall|j: int| 0 <= j < i ==> self.sponge_state@[j] == other.sponge_state@[j],
            decreases PERMUTATION_WIDTH - i,
        {
            if self.sponge_state[i] != other.sponge_state[i] {
                return false;
            }
            i = i + 1;
        }
        assert(self.sponge_state@ =~= other.sponge_state@);
        same_elements(&self.input_buffer, &other.input_buffer) && same_elements(
            &self.output_buffer,
            &other.output_buffer,
        )
    }
}

/// Whether two vectors hold the same elements in the same order.
pub fn same_elements(left: &Vec<Felt>, right: &Vec<Felt>) -> (same: bool)
    ensures
        same == (left@ == right@),
{
    if left.len() != right.len() {
        return false;
    }
    let mut i: usize = 0;
    while i < left.len()
        invariant
            i <= left.len(),
            left.len() == right.len(),
            forall|j: int| 0 <= j < i ==> left@[j] == right@[j],
        decreases left.len() - i,
    {
        if left[i] != right[i] {
            return false;
        }
        i = i + 1;
    }
    assert(left@ =~= right@);
    true
}

} // verus!
