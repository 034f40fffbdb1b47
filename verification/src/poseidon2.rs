//! The Poseidon2 permutation over sixteen Baby Bear elements that drives
//! every transcript.

use crate::field::{felts_of, lemma_felts_of_values, values_of, Felt};
use p3_baby_bear::{BabyBear, DiffusionMatrixBabyBear};
use p3_field::{AbstractField, PrimeField32};
use p3_poseidon2::{Poseidon2, Poseidon2ExternalMatrixGeneral};
use p3_symmetric::Permutation;
use vstd::prelude::*;

verus! {

/// The number of elements that the permutation acts on.
pub const PERMUTATION_WIDTH: usize = 16;

/// The round constants of a Poseidon2 permutation of width sixteen with the
/// S-box `x^7`: one row per external round, one element per internal round.
#[derive(Clone, Debug, PartialEq, Eq)]
pub struct Perm {
    pub external_constants: Vec<[Felt; PERMUTATION_WIDTH]>,
    pub internal_constants: Vec<Felt>,
}

/// What a `Perm` holds, as sequences.
pub struct PermSpec {
    pub external_constants: Seq<Seq<Felt>>,
    pub internal_constants: Seq<Felt>,
}

impl View for Perm {
    type V = PermSpec;

    open spec fn view(&self) -> PermSpec {
        PermSpec {
            external_constants: self.external_constants@.map_values(
                |row: [Felt; PERMUTATION_WIDTH]| row@,
            ),
            internal_constants: self.internal_constants@,
        }
    }
}

/// The representatives of rows of elements.
pub open spec fn rows_of(rows: Seq<Seq<Felt>>) -> Seq<Seq<u32>> {
    rows.map_values(|row: Seq<Felt>| values_of(row))
}

/// The state that Poseidon2 with the given round constants makes of `state`,
/// all three by canonical representatives. There is one external round for
/// each row of `external` and one internal round for each element of
/// `internal`; the internal rounds stand between the two halves of the
/// external ones.
pub uninterp spec fn poseidon2_permutation(
    external: Seq<Seq<u32>>,
    internal: Seq<u32>,
    state: Seq<u32>,
) -> Seq<u32>;

/// The permutation on elements.
pub open spec fn permute_spec(perm: PermSpec, state: Seq<Felt>) -> Seq<Felt> {
    felts_of(
        poseidon2_permutation(
            rows_of(perm.external_constants),
            values_of(perm.internal_constants),
            values_of(state),
        ),
    )
}

/// `Poseidon2::new` and `Permutation::permute_mut` of `p3_poseidon2`, with
/// the external matrix `Poseidon2ExternalMatrixGeneral` and the internal
/// matrix `DiffusionMatrixBabyBear`: the result is a function of the round
/// constants and the state alone. Trusted: the body is not verified.
#[verifier::external_body]
fn poseidon2_permute(perm: &Perm, state: &[Felt; PERMUTATION_WIDTH]) -> (out: [Felt;
    PERMUTATION_WIDTH])
    ensures
        values_of(out@) == poseidon2_permutation(
            rows_of(perm@.external_constants),
            values_of(perm@.internal_constants),
            values_of(state@),
        ),
{
    let to_field = |e: &Felt| BabyBear::from_canonical_u32(e.value);
    let external = perm.external_constants.iter().map(|row| row.map(|e| to_field(&e))).collect();
    let internal = perm.internal_constants.iter().map(to_field).collect();
    let rounds = (perm.external_constants.len(), perm.internal_constants.len());
    let hasher: Poseidon2<BabyBear, Poseidon2ExternalMatrixGeneral, DiffusionMatrixBabyBear, 16, 7> =
        Poseidon2::new(rounds.0, external, Poseidon2ExternalMatrixGeneral, rounds.1, internal, DiffusionMatrixBabyBear);
    let mut elements = state.map(|e| to_field(&e));
    hasher.permute_mut(&mut elements);
    elements.map(|e| Felt { value: e.as_canonical_u32() })
}

impl Perm {
    /// Applies the permutation to a state.
    pub fn permute(&self, state: &[Felt; PERMUTATION_WIDTH]) -> (out: [Felt; PERMUTATION_WIDTH])
        ensures
            out@ == permute_spec(self@, state@),
    {
        let out = poseidon2_permute(self, state);
        proof {
            lemma_felts_of_values(out@);
        }
        out
    }
}

} // verus!
