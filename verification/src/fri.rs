//! The configuration of the FRI-based polynomial commitment scheme, as the
//! verification program holds it: the scheme's parameters and, for every
//! supported domain size, the domain and its generator.

use crate::field::{
    felt_of, generator_value, lemma_felt_of_view, lemma_generator_order, lemma_view_of_felt,
    pow_mod, two_adic_generator, two_adicity, Felt, MODULUS, TWO_ADICITY,
};
use vstd::arithmetic::power2::pow2;
use vstd::prelude::*;

verus! {

/// The parameters of the scheme.
#[derive(Clone, Copy, Debug, PartialEq, Eq, Structural)]
pub struct FriConfig {
    pub log_blowup: usize,
    pub num_queries: usize,
    pub proof_of_work_bits: usize,
}

/// A coset of the two-adic subgroup of order `2^log_n`, shifted by `shift`.
#[derive(Clone, Copy, Debug, PartialEq, Eq, Structural)]
pub struct TwoAdicMultiplicativeCoset {
    pub log_n: usize,
    pub shift: Felt,
}

/// The configuration with its tables. Entry `i` of `subgroups` is the
/// subgroup of order `2^i`, and entry `i` of `generators` generates it.
#[derive(Clone, Debug, PartialEq, Eq)]
pub struct FriConfigVariable {
    pub log_blowup: usize,
    pub num_queries: usize,
    pub proof_of_work_bits: usize,
    pub subgroups: Vec<TwoAdicMultiplicativeCoset>,
    pub generators: Vec<Felt>,
}

/// A configuration as a mathematical value.
pub struct FriConfigSpec {
    pub log_blowup: usize,
    pub num_queries: usize,
    pub proof_of_work_bits: usize,
    pub subgroups: Seq<TwoAdicMultiplicativeCoset>,
    pub generators: Seq<Felt>,
}

impl View for FriConfigVariable {
    type V = FriConfigSpec;

    open spec fn view(&self) -> FriConfigSpec {
        FriConfigSpec {
            log_blowup: self.log_blowup,
            num_queries: self.num_queries,
            proof_of_work_bits: self.proof_of_work_bits,
            subgroups: self.subgroups@,
            generators: self.generators@,
        }
    }
}

/// The unshifted subgroup of order `2^log_n`.
pub open spec fn subgroup(log_n: int) -> TwoAdicMultiplicativeCoset {
    TwoAdicMultiplicativeCoset { log_n: log_n as usize, shift: felt_of(1) }
}

/// The configuration that belongs to the given parameters: the parameters
/// themselves and one table entry for each exponent below the two-adicity of
/// the field.
pub open spec fn fri_config_spec(config: FriConfig) -> FriConfigSpec {
    FriConfigSpec {
        log_blowup: config.log_blowup,
        num_queries: config.num_queries,
        proof_of_work_bits: config.proof_of_work_bits,
        subgroups: Seq::new(TWO_ADICITY as nat, |i: int| subgroup(i)),
        generators: Seq::new(TWO_ADICITY as nat, |i: int| felt_of(generator_value(i))),
    }
}

/// Builds the configuration with its tables from the scheme's parameters.
pub fn const_fri_config(config: FriConfig) -> (variable: FriConfigVariable)
    ensures
        variable@ == fri_config_spec(config),
{
    let two_adicity: usize = two_adicity();
    let mut generators: Vec<Felt> = Vec::new();
    let mut subgroups: Vec<TwoAdicMultiplicativeCoset> = Vec::new();
    let mut i: usize = 0;
    while i < two_adicity
        invariant
            i <= two_adicity == TWO_ADICITY,
            generators@.len() == i,
            subgroups@.len() == i,
            forall|j: int| 0 <= j < i ==> generators@[j] == felt_of(generator_value(j)),
            forall|j: int| 0 <= j < i ==> subgroups@[j] == subgroup(j),
        decreases two_adicity - i,
    {
        let constant_generator = two_adic_generator(i);
        proof {
            lemma_felt_of_view(constant_generator);
        }
        generators.push(constant_generator);
        let constant_domain = TwoAdicMultiplicativeCoset { log_n: i, shift: Felt::one() };
        subgroups.push(constant_domain);
        i = i + 1;
    }
    let variable = FriConfigVariable {
        log_blowup: config.log_blowup,
        num_queries: config.num_queries,
        proof_of_work_bits: config.proof_of_work_bits,
        subgroups,
        generators,
    };
    assert(variable@.subgroups =~= fri_config_spec(config).subgroups);
    assert(variable@.generators =~= fri_config_spec(config).generators);
    variable
}

/// What the tables of a configuration hold at `i`: the unshifted subgroup of
/// order `2^i`, and an element of exactly that multiplicative order. Its
/// power `2^i` is one and its power `2^(i - 1)` is minus one.
pub proof fn lemma_config_tables(config: FriConfig, i: int)
    requires
        0 <= i < TWO_ADICITY,
    ensures
        fri_config_spec(config).subgroups[i].log_n == i,
        fri_config_spec(config).subgroups[i].shift@ == 1,
        fri_config_spec(config).generators[i]@ == generator_value(i),
        pow_mod(fri_config_spec(config).generators[i]@ as int, pow2(i as nat)) == 1,
        i >= 1 ==> pow_mod(fri_config_spec(config).generators[i]@ as int, pow2((i - 1) as nat))
            == MODULUS - 1,
{
    lemma_view_of_felt(1);
    lemma_view_of_felt(generator_value(i));
    lemma_generator_order(i as nat);
}

} // verus!
