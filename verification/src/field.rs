//! Elements of the Baby Bear field and the two-adic structure of its
//! multiplicative group.

use p3_baby_bear::BabyBear;
use p3_field::{PrimeField32, TwoAdicField};
use vstd::arithmetic::div_mod::{lemma_mul_mod_noop_left, lemma_mul_mod_noop_right};
use vstd::arithmetic::power2::{lemma_pow2_unfold, pow2};
use vstd::prelude::*;

verus! {

/// The Baby Bear prime, `2^31 - 2^27 + 1`.
pub const MODULUS: u32 = 0x78000001;

/// The number of factors of two in `MODULUS - 1`.
pub const TWO_ADICITY: usize = 27;

/// An element of the Baby Bear field, held by its canonical representative.
///
/// The view of an element is that representative, a number below `MODULUS`.
#[derive(Clone, Copy, Debug, PartialEq, Eq, Structural)]
pub struct Felt {
    pub(crate) value: u32,
}

impl View for Felt {
    type V = u32;

    closed spec fn view(&self) -> u32 {
        self.value
    }
}

/// The element that a representative stands for.
pub closed spec fn felt_of(value: u32) -> Felt {
    Felt { value }
}

/// The representatives of a sequence of elements.
pub open spec fn values_of(elements: Seq<Felt>) -> Seq<u32> {
    elements.map_values(|e: Felt| e@)
}

/// The elements that a sequence of representatives stands for.
pub open spec fn felts_of(values: Seq<u32>) -> Seq<Felt> {
    values.map_values(|v: u32| felt_of(v))
}

/// An element is determined by its representative.
pub proof fn lemma_felt_of_view(e: Felt)
    ensures
        felt_of(e@) == e,
{
}

/// A representative is recovered from the element it stands for.
pub proof fn lemma_view_of_felt(value: u32)
    ensures
        felt_of(value)@ == value,
{
}

/// Taking representatives and going back gives the same elements.
pub proof fn lemma_felts_of_values(elements: Seq<Felt>)
    ensures
        felts_of(values_of(elements)) == elements,
{
    assert forall|i: int| 0 <= i < elements.len() implies felts_of(values_of(elements))[i]
        == elements[i] by {
        lemma_felt_of_view(elements[i]);
    }
    assert(felts_of(values_of(elements)) =~= elements);
}

impl Felt {
    #[verifier::type_invariant]
    spec fn canonical(self) -> bool {
        self.value < MODULUS
    }

    /// The element whose canonical representative is `value`; `None` when
    /// `value` is not below the modulus.
    pub fn new(value: u32) -> (r: Option<Felt>)
        ensures
            r is Some <==> value < MODULUS,
            r matches Some(e) ==> e@ == value && e == felt_of(value),
    {
        if value < MODULUS {
            Some(Felt { value })
        } else {
            None
        }
    }

    /// The element that `value` stands for once it is reduced modulo the prime.
    pub fn from_wrapped_u32(value: u32) -> (r: Felt)
        ensures
            r@ == value % MODULUS,
    {
        Felt { value: value % MODULUS }
    }

    /// The additive identity.
    pub fn zero() -> (r: Felt)
        ensures
            r@ == 0,
            r == felt_of(0),
    {
        Felt { value: 0 }
    }

    /// The multiplicative identity.
    pub fn one() -> (r: Felt)
        ensures
            r@ == 1,
            r == felt_of(1),
    {
        Felt { value: 1 }
    }

    /// The canonical representative, which is below the modulus.
    pub fn as_canonical_u32(&self) -> (r: u32)
        ensures
            r == self@,
            r < MODULUS,
    {
        proof {
            use_type_invariant(self);
        }
        self.value
    }
}

/// The generators of the two-adic subgroups, by the logarithm of the
/// subgroup's order: entry `k` generates the subgroup of order `2^k`.
pub open spec fn two_adic_generators() -> Seq<u32> {
    seq![
        0x1, 0x78000000, 0x67055c21, 0x5ee99486, 0xbb4c4e4, 0x2d4cc4da, 0x669d6090,
        0x17b56c64, 0x67456167, 0x688442f9, 0x145e952d, 0x4fe61226, 0x4c734715, 0x11c33e2a,
        0x62c3d2b1, 0x77cad399, 0x54c131f4, 0x4cabd6a6, 0x5cf5713f, 0x3e9430e8, 0xba067a3,
        0x18adc27d, 0x21fd55bc, 0x4b859b3d, 0x3bd57996, 0x4483d85a, 0x3a26eef8, 0x1a427a41,
    ]
}

/// The representative of the generator of the subgroup of order `2^bits`.
pub open spec fn generator_value(bits: int) -> u32
    recommends
        0 <= bits <= TWO_ADICITY,
{
    two_adic_generators()[bits]
}

/// The constant `BabyBear::TWO_ADICITY` of `p3_baby_bear`, which its source
/// gives as 27. Trusted: the body is not verified.
#[verifier::external_body]
pub(crate) fn two_adicity() -> (r: usize)
    ensures
        r == TWO_ADICITY,
{
    BabyBear::TWO_ADICITY
}

/// `BabyBear::two_adic_generator` of `p3_baby_bear`, which looks the
/// generator up in a table of 28 entries and panics beyond it. The contract
/// repeats that table. Trusted: the body is not verified.
#[verifier::external_body]
pub(crate) fn two_adic_generator(bits: usize) -> (g: Felt)
    requires
        bits <= TWO_ADICITY,
    ensures
        g@ == generator_value(bits as int),
{
    Felt { value: BabyBear::two_adic_generator(bits).as_canonical_u32() }
}

/// `base` to the power `exponent`, modulo the prime.
pub open spec fn pow_mod(base: int, exponent: nat) -> int
    decreases exponent,
{
    if exponent == 0 {
        1
    } else {
        (base * pow_mod(base, (exponent - 1) as nat)) % (MODULUS as int)
    }
}

proof fn lemma_pow_mod_of_square(base: int, exponent: nat)
    ensures
        pow_mod(base, 2 * exponent) == pow_mod((base * base) % (MODULUS as int), exponent),
    decreases exponent,
{
    if exponent > 0 {
        let m = MODULUS as int;
        let rest = pow_mod(base, (2 * exponent - 2) as nat);
        lemma_pow_mod_of_square(base, (exponent - 1) as nat);
        assert(pow_mod(base, (2 * exponent - 1) as nat) == (base * rest) % m);
        assert(pow_mod(base, 2 * exponent) == (base * ((base * rest) % m)) % m);
        lemma_mul_mod_noop_right(base, base * rest, m);
        lemma_mul_mod_noop_left(base * base, rest, m);
        assert(base * (base * rest) == (base * base) * rest) by (nonlinear_arith);
    }
}

proof fn lemma_generator_squares(bits: nat)
    requires
        1 <= bits <= TWO_ADICITY,
    ensures
        (generator_value(bits as int) * generator_value(bits as int)) % (MODULUS as int)
            == generator_value(bits - 1),
{
    let g = two_adic_generators();
    assert(g.len() == 28);
    let a = g[bits as int] as int;
    let b = g[bits - 1] as int;
    assert((a * a) % 0x78000001 == b) by {
        if bits <= 9 {
            assert(bits == 1 || bits == 2 || bits == 3 || bits == 4 || bits == 5 || bits == 6
                || bits == 7 || bits == 8 || bits == 9);
        } else if bits <= 18 {
            assert(bits == 10 || bits == 11 || bits == 12 || bits == 13 || bits == 14 || bits
                == 15 || bits == 16 || bits == 17 || bits == 18);
        } else {
            assert(bits == 19 || bits == 20 || bits == 21 || bits == 22 || bits == 23 || bits
                == 24 || bits == 25 || bits == 26 || bits == 27);
        }
    }
}

/// Squaring the generator of the subgroup of order `2^bits` `steps` times
/// gives the generator of the subgroup of order `2^(bits - steps)`.
pub proof fn lemma_generator_powers(bits: nat, steps: nat)
    requires
        steps <= bits <= TWO_ADICITY,
    ensures
        pow_mod(generator_value(bits as int) as int, pow2(steps)) == generator_value(
            bits - steps,
        ),
    decreases steps,
{
    let g = generator_value(bits as int) as int;
    if steps == 0 {
        assert(pow2(0) == 1) by {
            vstd::arithmetic::power2::lemma2_to64();
        }
        assert(two_adic_generators().len() == 28);
        assert(g < MODULUS) by {
            lemma_generators_canonical(bits);
        }
        assert(pow_mod(g, 1) == (g * pow_mod(g, 0)) % (MODULUS as int));
    } else {
        lemma_pow2_unfold(steps);
        lemma_pow_mod_of_square(g, pow2((steps - 1) as nat));
        lemma_generator_squares(bits);
        lemma_generator_powers((bits - 1) as nat, (steps - 1) as nat);
    }
}

proof fn lemma_generators_canonical(bits: nat)
    requires
        bits <= TWO_ADICITY,
    ensures
        generator_value(bits as int) < MODULUS,
{
    let g = two_adic_generators();
    assert(g.len() == 28);
    assert(forall|i: int| 0 <= i < 28 ==> g[i] < 0x78000001);
}

/// The generator of the subgroup of order `2^bits` has that order: its
/// power `2^bits` is one, and its power `2^(bits - 1)` is minus one, so no
/// smaller power of two takes it to one.
pub proof fn lemma_generator_order(bits: nat)
    requires
        bits <= TWO_ADICITY,
    ensures
        pow_mod(generator_value(bits as int) as int, pow2(bits)) == 1,
        bits >= 1 ==> pow_mod(generator_value(bits as int) as int, pow2((bits - 1) as nat))
            == MODULUS - 1,
{
    assert(two_adic_generators().len() == 28);
    lemma_generator_powers(bits, bits);
    if bits >= 1 {
        lemma_generator_powers(bits, (bits - 1) as nat);
    }
}

} // verus!
