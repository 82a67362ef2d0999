//! The prime field of order 2^31 - 1.
//!
//! A field element is held as its canonical representative, an integer below
//! [`ORDER`]. The arithmetic itself is done by `p3_mersenne_31`.

use p3_field::PrimeField32;
use p3_mersenne_31::Mersenne31;
use vstd::arithmetic::div_mod::{
    lemma_fundamental_div_mod, lemma_mod_bound, lemma_mod_multiples_vanish, lemma_small_mod,
};
use vstd::prelude::*;

verus! {

/// The order of the field: the Mersenne prime 2^31 - 1.
pub const ORDER: u32 = 0x7fff_ffff;

/// The sum of two field elements, as canonical representatives.
pub open spec fn add_mod(a: nat, b: nat) -> nat {
    (a + b) % (ORDER as nat)
}

/// The additive inverse of a field element, as a canonical representative.
pub open spec fn neg_mod(a: nat) -> nat {
    ((ORDER - a % (ORDER as nat)) % (ORDER as int)) as nat
}

/// The product of two field elements, as canonical representatives.
pub open spec fn mul_mod(a: nat, b: nat) -> nat {
    (a * b) % (ORDER as nat)
}

/// The field element that an integer stands for.
pub open spec fn reduce(n: int) -> nat {
    (n % (ORDER as int)) as nat
}

/// Negating in the field what a natural number stands for gives what its
/// negative stands for.
pub proof fn lemma_neg_mod_of_reduced(m: nat)
    ensures
        neg_mod(reduce(m as int)) == reduce(-(m as int)),
{
    let p = ORDER as int;
    let q = (m as int) / p;
    let r = (m as int) % p;
    lemma_fundamental_div_mod(m as int, p);
    lemma_mod_bound(m as int, p);
    lemma_small_mod(r as nat, ORDER as nat);
    assert(-(m as int) == p * (-q - 1) + (p - r)) by (nonlinear_arith)
        requires
            m as int == p * q + r,
    ;
    lemma_mod_multiples_vanish(-q - 1, p - r, p);
}

/// `Mersenne31::new` followed by `PrimeField32::as_canonical_u32`.
///
/// Trusted: `new` accepts any `u32` and reduces it modulo the order, and
/// `as_canonical_u32` gives the representative below the order.
#[verifier::external_body]
fn mersenne31_reduce(n: u32) -> (r: u32)
    ensures
        r == n % ORDER,
{
    Mersenne31::new(n).as_canonical_u32()
}

/// `Add::add` of `Mersenne31`, on integers that `Mersenne31::new` turns into
/// elements, the sum read back with `as_canonical_u32`.
///
/// Trusted: the result is the canonical representative of the sum.
#[verifier::external_body]
fn mersenne31_add(a: u32, b: u32) -> (r: u32)
    ensures
        r == (a + b) % (ORDER as int),
{
    (Mersenne31::new(a) + Mersenne31::new(b)).as_canonical_u32()
}

/// `Neg::neg` of `Mersenne31`, on an integer that `Mersenne31::new` turns into
/// an element, the result read back with `as_canonical_u32`.
///
/// Trusted: the result is the canonical representative of the additive inverse.
#[verifier::external_body]
fn mersenne31_neg(a: u32) -> (r: u32)
    ensures
        r == (ORDER - a % ORDER) % (ORDER as int),
{
    (-Mersenne31::new(a)).as_canonical_u32()
}

/// `Mul::mul` of `Mersenne31`, on integers that `Mersenne31::new` turns into
/// elements, the product read back with `as_canonical_u32`.
///
/// Trusted: the result is the canonical representative of the product.
#[verifier::external_body]
fn mersenne31_mul(a: u32, b: u32) -> (r: u32)
    ensures
        r == (a * b) % (ORDER as int),
{
    (Mersenne31::new(a) * Mersenne31::new(b)).as_canonical_u32()
}

/// An element of the field of order [`ORDER`].
#[derive(Copy, Clone, Debug, PartialEq, Eq, Structural, Hash)]
pub struct Fp {
    value: u32,
}

impl View for Fp {
    type V = nat;

    /// The canonical representative.
    closed spec fn view(&self) -> nat {
        self.value as nat
    }
}

impl Fp {
    /// The representative that is held lies below the order.
    #[verifier::type_invariant]
    closed spec fn canonical(self) -> bool {
        self.value < ORDER
    }

    /// Two elements are equal exactly when their representatives are.
    pub proof fn lemma_view_injective(self, other: Fp)
        ensures
            self@ == other@ <==> self == other,
    {
    }

    /// The element whose canonical representative is `n` modulo the order.
    pub closed spec fn from_nat(n: nat) -> Fp {
        Fp { value: (n % (ORDER as nat)) as u32 }
    }

    /// What `from_nat` makes has the given representative, reduced.
    pub proof fn lemma_from_nat(n: nat)
        ensures
            Fp::from_nat(n)@ == n % (ORDER as nat),
    {
        lemma_mod_bound(n as int, ORDER as int);
    }

    /// The element that `value` stands for: `value` modulo the order.
    pub fn new(value: u32) -> (r: Fp)
        ensures
            r@ == reduce(value as int),
    {
        Fp { value: mersenne31_reduce(value) }
    }

    /// The additive identity.
    pub fn zero() -> (r: Fp)
        ensures
            r@ == 0,
    {
        Fp { value: 0 }
    }

    /// The multiplicative identity.
    pub fn one() -> (r: Fp)
        ensures
            r@ == 1,
    {
        Fp { value: 1 }
    }

    /// The canonical representative, below [`ORDER`].
    pub fn as_canonical_u32(&self) -> (r: u32)
        ensures
            r == self@,
            r < ORDER,
    {
        proof {
            use_type_invariant(self);
        }
        self.value
    }

    /// The canonical representative, below [`ORDER`].
    pub fn as_canonical_u64(&self) -> (r: u64)
        ensures
            r == self@,
            r < ORDER,
    {
        proof {
            use_type_invariant(self);
        }
        self.value as u64
    }

    /// Field addition.
    pub fn add(self, rhs: Fp) -> (r: Fp)
        ensures
            r@ == add_mod(self@, rhs@),
    {
        Fp { value: mersenne31_add(self.value, rhs.value) }
    }

    /// Field negation.
    pub fn neg(self) -> (r: Fp)
        ensures
            r@ == neg_mod(self@),
    {
        Fp { value: mersenne31_neg(self.value) }
    }

    /// Field multiplication.
    pub fn mul(self, rhs: Fp) -> (r: Fp)
        ensures
            r@ == mul_mod(self@, rhs@),
    {
        Fp { value: mersenne31_mul(self.value, rhs.value) }
    }
}

impl Default for Fp {
    /// The additive identity.
    fn default() -> (r: Fp)
        ensures
            r@ == 0,
    {
        Fp { value: 0 }
    }
}

} // verus!
