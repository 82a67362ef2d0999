//! The machine word: a memory cell of four base-256 limbs, most significant first.

use crate::field::{add_mod, mul_mod, reduce, Fp, ORDER};
use std::ops::Index;
use vstd::arithmetic::div_mod::{
    lemma_add_mod_noop, lemma_mod_bound, lemma_mul_mod_noop_left, lemma_small_mod,
};
use vstd::prelude::*;
use vstd::std_specs::cmp::PartialEqSpecImpl;
use vstd::std_specs::convert::FromSpecImpl;

verus! {

/// The number of limbs in a memory cell.
pub const MEMORY_CELL_BYTES: usize = 4;

/// A memory cell: four limbs, each a field element, most significant first.
///
/// A limb is meant to lie in `0..256`; nothing here enforces it.
#[derive(Copy, Clone, Debug)]
pub struct Word<F>(pub [F; MEMORY_CELL_BYTES]);

impl View for Word<Fp> {
    type V = Seq<nat>;

    /// The four limbs as canonical representatives.
    open spec fn view(&self) -> Seq<nat> {
        Seq::new(MEMORY_CELL_BYTES as nat, |i: int| self.0[i]@)
    }
}

impl Default for Word<Fp> {
    /// The word of four zero limbs.
    fn default() -> (word: Word<Fp>)
        ensures
            word@ == seq![0nat, 0, 0, 0],
    {
        let word = Word([Fp::zero(), Fp::zero(), Fp::zero(), Fp::zero()]);
        assert(word@ =~= seq![0nat, 0, 0, 0]);
        word
    }
}

/// The field element that four limbs compose in base 256, most significant first.
pub open spec fn compose(limbs: Seq<nat>) -> nat {
    (limbs[0] * 0x100_0000 + limbs[1] * 0x1_0000 + limbs[2] * 0x100 + limbs[3]) % (ORDER as nat)
}

/// The limbs of the word that holds a field element in its last limb alone.
pub open spec fn single_limb(f: nat) -> Seq<nat> {
    seq![0, 0, 0, f]
}

/// One step of Horner's rule in the field agrees with the step on integers.
proof fn lemma_horner_step(acc: nat, full: int, limb: nat)
    requires
        full >= 0,
        acc == full % (ORDER as int),
    ensures
        add_mod(limb, mul_mod(acc, 256)) == (full * 256 + limb) % (ORDER as int),
{
    let p = ORDER as int;
    lemma_mul_mod_noop_left(full, 256, p);
    let a = acc as int;
    let l = limb as int;
    assert((a * 256) % p == (full * 256) % p);
    lemma_add_mod_noop(l, a * 256, p);
    lemma_add_mod_noop(l, full * 256, p);
    assert((l + (a * 256) % p) % p == (l + full * 256) % p);
}

impl From<Word<Fp>> for Fp {
    /// Composes the limbs in base 256, most significant first.
    fn from(word: Word<Fp>) -> (value: Fp)
        ensures
            value@ == compose(word@),
    {
        let base = Fp::new(256);
        assert(base@ == 256) by {
            lemma_small_mod(256, ORDER as nat);
        }
        let mut value = Fp::zero();
        let ghost mut full: int = 0;
        assert(0int % (ORDER as int) == 0) by {
            lemma_small_mod(0, ORDER as nat);
        }
        let mut i: usize = 0;
        while i < MEMORY_CELL_BYTES
            invariant
                i <= MEMORY_CELL_BYTES,
                base@ == 256,
                full >= 0,
                value@ == full % (ORDER as int),
                i == 0 ==> full == 0,
                i == 1 ==> full == word@[0],
                i == 2 ==> full == word@[0] * 0x100 + word@[1],
                i == 3 ==> full == word@[0] * 0x1_0000 + word@[1] * 0x100 + word@[2],
                i == 4 ==> full == word@[0] * 0x100_0000 + word@[1] * 0x1_0000 + word@[2] * 0x100
                    + word@[3],
            decreases MEMORY_CELL_BYTES - i,
        {
            proof {
                lemma_horner_step(value@, full, word@[i as int]);
                full = full * 256 + word@[i as int];
            }
            value = word.0[i].add(value.mul(base));
            i += 1;
        }
        proof {
            let c = compose(word@);
            lemma_mod_bound(full, ORDER as int);
            lemma_small_mod(c, ORDER as nat);
            Fp::lemma_from_nat(c);
            Fp::lemma_view_injective(value, Fp::from_nat(c));
        }
        value
    }
}

impl FromSpecImpl<Word<Fp>> for Fp {
    open spec fn obeys_from_spec() -> bool {
        true
    }

    open spec fn from_spec(word: Word<Fp>) -> Fp {
        Fp::from_nat(compose(word@))
    }
}

impl<F> From<[F; MEMORY_CELL_BYTES]> for Word<F> {
    /// The word of the given limbs.
    fn from(bytes: [F; MEMORY_CELL_BYTES]) -> (word: Word<F>) {
        Word(bytes)
    }
}

impl<F> FromSpecImpl<[F; MEMORY_CELL_BYTES]> for Word<F> {
    open spec fn obeys_from_spec() -> bool {
        true
    }

    open spec fn from_spec(bytes: [F; MEMORY_CELL_BYTES]) -> Word<F> {
        Word(bytes)
    }
}

impl From<Fp> for Word<Fp> {
    /// The word that holds the element in its last limb and zero in the others.
    fn from(element: Fp) -> (word: Word<Fp>)
        ensures
            word@ == single_limb(element@),
    {
        let word = Word([Fp::zero(), Fp::zero(), Fp::zero(), element]);
        assert(word@ =~= single_limb(element@));
        proof {
            let spec_word = Word([Fp::from_nat(0), Fp::from_nat(0), Fp::from_nat(0), element]);
            Fp::lemma_from_nat(0);
            Fp::lemma_view_injective(word.0[0], spec_word.0[0]);
            Fp::lemma_view_injective(word.0[1], spec_word.0[1]);
            Fp::lemma_view_injective(word.0[2], spec_word.0[2]);
            assert(word.0 =~= spec_word.0);
        }
        word
    }
}

impl FromSpecImpl<Fp> for Word<Fp> {
    open spec fn obeys_from_spec() -> bool {
        true
    }

    open spec fn from_spec(element: Fp) -> Word<Fp> {
        Word([Fp::from_nat(0), Fp::from_nat(0), Fp::from_nat(0), element])
    }
}

/// The limbs that raw integers stand for, each taken modulo the order.
pub open spec fn limbs_of_raw(raw: Seq<u32>) -> Seq<nat> {
    raw.map_values(|n: u32| reduce(n as int))
}

/// The limbs as raw integers.
pub open spec fn raw_of_limbs(limbs: Seq<nat>) -> Seq<u32> {
    limbs.map_values(|l: nat| l as u32)
}

impl From<Word<Fp>> for [u32; MEMORY_CELL_BYTES] {
    /// The canonical representative of each limb.
    fn from(word: Word<Fp>) -> (raw: [u32; MEMORY_CELL_BYTES])
        ensures
            raw@ == raw_of_limbs(word@),
    {
        let mut result = [0u32;MEMORY_CELL_BYTES];
        let mut i: usize = 0;
        while i < MEMORY_CELL_BYTES
            invariant
                i <= MEMORY_CELL_BYTES,
                forall|k: int| 0 <= k < i ==> result@[k] == word@[k],
            decreases MEMORY_CELL_BYTES - i,
        {
            result[i] = word.0[i].as_canonical_u32();
            i += 1;
        }
        assert(result@ =~= raw_of_limbs(word@));
        result
    }
}

impl FromSpecImpl<Word<Fp>> for [u32; MEMORY_CELL_BYTES] {
    open spec fn obeys_from_spec() -> bool {
        true
    }

    open spec fn from_spec(word: Word<Fp>) -> [u32; MEMORY_CELL_BYTES] {
        [word.0[0]@ as u32, word.0[1]@ as u32, word.0[2]@ as u32, word.0[3]@ as u32]
    }
}

impl From<[u32; MEMORY_CELL_BYTES]> for Word<Fp> {
    /// The word whose limbs the raw integers stand for, each taken modulo
    /// the order.
    fn from(raw: [u32; MEMORY_CELL_BYTES]) -> (word: Word<Fp>)
        ensures
            word@ == limbs_of_raw(raw@),
    {
        let word = Word([Fp::new(raw[0]), Fp::new(raw[1]), Fp::new(raw[2]), Fp::new(raw[3])]);
        assert(word@ =~= limbs_of_raw(raw@));
        proof {
            let spec_limbs = [
                Fp::from_nat(raw[0] as nat),
                Fp::from_nat(raw[1] as nat),
                Fp::from_nat(raw[2] as nat),
                Fp::from_nat(raw[3] as nat),
            ];
            Fp::lemma_from_nat(raw[0] as nat);
            Fp::lemma_from_nat(raw[1] as nat);
            Fp::lemma_from_nat(raw[2] as nat);
            Fp::lemma_from_nat(raw[3] as nat);
            Fp::lemma_view_injective(word.0[0], spec_limbs[0]);
            Fp::lemma_view_injective(word.0[1], spec_limbs[1]);
            Fp::lemma_view_injective(word.0[2], spec_limbs[2]);
            Fp::lemma_view_injective(word.0[3], spec_limbs[3]);
            assert(word.0 =~= spec_limbs);
        }
        word
    }
}

impl FromSpecImpl<[u32; MEMORY_CELL_BYTES]> for Word<Fp> {
    open spec fn obeys_from_spec() -> bool {
        true
    }

    open spec fn from_spec(raw: [u32; MEMORY_CELL_BYTES]) -> Word<Fp> {
        Word(
            [
                Fp::from_nat(raw[0] as nat),
                Fp::from_nat(raw[1] as nat),
                Fp::from_nat(raw[2] as nat),
                Fp::from_nat(raw[3] as nat),
            ],
        )
    }
}

impl<F> From<Word<F>> for [F; MEMORY_CELL_BYTES] {
    /// The limbs of the word.
    fn from(word: Word<F>) -> (limbs: [F; MEMORY_CELL_BYTES]) {
        word.0
    }
}

impl<F> FromSpecImpl<Word<F>> for [F; MEMORY_CELL_BYTES] {
    open spec fn obeys_from_spec() -> bool {
        true
    }

    open spec fn from_spec(word: Word<F>) -> [F; MEMORY_CELL_BYTES] {
        word.0
    }
}

impl<F> Index<usize> for Word<F> {
    type Output = F;

    /// The limb at `index`, which lies below [`MEMORY_CELL_BYTES`].
    fn index(&self, index: usize) -> (limb: &F)
        ensures
            *limb == self.0[index as int],
    {
        &self.0[index]
    }
}

impl<F> vstd::std_specs::core::IndexSpecImpl<usize> for Word<F> {
    open spec fn index_req(&self, index: &usize) -> bool {
        *index < MEMORY_CELL_BYTES
    }
}

impl PartialEq for Word<Fp> {
    /// Whether the two words agree limb by limb.
    fn eq(&self, other: &Self) -> (equal: bool) {
        proof {
            Fp::lemma_view_injective(self.0[0], other.0[0]);
            Fp::lemma_view_injective(self.0[1], other.0[1]);
            Fp::lemma_view_injective(self.0[2], other.0[2]);
            Fp::lemma_view_injective(self.0[3], other.0[3]);
            assert(self@ == other@ ==> self@[0] == other@[0] && self@[1] == other@[1] && self@[2]
                == other@[2] && self@[3] == other@[3]);
            assert(self@[0] == other@[0] && self@[1] == other@[1] && self@[2] == other@[2]
                && self@[3] == other@[3] ==> self@ =~= other@);
        }
        self.0[0] == other.0[0] && self.0[1] == other.0[1] && self.0[2] == other.0[2] && self.0[3]
            == other.0[3]
    }
}

impl Eq for Word<Fp> {

}

impl PartialEqSpecImpl for Word<Fp> {
    open spec fn obeys_eq_spec() -> bool {
        true
    }

    open spec fn eq_spec(&self, other: &Self) -> bool {
        self@ == other@
    }
}

/// A field element that is put into a word of one limb and composed again
/// comes back as it was.
pub proof fn lemma_single_limb_round_trip(f: nat)
    requires
        f < ORDER,
    ensures
        compose(single_limb(f)) == f,
{
    lemma_small_mod(f, ORDER as nat);
}

/// A word that is composed into a field element, put into a word of one
/// limb and composed again gives the same element. A word that holds
/// a field element in its last limb alone comes back as it was.
pub proof fn lemma_word_round_trip(limbs: Seq<nat>)
    requires
        limbs.len() == MEMORY_CELL_BYTES,
    ensures
        compose(single_limb(compose(limbs))) == compose(limbs),
        limbs[0] == 0 && limbs[1] == 0 && limbs[2] == 0 && limbs[3] < ORDER ==> single_limb(
            compose(limbs),
        ) == limbs,
{
    let full = limbs[0] * 0x100_0000 + limbs[1] * 0x1_0000 + limbs[2] * 0x100 + limbs[3];
    lemma_mod_bound(full as int, ORDER as int);
    lemma_single_limb_round_trip(compose(limbs));
    if limbs[0] == 0 && limbs[1] == 0 && limbs[2] == 0 && limbs[3] < ORDER {
        lemma_small_mod(limbs[3], ORDER as nat);
        assert(single_limb(compose(limbs)) =~= limbs);
    }
}

/// Limbs that are field elements come back as they were from the raw
/// integers that they are turned into.
pub proof fn lemma_limbs_round_trip(limbs: Seq<nat>)
    requires
        forall|i: int| 0 <= i < limbs.len() ==> limbs[i] < ORDER,
    ensures
        limbs_of_raw(raw_of_limbs(limbs)) == limbs,
{
    assert forall|i: int| 0 <= i < limbs.len() implies limbs_of_raw(raw_of_limbs(limbs))[i]
        == limbs[i] by {
        lemma_small_mod(limbs[i], ORDER as nat);
    }
    assert(limbs_of_raw(raw_of_limbs(limbs)) =~= limbs);
}

/// Raw integers below the order, and so every byte, come back as they were
/// from the limbs that they are turned into.
pub proof fn lemma_raw_round_trip(raw: Seq<u32>)
    requires
        forall|i: int| 0 <= i < raw.len() ==> raw[i] < ORDER,
    ensures
        raw_of_limbs(limbs_of_raw(raw)) == raw,
{
    assert forall|i: int| 0 <= i < raw.len() implies raw_of_limbs(limbs_of_raw(raw))[i]
        == raw[i] by {
        lemma_small_mod(raw[i] as nat, ORDER as nat);
    }
    assert(raw_of_limbs(limbs_of_raw(raw)) =~= raw);
}

} // verus!
