use valida_cpu::field::{Fp, ORDER};
use valida_cpu::word::{Word, MEMORY_CELL_BYTES};

fn word(limbs: [u32; 4]) -> Word<Fp> {
    Word::<Fp>::from(limbs)
}

#[test]
fn a_word_has_four_limbs() {
    assert_eq!(MEMORY_CELL_BYTES, 4);
}

#[test]
fn compose_is_base_256_most_significant_first() {
    assert_eq!(Fp::from(word([0, 0, 0, 0])).as_canonical_u32(), 0);
    assert_eq!(Fp::from(word([0, 0, 0, 5])).as_canonical_u32(), 5);
    assert_eq!(Fp::from(word([0, 0, 1, 0])).as_canonical_u32(), 256);
    assert_eq!(Fp::from(word([0, 1, 0, 0])).as_canonical_u32(), 65536);
    assert_eq!(Fp::from(word([1, 0, 0, 0])).as_canonical_u32(), 16777216);
    assert_eq!(Fp::from(word([1, 2, 3, 4])).as_canonical_u32(), 0x01020304);
}

#[test]
fn compose_wraps_modulo_the_order() {
    // 0x80000000 = 2^31 = 1 modulo 2^31 - 1
    assert_eq!(Fp::from(word([0x80, 0, 0, 0])).as_canonical_u32(), 1);
    // 0xffffffff = 2^32 - 1 = 1 modulo 2^31 - 1
    assert_eq!(Fp::from(word([0xff, 0xff, 0xff, 0xff])).as_canonical_u32(), 1);
    // 0x7fffffff is the order itself
    assert_eq!(Fp::from(word([0x7f, 0xff, 0xff, 0xff])).as_canonical_u32(), 0);
}

#[test]
fn single_limb_word_holds_the_element_last() {
    let w = Word::from(Fp::new(1000));
    let raw: [u32; 4] = w.into();
    assert_eq!(raw, [0, 0, 0, 1000]);
}

#[test]
fn element_to_word_to_element_round_trips() {
    for value in [0u32, 1, 255, 256, 65535, 1 << 24, ORDER - 1] {
        let element = Fp::new(value);
        assert_eq!(Fp::from(Word::from(element)), element);
    }
}

#[test]
fn word_to_element_to_word_round_trips_for_single_limbs() {
    for limb in 0u32..=255 {
        let w = word([0, 0, 0, limb]);
        assert!(Word::from(Fp::from(w)) == w);
    }
}

#[test]
fn word_to_element_to_word_keeps_the_element() {
    let w = word([9, 8, 7, 6]);
    let element = Fp::from(w);
    assert_eq!(Fp::from(Word::from(element)), element);
}

#[test]
fn raw_array_round_trips_for_every_byte() {
    for limb in 0u32..=255 {
        let raw = [limb, 255 - limb, limb / 2, 0];
        let back: [u32; 4] = word(raw).into();
        assert_eq!(back, raw);
    }
}

#[test]
fn word_round_trips_through_the_raw_array() {
    let w = Word::from([Fp::new(ORDER - 1), Fp::new(17), Fp::zero(), Fp::new(255)]);
    let raw: [u32; 4] = w.into();
    assert_eq!(raw, [ORDER - 1, 17, 0, 255]);
    assert!(word(raw) == w);
}

#[test]
fn raw_integers_are_reduced() {
    let raw: [u32; 4] = word([ORDER, ORDER + 1, u32::MAX, 3]).into();
    assert_eq!(raw, [0, 1, 1, 3]);
}

#[test]
fn limbs_come_back_from_a_word() {
    let limbs = [Fp::new(4), Fp::new(3), Fp::new(2), Fp::new(1)];
    let back: [Fp; 4] = Word::from(limbs).into();
    assert_eq!(back, limbs);
}

#[test]
fn words_are_equal_limb_by_limb() {
    assert!(word([1, 2, 3, 4]) == word([1, 2, 3, 4]));
    assert!(word([1, 2, 3, 4]) != word([1, 2, 3, 5]));
    assert!(word([1, 2, 3, 4]) != word([0, 2, 3, 4]));
    assert!(word([ORDER, 0, 0, 0]) == word([0, 0, 0, 0]));
}

#[test]
fn a_word_is_indexed_by_limb() {
    let w = word([10, 20, 30, 40]);
    assert_eq!(w[0].as_canonical_u32(), 10);
    assert_eq!(w[1].as_canonical_u32(), 20);
    assert_eq!(w[2].as_canonical_u32(), 30);
    assert_eq!(w[3].as_canonical_u32(), 40);
}

#[test]
fn the_default_word_is_zero() {
    let w: Word<Fp> = Word::default();
    assert!(w == word([0, 0, 0, 0]));
}
