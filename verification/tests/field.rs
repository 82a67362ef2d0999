use valida_cpu::field::{Fp, ORDER};

#[test]
fn order_is_the_mersenne_prime() {
    assert_eq!(ORDER, 2147483647);
    assert_eq!(ORDER, (1u32 << 31) - 1);
}

#[test]
fn new_reduces_modulo_the_order() {
    assert_eq!(Fp::new(0).as_canonical_u32(), 0);
    assert_eq!(Fp::new(256).as_canonical_u32(), 256);
    assert_eq!(Fp::new(ORDER - 1).as_canonical_u32(), ORDER - 1);
    assert_eq!(Fp::new(ORDER).as_canonical_u32(), 0);
    assert_eq!(Fp::new(ORDER + 5).as_canonical_u32(), 5);
    assert_eq!(Fp::new(u32::MAX).as_canonical_u32(), 1);
}

#[test]
fn zero_and_one() {
    assert_eq!(Fp::zero().as_canonical_u32(), 0);
    assert_eq!(Fp::one().as_canonical_u32(), 1);
    assert_eq!(Fp::default(), Fp::zero());
}

#[test]
fn canonical_u64_agrees_with_u32() {
    assert_eq!(Fp::new(123456).as_canonical_u64(), 123456u64);
    assert_eq!(Fp::new(ORDER).as_canonical_u64(), 0u64);
}

#[test]
fn addition_is_exact_below_the_order() {
    assert_eq!(Fp::new(5).add(Fp::new(7)).as_canonical_u32(), 12);
    assert_eq!(Fp::new(100).add(Fp::new(8)).as_canonical_u32(), 108);
}

#[test]
fn addition_wraps_at_the_order() {
    assert_eq!(Fp::new(ORDER - 1).add(Fp::one()).as_canonical_u32(), 0);
    assert_eq!(Fp::new(ORDER - 1).add(Fp::new(ORDER - 1)).as_canonical_u32(), ORDER - 2);
    assert_eq!(Fp::new(ORDER - 3).add(Fp::new(10)).as_canonical_u32(), 7);
}

#[test]
fn negation_gives_the_additive_inverse() {
    assert_eq!(Fp::zero().neg().as_canonical_u32(), 0);
    assert_eq!(Fp::one().neg().as_canonical_u32(), ORDER - 1);
    assert_eq!(Fp::new(5).neg().as_canonical_u32(), ORDER - 5);
    assert_eq!(Fp::new(5).neg().add(Fp::new(5)).as_canonical_u32(), 0);
}

#[test]
fn multiplication_is_modular() {
    assert_eq!(Fp::new(6).mul(Fp::new(7)).as_canonical_u32(), 42);
    assert_eq!(Fp::new(0).mul(Fp::new(7)).as_canonical_u32(), 0);
    // 2^16 * 2^16 = 2^32 = 2 modulo 2^31 - 1
    assert_eq!(Fp::new(1 << 16).mul(Fp::new(1 << 16)).as_canonical_u32(), 2);
    // (-1) * (-1) = 1
    assert_eq!(Fp::new(ORDER - 1).mul(Fp::new(ORDER - 1)).as_canonical_u32(), 1);
}

#[test]
fn equality_is_equality_of_field_elements() {
    assert_eq!(Fp::new(ORDER + 3), Fp::new(3));
    assert_ne!(Fp::new(3), Fp::new(4));
}
