use num_bigint::BigUint;
use zkp_chaum_pedersen::constants::{
    load_generator_2048, load_modulus_1024, load_modulus_2048, load_order_1024, load_order_2048,
};
use zkp_chaum_pedersen::BigNat;

fn big(n: &BigNat) -> BigUint {
    BigUint::from_bytes_be(&n.to_bytes_be())
}

#[test]
fn bytes_are_read_in_big_endian_order() {
    assert_eq!(BigNat::from_bytes_be(&[]), BigNat::from_u64(0));
    assert_eq!(BigNat::from_bytes_be(&[0]), BigNat::from_u64(0));
    assert_eq!(BigNat::from_bytes_be(&[4, 101]), BigNat::from_u64(1125));
    assert_eq!(BigNat::from_bytes_be(&[0, 0, 4, 101]), BigNat::from_u64(1125));
    assert_eq!(BigNat::from_bytes_be(&[1, 0, 0, 0, 0, 0, 0, 0, 0]).to_bytes_be().len(), 9);
    assert_ne!(BigNat::from_bytes_be(&[101, 4]), BigNat::from_u64(1125));
}

#[test]
fn bytes_are_written_in_the_shortest_form() {
    assert_eq!(BigNat::from_u64(0).to_bytes_be(), vec![0]);
    assert_eq!(BigNat::default().to_bytes_be(), vec![0]);
    assert_eq!(BigNat::from_u64(5).to_bytes_be(), vec![5]);
    assert_eq!(BigNat::from_u64(1125).to_bytes_be(), vec![4, 101]);
    assert_eq!(BigNat::from_bytes_be(&[0, 0, 7, 0]).to_bytes_be(), vec![7, 0]);
    assert_eq!(
        BigNat::from_u64(u64::MAX).to_bytes_be(),
        vec![255, 255, 255, 255, 255, 255, 255, 255]
    );
    assert_eq!(
        BigNat::from_u64(0x0102_0304_0506_0708).to_bytes_be(),
        vec![1, 2, 3, 4, 5, 6, 7, 8]
    );
}

#[test]
fn small_numbers_agree_with_the_big_integer_crate() {
    for n in [0u64, 1, 255, 256, 65535, 65536, 1 << 32, u64::MAX - 1, u64::MAX] {
        assert_eq!(big(&BigNat::from_u64(n)), BigUint::from(n));
    }
}

#[test]
fn zero_is_recognised() {
    assert!(BigNat::from_u64(0).is_zero());
    assert!(BigNat::default().is_zero());
    assert!(BigNat::from_bytes_be(&[0, 0, 0]).is_zero());
    assert!(!BigNat::from_u64(1).is_zero());
    assert!(!BigNat::from_bytes_be(&[1, 0]).is_zero());
}

#[test]
fn arithmetic_gives_exact_results() {
    let a = BigNat::from_u64(u64::MAX);
    let b = BigNat::from_u64(3);
    assert_eq!(big(&a.plus(&b)), BigUint::from(u64::MAX) + 3u32);
    assert_eq!(big(&a.times(&a)), BigUint::from(u64::MAX) * BigUint::from(u64::MAX));
    assert_eq!(a.minus(&b), BigNat::from_u64(u64::MAX - 3));
    assert_eq!(a.minus(&a), BigNat::from_u64(0));
    assert_eq!(BigNat::from_u64(17).modulo(&BigNat::from_u64(5)), BigNat::from_u64(2));
    assert_eq!(BigNat::from_u64(4).modulo(&BigNat::from_u64(5)), BigNat::from_u64(4));
    assert_eq!(BigNat::from_u64(6).times(&BigNat::from_u64(7)), BigNat::from_u64(42));
    assert_eq!(BigNat::from_u64(6).plus(&BigNat::from_u64(7)), BigNat::from_u64(13));
}

#[test]
fn order_and_equality_go_by_the_value() {
    let five = BigNat::from_u64(5);
    let padded = BigNat::from_bytes_be(&[0, 0, 5]);
    let six = BigNat::from_u64(6);
    assert!(five == padded);
    assert!(five != six);
    assert!(five.ge(&padded));
    assert!(six.ge(&five));
    assert!(!five.ge(&six));
    assert!(BigNat::from_bytes_be(&[1, 0]).ge(&BigNat::from_u64(255)));
    assert_eq!(five.clone(), five);
}

#[test]
fn modular_power_is_the_reduced_power() {
    let m = BigNat::from_u64(23);
    assert_eq!(BigNat::from_u64(4).modpow(&BigNat::from_u64(6), &m), BigNat::from_u64(2));
    assert_eq!(BigNat::from_u64(9).modpow(&BigNat::from_u64(7), &m), BigNat::from_u64(4));
    assert_eq!(BigNat::from_u64(5).modpow(&BigNat::from_u64(0), &m), BigNat::from_u64(1));
    assert_eq!(BigNat::from_u64(0).modpow(&BigNat::from_u64(0), &m), BigNat::from_u64(1));
    assert_eq!(BigNat::from_u64(0).modpow(&BigNat::from_u64(3), &m), BigNat::from_u64(0));
    // any power is 0 modulo 1
    let one = BigNat::from_u64(1);
    assert_eq!(BigNat::from_u64(5).modpow(&BigNat::from_u64(0), &one), BigNat::from_u64(0));
    assert_eq!(BigNat::from_u64(5).modpow(&BigNat::from_u64(3), &one), BigNat::from_u64(0));
    // an even modulus
    let even = BigNat::from_u64(100);
    assert_eq!(BigNat::from_u64(7).modpow(&BigNat::from_u64(0), &even), BigNat::from_u64(1));
    assert_eq!(BigNat::from_u64(7).modpow(&BigNat::from_u64(3), &even), BigNat::from_u64(43));
    assert_eq!(BigNat::from_u64(2).modpow(&BigNat::from_u64(64), &even), BigNat::from_u64(16));
}

#[test]
fn hexadecimal_text_is_read_as_a_number() {
    assert_eq!(BigNat::from_hex("0a"), Some(BigNat::from_u64(10)));
    assert_eq!(BigNat::from_hex("0A"), Some(BigNat::from_u64(10)));
    assert_eq!(BigNat::from_hex("fF10"), Some(BigNat::from_u64(0xff10)));
    assert_eq!(BigNat::from_hex("0000"), Some(BigNat::from_u64(0)));
    assert_eq!(BigNat::from_hex(""), Some(BigNat::from_u64(0)));
    assert_eq!(
        BigNat::from_hex("0123456789abcdef"),
        Some(BigNat::from_u64(0x0123_4567_89ab_cdef))
    );
}

#[test]
fn other_text_is_not_a_number() {
    assert_eq!(BigNat::from_hex("a"), None);
    assert_eq!(BigNat::from_hex("abc"), None);
    assert_eq!(BigNat::from_hex("0g"), None);
    assert_eq!(BigNat::from_hex("0x10"), None);
    assert_eq!(BigNat::from_hex(" 10"), None);
    assert_eq!(BigNat::from_hex("é"), None);
    assert_eq!(BigNat::from_hex("éé"), None);
}

#[test]
fn random_numbers_below_a_bound() {
    let bound = BigNat::from_u64(3);
    let mut seen = [false; 3];
    for _ in 0..300 {
        let n = BigNat::random_below(&bound);
        assert!(!n.ge(&bound));
        seen[n.to_bytes_be()[0] as usize] = true;
    }
    assert_eq!(seen, [true, true, true]);
}

#[test]
fn reference_groups_have_subgroups_of_the_given_order() {
    let (p, q) = (big(&load_modulus_1024()), big(&load_order_1024()));
    assert_eq!(p.bits(), 1024);
    assert_eq!(q.bits(), 160);
    assert_eq!((&p - 1u32) % &q, BigUint::from(0u32));

    let (p, q, alpha) = (load_modulus_2048(), load_order_2048(), load_generator_2048());
    assert_eq!(big(&p).bits(), 2048);
    assert_eq!(big(&q).bits(), 224);
    assert_eq!((big(&p) - 1u32) % big(&q), BigUint::from(0u32));
    assert_eq!(alpha.modpow(&q, &p), BigNat::from_u64(1));
    assert_eq!(
        q.to_bytes_be(),
        hex::decode("801C0D34C58D93FE997177101F80535A4738CEBCBF389A99B36371EB").unwrap()
    );
}
