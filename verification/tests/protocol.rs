use num_bigint::BigUint;
use zkp_chaum_pedersen::{BigNat, ZKP};

fn decimal(n: &BigNat) -> String {
    BigUint::from_bytes_be(&n.to_bytes_be()).to_string()
}

fn toy_group() -> ZKP {
    ZKP::new(BigNat::from_u64(4), BigNat::from_u64(9), BigNat::from_u64(23), BigNat::from_u64(11))
}

#[test]
fn test_toy_example() {
    let alpha = BigNat::from_u64(4);
    let beta = BigNat::from_u64(9);
    let p: BigNat = BigNat::from_u64(23);
    let q: BigNat = BigNat::from_u64(11);

    let zkp = ZKP::new(alpha.clone(), beta.clone(), p.clone(), q.clone());

    let x = BigNat::from_u64(6);
    let k = BigNat::from_u64(7);

    let c = BigNat::from_u64(4);

    let (y1, y2) = zkp.compute_pair(&x);

    assert_eq!(y1, BigNat::from_u64(2));
    assert_eq!(y2, BigNat::from_u64(3));
    let (r1, r2) = zkp.compute_pair(&k);
    assert_eq!(r1, BigNat::from_u64(8));
    assert_eq!(r2, BigNat::from_u64(4));

    let s = zkp.solve(&k, &c, &x);
    assert_eq!(s, BigNat::from_u64(5));

    let result = zkp.verify(&r1, &r2, &y1, &y2, &c, &s);
    assert!(result);

    //fake secret:

    let fake_x = BigNat::from_u64(7);
    let fake_s = zkp.solve(&k, &c, &fake_x);

    let result = zkp.verify(&r1, &r2, &y1, &y2, &c, &fake_s);
    assert!(!result);

    let (alpha, beta, p) = (decimal(&alpha), decimal(&beta), decimal(&p));
    let (x, k, c) = (decimal(&x), decimal(&k), decimal(&c));
    let (y1, y2, r1, r2, s) =
        (decimal(&y1), decimal(&y2), decimal(&r1), decimal(&r2), decimal(&s));
    println!("alpha: {alpha}, beta: {beta}, p: {p}, x: {x}, k: {k}, c: {c}");
    println!("y1: {y1}, y2: {y2}, c: {c}");
    println!("r1: {r1}, r2: {r2}, s: {s}");
    println!("Verification result: {result}");
}

#[test]
fn test_toy_example_with_random_numbers() {
    let alpha = BigNat::from_u64(4);
    let beta = BigNat::from_u64(9);
    let p: BigNat = BigNat::from_u64(23);
    let q: BigNat = BigNat::from_u64(11);

    let zkp = ZKP::new(alpha.clone(), beta.clone(), p.clone(), q.clone());
    let x = BigNat::from_u64(6);
    let k = ZKP::generate_random_number_below(&q);

    let c = ZKP::generate_random_number_below(&q);

    let (y1, y2) = zkp.compute_pair(&x);
    assert_eq!(y1, BigNat::from_u64(2));
    assert_eq!(y2, BigNat::from_u64(3));
    assert_eq!(y1, BigNat::from_u64(2));
    assert_eq!(y2, BigNat::from_u64(3));

    let (r1, r2) = zkp.compute_pair(&k);

    let s = zkp.solve(&k, &c, &x);

    let result = zkp.verify(&r1, &r2, &y1, &y2, &c, &s);
    assert!(result);
}

#[test]
fn test_1024_bits_constants() {
    let p_to_hex = hex::decode("B10B8F96A080E01DDE92DE5EAE5D54EC52C99FBCFB06A3C69A6A9DCA52D23B616073E28675A23D189838EF1E2EE652C013ECB4AEA906112324975C3CD49B83BFACCBDD7D90C4BD7098488E9C219A73724EFFD6FAE5644738FAA31A4FF55BCCC0A151AF5F0DC8B4BD45BF37DF365C1A65E68CFDA76D4DA708DF1FB2BC2E4A4371").unwrap();

    let p = BigNat::from_bytes_be(&p_to_hex);

    let q_to_hex = hex::decode("F518AA8781A8DF278ABA4E7D64B7CB9D49462353").unwrap();
    let q = BigNat::from_bytes_be(&q_to_hex);

    let alpha_to_hex = hex::decode("A4D1CBD5C3FD34126765A442EFB99905F8104DD258AC507FD6406CFF14266D31266FEA1E5C41564B777E690F5504F213160217B4B01B886A5E91547F9E2749F4D7FBD7D3B9A92EE1909D0D2263F80A76A6A24C087A091F531DBF0A0169B6A28AD662A4D18E73AFA32D779D5918D08BC8858F4DCEF97C2A24855E6EEB22B3B2E5").unwrap();
    let alpha = BigNat::from_bytes_be(&alpha_to_hex);

    // alpha^i is also a generator
    let beta = alpha.modpow(&ZKP::generate_random_number_below(&q), &p);

    let zkp = ZKP::new(alpha.clone(), beta.clone(), p.clone(), q.clone());

    let x = ZKP::generate_random_number_below(&q);

    let k = ZKP::generate_random_number_below(&q);

    let c = ZKP::generate_random_number_below(&q);

    let (y1, y2) = zkp.compute_pair(&x);

    let (r1, r2) = zkp.compute_pair(&k);

    let s = zkp.solve(&k, &c, &x);

    let result = zkp.verify(&r1, &r2, &y1, &y2, &c, &s);
    assert!(result);
}

#[test]
fn test_2048_bits_constants() {
    let p = BigNat::from_bytes_be(&hex::decode("AD107E1E9123A9D0D660FAA79559C51FA20D64E5683B9FD1B54B1597B61D0A75E6FA141DF95A56DBAF9A3C407BA1DF15EB3D688A309C180E1DE6B85A1274A0A66D3F8152AD6AC2129037C9EDEFDA4DF8D91E8FEF55B7394B7AD5B7D0B6C12207C9F98D11ED34DBF6C6BA0B2C8BBC27BE6A00E0A0B9C49708B3BF8A317091883681286130BC8985DB1602E714415D9330278273C7DE31EFDC7310F7121FD5A07415987D9ADC0A486DCDF93ACC44328387315D75E198C641A480CD86A1B9E587E8BE60E69CC928B2B9C52172E413042E9B23F10B0E16E79763C9B53DCF4BA80A29E3FB73C16B8E75B97EF363E2FFA31F71CF9DE5384E71B81C0AC4DFFE0C10E64F").unwrap());
    let q = BigNat::from_bytes_be(
        &hex::decode("801C0D34C58D93FE997177101F80535A4738CEBCBF389A99B36371EB").unwrap(),
    );

    let alpha = BigNat::from_bytes_be(
        &hex::decode
        ( "AC4032EF4F2D9AE39DF30B5C8FFDAC506CDEBE7B89998CAF74866A08CFE4FFE3A6824A4E10B9A6F0DD921F01A70C4AFAAB739D7700C29F52C57DB17C620A8652BE5E9001A8D66AD7C17669101999024AF4D027275AC1348BB8A762D0521BC98AE247150422EA1ED409939D54DA7460CDB5F6C6B250717CBEF180EB34118E98D119529A45D6F834566E3025E316A330EFBB77A86F0C1AB15B051AE3D428C8F8ACB70A8137150B8EEB10E183EDD19963DDD9E263E4770589EF6AA21E7F5F2FF381B539CCE3409D13CD566AFBB48D6C019181E1BCFE94B30269EDFE72FE9B6AA4BD7B5A0F1C71CFFF4C19C418E1F6EC017981BC087F2A7065B384B890D3191F2BFA").unwrap(),
    );

    // beta = alpha^i is also a generator
    let beta = alpha.modpow(&ZKP::generate_random_number_below(&q), &p);

    let zkp = ZKP::new(alpha.clone(), beta.clone(), p.clone(), q.clone());

    let x = ZKP::generate_random_number_below(&q);
    let k = ZKP::generate_random_number_below(&q);

    let c = ZKP::generate_random_number_below(&q);

    let (y1, y2) = zkp.compute_pair(&x);
    let (r1, r2) = zkp.compute_pair(&k);

    let s = zkp.solve(&k, &c, &x);

    let result = zkp.verify(&r1, &r2, &y1, &y2, &c, &s);
    assert!(result);
}

#[test]
fn honest_prover_is_accepted_for_every_toy_input() {
    let zkp = toy_group();
    for x in 0..11u64 {
        for k in 0..11u64 {
            for c in 0..11u64 {
                let (x, k, c) = (BigNat::from_u64(x), BigNat::from_u64(k), BigNat::from_u64(c));
                let (y1, y2) = zkp.compute_pair(&x);
                let (r1, r2) = zkp.compute_pair(&k);
                let s = zkp.solve(&k, &c, &x);
                assert!(zkp.verify(&r1, &r2, &y1, &y2, &c, &s));
            }
        }
    }
}

#[test]
fn honest_prover_is_accepted_outside_the_order() {
    let zkp = toy_group();
    let (x, k, c) = (BigNat::from_u64(1000), BigNat::from_u64(31), BigNat::from_u64(77));
    let (y1, y2) = zkp.compute_pair(&x);
    let (r1, r2) = zkp.compute_pair(&k);
    let s = zkp.solve(&k, &c, &x);
    assert!(zkp.verify(&r1, &r2, &y1, &y2, &c, &s));
}

#[test]
fn wrong_secret_is_rejected() {
    let zkp = toy_group();
    let (k, c) = (BigNat::from_u64(7), BigNat::from_u64(4));
    let (y1, y2) = zkp.compute_pair(&BigNat::from_u64(6));
    let (r1, r2) = zkp.compute_pair(&k);
    let s = zkp.solve(&k, &c, &BigNat::from_u64(7));
    assert_eq!(s, BigNat::from_u64(1));
    assert!(!zkp.verify(&r1, &r2, &y1, &y2, &c, &s));
}

#[test]
fn one_failed_test_is_enough_to_reject() {
    let zkp = toy_group();
    let (y1, y2) = (BigNat::from_u64(2), BigNat::from_u64(3));
    let (c, s) = (BigNat::from_u64(4), BigNat::from_u64(5));
    let (r1, r2) = (BigNat::from_u64(8), BigNat::from_u64(4));
    assert!(zkp.verify(&r1, &r2, &y1, &y2, &c, &s));
    assert!(!zkp.verify(&BigNat::from_u64(9), &r2, &y1, &y2, &c, &s));
    assert!(!zkp.verify(&r1, &BigNat::from_u64(5), &y1, &y2, &c, &s));
}

#[test]
fn commitment_is_compared_modulo_p() {
    let zkp = toy_group();
    let (y1, y2) = (BigNat::from_u64(2), BigNat::from_u64(3));
    let (c, s) = (BigNat::from_u64(4), BigNat::from_u64(5));
    // 8 + 23 and 4 + 2 * 23 are the commitments 8 and 4 modulo 23
    assert!(zkp.verify(&BigNat::from_u64(31), &BigNat::from_u64(50), &y1, &y2, &c, &s));
}

#[test]
fn response_is_reduced_without_going_negative() {
    let zkp = toy_group();
    let solve = |k: u64, c: u64, x: u64| {
        zkp.solve(&BigNat::from_u64(k), &BigNat::from_u64(c), &BigNat::from_u64(x))
    };
    // 2 - 3 * 5 = -13, which is 9 modulo 11
    assert_eq!(solve(2, 3, 5), BigNat::from_u64(9));
    // 7 - 4 * 6 = -17, which is 5 modulo 11
    assert_eq!(solve(7, 4, 6), BigNat::from_u64(5));
    // 10 - 0 = 10
    assert_eq!(solve(10, 0, 9), BigNat::from_u64(10));
    // 25 - 2 * 1 = 23, which is 1 modulo 11
    assert_eq!(solve(25, 2, 1), BigNat::from_u64(1));
    // equal terms give zero
    assert_eq!(solve(6, 2, 3), BigNat::from_u64(0));
}

#[test]
fn response_lies_under_the_order() {
    let zkp = toy_group();
    let q = BigNat::from_u64(11);
    for k in [0u64, 1, 10, 11, 12, 1000] {
        for c in [0u64, 1, 5, 10, 99] {
            for x in [0u64, 1, 6, 10, 12345] {
                let s = zkp.solve(&BigNat::from_u64(k), &BigNat::from_u64(c), &BigNat::from_u64(x));
                assert!(!s.ge(&q));
                let expected = (k as i64 - (c * x) as i64).rem_euclid(11) as u64;
                assert_eq!(s, BigNat::from_u64(expected));
            }
        }
    }
}

#[test]
fn commitment_pair_raises_both_generators() {
    let zkp = toy_group();
    let (p1, p2) = zkp.compute_pair(&BigNat::from_u64(0));
    assert_eq!(p1, BigNat::from_u64(1));
    assert_eq!(p2, BigNat::from_u64(1));
    let (p1, p2) = zkp.compute_pair(&BigNat::from_u64(1));
    assert_eq!(p1, BigNat::from_u64(4));
    assert_eq!(p2, BigNat::from_u64(9));
    // 4^11 = 9^11 = 1 modulo 23
    let (p1, p2) = zkp.compute_pair(&BigNat::from_u64(11));
    assert_eq!(p1, BigNat::from_u64(1));
    assert_eq!(p2, BigNat::from_u64(1));
}

#[test]
fn random_number_stays_under_the_bound() {
    let one = BigNat::from_u64(1);
    assert_eq!(ZKP::generate_random_number_below(&one), BigNat::from_u64(0));
    let bound = BigNat::from_u64(1000);
    for _ in 0..200 {
        let n = ZKP::generate_random_number_below(&bound);
        assert!(!n.ge(&bound));
    }
}

#[test]
fn random_string_has_the_length_and_the_alphabet() {
    assert_eq!(ZKP::generate_random_string(0), "");
    for size in [1usize, 12, 64] {
        let s = ZKP::generate_random_string(size);
        assert_eq!(s.chars().count(), size);
        assert!(s.chars().all(|c| c.is_ascii_alphanumeric()));
    }
    assert_ne!(ZKP::generate_random_string(32), ZKP::generate_random_string(32));
}

#[test]
fn constants_are_the_1024_bit_group() {
    let (alpha, beta, p, q) = ZKP::get_constants();
    assert_eq!(
        p.to_bytes_be(),
        hex::decode("B10B8F96A080E01DDE92DE5EAE5D54EC52C99FBCFB06A3C69A6A9DCA52D23B616073E28675A23D189838EF1E2EE652C013ECB4AEA906112324975C3CD49B83BFACCBDD7D90C4BD7098488E9C219A73724EFFD6FAE5644738FAA31A4FF55BCCC0A151AF5F0DC8B4BD45BF37DF365C1A65E68CFDA76D4DA708DF1FB2BC2E4A4371").unwrap()
    );
    assert_eq!(q.to_bytes_be(), hex::decode("F518AA8781A8DF278ABA4E7D64B7CB9D49462353").unwrap());
    assert_eq!(
        alpha.to_bytes_be(),
        hex::decode("A4D1CBD5C3FD34126765A442EFB99905F8104DD258AC507FD6406CFF14266D31266FEA1E5C41564B777E690F5504F213160217B4B01B886A5E91547F9E2749F4D7FBD7D3B9A92EE1909D0D2263F80A76A6A24C087A091F531DBF0A0169B6A28AD662A4D18E73AFA32D779D5918D08BC8858F4DCEF97C2A24855E6EEB22B3B2E5").unwrap()
    );
    let exponent = BigUint::parse_bytes(b"266FEA1E5C41564B777E69", 16).unwrap();
    let expected = BigUint::from_bytes_be(&alpha.to_bytes_be())
        .modpow(&exponent, &BigUint::from_bytes_be(&p.to_bytes_be()));
    assert_eq!(BigUint::from_bytes_be(&beta.to_bytes_be()), expected);
    // both generators have the order q
    let one = BigNat::from_u64(1);
    assert_eq!(alpha.modpow(&q, &p), one);
    assert_eq!(beta.modpow(&q, &p), one);
}

#[test]
fn constants_give_a_complete_protocol() {
    let (alpha, beta, p, q) = ZKP::get_constants();
    let zkp = ZKP::new(alpha, beta, p, q.clone());
    let x = ZKP::generate_random_number_below(&q);
    let k = ZKP::generate_random_number_below(&q);
    let c = ZKP::generate_random_number_below(&q);
    let (y1, y2) = zkp.compute_pair(&x);
    let (r1, r2) = zkp.compute_pair(&k);
    let s = zkp.solve(&k, &c, &x);
    assert!(zkp.verify(&r1, &r2, &y1, &y2, &c, &s));
    let wrong = s.plus(&BigNat::from_u64(1));
    assert!(!zkp.verify(&r1, &r2, &y1, &y2, &c, &wrong));
}
