use zkp_chaum_pedersen::{AuthError, AuthImpl, BigNat, ZKP};

fn toy_group() -> ZKP {
    ZKP::new(BigNat::from_u64(4), BigNat::from_u64(9), BigNat::from_u64(23), BigNat::from_u64(11))
}

fn reference_group() -> ZKP {
    let (alpha, beta, p, q) = ZKP::get_constants();
    ZKP::new(alpha, beta, p, q)
}

/// A service in which `alice` has registered the toy public key of the secret
/// 6 and holds the open challenge 4 on the commitment to the nonce 7.
fn toy_service() -> AuthImpl {
    let mut auth = AuthImpl::new();
    auth.register("alice".to_string(), &[2], &[3]);
    let opened = auth.begin_challenge(
        "alice",
        BigNat::from_u64(8),
        BigNat::from_u64(4),
        "challenge001".to_string(),
        BigNat::from_u64(4),
    );
    assert_eq!(opened, Ok(()));
    auth
}

#[test]
fn registration_creates_a_fresh_record() {
    let mut auth = AuthImpl::default();
    assert!(auth.user_info.is_empty());
    assert!(auth.auth_id_to_user.is_empty());
    auth.register("alice".to_string(), &[1, 2], &[3]);
    assert_eq!(auth.user_info.len(), 1);
    let record = auth.user_info.get("alice").unwrap();
    assert_eq!(record.user_name, "alice");
    assert_eq!(record.y1, BigNat::from_u64(258));
    assert_eq!(record.y2, BigNat::from_u64(3));
    assert!(record.r1.is_zero() && record.r2.is_zero());
    assert!(record.c.is_zero() && record.s.is_zero());
    assert_eq!(record.session_id, "");
    assert!(auth.auth_id_to_user.is_empty());
}

#[test]
fn registration_again_replaces_the_record() {
    let mut auth = toy_service();
    auth.register("alice".to_string(), &[9], &[10]);
    assert_eq!(auth.user_info.len(), 1);
    let record = auth.user_info.get("alice").unwrap();
    assert_eq!(record.y1, BigNat::from_u64(9));
    assert_eq!(record.y2, BigNat::from_u64(10));
    assert!(record.r1.is_zero() && record.r2.is_zero() && record.c.is_zero());
    // the open challenge stays
    assert_eq!(auth.auth_id_to_user.get("challenge001"), Some(&"alice".to_string()));
}

#[test]
fn challenge_for_an_unknown_identity_is_not_found() {
    let mut auth = AuthImpl::new();
    let r = auth.create_authentication_challenge("nobody".to_string(), &[8], &[4]);
    assert_eq!(r, Err(AuthError::NotFound));
    assert!(auth.user_info.is_empty());
    assert!(auth.auth_id_to_user.is_empty());

    auth.register("alice".to_string(), &[2], &[3]);
    let r = auth.create_authentication_challenge("bob".to_string(), &[8], &[4]);
    assert_eq!(r, Err(AuthError::NotFound));
    let r = auth.begin_challenge(
        "bob",
        BigNat::from_u64(8),
        BigNat::from_u64(4),
        "challenge001".to_string(),
        BigNat::from_u64(4),
    );
    assert_eq!(r, Err(AuthError::NotFound));
    assert!(auth.auth_id_to_user.is_empty());
    assert!(auth.user_info.get("alice").unwrap().r1.is_zero());
}

#[test]
fn answer_to_an_unknown_challenge_is_not_found() {
    let mut auth = AuthImpl::new();
    let auth_id = ZKP::generate_random_string(12);
    assert_eq!(auth.verify_authentication(auth_id.clone(), &[5]), Err(AuthError::NotFound));

    let mut auth = toy_service();
    assert_eq!(auth.verify_authentication(auth_id.clone(), &[5]), Err(AuthError::NotFound));
    let r = auth.complete_challenge(&auth_id, BigNat::from_u64(5), &toy_group(), "t".to_string());
    assert_eq!(r, Err(AuthError::NotFound));
    // nothing was put down
    assert!(auth.user_info.get("alice").unwrap().s.is_zero());
    assert_eq!(auth.auth_id_to_user.len(), 1);
}

#[test]
fn challenge_is_recorded_with_the_commitment() {
    let mut auth = AuthImpl::new();
    auth.register("alice".to_string(), &[2], &[3]);
    let (auth_id, c) = auth.create_authentication_challenge("alice".to_string(), &[8], &[0, 4]).unwrap();
    assert_eq!(auth_id.len(), 12);
    assert!(auth_id.chars().all(|ch| ch.is_ascii_alphanumeric()));
    let (_, _, _, q) = ZKP::get_constants();
    let challenge = BigNat::from_bytes_be(&c);
    assert!(!challenge.ge(&q));
    assert_eq!(challenge.to_bytes_be(), c);

    let record = auth.user_info.get("alice").unwrap();
    assert_eq!(record.r1, BigNat::from_u64(8));
    assert_eq!(record.r2, BigNat::from_u64(4));
    assert_eq!(record.c, challenge);
    assert_eq!(record.y1, BigNat::from_u64(2));
    assert_eq!(record.y2, BigNat::from_u64(3));
    assert_eq!(auth.auth_id_to_user.get(&auth_id), Some(&"alice".to_string()));
    assert_eq!(auth.auth_id_to_user.len(), 1);
}

#[test]
fn a_second_challenge_overwrites_the_first_commitment() {
    let mut auth = toy_service();
    let r = auth.begin_challenge(
        "alice",
        BigNat::from_u64(13),
        BigNat::from_u64(14),
        "challenge002".to_string(),
        BigNat::from_u64(9),
    );
    assert_eq!(r, Ok(()));
    let record = auth.user_info.get("alice").unwrap();
    assert_eq!(record.r1, BigNat::from_u64(13));
    assert_eq!(record.r2, BigNat::from_u64(14));
    assert_eq!(record.c, BigNat::from_u64(9));
    assert_eq!(auth.auth_id_to_user.len(), 2);
}

#[test]
fn right_answer_is_given_the_token() {
    let mut auth = toy_service();
    let r = auth.complete_challenge(
        "challenge001",
        BigNat::from_u64(5),
        &toy_group(),
        "token0000001".to_string(),
    );
    assert_eq!(r, Ok("token0000001".to_string()));
    let record = auth.user_info.get("alice").unwrap();
    assert_eq!(record.s, BigNat::from_u64(5));
    assert_eq!(record.session_id, "token0000001");
    assert_eq!(record.c, BigNat::from_u64(4));
    assert!(!auth.auth_id_to_user.contains_key("challenge001"));
}

#[test]
fn wrong_answer_is_denied_and_put_down() {
    let mut auth = toy_service();
    let r = auth.complete_challenge(
        "challenge001",
        BigNat::from_u64(1),
        &toy_group(),
        "token0000001".to_string(),
    );
    assert_eq!(r, Err(AuthError::PermissionDenied));
    let record = auth.user_info.get("alice").unwrap();
    assert_eq!(record.s, BigNat::from_u64(1));
    assert_eq!(record.session_id, "");
    // the challenge stays open, and the right answer still passes
    assert!(auth.auth_id_to_user.contains_key("challenge001"));
    let r = auth.complete_challenge(
        "challenge001",
        BigNat::from_u64(5),
        &toy_group(),
        "token0000002".to_string(),
    );
    assert_eq!(r, Ok("token0000002".to_string()));
}

#[test]
fn accepted_answer_cannot_be_replayed() {
    let mut auth = toy_service();
    let zkp = toy_group();
    let first =
        auth.complete_challenge("challenge001", BigNat::from_u64(5), &zkp, "token0000001".to_string());
    assert_eq!(first, Ok("token0000001".to_string()));
    let second =
        auth.complete_challenge("challenge001", BigNat::from_u64(5), &zkp, "token0000002".to_string());
    assert_eq!(second, Err(AuthError::NotFound));
    assert_eq!(auth.user_info.get("alice").unwrap().session_id, "token0000001");
}

#[test]
fn challenge_without_a_record_is_an_internal_error() {
    let mut auth = AuthImpl::new();
    auth.auth_id_to_user.insert("challenge001".to_string(), "ghost".to_string());
    let r = auth.complete_challenge(
        "challenge001",
        BigNat::from_u64(5),
        &toy_group(),
        "token0000001".to_string(),
    );
    assert_eq!(r, Err(AuthError::Internal));
    assert_eq!(
        auth.verify_authentication("challenge001".to_string(), &[5]),
        Err(AuthError::Internal)
    );
    assert!(auth.auth_id_to_user.contains_key("challenge001"));
    assert!(auth.user_info.is_empty());
}

#[test]
fn full_session_in_the_reference_group() {
    let zkp = reference_group();
    let (_, _, _, q) = ZKP::get_constants();
    let x = ZKP::generate_random_number_below(&q);
    let (y1, y2) = zkp.compute_pair(&x);

    let mut auth = AuthImpl::new();
    auth.register("alice".to_string(), &y1.to_bytes_be(), &y2.to_bytes_be());

    let k = ZKP::generate_random_number_below(&q);
    let (r1, r2) = zkp.compute_pair(&k);
    let (auth_id, c) = auth
        .create_authentication_challenge("alice".to_string(), &r1.to_bytes_be(), &r2.to_bytes_be())
        .unwrap();
    let s = zkp.solve(&k, &BigNat::from_bytes_be(&c), &x);

    let session_id = auth.verify_authentication(auth_id.clone(), &s.to_bytes_be()).unwrap();
    assert_eq!(session_id.len(), 12);
    assert!(session_id.chars().all(|ch| ch.is_ascii_alphanumeric()));
    let record = auth.user_info.get("alice").unwrap();
    assert_eq!(record.session_id, session_id);
    assert_eq!(record.s, s);

    // the same answer again: the challenge is closed
    assert_eq!(
        auth.verify_authentication(auth_id, &s.to_bytes_be()),
        Err(AuthError::NotFound)
    );
    assert_eq!(auth.user_info.get("alice").unwrap().session_id, session_id);
}

#[test]
fn wrong_secret_is_denied_in_the_reference_group() {
    let zkp = reference_group();
    let (_, _, _, q) = ZKP::get_constants();
    let x = ZKP::generate_random_number_below(&q);
    let (y1, y2) = zkp.compute_pair(&x);

    let mut auth = AuthImpl::new();
    auth.register("alice".to_string(), &y1.to_bytes_be(), &y2.to_bytes_be());

    let k = ZKP::generate_random_number_below(&q);
    let (r1, r2) = zkp.compute_pair(&k);
    let (auth_id, c) = auth
        .create_authentication_challenge("alice".to_string(), &r1.to_bytes_be(), &r2.to_bytes_be())
        .unwrap();
    let wrong = x.plus(&BigNat::from_u64(1));
    let s = zkp.solve(&k, &BigNat::from_bytes_be(&c), &wrong);

    let c = BigNat::from_bytes_be(&c);
    let r = auth.verify_authentication(auth_id.clone(), &s.to_bytes_be());
    if c.is_zero() {
        // with the challenge 0 the response does not depend on the secret
        assert!(r.is_ok());
    } else {
        assert_eq!(r, Err(AuthError::PermissionDenied));
        assert_eq!(auth.user_info.get("alice").unwrap().session_id, "");
        assert_eq!(auth.user_info.get("alice").unwrap().s, s);
        assert!(auth.auth_id_to_user.contains_key(&auth_id));
    }
}

#[test]
fn users_are_kept_apart() {
    let mut auth = toy_service();
    auth.register("bob".to_string(), &[8], &[4]);
    let r = auth.begin_challenge(
        "bob",
        BigNat::from_u64(1),
        BigNat::from_u64(1),
        "challenge002".to_string(),
        BigNat::from_u64(0),
    );
    assert_eq!(r, Ok(()));
    let zkp = toy_group();
    // bob: r = 1, c = 0, so s = 0 balances
    let r = auth.complete_challenge("challenge002", BigNat::from_u64(0), &zkp, "tokenbob0001".to_string());
    assert_eq!(r, Ok("tokenbob0001".to_string()));
    let alice = auth.user_info.get("alice").unwrap();
    assert_eq!(alice.session_id, "");
    assert!(alice.s.is_zero());
    assert!(auth.auth_id_to_user.contains_key("challenge001"));
    assert_eq!(auth.user_info.get("bob").unwrap().session_id, "tokenbob0001");
}
