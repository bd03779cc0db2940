//! The authentication service: who is registered, which challenges are open,
//! and what each of the three requests does to both.

use crate::constants::group_1024;
use crate::group::{accepts, commitment_pair, lemma_completeness, response, GroupParameters};
use crate::number::{be_value, is_canonical, BigNat};
use crate::zkp::{is_alphanumeric, ZKP};
use vstd::hash_map::StringHashMap;
use vstd::prelude::*;

verus! {

/// Why a request was turned down.
#[derive(Debug, Clone, Copy, PartialEq, Eq, Structural)]
pub enum AuthError {
    /// The identity is not registered, or no open challenge has the identifier.
    NotFound,
    /// The response does not answer the challenge.
    PermissionDenied,
    /// A challenge refers to an identity of which the store holds no record.
    Internal,
}

/// The length of the identifier of a challenge and of a session token.
pub const IDENTIFIER_LENGTH: usize = 12;

/// What the service holds of one user.
#[derive(Debug)]
pub struct UserInfo {
    pub user_name: String,
    /// The public key, set by the registration.
    pub y1: BigNat,
    pub y2: BigNat,
    /// The prover's commitment, set with each challenge.
    pub r1: BigNat,
    pub r2: BigNat,
    /// The challenge that the service chose, and the response to it.
    pub c: BigNat,
    pub s: BigNat,
    /// The token of the session, set where a response was accepted.
    pub session_id: String,
}

/// A user's record as plain values.
pub struct UserRecord {
    pub user_name: Seq<char>,
    pub y1: nat,
    pub y2: nat,
    pub r1: nat,
    pub r2: nat,
    pub c: nat,
    pub s: nat,
    pub session_id: Seq<char>,
}

impl UserRecord {
    /// The record of a user who has registered and done nothing else.
    pub open spec fn registered(user: Seq<char>, y1: nat, y2: nat) -> UserRecord {
        UserRecord {
            user_name: user,
            y1,
            y2,
            r1: 0,
            r2: 0,
            c: 0,
            s: 0,
            session_id: Seq::empty(),
        }
    }
}

impl View for UserInfo {
    type V = UserRecord;

    open spec fn view(&self) -> UserRecord {
        UserRecord {
            user_name: self.user_name@,
            y1: self.y1@,
            y2: self.y2@,
            r1: self.r1@,
            r2: self.r2@,
            c: self.c@,
            s: self.s@,
            session_id: self.session_id@,
        }
    }
}

impl Clone for UserInfo {
    fn clone(&self) -> (r: Self)
        ensures
            r@ == self@,
    {
        UserInfo {
            user_name: self.user_name.clone(),
            y1: self.y1.clone(),
            y2: self.y2.clone(),
            r1: self.r1.clone(),
            r2: self.r2.clone(),
            c: self.c.clone(),
            s: self.s.clone(),
            session_id: self.session_id.clone(),
        }
    }
}

impl Default for UserInfo {
    fn default() -> (r: Self)
        ensures
            r@ == UserRecord::registered(Seq::empty(), 0, 0),
    {
        UserInfo {
            user_name: String::new(),
            y1: BigNat::default(),
            y2: BigNat::default(),
            r1: BigNat::default(),
            r2: BigNat::default(),
            c: BigNat::default(),
            s: BigNat::default(),
            session_id: String::new(),
        }
    }
}

/// The state of the service as plain values: the record of each registered
/// identity, and the identity that each open challenge belongs to.
pub struct AuthState {
    pub users: Map<Seq<char>, UserRecord>,
    pub auth_ids: Map<Seq<char>, Seq<char>>,
}

impl AuthState {
    /// The state in which nobody is registered.
    pub open spec fn empty() -> AuthState {
        AuthState { users: Map::empty(), auth_ids: Map::empty() }
    }

    /// Every record is kept under the name it holds, and every open challenge
    /// belongs to a registered identity.
    pub open spec fn well_formed(self) -> bool {
        &&& forall|user: Seq<char>| #[trigger]
            self.users.contains_key(user) ==> self.users[user].user_name == user
        &&& forall|auth_id: Seq<char>| #[trigger]
            self.auth_ids.contains_key(auth_id) ==> self.users.contains_key(
                self.auth_ids[auth_id],
            )
    }

    /// The state after `user` registered the public key `(y1, y2)`: a fresh
    /// record takes the place of any earlier one.
    pub open spec fn register(self, user: Seq<char>, y1: nat, y2: nat) -> AuthState {
        AuthState { users: self.users.insert(user, UserRecord::registered(user, y1, y2)), ..self }
    }

    /// The state after the registered `user` sent the commitment `(r1, r2)`
    /// and was given the challenge `c` under the identifier `auth_id`.
    pub open spec fn begin_challenge(
        self,
        user: Seq<char>,
        r1: nat,
        r2: nat,
        auth_id: Seq<char>,
        c: nat,
    ) -> AuthState {
        AuthState {
            users: self.users.insert(user, UserRecord { r1, r2, c, ..self.users[user] }),
            auth_ids: self.auth_ids.insert(auth_id, user),
        }
    }

    /// Why the response `s` to the challenge `auth_id` is turned down in the
    /// group `g`; `None` where it is accepted.
    pub open spec fn answer_failure(self, g: GroupParameters, auth_id: Seq<char>, s: nat) -> Option<
        AuthError,
    > {
        if !self.auth_ids.contains_key(auth_id) {
            Some(AuthError::NotFound)
        } else if !self.users.contains_key(self.auth_ids[auth_id]) {
            Some(AuthError::Internal)
        } else {
            let record = self.users[self.auth_ids[auth_id]];
            if accepts(g, record.r1, record.r2, record.y1, record.y2, record.c, s) {
                None
            } else {
                Some(AuthError::PermissionDenied)
            }
        }
    }

    /// The state after the response `s` to the challenge `auth_id` was put
    /// down in the record of the challenge's user. Nothing changes where the
    /// challenge or the user is unknown.
    pub open spec fn record_answer(self, auth_id: Seq<char>, s: nat) -> AuthState {
        if self.auth_ids.contains_key(auth_id) && self.users.contains_key(self.auth_ids[auth_id]) {
            let user = self.auth_ids[auth_id];
            AuthState { users: self.users.insert(user, UserRecord { s, ..self.users[user] }), ..self }
        } else {
            self
        }
    }

    /// The state after the user of the challenge `auth_id` was given the
    /// session `token`: the record holds the token, and the challenge is closed.
    pub open spec fn grant_session(self, auth_id: Seq<char>, token: Seq<char>) -> AuthState {
        let user = self.auth_ids[auth_id];
        AuthState {
            users: self.users.insert(
                user,
                UserRecord { session_id: token, ..self.users[user] },
            ),
            auth_ids: self.auth_ids.remove(auth_id),
        }
    }

    /// The state after the response `s` to the challenge `auth_id` was
    /// judged in the group `g`, with `token` at hand for the case that it is
    /// accepted.
    pub open spec fn complete_challenge(
        self,
        g: GroupParameters,
        auth_id: Seq<char>,
        s: nat,
        token: Seq<char>,
    ) -> AuthState {
        if self.answer_failure(g, auth_id, s) is None {
            self.record_answer(auth_id, s).grant_session(auth_id, token)
        } else {
            self.record_answer(auth_id, s)
        }
    }
}

/// The service: the records of the users, by identity, and the identities of
/// the open challenges, by the challenge's identifier.
pub struct AuthImpl {
    pub user_info: StringHashMap<UserInfo>,
    pub auth_id_to_user: StringHashMap<String>,
}

impl View for AuthImpl {
    type V = AuthState;

    open spec fn view(&self) -> AuthState {
        AuthState {
            users: self.user_info@.map_values(|info: UserInfo| info@),
            auth_ids: self.auth_id_to_user@.map_values(|name: String| name@),
        }
    }
}

impl Default for AuthImpl {
    fn default() -> (r: Self)
        ensures
            r@ == AuthState::empty(),
            r@.well_formed(),
    {
        AuthImpl::new()
    }
}

impl AuthImpl {
    /// A service with nobody registered.
    pub fn new() -> (r: Self)
        ensures
            r@ == AuthState::empty(),
            r@.well_formed(),
    {
        let r = AuthImpl { user_info: StringHashMap::new(), auth_id_to_user: StringHashMap::new() };
        assert(r@.users =~= Map::empty());
        assert(r@.auth_ids =~= Map::empty());
        r
    }

    /// Registers `user` with the public key `(y1, y2)`, each a big-endian
    /// number. An earlier registration of the same identity is replaced.
    pub fn register(&mut self, user: String, y1: &[u8], y2: &[u8])
        ensures
            final(self)@ == old(self)@.register(user@, be_value(y1@), be_value(y2@)),
            old(self)@.well_formed() ==> final(self)@.well_formed(),
    {
        let user_info = UserInfo {
            user_name: user.clone(),
            y1: BigNat::from_bytes_be(y1),
            y2: BigNat::from_bytes_be(y2),
            r1: BigNat::default(),
            r2: BigNat::default(),
            c: BigNat::default(),
            s: BigNat::default(),
            session_id: String::new(),
        };
        self.user_info.insert(user, user_info);
        proof {
            let after = old(self)@.register(user@, be_value(y1@), be_value(y2@));
            assert(self@.users =~= after.users);
            assert(self@.auth_ids =~= after.auth_ids);
            if old(self)@.well_formed() {
                lemma_register_well_formed(old(self)@, user@, be_value(y1@), be_value(y2@));
            }
        }
    }

    /// Opens the challenge `c` under the identifier `auth_id` for `user`, who
    /// sent the commitment `(r1, r2)`. Fails with `NotFound`, and changes
    /// nothing, where `user` is not registered.
    pub fn begin_challenge(
        &mut self,
        user: &str,
        r1: BigNat,
        r2: BigNat,
        auth_id: String,
        c: BigNat,
    ) -> (r: Result<(), AuthError>)
        ensures
            r is Ok <==> old(self)@.users.contains_key(user@),
            r is Ok ==> final(self)@ == old(self)@.begin_challenge(user@, r1@, r2@, auth_id@, c@),
            r is Err ==> r == Err::<(), AuthError>(AuthError::NotFound) && final(self)@ == old(
                self,
            )@,
            old(self)@.well_formed() ==> final(self)@.well_formed(),
    {
        let updated = match self.user_info.get(user) {
            None => {
                return Err(AuthError::NotFound);
            },
            Some(info) => UserInfo {
                user_name: info.user_name.clone(),
                y1: info.y1.clone(),
                y2: info.y2.clone(),
                r1,
                r2,
                c,
                s: info.s.clone(),
                session_id: info.session_id.clone(),
            },
        };
        self.user_info.insert(user.to_owned(), updated);
        self.auth_id_to_user.insert(auth_id, user.to_owned());
        proof {
            let after = old(self)@.begin_challenge(user@, r1@, r2@, auth_id@, c@);
            assert(self@.users =~= after.users);
            assert(self@.auth_ids =~= after.auth_ids);
            if old(self)@.well_formed() {
                lemma_begin_challenge_well_formed(old(self)@, user@, r1@, r2@, auth_id@, c@);
            }
        }
        Ok(())
    }

    /// Puts the response `s` to the challenge `auth_id` down in the record of
    /// the challenge's user and judges it with `zkp`.
    fn check_answer(&mut self, auth_id: &str, s: BigNat, zkp: &ZKP) -> (r: Result<(), AuthError>)
        requires
            zkp@.p != 0,
        ensures
            match r {
                Ok(_) => old(self)@.answer_failure(zkp@, auth_id@, s@) is None,
                Err(e) => old(self)@.answer_failure(zkp@, auth_id@, s@) == Some(e),
            },
            final(self)@ == old(self)@.record_answer(auth_id@, s@),
    {
        let user: String = match self.auth_id_to_user.get(auth_id) {
            None => {
                return Err(AuthError::NotFound);
            },
            Some(name) => name.clone(),
        };
        let updated = match self.user_info.get(user.as_str()) {
            None => {
                return Err(AuthError::Internal);
            },
            Some(info) => UserInfo {
                user_name: info.user_name.clone(),
                y1: info.y1.clone(),
                y2: info.y2.clone(),
                r1: info.r1.clone(),
                r2: info.r2.clone(),
                c: info.c.clone(),
                s,
                session_id: info.session_id.clone(),
            },
        };
        let verification = zkp.verify(
            &updated.r1,
            &updated.r2,
            &updated.y1,
            &updated.y2,
            &updated.c,
            &updated.s,
        );
        self.user_info.insert(user, updated);
        proof {
            let after = old(self)@.record_answer(auth_id@, s@);
            assert(self@.users =~= after.users);
            assert(self@.auth_ids =~= after.auth_ids);
        }
        if verification {
            Ok(())
        } else {
            Err(AuthError::PermissionDenied)
        }
    }

    /// Puts `token` down in the record of the user of the challenge `auth_id`
    /// and closes the challenge.
    fn grant_session(&mut self, auth_id: &str, token: String) -> (r: Result<String, AuthError>)
        ensures
            match r {
                Ok(session_id) => {
                    &&& session_id@ == token@
                    &&& old(self)@.auth_ids.contains_key(auth_id@)
                    &&& old(self)@.users.contains_key(old(self)@.auth_ids[auth_id@])
                    &&& final(self)@ == old(self)@.grant_session(auth_id@, token@)
                },
                Err(e) => {
                    &&& final(self)@ == old(self)@
                    &&& e == if old(self)@.auth_ids.contains_key(auth_id@) {
                        AuthError::Internal
                    } else {
                        AuthError::NotFound
                    }
                    &&& !(old(self)@.auth_ids.contains_key(auth_id@) && old(self)@.users.contains_key(
                        old(self)@.auth_ids[auth_id@],
                    ))
                },
            },
    {
        let user: String = match self.auth_id_to_user.get(auth_id) {
            None => {
                return Err(AuthError::NotFound);
            },
            Some(name) => name.clone(),
        };
        let updated = match self.user_info.get(user.as_str()) {
            None => {
                return Err(AuthError::Internal);
            },
            Some(info) => UserInfo {
                user_name: info.user_name.clone(),
                y1: info.y1.clone(),
                y2: info.y2.clone(),
                r1: info.r1.clone(),
                r2: info.r2.clone(),
                c: info.c.clone(),
                s: info.s.clone(),
                session_id: token.clone(),
            },
        };
        self.user_info.insert(user, updated);
        self.auth_id_to_user.remove(auth_id);
        proof {
            let after = old(self)@.grant_session(auth_id@, token@);
            assert(self@.users =~= after.users);
            assert(self@.auth_ids =~= after.auth_ids);
        }
        Ok(token)
    }

    /// Judges the response `s` to the challenge `auth_id` with `zkp`, and
    /// hands out `token` where it is accepted. The response is put down in
    /// the user's record either way. An accepted response closes the
    /// challenge, so that it cannot be answered again.
    pub fn complete_challenge(&mut self, auth_id: &str, s: BigNat, zkp: &ZKP, token: String) -> (r:
        Result<String, AuthError>)
        requires
            zkp@.p != 0,
        ensures
            match r {
                Ok(session_id) => session_id@ == token@ && old(self)@.answer_failure(
                    zkp@,
                    auth_id@,
                    s@,
                ) is None,
                Err(e) => old(self)@.answer_failure(zkp@, auth_id@, s@) == Some(e),
            },
            final(self)@ == old(self)@.complete_challenge(zkp@, auth_id@, s@, token@),
            old(self)@.well_formed() ==> final(self)@.well_formed(),
    {
        proof {
            if old(self)@.well_formed() {
                lemma_complete_challenge_well_formed(old(self)@, zkp@, auth_id@, s@, token@);
            }
        }
        match self.check_answer(auth_id, s, zkp) {
            Ok(_) => self.grant_session(auth_id, token),
            Err(e) => Err(e),
        }
    }

    /// The first request of a session: `user` sends the commitment
    /// `(r1, r2)`, each a big-endian number, and is given a random challenge
    /// under the order of the 1024-bit reference group, as a big-endian
    /// number, together with a random identifier under which to answer it.
    /// Fails with `NotFound`, and changes nothing, where `user` is not
    /// registered.
    pub fn create_authentication_challenge(&mut self, user: String, r1: &[u8], r2: &[u8]) -> (r:
        Result<(String, Vec<u8>), AuthError>)
        ensures
            r is Ok <==> old(self)@.users.contains_key(user@),
            match r {
                Ok((auth_id, c)) => {
                    &&& is_identifier(auth_id@)
                    &&& be_value(c@) < group_1024().q
                    &&& is_canonical(c@)
                    &&& final(self)@ == old(self)@.begin_challenge(
                        user@,
                        be_value(r1@),
                        be_value(r2@),
                        auth_id@,
                        be_value(c@),
                    )
                },
                Err(e) => e == AuthError::NotFound && final(self)@ == old(self)@,
            },
            old(self)@.well_formed() ==> final(self)@.well_formed(),
    {
        if !self.user_info.contains_key(user.as_str()) {
            return Err(AuthError::NotFound);
        }
        let (_, _, _, q) = ZKP::get_constants();
        let c = ZKP::generate_random_number_below(&q);
        let auth_id = ZKP::generate_random_string(IDENTIFIER_LENGTH);
        let c_bytes = c.to_bytes_be();
        let r1 = BigNat::from_bytes_be(r1);
        let r2 = BigNat::from_bytes_be(r2);
        match self.begin_challenge(user.as_str(), r1, r2, auth_id.clone(), c) {
            Ok(_) => Ok((auth_id, c_bytes)),
            Err(e) => Err(e),
        }
    }

    /// The second request of a session: the response `s`, a big-endian
    /// number, to the challenge `auth_id`, judged in the 1024-bit reference
    /// group. An accepted response is answered with a random session token,
    /// which is put down in the user's record, and closes the challenge.
    /// Fails with `NotFound` where no open challenge has the identifier, and
    /// with `PermissionDenied` where the response is wrong; the response is
    /// put down in the record of the challenge's user either way.
    pub fn verify_authentication(&mut self, auth_id: String, s: &[u8]) -> (r: Result<
        String,
        AuthError,
    >)
        ensures
            match r {
                Ok(session_id) => {
                    &&& old(self)@.answer_failure(group_1024(), auth_id@, be_value(s@)) is None
                    &&& is_identifier(session_id@)
                    &&& final(self)@ == old(self)@.complete_challenge(
                        group_1024(),
                        auth_id@,
                        be_value(s@),
                        session_id@,
                    )
                },
                Err(e) => {
                    &&& old(self)@.answer_failure(group_1024(), auth_id@, be_value(s@)) == Some(e)
                    &&& final(self)@ == old(self)@.record_answer(auth_id@, be_value(s@))
                },
            },
            old(self)@.well_formed() ==> final(self)@.well_formed(),
    {
        let s = BigNat::from_bytes_be(s);
        let (alpha, beta, p, q) = ZKP::get_constants();
        let zkp = ZKP::new(alpha, beta, p, q);
        proof {
            if old(self)@.well_formed() {
                lemma_record_answer_well_formed(old(self)@, auth_id@, s@);
            }
        }
        match self.check_answer(auth_id.as_str(), s, &zkp) {
            Ok(_) => {
                let session_id = ZKP::generate_random_string(IDENTIFIER_LENGTH);
                proof {
                    if old(self)@.well_formed() {
                        lemma_complete_challenge_well_formed(
                            old(self)@,
                            group_1024(),
                            auth_id@,
                            s@,
                            session_id@,
                        );
                    }
                }
                self.grant_session(auth_id.as_str(), session_id)
            },
            Err(e) => Err(e),
        }
    }
}

/// The identifier of a challenge, or a session token: twelve ASCII letters and digits.
pub open spec fn is_identifier(text: Seq<char>) -> bool {
    text.len() == IDENTIFIER_LENGTH && forall|i: int|
        0 <= i < text.len() ==> is_alphanumeric(#[trigger] text[i])
}

/// A response put down keeps the state well formed.
pub proof fn lemma_record_answer_well_formed(state: AuthState, auth_id: Seq<char>, s: nat)
    requires
        state.well_formed(),
    ensures
        state.record_answer(auth_id, s).well_formed(),
{
    let after = state.record_answer(auth_id, s);
    assert forall|a: Seq<char>| #[trigger]
        after.auth_ids.contains_key(a) implies after.users.contains_key(after.auth_ids[a]) by {
        assert(state.auth_ids.contains_key(a));
    }
}

/// A registration keeps the state well formed.
pub proof fn lemma_register_well_formed(state: AuthState, user: Seq<char>, y1: nat, y2: nat)
    requires
        state.well_formed(),
    ensures
        state.register(user, y1, y2).well_formed(),
{
    let after = state.register(user, y1, y2);
    assert forall|auth_id: Seq<char>| #[trigger]
        after.auth_ids.contains_key(auth_id) implies after.users.contains_key(
        after.auth_ids[auth_id],
    ) by {
        assert(state.auth_ids.contains_key(auth_id));
    }
}

/// A new challenge for a registered identity keeps the state well formed.
pub proof fn lemma_begin_challenge_well_formed(
    state: AuthState,
    user: Seq<char>,
    r1: nat,
    r2: nat,
    auth_id: Seq<char>,
    c: nat,
)
    requires
        state.well_formed(),
        state.users.contains_key(user),
    ensures
        state.begin_challenge(user, r1, r2, auth_id, c).well_formed(),
{
    let after = state.begin_challenge(user, r1, r2, auth_id, c);
    assert forall|a: Seq<char>| #[trigger]
        after.auth_ids.contains_key(a) implies after.users.contains_key(after.auth_ids[a]) by {
        if a != auth_id {
            assert(state.auth_ids.contains_key(a));
        }
    }
}

/// A judged response keeps the state well formed.
pub proof fn lemma_complete_challenge_well_formed(
    state: AuthState,
    g: GroupParameters,
    auth_id: Seq<char>,
    s: nat,
    token: Seq<char>,
)
    requires
        state.well_formed(),
    ensures
        state.complete_challenge(g, auth_id, s, token).well_formed(),
{
    let after = state.complete_challenge(g, auth_id, s, token);
    assert forall|a: Seq<char>| #[trigger]
        after.auth_ids.contains_key(a) implies after.users.contains_key(after.auth_ids[a]) by {
        assert(state.auth_ids.contains_key(a));
    }
}

/// A challenge sees the registration before it: whoever has registered can be
/// given a challenge, whatever the state was.
pub proof fn lemma_registered_user_is_known(state: AuthState, user: Seq<char>, y1: nat, y2: nat)
    ensures
        state.register(user, y1, y2).users.contains_key(user),
        state.register(user, y1, y2).users[user] == UserRecord::registered(user, y1, y2),
{
}

/// A response sees the challenge before it: the response to a challenge that
/// was opened for a registered user is judged against the user's public key,
/// the commitment and the challenge, and against nothing else.
pub proof fn lemma_open_challenge_is_judged(
    state: AuthState,
    g: GroupParameters,
    user: Seq<char>,
    r1: nat,
    r2: nat,
    auth_id: Seq<char>,
    c: nat,
    s: nat,
)
    requires
        state.users.contains_key(user),
    ensures
        state.begin_challenge(user, r1, r2, auth_id, c).answer_failure(g, auth_id, s) == if accepts(
            g,
            r1,
            r2,
            state.users[user].y1,
            state.users[user].y2,
            c,
            s,
        ) {
            None
        } else {
            Some(AuthError::PermissionDenied)
        },
{
}

/// An honest session succeeds: in a valid group, a user who registers the
/// public key of a secret `x`, commits to a nonce `k` and answers the
/// challenge `c` with the response to it is accepted.
pub proof fn lemma_honest_session_is_accepted(
    state: AuthState,
    g: GroupParameters,
    user: Seq<char>,
    auth_id: Seq<char>,
    x: nat,
    k: nat,
    c: nat,
)
    requires
        g.valid(),
    ensures
        ({
            let (y1, y2) = commitment_pair(g, x);
            let (r1, r2) = commitment_pair(g, k);
            state.register(user, y1, y2).begin_challenge(user, r1, r2, auth_id, c).answer_failure(
                g,
                auth_id,
                response(g.q, k, c, x),
            ) is None
        }),
{
    lemma_completeness(g, x, k, c);
}

/// In a well-formed state no response runs into a missing record.
pub proof fn lemma_well_formed_never_internal(
    state: AuthState,
    g: GroupParameters,
    auth_id: Seq<char>,
    s: nat,
)
    requires
        state.well_formed(),
    ensures
        state.answer_failure(g, auth_id, s) != Some(AuthError::Internal),
{
}

/// No replay: once a response to a challenge was accepted, the challenge is
/// closed, and any further response to it is turned down with `NotFound`.
pub proof fn lemma_accepted_challenge_is_closed(
    state: AuthState,
    g: GroupParameters,
    auth_id: Seq<char>,
    s: nat,
    token: Seq<char>,
    again: nat,
)
    requires
        state.answer_failure(g, auth_id, s) is None,
    ensures
        state.complete_challenge(g, auth_id, s, token).answer_failure(g, auth_id, again) == Some(
            AuthError::NotFound,
        ),
{
}

} // verus!
