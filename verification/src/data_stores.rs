use vstd::prelude::*;

use crate::email::Email;
use crate::login_attempt_id::LoginAttemptId;
use crate::password::argon2_verifies;
use crate::two_fa_code::TwoFACode;
use crate::user::{User, UserView};

verus! {

#[derive(Clone, Copy, Debug, PartialEq, Eq, Structural)]
pub enum UserStoreError {
    UserAlreadyExists,
    UserNotFound,
    InvalidCredentials,
    UnexpectedError,
}

#[derive(Clone, Copy, Debug, PartialEq, Eq, Structural)]
pub enum BannedTokenStoreError {
    InvalidToken,
    UnexpectedError,
}

#[derive(Clone, Copy, Debug, PartialEq, Eq, Structural)]
pub enum TwoFACodeStoreError {
    LoginAttempIdNotFound,
    UnexpectedError,
}

/// The map a sequence of key-value entries stands for, later entries
/// overwriting earlier ones with the same key.
pub open spec fn map_of_pairs<V>(s: Seq<(Seq<char>, V)>) -> Map<Seq<char>, V>
    decreases s.len(),
{
    if s.len() == 0 {
        Map::empty()
    } else {
        map_of_pairs(s.drop_last()).insert(s.last().0, s.last().1)
    }
}

/// No two entries share a key.
pub open spec fn keys_distinct<V>(s: Seq<(Seq<char>, V)>) -> bool {
    forall|i: int, j: int| 0 <= i < j < s.len() ==> #[trigger] s[i].0 != #[trigger] s[j].0
}

/// An entry's key is in the map; with distinct keys it maps to that entry's
/// value.
pub proof fn lemma_map_of_pairs_index<V>(s: Seq<(Seq<char>, V)>, i: int)
    requires
        0 <= i < s.len(),
    ensures
        map_of_pairs(s).contains_key(s[i].0),
        keys_distinct(s) ==> map_of_pairs(s)[s[i].0] == s[i].1,
    decreases s.len(),
{
    if i < s.len() - 1 {
        lemma_map_of_pairs_index(s.drop_last(), i);
    }
}

/// A key no entry carries is not in the map.
pub proof fn lemma_map_of_pairs_absent<V>(s: Seq<(Seq<char>, V)>, k: Seq<char>)
    requires
        forall|i: int| 0 <= i < s.len() ==> #[trigger] s[i].0 != k,
    ensures
        !map_of_pairs(s).contains_key(k),
    decreases s.len(),
{
    if s.len() > 0 {
        lemma_map_of_pairs_absent(s.drop_last(), k);
    }
}

/// Appending an entry inserts its binding.
pub proof fn lemma_map_of_pairs_push<V>(s: Seq<(Seq<char>, V)>, p: (Seq<char>, V))
    ensures
        map_of_pairs(s.push(p)) == map_of_pairs(s).insert(p.0, p.1),
{
    assert(s.push(p).drop_last() =~= s);
    assert(s.push(p).last() == p);
}

/// With distinct keys, removing the entry at `i` removes exactly its key
/// from the map, and keeps the remaining keys distinct.
pub proof fn lemma_map_of_pairs_remove<V>(s: Seq<(Seq<char>, V)>, i: int)
    requires
        keys_distinct(s),
        0 <= i < s.len(),
    ensures
        map_of_pairs(s.remove(i)) == map_of_pairs(s).remove(s[i].0),
        keys_distinct(s.remove(i)),
    decreases s.len(),
{
    let k = s[i].0;
    if i == s.len() - 1 {
        assert(s.remove(i) =~= s.drop_last());
        assert(forall|j: int| 0 <= j < s.drop_last().len() ==> #[trigger] s.drop_last()[j].0 != k);
        lemma_map_of_pairs_absent(s.drop_last(), k);
        assert(map_of_pairs(s.drop_last()) =~= map_of_pairs(s).remove(k));
    } else {
        let dl = s.drop_last();
        assert(keys_distinct(dl));
        lemma_map_of_pairs_remove(dl, i);
        assert(s.remove(i).drop_last() =~= dl.remove(i));
        assert(s.remove(i).last() == s.last());
        assert(map_of_pairs(s.remove(i)) == map_of_pairs(dl.remove(i)).insert(
            s.last().0,
            s.last().1,
        ));
        assert(s.last().0 != k);
        assert(map_of_pairs(dl).remove(k).insert(s.last().0, s.last().1) =~= map_of_pairs(
            dl,
        ).insert(s.last().0, s.last().1).remove(k));
        assert(map_of_pairs(s.remove(i)) == map_of_pairs(s).remove(k));
    }
}

/// Once a record is added under its email, that email is taken: a lookup
/// finds exactly the added record, so a second `add_user` with the same
/// email must conflict and `get_user` must return the record that was
/// added.
pub proof fn lemma_added_user_is_stored(users: Map<Seq<char>, UserView>, u: UserView)
    ensures
        users.insert(u.email, u).contains_key(u.email),
        users.insert(u.email, u)[u.email] == u,
{
}

/// The user store capability: a map from email to user record. Alternative
/// backends (a persistent database, say) implement the same interface; an
/// implementation may fail with `UnexpectedError` at any point, but a
/// failure never leaves a partial change behind.
pub trait UserStore: Sized {
    spec fn users(&self) -> Map<Seq<char>, UserView>;

    /// Atomic check-and-insert keyed by email.
    fn add_user(&mut self, user: User) -> (r: Result<(), UserStoreError>)
        ensures
            r is Ok ==> !old(self).users().contains_key(user@.email) && final(self).users()
                == old(self).users().insert(user@.email, user@),
            r == Err::<(), UserStoreError>(UserStoreError::UserAlreadyExists) ==> old(
                self,
            ).users().contains_key(user@.email),
            r is Err ==> final(self).users() == old(self).users() && (r == Err::<(),
            UserStoreError>(UserStoreError::UserAlreadyExists) || r == Err::<(), UserStoreError>(
                UserStoreError::UnexpectedError,
            )),
    ;

    fn get_user(&self, email: &Email) -> (r: Result<User, UserStoreError>)
        ensures
            r matches Ok(u) ==> self.users().contains_key(email@) && u@ == self.users()[email@],
            r == Err::<User, UserStoreError>(UserStoreError::UserNotFound) ==> !self.users().contains_key(
                email@,
            ),
            r is Err ==> r == Err::<User, UserStoreError>(UserStoreError::UserNotFound) || r
                == Err::<User, UserStoreError>(UserStoreError::UnexpectedError),
    ;

    /// Look the user up and run password verification; unknown email and
    /// wrong password stay distinct fault codes here and are collapsed only
    /// at the service boundary.
    fn validate_user(&self, email: &Email, raw_password: &str) -> (r: Result<(), UserStoreError>)
        ensures
            r is Ok ==> self.users().contains_key(email@) && argon2_verifies(
                self.users()[email@].password_hash,
                raw_password@,
            ),
            r == Err::<(), UserStoreError>(UserStoreError::UserNotFound) ==> !self.users().contains_key(
                email@,
            ),
            r == Err::<(), UserStoreError>(UserStoreError::InvalidCredentials)
                ==> self.users().contains_key(email@) && !argon2_verifies(
                self.users()[email@].password_hash,
                raw_password@,
            ),
            r is Err ==> r == Err::<(), UserStoreError>(UserStoreError::UserNotFound) || r
                == Err::<(), UserStoreError>(UserStoreError::InvalidCredentials) || r == Err::<(),
            UserStoreError>(UserStoreError::UnexpectedError),
    ;
}

/// The revoked-token store capability: the set of token strings revoked so
/// far. Entries are only ever added; a backend may prune an entry on its
/// own once the token's natural lifetime has elapsed.
pub trait BannedTokenStore: Sized {
    spec fn tokens(&self) -> Set<Seq<char>>;

    fn add_token(&mut self, token: &str) -> (r: Result<(), BannedTokenStoreError>)
        ensures
            r is Ok ==> final(self).tokens() == old(self).tokens().insert(token@),
            r is Err ==> final(self).tokens() == old(self).tokens() && r == Err::<(),
            BannedTokenStoreError>(BannedTokenStoreError::UnexpectedError),
    ;

    fn check_token(&self, token: &str) -> (r: Result<bool, BannedTokenStoreError>)
        ensures
            r matches Ok(b) ==> b == self.tokens().contains(token@),
            r is Err ==> r == Err::<bool, BannedTokenStoreError>(
                BannedTokenStoreError::UnexpectedError,
            ),
    ;
}

/// The pending-challenge store capability: a map from email to the one
/// pending `(login attempt id, code)` pair for that email.
pub trait TwoFACodeStore: Sized {
    spec fn codes(&self) -> Map<Seq<char>, (Seq<char>, Seq<char>)>;

    /// Unconditional overwrite: a new challenge for an email invalidates any
    /// prior pair for that email, whether or not one was pending.
    fn add_code(&mut self, email: Email, login_attempt_id: LoginAttemptId, code: TwoFACode) -> (r:
        Result<(), TwoFACodeStoreError>)
        ensures
            r is Ok ==> final(self).codes() == old(self).codes().insert(
                email@,
                (login_attempt_id@, code@),
            ),
            r is Err ==> final(self).codes() == old(self).codes() && r == Err::<(),
            TwoFACodeStoreError>(TwoFACodeStoreError::UnexpectedError),
    ;

    /// Consume the pending challenge for an email.
    fn remove_code(&mut self, email: &Email) -> (r: Result<(), TwoFACodeStoreError>)
        ensures
            r is Ok ==> old(self).codes().contains_key(email@) && final(self).codes() == old(
                self,
            ).codes().remove(email@),
            r == Err::<(), TwoFACodeStoreError>(TwoFACodeStoreError::LoginAttempIdNotFound)
                ==> !old(self).codes().contains_key(email@),
            r is Err ==> final(self).codes() == old(self).codes() && (r == Err::<(),
            TwoFACodeStoreError>(TwoFACodeStoreError::LoginAttempIdNotFound) || r == Err::<(),
            TwoFACodeStoreError>(TwoFACodeStoreError::UnexpectedError)),
    ;

    fn get_code(&self, email: &Email) -> (r: Result<
        (LoginAttemptId, TwoFACode),
        TwoFACodeStoreError,
    >)
        ensures
            r matches Ok(p) ==> self.codes().contains_key(email@) && self.codes()[email@] == (
                p.0@,
                p.1@,
            ),
            r == Err::<(LoginAttemptId, TwoFACode), TwoFACodeStoreError>(
                TwoFACodeStoreError::LoginAttempIdNotFound,
            ) ==> !self.codes().contains_key(email@),
            r is Err ==> r == Err::<(LoginAttemptId, TwoFACode), TwoFACodeStoreError>(
                TwoFACodeStoreError::LoginAttempIdNotFound,
            ) || r == Err::<(LoginAttemptId, TwoFACode), TwoFACodeStoreError>(
                TwoFACodeStoreError::UnexpectedError,
            ),
    ;
}

} // verus!
