use vstd::prelude::*;

use crate::data_stores::{
    keys_distinct, lemma_map_of_pairs_absent, lemma_map_of_pairs_index, lemma_map_of_pairs_push,
    map_of_pairs, UserStore, UserStoreError,
};
use crate::email::Email;
use crate::password::argon2_verifies;
use crate::user::{User, UserView};

verus! {

/// The key-value entries a vector of user records stands for.
pub open spec fn user_pairs(s: Seq<User>) -> Seq<(Seq<char>, UserView)> {
    s.map_values(|u: User| (u@.email, u@))
}

/// The in-memory user store: an email-keyed map of user records, living for
/// the process lifetime only.
#[derive(Debug)]
pub struct HashmapUserStore {
    users: Vec<User>,
}

impl Default for HashmapUserStore {
    fn default() -> (r: Self)
        ensures
            r.users() == Map::<Seq<char>, UserView>::empty(),
    {
        HashmapUserStore { users: Vec::new() }
    }
}

impl HashmapUserStore {
    /// At most one record per email.
    #[verifier::type_invariant]
    spec fn type_inv(&self) -> bool {
        keys_distinct(user_pairs(self.users@))
    }

    /// The position of the record with this email, if any.
    fn find_index(&self, email: &Email) -> (r: Option<usize>)
        ensures
            match r {
                Some(i) => i < self.users@.len() && self.users@[i as int]@.email == email@,
                None => forall|i: int|
                    0 <= i < self.users@.len() ==> (#[trigger] self.users@[i])@.email != email@,
            },
    {
        let n = self.users.len();
        let mut i: usize = 0;
        while i < n
            invariant
                i <= n,
                n == self.users@.len(),
                forall|j: int| 0 <= j < i ==> (#[trigger] self.users@[j])@.email != email@,
            decreases n - i,
        {
            if self.users[i].email.same_as(email) {
                return Some(i);
            }
            i = i + 1;
        }
        None
    }

    /// Check-and-insert: fails exactly when a record with the same email is
    /// already present, and then changes nothing.
    pub fn add_user(&mut self, user: User) -> (r: Result<(), UserStoreError>)
        ensures
            old(self).users().contains_key(user@.email) ==> r == Err::<(), UserStoreError>(
                UserStoreError::UserAlreadyExists,
            ) && final(self).users() == old(self).users(),
            !old(self).users().contains_key(user@.email) ==> r is Ok && final(self).users() == old(
                self,
            ).users().insert(user@.email, user@),
    {
        proof {
            use_type_invariant(&*self);
        }
        match self.find_index(&user.email) {
            Some(i) => {
                proof {
                    lemma_map_of_pairs_index(user_pairs(self.users@), i as int);
                }
                Err(UserStoreError::UserAlreadyExists)
            },
            None => {
                proof {
                    lemma_map_of_pairs_absent(user_pairs(self.users@), user@.email);
                    lemma_map_of_pairs_push(user_pairs(self.users@), (user@.email, user@));
                }
                let ghost old_users = self.users@;
                let mut users: Vec<User> = Vec::new();
                std::mem::swap(&mut users, &mut self.users);
                users.push(user);
                proof {
                    assert(user_pairs(users@) =~= user_pairs(old_users).push(
                        (user@.email, user@),
                    ));
                }
                self.users = users;
                Ok(())
            },
        }
    }

    /// Succeeds exactly when a record with this email exists, and returns
    /// that record.
    pub fn get_user(&self, email: &Email) -> (r: Result<User, UserStoreError>)
        ensures
            self.users().contains_key(email@) ==> (r matches Ok(u) && u@ == self.users()[email@]),
            !self.users().contains_key(email@) ==> r == Err::<User, UserStoreError>(
                UserStoreError::UserNotFound,
            ),
    {
        proof {
            use_type_invariant(self);
        }
        match self.find_index(email) {
            Some(i) => {
                proof {
                    lemma_map_of_pairs_index(user_pairs(self.users@), i as int);
                }
                Ok(self.users[i].clone())
            },
            None => {
                proof {
                    lemma_map_of_pairs_absent(user_pairs(self.users@), email@);
                }
                Err(UserStoreError::UserNotFound)
            },
        }
    }

    /// Unknown email fails with `UserNotFound`; a known email fails with
    /// `InvalidCredentials` exactly when the stored hash rejects the
    /// password.
    pub fn validate_user(&self, email: &Email, raw_password: &str) -> (r: Result<
        (),
        UserStoreError,
    >)
        ensures
            !self.users().contains_key(email@) ==> r == Err::<(), UserStoreError>(
                UserStoreError::UserNotFound,
            ),
            self.users().contains_key(email@) && argon2_verifies(
                self.users()[email@].password_hash,
                raw_password@,
            ) ==> r is Ok,
            self.users().contains_key(email@) && !argon2_verifies(
                self.users()[email@].password_hash,
                raw_password@,
            ) ==> r == Err::<(), UserStoreError>(UserStoreError::InvalidCredentials),
    {
        match self.get_user(email) {
            Ok(user) => {
                if user.password.verify_raw_password(raw_password) {
                    Ok(())
                } else {
                    Err(UserStoreError::InvalidCredentials)
                }
            },
            Err(_) => Err(UserStoreError::UserNotFound),
        }
    }
}

impl UserStore for HashmapUserStore {
    closed spec fn users(&self) -> Map<Seq<char>, UserView> {
        map_of_pairs(user_pairs(self.users@))
    }

    fn add_user(&mut self, user: User) -> (r: Result<(), UserStoreError>) {
        HashmapUserStore::add_user(self, user)
    }

    fn get_user(&self, email: &Email) -> (r: Result<User, UserStoreError>) {
        HashmapUserStore::get_user(self, email)
    }

    fn validate_user(&self, email: &Email, raw_password: &str) -> (r: Result<(), UserStoreError>) {
        HashmapUserStore::validate_user(self, email, raw_password)
    }
}

} // verus!
