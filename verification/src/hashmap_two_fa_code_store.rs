use vstd::prelude::*;

use crate::data_stores::{
    keys_distinct, lemma_map_of_pairs_absent, lemma_map_of_pairs_index, lemma_map_of_pairs_push,
    lemma_map_of_pairs_remove, map_of_pairs, TwoFACodeStore, TwoFACodeStoreError,
};
use crate::email::Email;
use crate::login_attempt_id::LoginAttemptId;
use crate::two_fa_code::TwoFACode;

verus! {

/// The key-value entries a vector of pending challenges stands for.
pub open spec fn code_pairs(s: Seq<(Email, LoginAttemptId, TwoFACode)>) -> Seq<
    (Seq<char>, (Seq<char>, Seq<char>)),
> {
    s.map_values(|e: (Email, LoginAttemptId, TwoFACode)| (e.0@, (e.1@, e.2@)))
}

/// The in-memory pending-challenge store: an email-keyed map holding at most
/// one `(login attempt id, code)` pair per email.
#[derive(Debug)]
pub struct HashMapTwoFACodeStore {
    codes: Vec<(Email, LoginAttemptId, TwoFACode)>,
}

impl Default for HashMapTwoFACodeStore {
    fn default() -> (r: Self)
        ensures
            r.codes() == Map::<Seq<char>, (Seq<char>, Seq<char>)>::empty(),
    {
        HashMapTwoFACodeStore { codes: Vec::new() }
    }
}

impl HashMapTwoFACodeStore {
    /// At most one pending challenge per email.
    #[verifier::type_invariant]
    spec fn type_inv(&self) -> bool {
        keys_distinct(code_pairs(self.codes@))
    }

    /// The position of the pending challenge for this email, if any.
    fn find_index(&self, email: &Email) -> (r: Option<usize>)
        ensures
            match r {
                Some(i) => i < self.codes@.len() && self.codes@[i as int].0@ == email@,
                None => forall|i: int|
                    0 <= i < self.codes@.len() ==> (#[trigger] self.codes@[i]).0@ != email@,
            },
    {
        let n = self.codes.len();
        let mut i: usize = 0;
        while i < n
            invariant
                i <= n,
                n == self.codes@.len(),
                forall|j: int| 0 <= j < i ==> (#[trigger] self.codes@[j]).0@ != email@,
            decreases n - i,
        {
            if self.codes[i].0.same_as(email) {
                return Some(i);
            }
            i = i + 1;
        }
        None
    }
}

impl TwoFACodeStore for HashMapTwoFACodeStore {
    closed spec fn codes(&self) -> Map<Seq<char>, (Seq<char>, Seq<char>)> {
        map_of_pairs(code_pairs(self.codes@))
    }

    /// Never fails: last write wins, so any prior pending pair for the email
    /// is overwritten and becomes unusable.
    fn add_code(&mut self, email: Email, login_attempt_id: LoginAttemptId, code: TwoFACode) -> (r:
        Result<(), TwoFACodeStoreError>)
        ensures
            r is Ok && final(self).codes() == old(self).codes().insert(
                email@,
                (login_attempt_id@, code@),
            ),
    {
        proof {
            use_type_invariant(&*self);
        }
        let ghost pairs0 = code_pairs(self.codes@);
        let idx = self.find_index(&email);
        let mut codes: Vec<(Email, LoginAttemptId, TwoFACode)> = Vec::new();
        std::mem::swap(&mut codes, &mut self.codes);
        match idx {
            Some(i) => {
                proof {
                    lemma_map_of_pairs_remove(pairs0, i as int);
                }
                codes.remove(i);
                proof {
                    assert(code_pairs(codes@) =~= pairs0.remove(i as int));
                }
            },
            None => {
                proof {
                    lemma_map_of_pairs_absent(pairs0, email@);
                    assert(map_of_pairs(pairs0).remove(email@) =~= map_of_pairs(pairs0));
                }
            },
        }
        let ghost pairs1 = code_pairs(codes@);
        proof {
            lemma_map_of_pairs_push(pairs1, (email@, (login_attempt_id@, code@)));
        }
        codes.push((email, login_attempt_id, code));
        proof {
            assert(code_pairs(codes@) =~= pairs1.push((email@, (login_attempt_id@, code@))));
            assert(map_of_pairs(pairs1).insert(email@, (login_attempt_id@, code@)) =~= old(
                self,
            ).codes().insert(email@, (login_attempt_id@, code@)));
        }
        self.codes = codes;
        Ok(())
    }

    /// Consumes the pending challenge: fails exactly when none is pending
    /// for this email, and then changes nothing.
    fn remove_code(&mut self, email: &Email) -> (r: Result<(), TwoFACodeStoreError>)
        ensures
            old(self).codes().contains_key(email@) ==> r is Ok && final(self).codes() == old(
                self,
            ).codes().remove(email@),
            !old(self).codes().contains_key(email@) ==> r == Err::<(), TwoFACodeStoreError>(
                TwoFACodeStoreError::LoginAttempIdNotFound,
            ) && final(self).codes() == old(self).codes(),
    {
        proof {
            use_type_invariant(&*self);
        }
        let ghost pairs0 = code_pairs(self.codes@);
        match self.find_index(email) {
            Some(i) => {
                proof {
                    lemma_map_of_pairs_index(pairs0, i as int);
                    lemma_map_of_pairs_remove(pairs0, i as int);
                }
                let mut codes: Vec<(Email, LoginAttemptId, TwoFACode)> = Vec::new();
                std::mem::swap(&mut codes, &mut self.codes);
                codes.remove(i);
                proof {
                    assert(code_pairs(codes@) =~= pairs0.remove(i as int));
                }
                self.codes = codes;
                Ok(())
            },
            None => {
                proof {
                    lemma_map_of_pairs_absent(pairs0, email@);
                }
                Err(TwoFACodeStoreError::LoginAttempIdNotFound)
            },
        }
    }

    /// Succeeds exactly when a challenge is pending for this email, and
    /// returns the stored pair unchanged.
    fn get_code(&self, email: &Email) -> (r: Result<
        (LoginAttemptId, TwoFACode),
        TwoFACodeStoreError,
    >)
        ensures
            self.codes().contains_key(email@) ==> (r matches Ok(p) && self.codes()[email@] == (
                p.0@,
                p.1@,
            )),
            !self.codes().contains_key(email@) ==> r == Err::<
                (LoginAttemptId, TwoFACode),
                TwoFACodeStoreError,
            >(TwoFACodeStoreError::LoginAttempIdNotFound),
    {
        proof {
            use_type_invariant(self);
        }
        match self.find_index(email) {
            Some(i) => {
                proof {
                    lemma_map_of_pairs_index(code_pairs(self.codes@), i as int);
                }
                let entry = &self.codes[i];
                Ok((entry.1.clone(), entry.2.clone()))
            },
            None => {
                proof {
                    lemma_map_of_pairs_absent(code_pairs(self.codes@), email@);
                }
                Err(TwoFACodeStoreError::LoginAttempIdNotFound)
            },
        }
    }
}

} // verus!
