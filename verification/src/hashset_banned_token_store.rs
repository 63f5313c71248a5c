use vstd::prelude::*;

use crate::data_stores::{BannedTokenStore, BannedTokenStoreError};

verus! {

/// The set of token strings a vector of revoked tokens stands for.
pub open spec fn set_of_tokens(s: Seq<Seq<char>>) -> Set<Seq<char>>
    decreases s.len(),
{
    if s.len() == 0 {
        Set::empty()
    } else {
        set_of_tokens(s.drop_last()).insert(s.last())
    }
}

pub open spec fn token_views(s: Seq<String>) -> Seq<Seq<char>> {
    s.map_values(|t: String| t@)
}

/// An entry's string is in the set.
proof fn lemma_set_of_tokens_index(s: Seq<Seq<char>>, i: int)
    requires
        0 <= i < s.len(),
    ensures
        set_of_tokens(s).contains(s[i]),
    decreases s.len(),
{
    if i < s.len() - 1 {
        lemma_set_of_tokens_index(s.drop_last(), i);
    }
}

/// A string no entry carries is not in the set.
proof fn lemma_set_of_tokens_absent(s: Seq<Seq<char>>, t: Seq<char>)
    requires
        forall|i: int| 0 <= i < s.len() ==> s[i] != t,
    ensures
        !set_of_tokens(s).contains(t),
    decreases s.len(),
{
    if s.len() > 0 {
        lemma_set_of_tokens_absent(s.drop_last(), t);
    }
}

/// The in-memory revoked-token store: an unbounded set of token strings,
/// acceptable for a process lifetime only because session tokens are
/// already time-boxed.
#[derive(Debug)]
pub struct HashsetBannedTokenStore {
    tokens: Vec<String>,
}

impl Default for HashsetBannedTokenStore {
    fn default() -> (r: Self)
        ensures
            r.tokens() == Set::<Seq<char>>::empty(),
    {
        HashsetBannedTokenStore { tokens: Vec::new() }
    }
}

impl BannedTokenStore for HashsetBannedTokenStore {
    closed spec fn tokens(&self) -> Set<Seq<char>> {
        set_of_tokens(token_views(self.tokens@))
    }

    /// Never fails; afterwards the token is in the revoked set. Adding a
    /// token twice leaves the set as after adding it once.
    fn add_token(&mut self, token: &str) -> (r: Result<(), BannedTokenStoreError>)
        ensures
            r is Ok && final(self).tokens() == old(self).tokens().insert(token@),
    {
        let ghost old_tokens = self.tokens@;
        self.tokens.push(token.to_owned());
        proof {
            assert(token_views(self.tokens@) =~= token_views(old_tokens).push(token@));
            assert(token_views(self.tokens@).drop_last() =~= token_views(old_tokens));
        }
        Ok(())
    }

    /// Never fails; reports exactly whether the token has been revoked.
    fn check_token(&self, token: &str) -> (r: Result<bool, BannedTokenStoreError>)
        ensures
            r matches Ok(b) && b == self.tokens().contains(token@),
    {
        let target = token.to_owned();
        let n = self.tokens.len();
        let mut i: usize = 0;
        while i < n
            invariant
                i <= n,
                n == self.tokens@.len(),
                target@ == token@,
                forall|j: int| 0 <= j < i ==> (#[trigger] self.tokens@[j])@ != token@,
            decreases n - i,
        {
            if self.tokens[i] == target {
                proof {
                    lemma_set_of_tokens_index(token_views(self.tokens@), i as int);
                }
                return Ok(true);
            }
            i = i + 1;
        }
        proof {
            lemma_set_of_tokens_absent(token_views(self.tokens@), token@);
        }
        Ok(false)
    }
}

} // verus!
