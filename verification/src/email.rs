use vstd::prelude::*;

use crate::error::AuthAPIError;

verus! {

/// A string is a well-formed email address for this core when it contains
/// at least one '@'.
pub open spec fn email_valid(s: Seq<char>) -> bool {
    exists|i: int| 0 <= i < s.len() && s[i] == '@'
}

/// A validated email address, the natural key for a user record.
/// Immutable after construction: every value of this type satisfies
/// `email_valid`.
#[derive(Debug, PartialEq)]
pub struct Email {
    email: String,
}

impl Clone for Email {
    fn clone(&self) -> (r: Self)
        ensures
            r == *self,
    {
        proof {
            use_type_invariant(self);
        }
        Email { email: self.email.clone() }
    }
}

impl View for Email {
    type V = Seq<char>;

    closed spec fn view(&self) -> Seq<char> {
        self.email@
    }
}

impl Email {
    /// Every value of this type holds a string that passed validation.
    #[verifier::type_invariant]
    pub(crate) open spec fn type_inv(&self) -> bool {
        email_valid(self@)
    }

    /// Validate a raw string as an email address; succeeds exactly when the
    /// string contains an '@'.
    pub fn parse(email: String) -> (r: Result<Self, AuthAPIError>)
        ensures
            email_valid(email@) ==> (r matches Ok(e) && e@ == email@),
            !email_valid(email@) ==> r === Err(AuthAPIError::InvalidCredentials),
            r matches Ok(e) ==> e@ == email@ && email_valid(e@),
    {
        if contains_at_sign(email.as_str()) {
            Ok(Email { email })
        } else {
            Err(AuthAPIError::InvalidCredentials)
        }
    }

    pub fn as_str(&self) -> (r: &str)
        ensures
            r@ == self@,
    {
        self.email.as_str()
    }

    /// Structural equality of two email values, decided by their strings.
    pub fn same_as(&self, other: &Email) -> (r: bool)
        ensures
            r == (self@ == other@),
    {
        self.email == other.email
    }
}

/// Whether a string contains an '@'.
fn contains_at_sign(s: &str) -> (r: bool)
    ensures
        r == email_valid(s@),
{
    let len = s.unicode_len();
    let mut i: usize = 0;
    while i < len
        invariant
            i <= len,
            len == s@.len(),
            forall|j: int| 0 <= j < i ==> s@[j] != '@',
        decreases len - i,
    {
        if s.get_char(i) == '@' {
            assert(s@[i as int] == '@');
            return true;
        }
        i = i + 1;
    }
    false
}

} // verus!
