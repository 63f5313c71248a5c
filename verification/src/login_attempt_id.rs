use vstd::prelude::*;

verus! {

/// Whether a string is a well-formed UUID; the verdict of
/// `uuid::Uuid::try_parse`, which depends on the characters alone.
pub uninterp spec fn uuid_valid(s: Seq<char>) -> bool;

/// Relies on uuid::Uuid::try_parse: whether the string parses as a UUID
/// depends on the characters alone.
#[verifier::external_body]
fn uuid_parses(s: &str) -> (r: bool)
    ensures
        r == uuid_valid(s@),
{
    uuid::Uuid::try_parse(s).is_ok()
}

/// Relies on uuid::Uuid::new_v4 and its canonical hyphenated rendering:
/// a fresh random UUID rendered as a string always parses back.
#[verifier::external_body]
fn fresh_uuid_string() -> (r: String)
    ensures
        uuid_valid(r@),
{
    uuid::Uuid::new_v4().to_string()
}

/// The opaque correlation id of one pending second-factor challenge,
/// generated fresh for every login attempt that requires one.
#[derive(Debug, PartialEq)]
pub struct LoginAttemptId {
    id: String,
}

impl View for LoginAttemptId {
    type V = Seq<char>;

    closed spec fn view(&self) -> Seq<char> {
        self.id@
    }
}

impl Clone for LoginAttemptId {
    fn clone(&self) -> (r: Self)
        ensures
            r == *self,
    {
        proof {
            use_type_invariant(self);
        }
        LoginAttemptId { id: self.id.clone() }
    }
}

impl LoginAttemptId {
    /// Every value of this type holds a well-formed UUID string.
    #[verifier::type_invariant]
    spec fn type_inv(&self) -> bool {
        uuid_valid(self@)
    }

    /// Accept a string as a login attempt id exactly when it is a
    /// well-formed UUID.
    pub fn parse(id: String) -> (r: Result<Self, String>)
        ensures
            uuid_valid(id@) ==> (r matches Ok(v) && v@ == id@),
            !uuid_valid(id@) ==> r is Err,
    {
        if uuid_parses(id.as_str()) {
            Ok(LoginAttemptId { id })
        } else {
            Err("Login Attempt ID not a valid".to_owned())
        }
    }

    pub fn as_str(&self) -> (r: &str)
        ensures
            r@ == self@,
    {
        self.id.as_str()
    }

    /// Structural equality of two ids, decided by their strings.
    pub fn same_as(&self, other: &LoginAttemptId) -> (r: bool)
        ensures
            r == (self@ == other@),
    {
        self.id == other.id
    }
}

impl Default for LoginAttemptId {
    /// A fresh random id; unpredictable, never reused.
    fn default() -> (r: Self)
        ensures
            uuid_valid(r@),
    {
        LoginAttemptId { id: fresh_uuid_string() }
    }
}

} // verus!
