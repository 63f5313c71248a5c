use vstd::prelude::*;

use crate::email::Email;
use crate::password::HashedPassword;

verus! {

/// The mathematical content of a user record.
pub struct UserView {
    pub email: Seq<char>,
    pub password_hash: Seq<char>,
    pub requires_2fa: bool,
}

/// A user record: the natural key is the email; the password is stored only
/// as its hash; the flag says whether logins must pass a second factor.
/// Immutable after signup: this core has no profile-update operations.
#[derive(Debug, PartialEq)]
pub struct User {
    pub email: Email,
    pub password: HashedPassword,
    pub requires_2fa: bool,
}

impl View for User {
    type V = UserView;

    open spec fn view(&self) -> UserView {
        UserView { email: self.email@, password_hash: self.password@, requires_2fa: self.requires_2fa }
    }
}

impl Clone for User {
    fn clone(&self) -> (r: Self)
        ensures
            r == *self,
    {
        User {
            email: self.email.clone(),
            password: self.password.clone(),
            requires_2fa: self.requires_2fa,
        }
    }
}

impl User {
    pub fn new(email: Email, password: HashedPassword, requires_2fa: bool) -> (r: Self)
        ensures
            r == (User { email, password, requires_2fa }),
    {
        User { email, password, requires_2fa }
    }
}

} // verus!
