use vstd::prelude::*;

use argon2::password_hash::{PasswordHasher, PasswordVerifier, SaltString};
use rand::RngExt;

use crate::error::AuthAPIError;

verus! {

/// Whether a string is a well-formed PHC-format hash record; the verdict of
/// `argon2::PasswordHash::new`, which depends on the characters alone.
pub uninterp spec fn phc_valid(s: Seq<char>) -> bool;

/// Whether the Argon2 algorithm, run with the salt and parameters recorded
/// in `hash`, reproduces the output recorded in `hash` from `password`; the
/// verdict of `Argon2::verify_password`, which depends on the two strings
/// alone.
pub uninterp spec fn argon2_verifies(hash: Seq<char>, password: Seq<char>) -> bool;

/// Relies on argon2::PasswordHash::new: whether a string parses as a
/// PHC-format hash record depends on the characters alone.
#[verifier::external_body]
fn phc_parses(s: &str) -> (r: bool)
    ensures
        r == phc_valid(s@),
{
    argon2::PasswordHash::new(s).is_ok()
}

/// Relies on argon2::PasswordHash::new and Argon2::verify_password: the
/// verification recomputes the hash with the salt and parameters recorded in
/// the hash record itself, so the verdict depends on the two strings alone.
#[verifier::external_body]
fn argon2_verify(hash: &str, password: &str) -> (r: bool)
    ensures
        r == (phc_valid(hash@) && argon2_verifies(hash@, password@)),
{
    match argon2::PasswordHash::new(hash) {
        Ok(parsed) => argon2::Argon2::default().verify_password(
            password.as_bytes(),
            &parsed,
        ).is_ok(),
        Err(_) => false,
    }
}

/// Relies on Argon2::hash_password with a fresh random salt: a produced
/// record is a well-formed PHC string, and verification with the salt and
/// parameters it records reproduces it from the same password.
#[verifier::external_body]
fn argon2_hash(password: &str) -> (r: Result<String, ()>)
    ensures
        r matches Ok(h) ==> phc_valid(h@) && argon2_verifies(h@, password@),
{
    let mut salt_bytes = [0u8; 16];
    rand::rng().fill(&mut salt_bytes);
    let salt = match SaltString::encode_b64(&salt_bytes) {
        Ok(s) => s,
        Err(_) => return Err(()),
    };
    let params = match argon2::Params::new(15000, 2, 1, None) {
        Ok(p) => p,
        Err(_) => return Err(()),
    };
    let hasher = argon2::Argon2::new(argon2::Algorithm::Argon2id, argon2::Version::V0x13, params);
    match hasher.hash_password(password.as_bytes(), &salt) {
        Ok(h) => Ok(h.to_string()),
        Err(_) => Err(()),
    }
}

/// A raw password is accepted for hashing when it has at least 8 characters.
pub open spec fn password_acceptable(s: Seq<char>) -> bool {
    s.len() >= 8
}

/// The salted, versioned record a memory-hard password hash produces; never
/// built from a raw password except through the hashing function, and never
/// compared to raw passwords except through the verification algorithm.
#[derive(Debug, PartialEq)]
pub struct HashedPassword {
    hash: String,
}

impl View for HashedPassword {
    type V = Seq<char>;

    closed spec fn view(&self) -> Seq<char> {
        self.hash@
    }
}

impl Clone for HashedPassword {
    fn clone(&self) -> (r: Self)
        ensures
            r == *self,
    {
        proof {
            use_type_invariant(self);
        }
        HashedPassword { hash: self.hash.clone() }
    }
}

impl HashedPassword {
    /// Every value of this type holds a well-formed PHC hash record.
    #[verifier::type_invariant]
    spec fn type_inv(&self) -> bool {
        phc_valid(self@)
    }

    /// Hash a raw password. Rejects passwords under 8 characters; otherwise
    /// runs the memory-hard hash, whose record then verifies against exactly
    /// the password it was made from.
    pub fn parse(password: String) -> (r: Result<Self, AuthAPIError>)
        ensures
            !password_acceptable(password@) ==> r == Err::<HashedPassword, AuthAPIError>(
                AuthAPIError::InvalidCredentials,
            ),
            r matches Ok(h) ==> password_acceptable(password@) && argon2_verifies(h@, password@),
            r is Err ==> (r == Err::<HashedPassword, AuthAPIError>(AuthAPIError::InvalidCredentials)
                && !password_acceptable(password@)) || r == Err::<HashedPassword, AuthAPIError>(
                AuthAPIError::UnexpectedError,
            ),
    {
        if password.as_str().unicode_len() < 8 {
            return Err(AuthAPIError::InvalidCredentials);
        }
        match argon2_hash(password.as_str()) {
            Ok(hash) => Ok(HashedPassword { hash }),
            Err(_) => Err(AuthAPIError::UnexpectedError),
        }
    }

    /// Accept a string loaded from storage as a hash record exactly when it
    /// is a well-formed PHC string.
    pub fn parse_password_hash(hash: String) -> (r: Result<Self, String>)
        ensures
            phc_valid(hash@) ==> (r matches Ok(h) && h@ == hash@),
            !phc_valid(hash@) ==> r is Err,
    {
        if phc_parses(hash.as_str()) {
            Ok(HashedPassword { hash })
        } else {
            Err("not a well-formed password hash".to_owned())
        }
    }

    /// Run the verification algorithm against a candidate password: true
    /// exactly when this record was produced from that candidate.
    pub fn verify_raw_password(&self, password_candidate: &str) -> (r: bool)
        ensures
            r == argon2_verifies(self@, password_candidate@),
    {
        proof {
            use_type_invariant(self);
        }
        argon2_verify(self.hash.as_str(), password_candidate)
    }

    pub fn as_str(&self) -> (r: &str)
        ensures
            r@ == self@,
    {
        self.hash.as_str()
    }
}

} // verus!
