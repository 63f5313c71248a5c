use vstd::prelude::*;

use rand::RngExt;

use crate::encode::{
    all_digits, check_all_digits, dec_rep, dec_value, pow10, to_fixed_decimal,
};

verus! {

/// A one-time second-factor code is exactly six decimal digits, leading
/// zeros included.
pub open spec fn code_valid(s: Seq<char>) -> bool {
    s.len() == 6 && all_digits(s)
}

/// A six-digit one-time code for the second factor of a login.
#[derive(Debug, PartialEq)]
pub struct TwoFACode {
    code: String,
}

impl View for TwoFACode {
    type V = Seq<char>;

    closed spec fn view(&self) -> Seq<char> {
        self.code@
    }
}

impl Clone for TwoFACode {
    fn clone(&self) -> (r: Self)
        ensures
            r == *self,
    {
        proof {
            use_type_invariant(self);
        }
        TwoFACode { code: self.code.clone() }
    }
}

/// Relies on rand::rng and RngExt::random_range: a number drawn uniformly
/// from the inclusive range 0..=999_999, so it never exceeds 999_999.
#[verifier::external_body]
fn random_code_number() -> (r: u64)
    ensures
        r <= 999_999,
{
    rand::rng().random_range(0u64..=999_999u64)
}

impl TwoFACode {
    /// Every value of this type holds exactly six decimal digits.
    #[verifier::type_invariant]
    spec fn type_inv(&self) -> bool {
        code_valid(self@)
    }

    /// Accept a string as a one-time code exactly when it is six decimal
    /// digits.
    pub fn parse(code: String) -> (r: Result<Self, String>)
        ensures
            code_valid(code@) ==> (r matches Ok(c) && c@ == code@),
            !code_valid(code@) ==> r is Err,
    {
        if !check_all_digits(code.as_str()) {
            return Err("Code ".to_owned());
        }
        if code.as_str().unicode_len() != 6 {
            return Err("2FA code must be 6 digits".to_owned());
        }
        Ok(TwoFACode { code })
    }

    /// The code whose numeric value is `n`, rendered as six digits with
    /// leading zeros.
    pub fn from_value(n: u64) -> (r: Self)
        requires
            n <= 999_999,
        ensures
            r@ == dec_rep(n as nat, 6),
            dec_value(r@) == n,
            code_valid(r@),
    {
        proof {
            reveal_with_fuel(pow10, 7);
            assert(pow10(6) == 1_000_000);
        }
        let code = to_fixed_decimal(n, 6);
        TwoFACode { code }
    }

    pub fn as_str(&self) -> (r: &str)
        ensures
            r@ == self@,
    {
        self.code.as_str()
    }

    /// Structural equality of two codes, decided by their digits.
    pub fn same_as(&self, other: &TwoFACode) -> (r: bool)
        ensures
            r == (self@ == other@),
    {
        self.code == other.code
    }
}

impl Default for TwoFACode {
    /// A fresh random code, drawn uniformly over the six-digit range.
    fn default() -> (r: Self)
        ensures
            code_valid(r@),
    {
        TwoFACode::from_value(random_code_number())
    }
}

} // verus!
