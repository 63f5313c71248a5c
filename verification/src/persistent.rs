use vstd::prelude::*;

use vstd::string::StringExecFns;

use crate::data_stores::UserStoreError;
use crate::email::{email_valid, Email};
use crate::password::{phc_valid, HashedPassword};
use crate::user::{User, UserView};

verus! {

/// The key prefix that isolates revocation entries when the revoked-token
/// store shares a keyspace with other data.
pub const BANNED_TOKEN_KEY_PREFIX: &'static str = "banned_token:";

/// The namespaced key under which a revoked token is stored.
pub fn get_key(token: &str) -> (r: String)
    ensures
        r@ == "banned_token:"@ + token@,
{
    let mut r = BANNED_TOKEN_KEY_PREFIX.to_owned();
    r.append(token);
    r
}

/// Rebuild a user record from the raw columns of a persisted row. A
/// malformed column maps to `UnexpectedError`: only validated values are
/// ever written, so a row that fails to parse is a backend fault, not a
/// caller error.
pub fn user_from_row(email: String, password_hash: String, requires_2fa: bool) -> (r: Result<
    User,
    UserStoreError,
>)
    ensures
        email_valid(email@) && phc_valid(password_hash@) ==> (r matches Ok(u) && u@ == (UserView {
            email: email@,
            password_hash: password_hash@,
            requires_2fa,
        })),
        !(email_valid(email@) && phc_valid(password_hash@)) ==> r == Err::<User, UserStoreError>(
            UserStoreError::UnexpectedError,
        ),
{
    let parsed_email = match Email::parse(email) {
        Ok(e) => e,
        Err(_) => {
            return Err(UserStoreError::UnexpectedError);
        },
    };
    let parsed_hash = match HashedPassword::parse_password_hash(password_hash) {
        Ok(p) => p,
        Err(_) => {
            return Err(UserStoreError::UnexpectedError);
        },
    };
    Ok(User::new(parsed_email, parsed_hash, requires_2fa))
}

} // verus!
