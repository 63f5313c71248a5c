use vstd::prelude::*;

use crate::data_stores::{
    BannedTokenStore, TwoFACodeStore, TwoFACodeStoreError, UserStore, UserStoreError,
};
use crate::email::{email_valid, Email};
use crate::error::AuthAPIError;
use crate::login_attempt_id::{uuid_valid, LoginAttemptId};
use crate::password::{argon2_verifies, password_acceptable, HashedPassword};
use crate::token::{
    issue_token, token_for, validate_spec, validate_token, SessionToken, TokenConfig, TokenError,
};
use crate::two_fa_code::{code_valid, TwoFACode};
use crate::user::User;

verus! {

pub struct SignupRequest {
    pub email: String,
    pub password: String,
    pub requires_2fa: bool,
}

pub struct SignupRespose {
    pub message: String,
}

pub struct LoginRequest {
    pub email: String,
    pub password: String,
}

pub struct TwoFactorAuthResponse {
    pub message: String,
    pub login_attempt_id: String,
}

/// The login response body: empty for direct authentication, the challenge
/// id when a second factor is pending.
pub enum LoginResponse {
    RegularAuth,
    TwoFactorAuth(TwoFactorAuthResponse),
}

pub struct VerifyTwoFARequest {
    pub email: String,
    pub login_attempt_id: String,
    pub two_fa_code: String,
}

pub struct VerifyTokenRequest {
    pub token: String,
}

/// What a login attempt decides once the credentials check out.
pub enum LoginOutcome {
    /// No second factor required: a session token, issued directly.
    Authenticated(SessionToken),
    /// A second factor is required: a fresh challenge, to be delivered to
    /// the user and only then recorded in the challenge store.
    SecondFactor { email: Email, login_attempt_id: LoginAttemptId, code: TwoFACode },
}

/// Register a new user: reject malformed input, hash the password, and
/// insert the record unless the email is taken.
pub fn signup<U: UserStore>(user_store: &mut U, request: SignupRequest) -> (r: Result<
    SignupRespose,
    AuthAPIError,
>)
    ensures
        !email_valid(request.email@) || !password_acceptable(request.password@) ==> r == Err::<
            SignupRespose,
            AuthAPIError,
        >(AuthAPIError::InvalidCredentials) && final(user_store).users() == old(user_store).users(),
        email_valid(request.email@) && password_acceptable(request.password@) ==> (match r {
            Ok(resp) => {
                &&& resp.message@ == "User created successfully!"@
                &&& !old(user_store).users().contains_key(request.email@)
                &&& final(user_store).users().contains_key(request.email@)
                &&& final(user_store).users()[request.email@].email == request.email@
                &&& final(user_store).users()[request.email@].requires_2fa == request.requires_2fa
                &&& argon2_verifies(
                    final(user_store).users()[request.email@].password_hash,
                    request.password@,
                )
                &&& final(user_store).users() == old(user_store).users().insert(
                    request.email@,
                    final(user_store).users()[request.email@],
                )
            },
            Err(e) => {
                &&& final(user_store).users() == old(user_store).users()
                &&& (e == AuthAPIError::UserAlreadyExists || e == AuthAPIError::UnexpectedError)
                &&& (e == AuthAPIError::UserAlreadyExists ==> old(user_store).users().contains_key(
                    request.email@,
                ))
            },
        }),
{
    let email = match Email::parse(request.email) {
        Ok(e) => e,
        Err(e) => {
            return Err(e);
        },
    };
    let password = match HashedPassword::parse(request.password) {
        Ok(p) => p,
        Err(e) => {
            return Err(e);
        },
    };
    let user = User::new(email, password, request.requires_2fa);
    match user_store.add_user(user) {
        Ok(()) => Ok(SignupRespose { message: "User created successfully!".to_owned() }),
        Err(UserStoreError::UserAlreadyExists) => Err(AuthAPIError::UserAlreadyExists),
        Err(_) => Err(AuthAPIError::UnexpectedError),
    }
}

/// Check a login: malformed input is rejected outright; unknown email and
/// wrong password both come back as `IncorrectCredentials`; good credentials
/// yield either a session token or a fresh second-factor challenge,
/// according to the user's flag.
pub fn login<U: UserStore>(
    user_store: &U,
    config: &TokenConfig,
    request: LoginRequest,
    now: u64,
) -> (r: Result<LoginOutcome, AuthAPIError>)
    requires
        now + config.ttl_seconds <= u64::MAX,
    ensures
        !email_valid(request.email@) || !password_acceptable(request.password@) ==> r == Err::<
            LoginOutcome,
            AuthAPIError,
        >(AuthAPIError::InvalidCredentials),
        email_valid(request.email@) && password_acceptable(request.password@) ==> (match r {
            Ok(outcome) => {
                &&& user_store.users().contains_key(request.email@)
                &&& argon2_verifies(
                    user_store.users()[request.email@].password_hash,
                    request.password@,
                )
                &&& (match outcome {
                    LoginOutcome::Authenticated(t) => !user_store.users()[request.email@].requires_2fa
                        && t@ == token_for(
                        config.secret@,
                        request.email@,
                        now,
                        (now + config.ttl_seconds) as u64,
                    ),
                    LoginOutcome::SecondFactor { email, login_attempt_id, code } => user_store.users()[request.email@].requires_2fa
                        && email@ == request.email@ && uuid_valid(login_attempt_id@) && code_valid(
                        code@,
                    ),
                })
            },
            Err(e) => {
                &&& (e == AuthAPIError::IncorrectCredentials || e == AuthAPIError::UnexpectedError)
                &&& (e == AuthAPIError::IncorrectCredentials ==> !(
                user_store.users().contains_key(request.email@) && argon2_verifies(
                    user_store.users()[request.email@].password_hash,
                    request.password@,
                )))
            },
        }),
{
    let email = match Email::parse(request.email) {
        Ok(e) => e,
        Err(e) => {
            return Err(e);
        },
    };
    if request.password.as_str().unicode_len() < 8 {
        return Err(AuthAPIError::InvalidCredentials);
    }
    match user_store.validate_user(&email, request.password.as_str()) {
        Ok(()) => (),
        Err(UserStoreError::UserNotFound) => {
            return Err(AuthAPIError::IncorrectCredentials);
        },
        Err(UserStoreError::InvalidCredentials) => {
            return Err(AuthAPIError::IncorrectCredentials);
        },
        Err(_) => {
            return Err(AuthAPIError::UnexpectedError);
        },
    }
    let user = match user_store.get_user(&email) {
        Ok(u) => u,
        Err(_) => {
            return Err(AuthAPIError::UnexpectedError);
        },
    };
    if user.requires_2fa {
        let login_attempt_id = LoginAttemptId::default();
        let code = TwoFACode::default();
        Ok(LoginOutcome::SecondFactor { email, login_attempt_id, code })
    } else {
        let token = issue_token(config, &email, now);
        Ok(LoginOutcome::Authenticated(token))
    }
}

impl TwoFactorAuthResponse {
    /// The response body announcing a pending second factor.
    pub fn for_attempt(login_attempt_id: &LoginAttemptId) -> (r: Self)
        ensures
            r.message@ == "2FA required"@,
            r.login_attempt_id@ == login_attempt_id@,
    {
        TwoFactorAuthResponse {
            message: "2FA required".to_owned(),
            login_attempt_id: login_attempt_id.as_str().to_owned(),
        }
    }
}

/// Record a freshly delivered challenge, overwriting any pending one for the
/// same email. Called only after delivery succeeded, so a failed delivery
/// never leaves a usable, undelivered code behind.
pub fn record_two_fa_challenge<T: TwoFACodeStore>(
    two_fa_code_store: &mut T,
    email: Email,
    login_attempt_id: LoginAttemptId,
    code: TwoFACode,
) -> (r: Result<TwoFactorAuthResponse, AuthAPIError>)
    ensures
        r matches Ok(resp) ==> final(two_fa_code_store).codes()
            == old(two_fa_code_store).codes().insert(email@, (login_attempt_id@, code@))
            && resp.login_attempt_id@
            == login_attempt_id@ && resp.message@ == "2FA required"@,
        r is Err ==> r == Err::<TwoFactorAuthResponse, AuthAPIError>(AuthAPIError::UnexpectedError)
            && final(two_fa_code_store).codes() == old(two_fa_code_store).codes(),
{
    let response = TwoFactorAuthResponse::for_attempt(&login_attempt_id);
    match two_fa_code_store.add_code(email, login_attempt_id, code) {
        Ok(()) => Ok(response),
        Err(_) => Err(AuthAPIError::UnexpectedError),
    }
}

/// Whether the supplied pair is exactly the pending challenge for an email.
pub open spec fn challenge_matches(
    codes: Map<Seq<char>, (Seq<char>, Seq<char>)>,
    email: Seq<char>,
    login_attempt_id: Seq<char>,
    code: Seq<char>,
) -> bool {
    codes.contains_key(email) && codes[email] == (login_attempt_id, code)
}

/// When a second challenge for the same email overwrites a first one, only
/// the second pair is accepted afterwards; the first is rejected even though
/// it was never explicitly removed.
pub proof fn lemma_second_challenge_wins(
    codes: Map<Seq<char>, (Seq<char>, Seq<char>)>,
    email: Seq<char>,
    first: (Seq<char>, Seq<char>),
    second: (Seq<char>, Seq<char>),
)
    requires
        first != second,
    ensures
        !challenge_matches(
            codes.insert(email, first).insert(email, second),
            email,
            first.0,
            first.1,
        ),
        challenge_matches(
            codes.insert(email, first).insert(email, second),
            email,
            second.0,
            second.1,
        ),
{
}

/// Resolve a pending challenge: both the id and the code must equal the
/// stored pair. On a mismatch the pending pair is left in place, so later
/// attempts compare against the same pair; on a match a token is issued and
/// the pair is consumed, so the same code cannot be replayed.
pub fn verify_2fa<T: TwoFACodeStore>(
    two_fa_code_store: &mut T,
    config: &TokenConfig,
    request: VerifyTwoFARequest,
    now: u64,
) -> (r: Result<SessionToken, AuthAPIError>)
    requires
        now + config.ttl_seconds <= u64::MAX,
    ensures
        !email_valid(request.email@) || !uuid_valid(request.login_attempt_id@) || !code_valid(
            request.two_fa_code@,
        ) ==> r == Err::<SessionToken, AuthAPIError>(AuthAPIError::InvalidCredentials)
            && final(two_fa_code_store).codes() == old(two_fa_code_store).codes(),
        email_valid(request.email@) && uuid_valid(request.login_attempt_id@) && code_valid(
            request.two_fa_code@,
        ) ==> (match r {
            Ok(t) => {
                &&& challenge_matches(
                    old(two_fa_code_store).codes(),
                    request.email@,
                    request.login_attempt_id@,
                    request.two_fa_code@,
                )
                &&& t@ == token_for(
                    config.secret@,
                    request.email@,
                    now,
                    (now + config.ttl_seconds) as u64,
                )
                &&& final(two_fa_code_store).codes() == old(two_fa_code_store).codes().remove(
                    request.email@,
                )
            },
            Err(e) => {
                &&& final(two_fa_code_store).codes() == old(two_fa_code_store).codes()
                &&& (e == AuthAPIError::IncorrectCredentials || e
                    == AuthAPIError::UnexpectedError)
                &&& (e == AuthAPIError::IncorrectCredentials ==> !challenge_matches(
                    old(two_fa_code_store).codes(),
                    request.email@,
                    request.login_attempt_id@,
                    request.two_fa_code@,
                ))
            },
        }),
{
    let email = match Email::parse(request.email) {
        Ok(e) => e,
        Err(_) => {
            return Err(AuthAPIError::InvalidCredentials);
        },
    };
    let login_attempt_id = match LoginAttemptId::parse(request.login_attempt_id) {
        Ok(v) => v,
        Err(_) => {
            return Err(AuthAPIError::InvalidCredentials);
        },
    };
    let two_fa_code = match TwoFACode::parse(request.two_fa_code) {
        Ok(v) => v,
        Err(_) => {
            return Err(AuthAPIError::InvalidCredentials);
        },
    };
    let (stored_id, stored_code) = match two_fa_code_store.get_code(&email) {
        Ok(p) => p,
        Err(TwoFACodeStoreError::LoginAttempIdNotFound) => {
            return Err(AuthAPIError::IncorrectCredentials);
        },
        Err(_) => {
            return Err(AuthAPIError::UnexpectedError);
        },
    };
    let id_match = login_attempt_id.same_as(&stored_id);
    let code_match = two_fa_code.same_as(&stored_code);
    if !(id_match && code_match) {
        return Err(AuthAPIError::IncorrectCredentials);
    }
    let token = issue_token(config, &email, now);
    match two_fa_code_store.remove_code(&email) {
        Ok(()) => Ok(token),
        Err(_) => Err(AuthAPIError::UnexpectedError),
    }
}

/// Check a presented token: well-formedness and signature, then expiry, then
/// revocation; every failure is collapsed to `InvalidToken` except a store
/// fault.
pub fn verify_token<B: BannedTokenStore>(
    banned_token_store: &B,
    config: &TokenConfig,
    request: VerifyTokenRequest,
    now: u64,
) -> (r: Result<(), AuthAPIError>)
    ensures
        (match validate_spec(config.secret@, request.token@, now, banned_token_store.tokens()) {
            Ok(_) => r is Ok || r == Err::<(), AuthAPIError>(AuthAPIError::UnexpectedError),
            Err(e) => {
                &&& r == Err::<(), AuthAPIError>(AuthAPIError::InvalidToken) || r == Err::<
                    (),
                    AuthAPIError,
                >(AuthAPIError::UnexpectedError)
                &&& ((e == TokenError::Malformed || e == TokenError::Expired) ==> r == Err::<
                    (),
                    AuthAPIError,
                >(AuthAPIError::InvalidToken))
            },
        }),
{
    match validate_token(config, banned_token_store, request.token.as_str(), now) {
        Ok(_) => Ok(()),
        Err(TokenError::Unexpected) => Err(AuthAPIError::UnexpectedError),
        Err(_) => Err(AuthAPIError::InvalidToken),
    }
}

/// Log out: validate the presented cookie token, and only on success revoke
/// it; on any validation failure nothing is revoked.
pub fn logout<B: BannedTokenStore>(
    banned_token_store: &mut B,
    config: &TokenConfig,
    cookie: Option<&str>,
    now: u64,
) -> (r: Result<(), AuthAPIError>)
    ensures
        cookie is None ==> r == Err::<(), AuthAPIError>(AuthAPIError::MissingToken)
            && final(banned_token_store).tokens() == old(banned_token_store).tokens(),
        (match cookie {
            Some(t) => (match validate_spec(
                config.secret@,
                t@,
                now,
                old(banned_token_store).tokens(),
            ) {
                Ok(_) => (r is Ok && final(banned_token_store).tokens()
                    == old(banned_token_store).tokens().insert(t@)) || (r == Err::<(), AuthAPIError>(
                    AuthAPIError::UnexpectedError,
                ) && final(banned_token_store).tokens() == old(banned_token_store).tokens()),
                Err(e) => {
                    &&& final(banned_token_store).tokens() == old(banned_token_store).tokens()
                    &&& (r == Err::<(), AuthAPIError>(AuthAPIError::InvalidToken) || r == Err::<
                        (),
                        AuthAPIError,
                    >(AuthAPIError::UnexpectedError))
                    &&& ((e == TokenError::Malformed || e == TokenError::Expired) ==> r == Err::<
                        (),
                        AuthAPIError,
                    >(AuthAPIError::InvalidToken))
                },
            }),
            None => true,
        }),
{
    let token = match cookie {
        Some(t) => t,
        None => {
            return Err(AuthAPIError::MissingToken);
        },
    };
    match validate_token(config, &*banned_token_store, token, now) {
        Ok(_) => (),
        Err(TokenError::Unexpected) => {
            return Err(AuthAPIError::UnexpectedError);
        },
        Err(_) => {
            return Err(AuthAPIError::InvalidToken);
        },
    }
    match banned_token_store.add_token(token) {
        Ok(()) => Ok(()),
        Err(_) => Err(AuthAPIError::UnexpectedError),
    }
}

} // verus!
