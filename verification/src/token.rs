use vstd::prelude::*;

use sha2::Digest;
use vstd::string::StringExecFns;
use vstd::utf8::encode_utf8;

use crate::data_stores::BannedTokenStore;
use crate::email::{email_valid, Email};
use crate::encode::{
    all_digits, bytes_to_hex, dec_rep, dec_value, hex_of_bytes, lemma_pow10_20, parse_decimal20,
    to_fixed_decimal,
};

verus! {

/// The name under which the session token travels as a cookie, fixed and
/// constant across the service.
pub const JWT_COOKIE_NAME: &'static str = "jwt";

/// The 32-byte digest `sha2::Sha256::digest` computes; it depends on the
/// input bytes alone.
pub uninterp spec fn sha256_of(data: Seq<u8>) -> Seq<u8>;

/// Relies on sha2::Sha256::digest: a 32-byte digest of the input bytes.
#[verifier::external_body]
fn sha256(data: &[u8]) -> (r: Vec<u8>)
    ensures
        r@ == sha256_of(data@),
        r@.len() == 32,
{
    sha2::Sha256::digest(data).to_vec()
}

/// Process-wide token configuration: the signing secret and the fixed token
/// lifetime, constructed once at startup and immutable for the process
/// lifetime.
pub struct TokenConfig {
    pub secret: String,
    pub ttl_seconds: u64,
}

#[derive(Clone, Copy, Debug, PartialEq, Eq, Structural)]
pub enum TokenError {
    /// Structurally ill-formed, or the signature does not match.
    Malformed,
    /// Well formed and signed, but past its expiry.
    Expired,
    /// Well formed, signed and fresh, but revoked by a logout.
    Revoked,
    /// The revocation store could not answer.
    Unexpected,
}

/// What a session token asserts.
pub struct ClaimsView {
    pub subject: Seq<char>,
    pub issued_at: nat,
    pub expires_at: nat,
}

pub struct Claims {
    pub subject: String,
    pub issued_at: u128,
    pub expires_at: u128,
}

impl View for Claims {
    type V = ClaimsView;

    open spec fn view(&self) -> ClaimsView {
        ClaimsView {
            subject: self.subject@,
            issued_at: self.issued_at as nat,
            expires_at: self.expires_at as nat,
        }
    }
}

/// The signature over a token payload: the hex rendering of the digest of
/// the secret followed by the payload.
pub open spec fn tag_for(secret: Seq<char>, payload: Seq<char>) -> Seq<char> {
    hex_of_bytes(sha256_of(encode_utf8(secret + payload)))
}

/// A token's payload: issue time and expiry, each as twenty digits, then the
/// subject email.
pub open spec fn token_payload(email: Seq<char>, iat: u64, exp: u64) -> Seq<char> {
    dec_rep(iat as nat, 20) + dec_rep(exp as nat, 20) + email
}

/// The one token this core issues for a subject at a given time under a
/// given configuration: the 64-character signature, then the payload.
pub open spec fn token_for(secret: Seq<char>, email: Seq<char>, iat: u64, exp: u64) -> Seq<char> {
    tag_for(secret, token_payload(email, iat, exp)) + token_payload(email, iat, exp)
}

/// Structural and signature well-formedness: long enough to carry all
/// fields, digits where the two timestamps stand, and a signature over the
/// payload that matches under the given secret.
pub open spec fn token_well_formed(secret: Seq<char>, t: Seq<char>) -> bool {
    &&& t.len() >= 105
    &&& all_digits(t.subrange(64, 104))
    &&& t.subrange(0, 64) == tag_for(secret, t.subrange(64, t.len() as int))
}

pub open spec fn token_iat(t: Seq<char>) -> nat {
    dec_value(t.subrange(64, 84))
}

pub open spec fn token_exp(t: Seq<char>) -> nat {
    dec_value(t.subrange(84, 104))
}

pub open spec fn token_subject(t: Seq<char>) -> Seq<char> {
    t.subrange(104, t.len() as int)
}

pub open spec fn token_expired(t: Seq<char>, now: u64) -> bool {
    token_exp(t) <= now
}

pub open spec fn claims_of(t: Seq<char>) -> ClaimsView {
    ClaimsView { subject: token_subject(t), issued_at: token_iat(t), expires_at: token_exp(t) }
}

/// The outcome token validation owes at time `now` with revocation set
/// `banned`: the checks run in this order, each failure short-circuiting.
pub open spec fn validate_spec(
    secret: Seq<char>,
    t: Seq<char>,
    now: u64,
    banned: Set<Seq<char>>,
) -> Result<ClaimsView, TokenError> {
    if !token_well_formed(secret, t) {
        Err(TokenError::Malformed)
    } else if token_expired(t, now) {
        Err(TokenError::Expired)
    } else if banned.contains(t) {
        Err(TokenError::Revoked)
    } else {
        Ok(claims_of(t))
    }
}

/// A token revoked while still valid is afterwards always rejected with the
/// revoked outcome, whatever the revocation set held before: revocation is
/// never undone, and a revoked token stays rejected until its own expiry.
pub proof fn lemma_revoked_token_rejected(
    secret: Seq<char>,
    t: Seq<char>,
    now: u64,
    banned: Set<Seq<char>>,
)
    requires
        token_well_formed(secret, t),
        !token_expired(t, now),
    ensures
        validate_spec(secret, t, now, banned.insert(t)) == Err::<ClaimsView, TokenError>(
            TokenError::Revoked,
        ),
{
}

/// A signed, time-boxed credential asserting a subject and a validity
/// window.
pub struct SessionToken {
    pub token: String,
}

impl View for SessionToken {
    type V = Seq<char>;

    open spec fn view(&self) -> Seq<char> {
        self.token@
    }
}

/// Issue a signed token for a subject: valid from `now` for the configured
/// lifetime, well formed under the configured secret.
pub fn issue_token(config: &TokenConfig, email: &Email, now: u64) -> (r: SessionToken)
    requires
        now + config.ttl_seconds <= u64::MAX,
    ensures
        r@ == token_for(config.secret@, email@, now, (now + config.ttl_seconds) as u64),
        token_well_formed(config.secret@, r@),
        token_subject(r@) == email@,
        token_iat(r@) == now,
        token_exp(r@) == now + config.ttl_seconds,
{
    proof {
        lemma_pow10_20();
    }
    let exp: u64 = now + config.ttl_seconds;
    let iat_s = to_fixed_decimal(now, 20);
    let exp_s = to_fixed_decimal(exp, 20);
    let mut payload = iat_s;
    payload.append(exp_s.as_str());
    payload.append(email.as_str());
    let mut message = config.secret.clone();
    message.append(payload.as_str());
    let digest = sha256(message.as_str().as_bytes());
    let tag = bytes_to_hex(digest.as_slice());
    let mut token = tag;
    token.append(payload.as_str());
    proof {
        use_type_invariant(email);
        assert(email@.len() >= 1);
        assert(payload@ == token_payload(email@, now, exp));
        assert(token@.subrange(0, 64) =~= tag_for(config.secret@, payload@));
        assert(token@.subrange(64, token@.len() as int) =~= payload@);
        assert(token@.subrange(64, 84) =~= dec_rep(now as nat, 20));
        assert(token@.subrange(84, 104) =~= dec_rep(exp as nat, 20));
        assert(token@.subrange(64, 104) =~= dec_rep(now as nat, 20) + dec_rep(exp as nat, 20));
        assert(token@.subrange(104, token@.len() as int) =~= email@);
    }
    SessionToken { token }
}

/// Check a presented token string: first structure and signature, then
/// expiry, then (last, because it is the only check with a store round
/// trip) revocation. `Unexpected` arises only when the revocation store
/// fails to answer, which is only reached once the token is known well
/// formed and fresh.
pub fn validate_token<B: BannedTokenStore>(
    config: &TokenConfig,
    banned_store: &B,
    token: &str,
    now: u64,
) -> (r: Result<Claims, TokenError>)
    ensures
        (match r {
            Ok(c) => validate_spec(config.secret@, token@, now, banned_store.tokens())
                == Ok::<ClaimsView, TokenError>(c@),
            Err(e) => e == TokenError::Unexpected || validate_spec(
                config.secret@,
                token@,
                now,
                banned_store.tokens(),
            ) == Err::<ClaimsView, TokenError>(e),
        }),
        r == Err::<Claims, TokenError>(TokenError::Unexpected) ==> token_well_formed(
            config.secret@,
            token@,
        ) && !token_expired(token@, now),
{
    let len = token.unicode_len();
    if len < 105 {
        return Err(TokenError::Malformed);
    }
    let tag_part = token.substring_char(0, 64);
    let payload_part = token.substring_char(64, len);
    let mut message = config.secret.clone();
    message.append(payload_part);
    let digest = sha256(message.as_str().as_bytes());
    let expected_tag = bytes_to_hex(digest.as_slice());
    let tag_string = tag_part.to_owned();
    if !(tag_string == expected_tag) {
        proof {
            assert(token@.subrange(0, 64) != tag_for(
                config.secret@,
                token@.subrange(64, token@.len() as int),
            ));
        }
        return Err(TokenError::Malformed);
    }
    let iat_part = token.substring_char(64, 84);
    let exp_part = token.substring_char(84, 104);
    let iat_v: u128 = match parse_decimal20(iat_part) {
        Some(v) => v,
        None => {
            proof {
                assert(iat_part@.len() == 20);
                assert(!all_digits(token@.subrange(64, 104))) by {
                    if all_digits(token@.subrange(64, 104)) {
                        assert(forall|i: int|
                            0 <= i < 20 ==> token@.subrange(64, 84)[i] == token@.subrange(
                                64,
                                104,
                            )[i]);
                    }
                }
            }
            return Err(TokenError::Malformed);
        },
    };
    let exp_v: u128 = match parse_decimal20(exp_part) {
        Some(v) => v,
        None => {
            proof {
                assert(exp_part@.len() == 20);
                assert(!all_digits(token@.subrange(64, 104))) by {
                    if all_digits(token@.subrange(64, 104)) {
                        assert(forall|i: int|
                            0 <= i < 20 ==> token@.subrange(84, 104)[i] == token@.subrange(
                                64,
                                104,
                            )[i + 20]);
                    }
                }
            }
            return Err(TokenError::Malformed);
        },
    };
    proof {
        assert(all_digits(token@.subrange(64, 104))) by {
            assert(forall|i: int|
                0 <= i < 40 ==> token@.subrange(64, 104)[i] == (if i < 20 {
                    token@.subrange(64, 84)[i]
                } else {
                    token@.subrange(84, 104)[i - 20]
                }));
        }
        assert(token_well_formed(config.secret@, token@));
    }
    if exp_v <= now as u128 {
        return Err(TokenError::Expired);
    }
    match banned_store.check_token(token) {
        Ok(true) => Err(TokenError::Revoked),
        Ok(false) => {
            let subject = token.substring_char(104, len).to_owned();
            Ok(Claims { subject, issued_at: iat_v, expires_at: exp_v })
        },
        Err(_) => Err(TokenError::Unexpected),
    }
}

/// The `Set-Cookie` value carrying a session token: the fixed cookie name,
/// the token, and the attributes the service always sets.
pub fn auth_cookie_value(token: &str) -> (r: String)
    ensures
        r@ == "jwt="@ + token@ + "; HttpOnly; SameSite=Lax; Secure; Path=/"@,
{
    let mut r = "jwt=".to_owned();
    r.append(token);
    r.append("; HttpOnly; SameSite=Lax; Secure; Path=/");
    r
}

} // verus!
