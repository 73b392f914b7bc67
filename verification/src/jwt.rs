//! Issuing and checking signed, time-bounded bearer tokens.
//!
//! A token binds an account's id and username to an expiry instant and is
//! signed with a secret that only the server holds. Nothing is stored on the
//! server: a token is accepted exactly when its signature checks out and the
//! clock has not yet reached its expiry.

use vstd::prelude::*;
use vstd::string::*;
use vstd::std_specs::convert::FromSpecImpl;
use crate::clock::read_clock;
use crate::error::{AppError, AppErrorView};
use crate::user::AuthenticatedUser;

verus! {

/// How long a token stays valid after it was issued, in seconds (24 hours).
pub const TOKEN_LIFETIME: i64 = 86_400;

/// The facts carried by a bearer token.
#[derive(Debug, PartialEq, Eq)]
pub struct Claims {
    pub user_id: i64,
    pub username: String,
    /// Expiry instant, in seconds since the Unix epoch.
    pub exp: i64,
}

/// Mathematical value of [`Claims`].
pub struct ClaimsView {
    pub user_id: i64,
    pub username: Seq<char>,
    pub exp: i64,
}

impl View for Claims {
    type V = ClaimsView;

    open spec fn view(&self) -> ClaimsView {
        ClaimsView { user_id: self.user_id, username: self.username@, exp: self.exp }
    }
}

impl From<Claims> for AuthenticatedUser {
    fn from(value: Claims) -> (user: AuthenticatedUser) {
        AuthenticatedUser { user_id: value.user_id, username: value.username }
    }
}

impl FromSpecImpl<Claims> for AuthenticatedUser {
    open spec fn obeys_from_spec() -> bool {
        true
    }

    open spec fn from_spec(value: Claims) -> AuthenticatedUser {
        AuthenticatedUser { user_id: value.user_id, username: value.username }
    }
}

/// The compact HS256 token that `jsonwebtoken::encode` produces for the
/// claims object `{user_id, username, exp}` under `secret`, or the signer's
/// message when it refuses.
pub uninterp spec fn hs256_signed(
    secret: Seq<u8>,
    user_id: i64,
    username: Seq<char>,
    exp: i64,
) -> Result<Seq<char>, Seq<char>>;

/// The claims `(user_id, username, exp)` that `jsonwebtoken::decode` recovers
/// from `token` when its HS256 signature matches `secret` and all three fields
/// are present with the right JSON types; `None` otherwise. Expiry plays no
/// part in it.
pub uninterp spec fn hs256_verified(secret: Seq<u8>, token: Seq<char>) -> Option<
    (i64, Seq<char>, i64),
>;

/// Calls `jsonwebtoken::encode` with the default (HS256) header, a JSON
/// object holding the three claims, and an HMAC key made from `secret`.
/// Trusted: the outcome is a function of the four arguments, named
/// [`hs256_signed`]; an error is reported by its display text. Trusted too
/// is that signer and verifier fit together, as `jsonwebtoken` builds and
/// tests them: a token signed here over an expiry that is not negative is one
/// that [`verify_signature`] accepts under the same secret, and it yields the
/// claims that went in. (A negative expiry is written but not read back: the
/// verifier takes `exp` for an unsigned number.)
#[verifier::external_body]
fn sign_claims(secret: &Vec<u8>, user_id: i64, username: &str, exp: i64) -> (signed: Result<
    String,
    String,
>)
    ensures
        match signed {
            Ok(token) => hs256_signed(secret@, user_id, username@, exp) == Ok::<
                Seq<char>,
                Seq<char>,
            >(token@),
            Err(message) => hs256_signed(secret@, user_id, username@, exp) == Err::<
                Seq<char>,
                Seq<char>,
            >(message@),
        },
        match signed {
            Ok(token) => exp >= 0 ==> hs256_verified(secret@, token@) == Some(
                (user_id, username@, exp),
            ),
            Err(_) => true,
        },
{
    let mut claims = serde_json::Map::new();
    claims.insert("user_id".to_string(), serde_json::Value::from(user_id));
    claims.insert("username".to_string(), serde_json::Value::from(username));
    claims.insert("exp".to_string(), serde_json::Value::from(exp));
    let key = jsonwebtoken::EncodingKey::from_secret(secret);
    jsonwebtoken::encode(&jsonwebtoken::Header::default(), &claims, &key).map_err(
        |e| e.to_string(),
    )
}

/// Calls `jsonwebtoken::decode` with an HMAC key made from `secret` and the
/// default validation (HS256 only, `exp` required) except that its own
/// comparison of `exp` with the system clock is switched off, then reads the
/// three claims out of the decoded JSON object; a claim that is missing or
/// of another JSON type makes the outcome `None`. Trusted: the outcome is a
/// function of the two arguments, named [`hs256_verified`].
#[verifier::external_body]
fn verify_signature(secret: &Vec<u8>, token: &str) -> (claims: Option<(i64, String, i64)>)
    ensures
        match claims {
            Some(c) => hs256_verified(secret@, token@) == Some((c.0, c.1@, c.2)),
            None => hs256_verified(secret@, token@).is_none(),
        },
{
    let mut validation = jsonwebtoken::Validation::default();
    validation.validate_exp = false;
    let key = jsonwebtoken::DecodingKey::from_secret(secret);
    let data = jsonwebtoken::decode::<serde_json::Value>(token, &key, &validation).ok()?;
    let user_id = data.claims.get("user_id")?.as_i64()?;
    let username = data.claims.get("username")?.as_str()?.to_string();
    let exp = data.claims.get("exp")?.as_i64()?;
    Some((user_id, username, exp))
}

/// What issuing a token at instant `now` yields: the signed token, or the
/// error that stopped it.
pub open spec fn issue_outcome(secret: Seq<u8>, user_id: i64, username: Seq<char>, now: i64) -> Result<
    Seq<char>,
    AppErrorView,
> {
    if now + TOKEN_LIFETIME > i64::MAX {
        Err(AppErrorView::InvalidDatetime)
    } else {
        match hs256_signed(secret, user_id, username, (now + TOKEN_LIFETIME) as i64) {
            Ok(token) => Ok(token),
            Err(message) => Err(AppErrorView::JwtError(message)),
        }
    }
}

/// What checking `token` at instant `now` yields: the embedded claims when
/// the signature matches and `now` lies strictly before the expiry, and
/// `InvalidToken` in every other case.
pub open spec fn verify_outcome(secret: Seq<u8>, token: Seq<char>, now: i64) -> Result<
    ClaimsView,
    AppErrorView,
> {
    match hs256_verified(secret, token) {
        Some((user_id, username, exp)) => if now < exp {
            Ok(ClaimsView { user_id, username, exp })
        } else {
            Err(AppErrorView::InvalidToken)
        },
        None => Err(AppErrorView::InvalidToken),
    }
}

/// Whether `token`, issued at instant `issued`, names the account: checked
/// under the same secret it yields the account's id and username and the
/// expiry [`TOKEN_LIFETIME`] after `issued`. This is owed for every token
/// whose expiry is not negative, that is, for every token issued no earlier
/// than one lifetime before the Unix epoch.
pub open spec fn names_account(
    secret: Seq<u8>,
    token: Seq<char>,
    user_id: i64,
    username: Seq<char>,
    issued: i64,
) -> bool {
    -TOKEN_LIFETIME <= issued <= i64::MAX - TOKEN_LIFETIME ==> hs256_verified(secret, token)
        == Some((user_id, username, (issued + TOKEN_LIFETIME) as i64))
}

/// Whether `result` is what [`issue_outcome`] prescribes at instant `now`,
/// and, if it is a token, whether that token names the account.
pub open spec fn issued_at(
    result: Result<String, AppError>,
    secret: Seq<u8>,
    user_id: i64,
    username: Seq<char>,
    now: i64,
) -> bool {
    match result {
        Ok(token) => {
            &&& issue_outcome(secret, user_id, username, now) == Ok::<Seq<char>, AppErrorView>(
                token@,
            )
            &&& names_account(secret, token@, user_id, username, now)
        },
        Err(e) => issue_outcome(secret, user_id, username, now) == Err::<Seq<char>, AppErrorView>(
            e@,
        ),
    }
}

/// Whether `result` is what [`verify_outcome`] prescribes at instant `now`.
pub open spec fn verified_at(
    result: Result<Claims, AppError>,
    secret: Seq<u8>,
    token: Seq<char>,
    now: i64,
) -> bool {
    match result {
        Ok(claims) => verify_outcome(secret, token, now) == Ok::<ClaimsView, AppErrorView>(claims@),
        Err(e) => verify_outcome(secret, token, now) == Err::<ClaimsView, AppErrorView>(e@),
    }
}

/// Issues and checks bearer tokens under one server-held secret.
pub struct JwtService {
    secret: Vec<u8>,
}

impl JwtService {
    /// The signing secret, as bytes.
    pub closed spec fn secret(&self) -> Seq<u8> {
        self.secret@
    }

    /// Builds the service around the process-wide signing secret.
    pub fn new(secret: &str) -> (service: JwtService)
        ensures
            service.secret() == secret.spec_bytes(),
    {
        JwtService { secret: secret.as_bytes_vec() }
    }

    /// Issues a token for the account as if the clock read `now` (seconds
    /// since the Unix epoch): it expires [`TOKEN_LIFETIME`] later.
    pub fn generate_token_at(&self, user_id: i64, username: String, now: i64) -> (result: Result<
        String,
        AppError,
    >)
        ensures
            issued_at(result, self.secret(), user_id, username@, now),
    {
        if now > i64::MAX - TOKEN_LIFETIME {
            return Err(AppError::InvalidDatetime);
        }
        let exp: i64 = now + TOKEN_LIFETIME;
        match sign_claims(&self.secret, user_id, username.as_str(), exp) {
            Ok(token) => Ok(token),
            Err(message) => Err(AppError::JwtError(message)),
        }
    }

    /// Issues a token for the account, valid for [`TOKEN_LIFETIME`] from the
    /// current reading of the system clock.
    pub fn generate_token(&self, user_id: i64, username: String) -> (result: Result<
        String,
        AppError,
    >)
        ensures
            exists|now: i64| issued_at(result, self.secret(), user_id, username@, now),
    {
        let now = read_clock().seconds;
        let ghost name = username@;
        let result = self.generate_token_at(user_id, username, now);
        assert(issued_at(result, self.secret(), user_id, name, now));
        result
    }

    /// Checks `token` as if the clock read `now` (seconds since the Unix
    /// epoch) and returns the identity bound in it.
    pub fn verify_token_at(&self, token: &str, now: i64) -> (result: Result<Claims, AppError>)
        ensures
            verified_at(result, self.secret(), token@, now),
    {
        match verify_signature(&self.secret, token) {
            Some((user_id, username, exp)) => {
                if now < exp {
                    Ok(Claims { user_id, username, exp })
                } else {
                    Err(AppError::InvalidToken)
                }
            },
            None => Err(AppError::InvalidToken),
        }
    }

    /// Checks `token` against the current reading of the system clock.
    pub fn verify_token(&self, token: &str) -> (result: Result<Claims, AppError>)
        ensures
            exists|now: i64| verified_at(result, self.secret(), token@, now),
            result matches Err(e) ==> e@ == AppErrorView::InvalidToken,
            result matches Ok(claims) ==> hs256_verified(self.secret(), token@) == Some(
                (claims.user_id, claims.username@, claims.exp),
            ),
    {
        let now = read_clock().seconds;
        let result = self.verify_token_at(token, now);
        assert(verified_at(result, self.secret(), token@, now));
        result
    }
}

/// Once the clock has reached a token's expiry the token is refused, and it
/// stays refused at every later instant, whatever it yielded before.
pub proof fn lemma_expired_token_stays_invalid(
    secret: Seq<u8>,
    token: Seq<char>,
    expired_at: i64,
    later: i64,
)
    requires
        verify_outcome(secret, token, expired_at) is Err,
        expired_at <= later,
    ensures
        verify_outcome(secret, token, later) == Err::<ClaimsView, AppErrorView>(
            AppErrorView::InvalidToken,
        ),
{
}

/// A token that names an account is accepted from the instant it was issued
/// until just before it expires, and it yields that account; from its expiry
/// on it is refused.
pub proof fn lemma_issued_token_is_valid_until_expiry(
    secret: Seq<u8>,
    token: Seq<char>,
    user_id: i64,
    username: Seq<char>,
    issued: i64,
    now: i64,
)
    requires
        -TOKEN_LIFETIME <= issued <= i64::MAX - TOKEN_LIFETIME,
        names_account(secret, token, user_id, username, issued),
    ensures
        now < issued + TOKEN_LIFETIME ==> verify_outcome(secret, token, now) == Ok::<
            ClaimsView,
            AppErrorView,
        >(ClaimsView { user_id, username, exp: (issued + TOKEN_LIFETIME) as i64 }),
        now >= issued + TOKEN_LIFETIME ==> verify_outcome(secret, token, now) == Err::<
            ClaimsView,
            AppErrorView,
        >(AppErrorView::InvalidToken),
{
}

/// A token is accepted at `now` exactly when its signature checks out and
/// `now` lies strictly before the expiry it carries.
pub proof fn lemma_valid_iff_signed_and_fresh(secret: Seq<u8>, token: Seq<char>, now: i64)
    ensures
        verify_outcome(secret, token, now) is Ok <==> (hs256_verified(secret, token) matches Some(
            claims,
        ) && now < claims.2),
        verify_outcome(secret, token, now) is Err ==> verify_outcome(secret, token, now) == Err::<
            ClaimsView,
            AppErrorView,
        >(AppErrorView::InvalidToken),
{
}

} // verus!
