//! Signed, time-bounded session tokens.
//!
//! A token is a compact three-part structure signed with HMAC-SHA-256 under
//! the configured secret. Its payload holds the claims `sub`, `email`, `exp`
//! and `iat`.

use crate::config::Config;
use crate::errors::{AppError, AppResult, TokenFault};
use jsonwebtoken::errors::ErrorKind;
use jsonwebtoken::{decode, encode, DecodingKey, EncodingKey, Header, Validation};
use serde_json::Value;
use uuid::Uuid;
use vstd::prelude::*;

verus! {

/// How long a token stays valid after it is issued: seven days, in seconds.
pub const TOKEN_LIFETIME_SECS: u64 = 604800;

/// The payload of a token: who it was issued to, and its validity window in
/// seconds since the epoch.
#[derive(Debug, Clone, PartialEq, Eq)]
pub struct Claims {
    /// Subject: the user's 128-bit identifier.
    pub sub: u128,
    pub email: String,
    /// Expiration time.
    pub exp: u64,
    /// Issued at.
    pub iat: u64,
}

/// The mathematical value of a [`Claims`].
pub struct ClaimsView {
    pub sub: u128,
    pub email: Seq<char>,
    pub exp: u64,
    pub iat: u64,
}

impl View for Claims {
    type V = ClaimsView;

    open spec fn view(&self) -> ClaimsView {
        ClaimsView { sub: self.sub, email: self.email@, exp: self.exp, iat: self.iat }
    }
}

/// The claims of a payload as they were found in it: each is `None` where the
/// payload lacks the claim or holds it with another type.
#[derive(Debug, Clone, PartialEq, Eq)]
pub struct RawClaims {
    pub sub: Option<String>,
    pub email: Option<String>,
    pub exp: Option<u64>,
    pub iat: Option<u64>,
}

/// The mathematical value of a [`RawClaims`].
pub struct RawClaimsView {
    pub sub: Option<Seq<char>>,
    pub email: Option<Seq<char>>,
    pub exp: Option<u64>,
    pub iat: Option<u64>,
}

impl View for RawClaims {
    type V = RawClaimsView;

    open spec fn view(&self) -> RawClaimsView {
        RawClaimsView {
            sub: match self.sub {
                Some(s) => Some(s@),
                None => None,
            },
            email: match self.email {
                Some(s) => Some(s@),
                None => None,
            },
            exp: self.exp,
            iat: self.iat,
        }
    }
}

/// The kinds of refusal of the signing library that the token rules tell
/// apart.
#[derive(Debug, Clone, Copy, PartialEq, Eq, Structural)]
pub enum JwtErrorKind {
    InvalidToken,
    InvalidSignature,
    MissingRequiredClaim,
    Base64,
    Json,
    Utf8,
    Other,
}

/// The hyphenated text of a 128-bit identifier, as `uuid` prints it.
pub uninterp spec fn uuid_text(id: u128) -> Seq<char>;

/// The identifier that `uuid` reads from a text, if it reads one.
pub uninterp spec fn uuid_parsed(text: Seq<char>) -> Option<u128>;

/// The HS256 token whose payload binds the two text claims and the two number
/// claims under their names, signed with `secret`.
pub uninterp spec fn hs256_token(
    sub_name: Seq<char>,
    sub: Seq<char>,
    email_name: Seq<char>,
    email: Seq<char>,
    exp_name: Seq<char>,
    exp: u64,
    iat_name: Seq<char>,
    iat: u64,
    secret: Seq<char>,
) -> Seq<char>;

/// The payload of `token` as JSON text, where the token is well formed and
/// its signature matches under `secret`; else the kind of the signing
/// library's refusal.
pub uninterp spec fn hs256_payload(token: Seq<char>, secret: Seq<char>) -> Result<
    Seq<char>,
    JwtErrorKind,
>;

/// The claims found under the four names in the JSON object `payload`.
pub uninterp spec fn json_claims(
    payload: Seq<char>,
    sub_name: Seq<char>,
    email_name: Seq<char>,
    exp_name: Seq<char>,
    iat_name: Seq<char>,
) -> RawClaimsView;

impl Claims {
    /// The validity window is exactly the token lifetime.
    pub open spec fn well_formed(&self) -> bool {
        self.exp == self.iat + TOKEN_LIFETIME_SECS
    }

    /// Claims issued at `now` for the given subject.
    pub fn new(sub: u128, email: &str, now: u64) -> (claims: Claims)
        requires
            now + TOKEN_LIFETIME_SECS <= u64::MAX,
        ensures
            claims@ == (ClaimsView { sub, email: email@, exp: (now + TOKEN_LIFETIME_SECS) as u64, iat: now }),
            claims.well_formed(),
    {
        Claims { sub, email: email.to_owned(), exp: now + TOKEN_LIFETIME_SECS, iat: now }
    }

    /// A token is expired once the clock is past its expiration time.
    pub fn is_expired_at(&self, now: u64) -> (expired: bool)
        ensures
            expired == (now > self.exp),
    {
        now > self.exp
    }
}

/// The number of dots in a text. A token has exactly two.
pub open spec fn dots(text: Seq<char>) -> nat {
    text.filter(|c: char| c == '.').len()
}

/// What the shape of a text alone settles: with fewer than two dots it does
/// not split into header, payload and signature, and with more than two the
/// header part holds a dot and cannot be decoded.
pub open spec fn shape_rule(token: Seq<char>, out: Result<String, JwtErrorKind>) -> bool {
    &&& dots(token) < 2 ==> out == Err::<String, JwtErrorKind>(JwtErrorKind::InvalidToken)
    &&& dots(token) > 2 ==> out == Err::<String, JwtErrorKind>(JwtErrorKind::Base64)
}

/// A refusal of the signing library is a signature that does not match, or
/// else a token this service does not accept as well formed.

pub open spec fn fault_of(kind: JwtErrorKind) -> TokenFault {
    match kind {
        JwtErrorKind::InvalidSignature => TokenFault::InvalidSignature,
        JwtErrorKind::InvalidToken => TokenFault::Malformed,
        JwtErrorKind::MissingRequiredClaim => TokenFault::Malformed,
        JwtErrorKind::Base64 => TokenFault::Malformed,
        JwtErrorKind::Json => TokenFault::Malformed,
        JwtErrorKind::Utf8 => TokenFault::Malformed,
        JwtErrorKind::Other => TokenFault::Malformed,
    }
}

/// What a verified payload yields at time `now`: a payload that lacks a
/// claim, or whose subject is no identifier, is malformed; one whose
/// expiration time is past is expired; any other yields its claims as they
/// stand.
pub open spec fn checked_claims(raw: RawClaimsView, now: u64) -> Result<ClaimsView, TokenFault> {
    if raw.sub is None || raw.email is None || raw.exp is None || raw.iat is None {
        Err(TokenFault::Malformed)
    } else if uuid_parsed(raw.sub->0) is None {
        Err(TokenFault::Malformed)
    } else if now > raw.exp->0 {
        Err(TokenFault::Expired)
    } else {
        Ok(
            ClaimsView {
                sub: uuid_parsed(raw.sub->0)->0,
                email: raw.email->0,
                exp: raw.exp->0,
                iat: raw.iat->0,
            },
        )
    }
}

/// A validation result as the caller sees it.
pub open spec fn claims_result_is(out: AppResult<Claims>, checked: Result<ClaimsView, TokenFault>) -> bool {
    match checked {
        Ok(claims) => out matches Ok(c) && c@ == claims,
        Err(fault) => out == Err::<Claims, AppError>(AppError::JwtError(fault)),
    }
}

/// What validating `token` under `secret` at time `now` returns: where the
/// signing library accepts the token, exactly what its payload yields; where
/// it refuses, the fault that stands for the refusal.
pub open spec fn validation_at(out: AppResult<Claims>, token: Seq<char>, secret: Seq<char>, now: u64) -> bool {
    match hs256_payload(token, secret) {
        Ok(payload) => claims_result_is(
            out,
            checked_claims(json_claims(payload, "sub"@, "email"@, "exp"@, "iat"@), now),
        ),
        Err(kind) => out == Err::<Claims, AppError>(AppError::JwtError(fault_of(kind))),
    }
}

/// The token that issuing at `now` returns.
pub open spec fn issued_token(user_id: u128, email: Seq<char>, secret: Seq<char>, now: u64) -> Seq<char> {
    hs256_token(
        "sub"@,
        uuid_text(user_id),
        "email"@,
        email,
        "exp"@,
        (now + TOKEN_LIFETIME_SECS) as u64,
        "iat"@,
        now,
        secret,
    )
}

/// The token carries the claims: under `secret` the signing library
/// accepts it, and its payload holds each of the claims, the subject as a
/// text that reads back as the identifier.
pub open spec fn carries(token: Seq<char>, secret: Seq<char>, claims: ClaimsView) -> bool {
    hs256_payload(token, secret) matches Ok(payload) && ({
        let raw = json_claims(payload, "sub"@, "email"@, "exp"@, "iat"@);
        &&& raw.sub matches Some(text) && uuid_parsed(text) == Some(claims.sub)
        &&& raw.email == Some(claims.email)
        &&& raw.exp == Some(claims.exp)
        &&& raw.iat == Some(claims.iat)
    })
}

/// The claims of a token issued at `now`.
pub open spec fn issued_claims(user_id: u128, email: Seq<char>, now: u64) -> ClaimsView {
    ClaimsView { sub: user_id, email, exp: (now + TOKEN_LIFETIME_SECS) as u64, iat: now }
}

/// What issuing at `now` returns: with a clock that leaves room for the
/// lifetime, the signed token of the claims, which carries them; with a
/// clock beyond that, an internal error.
pub open spec fn issuance_at(out: AppResult<String>, user_id: u128, email: Seq<char>, secret: Seq<char>, now: u64) -> bool {
    if now + TOKEN_LIFETIME_SECS <= u64::MAX {
        out matches Ok(t) && t@ == issued_token(user_id, email, secret, now) && carries(
            t@,
            secret,
            issued_claims(user_id, email, now),
        )
    } else {
        out matches Err(AppError::InternalServerError(_))
    }
}

/// The library's token `out` is the named token `named`.
pub open spec fn token_is(out: Option<String>, named: Seq<char>) -> bool {
    out matches Some(t) && t@ == named
}

/// A token signed over the claim names `sub`, `email`, `exp` and `iat` is
/// accepted under the same secret, and its payload holds the four values
/// under those names.
pub open spec fn reads_back(
    out: Option<String>,
    sub_name: Seq<char>,
    sub: Seq<char>,
    email_name: Seq<char>,
    email: Seq<char>,
    exp_name: Seq<char>,
    exp: u64,
    iat_name: Seq<char>,
    iat: u64,
    secret: Seq<char>,
) -> bool {
    sub_name == "sub"@ && email_name == "email"@ && exp_name == "exp"@ && iat_name == "iat"@ ==> (
    out matches Some(t) && (hs256_payload(t@, secret) matches Ok(payload) && json_claims(
        payload,
        sub_name,
        email_name,
        exp_name,
        iat_name,
    ) == (RawClaimsView { sub: Some(sub), email: Some(email), exp: Some(exp), iat: Some(iat) })))
}

/// Reads the clock with `chrono::Utc::now` and returns its Unix timestamp in
/// seconds. `chrono` takes the time that has passed since the epoch and
/// panics where the system clock stands before it, so the reading is never
/// negative; nothing else is claimed of it.
#[verifier::external_body]
fn unix_now() -> (now: i64)
    ensures
        now >= 0,
{
    chrono::Utc::now().timestamp()
}

/// Prints the identifier with `Uuid`'s `Display`, the hyphenated lower-case
/// form. The contract names the text, and records that `Uuid::parse_str`
/// reads the same identifier back from it.
#[verifier::external_body]
fn uuid_to_text(id: u128) -> (out: String)
    ensures
        out@ == uuid_text(id),
        uuid_parsed(out@) == Some(id),
{
    Uuid::from_u128(id).to_string()
}

/// Reads an identifier with `Uuid::parse_str`, which accepts the hyphenated,
/// simple, braced and URN forms. The contract only names the result.
#[verifier::external_body]
fn uuid_from_text(text: &str) -> (out: Option<u128>)
    ensures
        out == uuid_parsed(text@),
{
    Uuid::parse_str(text).ok().map(|id| id.as_u128())
}

/// Signs a payload of two text claims and two number claims with
/// `jsonwebtoken::encode`, under the default header (HS256) and a key made
/// from the secret's bytes. With an HMAC key and a payload of strings and
/// integers neither the serialisation nor the signature can fail, so there
/// always is a token; the contract names it. It also records what
/// `jsonwebtoken::decode` does with that token under the same secret where
/// the four names are `sub`, `email`, `exp` and `iat`: header and signature
/// match, the required claim `exp` is a number, no audience is claimed, and
/// the payload holds the four values as they were given.
#[verifier::external_body]
fn encode_hs256(
    sub_name: &str,
    sub: &str,
    email_name: &str,
    email: &str,
    exp_name: &str,
    exp: u64,
    iat_name: &str,
    iat: u64,
    secret: &str,
) -> (out: Option<String>)
    ensures
        token_is(out, hs256_token(sub_name@, sub@, email_name@, email@, exp_name@, exp, iat_name@,
            iat, secret@)),
        reads_back(out, sub_name@, sub@, email_name@, email@, exp_name@, exp, iat_name@, iat,
            secret@),
{
    let mut payload = serde_json::Map::new();
    payload.insert(sub_name.to_string(), Value::from(sub));
    payload.insert(email_name.to_string(), Value::from(email));
    payload.insert(exp_name.to_string(), Value::from(exp));
    payload.insert(iat_name.to_string(), Value::from(iat));
    let key = EncodingKey::from_secret(secret.as_bytes());
    encode(&Header::default(), &payload, &key).ok()
}

/// The library's answer `out` is the named answer `named`.
pub open spec fn payload_is(out: Result<String, JwtErrorKind>, named: Result<Seq<char>, JwtErrorKind>) -> bool {
    match named {
        Ok(payload) => out matches Ok(found) && found@ == payload,
        Err(kind) => out == Err::<String, JwtErrorKind>(kind),
    }
}

/// Checks the token with `jsonwebtoken::decode` under a key made from the
/// secret's bytes and the default validation (HS256, the claim `exp`
/// required), with the library's own expiry check switched off, and prints
/// the payload as JSON text. Of the library's error it keeps the kind, every
/// kind but the six listed as `Other`. The contract names the answer, and
/// records the library's first two steps: a text that does not split at
/// dots into exactly two parts and then two again is an invalid token, and a
/// header part that holds a dot fails base64 decoding.
#[verifier::external_body]
fn decode_hs256(token: &str, secret: &str) -> (out: Result<String, JwtErrorKind>)
    ensures
        payload_is(out, hs256_payload(token@, secret@)),
        shape_rule(token@, out),
{
    let mut rules = Validation::default();
    rules.validate_exp = false;
    let key = DecodingKey::from_secret(secret.as_bytes());
    match decode::<Value>(token, &key, &rules) {
        Ok(data) => Ok(data.claims.to_string()),
        Err(e) => Err(match e.kind() {
            ErrorKind::InvalidToken => JwtErrorKind::InvalidToken,
            ErrorKind::InvalidSignature => JwtErrorKind::InvalidSignature,
            ErrorKind::MissingRequiredClaim(_) => JwtErrorKind::MissingRequiredClaim,
            ErrorKind::Base64(_) => JwtErrorKind::Base64,
            ErrorKind::Json(_) => JwtErrorKind::Json,
            ErrorKind::Utf8(_) => JwtErrorKind::Utf8,
            _ => JwtErrorKind::Other,
        }),
    }
}

/// Reads the JSON text with `serde_json::from_str` and picks the values under
/// the four names with `Value::get`, two as strings and two as unsigned
/// numbers; a claim is `None` where the text is no object, lacks the name or
/// holds a value of another type. The contract only names what is found.
#[verifier::external_body]
fn claims_in_json(
    payload: &str,
    sub_name: &str,
    email_name: &str,
    exp_name: &str,
    iat_name: &str,
) -> (out: RawClaims)
    ensures
        out@ == json_claims(payload@, sub_name@, email_name@, exp_name@, iat_name@),
{
    let body: Value = serde_json::from_str(payload).unwrap_or(Value::Null);
    RawClaims {
        sub: body.get(sub_name).and_then(Value::as_str).map(str::to_string),
        email: body.get(email_name).and_then(Value::as_str).map(str::to_string),
        exp: body.get(exp_name).and_then(Value::as_u64),
        iat: body.get(iat_name).and_then(Value::as_u64),
    }
}

/// Reports a refusal of the signing library as a token fault.
pub fn classify(kind: JwtErrorKind) -> (fault: TokenFault)
    ensures
        fault == fault_of(kind),
{
    match kind {
        JwtErrorKind::InvalidSignature => TokenFault::InvalidSignature,
        JwtErrorKind::InvalidToken => TokenFault::Malformed,
        JwtErrorKind::MissingRequiredClaim => TokenFault::Malformed,
        JwtErrorKind::Base64 => TokenFault::Malformed,
        JwtErrorKind::Json => TokenFault::Malformed,
        JwtErrorKind::Utf8 => TokenFault::Malformed,
        JwtErrorKind::Other => TokenFault::Malformed,
    }
}

/// Decides what a payload with a matching signature yields at time `now`:
/// its claims, or the fault that rules them out.
pub fn claims_from_raw(raw: RawClaims, now: u64) -> (out: AppResult<Claims>)
    ensures
        claims_result_is(out, checked_claims(raw@, now)),
{
    let RawClaims { sub, email, exp, iat } = raw;
    match (sub, email, exp, iat) {
        (Some(sub), Some(email), Some(exp), Some(iat)) => {
            match uuid_from_text(sub.as_str()) {
                None => Err(AppError::JwtError(TokenFault::Malformed)),
                Some(id) => {
                    let claims = Claims { sub: id, email, exp, iat };
                    if claims.is_expired_at(now) {
                        Err(AppError::JwtError(TokenFault::Expired))
                    } else {
                        Ok(claims)
                    }
                },
            }
        },
        _ => Err(AppError::JwtError(TokenFault::Malformed)),
    }
}

/// Issues a token for the subject as of the time `now`, in seconds since the
/// epoch.
pub fn create_token_at(user_id: u128, email: &str, config: &Config, now: u64) -> (out: AppResult<String>)
    ensures
        issuance_at(out, user_id, email@, config.jwt_secret@, now),
{
    if now > u64::MAX - TOKEN_LIFETIME_SECS {
        return Err(AppError::InternalServerError("clock out of range".to_owned()));
    }
    let claims = Claims::new(user_id, email, now);
    let subject = uuid_to_text(claims.sub);
    let signed = encode_hs256(
        "sub",
        subject.as_str(),
        "email",
        claims.email.as_str(),
        "exp",
        claims.exp,
        "iat",
        claims.iat,
        config.jwt_secret.as_str(),
    );
    match signed {
        Some(token) => Ok(token),
        None => Err(AppError::InternalServerError("token signing failed".to_owned())),
    }
}

/// Issues a token for the subject, valid from now for the token lifetime.
/// It always succeeds: the result is the token issued at some reading of the
/// clock.
pub fn create_token(user_id: u128, email: &str, config: &Config) -> (out: AppResult<String>)
    ensures
        out is Ok,
        exists|now: u64| now <= i64::MAX && #[trigger] issuance_at(out, user_id, email@,
            config.jwt_secret@, now),
{
    let now = unix_now() as u64;
    let out = create_token_at(user_id, email, config, now);
    assert(issuance_at(out, user_id, email@, config.jwt_secret@, now));
    out
}

/// Validates a token as of the time `now`: a malformed token, a signature
/// that does not match and an expired token are refused, in this order;
/// any other token yields the claims it carries.
pub fn validate_token_at(token: &str, config: &Config, now: u64) -> (out: AppResult<Claims>)
    ensures
        validation_at(out, token@, config.jwt_secret@, now),
        dots(token@) != 2 ==> out == malformed(),
{
    match decode_hs256(token, config.jwt_secret.as_str()) {
        Ok(payload) => {
            let raw = claims_in_json(payload.as_str(), "sub", "email", "exp", "iat");
            claims_from_raw(raw, now)
        },
        Err(kind) => Err(AppError::JwtError(classify(kind))),
    }
}

/// The refusal of a token that is not well formed.
pub open spec fn malformed() -> AppResult<Claims> {
    Err(AppError::JwtError(TokenFault::Malformed))
}

/// Validates a token as of now. The result is what validating at some
/// reading of the clock returns; a text without exactly two dots is
/// malformed whatever the clock says.
pub fn validate_token(token: &str, config: &Config) -> (out: AppResult<Claims>)
    ensures
        exists|now: u64| now <= i64::MAX && #[trigger] validation_at(out, token@,
            config.jwt_secret@, now),
        dots(token@) != 2 ==> out == malformed(),
{
    let now = unix_now() as u64;
    let out = validate_token_at(token, config, now);
    assert(validation_at(out, token@, config.jwt_secret@, now));
    out
}

/// A token validates to the claims it carries until they expire: where
/// `token` carries `claims` under `secret`, as every issued token does, and
/// the clock is not past their expiration time, validation returns exactly
/// those claims.
pub proof fn lemma_issue_then_validate(
    token: Seq<char>,
    secret: Seq<char>,
    claims: ClaimsView,
    now: u64,
    out: AppResult<Claims>,
)
    requires
        carries(token, secret, claims),
        validation_at(out, token, secret, now),
        now <= claims.exp,
    ensures
        out matches Ok(c) && c@ == claims,
{
}

/// A token that carries claims is refused as expired at every time past
/// their expiration time.
pub proof fn lemma_issued_token_expires(
    token: Seq<char>,
    secret: Seq<char>,
    claims: ClaimsView,
    now: u64,
    out: AppResult<Claims>,
)
    requires
        carries(token, secret, claims),
        validation_at(out, token, secret, now),
        now > claims.exp,
    ensures
        out == Err::<Claims, AppError>(AppError::JwtError(TokenFault::Expired)),
{
}

/// One validation ends in exactly one of four ways: the claims, or one of
/// the three refusals.
pub proof fn lemma_four_outcomes(out: AppResult<Claims>, token: Seq<char>, secret: Seq<char>, now: u64)
    requires
        validation_at(out, token, secret, now),
    ensures
        out is Ok || out == malformed() || out == Err::<Claims, AppError>(
            AppError::JwtError(TokenFault::InvalidSignature),
        ) || out == Err::<Claims, AppError>(AppError::JwtError(TokenFault::Expired)),
{
}

/// The outcome depends on the token, the secret and the clock alone: two
/// validations of the same token at the same time agree.
pub proof fn lemma_validation_is_a_function(
    first: AppResult<Claims>,
    second: AppResult<Claims>,
    token: Seq<char>,
    secret: Seq<char>,
    now: u64,
)
    requires
        validation_at(first, token, secret, now),
        validation_at(second, token, secret, now),
    ensures
        first is Ok <==> second is Ok,
        first matches Ok(a) ==> (second matches Ok(b) ==> a@ == b@),
        first is Err ==> first == second,
{
}

/// The refusals come in a fixed order: a token that the signing library
/// refuses is reported by the kind of that refusal whatever the clock says,
/// and a token is reported as expired only where its signature matched.
pub proof fn lemma_refusal_order(out: AppResult<Claims>, token: Seq<char>, secret: Seq<char>, now: u64)
    requires
        validation_at(out, token, secret, now),
    ensures
        hs256_payload(token, secret) matches Err(kind) ==> out == Err::<Claims, AppError>(
            AppError::JwtError(fault_of(kind)),
        ),
        out == Err::<Claims, AppError>(AppError::JwtError(TokenFault::Expired)) ==> hs256_payload(
            token,
            secret,
        ) is Ok,
        out matches Ok(c) ==> now <= c.exp,
{
}

/// A token that is refused at one time is refused at every later time, and
/// one that is accepted stays accepted until its expiration time.
pub proof fn lemma_validity_window(raw: RawClaimsView, earlier: u64, later: u64)
    requires
        earlier <= later,
    ensures
        checked_claims(raw, earlier) is Err ==> checked_claims(raw, later) is Err,
        checked_claims(raw, earlier) matches Ok(c) && later <= c.exp ==> checked_claims(raw, later)
            == checked_claims(raw, earlier),
{
}

/// Expiry is decided by the clock rule alone: no refusal of the signing
/// library is reported as an expired token, and a payload is expired only
/// where it holds all four claims, its subject is an identifier and the clock
/// is past its expiration time.
pub proof fn lemma_expired_means_late(kind: JwtErrorKind, raw: RawClaimsView, now: u64)
    ensures
        fault_of(kind) != TokenFault::Expired,
        checked_claims(raw, now) == Err::<ClaimsView, TokenFault>(TokenFault::Expired) <==> raw.sub
            is Some && raw.email is Some && raw.exp is Some && raw.iat is Some && uuid_parsed(
            raw.sub->0,
        ) is Some && now > raw.exp->0,
{
}

/// Claims issued at `now` expire exactly one lifetime later.
pub proof fn lemma_issued_window(claims: Claims)
    requires
        claims.well_formed(),
    ensures
        claims.exp - claims.iat == 604800,
{
}

} // verus!
