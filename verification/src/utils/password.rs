//! Password hashing and verification with Argon2id.
//!
//! Both operations are CPU-bound by design; a caller that serves requests
//! concurrently runs them on a worker pool.

use crate::errors::{AppError, AppResult};
use argon2::password_hash::rand_core::OsRng;
use argon2::password_hash::{PasswordHash, PasswordHasher, PasswordVerifier, SaltString};
use argon2::Argon2;
use vstd::prelude::*;

verus! {

/// The key-derivation function's answer on a password and a stored hash.
#[derive(Debug, Clone, PartialEq, Eq)]
pub enum KdfVerdict {
    /// The password produces the stored digest.
    Accepted,
    /// The function answered that the password is invalid: it does not
    /// produce the stored digest, or the stored hash holds no salt or no
    /// digest to compare with.
    Mismatch,
    /// The derivation failed.
    Fault(String),
}

/// What was read from a stored hash, with the verdict on a password.
#[derive(Debug, Clone, PartialEq, Eq)]
pub struct KdfReport {
    /// The salt field of the stored hash, where it has one.
    pub salt: Option<String>,
    /// Whether the stored hash has a digest field.
    pub digest_present: bool,
    pub verdict: KdfVerdict,
}

/// The mathematical value of a [`KdfReport`].
pub struct KdfReportView {
    pub salt: Option<Seq<char>>,
    pub digest_present: bool,
    pub verdict: Result<bool, Seq<char>>,
}

impl KdfVerdict {
    /// The verdict as a plain value.
    pub open spec fn outcome(&self) -> Result<bool, Seq<char>> {
        match self {
            KdfVerdict::Accepted => Ok(true),
            KdfVerdict::Mismatch => Ok(false),
            KdfVerdict::Fault(detail) => Err(detail@),
        }
    }
}

impl View for KdfReport {
    type V = KdfReportView;

    open spec fn view(&self) -> KdfReportView {
        KdfReportView {
            salt: match self.salt {
                Some(s) => Some(s@),
                None => None,
            },
            digest_present: self.digest_present,
            verdict: self.verdict.outcome(),
        }
    }
}

/// The encoded hash that Argon2id with its default parameters derives from
/// `password` and the base64 salt `salt`, or the library's error text.
pub uninterp spec fn argon2_encoded(password: Seq<char>, salt: Seq<char>) -> Result<
    Seq<char>,
    Seq<char>,
>;

/// What Argon2id reads from the encoded hash `hash` and answers on
/// `password`, or the library's error text where the hash cannot be parsed.
pub uninterp spec fn argon2_report(hash: Seq<char>, password: Seq<char>) -> Result<
    KdfReportView,
    Seq<char>,
>;

/// The detail of the error for a stored hash without salt or digest.
pub open spec fn incomplete_hash_text() -> Seq<char> {
    "password hash lacks salt or digest"@
}

/// The value of the library's answer on a stored hash.
pub open spec fn report_view(out: Result<KdfReport, String>) -> Result<KdfReportView, Seq<char>> {
    match out {
        Ok(report) => Ok(report@),
        Err(detail) => Err(detail@),
    }
}

/// What a report on a stored hash amounts to: a hash that cannot be parsed,
/// or lacks its salt or its digest, is corrupt; for any other the verdict
/// stands.
pub open spec fn decided(named: Result<KdfReportView, Seq<char>>) -> Result<bool, Seq<char>> {
    match named {
        Err(detail) => Err(detail),
        Ok(report) => if report.salt is None || !report.digest_present {
            Err(incomplete_hash_text())
        } else {
            report.verdict
        },
    }
}

/// What verifying `password` against the stored hash `hash` amounts to.
pub open spec fn verification(hash: Seq<char>, password: Seq<char>) -> Result<bool, Seq<char>> {
    decided(argon2_report(hash, password))
}

/// `hash` is a complete hash of `password` under `salt`: it holds that salt
/// and a digest, and the password is accepted for it.
pub open spec fn hashed_under(hash: Seq<char>, password: Seq<char>, salt: Seq<char>) -> bool {
    argon2_report(hash, password) == Ok::<KdfReportView, Seq<char>>(
        KdfReportView { salt: Some(salt), digest_present: true, verdict: Ok(true) },
    )
}

/// The library's result `out` is the named result `encoded`.
pub open spec fn text_result_is(out: Result<String, String>, encoded: Result<Seq<char>, Seq<char>>) -> bool {
    match encoded {
        Ok(hash) => out matches Ok(h) && h@ == hash,
        Err(detail) => out matches Err(d) && d@ == detail,
    }
}

/// A hashing result as the caller sees it: the encoded hash, or a hashing
/// error that carries the library's text.
pub open spec fn hash_result_is(out: AppResult<String>, encoded: Result<Seq<char>, Seq<char>>) -> bool {
    match encoded {
        Ok(hash) => out matches Ok(h) && h@ == hash,
        Err(detail) => out matches Err(AppError::PasswordHashError(d)) && d@ == detail,
    }
}

/// What hashing `password` under `salt` returns: the encoding, which is then
/// a complete hash of the password under that salt, or a hashing error.
pub open spec fn hashing_with(out: AppResult<String>, password: Seq<char>, salt: Seq<char>) -> bool {
    &&& hash_result_is(out, argon2_encoded(password, salt))
    &&& out matches Ok(h) ==> hashed_under(h@, password, salt)
}

/// A verification result as the caller sees it: a mismatch is the value
/// `false`, never an error; only a fault is an error.
pub open spec fn verify_result_is(out: AppResult<bool>, verdict: Result<bool, Seq<char>>) -> bool {
    match verdict {
        Ok(matches) => out == Ok::<bool, AppError>(matches),
        Err(detail) => out matches Err(AppError::PasswordHashError(d)) && d@ == detail,
    }
}

/// Draws a fresh 16-byte salt from the operating system's generator with
/// `SaltString::generate` and hands it out in its base64 form. Nothing is
/// claimed of the value: it differs from call to call. The generator panics
/// where the operating system gives it no random bytes.
#[verifier::external_body]
fn fresh_salt() -> String {
    SaltString::generate(&mut OsRng).as_str().to_string()
}

/// Runs `Argon2::default().hash_password` on the password's bytes with the
/// given base64 salt and prints the result in its encoded form. The contract
/// names that text [`argon2_encoded`], and records what the same library
/// does with a hash it printed: it reads back the salt it was given and a
/// digest, and accepts the password.
#[verifier::external_body]
fn argon2_hash(password: &str, salt: &str) -> (out: Result<String, String>)
    ensures
        text_result_is(out, argon2_encoded(password@, salt@)),
        out matches Ok(h) ==> hashed_under(h@, password@, salt@),
{
    let salt = match SaltString::from_b64(salt) {
        Ok(salt) => salt,
        Err(e) => return Err(e.to_string()),
    };
    match Argon2::default().hash_password(password.as_bytes(), &salt) {
        Ok(hash) => Ok(hash.to_string()),
        Err(e) => Err(e.to_string()),
    }
}

/// Parses the stored hash with `PasswordHash::new`, checks the password's
/// bytes against it with `Argon2::default().verify_password`, and hands out
/// the salt field, whether there is a digest field, and the answer. The
/// library answers with its error `Password` on a mismatch and also where
/// the hash holds no salt or no digest; every other error is handed on with
/// its text. The contract only names the report.
#[verifier::external_body]
fn argon2_verify(hash: &str, password: &str) -> (out: Result<KdfReport, String>)
    ensures
        report_view(out) == argon2_report(hash@, password@),
{
    let parsed = match PasswordHash::new(hash) {
        Ok(parsed) => parsed,
        Err(e) => return Err(e.to_string()),
    };
    let verdict = match Argon2::default().verify_password(password.as_bytes(), &parsed) {
        Ok(()) => KdfVerdict::Accepted,
        Err(argon2::password_hash::Error::Password) => KdfVerdict::Mismatch,
        Err(e) => KdfVerdict::Fault(e.to_string()),
    };
    let salt = parsed.salt.map(|s| s.as_str().to_string());
    Ok(KdfReport { salt, digest_present: parsed.hash.is_some(), verdict })
}

/// Hashes `password` with the given base64 salt. The same password and salt
/// always give the same encoded hash, and that hash verifies the password.
pub fn hash_with_salt(password: &str, salt: &str) -> (out: AppResult<String>)
    ensures
        hashing_with(out, password@, salt@),
{
    match argon2_hash(password, salt) {
        Ok(hash) => Ok(hash),
        Err(detail) => Err(AppError::PasswordHashError(detail)),
    }
}

/// Hashes `password` under a salt drawn for this call alone. A returned hash
/// is the encoding of the password under some salt and verifies the password;
/// the only error is a hashing error.
pub fn hash_passwrod(password: String) -> (out: AppResult<String>)
    ensures
        exists|salt: Seq<char>| #[trigger] hashing_with(out, password@, salt),
        out matches Ok(h) ==> verification(h@, password@) == accepted(),
{
    let salt = fresh_salt();
    let out = hash_with_salt(password.as_str(), salt.as_str());
    assert(hashing_with(out, password@, salt@));
    out
}

/// The result of a verification that accepts the password.
pub open spec fn accepted() -> Result<bool, Seq<char>> {
    Ok(true)
}

/// Turns the key-derivation function's verdict into the caller's result: a
/// mismatch is `Ok(false)`, a fault is a hashing error with its detail.
pub fn verdict_to_result(verdict: KdfVerdict) -> (out: AppResult<bool>)
    ensures
        verify_result_is(out, verdict.outcome()),
{
    match verdict {
        KdfVerdict::Accepted => Ok(true),
        KdfVerdict::Mismatch => Ok(false),
        KdfVerdict::Fault(detail) => Err(AppError::PasswordHashError(detail)),
    }
}

/// Decides what a report on a stored hash means for the caller: a hash that
/// could not be parsed, or that lacks its salt or its digest, is a hashing
/// error; for a complete hash the verdict decides.
pub fn report_to_result(report: Result<KdfReport, String>) -> (out: AppResult<bool>)
    ensures
        verify_result_is(out, decided(report_view(report))),
{
    match report {
        Err(detail) => Err(AppError::PasswordHashError(detail)),
        Ok(report) => {
            if report.salt.is_none() || !report.digest_present {
                Err(AppError::PasswordHashError("password hash lacks salt or digest".to_owned()))
            } else {
                verdict_to_result(report.verdict)
            }
        },
    }
}

/// Checks `password` against the stored hash. A wrong password is `Ok(false)`;
/// a stored hash that cannot be read, or that lacks its salt or its digest,
/// is a hashing error.
pub fn verify_password(hash: &str, password: &str) -> (out: AppResult<bool>)
    ensures
        verify_result_is(out, verification(hash@, password@)),
{
    report_to_result(argon2_verify(hash, password))
}

/// A wrong password is a value, not a fault: verification returns `Ok`
/// exactly where the stored hash could be read and checked, `Ok(false)` on a
/// mismatch, and a hashing error on every fault.
pub proof fn lemma_mismatch_is_no_error(out: AppResult<bool>, verdict: Result<bool, Seq<char>>)
    requires
        verify_result_is(out, verdict),
    ensures
        out is Ok <==> verdict is Ok,
        verdict == Ok::<bool, Seq<char>>(false) ==> out == Ok::<bool, AppError>(false),
        verdict is Err ==> out matches Err(AppError::PasswordHashError(_)),
{
}

/// A stored hash that cannot be parsed, or that lacks its salt or its
/// digest, never verifies and never counts as a wrong password: the result
/// is a hashing error, whatever the verdict on the password.
pub proof fn lemma_corrupt_hash_is_a_fault(named: Result<KdfReportView, Seq<char>>, out: AppResult<bool>)
    requires
        verify_result_is(out, decided(named)),
        named matches Ok(report) ==> report.salt is None || !report.digest_present,
    ensures
        out matches Err(AppError::PasswordHashError(_)),
{
}

/// Hashing then verifying succeeds: where `hashed` is a hash that hashing
/// returned for `password`, and `verified` is what verifying `password`
/// against it returns, `verified` is `Ok(true)`.
pub proof fn lemma_hash_then_verify(
    password: Seq<char>,
    salt: Seq<char>,
    hashed: AppResult<String>,
    verified: AppResult<bool>,
)
    requires
        hashing_with(hashed, password, salt),
        hashed matches Ok(h) && verify_result_is(verified, verification(h@, password)),
    ensures
        verified == Ok::<bool, AppError>(true),
{
}

/// No salt is shared between two hashes that differ in it: hashing one
/// password under two different salts gives two different hashes.
pub proof fn lemma_salts_tell_hashes_apart(
    password: Seq<char>,
    salt_a: Seq<char>,
    salt_b: Seq<char>,
    hashed_a: AppResult<String>,
    hashed_b: AppResult<String>,
)
    requires
        hashing_with(hashed_a, password, salt_a),
        hashing_with(hashed_b, password, salt_b),
        salt_a != salt_b,
    ensures
        hashed_a matches Ok(a) ==> (hashed_b matches Ok(b) ==> a@ != b@),
{
}

} // verus!
