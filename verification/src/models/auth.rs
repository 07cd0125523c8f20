//! The payloads of registration and login, with their field rules.

use crate::errors::{texts, AppError, AppResult};
use validator::ValidateEmail;
use vstd::prelude::*;
use vstd::string::*;

verus! {

pub struct RegisterPayload {
    pub username: String,
    pub email: String,
    pub password: String,
}

pub struct LoginPayload {
    /// Can be username or email.
    pub login: String,
    pub password: String,
}

/// Whether `validator` takes the text for an e-mail address.
pub uninterp spec fn email_accepted(text: Seq<char>) -> bool;

/// `problem` if `failed`, else nothing.
pub open spec fn problem_if(failed: bool, problem: Seq<char>) -> Seq<Seq<char>> {
    if failed {
        seq![problem]
    } else {
        seq![]
    }
}

/// The result of validation: `Ok` where there is no problem, else a
/// validation error that carries the problems in field order.
pub open spec fn validation_is(out: AppResult<()>, problems: Seq<Seq<char>>) -> bool {
    if problems.len() == 0 {
        out is Ok
    } else {
        out matches Err(AppError::ValidationError(found)) && texts(found@) == problems
    }
}

impl RegisterPayload {
    /// The problems of this payload, in field order: a username of fewer
    /// than 3 or more than 50 characters, an e-mail address of the wrong
    /// format, a password of fewer than 8 characters.
    pub open spec fn problems(&self) -> Seq<Seq<char>> {
        problem_if(
            self.username@.len() < 3 || self.username@.len() > 50,
            "Username must be between 3 and 50 characters"@,
        ) + problem_if(!email_accepted(self.email@), "Invalid email format"@) + problem_if(
            self.password@.len() < 8,
            "Password must be at least 8 characters"@,
        )
    }
}

impl LoginPayload {
    /// The problems of this payload, in field order: an empty login, a
    /// password of fewer than 8 characters.
    pub open spec fn problems(&self) -> Seq<Seq<char>> {
        problem_if(self.login@.len() < 1, "Login identifier cannot be empty"@) + problem_if(
            self.password@.len() < 8,
            "Password must be at least 8 characters"@,
        )
    }
}

/// Asks `validator`'s `ValidateEmail::validate_email` whether the text is an
/// e-mail address. The contract only names the answer.
#[verifier::external_body]
fn is_email(text: &str) -> (ok: bool)
    ensures
        ok == email_accepted(text@),
{
    text.validate_email()
}

fn note(found: &mut Vec<String>, failed: bool, problem: &str)
    ensures
        texts(final(found)@) == texts(old(found)@) + problem_if(failed, problem@),
{
    if failed {
        found.push(problem.to_owned());
    }
    assert(texts(found@) =~= texts(old(found)@) + problem_if(failed, problem@));
}

fn conclude(found: Vec<String>) -> (out: AppResult<()>)
    ensures
        validation_is(out, texts(found@)),
{
    if found.len() == 0 {
        Ok(())
    } else {
        Err(AppError::ValidationError(found))
    }
}

impl RegisterPayload {
    /// Checks the field rules.
    pub fn validate(&self) -> (out: AppResult<()>)
        ensures
            validation_is(out, self.problems()),
    {
        let mut found: Vec<String> = Vec::new();
        let name_len = self.username.as_str().unicode_len();
        assert(texts(found@) =~= seq![]);
        note(&mut found, name_len < 3 || name_len > 50, "Username must be between 3 and 50 characters");
        note(&mut found, !is_email(self.email.as_str()), "Invalid email format");
        note(
            &mut found,
            self.password.as_str().unicode_len() < 8,
            "Password must be at least 8 characters",
        );
        assert(texts(found@) =~= self.problems());
        conclude(found)
    }
}

impl LoginPayload {
    /// Checks the field rules.
    pub fn validate(&self) -> (out: AppResult<()>)
        ensures
            validation_is(out, self.problems()),
    {
        let mut found: Vec<String> = Vec::new();
        assert(texts(found@) =~= seq![]);
        note(&mut found, self.login.as_str().unicode_len() < 1, "Login identifier cannot be empty");
        note(
            &mut found,
            self.password.as_str().unicode_len() < 8,
            "Password must be at least 8 characters",
        );
        assert(texts(found@) =~= self.problems());
        conclude(found)
    }
}

} // verus!
