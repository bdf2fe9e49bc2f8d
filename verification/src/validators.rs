//! Validation of the target identity, enforced before any network
//! activity: non-empty name, syntactically valid email, phone of at
//! least three characters. A target that fails here is fatal for the
//! whole run.

use vstd::prelude::*;
use validator::ValidateEmail;

use crate::models::UserTarget;

verus! {

/// Whether a string is a syntactically valid email address; a function of
/// its characters alone.
pub uninterp spec fn email_syntax_ok(s: Seq<char>) -> bool;

/// Relies on validator::ValidateEmail::validate_email for &str: the HTML5
/// notion of a valid email address, a function of the string alone; an
/// empty string is never valid.
#[verifier::external_body]
fn is_valid_email(s: &str) -> (r: bool)
    ensures
        r == email_syntax_ok(s@),
        s@.len() == 0 ==> !r,
{
    s.validate_email()
}

/// Why a target identity was rejected.
#[derive(Debug, Clone, Copy, PartialEq, Eq, Structural)]
pub enum ValidationError {
    /// The name is empty.
    EmptyName,
    /// The email is not syntactically valid.
    InvalidEmail,
    /// The phone is shorter than three characters.
    PhoneTooShort,
}

/// Whether a target identity passes validation.
pub open spec fn spec_target_valid(t: UserTarget) -> bool {
    &&& t.name@.len() >= 1
    &&& email_syntax_ok(t.email@)
    &&& t.phone@.len() >= 3
}

/// Check a target identity: `Ok` exactly when the name is non-empty, the
/// email is syntactically valid and the phone holds at least three
/// characters; else the first violated rule, in that order.
pub fn validate_input(target: &UserTarget) -> (r: Result<(), ValidationError>)
    ensures
        r is Ok <==> spec_target_valid(*target),
        target.name@.len() < 1 ==> r == Result::<(), ValidationError>::Err(
            ValidationError::EmptyName,
        ),
        target.name@.len() >= 1 && !email_syntax_ok(target.email@) ==> r == Result::<
            (),
            ValidationError,
        >::Err(ValidationError::InvalidEmail),
        target.name@.len() >= 1 && email_syntax_ok(target.email@) && target.phone@.len() < 3 ==> r
            == Result::<(), ValidationError>::Err(ValidationError::PhoneTooShort),
{
    if target.name.as_str().unicode_len() < 1 {
        return Err(ValidationError::EmptyName);
    }
    if !is_valid_email(target.email.as_str()) {
        return Err(ValidationError::InvalidEmail);
    }
    if target.phone.as_str().unicode_len() < 3 {
        return Err(ValidationError::PhoneTooShort);
    }
    Ok(())
}

/// The session credential did not establish authority: the startup
/// validation call came back without success.
#[derive(Debug, Clone, Copy, PartialEq, Eq, Structural)]
pub struct SessionInvalid;

/// Judge the startup session-validation call, the one other fatal
/// condition: `Ok` exactly when the call succeeded; anything else aborts
/// the whole run.
pub fn check_session(status_success: bool) -> (r: Result<(), SessionInvalid>)
    ensures
        r is Ok <==> status_success,
{
    if status_success {
        Ok(())
    } else {
        Err(SessionInvalid)
    }
}

} // verus!
