//! Account endpoints: passwords, sessions, instance blocks.
use vstd::prelude::*;
use crate::error::{Guard, StudyCycleErrorType, StudyCycleResult, require_guard, fails_with, refused_by};
use crate::outside::{bcrypt_verify, bcrypt_verify_outcome, lowercase, str_to_lowercase};

verus! {

/// A password check accepts only a verification that succeeded and matched;
/// a hash that could not be read counts as a mismatch.
pub fn verification_accepted(outcome: &Result<bool, bcrypt::BcryptError>) -> (res: bool)
    ensures
        res == (*outcome matches Ok(b) && b),
{
    match outcome {
        Ok(b) => *b,
        Err(_) => false,
    }
}

/// Whether `old_password` is the account's current password.
pub open spec fn spec_old_password_valid(old_password: Seq<char>, password_encrypted: Option<Seq<char>>) -> bool {
    match password_encrypted {
        Some(hash) => bcrypt_verify_outcome(old_password, hash) == Some(true),
        None => old_password.len() == 0,
    }
}

/// The characters of an optional string.
pub open spec fn spec_str_view(s: Option<&str>) -> Option<Seq<char>> {
    match s {
        Some(t) => Some(t@),
        None => None,
    }
}

/// The account's current password is checked against its stored bcrypt
/// hash; an account without a password (one that signs in through an
/// outside provider) takes the empty string.
pub fn old_password_valid(old_password: &str, password_encrypted: Option<&str>) -> (res: bool)
    ensures
        res == spec_old_password_valid(
            old_password@,
            spec_str_view(password_encrypted),
        ),
{
    match password_encrypted {
        Some(hash) => {
            let outcome = bcrypt_verify(old_password, hash);
            let accepted = verification_accepted(&outcome);
            accepted
        },
        None => old_password.is_empty(),
    }
}

/// Changing the password.  In order: the account must be valid, the new
/// password must have an accepted length, its two copies must agree, and the
/// old password must be the current one.  On success the new password is
/// stored, every login of the account is ended and a new one is made.
pub fn change_password(
    local_user_valid: bool,
    password_length_ok: bool,
    new_password: &str,
    new_password_verify: &str,
    old_password: &str,
    password_encrypted: Option<&str>,
) -> (res: StudyCycleResult<()>)
    ensures
        !local_user_valid ==> refused_by(res, Guard::LocalUserValid),
        local_user_valid && !password_length_ok ==> refused_by(res, Guard::PasswordLength),
        local_user_valid && password_length_ok && new_password@ != new_password_verify@
            ==> fails_with(res, StudyCycleErrorType::PasswordsDoNotMatch),
        local_user_valid && password_length_ok && new_password@ == new_password_verify@ ==> {
            let valid = spec_old_password_valid(
                old_password@,
                spec_str_view(password_encrypted),
            );
            &&& !valid ==> fails_with(res, StudyCycleErrorType::IncorrectLogin)
            &&& valid ==> res is Ok
        },
{
    require_guard(local_user_valid, Guard::LocalUserValid)?;
    require_guard(password_length_ok, Guard::PasswordLength)?;
    let same = new_password.to_owned() == new_password_verify.to_owned();
    if !same {
        return Err(StudyCycleErrorType::PasswordsDoNotMatch);
    }
    if !old_password_valid(old_password, password_encrypted) {
        return Err(StudyCycleErrorType::IncorrectLogin);
    }
    Ok(())
}

/// A session endpoint needs the session token of the request.
pub open spec fn spec_session_token(auth_token: Option<String>) -> StudyCycleResult<String> {
    match auth_token {
        Some(t) => Ok(t),
        None => Err(StudyCycleErrorType::NotLoggedIn),
    }
}

/// Logging out needs the session token of the request; it is returned so
/// that it can be ended.
pub fn logout(auth_token: Option<String>) -> (res: StudyCycleResult<String>)
    ensures
        res == spec_session_token(auth_token),
{
    match auth_token {
        Some(t) => Ok(t),
        None => Err(StudyCycleErrorType::NotLoggedIn),
    }
}

/// Validating the session needs the session token of the request; it is
/// returned so that it can be checked.
pub fn validate_auth(auth_token: Option<String>) -> (res: StudyCycleResult<String>)
    ensures
        res == spec_session_token(auth_token),
{
    match auth_token {
        Some(t) => Ok(t),
        None => Err(StudyCycleErrorType::NotLoggedIn),
    }
}

/// Listing one's saved items is refused on a private instance to whoever the
/// instance's rule refuses.
pub fn list_person_saved(private_instance_ok: bool) -> (res: StudyCycleResult<()>)
    ensures
        res == (if private_instance_ok { Ok(()) } else { Err::<(), StudyCycleErrorType>(
            StudyCycleErrorType::Refused(Guard::PrivateInstance),
        ) }),
{
    require_guard(private_instance_ok, Guard::PrivateInstance)
}

/// A verification email is sent again only to a valid account.
pub fn resend_verification_email(local_user_valid: bool) -> (res: StudyCycleResult<()>)
    ensures
        res == (if local_user_valid { Ok(()) } else { Err::<(), StudyCycleErrorType>(
            StudyCycleErrorType::Refused(Guard::LocalUserValid),
        ) }),
{
    require_guard(local_user_valid, Guard::LocalUserValid)
}

/// A password reset looks the account up by the lowercase form of the
/// address given.  The endpoint answers with success whatever the attempt
/// gives, so that it tells nobody which addresses have accounts.
pub fn reset_password(email: &str) -> (res: String)
    ensures
        res@ == lowercase(email@),
{
    str_to_lowercase(email)
}

/// The answer to a password reset, given what its attempt gave.
pub open spec fn spec_reset_password_response(attempt: StudyCycleResult<()>) -> StudyCycleResult<()> {
    Ok(())
}

/// The answer to a password reset: success, whatever the attempt behind it
/// gave (no account, an invalid account, an unverified address, a failed
/// email), so that the answer reveals nothing about which addresses have
/// accounts.
pub fn reset_password_response(attempt: StudyCycleResult<()>) -> (res: StudyCycleResult<()>)
    ensures
        res == spec_reset_password_response(attempt),
{
    match attempt {
        Ok(()) => Ok(()),
        Err(_) => Ok(()),
    }
}

/// What the attempt behind a password reset decides.
pub open spec fn spec_try_reset_password(local_user_valid: bool, email_verified: bool) -> StudyCycleResult<()> {
    if !local_user_valid {
        Err(StudyCycleErrorType::Refused(Guard::LocalUserValid))
    } else if !email_verified {
        Err(StudyCycleErrorType::Refused(Guard::EmailVerified))
    } else {
        Ok(())
    }
}

/// The attempt behind a password reset: the reset email goes out only to a
/// valid account whose address is verified (where the site asks for that).
pub fn try_reset_password(local_user_valid: bool, email_verified: bool) -> (res: StudyCycleResult<()>)
    ensures
        res == spec_try_reset_password(local_user_valid, email_verified),
{
    require_guard(local_user_valid, Guard::LocalUserValid)?;
    require_guard(email_verified, Guard::EmailVerified)
}

/// The answer to a request to block (or unblock) the communities of an
/// instance.
pub open spec fn spec_user_block_instance_communities(
    local_user_valid: bool,
    person_instance_id: i32,
    instance_id: i32,
    block: bool,
) -> StudyCycleResult<bool> {
    if !local_user_valid {
        Err(StudyCycleErrorType::Refused(Guard::LocalUserValid))
    } else if person_instance_id == instance_id {
        Err(StudyCycleErrorType::CantBlockLocalInstance)
    } else {
        Ok(block)
    }
}

/// Blocking the communities of an instance needs a valid account, and the
/// person's own instance cannot be blocked.  On success the requested
/// `block` flag is returned: block, or unblock.
pub fn user_block_instance_communities(
    local_user_valid: bool,
    person_instance_id: i32,
    instance_id: i32,
    block: bool,
) -> (res: StudyCycleResult<bool>)
    ensures
        res == spec_user_block_instance_communities(local_user_valid, person_instance_id, instance_id, block),
{
    require_guard(local_user_valid, Guard::LocalUserValid)?;
    if person_instance_id == instance_id {
        return Err(StudyCycleErrorType::CantBlockLocalInstance);
    }
    Ok(block)
}

/// The answer to a request to block (or unblock) the persons of an instance.
pub open spec fn spec_user_block_instance_persons(
    person_instance_id: i32,
    instance_id: i32,
    block: bool,
) -> StudyCycleResult<bool> {
    if person_instance_id == instance_id {
        Err(StudyCycleErrorType::CantBlockLocalInstance)
    } else {
        Ok(block)
    }
}

/// Blocking the persons of an instance: the person's own instance cannot be
/// blocked.  On success the requested `block` flag is returned.
pub fn user_block_instance_persons(person_instance_id: i32, instance_id: i32, block: bool) -> (res:
    StudyCycleResult<bool>)
    ensures
        res == spec_user_block_instance_persons(person_instance_id, instance_id, block),
{
    if person_instance_id == instance_id {
        return Err(StudyCycleErrorType::CantBlockLocalInstance);
    }
    Ok(block)
}

} // verus!
