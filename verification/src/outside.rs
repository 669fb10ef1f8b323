//! The calls into outside crates, each behind a trusted item.
use vstd::prelude::*;
use chrono::TimeZone;
use crate::time::Timestamp;

verus! {

#[verifier::external_type_specification]
#[verifier::external_body]
pub struct ExBcryptError(bcrypt::BcryptError);

/// What `bcrypt::verify(password, hash)` gives back: `Some(b)` for `Ok(b)`,
/// `None` for an error.  It depends on the two strings alone.
pub uninterp spec fn bcrypt_verify_outcome(password: Seq<char>, hash: Seq<char>) -> Option<bool>;

/// The serialization of the URL that `url::Url::parse(input)` gives back,
/// `None` where it refuses the input.
pub uninterp spec fn url_parse_serialization(input: Seq<char>) -> Option<Seq<char>>;

/// The first second that chrono represents: January 1 of the year -262143,
/// 00:00:00 UTC.
pub const UTC_MIN_TIMESTAMP: i64 = -8_334_601_228_800i64;

/// The last second that chrono represents: December 31 of the year 262142,
/// 23:59:59 UTC.
pub const UTC_MAX_TIMESTAMP: i64 = 8_210_266_876_799i64;

/// `secs` lies in the range of dates that chrono represents.
pub open spec fn utc_timestamp_in_range(secs: i64) -> bool {
    UTC_MIN_TIMESTAMP <= secs <= UTC_MAX_TIMESTAMP
}

/// What `str::to_lowercase` gives back.
pub uninterp spec fn lowercase(s: Seq<char>) -> Seq<char>;

/// A string of 60 ASCII characters: the only shape that `bcrypt::verify`
/// reads a hash from.
pub open spec fn bcrypt_hash_shaped(hash: Seq<char>) -> bool {
    hash.len() == 60 && forall|i: int| 0 <= i < hash.len() ==> (hash[i] as u32) < 128
}

/// Calls `bcrypt::verify(password, hash)`, which recomputes the hash of
/// `password` with the cost and salt stored in `hash` and compares.
/// Claimed: the result is `bcrypt_verify_outcome` of the two strings (it is
/// deterministic), and a hash that is not 60 ASCII characters is an error
/// (its source checks this first).
#[verifier::external_body]
pub(crate) fn bcrypt_verify(password: &str, hash: &str) -> (res: Result<bool, bcrypt::BcryptError>)
    ensures
        match res {
            Ok(b) => bcrypt_verify_outcome(password@, hash@) == Some(b),
            Err(_) => bcrypt_verify_outcome(password@, hash@) is None,
        },
        !bcrypt_hash_shaped(hash@) ==> res is Err,
{
    bcrypt::verify(password, hash)
}

/// Calls `url::Url::parse(input)` and turns the parsed URL into its
/// serialization.  Claimed: the result is `url_parse_serialization(input)`,
/// and the empty string is refused (it is a relative URL without a base).
#[verifier::external_body]
pub(crate) fn url_parse(input: &str) -> (res: Option<String>)
    ensures
        match res {
            Some(s) => url_parse_serialization(input@) == Some(s@),
            None => url_parse_serialization(input@) is None,
        },
        input@.len() == 0 ==> res is None,
{
    match url::Url::parse(input) {
        Ok(u) => Some(u.into()),
        Err(_) => None,
    }
}

/// Calls `chrono::Utc.timestamp_opt(secs, 0).single()` and gives back the
/// UNIX timestamp of the date it makes.  Claimed: there is a result exactly
/// when `secs` names a second of chrono's range of years, -262143 to 262142
/// (`DateTime::from_timestamp` refuses a day outside it), and the timestamp
/// round-trips (chrono's documentation guarantees it).
#[verifier::external_body]
pub(crate) fn utc_timestamp_opt(secs: i64) -> (res: Option<i64>)
    ensures
        res is Some <==> utc_timestamp_in_range(secs),
        res matches Some(t) ==> t == secs,
{
    match chrono::Utc.timestamp_opt(secs, 0).single() {
        Some(d) => Some(d.timestamp()),
        None => None,
    }
}

/// Calls `chrono::Utc::now()`.  Of the time it reads only the shape is
/// claimed: its source measures the time since the UNIX epoch as a
/// `Duration` (so the seconds are not negative and the nanoseconds, a
/// `subsec_nanos`, lie below 10^9) and unwraps `DateTime::from_timestamp`
/// (so the seconds lie in chrono's range).
#[verifier::external_body]
pub(crate) fn utc_now() -> (res: Timestamp)
    ensures
        0 <= res.secs <= UTC_MAX_TIMESTAMP,
        res.nanos < 1_000_000_000,
{
    let now = chrono::Utc::now();
    Timestamp { secs: now.timestamp(), nanos: now.timestamp_subsec_nanos() }
}

/// Calls `str::to_lowercase`.  Claimed: the result is `lowercase(s)`.
#[verifier::external_body]
pub(crate) fn str_to_lowercase(s: &str) -> (res: String)
    ensures
        res@ == lowercase(s@),
{
    s.to_lowercase()
}

} // verus!
