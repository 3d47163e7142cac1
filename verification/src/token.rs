//! The claims carried by a session token, and the clock that dates them.
use vstd::prelude::*;
use vstd::string::*;
use crate::model::User;

verus! {

/// How long a session token stays valid: one year of 365 days, in seconds.
pub const TOKEN_LIFETIME_SECS: u64 = 3600 * 24 * 365;

/// What a session token says: the account it signs in, and when it expires
/// (seconds since the Unix epoch).
#[derive(Debug, Clone, Copy, PartialEq, Eq, Structural)]
pub struct LoginTokenClaims {
    pub id: i32,
    pub exp: u64,
}

impl LoginTokenClaims {
    /// The claims of a token for account `user_id` issued at `now`: it expires one
    /// lifetime later. None when that moment does not fit in 64 bits.
    pub fn issued_at(user_id: i32, now: u64) -> (r: Option<LoginTokenClaims>)
        ensures
            now + TOKEN_LIFETIME_SECS <= u64::MAX ==> r == Some(
                (LoginTokenClaims { id: user_id, exp: (now + TOKEN_LIFETIME_SECS) as u64 }),
            ),
            now + TOKEN_LIFETIME_SECS > u64::MAX ==> r is None,
    {
        match now.checked_add(TOKEN_LIFETIME_SECS) {
            Some(exp) => Some(LoginTokenClaims { id: user_id, exp }),
            None => None,
        }
    }

    /// The claims of a session token for account `user_id` given the clock reading
    /// `clock` (seconds since the epoch, None when the clock stands before it): a
    /// token expiring one lifetime after the reading, or an error when there is no
    /// reading or the expiry does not fit in 64 bits.
    pub fn from_clock(user_id: i32, clock: Option<u64>) -> (r: Result<LoginTokenClaims, String>)
        ensures
            match clock {
                Some(t) => if t + TOKEN_LIFETIME_SECS <= u64::MAX {
                    r == Ok::<LoginTokenClaims, String>(
                        LoginTokenClaims { id: user_id, exp: (t + TOKEN_LIFETIME_SECS) as u64 },
                    )
                } else {
                    r is Err
                },
                None => r is Err,
            },
            r matches Err(e) ==> e@ == "Could not create JWT"@,
    {
        match clock {
            Some(t) => match LoginTokenClaims::issued_at(user_id, t) {
                Some(claims) => Ok(claims),
                None => Err(String::from_str("Could not create JWT")),
            },
            None => Err(String::from_str("Could not create JWT")),
        }
    }
}

#[verifier::external_type_specification]
#[verifier::external_body]
pub struct ExSystemTime(std::time::SystemTime);

#[verifier::external_type_specification]
#[verifier::external_body]
pub struct ExSystemTimeError(std::time::SystemTimeError);

/// `SystemTime::now`: the current time of the system clock; nothing is claimed of it.
#[verifier::external_body]
fn system_time_now() -> (r: std::time::SystemTime) {
    std::time::SystemTime::now()
}

/// `SystemTime::duration_since(UNIX_EPOCH)`: fails when the time lies before the
/// epoch; nothing is claimed of the duration.
#[verifier::external_body]
fn since_unix_epoch(t: &std::time::SystemTime) -> (r: Result<std::time::Duration, std::time::SystemTimeError>) {
    t.duration_since(std::time::UNIX_EPOCH)
}

/// `Duration::as_secs`: the whole seconds of a duration; nothing is claimed of them.
#[verifier::external_body]
fn whole_seconds(d: &std::time::Duration) -> (r: u64) {
    d.as_secs()
}

/// The current time in whole seconds since the Unix epoch, or None when the system
/// clock stands before the epoch.
pub fn now() -> (r: Option<u64>) {
    let t = system_time_now();
    match since_unix_epoch(&t) {
        Ok(d) => Some(whole_seconds(&d)),
        Err(_) => None,
    }
}

/// The claims of a new session token for `user`, issued now: they name the account
/// and expire one lifetime from the current time.
pub fn login_token_claims(user: &User) -> (r: Result<LoginTokenClaims, String>)
    ensures
        r matches Ok(c) ==> c.id == user.id && c.exp >= TOKEN_LIFETIME_SECS,
        r matches Err(e) ==> e@ == "Could not create JWT"@,
{
    LoginTokenClaims::from_clock(user.id, now())
}

} // verus!
