use vstd::prelude::*;
use crate::error::ErrorType;

verus! {

/// The claim a session cookie carries, once its signature has been checked: the user's
/// address and the expiry in Unix seconds.
#[derive(Debug)]
pub struct Claims {
    pub sub: String,
    pub exp: usize,
}

/// How long a session lasts: 24 hours.
pub const SESSION_LIFETIME_SECS: u64 = 86400;

/// Relies on chrono's Utc::now, read as Unix seconds: the clock, so nothing is promised.
#[verifier::external_body]
fn unix_seconds_now() -> (r: i64) {
    chrono::Utc::now().timestamp()
}

/// Whether a session minted at `now` can be given an expiry.
pub open spec fn can_mint_at(now: i64) -> bool {
    0 <= now && now + SESSION_LIFETIME_SECS <= usize::MAX
}

/// The expiry of a session minted at `now`.
pub open spec fn session_expiry(now: i64) -> int {
    now + SESSION_LIFETIME_SECS
}

/// Whether a session that expires at `exp` is still good at `now`.
pub open spec fn session_live(exp: int, now: int) -> bool {
    now <= exp
}

/// The claim for a session of `user_email` minted at `now`; it fails only where the expiry
/// does not fit.
pub fn create_user_token_at(user_email: &str, now: i64) -> (r: Result<Claims, ErrorType>)
    ensures
        r is Ok <==> can_mint_at(now),
        r matches Ok(c) ==> c.sub@ == user_email@ && c.exp == session_expiry(now),
        r matches Err(e) ==> e == ErrorType::UnknownError(None),
{
    if now < 0 || now as u64 > usize::MAX as u64 - SESSION_LIFETIME_SECS {
        return Err(ErrorType::UnknownError(None));
    }
    let exp = (now as u64 + SESSION_LIFETIME_SECS) as usize;
    Ok(Claims { sub: String::from_str(user_email), exp })
}

/// The claim for a session of `user_email` that starts now and lasts 24 hours.
pub fn create_user_token(user_email: &str) -> (r: Result<Claims, ErrorType>)
    ensures
        r matches Ok(c) ==> c.sub@ == user_email@ && c.exp >= SESSION_LIFETIME_SECS,
        r matches Err(e) ==> e == ErrorType::UnknownError(None),
{
    create_user_token_at(user_email, unix_seconds_now())
}

/// Accepts a claim at `now` if it has not expired yet.
pub fn verify_user_token_at(claims: Claims, now: i64) -> (r: Result<Claims, ErrorType>)
    ensures
        r is Ok <==> session_live(claims.exp as int, now as int),
        r matches Ok(c) ==> c == claims,
        r matches Err(e) ==> e == ErrorType::Unauthorized(None),
{
    if now < 0 || (now as u64) <= claims.exp as u64 {
        Ok(claims)
    } else {
        Err(ErrorType::Unauthorized(None))
    }
}

/// Accepts a claim if it has not expired by now.
pub fn verify_user_token(claims: Claims) -> (r: Result<Claims, ErrorType>)
    ensures
        r matches Ok(c) ==> c == claims,
        r matches Err(e) ==> e == ErrorType::Unauthorized(None),
{
    verify_user_token_at(claims, unix_seconds_now())
}

/// The user a request acts for, from the claim of its session cookie (`None` when the cookie
/// is missing or its signature is bad), at `now`.
pub fn verify_user_token_from_cookie_at(claims: Option<Claims>, now: i64) -> (r: Result<String, ErrorType>)
    ensures
        r is Ok <==> (claims matches Some(c) && session_live(c.exp as int, now as int)),
        r matches Ok(email) ==> email == claims->0.sub,
        r matches Err(e) ==> e == ErrorType::Unauthorized(None),
{
    match claims {
        None => Err(ErrorType::Unauthorized(None)),
        Some(c) => match verify_user_token_at(c, now) {
            Ok(c) => Ok(c.sub),
            Err(e) => Err(e),
        },
    }
}

/// The user a request acts for, from the claim of its session cookie, checked against the
/// clock.
pub fn verify_user_token_from_cookie(claims: Option<Claims>) -> (r: Result<String, ErrorType>)
    ensures
        claims is None ==> r == Err::<String, ErrorType>(ErrorType::Unauthorized(None)),
        r matches Ok(email) ==> email == claims->0.sub,
        r matches Err(e) ==> e == ErrorType::Unauthorized(None),
{
    verify_user_token_from_cookie_at(claims, unix_seconds_now())
}

/// A session minted for an address at time `t` is accepted at every time from `t` up to and
/// including `t` plus 24 hours, and refused from one second after that.
pub proof fn lemma_session_lifetime(t: i64, now: i64)
    requires
        can_mint_at(t),
    ensures
        session_live(session_expiry(t), t + SESSION_LIFETIME_SECS),
        !session_live(session_expiry(t), t + SESSION_LIFETIME_SECS + 1),
        session_live(session_expiry(t), now as int) <==> now <= t + SESSION_LIFETIME_SECS,
{
}

} // verus!
