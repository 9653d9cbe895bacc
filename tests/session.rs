use iot_connect::error::ErrorType;
use iot_connect::session::{
    create_user_token, create_user_token_at, verify_user_token, verify_user_token_at,
    verify_user_token_from_cookie, verify_user_token_from_cookie_at, Claims,
};

#[test]
fn session_expires_after_one_day() {
    let t: i64 = 1_700_000_000;
    let claims = create_user_token_at("a@b.co", t).unwrap();
    assert_eq!(claims.sub, "a@b.co");
    assert_eq!(claims.exp, 1_700_086_400);
    let at_limit = verify_user_token_at(Claims { sub: claims.sub.clone(), exp: claims.exp }, t + 86_400);
    assert_eq!(at_limit.unwrap().sub, "a@b.co");
    let after = verify_user_token_at(claims, t + 86_401);
    assert!(matches!(after, Err(ErrorType::Unauthorized(None))));
}

#[test]
fn session_accepted_right_after_minting() {
    let claims = create_user_token_at("a@b.co", 5).unwrap();
    assert!(verify_user_token_at(claims, 5).is_ok());
}

#[test]
fn session_cannot_be_minted_before_the_epoch() {
    assert!(matches!(create_user_token_at("a@b.co", -1), Err(ErrorType::UnknownError(None))));
}

#[test]
fn live_session_from_clock() {
    let claims = create_user_token("a@b.co").unwrap();
    assert!(claims.exp >= 86_400);
    assert_eq!(verify_user_token(claims).unwrap().sub, "a@b.co");
}

#[test]
fn expired_cookie_is_unauthorized() {
    let old = Claims { sub: "a@b.co".to_string(), exp: 1_000 };
    assert!(matches!(verify_user_token_from_cookie(Some(old)), Err(ErrorType::Unauthorized(None))));
    let old = Claims { sub: "a@b.co".to_string(), exp: 1_000 };
    assert!(matches!(verify_user_token_from_cookie_at(Some(old), 1_001), Err(ErrorType::Unauthorized(None))));
    let live = Claims { sub: "a@b.co".to_string(), exp: 1_000 };
    assert_eq!(verify_user_token_from_cookie_at(Some(live), 999).unwrap(), "a@b.co");
}

#[test]
fn missing_cookie_is_unauthorized() {
    assert!(matches!(verify_user_token_from_cookie(None), Err(ErrorType::Unauthorized(None))));
    assert!(matches!(verify_user_token_from_cookie_at(None, 0), Err(ErrorType::Unauthorized(None))));
}

#[test]
fn session_expiry_at_the_largest_clock_reading() {
    let claims = create_user_token_at("a@b.co", i64::MAX).unwrap();
    assert_eq!(claims.exp as u128, i64::MAX as u128 + 86_400);
    assert!(verify_user_token_at(claims, i64::MAX).is_ok());
}
