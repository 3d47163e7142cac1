use deur::model::User;
use deur::pages::thomas_message;
use deur::token::{login_token_claims, now, LoginTokenClaims, TOKEN_LIFETIME_SECS};

#[test]
fn token_lifetime_is_a_year() {
    assert_eq!(TOKEN_LIFETIME_SECS, 31_536_000);
    assert_eq!(
        LoginTokenClaims::issued_at(7, 1_600_000_000),
        Some(LoginTokenClaims { id: 7, exp: 1_631_536_000 })
    );
    assert_eq!(LoginTokenClaims::issued_at(7, u64::MAX - 10), None);
    assert_eq!(
        LoginTokenClaims::issued_at(-1, u64::MAX - TOKEN_LIFETIME_SECS),
        Some(LoginTokenClaims { id: -1, exp: u64::MAX })
    );
}

#[test]
fn clock_is_after_the_epoch() {
    let t = now().unwrap();
    assert!(t > 1_500_000_000);
}

#[test]
fn claims_for_a_user_expire_a_year_from_now() {
    let user = User { id: 12, username: "u".to_string(), password: String::new(), is_admin: false };
    let before = now().unwrap();
    let claims = login_token_claims(&user).unwrap();
    let after = now().unwrap();
    assert_eq!(claims.id, 12);
    assert!(claims.exp >= before + TOKEN_LIFETIME_SECS && claims.exp <= after + TOKEN_LIFETIME_SECS);
}

#[test]
fn thomas_messages() {
    assert_eq!(thomas_message("delete"), "mijn account moet verwijderen thomas!");
    assert_eq!(thomas_message("admin"), "mijn adminrechten mag verwijderen thomas!");
    assert_eq!(thomas_message("Admin"), "wat voor shit je ook aan het doen bent doen.");
    assert_eq!(thomas_message(""), "wat voor shit je ook aan het doen bent doen.");
}
