use deur::auth::{
    admin_from_user, bearer_token, check_login, login_page_outcome, may_modify_account, request_jwt,
    AuthFailure, HttpStatus, LoginFailure,
};
use deur::forms::LoginData;
use deur::model::{Admin, User};

const KNOWN_ENCODING: &str =
    "$argon2i$m=4096,t=3,p=1$dG9kbzogZnV6eiB0ZXN0cw$Eh1lW3mjkhlMLRQdE7vXZnvwDXSGLBfXa6BGK4a1J3s";

fn user(id: i32, is_admin: bool) -> User {
    User { id, username: "thomas".to_string(), password: KNOWN_ENCODING.to_string(), is_admin }
}

#[test]
fn root_account_is_protected() {
    assert!(may_modify_account(1, 1));
    assert!(!may_modify_account(2, 1));
    assert!(may_modify_account(2, 3));
    assert!(may_modify_account(1, 5));
    assert!(may_modify_account(7, 7));
}

#[test]
fn status_codes() {
    assert_eq!(HttpStatus::BadRequest.code(), 400);
    assert_eq!(HttpStatus::Unauthorized.code(), 401);
    assert_eq!(HttpStatus::NotFound.code(), 404);
    assert_eq!(HttpStatus::InternalServerError.code(), 500);
}

#[test]
fn auth_failures_are_unauthorized() {
    assert_eq!(AuthFailure::MissingToken.status(), HttpStatus::Unauthorized);
    assert_eq!(AuthFailure::InvalidToken.status(), HttpStatus::Unauthorized);
    assert_eq!(AuthFailure::MissingToken.message(), "no JWT");
    assert_eq!(AuthFailure::InvalidToken.message(), "invalid JWT");
}

#[test]
fn cookie_token_takes_precedence() {
    assert_eq!(request_jwt(Some("c"), Some("h")), Ok("c".to_string()));
    assert_eq!(request_jwt(None, Some("h")), Ok("h".to_string()));
    assert_eq!(request_jwt(Some("c"), None), Ok("c".to_string()));
    assert_eq!(request_jwt(None, None), Err(AuthFailure::MissingToken));
}

#[test]
fn only_admins_pass_the_admin_guard() {
    let admin = admin_from_user(&user(4, true)).unwrap();
    assert_eq!(
        admin,
        Admin { id: 4, username: "thomas".to_string(), password: KNOWN_ENCODING.to_string(), is_admin: true }
    );
    assert_eq!(admin_from_user(&user(4, false)), Err(AuthFailure::InvalidToken));
}

#[test]
fn as_admin_mirrors_the_account() {
    assert_eq!(user(9, false).as_admin(), None);
    assert_eq!(user(9, true).as_admin().unwrap().id, 9);
}

#[test]
fn bearer_header_parsing() {
    assert_eq!(bearer_token(&vec!["Bearer abc.def".to_string()]), Ok("abc.def".to_string()));
    assert_eq!(bearer_token(&vec!["Bearer_x".to_string()]), Ok("x".to_string()));
    assert_eq!(bearer_token(&vec!["Basic abcdef".to_string()]), Err(HttpStatus::BadRequest));
    assert_eq!(bearer_token(&vec![]), Err(HttpStatus::BadRequest));
    assert_eq!(
        bearer_token(&vec!["Bearer a".to_string(), "Bearer b".to_string()]),
        Err(HttpStatus::BadRequest)
    );
}

#[test]
fn api_login_outcomes() {
    assert_eq!(check_login(None, "argon2i!"), Err(HttpStatus::BadRequest));
    assert_eq!(check_login(Some(user(2, false)), "wrong"), Err(HttpStatus::Unauthorized));
    assert_eq!(check_login(Some(user(2, false)), "argon2i!"), Ok(user(2, false)));
}

#[test]
fn login_page_outcomes() {
    let data = LoginData { username: "Thomas".to_string(), password: "guess".to_string() };
    assert_eq!(
        login_page_outcome(&data, None),
        Err(LoginFailure {
            message: "Wow wie is dat uberhaupt?".to_string(),
            username: "Thomas".to_string(),
            password: "guess".to_string(),
        })
    );
    assert_eq!(
        login_page_outcome(&data, Some(user(2, false))),
        Err(LoginFailure {
            message: "Je wachtwoord is kut en fout".to_string(),
            username: "Thomas".to_string(),
            password: String::new(),
        })
    );
    let good = LoginData { username: "thomas".to_string(), password: "argon2i!".to_string() };
    assert_eq!(login_page_outcome(&good, Some(user(2, false))), Ok(user(2, false)));
    assert_eq!(
        LoginFailure::no_token(),
        LoginFailure {
            message: "Geen logintoken voor jou haha".to_string(),
            username: String::new(),
            password: String::new(),
        }
    );
}
