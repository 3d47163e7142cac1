//! Who may do what: session tokens from requests, admin rights, the protected root
//! account, and the outcome of a login.
use vstd::prelude::*;
use vstd::string::*;
use vstd::utf8::*;
use crate::forms::LoginData;
use crate::model::{Admin, User};
use crate::password::{is_password_hash_of, password_check_completes, spec_verify_password};

verus! {

/// The identifier of the root account, which only its own holder may modify.
pub const ROOT_ACCOUNT_ID: i32 = 1;

/// An account may be modified by `actor_id` unless it is the root account and the
/// actor is someone else.
pub open spec fn spec_may_modify_account(actor_id: i32, target_id: i32) -> bool {
    !(actor_id != ROOT_ACCOUNT_ID && target_id == ROOT_ACCOUNT_ID)
}

/// Whether the account holder `actor_id` may edit or delete the account `target_id`.
pub fn may_modify_account(actor_id: i32, target_id: i32) -> (r: bool)
    ensures
        r == spec_may_modify_account(actor_id, target_id),
{
    !(actor_id != ROOT_ACCOUNT_ID && target_id == ROOT_ACCOUNT_ID)
}

/// The root account may be modified only by its own holder, and every other account
/// by anyone who may reach the request.
pub proof fn law_root_account_protected(actor_id: i32, target_id: i32)
    ensures
        target_id == ROOT_ACCOUNT_ID ==> (spec_may_modify_account(actor_id, target_id) <==> actor_id
            == ROOT_ACCOUNT_ID),
        target_id != ROOT_ACCOUNT_ID ==> spec_may_modify_account(actor_id, target_id),
{
}

/// The HTTP statuses with which the service refuses requests.
#[derive(Debug, Clone, Copy, PartialEq, Eq, Structural)]
pub enum HttpStatus {
    BadRequest,
    Unauthorized,
    NotFound,
    InternalServerError,
}

impl HttpStatus {
    /// The numeric status code.
    pub open spec fn spec_code(self) -> u16 {
        match self {
            HttpStatus::BadRequest => 400,
            HttpStatus::Unauthorized => 401,
            HttpStatus::NotFound => 404,
            HttpStatus::InternalServerError => 500,
        }
    }

    /// The numeric status code.
    pub fn code(&self) -> (r: u16)
        ensures
            r == self.spec_code(),
    {
        match self {
            HttpStatus::BadRequest => 400,
            HttpStatus::Unauthorized => 401,
            HttpStatus::NotFound => 404,
            HttpStatus::InternalServerError => 500,
        }
    }
}

/// Why a request is not taken as coming from a signed-in account.
#[derive(Debug, Clone, Copy, PartialEq, Eq, Structural)]
pub enum AuthFailure {
    /// The request carries no session token.
    MissingToken,
    /// The token is not valid, names no account, or the account lacks the rights needed.
    InvalidToken,
}

impl AuthFailure {
    /// Every authentication failure is answered with 401 Unauthorized.
    pub fn status(&self) -> (r: HttpStatus)
        ensures
            r == HttpStatus::Unauthorized,
    {
        HttpStatus::Unauthorized
    }

    /// The reason given with the refusal.
    pub fn message(&self) -> (r: &'static str)
        ensures
            *self == AuthFailure::MissingToken ==> r@ == "no JWT"@,
            *self == AuthFailure::InvalidToken ==> r@ == "invalid JWT"@,
    {
        match self {
            AuthFailure::MissingToken => "no JWT",
            AuthFailure::InvalidToken => "invalid JWT",
        }
    }
}

/// The session token of a request: the `Authorization` cookie when there is one,
/// else the `Authorization` header, else none.
pub fn request_jwt(cookie: Option<&str>, header: Option<&str>) -> (r: Result<String, AuthFailure>)
    ensures
        cookie matches Some(c) ==> (r matches Ok(t) && t@ == c@),
        header matches Some(h) ==> (cookie is None ==> (r matches Ok(t) && t@ == h@)),
        cookie is None && header is None ==> r == Err::<String, AuthFailure>(AuthFailure::MissingToken),
{
    match (cookie, header) {
        (Some(c), _) => Ok(String::from_str(c)),
        (_, Some(h)) => Ok(String::from_str(h)),
        _ => Err(AuthFailure::MissingToken),
    }
}

/// The admin rights of a signed-in account; an account without them is refused as
/// if its token were invalid.
pub fn admin_from_user(user: &User) -> (r: Result<Admin, AuthFailure>)
    ensures
        user.is_admin ==> r == Ok::<Admin, AuthFailure>(
            (Admin { id: user.id, username: user.username, password: user.password, is_admin: true }),
        ),
        !user.is_admin ==> r == Err::<Admin, AuthFailure>(AuthFailure::InvalidToken),
{
    match user.as_admin() {
        Some(admin) => Ok(admin),
        None => Err(AuthFailure::InvalidToken),
    }
}

/// The bytes of `Bearer`.
pub open spec fn bearer_prefix() -> Seq<u8> {
    seq![66u8, 101, 97, 114, 101, 114]
}

/// The inputs on which extracting a bearer token does not fail on a slice bound: the
/// single value must reach past its sixth byte on a character boundary, and past its
/// seventh when it starts with `Bearer`.
pub open spec fn bearer_slices_in_bounds(values: Seq<String>) -> bool {
    values.len() == 1 ==> {
        let b = encode_utf8(values[0]@);
        &&& 6 <= b.len() <= usize::MAX
        &&& is_char_boundary(b, 6)
        &&& b.subrange(0, 6) == bearer_prefix() ==> 7 <= b.len() && is_char_boundary(b, 7)
    }
}

/// The token of an `Authorization: Bearer <token>` header, given all the values of
/// that header: there must be exactly one, starting with `Bearer`; the token is what
/// follows the separator after it.
pub fn bearer_token(values: &Vec<String>) -> (r: Result<String, HttpStatus>)
    requires
        bearer_slices_in_bounds(values@),
    ensures
        values@.len() != 1 ==> r == Err::<String, HttpStatus>(HttpStatus::BadRequest),
        values@.len() == 1 ==> {
            let b = encode_utf8(values@[0]@);
            &&& b.subrange(0, 6) != bearer_prefix() ==> r == Err::<String, HttpStatus>(HttpStatus::BadRequest)
            &&& b.subrange(0, 6) == bearer_prefix() ==> (r matches Ok(t) && t@ == decode_utf8(
                b.subrange(7, b.len() as int),
            ))
        },
{
    if values.len() != 1 {
        return Err(HttpStatus::BadRequest);
    }
    let key = values[0].as_str();
    let bytes = key.as_bytes();
    let prefix: [u8; 6] = [66, 101, 97, 114, 101, 114];
    assert(prefix@ == bearer_prefix());
    let mut i: usize = 0;
    while i < 6
        invariant
            bytes@ == encode_utf8(values@[0]@),
            bytes@.len() >= 6,
            prefix@ == bearer_prefix(),
            i <= 6,
            forall|j: int| 0 <= j < i ==> bytes@[j] == prefix@[j],
        decreases 6 - i,
    {
        if bytes[i] != prefix[i] {
            assert(bytes@.subrange(0, 6)[i as int] != bearer_prefix()[i as int]);
            return Err(HttpStatus::BadRequest);
        }
        i = i + 1;
    }
    assert(bytes@.subrange(0, 6) =~= bearer_prefix());
    let (_scheme, token) = key.split_at(7);
    proof {
        encode_utf8_decode_utf8(token@);
    }
    Ok(String::from_str(token))
}

/// The outcome of an API login: an unknown name is a bad request, a wrong password
/// is unauthorized, and otherwise the account is signed in.
pub fn check_login(found: Option<User>, password: &str) -> (r: Result<User, HttpStatus>)
    requires
        found matches Some(u) ==> password_check_completes(u.password@, password@),
    ensures
        found is None ==> r == Err::<User, HttpStatus>(HttpStatus::BadRequest),
        found matches Some(u) ==> (
            if spec_verify_password(u.password@, password@) == Ok::<bool, Seq<char>>(true) {
                r == Ok::<User, HttpStatus>(u)
            } else {
                r == Err::<User, HttpStatus>(HttpStatus::Unauthorized)
            }
        ),
        found matches Some(u) ==> (is_password_hash_of(u.password@, password@) ==> r == Ok::<
            User,
            HttpStatus,
        >(u)),
{
    match found {
        None => Err(HttpStatus::BadRequest),
        Some(user) => if user.validate_password(password) {
            Ok(user)
        } else {
            Err(HttpStatus::Unauthorized)
        },
    }
}

/// What the login page shows when a login fails: the reason, and the name and
/// password to put back in the form.
#[derive(Debug, PartialEq, Eq)]
pub struct LoginFailure {
    pub message: String,
    pub username: String,
    pub password: String,
}

/// The reason shown when the name belongs to no account.
pub open spec fn unknown_user_message() -> Seq<char> {
    "Wow wie is dat uberhaupt?"@
}

/// The reason shown when the password is wrong.
pub open spec fn wrong_password_message() -> Seq<char> {
    "Je wachtwoord is kut en fout"@
}

/// The reason shown when no session token could be made.
pub open spec fn no_token_message() -> Seq<char> {
    "Geen logintoken voor jou haha"@
}

/// The outcome of a login through the login page: for an unknown name the form comes
/// back with the name and password as typed; for a wrong password it comes back with
/// the name only; otherwise the account is signed in.
pub fn login_page_outcome(data: &LoginData, found: Option<User>) -> (r: Result<User, LoginFailure>)
    requires
        found matches Some(u) ==> password_check_completes(u.password@, data.password@),
    ensures
        found is None ==> (r matches Err(f) && f.message@ == unknown_user_message()
            && f.username@ == data.username@ && f.password@ == data.password@),
        found matches Some(u) ==> (
            if spec_verify_password(u.password@, data.password@) == Ok::<bool, Seq<char>>(true) {
                r == Ok::<User, LoginFailure>(u)
            } else {
                (r matches Err(f) && f.message@ == wrong_password_message() && f.username@
                    == data.username@ && f.password@.len() == 0)
            }
        ),
{
    match found {
        None => Err(
            LoginFailure {
                message: String::from_str("Wow wie is dat uberhaupt?"),
                username: data.username.clone(),
                password: data.password.clone(),
            },
        ),
        Some(user) => if user.validate_password(data.password.as_str()) {
            Ok(user)
        } else {
            proof {
                reveal_strlit("");
            }
            Err(
                LoginFailure {
                    message: String::from_str("Je wachtwoord is kut en fout"),
                    username: data.username.clone(),
                    password: String::from_str(""),
                },
            )
        },
    }
}

impl LoginFailure {
    /// The failure shown when no session token could be made for the account: the
    /// form comes back empty.
    pub fn no_token() -> (r: LoginFailure)
        ensures
            r.message@ == no_token_message(),
            r.username@.len() == 0,
            r.password@.len() == 0,
    {
        proof {
            reveal_strlit("");
        }
        LoginFailure {
            message: String::from_str("Geen logintoken voor jou haha"),
            username: String::from_str(""),
            password: String::from_str(""),
        }
    }
}

} // verus!
