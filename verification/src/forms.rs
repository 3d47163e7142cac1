//! The data that clients send and receive, and what the account-editing requests
//! make of an account.
use vstd::prelude::*;
use vstd::string::*;
use vstd::utf8::*;
use crate::model::{Admin, User};
use crate::password::{hash_password, is_password_hash_of};
use crate::text::{ascii_lowercase, lowercase, to_lowercase};
use crate::auth::{may_modify_account, spec_may_modify_account, ROOT_ACCOUNT_ID};

verus! {

/// The answer to a successful login through the API.
#[derive(Debug, PartialEq, Eq)]
pub struct LoginResponse {
    pub token: String,
}

/// Credentials sent to the API login.
#[derive(Debug, PartialEq, Eq)]
pub struct LoginForm {
    pub username: String,
    pub password: String,
}

/// An account to create through the API.
#[derive(Debug, PartialEq, Eq)]
pub struct CreateForm<'a> {
    pub username: &'a str,
    pub password: &'a str,
    pub is_admin: bool,
}

/// Changes to an account sent through the API; absent fields stay as they are.
#[derive(Debug, PartialEq, Eq)]
pub struct UpdateForm<'a> {
    pub username: Option<&'a str>,
    pub password: Option<&'a str>,
    pub is_admin: Option<bool>,
}

/// An account to create from the admin page.
#[derive(Debug, PartialEq, Eq)]
pub struct NewData {
    pub username: String,
    pub password: String,
    pub is_admin: bool,
}

/// The account to delete from the admin page.
#[derive(Debug, PartialEq, Eq)]
pub struct DeleteForm {
    pub id: i32,
}

/// Credentials sent to the login page.
#[derive(Debug, PartialEq, Eq)]
pub struct LoginData {
    pub username: String,
    pub password: String,
}

/// Whether an API update of `target_id` by `actor` is allowed: only admins may
/// update accounts, and only the root account may update itself.
pub open spec fn spec_may_update_via_api(actor: User, target_id: i32) -> bool {
    actor.is_admin && spec_may_modify_account(actor.id, target_id)
}

/// Whether `actor` may update the account `target_id` through the API.
pub fn may_update_via_api(actor: &User, target_id: i32) -> (r: bool)
    ensures
        r == spec_may_update_via_api(*actor, target_id),
        r == (actor.is_admin && (actor.id == ROOT_ACCOUNT_ID || target_id != ROOT_ACCOUNT_ID)),
{
    actor.is_admin && may_modify_account(actor.id, target_id)
}

/// Who may update an account through the API: a non-admin never; an admin any
/// account other than the root account; the root admin every account, its own
/// included; and nobody else the root account.
pub proof fn law_api_update_rights(actor: User, target_id: i32)
    ensures
        !actor.is_admin ==> !spec_may_update_via_api(actor, target_id),
        actor.is_admin && target_id != ROOT_ACCOUNT_ID ==> spec_may_update_via_api(actor, target_id),
        actor.is_admin && actor.id == ROOT_ACCOUNT_ID ==> spec_may_update_via_api(actor, target_id),
        actor.id != ROOT_ACCOUNT_ID && target_id == ROOT_ACCOUNT_ID ==> !spec_may_update_via_api(actor, target_id),
{
}

/// `editee` with the changes of an API update applied: a given name replaces the
/// name as it is, a given password is hashed under a fresh salt, a given admin
/// flag replaces the flag; the account number never changes.
pub fn apply_update_form(editee: User, form: &UpdateForm) -> (r: Result<User, String>)
    requires
        form.password matches Some(p) ==> p.spec_bytes().len() <= u32::MAX,
    ensures
        r matches Ok(u) ==> {
            &&& u.id == editee.id
            &&& u.username@ == match form.username {
                Some(name) => name@,
                None => editee.username@,
            }
            &&& match form.password {
                Some(p) => is_password_hash_of(u.password@, p@),
                None => u.password == editee.password,
            }
            &&& u.is_admin == match form.is_admin {
                Some(b) => b,
                None => editee.is_admin,
            }
        },
        r is Err ==> form.password is Some,
        r matches Err(e) ==> e@ == "Could not allocate randomizer"@,
{
    let username = match form.username {
        Some(name) => String::from_str(name),
        None => editee.username,
    };
    let password = match form.password {
        Some(p) => match hash_password(p) {
            Ok(h) => h,
            Err(e) => return Err(e),
        },
        None => editee.password,
    };
    let is_admin = match form.is_admin {
        Some(b) => b,
        None => editee.is_admin,
    };
    Ok(User { id: editee.id, username, password, is_admin })
}

/// Where the admin page sends an admin who tries to edit an account they may not edit.
pub open spec fn edit_refused_page() -> Seq<char> {
    "/thomas/admin"@
}

/// Where the admin page sends an admin who tries to delete an account they may not delete.
pub open spec fn delete_refused_page() -> Seq<char> {
    "/thomas/delete"@
}

/// The page to send `admin` to instead of editing `target_id`, if the edit is refused.
pub fn edit_user_refusal(admin: &Admin, target_id: i32) -> (r: Option<&'static str>)
    ensures
        spec_may_modify_account(admin.id, target_id) ==> r is None,
        !spec_may_modify_account(admin.id, target_id) ==> (r matches Some(page) && page@
            == edit_refused_page()),
{
    if may_modify_account(admin.id, target_id) {
        None
    } else {
        Some("/thomas/admin")
    }
}

/// The page to send `admin` to instead of deleting `target_id`, if the deletion is refused.
pub fn delete_user_refusal(admin: &Admin, target_id: i32) -> (r: Option<&'static str>)
    ensures
        spec_may_modify_account(admin.id, target_id) ==> r is None,
        !spec_may_modify_account(admin.id, target_id) ==> (r matches Some(page) && page@
            == delete_refused_page()),
{
    if may_modify_account(admin.id, target_id) {
        None
    } else {
        Some("/thomas/delete")
    }
}

/// `updatee` as the admin page's edit form `form` leaves it: the name is the form's
/// name in lower case; an empty password keeps the stored hash, any other is hashed
/// under a fresh salt; the account number and the admin flag stay as they are.
pub fn apply_admin_edit(updatee: User, form: &User) -> (r: Result<User, String>)
    requires
        form.password@.len() > 0 ==> encode_utf8(form.password@).len() <= u32::MAX,
    ensures
        r matches Ok(u) ==> {
            &&& u.id == updatee.id
            &&& u.username@ == lowercase(form.username@)
            &&& is_ascii_chars(form.username@) ==> u.username@ == ascii_lowercase(form.username@)
            &&& form.password@.len() == 0 ==> u.password == updatee.password
            &&& form.password@.len() > 0 ==> is_password_hash_of(u.password@, form.password@)
            &&& u.is_admin == updatee.is_admin
        },
        r is Err ==> form.password@.len() > 0,
        r matches Err(e) ==> e@ == "Could not allocate randomizer"@,
{
    let username = to_lowercase(form.username.as_str());
    let password = if form.password.as_str().is_empty() {
        updatee.password
    } else {
        match hash_password(form.password.as_str()) {
            Ok(h) => h,
            Err(e) => return Err(e),
        }
    };
    Ok(User { id: updatee.id, username, password, is_admin: updatee.is_admin })
}

} // verus!
