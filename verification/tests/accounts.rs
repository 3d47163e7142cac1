use deur::forms::{
    apply_admin_edit, apply_update_form, delete_user_refusal, edit_user_refusal, may_update_via_api, UpdateForm,
};
use deur::model::{Admin, User};
use deur::password::verify_password;

fn account(id: i32, name: &str, hash: &str, is_admin: bool) -> User {
    User { id, username: name.to_string(), password: hash.to_string(), is_admin }
}

fn admin(id: i32) -> Admin {
    Admin { id, username: "a".to_string(), password: "h".to_string(), is_admin: true }
}

#[test]
fn lookup_names_are_lower_case() {
    assert_eq!(User::lookup_name("ReMCo"), "remco");
    assert_eq!(User::lookup_name("ÄBC"), "äbc");
}

#[test]
fn api_update_needs_admin_and_respects_root() {
    assert!(!may_update_via_api(&account(2, "x", "h", false), 3));
    assert!(may_update_via_api(&account(2, "x", "h", true), 3));
    assert!(!may_update_via_api(&account(2, "x", "h", true), 1));
    assert!(may_update_via_api(&account(1, "x", "h", true), 1));
}

#[test]
fn empty_update_form_changes_nothing() {
    let before = account(5, "bob", "stored", false);
    let form = UpdateForm { username: None, password: None, is_admin: None };
    assert_eq!(apply_update_form(before, &form), Ok(account(5, "bob", "stored", false)));
}

#[test]
fn update_form_replaces_given_fields() {
    let before = account(5, "bob", "stored", false);
    let form = UpdateForm { username: Some("Robert"), password: None, is_admin: Some(true) };
    assert_eq!(apply_update_form(before, &form), Ok(account(5, "Robert", "stored", true)));
    let before = account(5, "bob", "stored", false);
    let form = UpdateForm { username: None, password: Some("new"), is_admin: None };
    let after = apply_update_form(before, &form).unwrap();
    assert_eq!(after.username, "bob");
    assert_eq!(verify_password(&after.password, "new"), Ok(true));
}

#[test]
fn admin_edit_lowercases_name_and_keeps_admin_flag() {
    let before = account(6, "carol", "stored", true);
    let form = account(6, "CaRoL", "", false);
    assert_eq!(apply_admin_edit(before, &form), Ok(account(6, "carol", "stored", true)));
    let before = account(6, "carol", "stored", false);
    let form = account(99, "dave", "pw", true);
    let after = apply_admin_edit(before, &form).unwrap();
    assert_eq!(after.id, 6);
    assert!(!after.is_admin);
    assert_eq!(after.username, "dave");
    assert_eq!(verify_password(&after.password, "pw"), Ok(true));
}

#[test]
fn admin_page_refusals() {
    assert_eq!(edit_user_refusal(&admin(2), 1), Some("/thomas/admin"));
    assert_eq!(edit_user_refusal(&admin(1), 1), None);
    assert_eq!(edit_user_refusal(&admin(2), 3), None);
    assert_eq!(delete_user_refusal(&admin(2), 1), Some("/thomas/delete"));
    assert_eq!(delete_user_refusal(&admin(2), 2), None);
}
