//! The accounts of the service.
use vstd::prelude::*;
use vstd::string::*;
use vstd::utf8::*;
use crate::password::{
    hash_password, is_password_hash_of, password_check_completes, spec_verify_password, verify_password,
};
use crate::text::{ascii_lowercase, lowercase, to_lowercase};

verus! {

/// An account: its number, login name, stored password hash and admin flag.
#[derive(Debug, PartialEq, Eq)]
pub struct User {
    pub id: i32,
    pub username: String,
    pub password: String,
    pub is_admin: bool,
}

/// An account that holds admin rights.
#[derive(Debug, PartialEq, Eq)]
pub struct Admin {
    pub id: i32,
    pub username: String,
    pub password: String,
    pub is_admin: bool,
}

/// The fields of an account that is about to be stored; the store assigns the number.
#[derive(Debug, PartialEq, Eq)]
pub struct NewUser {
    pub username: String,
    pub password: String,
    pub is_admin: bool,
}

impl User {
    /// Whether `password` opens this account: the stored hash is readable and Argon2
    /// accepts the password for it.
    pub fn validate_password(&self, password: &str) -> (r: bool)
        requires
            password_check_completes(self.password@, password@),
        ensures
            r == (spec_verify_password(self.password@, password@) == Ok::<bool, Seq<char>>(true)),
            is_password_hash_of(self.password@, password@) ==> r,
    {
        match verify_password(self.password.as_str(), password) {
            Ok(is_valid) => is_valid,
            Err(_err) => false,
        }
    }

    /// The admin view of this account, when it holds admin rights.
    pub fn as_admin(&self) -> (r: Option<Admin>)
        ensures
            self.is_admin ==> r == Some(
                (Admin {
                    id: self.id,
                    username: self.username,
                    password: self.password,
                    is_admin: true,
                }),
            ),
            !self.is_admin ==> r is None,
    {
        if self.is_admin {
            Some(
                Admin {
                    id: self.id,
                    username: self.username.clone(),
                    password: self.password.clone(),
                    is_admin: true,
                },
            )
        } else {
            None
        }
    }

    /// The login name under which accounts are looked up: the given name in lower case.
    pub fn lookup_name(username: &str) -> (r: String)
        ensures
            r@ == lowercase(username@),
            is_ascii_chars(username@) ==> r@ == ascii_lowercase(username@),
    {
        to_lowercase(username)
    }

    /// The record for a new account: the name as given, the password hashed under a
    /// fresh salt, and the admin flag.
    pub fn new_account(username: &str, password: &str, is_admin: bool) -> (r: Result<NewUser, String>)
        requires
            password.spec_bytes().len() <= u32::MAX,
        ensures
            r matches Ok(n) ==> n.username@ == username@ && n.is_admin == is_admin
                && is_password_hash_of(n.password@, password@),
            r matches Err(e) ==> e@ == "Could not allocate randomizer"@,
    {
        match hash_password(password) {
            Ok(hash) => Ok(NewUser { username: String::from_str(username), password: hash, is_admin }),
            Err(e) => Err(e),
        }
    }
}

} // verus!
