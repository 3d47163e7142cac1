use deur::model::User;
use deur::encoded::argon2_verification_completes;
use deur::password::{generate_salt, hash_password, hash_password_with_salt, verify_password};

const KNOWN_ENCODING: &str =
    "$argon2i$m=4096,t=3,p=1$dG9kbzogZnV6eiB0ZXN0cw$Eh1lW3mjkhlMLRQdE7vXZnvwDXSGLBfXa6BGK4a1J3s";

#[test]
fn hashing_with_a_known_salt_gives_the_reference_encoding() {
    let h = hash_password_with_salt("argon2i!", b"todo: fuzz tests");
    assert_eq!(h, KNOWN_ENCODING);
}

#[test]
fn reference_encoding_accepts_only_its_password() {
    assert_eq!(verify_password(KNOWN_ENCODING, "argon2i!"), Ok(true));
    assert_eq!(verify_password(KNOWN_ENCODING, "nope"), Ok(false));
}

#[test]
fn a_fresh_hash_verifies_its_password() {
    let h = hash_password("hunter2").unwrap();
    assert_ne!(h, "hunter2");
    assert_eq!(h.len(), 90);
    assert!(h.starts_with("$argon2i$m=4096,t=3,p=1$"));
    assert_eq!(verify_password(&h, "hunter2"), Ok(true));
    assert_eq!(verify_password(&h, "hunter3"), Ok(false));
}

#[test]
fn two_hashes_of_one_password_use_different_salts() {
    let a = hash_password("same").unwrap();
    let b = hash_password("same").unwrap();
    assert_ne!(a, b);
}

#[test]
fn unreadable_hash_is_an_error() {
    let err = Err("Could not read password".to_string());
    assert_eq!(verify_password("plain text", "plain text"), err);
    assert_eq!(verify_password(&KNOWN_ENCODING.replace("argon2i", "argon2x"), "argon2i!"), err);
    // parameters that Argon2 refuses: no lanes, too little memory, no passes
    assert_eq!(verify_password(&KNOWN_ENCODING.replace("p=1", "p=0"), "argon2i!"), err);
    assert_eq!(verify_password(&KNOWN_ENCODING.replace("m=4096,t=3,p=1", "m=7,t=3,p=1"), "argon2i!"), err);
    assert_eq!(verify_password(&KNOWN_ENCODING.replace("t=3", "t=0"), "argon2i!"), err);
    // a number that does not fit in 32 bits, and a missing number
    assert_eq!(verify_password(&KNOWN_ENCODING.replace("t=3", "t=4294967296"), "argon2i!"), err);
    assert_eq!(verify_password(&KNOWN_ENCODING.replace("t=3", "t="), "argon2i!"), err);
    // a hash with a stray character, and one of length 1 modulo 4
    assert_eq!(verify_password(&KNOWN_ENCODING.replace("Eh1l", "Eh*l"), "argon2i!"), err);
    assert_eq!(verify_password(&format!("{}AA", KNOWN_ENCODING), "argon2i!"), err);
}

#[test]
fn other_argon2_encodings_are_verified() {
    // the reference encoding read as Argon2d hashes differently
    assert_eq!(verify_password(&KNOWN_ENCODING.replace("argon2i", "argon2d"), "argon2i!"), Ok(false));
    let d = String::from_utf8(
        argon2rs::verifier::Encoded::default2d(b"pw", b"saltsaltsalt", &[], &[]).to_u8(),
    )
    .unwrap();
    assert!(d.starts_with("$argon2d$"));
    assert_eq!(verify_password(&d, "pw"), Ok(true));
    assert_eq!(verify_password(&d, "pv"), Ok(false));
    let params = argon2rs::Argon2::new(2, 2, 64, argon2rs::Variant::Argon2i).unwrap();
    let keyed = String::from_utf8(
        argon2rs::verifier::Encoded::new(params, b"pw", b"somesalt", b"key", b"data").to_u8(),
    )
    .unwrap();
    assert!(keyed.contains(",keyid=") && keyed.contains(",data="));
    assert_eq!(verify_password(&keyed, "pw"), Ok(true));
    assert_eq!(verify_password(&keyed, "px"), Ok(false));
}

#[test]
fn verification_completes_except_where_argon2rs_panics() {
    assert!(argon2_verification_completes(KNOWN_ENCODING.as_bytes(), 8));
    assert!(argon2_verification_completes(b"plain text", 10));
    // the reader looks past the end of the text
    assert!(!argon2_verification_completes(b"", 0));
    assert!(!argon2_verification_completes(b"$argon2", 0));
    assert!(!argon2_verification_completes(b"$argon2i", 0));
    assert!(!argon2_verification_completes(b"$argon2i$m=4096,t=3,p=1", 0));
    assert!(!argon2_verification_completes(b"$argon2i$m=4096,t=3,p=1$c2FsdHNhbHQ", 0));
    // a salt of three bytes, and a key of 33 bytes (a key runs up to the next comma)
    assert!(!argon2_verification_completes(b"$argon2i$m=4096,t=3,p=1$AAAA$AAAA", 0));
    let long_key = format!("$argon2i$m=4096,t=3,p=1,keyid={},data=ZGF0YQ$c2FsdHNhbHQ$AAAA", "A".repeat(44));
    assert!(!argon2_verification_completes(long_key.as_bytes(), 0));
    let max_key = format!("$argon2i$m=4096,t=3,p=1,keyid={},data=ZGF0YQ$c2FsdHNhbHQ$AAAA", "A".repeat(43));
    assert!(argon2_verification_completes(max_key.as_bytes(), 0));
    // a short salt is never hashed when the parameters are refused
    assert!(argon2_verification_completes(b"$argon2i$m=4096,t=3,p=0$AAAA$AAAA", 0));
    // a password longer than Argon2 takes
    assert!(!argon2_verification_completes(KNOWN_ENCODING.as_bytes(), 1usize << 32));
    assert!(argon2_verification_completes(b"plain text", 1usize << 32));
}

#[test]
fn salts_are_sixteen_fresh_bytes() {
    let a = generate_salt().unwrap();
    let b = generate_salt().unwrap();
    assert_eq!(a.len(), 16);
    assert_ne!(a, b);
}

#[test]
fn user_password_validation() {
    let user = User {
        id: 3,
        username: "remco".to_string(),
        password: KNOWN_ENCODING.to_string(),
        is_admin: false,
    };
    assert!(user.validate_password("argon2i!"));
    assert!(!user.validate_password("argon2i"));
    let broken = User { password: "garbage".to_string(), ..user };
    assert!(!broken.validate_password("garbage"));
}

#[test]
fn new_account_keeps_name_and_hashes_password() {
    let n = User::new_account("Alice", "pw", true).unwrap();
    assert_eq!(n.username, "Alice");
    assert!(n.is_admin);
    assert_eq!(verify_password(&n.password, "pw"), Ok(true));
}
