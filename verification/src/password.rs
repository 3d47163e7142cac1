//! Password hashing with Argon2i, in the encoded form
//! `$argon2i$m=4096,t=3,p=1$<salt>$<hash>` that new accounts store, and verification
//! of a password against any stored Argon2 encoding that argon2rs reads back.
use vstd::prelude::*;
use vstd::string::*;
use vstd::utf8::*;
use rand_core::RngCore;
use crate::encoded::{
    after_data, after_hash, after_key, after_lanes, after_salt, after_variant, argon2_tag, at_lanes,
    at_memory, at_passes, at_salt, data_len, data_tag, decimal_value, digits_end, dollar_tag,
    encoding_decodes, is_base64_digit, is_unpadded_base64, key_len, key_tag, lanes, lanes_tag,
    lemma_stop_index_at, memory_kib, memory_tag, passes, passes_tag, salt_len, scan_base64_rest,
    scan_base64_till, scan_literal, scan_number, scan_optional, scan_variant, verification_completes,
    Scan,
};
use crate::text::{all_ascii_bytes, ascii_text, lemma_ascii_bytes_utf8, string_from_ascii};

verus! {

/// Number of salt bytes drawn for every new password hash.
pub const SALT_LEN: usize = 16;

/// Length in bytes of an encoded hash made with the default Argon2i parameters and a
/// salt of `SALT_LEN` bytes: the prefix, 22 base64 digits of salt, `$`, and 43 base64
/// digits of the 32-byte hash.
pub const ENCODED_HASH_LEN: usize = 90;

/// The bytes of `$argon2i$m=4096,t=3,p=1$`, the start of every default Argon2i encoding.
pub open spec fn default_argon2i_prefix() -> Seq<u8> {
    seq![36u8, 97, 114, 103, 111, 110, 50, 105, 36, 109, 61, 52, 48, 57, 54, 44, 116, 61, 51, 44, 112, 61, 49, 36]
}

/// The layout of an encoded hash made with the default Argon2i parameters from a
/// 16-byte salt: the fixed prefix, 22 base64 digits, `$`, 43 base64 digits.
pub open spec fn is_default_argon2i_encoding(bytes: Seq<u8>) -> bool {
    &&& bytes.len() == ENCODED_HASH_LEN
    &&& bytes.subrange(0, 24) == default_argon2i_prefix()
    &&& forall|i: int| 24 <= i < 46 ==> is_base64_digit(#[trigger] bytes[i])
    &&& bytes[46] == 36u8
    &&& forall|i: int| 47 <= i < 90 ==> is_base64_digit(#[trigger] bytes[i])
}

/// The encoding that argon2rs produces for `password` and `salt` with the default
/// Argon2i parameters, no secret key and no associated data.
pub uninterp spec fn argon2i_default_encoding(password: Seq<u8>, salt: Seq<u8>) -> Seq<u8>;

/// Whether argon2rs accepts `password` for the encoded hash `encoding`.
pub uninterp spec fn argon2_encoding_verifies(encoding: Seq<u8>, password: Seq<u8>) -> bool;

/// `hash` is the text of a default Argon2i encoding of `password` (taken as UTF-8)
/// under some 16-byte salt.
pub open spec fn is_password_hash_of(hash: Seq<char>, password: Seq<char>) -> bool {
    exists|salt: Seq<u8>|
        #![trigger argon2i_default_encoding(encode_utf8(password), salt)]
        salt.len() == SALT_LEN && is_default_argon2i_encoding(
            argon2i_default_encoding(encode_utf8(password), salt),
        ) && hash == ascii_text(argon2i_default_encoding(encode_utf8(password), salt))
}

/// `Encoded::default2i(password, salt, &[], &[]).to_u8()` of argon2rs; the two calls
/// share one item because the `Encoded` value between them is opaque here.
/// Claimed: the result is the named encoding of the arguments, and with a 16-byte
/// salt it has the default Argon2i layout (argon2rs formats the fixed parameters
/// and the unpadded base64 of the salt and of the 32-byte hash). The requires keeps
/// out passwords longer than Argon2 accepts, on which `Argon2::hash` panics.
#[verifier::external_body]
fn argon2i_encode(password: &[u8], salt: &[u8; 16]) -> (r: Vec<u8>)
    requires
        password@.len() <= u32::MAX,
    ensures
        r@ == argon2i_default_encoding(password@, salt@),
        is_default_argon2i_encoding(r@),
{
    argon2rs::verifier::Encoded::default2i(password, salt, &[], &[]).to_u8()
}

/// `Encoded::from_u8(encoding)` of argon2rs and, where it gives a session,
/// `Encoded::verify(password)` on it; the two calls share one item because the
/// decoded `Encoded` is opaque here.
/// Claimed: `from_u8` succeeds exactly when `encoding_decodes` holds (its reader, which
/// `encoded` describes, reaches the end and `Argon2::new` accepts the parameters); the
/// verdict is the named one, and a password is accepted by any encoding that
/// `argon2i_encode` made from it (argon2rs decodes the parameters, salt and hash,
/// re-hashes the password with them and compares). Nothing is claimed of other
/// passwords. The requires keeps out the inputs on which the reader or the asserts of
/// `Argon2::hash` panic. Hashing allocates the block matrix of the stated size and
/// starts one thread for each lane; that memory and those threads may be lacking on
/// the machine, of which nothing is said.
#[verifier::external_body]
fn argon2_verify(encoding: &[u8], password: &[u8]) -> (r: Option<bool>)
    requires
        verification_completes(encoding@, password@.len()),
    ensures
        r is Some <==> encoding_decodes(encoding@),
        r matches Some(b) ==> b == argon2_encoding_verifies(encoding@, password@),
        forall|salt: Seq<u8>|
            #![trigger argon2i_default_encoding(password@, salt)]
            salt.len() == SALT_LEN && encoding@ == argon2i_default_encoding(password@, salt) ==> r
                == Some(true),
{
    match argon2rs::verifier::Encoded::from_u8(encoding) {
        Ok(encoded) => Some(encoded.verify(password)),
        Err(_) => None,
    }
}

#[verifier::external_type_specification]
#[verifier::external_body]
pub struct ExRandError(rand_core::Error);

/// `RngCore::try_fill_bytes` on the operating system's generator `rand::rngs::OsRng`.
/// Nothing is claimed of the bytes or of whether it succeeds.
#[verifier::external_body]
fn fill_from_os(buf: &mut [u8; 16]) -> (r: Result<(), rand_core::Error>) {
    rand::rngs::OsRng.try_fill_bytes(buf)
}

/// Draws a fresh salt from the operating system.
pub fn generate_salt() -> (r: Result<[u8; 16], String>)
    ensures
        r matches Err(e) ==> e@ == "Could not allocate randomizer"@,
{
    let mut salt = [0u8; 16];
    match fill_from_os(&mut salt) {
        Ok(()) => Ok(salt),
        Err(_) => Err(String::from_str("Could not allocate randomizer")),
    }
}

/// The stored form of `password` hashed with Argon2i under `salt`.
pub fn hash_password_with_salt(password: &str, salt: &[u8; 16]) -> (r: String)
    requires
        password.spec_bytes().len() <= u32::MAX,
    ensures
        r@ == ascii_text(argon2i_default_encoding(encode_utf8(password@), salt@)),
        is_default_argon2i_encoding(argon2i_default_encoding(encode_utf8(password@), salt@)),
{
    let encoded = argon2i_encode(password.as_bytes(), salt);
    proof {
        lemma_layout_is_ascii(encoded@);
    }
    string_from_ascii(encoded)
}

/// The stored form of `password` given the outcome of drawing a salt: its Argon2i
/// hash under the drawn salt, or the drawing's error.
pub fn hash_password_from_draw(password: &str, drawn: Result<[u8; 16], String>) -> (r: Result<String, String>)
    requires
        password.spec_bytes().len() <= u32::MAX,
    ensures
        drawn matches Ok(salt) ==> (r matches Ok(h) && h@ == ascii_text(
            argon2i_default_encoding(encode_utf8(password@), salt@),
        ) && is_password_hash_of(h@, password@)),
        drawn matches Err(e) ==> (r matches Err(e2) && e2@ == e@),
{
    match drawn {
        Ok(salt) => {
            let h = hash_password_with_salt(password, &salt);
            // the drawn salt witnesses that `h` is a hash of the password
            assert(salt@.len() == SALT_LEN && h@ == ascii_text(
                argon2i_default_encoding(encode_utf8(password@), salt@),
            ));
            Ok(h)
        },
        Err(e) => Err(e),
    }
}

/// Hashes `password` with Argon2i under a fresh random salt, giving the text to store.
pub fn hash_password(password: &str) -> (r: Result<String, String>)
    requires
        password.spec_bytes().len() <= u32::MAX,
    ensures
        r matches Ok(h) ==> is_password_hash_of(h@, password@),
        r matches Err(e) ==> e@ == "Could not allocate randomizer"@,
{
    hash_password_from_draw(password, generate_salt())
}

/// The verdict of `verify_password` for the stored text `hash` and the attempt `password`.
pub open spec fn spec_verify_password(hash: Seq<char>, password: Seq<char>) -> Result<bool, Seq<char>> {
    if encoding_decodes(encode_utf8(hash)) {
        Ok(argon2_encoding_verifies(encode_utf8(hash), encode_utf8(password)))
    } else {
        Err("Could not read password"@)
    }
}

/// Verifying `password` against the stored text `hash` returns rather than panics.
pub open spec fn password_check_completes(hash: Seq<char>, password: Seq<char>) -> bool {
    verification_completes(encode_utf8(hash), encode_utf8(password).len())
}

/// Checks `plaintext_password` against the stored hash `encoded_hash`. A stored text
/// that argon2rs cannot decode gives an error.
pub fn verify_password(encoded_hash: &str, plaintext_password: &str) -> (r: Result<bool, String>)
    requires
        password_check_completes(encoded_hash@, plaintext_password@),
    ensures
        r is Ok == spec_verify_password(encoded_hash@, plaintext_password@) is Ok,
        r matches Ok(b) ==> spec_verify_password(encoded_hash@, plaintext_password@) == Ok::<bool, Seq<char>>(b),
        r matches Err(e) ==> e@ == "Could not read password"@,
        is_password_hash_of(encoded_hash@, plaintext_password@) ==> r == Ok::<bool, String>(true),
{
    let hash_bytes = encoded_hash.as_bytes();
    let verdict = argon2_verify(hash_bytes, plaintext_password.as_bytes());
    proof {
        if is_password_hash_of(encoded_hash@, plaintext_password@) {
            let salt = choose|salt: Seq<u8>|
                #![trigger argon2i_default_encoding(encode_utf8(plaintext_password@), salt)]
                salt.len() == SALT_LEN && is_default_argon2i_encoding(
                    argon2i_default_encoding(encode_utf8(plaintext_password@), salt),
                ) && encoded_hash@ == ascii_text(
                    argon2i_default_encoding(encode_utf8(plaintext_password@), salt),
                );
            let e = argon2i_default_encoding(encode_utf8(plaintext_password@), salt);
            lemma_layout_is_ascii(e);
            lemma_ascii_bytes_utf8(e);
            assert(hash_bytes@ == e);
        }
    }
    match verdict {
        Some(ok) => Ok(ok),
        None => Err(String::from_str("Could not read password")),
    }
}

/// Every hash made from a password can be checked against that password: argon2rs
/// reads it back into a session, verifying does not panic, and `verify_password`
/// gives a verdict rather than an error.
pub proof fn law_password_hash_is_readable(hash: Seq<char>, password: Seq<char>)
    requires
        is_password_hash_of(hash, password),
        encode_utf8(password).len() <= u32::MAX,
    ensures
        encoding_decodes(encode_utf8(hash)),
        password_check_completes(hash, password),
        spec_verify_password(hash, password) is Ok,
{
    lemma_hash_has_layout(hash, password);
    lemma_default_encoding_decodes(encode_utf8(hash));
}

/// A default Argon2i encoding reads back with the default parameters, a 16-byte salt,
/// no key and no data, and verifying a password of at most 2^32 - 1 bytes against it
/// returns.
pub proof fn lemma_default_encoding_decodes(e: Seq<u8>)
    requires
        is_default_argon2i_encoding(e),
    ensures
        encoding_decodes(e),
        memory_kib(e) == 4096,
        passes(e) == 3,
        lanes(e) == 1,
        salt_len(e) == SALT_LEN,
        key_len(e) == 0,
        data_len(e) == 0,
        forall|n: nat| n <= u32::MAX ==> verification_completes(e, n),
{
    reveal(scan_literal);
    reveal(scan_variant);
    reveal(scan_number);
    reveal(scan_optional);
    reveal(scan_base64_till);
    reveal(scan_base64_rest);
    let pre = default_argon2i_prefix();
    assert forall|i: int| 0 <= i < 24 implies e[i] == pre[i] by {
        assert(e.subrange(0, 24)[i] == e[i]);
    }
    assert(e.subrange(0, 7) =~= argon2_tag());
    assert(after_variant(e) == Scan::At(8));
    assert(e.subrange(8, 11) =~= memory_tag());
    assert(at_memory(e) == Scan::At(11));
    reveal_with_fuel(digits_end, 6);
    assert(digits_end(e, 11) == 15);
    assert(e.subrange(11, 15) =~= seq![52u8, 48, 57, 54]);
    reveal_with_fuel(decimal_value, 5);
    assert(seq![52u8, 48, 57, 54].drop_last() =~= seq![52u8, 48, 57]);
    assert(seq![52u8, 48, 57].drop_last() =~= seq![52u8, 48]);
    assert(seq![52u8, 48].drop_last() =~= seq![52u8]);
    assert(seq![52u8].drop_last() =~= Seq::<u8>::empty());
    assert(decimal_value(seq![52u8, 48, 57, 54]) == 4096);
    assert(scan_number(e, at_memory(e)) == Scan::At(15));
    assert(e.subrange(15, 18) =~= passes_tag());
    assert(at_passes(e) == Scan::At(18));
    assert(digits_end(e, 18) == 19);
    assert(e.subrange(18, 19) =~= seq![51u8]);
    assert(seq![51u8].drop_last() =~= Seq::<u8>::empty());
    assert(decimal_value(seq![51u8]) == 3);
    assert(e.subrange(19, 22) =~= lanes_tag());
    assert(at_lanes(e) == Scan::At(22));
    assert(digits_end(e, 22) == 23);
    assert(e.subrange(22, 23) =~= seq![49u8]);
    assert(seq![49u8].drop_last() =~= Seq::<u8>::empty());
    assert(decimal_value(seq![49u8]) == 1);
    assert(after_lanes(e) == Scan::At(23));
    assert(e.subrange(23, 30)[0] != key_tag()[0]);
    assert(after_key(e) == Scan::At(23));
    assert(e.subrange(23, 29)[0] != data_tag()[0]);
    assert(after_data(e) == Scan::At(23));
    assert(e.subrange(23, 24) =~= dollar_tag());
    assert(at_salt(e) == Scan::At(24));
    lemma_stop_index_at(e, 24, 46, 36u8);
    assert(is_unpadded_base64(e.subrange(24, 46)));
    assert(after_salt(e) == Scan::At(46));
    assert(e.subrange(46, 47) =~= dollar_tag());
    assert(is_unpadded_base64(e.subrange(47, 90)));
    assert(after_hash(e) == Scan::At(90));
}

/// A default Argon2i encoding consists of ASCII bytes.
pub proof fn lemma_layout_is_ascii(bytes: Seq<u8>)
    requires
        is_default_argon2i_encoding(bytes),
    ensures
        all_ascii_bytes(bytes),
{
    assert forall|i: int| 0 <= i < bytes.len() implies #[trigger] bytes[i] < 128 by {
        if i < 24 {
            assert(bytes.subrange(0, 24)[i] == default_argon2i_prefix()[i]);
        }
    }
}

/// The UTF-8 bytes of a password hash are its encoding, which has the default layout.
proof fn lemma_hash_has_layout(hash: Seq<char>, password: Seq<char>)
    requires
        is_password_hash_of(hash, password),
    ensures
        is_default_argon2i_encoding(encode_utf8(hash)),
{
    let salt = choose|salt: Seq<u8>|
        #![trigger argon2i_default_encoding(encode_utf8(password), salt)]
        salt.len() == SALT_LEN && is_default_argon2i_encoding(
            argon2i_default_encoding(encode_utf8(password), salt),
        ) && hash == ascii_text(argon2i_default_encoding(encode_utf8(password), salt));
    let e = argon2i_default_encoding(encode_utf8(password), salt);
    lemma_layout_is_ascii(e);
    lemma_ascii_bytes_utf8(e);
}

} // verus!
