//! Text helpers shared by the rest of the library: UTF-8 decoding, case folding,
//! and comparison of string slices by their characters.
use vstd::prelude::*;
use vstd::string::*;
use vstd::utf8::*;

verus! {

broadcast use vstd::string::group_string_axioms;

/// The characters whose code points are the given bytes, one character per byte.
pub open spec fn ascii_text(bytes: Seq<u8>) -> Seq<char> {
    Seq::new(bytes.len(), |i: int| bytes[i] as char)
}

/// Every byte is below 128.
pub open spec fn all_ascii_bytes(bytes: Seq<u8>) -> bool {
    forall|i: int| 0 <= i < bytes.len() ==> #[trigger] bytes[i] < 128
}

/// ASCII bytes are their own UTF-8 encoding: they form valid UTF-8 and decode to
/// one character per byte.
pub proof fn lemma_ascii_bytes_utf8(bytes: Seq<u8>)
    requires
        all_ascii_bytes(bytes),
    ensures
        is_ascii_chars(ascii_text(bytes)),
        encode_utf8(ascii_text(bytes)) == bytes,
        valid_utf8(bytes),
        decode_utf8(bytes) == ascii_text(bytes),
{
    let text = ascii_text(bytes);
    assert forall|i: int| 0 <= i < text.len() implies '\0' <= #[trigger] text[i] <= '\u{7f}' by {
        assert(bytes[i] < 128);
    }
    assert(is_ascii_chars(text));
    is_ascii_chars_encode_utf8(text);
    assert forall|i: int| 0 <= i < bytes.len() implies #[trigger] encode_utf8(text)[i] == bytes[i] by {
        assert(text[i] as u8 == encode_utf8(text)[i]);
        let b = bytes[i];
        assert(((b as char) as u8) == b);
    }
    assert(encode_utf8(text) =~= bytes);
    encode_utf8_valid_utf8(text);
    encode_utf8_decode_utf8(text);
}

/// The case-folded form that `str::to_lowercase` gives for a text.
pub uninterp spec fn lowercase(text: Seq<char>) -> Seq<char>;

/// A text of ASCII characters with the letters `A-Z` turned into `a-z`.
pub open spec fn ascii_lowercase(text: Seq<char>) -> Seq<char> {
    Seq::new(
        text.len(),
        |i: int|
            if 'A' <= text[i] <= 'Z' {
                ((text[i] as u32) + 32) as char
            } else {
                text[i]
            },
    )
}

/// `str::to_lowercase`: the contract names the result (Unicode lower-casing of the
/// whole text) and, as the standard library documents by the Unicode lowercase
/// mapping, says that a text of ASCII characters has its letters `A-Z` turned into
/// `a-z` and keeps the rest. Nothing is claimed of other characters.
#[verifier::external_body]
pub(crate) fn to_lowercase(text: &str) -> (r: String)
    ensures
        r@ == lowercase(text@),
        is_ascii_chars(text@) ==> r@ == ascii_lowercase(text@),
{
    text.to_lowercase()
}

#[verifier::external_type_specification]
#[verifier::external_body]
pub struct ExFromUtf8Error(std::string::FromUtf8Error);

/// `String::from_utf8`: succeeds exactly on valid UTF-8, and then holds the decoded
/// characters, as the standard library documents.
#[verifier::external_body]
pub(crate) fn string_from_utf8(bytes: Vec<u8>) -> (r: Result<String, std::string::FromUtf8Error>)
    ensures
        r is Ok <==> valid_utf8(bytes@),
        r matches Ok(s) ==> s@ == decode_utf8(bytes@),
{
    String::from_utf8(bytes)
}

/// Builds a `String` from ASCII bytes.
pub fn string_from_ascii(bytes: Vec<u8>) -> (r: String)
    requires
        all_ascii_bytes(bytes@),
    ensures
        r@ == ascii_text(bytes@),
{
    proof {
        lemma_ascii_bytes_utf8(bytes@);
    }
    match string_from_utf8(bytes) {
        Ok(s) => s,
        Err(_) => {
            proof {
                assert(false);
            }
            String::new()
        },
    }
}

/// Whether two texts hold the same characters.
pub fn same_text(a: &str, b: &str) -> (r: bool)
    ensures
        r == (a@ == b@),
{
    let x = chars_of(a);
    let y = chars_of(b);
    if x.len() != y.len() {
        return false;
    }
    let mut i: usize = 0;
    while i < x.len()
        invariant
            x@ == a@,
            y@ == b@,
            x@.len() == y@.len(),
            i <= x@.len(),
            forall|j: int| 0 <= j < i ==> a@[j] == b@[j],
        decreases x.len() - i,
    {
        if x[i] != y[i] {
            return false;
        }
        i = i + 1;
    }
    assert(a@ =~= b@);
    true
}

/// The characters of `text`, in order.
pub fn chars_of(text: &str) -> (v: Vec<char>)
    ensures
        v@ == text@,
{
    let mut v: Vec<char> = Vec::new();
    for c in it: text.chars()
        invariant
            v@ == it.seq().take(it.index() as int),
    {
        v.push(c);
    }
    v
}

/// `String::push`: appends one character.
#[verifier::external_body]
pub(crate) fn push_char(s: &mut String, c: char)
    ensures
        final(s)@ == old(s)@.push(c),
{
    s.push(c);
}

} // verus!
