//! How argon2rs reads back the text form of a hash session,
//! `$argon2<d|i>$m=<kib>,t=<passes>,p=<lanes>[,keyid=<key>][,data=<data>]$<salt>$<hash>`,
//! with the key, data, salt and hash in unpadded base64: where the reader refuses
//! the text, where it panics, and which parameters it finds.
use vstd::prelude::*;

verus! {

/// Where a reading of an encoded hash stands after a step.
#[derive(Clone, Copy, Debug)]
pub enum Scan {
    /// The reader panicked: it looked at a position past the end of the text.
    Panics,
    /// The reader refused the text.
    Refused,
    /// The reader stands at this byte position.
    At(usize),
}

/// The position a scan stands at, or 0 once it has stopped.
pub open spec fn pos_of(s: Scan) -> int {
    match s {
        Scan::At(p) => p as int,
        _ => 0,
    }
}

/// A digit of the base64 alphabet `A-Z a-z 0-9 + /`.
pub open spec fn is_base64_digit(b: u8) -> bool {
    (65 <= b <= 90) || (97 <= b <= 122) || (48 <= b <= 57) || b == 43 || b == 47
}

/// A decimal digit `0-9`.
pub open spec fn is_decimal_digit(b: u8) -> bool {
    48 <= b <= 57
}

/// The bytes of `$argon2`.
pub open spec fn argon2_tag() -> Seq<u8> {
    seq![36u8, 97, 114, 103, 111, 110, 50]
}

/// The bytes of `$m=`.
pub open spec fn memory_tag() -> Seq<u8> {
    seq![36u8, 109, 61]
}

/// The bytes of `,t=`.
pub open spec fn passes_tag() -> Seq<u8> {
    seq![44u8, 116, 61]
}

/// The bytes of `,p=`.
pub open spec fn lanes_tag() -> Seq<u8> {
    seq![44u8, 112, 61]
}

/// The bytes of `,keyid=`.
pub open spec fn key_tag() -> Seq<u8> {
    seq![44u8, 107, 101, 121, 105, 100, 61]
}

/// The bytes of `,data=`.
pub open spec fn data_tag() -> Seq<u8> {
    seq![44u8, 100, 97, 116, 97, 61]
}

/// The one byte `$`.
pub open spec fn dollar_tag() -> Seq<u8> {
    seq![36u8]
}

/// Expecting the literal `lit`: the reader panics when it already stands at the end,
/// refuses when the next bytes are not `lit`, and otherwise moves past them.
#[verifier::opaque]
pub open spec fn scan_literal(e: Seq<u8>, s: Scan, lit: Seq<u8>) -> Scan {
    match s {
        Scan::At(pos) => if pos >= e.len() {
            Scan::Panics
        } else if pos + lit.len() > e.len() || e.subrange(pos as int, pos + lit.len()) != lit {
            Scan::Refused
        } else {
            Scan::At((pos + lit.len()) as usize)
        },
        _ => s,
    }
}

/// Expecting the variant letter `d` or `i`: the reader panics when it stands at the
/// end of a non-empty text and refuses any other byte.
#[verifier::opaque]
pub open spec fn scan_variant(e: Seq<u8>, s: Scan) -> Scan {
    match s {
        Scan::At(pos) => if e.len() == 0 {
            Scan::Refused
        } else if pos >= e.len() {
            Scan::Panics
        } else if e[pos as int] == 100u8 || e[pos as int] == 105u8 {
            Scan::At((pos + 1) as usize)
        } else {
            Scan::Refused
        },
        _ => s,
    }
}

/// The end of the run of decimal digits that starts at `pos`.
pub open spec fn digits_end(e: Seq<u8>, pos: int) -> int
    decreases e.len() - pos,
{
    if 0 <= pos < e.len() && is_decimal_digit(e[pos]) {
        digits_end(e, pos + 1)
    } else {
        pos
    }
}

/// The number that the decimal digits `d` write.
pub open spec fn decimal_value(d: Seq<u8>) -> nat
    decreases d.len(),
{
    if d.len() == 0 {
        0
    } else {
        decimal_value(d.drop_last()) * 10 + (d.last() - 48) as nat
    }
}

/// The number written by the run of digits at `pos`.
pub open spec fn number_at(e: Seq<u8>, pos: int) -> nat {
    decimal_value(e.subrange(pos, digits_end(e, pos)))
}

/// Reading a `u32`: the run of digits at the position must be non-empty and its
/// number must fit in 32 bits; the reader then moves past it.
#[verifier::opaque]
pub open spec fn scan_number(e: Seq<u8>, s: Scan) -> Scan {
    match s {
        Scan::At(pos) => if digits_end(e, pos as int) == pos || number_at(e, pos as int) > u32::MAX {
            Scan::Refused
        } else {
            Scan::At(digits_end(e, pos as int) as usize)
        },
        _ => s,
    }
}

/// The first position at or after `pos` that holds `stop`, or the end of the text.
pub open spec fn stop_index(e: Seq<u8>, pos: int, stop: u8) -> int
    decreases e.len() - pos,
{
    if 0 <= pos < e.len() && e[pos] != stop {
        stop_index(e, pos + 1, stop)
    } else {
        pos
    }
}

/// Text that argon2rs decodes as unpadded base64: not empty, not one digit more than
/// a multiple of four, and made of base64 digits only.
pub open spec fn is_unpadded_base64(seg: Seq<u8>) -> bool {
    &&& seg.len() > 0
    &&& seg.len() % 4 != 1
    &&& forall|i: int| 0 <= i < seg.len() ==> is_base64_digit(#[trigger] seg[i])
}

/// The number of bytes that `n` digits of unpadded base64 decode to.
pub open spec fn unpadded_base64_len(n: nat) -> nat {
    3 * (n / 4) + if n % 4 == 2 {
        1nat
    } else if n % 4 == 3 {
        2nat
    } else {
        0nat
    }
}

/// Decoding base64 up to the next `stop` byte (or the end): the reader refuses text
/// that does not decode and otherwise moves to that byte.
#[verifier::opaque]
pub open spec fn scan_base64_till(e: Seq<u8>, s: Scan, stop: u8) -> Scan {
    match s {
        Scan::At(pos) => if is_unpadded_base64(e.subrange(pos as int, stop_index(e, pos as int, stop))) {
            Scan::At(stop_index(e, pos as int, stop) as usize)
        } else {
            Scan::Refused
        },
        _ => s,
    }
}

/// Decoding the rest of the text as base64.
#[verifier::opaque]
pub open spec fn scan_base64_rest(e: Seq<u8>, s: Scan) -> Scan {
    match s {
        Scan::At(pos) => if is_unpadded_base64(e.subrange(pos as int, e.len() as int)) {
            Scan::At(e.len() as usize)
        } else {
            Scan::Refused
        },
        _ => s,
    }
}

/// An optional field: where the text goes on with `tag`, the base64 after it up to
/// the next `stop` byte; where it does not, the reader stays where it was. At the end
/// of the text the reader panics.
#[verifier::opaque]
pub open spec fn scan_optional(e: Seq<u8>, s: Scan, tag: Seq<u8>, stop: u8) -> Scan {
    match scan_literal(e, s, tag) {
        Scan::At(q) => scan_base64_till(e, Scan::At(q), stop),
        Scan::Refused => s,
        Scan::Panics => Scan::Panics,
    }
}

/// The reading of `e` up to the variant letter, included.
pub open spec fn after_variant(e: Seq<u8>) -> Scan {
    scan_variant(e, scan_literal(e, Scan::At(0), argon2_tag()))
}

/// The reading up to the memory size.
pub open spec fn at_memory(e: Seq<u8>) -> Scan {
    scan_literal(e, after_variant(e), memory_tag())
}

/// The reading up to the number of passes.
pub open spec fn at_passes(e: Seq<u8>) -> Scan {
    scan_literal(e, scan_number(e, at_memory(e)), passes_tag())
}

/// The reading up to the number of lanes.
pub open spec fn at_lanes(e: Seq<u8>) -> Scan {
    scan_literal(e, scan_number(e, at_passes(e)), lanes_tag())
}

/// The reading up to the optional key.
pub open spec fn after_lanes(e: Seq<u8>) -> Scan {
    scan_number(e, at_lanes(e))
}

/// The reading past the optional key.
pub open spec fn after_key(e: Seq<u8>) -> Scan {
    scan_optional(e, after_lanes(e), key_tag(), 44u8)
}

/// The reading past the optional associated data.
pub open spec fn after_data(e: Seq<u8>) -> Scan {
    scan_optional(e, after_key(e), data_tag(), 36u8)
}

/// The reading up to the salt.
pub open spec fn at_salt(e: Seq<u8>) -> Scan {
    scan_literal(e, after_data(e), dollar_tag())
}

/// The reading past the salt.
pub open spec fn after_salt(e: Seq<u8>) -> Scan {
    scan_base64_till(e, at_salt(e), 36u8)
}

/// The whole reading of `e`: the hash runs from the second `$` to the end.
pub open spec fn after_hash(e: Seq<u8>) -> Scan {
    scan_base64_rest(e, scan_literal(e, after_salt(e), dollar_tag()))
}

/// The memory size in KiB that `e` states.
pub open spec fn memory_kib(e: Seq<u8>) -> nat {
    number_at(e, pos_of(at_memory(e)))
}

/// The number of passes that `e` states.
pub open spec fn passes(e: Seq<u8>) -> nat {
    number_at(e, pos_of(at_passes(e)))
}

/// The number of lanes that `e` states.
pub open spec fn lanes(e: Seq<u8>) -> nat {
    number_at(e, pos_of(at_lanes(e)))
}

/// The length in bytes of the secret key in `e`: 0 where it has none.
pub open spec fn key_len(e: Seq<u8>) -> nat {
    if pos_of(after_key(e)) > pos_of(after_lanes(e)) {
        unpadded_base64_len((pos_of(after_key(e)) - pos_of(after_lanes(e)) - 7) as nat)
    } else {
        0
    }
}

/// The length in bytes of the associated data in `e`: 0 where it has none.
pub open spec fn data_len(e: Seq<u8>) -> nat {
    if pos_of(after_data(e)) > pos_of(after_key(e)) {
        unpadded_base64_len((pos_of(after_data(e)) - pos_of(after_key(e)) - 6) as nat)
    } else {
        0
    }
}

/// The length in bytes of the salt in `e`.
pub open spec fn salt_len(e: Seq<u8>) -> nat {
    unpadded_base64_len((pos_of(after_salt(e)) - pos_of(at_salt(e))) as nat)
}

/// argon2rs panics while reading `e`.
pub open spec fn reading_panics(e: Seq<u8>) -> bool {
    after_hash(e) is Panics
}

/// The parameters that `Argon2::new` accepts: at least one pass, between one and
/// 2^24 - 1 lanes, and at least 8 KiB of memory for each lane.
pub open spec fn accepted_params(kib: nat, passes: nat, lanes: nat) -> bool {
    passes >= 1 && 1 <= lanes <= 0xff_ffff && kib >= 8 * lanes
}

/// `Encoded::from_u8` gives back a hash session for `e`: the reader reaches the end
/// and `Argon2::new` accepts the parameters.
pub open spec fn encoding_decodes(e: Seq<u8>) -> bool {
    after_hash(e) is At && accepted_params(memory_kib(e), passes(e), lanes(e))
}

/// `Encoded::from_u8(e)`, and `verify` with a password of `password_len` bytes on the
/// session it gives, return: the reader does not panic, and a decoded session has a
/// salt of 8 to 2^32 - 1 bytes, a key of at most 32 bytes, data and a password of at
/// most 2^32 - 1 bytes, as `Argon2::hash` asserts.
pub open spec fn verification_completes(e: Seq<u8>, password_len: nat) -> bool {
    &&& !reading_panics(e)
    &&& encoding_decodes(e) ==> {
        &&& password_len <= u32::MAX
        &&& 8 <= salt_len(e) <= u32::MAX
        &&& key_len(e) <= 32
        &&& data_len(e) <= u32::MAX
    }
}

/// The reader's step past the literal `lit`.
fn read_literal(e: &[u8], s: Scan, lit: &[u8]) -> (r: Scan)
    requires
        s matches Scan::At(p) ==> p <= e@.len(),
    ensures
        r is At ==> pos_of(r) == pos_of(s) + lit@.len(),
        s is At && r is At ==> pos_of(s) <= pos_of(r),
        !(s is At) ==> r == s,
        r matches Scan::At(p) ==> p <= e@.len(),
        r == scan_literal(e@, s, lit@),
{
    reveal(scan_literal);
    match s {
        Scan::At(pos) => {
            if pos >= e.len() {
                return Scan::Panics;
            }
            if e.len() - pos < lit.len() {
                return Scan::Refused;
            }
            let mut i: usize = 0;
            while i < lit.len()
                invariant
                    s == Scan::At(pos),
                    pos < e@.len(),
                    pos + lit@.len() <= e.len(),
                    i <= lit@.len(),
                    forall|j: int| 0 <= j < i ==> e@[pos + j] == lit@[j],
                decreases lit.len() - i,
            {
                if e[pos + i] != lit[i] {
                    assert(e@.subrange(pos as int, pos + lit@.len())[i as int] != lit@[i as int]);
                    proof {
                        reveal(scan_literal);
                    }
                    return Scan::Refused;
                }
                i = i + 1;
            }
            assert(e@.subrange(pos as int, pos + lit@.len()) =~= lit@);
            Scan::At(pos + lit.len())
        },
        _ => s,
    }
}

/// The reader's step past the variant letter.
fn read_variant(e: &[u8], s: Scan) -> (r: Scan)
    requires
        s matches Scan::At(p) ==> p <= e@.len(),
    ensures
        s is At && r is At ==> pos_of(s) <= pos_of(r),
        !(s is At) ==> r == s,
        r matches Scan::At(p) ==> p <= e@.len(),
        r == scan_variant(e@, s),
{
    reveal(scan_variant);
    match s {
        Scan::At(pos) => {
            if e.len() == 0 {
                Scan::Refused
            } else if pos >= e.len() {
                Scan::Panics
            } else if e[pos] == 100 || e[pos] == 105 {
                Scan::At(pos + 1)
            } else {
                Scan::Refused
            }
        },
        _ => s,
    }
}

/// The reader's step past a decimal `u32`, with the number read.
fn read_number(e: &[u8], s: Scan) -> (r: (Scan, u32))
    requires
        s matches Scan::At(p) ==> p <= e@.len(),
    ensures
        s is At && r.0 is At ==> pos_of(s) <= pos_of(r.0),
        !(s is At) ==> r.0 == s,
        r.0 matches Scan::At(p) ==> p <= e@.len(),
        r.0 == scan_number(e@, s),
        r.0 is At ==> r.1 == number_at(e@, pos_of(s)),
{
    reveal(scan_number);
    match s {
        Scan::At(pos) => {
            let mut end: usize = pos;
            let mut value: u64 = 0;
            proof {
                assert(e@.subrange(pos as int, pos as int) =~= Seq::<u8>::empty());
            }
            while end < e.len() && 48 <= e[end] && e[end] <= 57
                invariant
                    s == Scan::At(pos),
                    pos <= end <= e@.len(),
                    value <= u32::MAX,
                    value == decimal_value(e@.subrange(pos as int, end as int)),
                    digits_end(e@, pos as int) == digits_end(e@, end as int),
                decreases e.len() - end,
            {
                let d = e[end];
                proof {
                    assert(e@.subrange(pos as int, end + 1).drop_last() =~= e@.subrange(pos as int, end as int));
                    lemma_digits_end_bounds(e@, end as int + 1);
                }
                value = value * 10 + (d - 48) as u64;
                end = end + 1;
                if value > 0xffff_ffff {
                    proof {
                        let full = e@.subrange(pos as int, digits_end(e@, pos as int));
                        assert(full.subrange(0, end - pos) =~= e@.subrange(pos as int, end as int));
                        lemma_decimal_prefix_le(full, end - pos);
                        reveal(scan_number);
                    }
                    return (Scan::Refused, 0);
                }
            }
            if end == pos {
                (Scan::Refused, 0)
            } else {
                (Scan::At(end), value as u32)
            }
        },
        _ => (s, 0),
    }
}

/// The reader's step over base64 from `pos` up to the first `stop` byte at or after
/// it, or to the end of the text when `stop` is `None`.
fn read_base64(e: &[u8], s: Scan, stop: Option<u8>) -> (r: Scan)
    requires
        s matches Scan::At(p) ==> p <= e@.len(),
    ensures
        s is At && r is At ==> pos_of(s) <= pos_of(r),
        !(s is At) ==> r == s,
        r matches Scan::At(p) ==> p <= e@.len(),
        r == match stop {
            Some(c) => scan_base64_till(e@, s, c),
            None => scan_base64_rest(e@, s),
        },
{
    reveal(scan_base64_till);
    reveal(scan_base64_rest);
    match s {
        Scan::At(pos) => {
            let mut end: usize = pos;
            let mut digits_ok: bool = true;
            while end < e.len() && (stop.is_none() || e[end] != stop.unwrap())
                invariant
                    s == Scan::At(pos),
                    pos <= end <= e@.len(),
                    stop matches Some(c) ==> stop_index(e@, pos as int, c) == stop_index(e@, end as int, c),
                    digits_ok == (forall|j: int| pos <= j < end ==> is_base64_digit(#[trigger] e@[j])),
                decreases e.len() - end,
            {
                let b = e[end];
                if !((65 <= b && b <= 90) || (97 <= b && b <= 122) || (48 <= b && b <= 57) || b == 43 || b == 47) {
                    digits_ok = false;
                }
                end = end + 1;
            }
            let seg = Ghost(e@.subrange(pos as int, end as int));
            let len = end - pos;
            if digits_ok && len > 0 && len % 4 != 1 {
                assert(is_unpadded_base64(seg@)) by {
                    assert forall|i: int| 0 <= i < seg@.len() implies is_base64_digit(#[trigger] seg@[i]) by {
                        assert(seg@[i] == e@[pos + i]);
                    }
                }
                Scan::At(end)
            } else {
                proof {
                    if !digits_ok {
                        let j = choose|j: int| pos <= j < end && !is_base64_digit(#[trigger] e@[j]);
                        assert(seg@[j - pos] == e@[j]);
                    }
                }
                Scan::Refused
            }
        },
        _ => s,
    }
}

/// The reader's step over an optional field.
fn read_optional(e: &[u8], s: Scan, tag: &[u8], stop: u8) -> (r: Scan)
    requires
        s matches Scan::At(p) ==> p <= e@.len(),
    ensures
        s is At && r is At && pos_of(r) != pos_of(s) ==> pos_of(r) >= pos_of(s) + tag@.len(),
        s is At && r is At ==> pos_of(s) <= pos_of(r),
        !(s is At) ==> r == s,
        r matches Scan::At(p) ==> p <= e@.len(),
        r == scan_optional(e@, s, tag@, stop),
{
    reveal(scan_optional);
    reveal(scan_base64_till);
    reveal(scan_literal);
    match read_literal(e, s, tag) {
        Scan::At(q) => read_base64(e, Scan::At(q), Some(stop)),
        Scan::Refused => s,
        Scan::Panics => Scan::Panics,
    }
}

/// The number of bytes that `n` digits of unpadded base64 decode to.
fn base64_decoded_len(n: usize) -> (r: usize)
    ensures
        r == unpadded_base64_len(n as nat),
{
    let q = n / 4;
    let rem = n % 4;
    assert(3 * q <= n) by (nonlinear_arith)
        requires
            q == n / 4,
    ;
    let tail: usize = if rem == 2 {
        1
    } else if rem == 3 {
        2
    } else {
        0
    };
    assert(3 * q + tail <= n) by (nonlinear_arith)
        requires
            q == n / 4,
            rem == n % 4,
            tail <= 2,
            rem == 2 ==> tail == 1,
            rem == 3 ==> tail == 2,
            rem < 2 ==> tail == 0,
    ;
    3 * q + tail
}

/// Whether `Encoded::from_u8(encoding)` and `verify` with a password of
/// `password_len` bytes return, rather than panic.
pub fn argon2_verification_completes(encoding: &[u8], password_len: usize) -> (r: bool)
    ensures
        r == verification_completes(encoding@, password_len as nat),
{
    let e = encoding;
    let argon2: [u8; 7] = [36, 97, 114, 103, 111, 110, 50];
    let memory: [u8; 3] = [36, 109, 61];
    let passes_: [u8; 3] = [44, 116, 61];
    let lanes_: [u8; 3] = [44, 112, 61];
    let key: [u8; 7] = [44, 107, 101, 121, 105, 100, 61];
    let data: [u8; 6] = [44, 100, 97, 116, 97, 61];
    let dollar: [u8; 1] = [36];
    assert(argon2@ == argon2_tag() && memory@ == memory_tag() && passes_@ == passes_tag());
    assert(lanes_@ == lanes_tag() && key@ == key_tag() && data@ == data_tag() && dollar@ == dollar_tag());
    let s = read_literal(e, Scan::At(0), &argon2);
    let s = read_variant(e, s);
    let at_m = read_literal(e, s, &memory);
    let (s, kib) = read_number(e, at_m);
    let at_t = read_literal(e, s, &passes_);
    let (s, t) = read_number(e, at_t);
    let at_p = read_literal(e, s, &lanes_);
    let (after_p, p) = read_number(e, at_p);
    let after_k = read_optional(e, after_p, &key, 44);
    let after_x = read_optional(e, after_k, &data, 36);
    let at_s = read_literal(e, after_x, &dollar);
    let after_s = read_base64(e, at_s, Some(36));
    let at_h = read_literal(e, after_s, &dollar);
    let end = read_base64(e, at_h, None);
    match end {
        Scan::Panics => false,
        Scan::Refused => true,
        Scan::At(_) => {
            let accepted = t >= 1 && 1 <= p && p <= 0xff_ffff && kib as u64 >= 8 * p as u64;
            if !accepted {
                return true;
            }
            let (Scan::At(lp), Scan::At(kp), Scan::At(xp), Scan::At(sp0), Scan::At(sp1)) = (
                after_p,
                after_k,
                after_x,
                at_s,
                after_s,
            ) else {
                return true;
            };
            let key_bytes = if kp > lp {
                base64_decoded_len(kp - lp - 7)
            } else {
                0
            };
            let data_bytes = if xp > kp {
                base64_decoded_len(xp - kp - 6)
            } else {
                0
            };
            let salt_bytes = base64_decoded_len(sp1 - sp0);
            password_len as u64 <= 0xffff_ffff && 8 <= salt_bytes && salt_bytes as u64 <= 0xffff_ffff
                && key_bytes <= 32 && data_bytes as u64 <= 0xffff_ffff
        },
    }
}

/// Where every byte from `pos` up to `end` differs from `stop`, and `end` is the end
/// of the text or holds `stop`, the search for `stop` from `pos` ends at `end`.
pub proof fn lemma_stop_index_at(e: Seq<u8>, pos: int, end: int, stop: u8)
    requires
        0 <= pos <= end <= e.len(),
        forall|j: int| pos <= j < end ==> e[j] != stop,
        end == e.len() || e[end] == stop,
    ensures
        stop_index(e, pos, stop) == end,
    decreases end - pos,
{
    if pos < end {
        lemma_stop_index_at(e, pos + 1, end, stop);
    }
}

/// The run of digits at `pos` ends at or after `pos`, and not past the end.
proof fn lemma_digits_end_bounds(e: Seq<u8>, pos: int)
    requires
        0 <= pos <= e.len(),
    ensures
        pos <= digits_end(e, pos) <= e.len(),
    decreases e.len() - pos,
{
    if pos < e.len() && is_decimal_digit(e[pos]) {
        lemma_digits_end_bounds(e, pos + 1);
    }
}

/// A prefix of a run of digits writes no larger number than the whole run.
proof fn lemma_decimal_prefix_le(d: Seq<u8>, k: int)
    requires
        0 <= k <= d.len(),
    ensures
        decimal_value(d.subrange(0, k)) <= decimal_value(d),
    decreases d.len(),
{
    if k == d.len() {
        assert(d.subrange(0, k) =~= d);
    } else {
        lemma_decimal_prefix_le(d.drop_last(), k);
        assert(d.drop_last().subrange(0, k) =~= d.subrange(0, k));
    }
}

} // verus!
