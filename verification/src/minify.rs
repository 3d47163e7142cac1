//! Whitespace stripping for the service's style sheets and page templates.
use vstd::prelude::*;
use vstd::string::*;
use vstd::utf8::*;
use crate::text::{chars_of, push_char, same_text};

verus! {

/// `text` with every occurrence of `pat` replaced by `rep`, scanning from the left
/// and resuming after each replaced occurrence, as `str::replace` does.
pub open spec fn replace_all(text: Seq<char>, pat: Seq<char>, rep: Seq<char>) -> Seq<char>
    decreases text.len(),
{
    if pat.len() == 0 || text.len() < pat.len() {
        text
    } else if text.take(pat.len() as int) == pat {
        rep + replace_all(text.skip(pat.len() as int), pat, rep)
    } else {
        seq![text[0]] + replace_all(text.skip(1), pat, rep)
    }
}

/// Whether `pat` occurs in `v` at position `i`.
fn occurs_at(v: &Vec<char>, i: usize, pat: &Vec<char>) -> (r: bool)
    requires
        i <= v.len(),
    ensures
        r == (i + pat.len() <= v.len() && v@.subrange(i as int, i + pat.len()) == pat@),
{
    if pat.len() > v.len() - i {
        return false;
    }
    let mut k: usize = 0;
    while k < pat.len()
        invariant
            i + pat.len() <= v.len(),
            k <= pat.len(),
            forall|j: int| 0 <= j < k ==> v@[i + j] == pat@[j],
        decreases pat.len() - k,
    {
        if v[i + k] != pat[k] {
            assert(v@.subrange(i as int, i + pat.len())[k as int] != pat@[k as int]);
            return false;
        }
        k = k + 1;
    }
    assert(v@.subrange(i as int, i + pat.len()) =~= pat@);
    true
}

/// Replaces every occurrence of `pat` in `text` by `rep`, like `str::replace`.
pub fn replace(text: &str, pat: &str, rep: &str) -> (r: String)
    requires
        pat@.len() > 0,
    ensures
        r@ == replace_all(text@, pat@, rep@),
{
    let v = chars_of(text);
    let p = chars_of(pat);
    let mut out = String::new();
    let mut i: usize = 0;
    assert(v@.skip(0) =~= v@);
    while i < v.len()
        invariant
            v@ == text@,
            p@ == pat@,
            p@.len() > 0,
            i <= v.len(),
            out@ + replace_all(v@.skip(i as int), p@, rep@) == replace_all(v@, p@, rep@),
        decreases v.len() - i,
    {
        let ghost rest = v@.skip(i as int);
        if occurs_at(&v, i, &p) {
            assert(rest.take(p@.len() as int) =~= v@.subrange(i as int, i + p@.len()));
            assert(rest.skip(p@.len() as int) =~= v@.skip(i + p@.len()));
            out.append(rep);
            assert(out@ + replace_all(v@.skip(i + p@.len()), p@, rep@) =~= replace_all(v@, p@, rep@));
            i = i + p.len();
        } else {
            proof {
                if rest.len() >= p@.len() {
                    assert(rest.take(p@.len() as int) =~= v@.subrange(i as int, i + p@.len()));
                }
            }
            assert(rest.skip(1) =~= v@.skip(i + 1));
            push_char(&mut out, v[i]);
            assert(out@ + replace_all(v@.skip(i + 1), p@, rep@) =~= replace_all(v@, p@, rep@));
            i = i + 1;
        }
    }
    assert(v@.skip(i as int) =~= Seq::<char>::empty());
    out
}


/// Whether `pat` occurs somewhere in `text`.
pub open spec fn occurs_in(text: Seq<char>, pat: Seq<char>) -> bool {
    exists|i: int| 0 <= i && i + pat.len() <= text.len() && #[trigger] text.subrange(i, i + pat.len()) == pat
}

/// Whether `pat` occurs in `text`, like `str::contains`.
pub fn contains_text(text: &str, pat: &str) -> (r: bool)
    ensures
        r == occurs_in(text@, pat@),
{
    let v = chars_of(text);
    let p = chars_of(pat);
    let mut i: usize = 0;
    while i < v.len()
        invariant
            v@ == text@,
            p@ == pat@,
            i <= v.len(),
            forall|j: int| 0 <= j < i && j + p@.len() <= v@.len() ==> #[trigger] v@.subrange(j, j + p@.len()) != p@,
        decreases v.len() - i,
    {
        if occurs_at(&v, i, &p) {
            return true;
        }
        i = i + 1;
    }
    if occurs_at(&v, i, &p) {
        return true;
    }
    assert forall|j: int| 0 <= j && j + pat@.len() <= text@.len() implies #[trigger] text@.subrange(j, j + pat@.len()) != pat@ by {
        assert(j < i || j == i);
    }
    false
}

/// Four spaces: one level of indentation in the sources.
pub open spec fn indent() -> Seq<char> {
    seq![' ', ' ', ' ', ' ']
}

/// What `minify_css` makes of a style sheet: indentation and line breaks removed, and
/// the space after each colon dropped.
pub open spec fn spec_minify_css(content: Seq<char>) -> Seq<char> {
    replace_all(
        replace_all(replace_all(content, indent(), seq![]), seq!['\n'], seq![]),
        seq![':', ' '],
        seq![':'],
    )
}

/// What `minify_html` makes of a page template: indentation and line breaks removed.
pub open spec fn spec_minify_html(content: Seq<char>) -> Seq<char> {
    replace_all(replace_all(content, indent(), seq![]), seq!['\n'], seq![])
}

/// Minifies the text of a style sheet.
pub fn minify_css(content: &str) -> (r: String)
    ensures
        r@ == spec_minify_css(content@),
{
    proof {
        reveal_strlit("    ");
        reveal_strlit("");
        reveal_strlit("\n");
        reveal_strlit(": ");
        reveal_strlit(":");
        assert("    "@ =~= indent());
        assert(""@ =~= Seq::<char>::empty());
        assert("\n"@ =~= seq!['\n']);
        assert(": "@ =~= seq![':', ' ']);
        assert(":"@ =~= seq![':']);
    }
    let step1 = replace(content, "    ", "");
    let step2 = replace(step1.as_str(), "\n", "");
    replace(step2.as_str(), ": ", ":")
}

/// Minifies the text of a page template.
pub fn minify_html(content: &str) -> (r: String)
    ensures
        r@ == spec_minify_html(content@),
{
    proof {
        reveal_strlit("    ");
        reveal_strlit("");
        reveal_strlit("\n");
        assert("    "@ =~= indent());
        assert(""@ =~= Seq::<char>::empty());
        assert("\n"@ =~= seq!['\n']);
    }
    let step1 = replace(content, "    ", "");
    replace(step1.as_str(), "\n", "")
}

/// The path of the minified copy of a template: the last eight bytes of the source
/// path (`html.hbs`) give way to `min.html.hbs`.
pub fn minified_html_path(source: &str) -> (r: String)
    requires
        8 <= source.spec_bytes().len() <= usize::MAX,
        is_char_boundary(source.spec_bytes(), source.spec_bytes().len() - 8),
    ensures
        r@ == decode_utf8(source.spec_bytes().subrange(0, source.spec_bytes().len() - 8))
            + "min.html.hbs"@,
{
    let cut: usize = source.len() - 8;
    let (head, _tail) = source.split_at(cut);
    proof {
        encode_utf8_decode_utf8(head@);
    }
    let mut r = String::from_str(head);
    r.append("min.html.hbs");
    r
}

/// Which minifier a file is given to.
#[derive(Debug, Clone, Copy, PartialEq, Eq, Structural)]
pub enum MinifyKind {
    /// A `.css` style sheet.
    Stylesheet,
    /// A `.hbs` page template.
    Template,
}

/// Which minifier handles the file at `path` with extension `extension`: none for
/// files that are already minified (their path holds `.min.`), the style sheet
/// minifier for `css`, the template minifier for `hbs`, and none otherwise.
pub fn minify_kind(path: &str, extension: Option<&str>) -> (r: Option<MinifyKind>)
    ensures
        occurs_in(path@, ".min."@) ==> r is None,
        !occurs_in(path@, ".min."@) ==> r == match extension {
            Some(e) => if e@ == "css"@ {
                Some(MinifyKind::Stylesheet)
            } else if e@ == "hbs"@ {
                Some(MinifyKind::Template)
            } else {
                None
            },
            None => None,
        },
{
    if contains_text(path, ".min.") {
        return None;
    }
    match extension {
        Some(e) => if same_text(e, "css") {
            Some(MinifyKind::Stylesheet)
        } else if same_text(e, "hbs") {
            Some(MinifyKind::Template)
        } else {
            None
        },
        None => None,
    }
}

/// A replacement whose replacement text lacks `c` leaves no `c` behind where the
/// text had none.
pub proof fn lemma_replace_keeps_absent(text: Seq<char>, pat: Seq<char>, rep: Seq<char>, c: char)
    requires
        !text.contains(c),
        !rep.contains(c),
    ensures
        !replace_all(text, pat, rep).contains(c),
    decreases text.len(),
{
    if pat.len() == 0 || text.len() < pat.len() {
    } else if text.take(pat.len() as int) == pat {
        let rest = text.skip(pat.len() as int);
        assert(!rest.contains(c)) by {
            if rest.contains(c) {
                let k: int = choose|k: int| 0 <= k < rest.len() && rest[k] == c;
                assert(text[k + pat.len()] == c);
            }
        }
        lemma_replace_keeps_absent(rest, pat, rep, c);
        let out = replace_all(text, pat, rep);
        assert(out == rep + replace_all(rest, pat, rep));
        assert(!out.contains(c)) by {
            if out.contains(c) {
                let k: int = choose|k: int| 0 <= k < out.len() && out[k] == c;
                if k < rep.len() {
                    assert(rep[k] == c);
                } else {
                    assert(replace_all(rest, pat, rep)[k - rep.len()] == c);
                }
            }
        }
    } else {
        let rest = text.skip(1);
        assert(!rest.contains(c)) by {
            if rest.contains(c) {
                let k: int = choose|k: int| 0 <= k < rest.len() && rest[k] == c;
                assert(text[k + 1] == c);
            }
        }
        lemma_replace_keeps_absent(rest, pat, rep, c);
        let out = replace_all(text, pat, rep);
        assert(out == seq![text[0]] + replace_all(rest, pat, rep));
        assert(!out.contains(c)) by {
            if out.contains(c) {
                let k: int = choose|k: int| 0 <= k < out.len() && out[k] == c;
                if k == 0 {
                    assert(text[0] == c);
                } else {
                    assert(replace_all(rest, pat, rep)[k - 1] == c);
                }
            }
        }
    }
}

/// Replacing a single character by text that lacks it removes that character.
pub proof fn lemma_replace_removes_char(text: Seq<char>, c: char, rep: Seq<char>)
    requires
        !rep.contains(c),
    ensures
        !replace_all(text, seq![c], rep).contains(c),
    decreases text.len(),
{
    let pat = seq![c];
    if text.len() < 1 {
    } else if text.take(1) == pat {
        let rest = text.skip(1);
        lemma_replace_removes_char(rest, c, rep);
        let out = replace_all(text, pat, rep);
        assert(out == rep + replace_all(rest, pat, rep));
        assert(!out.contains(c)) by {
            if out.contains(c) {
                let k: int = choose|k: int| 0 <= k < out.len() && out[k] == c;
                if k < rep.len() {
                    assert(rep[k] == c);
                } else {
                    assert(replace_all(rest, pat, rep)[k - rep.len()] == c);
                }
            }
        }
    } else {
        let rest = text.skip(1);
        assert(text[0] != c) by {
            if text[0] == c {
                assert(text.take(1) =~= pat);
            }
        }
        lemma_replace_removes_char(rest, c, rep);
        let out = replace_all(text, pat, rep);
        assert(out == seq![text[0]] + replace_all(rest, pat, rep));
        assert(!out.contains(c)) by {
            if out.contains(c) {
                let k: int = choose|k: int| 0 <= k < out.len() && out[k] == c;
                if k != 0 {
                    assert(replace_all(rest, pat, rep)[k - 1] == c);
                }
            }
        }
    }
}

/// A replacement by text no longer than the pattern never lengthens the text.
pub proof fn lemma_replace_never_grows(text: Seq<char>, pat: Seq<char>, rep: Seq<char>)
    requires
        rep.len() <= pat.len(),
    ensures
        replace_all(text, pat, rep).len() <= text.len(),
    decreases text.len(),
{
    if pat.len() == 0 || text.len() < pat.len() {
    } else if text.take(pat.len() as int) == pat {
        lemma_replace_never_grows(text.skip(pat.len() as int), pat, rep);
    } else {
        lemma_replace_never_grows(text.skip(1), pat, rep);
    }
}

/// Replacing a pattern that does not occur leaves the text as it is.
pub proof fn law_replace_without_occurrence_is_identity(text: Seq<char>, pat: Seq<char>, rep: Seq<char>)
    requires
        !occurs_in(text, pat),
    ensures
        replace_all(text, pat, rep) == text,
    decreases text.len(),
{
    if pat.len() == 0 || text.len() < pat.len() {
    } else if text.take(pat.len() as int) == pat {
        assert(text.subrange(0int, 0int + pat.len()) == pat);
        assert(occurs_in(text, pat));
    } else {
        let rest = text.skip(1);
        assert(!occurs_in(rest, pat)) by {
            if occurs_in(rest, pat) {
                let k: int = choose|k: int| 0 <= k && k + pat.len() <= rest.len() && #[trigger] rest.subrange(k, k + pat.len()) == pat;
                assert(text.subrange(k + 1, k + 1 + pat.len()) =~= rest.subrange(k, k + pat.len()));
            }
        }
        law_replace_without_occurrence_is_identity(rest, pat, rep);
        assert(seq![text[0]] + rest =~= text);
    }
}

/// A minified style sheet holds no line break and is never longer than its source.
pub proof fn law_minified_css_is_one_line(content: Seq<char>)
    ensures
        !spec_minify_css(content).contains('\n'),
        spec_minify_css(content).len() <= content.len(),
{
    let step1 = replace_all(content, indent(), seq![]);
    let step2 = replace_all(step1, seq!['\n'], seq![]);
    lemma_replace_removes_char(step1, '\n', seq![]);
    assert(!seq![':'].contains('\n')) by {
        if seq![':'].contains('\n') {
            assert(seq![':'][0] == '\n');
        }
    }
    lemma_replace_keeps_absent(step2, seq![':', ' '], seq![':'], '\n');
    lemma_replace_never_grows(content, indent(), seq![]);
    lemma_replace_never_grows(step1, seq!['\n'], seq![]);
    lemma_replace_never_grows(step2, seq![':', ' '], seq![':']);
}

/// A minified template holds no line break and is never longer than its source.
pub proof fn law_minified_html_is_one_line(content: Seq<char>)
    ensures
        !spec_minify_html(content).contains('\n'),
        spec_minify_html(content).len() <= content.len(),
{
    let step1 = replace_all(content, indent(), seq![]);
    lemma_replace_removes_char(step1, '\n', seq![]);
    lemma_replace_never_grows(content, indent(), seq![]);
    lemma_replace_never_grows(step1, seq!['\n'], seq![]);
}

} // verus!
