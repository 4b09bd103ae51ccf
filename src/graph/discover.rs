//! Extraction of candidate symbol names from free-form type signatures.
use vstd::prelude::*;
use crate::path::{contains, last_segment, lemma_split_nonempty, split_path, str_contains, str_eq, strings_view};

verus! {

/// What `char::is_alphanumeric` returns for a character.
pub uninterp spec fn alphanumeric_of(c: char) -> bool;

/// What `char::is_numeric` returns for a character.
pub uninterp spec fn numeric_of(c: char) -> bool;

/// An ASCII letter or digit.
pub open spec fn ascii_alphanumeric(c: char) -> bool {
    ('a' <= c && c <= 'z') || ('A' <= c && c <= 'Z') || ('0' <= c && c <= '9')
}

/// Relies on `char::is_alphanumeric`: a property of the character alone; among ASCII
/// characters it holds of the letters and digits only.
#[verifier::external_body]
fn char_is_alphanumeric(c: char) -> (r: bool)
    ensures
        r == alphanumeric_of(c),
        (c as u32) < 128 ==> (r <==> ascii_alphanumeric(c)),
{
    c.is_alphanumeric()
}

/// Relies on `char::is_numeric`: a property of the character alone; among ASCII
/// characters it holds of `0` to `9` only.
#[verifier::external_body]
fn char_is_numeric(c: char) -> (r: bool)
    ensures
        r == numeric_of(c),
        (c as u32) < 128 ==> (r <==> ('0' <= c && c <= '9')),
{
    c.is_numeric()
}

/// The characters of Unicode's White_Space property, which `char::is_whitespace` accepts.
pub open spec fn is_white(c: char) -> bool {
    ('\u{9}' <= c && c <= '\u{d}') || c == ' ' || c == '\u{85}' || c == '\u{a0}' || c == '\u{1680}'
        || ('\u{2000}' <= c && c <= '\u{200a}') || c == '\u{2028}' || c == '\u{2029}' || c
        == '\u{202f}' || c == '\u{205f}' || c == '\u{3000}'
}

/// The characters that separate tokens of a type signature.
pub open spec fn is_delim(c: char) -> bool {
    c == '<' || c == '>' || c == ',' || c == '(' || c == ')' || c == '[' || c == ']' || is_white(c)
}

fn is_delim_char(c: char) -> (r: bool)
    ensures
        r == is_delim(c),
{
    c == '<' || c == '>' || c == ',' || c == '(' || c == ')' || c == '[' || c == ']' || ('\u{9}'
        <= c && c <= '\u{d}') || c == ' ' || c == '\u{85}' || c == '\u{a0}' || c == '\u{1680}'
        || ('\u{2000}' <= c && c <= '\u{200a}') || c == '\u{2028}' || c == '\u{2029}' || c
        == '\u{202f}' || c == '\u{205f}' || c == '\u{3000}'
}

pub open spec fn piece(t: Seq<char>) -> Seq<Seq<char>> {
    if t.len() == 0 {
        Seq::empty()
    } else {
        seq![t]
    }
}

/// The non-empty tokens of `s` from position `i` on, the current one begun at `start`.
pub open spec fn tokens_from(s: Seq<char>, start: int, i: int) -> Seq<Seq<char>>
    decreases s.len() - i,
{
    if i >= s.len() {
        piece(s.subrange(start, s.len() as int))
    } else if is_delim(s[i]) {
        piece(s.subrange(start, i)) + tokens_from(s, i + 1, i + 1)
    } else {
        tokens_from(s, start, i + 1)
    }
}

/// The non-empty tokens of a type signature.
pub open spec fn tokens(s: Seq<char>) -> Seq<Seq<char>> {
    tokens_from(s, 0, 0)
}

/// The builtin and prelude names that never need an import.
pub open spec fn is_prelude(t: Seq<char>) -> bool {
    t == "String"@ || t == "i32"@ || t == "u32"@ || t == "i64"@ || t == "u64"@ || t == "bool"@
        || t == "Vec"@ || t == "Option"@ || t == "Result"@ || t == "Box"@ || t == "Arc"@ || t
        == "Rc"@
}

/// Looks like a type name: non-empty, not starting with a digit, only letters, digits and `_`.
pub open spec fn valid_type_name(t: Seq<char>) -> bool {
    &&& t.len() > 0
    &&& !numeric_of(t[0])
    &&& forall|i: int| 0 <= i < t.len() ==> alphanumeric_of(#[trigger] t[i]) || t[i] == '_'
}

/// Made only of `:`, letters, digits and `_`: a plausible qualified path.
pub open spec fn plausible_path(t: Seq<char>) -> bool {
    forall|i: int| 0 <= i < t.len() ==> #[trigger] t[i] == ':' || alphanumeric_of(t[i]) || t[i] == '_'
}

/// The candidate name a token yields: none for a prelude name, the last segment of a
/// plausible qualified path, the token itself otherwise, when it looks like a type name.
pub open spec fn candidate(t: Seq<char>) -> Seq<Seq<char>> {
    if is_prelude(t) {
        Seq::empty()
    } else if contains(t, "::"@) {
        if plausible_path(t) && valid_type_name(last_segment(t)) {
            seq![last_segment(t)]
        } else {
            Seq::empty()
        }
    } else if valid_type_name(t) {
        seq![t]
    } else {
        Seq::empty()
    }
}

pub open spec fn candidates(toks: Seq<Seq<char>>) -> Seq<Seq<char>>
    decreases toks.len(),
{
    if toks.len() == 0 {
        Seq::empty()
    } else {
        candidates(toks.drop_last()) + candidate(toks.last())
    }
}

/// The candidate symbol names of a type signature, in order.
pub open spec fn extract_types(s: Seq<char>) -> Seq<Seq<char>> {
    candidates(tokens(s))
}

pub fn is_prelude_name(t: &str) -> (r: bool)
    ensures
        r == is_prelude(t@),
{
    str_eq(t, "String") || str_eq(t, "i32") || str_eq(t, "u32") || str_eq(t, "i64") || str_eq(
        t,
        "u64",
    ) || str_eq(t, "bool") || str_eq(t, "Vec") || str_eq(t, "Option") || str_eq(t, "Result")
        || str_eq(t, "Box") || str_eq(t, "Arc") || str_eq(t, "Rc")
}

/// Whether `name` looks like a type name.
pub fn is_valid_type_name(name: &str) -> (r: bool)
    ensures
        r == valid_type_name(name@),
{
    let n = name.unicode_len();
    if n == 0 {
        return false;
    }
    if char_is_numeric(name.get_char(0)) {
        return false;
    }
    let mut i: usize = 0;
    while i < n
        invariant
            n == name@.len(),
            i <= n,
            forall|j: int| 0 <= j < i ==> alphanumeric_of(#[trigger] name@[j]) || name@[j] == '_',
        decreases n - i,
    {
        let c = name.get_char(i);
        if !(char_is_alphanumeric(c) || c == '_') {
            return false;
        }
        i = i + 1;
    }
    true
}

fn is_plausible_path(t: &str) -> (r: bool)
    ensures
        r == plausible_path(t@),
{
    let n = t.unicode_len();
    let mut i: usize = 0;
    while i < n
        invariant
            n == t@.len(),
            i <= n,
            forall|j: int| 0 <= j < i ==> #[trigger] t@[j] == ':' || alphanumeric_of(t@[j]) || t@[j] == '_',
        decreases n - i,
    {
        let c = t.get_char(i);
        if !(c == ':' || char_is_alphanumeric(c) || c == '_') {
            return false;
        }
        i = i + 1;
    }
    true
}

fn push_piece(r: &mut Vec<String>, s: &str, start: usize, end: usize)
    requires
        start <= end <= s@.len(),
    ensures
        strings_view(final(r)@) == strings_view(old(r)@) + piece(s@.subrange(start as int, end as int)),
{
    if start < end {
        let t = s.substring_char(start, end).to_owned();
        r.push(t);
        proof {
            assert(strings_view(r@) =~= strings_view(old(r)@) + piece(s@.subrange(start as int, end as int)));
        }
    } else {
        proof {
            assert(strings_view(r@) =~= strings_view(old(r)@) + piece(s@.subrange(start as int, end as int)));
        }
    }
}

/// Splits a type signature into its non-empty tokens.
pub fn tokenize(s: &str) -> (r: Vec<String>)
    ensures
        strings_view(r@) == tokens(s@),
{
    let n = s.unicode_len();
    let mut r: Vec<String> = Vec::new();
    let mut start: usize = 0;
    let mut i: usize = 0;
    proof {
        assert(strings_view(r@) =~= Seq::<Seq<char>>::empty());
    }
    while i < n
        invariant
            n == s@.len(),
            start <= i <= n,
            strings_view(r@) + tokens_from(s@, start as int, i as int) == tokens(s@),
        decreases n - i,
    {
        let c = s.get_char(i);
        if is_delim_char(c) {
            let ghost before = strings_view(r@);
            push_piece(&mut r, s, start, i);
            proof {
                assert(tokens_from(s@, start as int, i as int) == piece(s@.subrange(start as int, i as int))
                    + tokens_from(s@, i + 1, i + 1));
                assert(before + (piece(s@.subrange(start as int, i as int)) + tokens_from(
                    s@,
                    i + 1,
                    i + 1,
                )) == (before + piece(s@.subrange(start as int, i as int))) + tokens_from(
                    s@,
                    i + 1,
                    i + 1,
                ));
            }
            i = i + 1;
            start = i;
        } else {
            i = i + 1;
        }
    }
    let ghost before = strings_view(r@);
    push_piece(&mut r, s, start, n);
    proof {
        assert(tokens_from(s@, start as int, i as int) == piece(s@.subrange(start as int, n as int)));
    }
    r
}

/// The candidate symbol names of a type signature: builtin names dropped, qualified paths
/// reduced to their last segment, what does not look like a type name dropped.
pub fn extract_types_from_string(type_string: &str) -> (r: Vec<String>)
    ensures
        strings_view(r@) == extract_types(type_string@),
{
    let toks = tokenize(type_string);
    let ghost tv = strings_view(toks@);
    let mut r: Vec<String> = Vec::new();
    let mut k: usize = 0;
    proof {
        assert(tv.take(0) =~= Seq::<Seq<char>>::empty());
        assert(strings_view(r@) =~= Seq::<Seq<char>>::empty());
    }
    while k < toks.len()
        invariant
            tv == strings_view(toks@),
            tv == tokens(type_string@),
            k <= toks@.len(),
            strings_view(r@) == candidates(tv.take(k as int)),
        decreases toks@.len() - k,
    {
        let part = toks[k].as_str();
        let ghost before = strings_view(r@);
        proof {
            assert(tv.take(k + 1).drop_last() =~= tv.take(k as int));
            assert(tv.take(k + 1).last() == part@);
        }
        if is_prelude_name(part) {
            proof {
                assert(strings_view(r@) =~= before + candidate(part@));
            }
        } else if str_contains(part, "::") {
            let segs = split_path(part);
            proof {
                lemma_split_nonempty(part@);
            }
            let last = segs[segs.len() - 1].as_str();
            if is_plausible_path(part) && is_valid_type_name(last) {
                r.push(last.to_owned());
            }
            proof {
                assert(strings_view(r@) =~= before + candidate(part@));
            }
        } else {
            if is_valid_type_name(part) {
                r.push(part.to_owned());
            }
            proof {
                assert(strings_view(r@) =~= before + candidate(part@));
            }
        }
        k = k + 1;
    }
    proof {
        assert(tv.take(toks@.len() as int) =~= tv);
    }
    r
}

} // verus!
