//! Hierarchical paths: segments separated by `::`.
use vstd::prelude::*;

verus! {

/// What `str::to_lowercase` returns for a string.
pub uninterp spec fn lower_of(s: Seq<char>) -> Seq<char>;

/// Relies on `str::to_lowercase`: the result depends on the characters alone.
#[verifier::external_body]
pub fn to_lower(s: &str) -> (r: String)
    ensures
        r@ == lower_of(s@),
{
    s.to_lowercase()
}

/// A separator `::` starts at `i`.
pub open spec fn sep_at(s: Seq<char>, i: int) -> bool {
    0 <= i && i + 1 < s.len() && s[i] == ':' && s[i + 1] == ':'
}

/// The segments of `s` from position `i` on, the current segment having begun at `start`;
/// each separator is the leftmost one not yet consumed.
pub open spec fn split_from(s: Seq<char>, start: int, i: int) -> Seq<Seq<char>>
    decreases s.len() - i,
{
    if i >= s.len() {
        seq![s.subrange(start, s.len() as int)]
    } else if sep_at(s, i) {
        seq![s.subrange(start, i)] + split_from(s, i + 2, i + 2)
    } else {
        split_from(s, start, i + 1)
    }
}

/// The segments of `s` between separators `::`, as `str::split("::")` gives them.
pub open spec fn split_sep(s: Seq<char>) -> Seq<Seq<char>> {
    split_from(s, 0, 0)
}

/// The segments joined with `::`.
pub open spec fn join_sep(segs: Seq<Seq<char>>) -> Seq<char>
    decreases segs.len(),
{
    if segs.len() == 0 {
        Seq::empty()
    } else if segs.len() == 1 {
        segs[0]
    } else {
        join_sep(segs.drop_last()) + "::"@ + segs.last()
    }
}

/// The last segment of a path.
pub open spec fn last_segment(s: Seq<char>) -> Seq<char> {
    split_sep(s).last()
}

pub open spec fn starts_with(s: Seq<char>, p: Seq<char>) -> bool {
    p.len() <= s.len() && s.subrange(0, p.len() as int) == p
}

pub open spec fn ends_with(s: Seq<char>, p: Seq<char>) -> bool {
    p.len() <= s.len() && s.subrange(s.len() - p.len(), s.len() as int) == p
}

pub open spec fn strings_view(v: Seq<String>) -> Seq<Seq<char>> {
    v.map_values(|x: String| x@)
}

/// The parts joined end to end.
pub open spec fn concat_all(parts: Seq<Seq<char>>) -> Seq<char>
    decreases parts.len(),
{
    if parts.len() == 0 {
        Seq::empty()
    } else {
        concat_all(parts.drop_last()) + parts.last()
    }
}

/// Joins the parts end to end.
pub fn concat_parts(parts: &[&str]) -> (r: String)
    ensures
        r@ == concat_all(parts@.map_values(|p: &str| p@)),
{
    let ghost v = parts@.map_values(|p: &str| p@);
    let mut r = String::new();
    let mut i: usize = 0;
    proof {
        assert(v.take(0) =~= Seq::<Seq<char>>::empty());
    }
    while i < parts.len()
        invariant
            i <= parts@.len(),
            v == parts@.map_values(|p: &str| p@),
            r@ == concat_all(v.take(i as int)),
        decreases parts@.len() - i,
    {
        r.append(parts[i]);
        proof {
            assert(v.take(i + 1).drop_last() =~= v.take(i as int));
            assert(v.take(i + 1).last() == parts@[i as int]@);
        }
        i = i + 1;
    }
    proof {
        assert(v.take(parts@.len() as int) =~= v);
    }
    r
}

/// The parts joined with `sep` between neighbours.
pub open spec fn join_with(parts: Seq<Seq<char>>, sep: Seq<char>) -> Seq<char>
    decreases parts.len(),
{
    if parts.len() == 0 {
        Seq::empty()
    } else if parts.len() == 1 {
        parts[0]
    } else {
        join_with(parts.drop_last(), sep) + sep + parts.last()
    }
}

/// Joins the strings with `sep` between neighbours.
pub fn join_strings(v: &Vec<String>, sep: &str) -> (r: String)
    ensures
        r@ == join_with(strings_view(v@), sep@),
{
    let ghost sv = strings_view(v@);
    if v.len() == 0 {
        return String::new();
    }
    let mut r = v[0].clone();
    let mut i: usize = 1;
    proof {
        assert(sv.take(1).len() == 1);
    }
    while i < v.len()
        invariant
            1 <= i <= v@.len(),
            sv == strings_view(v@),
            r@ == join_with(sv.take(i as int), sep@),
        decreases v@.len() - i,
    {
        r.append(sep);
        r.append(v[i].as_str());
        proof {
            assert(sv.take(i + 1).drop_last() =~= sv.take(i as int));
            assert(sv.take(i + 1).last() == v@[i as int]@);
        }
        i = i + 1;
    }
    proof {
        assert(sv.take(v@.len() as int) =~= sv);
    }
    r
}

/// Appends a string to a list of strings.
pub fn push_string(v: &mut Vec<String>, s: String)
    ensures
        strings_view(final(v)@) == strings_view(old(v)@).push(s@),
{
    v.push(s);
    proof {
        assert(strings_view(v@) =~= strings_view(old(v)@).push(s@));
    }
}

proof fn lemma_split_from_len(s: Seq<char>, start: int, i: int)
    ensures
        split_from(s, start, i).len() >= 1,
    decreases s.len() - i,
{
    if i >= s.len() {
    } else if sep_at(s, i) {
        lemma_split_from_len(s, i + 2, i + 2);
    } else {
        lemma_split_from_len(s, start, i + 1);
    }
}

pub proof fn lemma_split_nonempty(s: Seq<char>)
    ensures
        split_sep(s).len() >= 1,
{
    lemma_split_from_len(s, 0, 0);
}

/// Splits `s` at each `::`, leftmost first.
pub fn split_path(s: &str) -> (r: Vec<String>)
    ensures
        strings_view(r@) == split_sep(s@),
{
    let n = s.unicode_len();
    let mut r: Vec<String> = Vec::new();
    let mut start: usize = 0;
    let mut i: usize = 0;
    while i < n
        invariant
            n == s@.len(),
            start <= i <= n,
            strings_view(r@) + split_from(s@, start as int, i as int) == split_sep(s@),
        decreases n - i,
    {
        if i + 1 < n && s.get_char(i) == ':' && s.get_char(i + 1) == ':' {
            let seg = s.substring_char(start, i).to_owned();
            proof {
                assert(sep_at(s@, i as int));
                assert(strings_view(r@.push(seg)) == strings_view(r@).push(seg@));
                assert(split_from(s@, start as int, i as int) == seq![seg@] + split_from(
                    s@,
                    i + 2,
                    i + 2,
                ));
                assert(strings_view(r@).push(seg@) + split_from(s@, i + 2, i + 2) == strings_view(r@)
                    + (seq![seg@] + split_from(s@, i + 2, i + 2)));
            }
            r.push(seg);
            i = i + 2;
            start = i;
        } else {
            proof {
                assert(!sep_at(s@, i as int));
            }
            i = i + 1;
        }
    }
    let seg = s.substring_char(start, n).to_owned();
    proof {
        assert(strings_view(r@.push(seg)) == strings_view(r@).push(seg@));
        assert(split_from(s@, start as int, i as int) == seq![seg@]);
        assert(strings_view(r@).push(seg@) == strings_view(r@) + seq![seg@]);
    }
    r.push(seg);
    r
}

/// Joins the first `k` segments with `::`.
pub fn join_prefix(segs: &Vec<String>, k: usize) -> (r: String)
    requires
        1 <= k <= segs@.len(),
    ensures
        r@ == join_sep(strings_view(segs@).take(k as int)),
{
    let mut r = segs[0].clone();
    let mut i: usize = 1;
    proof {
        assert(strings_view(segs@).take(1).len() == 1);
    }
    while i < k
        invariant
            1 <= i <= k <= segs@.len(),
            r@ == join_sep(strings_view(segs@).take(i as int)),
        decreases k - i,
    {
        r.append("::");
        r.append(segs[i].as_str());
        proof {
            let t = strings_view(segs@).take(i + 1);
            assert(t.drop_last() == strings_view(segs@).take(i as int));
            assert(t.last() == segs@[i as int]@);
        }
        i = i + 1;
    }
    r
}

/// Whether `s` begins with `p`.
pub fn str_starts_with(s: &str, p: &str) -> (r: bool)
    ensures
        r == starts_with(s@, p@),
{
    let n = s.unicode_len();
    let m = p.unicode_len();
    if m > n {
        return false;
    }
    let mut i: usize = 0;
    while i < m
        invariant
            n == s@.len(),
            m == p@.len(),
            m <= n,
            i <= m,
            forall|j: int| 0 <= j < i ==> s@[j] == p@[j],
        decreases m - i,
    {
        if s.get_char(i) != p.get_char(i) {
            proof {
                assert(s@.subrange(0, m as int)[i as int] != p@[i as int]);
            }
            return false;
        }
        i = i + 1;
    }
    proof {
        assert(s@.subrange(0, m as int) =~= p@);
    }
    true
}

/// Whether `s` ends with `p`.
pub fn str_ends_with(s: &str, p: &str) -> (r: bool)
    ensures
        r == ends_with(s@, p@),
{
    let n = s.unicode_len();
    let m = p.unicode_len();
    if m > n {
        return false;
    }
    let d = n - m;
    let mut i: usize = 0;
    while i < m
        invariant
            n == s@.len(),
            m == p@.len(),
            m <= n,
            d == n - m,
            i <= m,
            forall|j: int| 0 <= j < i ==> s@[d + j] == p@[j],
        decreases m - i,
    {
        if s.get_char(d + i) != p.get_char(i) {
            proof {
                assert(s@.subrange(d as int, n as int)[i as int] != p@[i as int]);
            }
            return false;
        }
        i = i + 1;
    }
    proof {
        assert(s@.subrange(d as int, n as int) =~= p@);
    }
    true
}

/// Whether `a` and `b` hold the same characters.
pub fn str_eq(a: &str, b: &str) -> (r: bool)
    ensures
        r == (a@ == b@),
{
    let n = a.unicode_len();
    let m = b.unicode_len();
    if n != m {
        return false;
    }
    let mut i: usize = 0;
    while i < n
        invariant
            n == a@.len(),
            m == b@.len(),
            n == m,
            i <= n,
            forall|j: int| 0 <= j < i ==> a@[j] == b@[j],
        decreases n - i,
    {
        if a.get_char(i) != b.get_char(i) {
            return false;
        }
        i = i + 1;
    }
    proof {
        assert(a@ =~= b@);
    }
    true
}

/// Whether `p` occurs in `s` as a contiguous part.
pub open spec fn contains_at(s: Seq<char>, p: Seq<char>, i: int) -> bool {
    0 <= i && i + p.len() <= s.len() && s.subrange(i, i + p.len()) == p
}

pub open spec fn contains(s: Seq<char>, p: Seq<char>) -> bool {
    exists|i: int| contains_at(s, p, i)
}

/// The first position from `i` on where `p` occurs in `s`.
pub open spec fn first_occurrence_from(s: Seq<char>, p: Seq<char>, i: int) -> Option<int>
    decreases s.len() + 1 - i,
{
    if i < 0 || i + p.len() > s.len() {
        None
    } else if contains_at(s, p, i) {
        Some(i)
    } else {
        first_occurrence_from(s, p, i + 1)
    }
}

/// What comes before the first occurrence of `p` in `s`: all of `s` when `p` does not
/// occur, as the first item of `str::split` gives it.
pub open spec fn text_before(s: Seq<char>, p: Seq<char>) -> Seq<char> {
    match first_occurrence_from(s, p, 0) {
        Some(i) => s.take(i),
        None => s,
    }
}

proof fn lemma_first_occurrence_range(s: Seq<char>, p: Seq<char>, i: int)
    ensures
        first_occurrence_from(s, p, i) matches Some(j) ==> 0 <= j && j + p.len() <= s.len(),
    decreases s.len() + 1 - i,
{
    if !(i < 0 || i + p.len() > s.len()) && !contains_at(s, p, i) {
        lemma_first_occurrence_range(s, p, i + 1);
    }
}

/// The part of `s` before the first occurrence of a non-empty `p`.
pub fn str_before(s: &str, p: &str) -> (r: String)
    requires
        p@.len() > 0,
    ensures
        r@ == text_before(s@, p@),
{
    let n = s.unicode_len();
    let m = p.unicode_len();
    proof {
        lemma_first_occurrence_range(s@, p@, 0);
    }
    if m > n {
        return s.to_owned();
    }
    let mut i: usize = 0;
    while i <= n - m
        invariant
            n == s@.len(),
            m == p@.len(),
            1 <= m <= n,
            i <= n - m + 1,
            first_occurrence_from(s@, p@, 0) == first_occurrence_from(s@, p@, i as int),
        decreases n - m + 1 - i,
    {
        let mut k: usize = 0;
        let mut ok = true;
        while k < m
            invariant
                n == s@.len(),
                m == p@.len(),
                i + m <= n,
                k <= m,
                ok ==> forall|j: int| 0 <= j < k ==> s@[i + j] == p@[j],
                !ok ==> !contains_at(s@, p@, i as int),
            decreases m - k,
        {
            if ok && s.get_char(i + k) != p.get_char(k) {
                proof {
                    assert(s@.subrange(i as int, i + m)[k as int] != p@[k as int]);
                }
                ok = false;
            }
            k = k + 1;
        }
        if ok {
            proof {
                assert(s@.subrange(i as int, i + m) =~= p@);
            }
            return s.substring_char(0, i).to_owned();
        }
        i = i + 1;
    }
    s.to_owned()
}

/// Whether `p` occurs in `s`.
pub fn str_contains(s: &str, p: &str) -> (r: bool)
    ensures
        r == contains(s@, p@),
{
    let n = s.unicode_len();
    let m = p.unicode_len();
    if m > n {
        proof {
            assert forall|i: int| !contains_at(s@, p@, i) by {}
        }
        return false;
    }
    if m == 0 {
        proof {
            assert(s@.subrange(0, 0) =~= p@);
            assert(contains_at(s@, p@, 0));
        }
        return true;
    }
    let mut i: usize = 0;
    while i <= n - m
        invariant
            n == s@.len(),
            m == p@.len(),
            1 <= m <= n,
            i <= n - m + 1,
            forall|j: int| 0 <= j < i ==> !contains_at(s@, p@, j),
        decreases n - m + 1 - i,
    {
        let mut k: usize = 0;
        let mut ok = true;
        while k < m
            invariant
                n == s@.len(),
                m == p@.len(),
                i + m <= n,
                k <= m,
                ok ==> forall|j: int| 0 <= j < k ==> s@[i + j] == p@[j],
                !ok ==> !contains_at(s@, p@, i as int),
            decreases m - k,
        {
            if ok && s.get_char(i + k) != p.get_char(k) {
                proof {
                    assert(s@.subrange(i as int, i + m)[k as int] != p@[k as int]);
                }
                ok = false;
            }
            k = k + 1;
        }
        if ok {
            proof {
                assert(s@.subrange(i as int, i + m) =~= p@);
                assert(contains_at(s@, p@, i as int));
            }
            return true;
        }
        i = i + 1;
    }
    proof {
        assert forall|j: int| !contains_at(s@, p@, j) by {
            if 0 <= j && j + m <= n {
                assert(j < i);
            }
        }
    }
    false
}

} // verus!
