//! Character-level helpers on strings, stated over their `Seq<char>` views.
use vstd::prelude::*;

verus! {

/// The characters of `s`, in order.
pub fn chars_of(s: &str) -> (v: Vec<char>)
    ensures
        v@ == s@,
{
    let mut v: Vec<char> = Vec::new();
    for c in it: s.chars()
        invariant
            v@ == it.seq().take(it.index() as int),
    {
        v.push(c);
    }
    v
}

/// The characters of an optional string.
pub open spec fn opt_str_view(o: Option<&str>) -> Option<Seq<char>> {
    match o {
        Some(s) => Some(s@),
        None => None,
    }
}

/// The characters of an optional owned string.
pub open spec fn opt_string_view(o: Option<String>) -> Option<Seq<char>> {
    match o {
        Some(s) => Some(s@),
        None => None,
    }
}

/// The `Debug` form that std writes for the string `s`: `s` between double
/// quotes, with quotes, backslashes and unprintable characters escaped.
pub uninterp spec fn debug_quoted(s: Seq<char>) -> Seq<char>;

/// Writes `s` with std's `Debug` formatting of `str` (`format!("{:?}", s)`).
/// The contract claims only that the outcome depends on the string alone (it
/// is named `debug_quoted`): the escaping is std's.
#[verifier::external_body]
pub(crate) fn debug_string(s: &str) -> (r: String)
    ensures
        r@ == debug_quoted(s@),
{
    format!("{:?}", s)
}

/// Whether two strings hold the same characters.
pub fn str_equals(a: &str, b: &str) -> (r: bool)
    ensures
        r == (a@ == b@),
{
    let va = chars_of(a);
    let vb = chars_of(b);
    if va.len() != vb.len() {
        return false;
    }
    let mut i: usize = 0;
    while i < va.len()
        invariant
            va@ == a@,
            vb@ == b@,
            va.len() == vb.len(),
            i <= va.len(),
            forall|j: int| 0 <= j < i ==> va@[j] == vb@[j],
        decreases va.len() - i,
    {
        if va[i] != vb[i] {
            return false;
        }
        i = i + 1;
    }
    assert(va@ =~= vb@);
    true
}

/// The code point of `c`, with the ASCII capitals `A`..`Z` moved to `a`..`z`.
pub open spec fn ascii_fold(c: char) -> u32 {
    let x = c as u32;
    if 65 <= x <= 90 {
        (x + 32) as u32
    } else {
        x
    }
}

/// `a` and `b` are equal once ASCII letters are compared without regard to
/// case; every other character must match exactly.
pub open spec fn eq_ignore_ascii_case(a: Seq<char>, b: Seq<char>) -> bool {
    &&& a.len() == b.len()
    &&& forall|i: int| 0 <= i < a.len() ==> ascii_fold(#[trigger] a[i]) == ascii_fold(b[i])
}

fn fold_char(c: char) -> (r: u32)
    ensures
        r == ascii_fold(c),
{
    let x = c as u32;
    if 65 <= x && x <= 90 {
        x + 32
    } else {
        x
    }
}

/// Compares `a` and `b` without regard to the case of ASCII letters.
pub fn str_eq_ignore_ascii_case(a: &str, b: &str) -> (r: bool)
    ensures
        r == eq_ignore_ascii_case(a@, b@),
{
    let va = chars_of(a);
    let vb = chars_of(b);
    if va.len() != vb.len() {
        return false;
    }
    let mut i: usize = 0;
    while i < va.len()
        invariant
            va@ == a@,
            vb@ == b@,
            va.len() == vb.len(),
            i <= va.len(),
            forall|j: int| 0 <= j < i ==> ascii_fold(#[trigger] va@[j]) == ascii_fold(vb@[j]),
        decreases va.len() - i,
    {
        if fold_char(va[i]) != fold_char(vb[i]) {
            return false;
        }
        i = i + 1;
    }
    true
}

/// Comparing without regard to ASCII case is an equivalence: every string
/// matches itself, the order of the two does not matter, and matches chain.
pub proof fn eq_ignore_ascii_case_is_an_equivalence(a: Seq<char>, b: Seq<char>, c: Seq<char>)
    ensures
        eq_ignore_ascii_case(a, a),
        eq_ignore_ascii_case(a, b) ==> eq_ignore_ascii_case(b, a),
        eq_ignore_ascii_case(a, b) && eq_ignore_ascii_case(b, c) ==> eq_ignore_ascii_case(a, c),
{
    if eq_ignore_ascii_case(a, b) && eq_ignore_ascii_case(b, c) {
        assert forall|i: int| 0 <= i < a.len() implies ascii_fold(#[trigger] a[i]) == ascii_fold(c[i]) by {
            assert(ascii_fold(b[i]) == ascii_fold(c[i]));
        }
    }
    if eq_ignore_ascii_case(a, b) {
        assert forall|i: int| 0 <= i < b.len() implies ascii_fold(#[trigger] b[i]) == ascii_fold(a[i]) by {
            assert(ascii_fold(a[i]) == ascii_fold(b[i]));
        }
    }
}

/// Two strings match without regard to ASCII case exactly when they have the
/// same length and, at each position, the same character, or an ASCII capital
/// and its small letter in either order; any other difference (including
/// between non-ASCII letters of different case) makes them differ.
pub proof fn eq_ignore_ascii_case_matches_letters(a: Seq<char>, b: Seq<char>)
    ensures
        eq_ignore_ascii_case(a, b) <==> (a.len() == b.len() && forall|i: int|
            0 <= i < a.len() ==> {
                let x = (#[trigger] a[i]) as u32;
                let y = b[i] as u32;
                ||| x == y
                ||| 65 <= x <= 90 && y == x + 32
                ||| 65 <= y <= 90 && x == y + 32
            }),
{
    if eq_ignore_ascii_case(a, b) {
        assert forall|i: int| 0 <= i < a.len() implies {
            let x = (#[trigger] a[i]) as u32;
            let y = b[i] as u32;
            ||| x == y
            ||| 65 <= x <= 90 && y == x + 32
            ||| 65 <= y <= 90 && x == y + 32
        } by {
            assert(ascii_fold(a[i]) == ascii_fold(b[i]));
        }
    }
    if a.len() == b.len() && forall|i: int|
        0 <= i < a.len() ==> {
            let x = (#[trigger] a[i]) as u32;
            let y = b[i] as u32;
            ||| x == y
            ||| 65 <= x <= 90 && y == x + 32
            ||| 65 <= y <= 90 && x == y + 32
        } {
        assert forall|i: int| 0 <= i < a.len() implies ascii_fold(#[trigger] a[i]) == ascii_fold(b[i]) by {
            let x = a[i] as u32;
            let y = b[i] as u32;
            assert(x == y || (65 <= x <= 90 && y == x + 32) || (65 <= y <= 90 && x == y + 32));
        }
    }
}

/// Whether `s` begins with `prefix`.
pub open spec fn has_prefix(s: Seq<char>, prefix: Seq<char>) -> bool {
    prefix.len() <= s.len() && s.take(prefix.len() as int) == prefix
}

/// Whether `s` ends with `suffix`.
pub open spec fn has_suffix(s: Seq<char>, suffix: Seq<char>) -> bool {
    suffix.len() <= s.len() && s.skip(s.len() - suffix.len()) == suffix
}

/// Whether the characters of `v`, from index `start` on, begin with those of `p`.
fn matches_at(v: &Vec<char>, start: usize, p: &Vec<char>) -> (r: bool)
    requires
        start <= v.len(),
    ensures
        r == (p@.len() <= v@.len() - start && v@.subrange(start as int, start + p@.len()) == p@),
{
    if p.len() > v.len() - start {
        return false;
    }
    let mut i: usize = 0;
    while i < p.len()
        invariant
            start <= v.len(),
            p.len() <= v.len() - start,
            i <= p.len(),
            forall|j: int| 0 <= j < i ==> v@[start + j] == p@[j],
        decreases p.len() - i,
    {
        if v[start + i] != p[i] {
            assert(v@.subrange(start as int, start + p@.len())[i as int] != p@[i as int]);
            return false;
        }
        i = i + 1;
    }
    assert(v@.subrange(start as int, start + p@.len()) =~= p@);
    true
}

/// Whether `s` begins with `prefix`.
pub fn starts_with(s: &str, prefix: &str) -> (r: bool)
    ensures
        r == has_prefix(s@, prefix@),
{
    let v = chars_of(s);
    let p = chars_of(prefix);
    matches_at(&v, 0, &p)
}

/// Whether `s` ends with `suffix`.
pub fn ends_with(s: &str, suffix: &str) -> (r: bool)
    ensures
        r == has_suffix(s@, suffix@),
{
    let v = chars_of(s);
    let p = chars_of(suffix);
    if p.len() > v.len() {
        return false;
    }
    let r = matches_at(&v, v.len() - p.len(), &p);
    assert(v@.subrange(v@.len() - p@.len(), v@.len() as int) =~= v@.skip(v@.len() - p@.len()));
    r
}

} // verus!
