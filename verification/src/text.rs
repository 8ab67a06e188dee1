use vstd::prelude::*;
use vstd::string::*;

verus! {

/// The ASCII lowercase of a character; other characters are unchanged.
pub open spec fn ascii_lower(c: char) -> char {
    if 'A' <= c && c <= 'Z' {
        ((c as u32) + 32) as char
    } else {
        c
    }
}

/// Equality of two strings up to the case of ASCII letters.
pub open spec fn eq_ignoring_ascii_case(a: Seq<char>, b: Seq<char>) -> bool {
    a.len() == b.len() && forall|i: int| 0 <= i < a.len() ==> ascii_lower(a[i]) == ascii_lower(b[i])
}

/// `needle` occurs in `haystack` at `at`.
pub open spec fn occurs_at(haystack: Seq<char>, needle: Seq<char>, at: int) -> bool {
    0 <= at && at + needle.len() <= haystack.len() && haystack.subrange(at, at + needle.len())
        == needle
}

/// `needle` occurs somewhere in `haystack`.
pub open spec fn occurs_in(haystack: Seq<char>, needle: Seq<char>) -> bool {
    exists|at: int| occurs_at(haystack, needle, at)
}

pub fn to_ascii_lowercase_char(c: char) -> (lower: char)
    ensures
        lower == ascii_lower(c),
{
    if 'A' <= c && c <= 'Z' {
        let code = (c as u32) + 32;
        assert(code <= 0x7f);
        char_from_ascii(code)
    } else {
        c
    }
}

/// The character of an ASCII code.
fn char_from_ascii(code: u32) -> (c: char)
    requires
        code <= 0x7f,
    ensures
        c == code as char,
{
    let byte = code as u8;
    byte as char
}

/// Whether `a` and `b` are equal up to the case of ASCII letters, as
/// `str::eq_ignore_ascii_case` compares them.
pub fn eq_ignore_ascii_case(a: &str, b: &str) -> (equal: bool)
    ensures
        equal == eq_ignoring_ascii_case(a@, b@),
{
    let n = a.unicode_len();
    if n != b.unicode_len() {
        return false;
    }
    let mut i: usize = 0;
    while i < n
        invariant
            n == a@.len(),
            n == b@.len(),
            i <= n,
            forall|j: int| 0 <= j < i ==> ascii_lower(a@[j]) == ascii_lower(b@[j]),
        decreases n - i,
    {
        if to_ascii_lowercase_char(a.get_char(i)) != to_ascii_lowercase_char(b.get_char(i)) {
            return false;
        }
        i = i + 1;
    }
    true
}

/// Whether `a` and `b` hold the same characters.
pub fn str_eq(a: &str, b: &str) -> (equal: bool)
    ensures
        equal == (a@ == b@),
{
    let n = a.unicode_len();
    if n != b.unicode_len() {
        return false;
    }
    let mut i: usize = 0;
    while i < n
        invariant
            n == a@.len(),
            n == b@.len(),
            i <= n,
            forall|j: int| 0 <= j < i ==> a@[j] == b@[j],
        decreases n - i,
    {
        if a.get_char(i) != b.get_char(i) {
            return false;
        }
        i = i + 1;
    }
    assert(a@ =~= b@);
    true
}

/// Whether `needle` occurs in `haystack`.
pub fn contains_str(haystack: &str, needle: &str) -> (found: bool)
    ensures
        found == occurs_in(haystack@, needle@),
{
    let n = haystack.unicode_len();
    let m = needle.unicode_len();
    if m > n {
        assert forall|at: int| !occurs_at(haystack@, needle@, at) by {}
        return false;
    }
    if m == 0 {
        assert(haystack@.subrange(0, 0) =~= needle@);
        assert(occurs_at(haystack@, needle@, 0));
        return true;
    }
    let mut at: usize = 0;
    while at <= n && m <= n - at
        invariant
            n == haystack@.len(),
            m == needle@.len(),
            0 < m <= n,
            at <= n,
            forall|k: int| 0 <= k < at ==> !occurs_at(haystack@, needle@, k),
        decreases n - at,
    {
        let mut i: usize = 0;
        let mut matched = true;
        while i < m
            invariant
                n == haystack@.len(),
                m == needle@.len(),
                at + m <= n,
                i <= m,
                matched ==> forall|j: int| 0 <= j < i ==> haystack@[at + j] == needle@[j],
                !matched ==> !occurs_at(haystack@, needle@, at as int),
            decreases m - i,
        {
            if haystack.get_char(at + i) != needle.get_char(i) {
                matched = false;
                assert(haystack@.subrange(at as int, at + m)[i as int] != needle@[i as int]);
            }
            i = i + 1;
        }
        if matched {
            assert(haystack@.subrange(at as int, at + m) =~= needle@);
            assert(occurs_at(haystack@, needle@, at as int));
            return true;
        }
        at = at + 1;
    }
    assert forall|k: int| !occurs_at(haystack@, needle@, k) by {
        if 0 <= k < at {
        } else if k >= at {
            assert(k + m > n);
        }
    }
    false
}

} // verus!
