//! Character-level string helpers with exact specifications: equality, ASCII case-insensitive
//! equality and Unicode whitespace trimming.

use vstd::prelude::*;

verus! {

/// Whether `a` and `b` hold the same characters.
pub fn str_equal(a: &str, b: &str) -> (r: bool)
    ensures
        r == (a@ == b@),
{
    let n = a.unicode_len();
    if n != b.unicode_len() {
        return false;
    }
    let mut i: usize = 0;
    while i < n
        invariant
            n == a@.len(),
            n == b@.len(),
            i <= n,
            forall|j: int| 0 <= j < i ==> a@[j] == b@[j],
        decreases n - i,
    {
        if a.get_char(i) != b.get_char(i) {
            return false;
        }
        i = i + 1;
    }
    assert(a@ =~= b@);
    true
}

/// `c` with ASCII upper-case letters mapped to lower case.
pub open spec fn ascii_lower(c: char) -> char {
    if 'A' <= c && c <= 'Z' {
        ((c as u32) + 32) as char
    } else {
        c
    }
}

fn ascii_lower_exec(c: char) -> (r: char)
    ensures
        r == ascii_lower(c),
{
    if 'A' <= c && c <= 'Z' {
        ((c as u32 + 32) as u8) as char
    } else {
        c
    }
}

/// Equal up to ASCII case, as `str::eq_ignore_ascii_case`: same length and, character by
/// character, equal after mapping ASCII capitals to lower case.
pub open spec fn eq_ignore_ascii_case_spec(a: Seq<char>, b: Seq<char>) -> bool {
    a.len() == b.len() && forall|i: int| 0 <= i < a.len() ==> ascii_lower(#[trigger] a[i]) == ascii_lower(b[i])
}

/// Whether `a` and `b` are equal up to ASCII case.
pub fn eq_ignore_ascii_case(a: &str, b: &str) -> (r: bool)
    ensures
        r == eq_ignore_ascii_case_spec(a@, b@),
{
    let n = a.unicode_len();
    if n != b.unicode_len() {
        return false;
    }
    let mut i: usize = 0;
    while i < n
        invariant
            n == a@.len(),
            n == b@.len(),
            i <= n,
            forall|j: int| 0 <= j < i ==> ascii_lower(#[trigger] a@[j]) == ascii_lower(b@[j]),
        decreases n - i,
    {
        if ascii_lower_exec(a.get_char(i)) != ascii_lower_exec(b.get_char(i)) {
            return false;
        }
        i = i + 1;
    }
    true
}

/// Unicode `White_Space`, the set `char::is_whitespace` tests.
pub open spec fn is_whitespace_spec(c: char) -> bool {
    let v = c as u32;
    (0x09 <= v && v <= 0x0d) || v == 0x20 || v == 0x85 || v == 0xa0 || v == 0x1680 || (0x2000 <= v
        && v <= 0x200a) || v == 0x2028 || v == 0x2029 || v == 0x202f || v == 0x205f || v == 0x3000
}

/// Whether `c` is Unicode whitespace.
pub fn is_whitespace(c: char) -> (r: bool)
    ensures
        r == is_whitespace_spec(c),
{
    let v = c as u32;
    (0x09 <= v && v <= 0x0d) || v == 0x20 || v == 0x85 || v == 0xa0 || v == 0x1680 || (0x2000 <= v
        && v <= 0x200a) || v == 0x2028 || v == 0x2029 || v == 0x202f || v == 0x205f || v == 0x3000
}

/// `t` is `s` with leading and trailing whitespace removed, as `str::trim` returns.
pub open spec fn is_trim_of(s: Seq<char>, t: Seq<char>) -> bool {
    exists|start: int, end: int|
        0 <= start <= end <= s.len() && t == s.subrange(start, end) && (forall|i: int|
            0 <= i < start ==> is_whitespace_spec(#[trigger] s[i])) && (forall|i: int|
            end <= i < s.len() ==> is_whitespace_spec(#[trigger] s[i])) && (start < end ==> !is_whitespace_spec(s[start])
            && !is_whitespace_spec(s[end - 1]))
}

/// Trimming has one result: two trims of the same text are equal.
pub proof fn lemma_trim_unique(s: Seq<char>, t1: Seq<char>, t2: Seq<char>)
    requires
        is_trim_of(s, t1),
        is_trim_of(s, t2),
    ensures
        t1 == t2,
{
    let (a1, b1) = choose|start: int, end: int|
        0 <= start <= end <= s.len() && t1 == s.subrange(start, end) && (forall|i: int|
            0 <= i < start ==> is_whitespace_spec(#[trigger] s[i])) && (forall|i: int|
            end <= i < s.len() ==> is_whitespace_spec(#[trigger] s[i])) && (start < end ==> !is_whitespace_spec(s[start])
            && !is_whitespace_spec(s[end - 1]));
    let (a2, b2) = choose|start: int, end: int|
        0 <= start <= end <= s.len() && t2 == s.subrange(start, end) && (forall|i: int|
            0 <= i < start ==> is_whitespace_spec(#[trigger] s[i])) && (forall|i: int|
            end <= i < s.len() ==> is_whitespace_spec(#[trigger] s[i])) && (start < end ==> !is_whitespace_spec(s[start])
            && !is_whitespace_spec(s[end - 1]));
    if a1 < b1 && a2 < b2 {
        if a1 < a2 {
            assert(is_whitespace_spec(s[a1]));
        }
        if a2 < a1 {
            assert(is_whitespace_spec(s[a2]));
        }
        if b1 < b2 {
            assert(is_whitespace_spec(s[b2 - 1]));
        }
        if b2 < b1 {
            assert(is_whitespace_spec(s[b1 - 1]));
        }
        assert(a1 == a2 && b1 == b2);
    } else if a1 < b1 {
        if a1 < a2 {
            assert(is_whitespace_spec(s[a1]));
        } else {
            assert(is_whitespace_spec(s[a1]));
        }
    } else if a2 < b2 {
        if a2 < a1 {
            assert(is_whitespace_spec(s[a2]));
        } else {
            assert(is_whitespace_spec(s[a2]));
        }
    } else {
        assert(t1 =~= t2);
    }
}

/// `s` without leading and trailing whitespace.
pub fn trim(s: &str) -> (r: &str)
    ensures
        is_trim_of(s@, r@),
{
    let n = s.unicode_len();
    let mut start: usize = 0;
    while start < n && is_whitespace(s.get_char(start))
        invariant
            n == s@.len(),
            start <= n,
            forall|i: int| 0 <= i < start ==> is_whitespace_spec(#[trigger] s@[i]),
        decreases n - start,
    {
        start = start + 1;
    }
    let mut end: usize = n;
    while end > start && is_whitespace(s.get_char(end - 1))
        invariant
            n == s@.len(),
            start <= end <= n,
            forall|i: int| end <= i < n ==> is_whitespace_spec(#[trigger] s@[i]),
            start < n ==> !is_whitespace_spec(s@[start as int]),
        decreases end - start,
    {
        end = end - 1;
    }
    let r = s.substring_char(start, end);
    assert(start < end ==> !is_whitespace_spec(s@[start as int]) && !is_whitespace_spec(s@[end - 1]));
    r
}

} // verus!
