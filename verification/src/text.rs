//! Character-level helpers shared by the command-line and dialogue parsers.
use vstd::prelude::*;

verus! {

/// The Unicode `White_Space` property, which `char::is_whitespace` follows.
pub open spec fn is_white_space(c: char) -> bool {
    let u = c as u32;
    ||| 0x09 <= u <= 0x0D
    ||| u == 0x20
    ||| u == 0x85
    ||| u == 0xA0
    ||| u == 0x1680
    ||| 0x2000 <= u <= 0x200A
    ||| u == 0x2028
    ||| u == 0x2029
    ||| u == 0x202F
    ||| u == 0x205F
    ||| u == 0x3000
}

/// `s` without its leading white space.
pub open spec fn trim_start(s: Seq<char>) -> Seq<char>
    decreases s.len(),
{
    if s.len() > 0 && is_white_space(s[0]) {
        trim_start(s.drop_first())
    } else {
        s
    }
}

/// `s` without its trailing white space.
pub open spec fn trim_end(s: Seq<char>) -> Seq<char>
    decreases s.len(),
{
    if s.len() > 0 && is_white_space(s.last()) {
        trim_end(s.drop_last())
    } else {
        s
    }
}

/// `s` without leading and trailing white space.
pub open spec fn trimmed(s: Seq<char>) -> Seq<char> {
    trim_end(trim_start(s))
}

proof fn lemma_trim_start_shape(s: Seq<char>) -> (i: int)
    ensures
        0 <= i <= s.len(),
        trim_start(s) == s.subrange(i, s.len() as int),
        forall|k: int| 0 <= k < i ==> is_white_space(#[trigger] s[k]),
        i < s.len() ==> !is_white_space(s[i]),
    decreases s.len(),
{
    if s.len() > 0 && is_white_space(s[0]) {
        let r = s.drop_first();
        let i0 = lemma_trim_start_shape(r);
        assert(r.subrange(i0, r.len() as int) =~= s.subrange(i0 + 1, s.len() as int));
        assert forall|k: int| 0 <= k < i0 + 1 implies is_white_space(#[trigger] s[k]) by {
            if k > 0 {
                assert(s[k] == r[k - 1]);
            }
        }
        if i0 + 1 < s.len() {
            assert(s[i0 + 1] == r[i0]);
        }
        i0 + 1
    } else {
        assert(s.subrange(0, s.len() as int) =~= s);
        0
    }
}

proof fn lemma_trim_end_shape(s: Seq<char>) -> (j: int)
    ensures
        0 <= j <= s.len(),
        trim_end(s) == s.subrange(0, j),
        forall|k: int| j <= k < s.len() ==> is_white_space(#[trigger] s[k]),
        j > 0 ==> !is_white_space(s[j - 1]),
    decreases s.len(),
{
    if s.len() > 0 && is_white_space(s.last()) {
        let r = s.drop_last();
        let j0 = lemma_trim_end_shape(r);
        assert(r.subrange(0, j0) =~= s.subrange(0, j0));
        assert forall|k: int| j0 <= k < s.len() implies is_white_space(#[trigger] s[k]) by {
            if k < s.len() - 1 {
                assert(s[k] == r[k]);
            }
        }
        if j0 > 0 {
            assert(s[j0 - 1] == r[j0 - 1]);
        }
        j0
    } else {
        assert(s.subrange(0, s.len() as int) =~= s);
        s.len() as int
    }
}

/// Trimming cuts white space off both ends and nothing else: the result is
/// the part of `s` from index `i` to `j`, everything before `i` and from `j`
/// on is white space, and a result that is not empty starts and ends with a
/// character that is not.
pub proof fn lemma_trimmed_shape(s: Seq<char>) -> (r: (int, int))
    ensures
        0 <= r.0 <= r.1 <= s.len(),
        trimmed(s) == s.subrange(r.0, r.1),
        forall|k: int| 0 <= k < r.0 ==> is_white_space(#[trigger] s[k]),
        forall|k: int| r.1 <= k < s.len() ==> is_white_space(#[trigger] s[k]),
        r.0 < r.1 ==> !is_white_space(s[r.0]) && !is_white_space(s[r.1 - 1]),
{
    let i = lemma_trim_start_shape(s);
    let t = s.subrange(i, s.len() as int);
    let j = lemma_trim_end_shape(t);
    assert(t.subrange(0, j) =~= s.subrange(i, i + j));
    assert forall|k: int| i + j <= k < s.len() implies is_white_space(#[trigger] s[k]) by {
        assert(s[k] == t[k - i]);
    }
    if j > 0 {
        assert(s[i + j - 1] == t[j - 1]);
    }
    (i, i + j)
}

/// Whether `c` is white space.
pub fn is_whitespace_char(c: char) -> (r: bool)
    ensures
        r == is_white_space(c),
{
    let u = c as u32;
    (0x09 <= u && u <= 0x0D) || u == 0x20 || u == 0x85 || u == 0xA0 || u == 0x1680 || (0x2000
        <= u && u <= 0x200A) || u == 0x2028 || u == 0x2029 || u == 0x202F || u == 0x205F || u
        == 0x3000
}

/// The slice of `s` with leading and trailing white space removed.
pub fn trim_str(s: &str) -> (t: &str)
    ensures
        t@ == trimmed(s@),
{
    let n = s.unicode_len();
    let mut start: usize = 0;
    assert(s@.subrange(0, n as int) =~= s@);
    while start < n && is_whitespace_char(s.get_char(start))
        invariant
            start <= n,
            n == s@.len(),
            trim_start(s@) == trim_start(s@.subrange(start as int, n as int)),
        decreases n - start,
    {
        assert(s@.subrange(start as int, n as int).drop_first() =~= s@.subrange(
            start + 1,
            n as int,
        ));
        start = start + 1;
    }
    let mut end: usize = n;
    assert(trim_start(s@) == s@.subrange(start as int, n as int));
    while end > start && is_whitespace_char(s.get_char(end - 1))
        invariant
            start <= end <= n,
            n == s@.len(),
            trim_start(s@) == s@.subrange(start as int, n as int),
            trimmed(s@) == trim_end(s@.subrange(start as int, end as int)),
        decreases end - start,
    {
        assert(s@.subrange(start as int, end as int).drop_last() =~= s@.subrange(
            start as int,
            end - 1,
        ));
        end = end - 1;
    }
    s.substring_char(start, end)
}


/// `c` with ASCII upper-case letters made lower-case.
pub open spec fn ascii_lower_char(c: char) -> char {
    if 65 <= (c as u32) <= 90 {
        ((c as u32) + 32) as char
    } else {
        c
    }
}

/// `s` with ASCII upper-case letters made lower-case.
pub open spec fn ascii_lowercase(s: Seq<char>) -> Seq<char> {
    s.map_values(|c: char| ascii_lower_char(c))
}

/// Whether `t`, with ASCII letters made lower-case, reads `expected`.
pub fn lowercase_equals(t: &str, expected: &[char]) -> (r: bool)
    ensures
        r == (ascii_lowercase(t@) == expected@),
{
    let n = t.unicode_len();
    if n != expected.len() {
        assert(ascii_lowercase(t@).len() != expected@.len());
        return false;
    }
    let mut i: usize = 0;
    while i < n
        invariant
            n == t@.len(),
            n == expected@.len(),
            i <= n,
            forall|j: int| 0 <= j < i ==> ascii_lowercase(t@)[j] == expected@[j],
        decreases n - i,
    {
        let c = t.get_char(i);
        let u = c as u32;
        let lower = if 65 <= u && u <= 90 {
            ((u + 32) as u8) as char
        } else {
            c
        };
        assert(lower == ascii_lower_char(c));
        if lower != expected[i] {
            assert(ascii_lowercase(t@)[i as int] != expected@[i as int]);
            return false;
        }
        i = i + 1;
    }
    assert(ascii_lowercase(t@) =~= expected@);
    true
}


/// Whether `t` reads `expected`.
pub fn text_equals(t: &str, expected: &[char]) -> (r: bool)
    ensures
        r == (t@ == expected@),
{
    let n = t.unicode_len();
    if n != expected.len() {
        return false;
    }
    let mut i: usize = 0;
    while i < n
        invariant
            n == t@.len(),
            n == expected@.len(),
            i <= n,
            forall|j: int| 0 <= j < i ==> t@[j] == expected@[j],
        decreases n - i,
    {
        if t.get_char(i) != expected[i] {
            return false;
        }
        i = i + 1;
    }
    assert(t@ =~= expected@);
    true
}

} // verus!
