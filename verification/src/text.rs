//! Character-level helpers for the wire-format codec: locating a delimiter,
//! splitting a string on a delimiter, and reading a decimal number.

use vstd::prelude::*;

verus! {

/// Index of the first occurrence of `c` in `s`, or `s.len()` if `c` does not
/// occur.
pub open spec fn first_index_of(s: Seq<char>, c: char) -> int
    decreases s.len(),
{
    if s.len() == 0 {
        0
    } else if s[0] == c {
        0
    } else {
        1 + first_index_of(s.drop_first(), c)
    }
}

pub proof fn lemma_first_index_of_bounds(s: Seq<char>, c: char)
    ensures
        0 <= first_index_of(s, c) <= s.len(),
        first_index_of(s, c) < s.len() ==> s[first_index_of(s, c)] == c,
        forall|i: int| 0 <= i < first_index_of(s, c) ==> s[i] != c,
    decreases s.len(),
{
    if s.len() == 0 {
    } else if s[0] == c {
    } else {
        lemma_first_index_of_bounds(s.drop_first(), c);
        assert forall|i: int| 0 <= i < first_index_of(s, c) implies s[i] != c by {
            if i >= 1 {
                assert(s[i] == s.drop_first()[i - 1]);
            }
        }
    }
}

/// The first index is determined by any scan that found no earlier occurrence.
pub proof fn lemma_first_index_of_is_first(s: Seq<char>, c: char, j: int)
    requires
        0 <= j <= s.len(),
        forall|i: int| 0 <= i < j ==> s[i] != c,
        j < s.len() ==> s[j] == c,
    ensures
        first_index_of(s, c) == j,
    decreases s.len(),
{
    if s.len() == 0 {
    } else if s[0] == c {
    } else {
        assert(forall|i: int| 0 <= i < j - 1 ==> s.drop_first()[i] != c);
        lemma_first_index_of_is_first(s.drop_first(), c, j - 1);
    }
}

/// The segments of `s` between occurrences of `c`, in order.  There is always
/// at least one segment; a delimiter at either end contributes an empty one.
pub open spec fn split_at_char(s: Seq<char>, c: char) -> Seq<Seq<char>>
    decreases s.len(),
    via split_at_char_decreases
{
    let i = first_index_of(s, c);
    if i == s.len() {
        seq![s]
    } else {
        seq![s.subrange(0, i)] + split_at_char(s.subrange(i + 1, s.len() as int), c)
    }
}

#[via_fn]
proof fn split_at_char_decreases(s: Seq<char>, c: char) {
    lemma_first_index_of_bounds(s, c);
}

/// Splitting `a + [c] + b` where `a` is free of `c` yields `a` followed by the
/// segments of `b`.
pub proof fn lemma_split_at_char_append(a: Seq<char>, c: char, b: Seq<char>)
    requires
        forall|i: int| 0 <= i < a.len() ==> a[i] != c,
    ensures
        split_at_char(a + seq![c] + b, c) == seq![a] + split_at_char(b, c),
{
    let s = a + seq![c] + b;
    assert(s[a.len() as int] == c);
    lemma_first_index_of_is_first(s, c, a.len() as int);
    assert(s.subrange(0, a.len() as int) =~= a);
    assert(s.subrange(a.len() as int + 1, s.len() as int) =~= b);
}

/// Subtracting 48 from the code point of a decimal digit gives its value.
pub open spec fn digit_val(c: char) -> nat {
    (c as nat - 48) as nat
}

/// A string without the delimiter is a single segment.
pub proof fn lemma_split_at_char_single(a: Seq<char>, c: char)
    requires
        forall|i: int| 0 <= i < a.len() ==> a[i] != c,
    ensures
        split_at_char(a, c) == seq![a],
{
    lemma_first_index_of_is_first(a, c, a.len() as int);
}

/// Whether two strings hold the same characters.
pub fn str_eq(a: &str, b: &str) -> (r: bool)
    ensures
        r == (a@ == b@),
{
    let n = a.unicode_len();
    if n != b.unicode_len() {
        return false;
    }
    let mut i: usize = 0;
    while i < n
        invariant
            i <= n,
            n == a@.len() == b@.len(),
            forall|k: int| 0 <= k < i ==> a@[k] == b@[k],
        decreases n - i,
    {
        if a.get_char(i) != b.get_char(i) {
            return false;
        }
        i += 1;
    }
    proof {
        assert(a@ =~= b@);
    }
    true
}

/// Index of the last occurrence of `c` in `s`, or `-1` if `c` does not occur.
pub open spec fn last_index_of(s: Seq<char>, c: char) -> int
    decreases s.len(),
{
    if s.len() == 0 {
        -1
    } else if s.last() == c {
        s.len() - 1
    } else {
        last_index_of(s.drop_last(), c)
    }
}

pub proof fn lemma_last_index_of_bounds(s: Seq<char>, c: char)
    ensures
        -1 <= last_index_of(s, c) < s.len(),
        last_index_of(s, c) >= 0 ==> s[last_index_of(s, c)] == c,
        forall|i: int| last_index_of(s, c) < i < s.len() ==> s[i] != c,
    decreases s.len(),
{
    if s.len() == 0 {
    } else if s.last() == c {
    } else {
        lemma_last_index_of_bounds(s.drop_last(), c);
        assert forall|i: int| last_index_of(s, c) < i < s.len() implies s[i] != c by {
            if i < s.len() - 1 {
                assert(s[i] == s.drop_last()[i]);
            }
        }
    }
}

/// The last index is determined by any scan that found no later occurrence.
pub proof fn lemma_last_index_of_is_last(s: Seq<char>, c: char, j: int)
    requires
        -1 <= j < s.len(),
        j >= 0 ==> s[j] == c,
        forall|i: int| j < i < s.len() ==> s[i] != c,
    ensures
        last_index_of(s, c) == j,
    decreases s.len(),
{
    if s.len() == 0 {
    } else if j == s.len() - 1 {
    } else {
        assert(s.last() != c);
        assert(forall|i: int| j < i < s.drop_last().len() ==> s.drop_last()[i] != c);
        lemma_last_index_of_is_last(s.drop_last(), c, j);
    }
}

/// Scan for the last occurrence of `c` in `s`.
pub fn rfind_char(s: &str, c: char) -> (r: Option<usize>)
    ensures
        r is Some <==> last_index_of(s@, c) >= 0,
        r is Some ==> r->0 == last_index_of(s@, c),
{
    let n = s.unicode_len();
    let mut i = n;
    while i > 0
        invariant
            0 <= i <= n,
            n == s@.len(),
            forall|k: int| i <= k < n ==> s@[k] != c,
        decreases i,
    {
        i -= 1;
        if s.get_char(i) == c {
            proof {
                lemma_last_index_of_is_last(s@, c, i as int);
            }
            return Some(i);
        }
    }
    proof {
        lemma_last_index_of_is_last(s@, c, -1);
    }
    None
}

/// True when `t` is a non-empty string of decimal digits.
pub open spec fn is_digits(t: Seq<char>) -> bool {
    t.len() > 0 && forall|i: int| 0 <= i < t.len() ==> '0' <= #[trigger] t[i] <= '9'
}

/// The number denoted by a digit string, most significant digit first.
pub open spec fn digits_val(t: Seq<char>) -> nat
    decreases t.len(),
{
    if t.len() == 0 {
        0
    } else {
        digits_val(t.drop_last()) * 10 + digit_val(t.last())
    }
}

/// What `<usize as FromStr>::from_str` accepts and returns on a digit string:
/// the denoted number, unless the string is empty, holds a non-digit, or the
/// number does not fit in `usize`.
pub open spec fn spec_parse_usize(t: Seq<char>) -> Option<int> {
    if is_digits(t) && digits_val(t) <= usize::MAX {
        Some(digits_val(t) as int)
    } else {
        None
    }
}

/// Extending a digit string on the right cannot decrease its value.
proof fn lemma_digits_val_prefix_le(t: Seq<char>, i: int)
    requires
        0 <= i <= t.len(),
        forall|k: int| 0 <= k < t.len() ==> '0' <= #[trigger] t[k] <= '9',
    ensures
        digits_val(t.subrange(0, i)) <= digits_val(t),
    decreases t.len() - i,
{
    if i < t.len() {
        let u = t.subrange(0, i + 1);
        assert(u.drop_last() =~= t.subrange(0, i));
        assert(digits_val(t.subrange(0, i)) <= digits_val(u));
        lemma_digits_val_prefix_le(t, i + 1);
        assert(t.subrange(0, t.len() as int) =~= t);
    } else {
        assert(t.subrange(0, i) =~= t);
    }
}

/// Scan for `c` in `s` from position `start` on; the result is the position of
/// the first occurrence at or after `start`, or the length of `s`.
pub fn find_char_from(s: &str, start: usize, c: char) -> (j: usize)
    requires
        start <= s@.len(),
    ensures
        start <= j <= s@.len(),
        j - start == first_index_of(s@.subrange(start as int, s@.len() as int), c),
{
    let n = s.unicode_len();
    let mut i = start;
    while i < n
        invariant
            start <= i <= n,
            n == s@.len(),
            forall|k: int| start <= k < i ==> s@[k] != c,
        decreases n - i,
    {
        if s.get_char(i) == c {
            proof {
                let tail = s@.subrange(start as int, n as int);
                assert(forall|k: int| 0 <= k < i - start ==> tail[k] != c);
                lemma_first_index_of_is_first(tail, c, i - start);
            }
            return i;
        }
        i += 1;
    }
    proof {
        let tail = s@.subrange(start as int, n as int);
        assert(forall|k: int| 0 <= k < tail.len() ==> tail[k] != c);
        lemma_first_index_of_is_first(tail, c, tail.len() as int);
    }
    n
}

/// Position of the first occurrence of `c` in `s`, or the length of `s`.
pub fn find_char(s: &str, c: char) -> (j: usize)
    ensures
        0 <= j <= s@.len(),
        j == first_index_of(s@, c),
{
    proof {
        assert(s@.subrange(0, s@.len() as int) =~= s@);
    }
    find_char_from(s, 0, c)
}

/// Split `s` into the segments between occurrences of `c`.
pub fn split_on(s: &str, c: char) -> (parts: Vec<String>)
    ensures
        parts.deep_view() == split_at_char(s@, c),
        parts.len() >= 1,
{
    let n = s.unicode_len();
    let mut parts: Vec<String> = Vec::new();
    let mut start: usize = 0;
    proof {
        assert(s@.subrange(0, n as int) =~= s@);
        assert(parts.deep_view() + split_at_char(s@, c) =~= split_at_char(s@, c));
    }
    loop
        invariant_except_break
            start <= n,
            n == s@.len(),
            split_at_char(s@, c) == parts.deep_view() + split_at_char(
                s@.subrange(start as int, n as int),
                c,
            ),
        ensures
            parts.deep_view() == split_at_char(s@, c),
            parts.len() >= 1,
        decreases n - start,
    {
        let j = find_char_from(s, start, c);
        let seg = s.substring_char(start, j).to_owned();
        let ghost old_parts = parts.deep_view();
        let ghost tail = s@.subrange(start as int, n as int);
        parts.push(seg);
        proof {
            assert(parts.deep_view() =~= old_parts.push(seg@));
            lemma_first_index_of_bounds(tail, c);
            assert(tail.subrange(0, j - start) =~= s@.subrange(start as int, j as int));
        }
        if j == n {
            proof {
                assert(split_at_char(tail, c) == seq![tail]);
                assert(tail =~= s@.subrange(start as int, j as int));
                assert(parts.deep_view() =~= old_parts + seq![tail]);
            }
            break;
        }
        proof {
            let rest = tail.subrange(j - start + 1, tail.len() as int);
            assert(split_at_char(tail, c) == seq![tail.subrange(0, j - start)] + split_at_char(
                rest,
                c,
            ));
            assert(rest =~= s@.subrange(j + 1, n as int));
            assert(parts.deep_view() + split_at_char(rest, c) =~= old_parts + split_at_char(
                tail,
                c,
            ));
        }
        start = j + 1;
    }
    parts
}

/// Read a decimal number, as `str::parse::<usize>` does on a digit string:
/// `None` on an empty string, a non-digit, or overflow.
pub fn parse_usize(s: &str) -> (r: Option<usize>)
    ensures
        r is Some <==> spec_parse_usize(s@) is Some,
        r is Some ==> r->0 == spec_parse_usize(s@)->0,
{
    let n = s.unicode_len();
    if n == 0 {
        return None;
    }
    let mut val: usize = 0;
    let mut i: usize = 0;
    while i < n
        invariant
            0 < n == s@.len(),
            0 <= i <= n,
            forall|k: int| 0 <= k < i ==> '0' <= #[trigger] s@[k] <= '9',
            val == digits_val(s@.subrange(0, i as int)),
        decreases n - i,
    {
        let c = s.get_char(i);
        let d = c as u32;
        if d < 48 || d > 57 {
            assert(!('0' <= s@[i as int] <= '9'));
            return None;
        }
        let dd = (d - 48) as usize;
        proof {
            assert(s@.subrange(0, i + 1).drop_last() =~= s@.subrange(0, i as int));
        }
        if val > (usize::MAX - dd) / 10 {
            proof {
                assert(val * 10 + dd > usize::MAX) by (nonlinear_arith)
                    requires
                        val > (usize::MAX - dd) / 10,
                        dd <= usize::MAX,
                {}
                assert(digits_val(s@.subrange(0, i + 1)) > usize::MAX);
                if is_digits(s@) && digits_val(s@) <= usize::MAX {
                    lemma_digits_val_prefix_le(s@, i + 1);
                }
            }
            return None;
        }
        proof {
            assert(val * 10 + dd <= usize::MAX) by (nonlinear_arith)
                requires
                    val <= (usize::MAX - dd) / 10,
                    dd <= usize::MAX,
            {}
        }
        val = val * 10 + dd;
        i += 1;
    }
    proof {
        assert(s@.subrange(0, n as int) =~= s@);
    }
    Some(val)
}

} // verus!
