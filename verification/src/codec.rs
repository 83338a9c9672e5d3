//! The shared model of the `<type>.<segment>(|<segment>)*` wire format: the
//! mathematical views of the encrypted values, the decomposition of a wire
//! string into its tag and its segments, and the shape of a formatted value.

use crate::b64::{b64_of, is_b64_char};
use crate::text::{
    digits_val, find_char, first_index_of, is_digits, lemma_first_index_of_is_first,
    lemma_split_at_char_append, lemma_split_at_char_single, parse_usize, spec_parse_usize,
    split_at_char, split_on,
};
use vstd::prelude::*;

verus! {

/// The mathematical view of an unauthenticated CBC value: an initialization
/// vector and a ciphertext.
pub struct AesCbcView {
    pub iv: Seq<u8>,
    pub ciphertext: Seq<u8>,
}

/// The mathematical view of an authenticated CBC value: an initialization
/// vector, a ciphertext and a message authentication tag.
pub struct AesCbcHmacView {
    pub iv: Seq<u8>,
    pub mac: Seq<u8>,
    pub ciphertext: Seq<u8>,
}

/// The mathematical view of an asymmetric value: a ciphertext alone.
pub struct RsaView {
    pub ciphertext: Seq<u8>,
}

/// The tag part of a wire string: everything before the first `'.'`, or the
/// whole string if there is none.
pub open spec fn tag_str(s: Seq<char>) -> Seq<char> {
    s.subrange(0, first_index_of(s, '.'))
}

/// The payload part of a wire string: everything after the first `'.'`, or
/// the empty string if there is none.
pub open spec fn rest_str(s: Seq<char>) -> Seq<char> {
    if first_index_of(s, '.') < s.len() {
        s.subrange(first_index_of(s, '.') + 1, s.len() as int)
    } else {
        Seq::empty()
    }
}

/// The numeric tag of a wire string, or `None` where the tag part is not a
/// number that fits in `usize`.
pub open spec fn parsed_tag(s: Seq<char>) -> Option<int> {
    spec_parse_usize(tag_str(s))
}

/// The `'|'`-separated segments of the payload part; never empty.
pub open spec fn segments(s: Seq<char>) -> Seq<Seq<char>> {
    split_at_char(rest_str(s), '|')
}

/// The wire form of a value with a single segment.
pub open spec fn wire_1(t: char, a: Seq<u8>) -> Seq<char> {
    seq![t, '.'] + b64_of(a)
}

/// The wire form of a value with two segments.
pub open spec fn wire_2(t: char, a: Seq<u8>, b: Seq<u8>) -> Seq<char> {
    seq![t, '.'] + b64_of(a) + seq!['|'] + b64_of(b)
}

/// The wire form of a value with three segments.
pub open spec fn wire_3(t: char, a: Seq<u8>, b: Seq<u8>, c: Seq<u8>) -> Seq<char> {
    seq![t, '.'] + b64_of(a) + seq!['|'] + b64_of(b) + seq!['|'] + b64_of(c)
}

/// True of a base64-encoded segment: only alphabet characters, so neither of
/// the two separators occurs in it.
pub open spec fn b64_seg(e: Seq<char>) -> bool {
    forall|i: int| 0 <= i < e.len() ==> is_b64_char(#[trigger] e[i])
}

/// A single decimal digit before the separator parses as that digit's value.
proof fn lemma_tag_of_digit_wire(s: Seq<char>, t: char)
    requires
        s.len() >= 2,
        s[0] == t,
        s[1] == '.',
        '0' <= t <= '9',
    ensures
        parsed_tag(s) == Some(t as int - 48),
        rest_str(s) == s.subrange(2, s.len() as int),
{
    assert(s[0] != '.');
    lemma_first_index_of_is_first(s, '.', 1);
    let tp = tag_str(s);
    assert(tp =~= seq![t]);
    assert(is_digits(tp));
    assert(tp.drop_last() =~= Seq::<char>::empty());
    assert(digits_val(tp) == digits_val(tp.drop_last()) * 10 + crate::text::digit_val(t));
    assert(digits_val(tp) == t as nat - 48);
}

/// How a one-segment wire string comes apart.
pub proof fn lemma_wire_1_parts(t: char, a: Seq<u8>)
    requires
        '0' <= t <= '9',
        b64_seg(b64_of(a)),
    ensures
        parsed_tag(wire_1(t, a)) == Some(t as int - 48),
        segments(wire_1(t, a)) == seq![b64_of(a)],
{
    let w = wire_1(t, a);
    assert(w[0] == t && w[1] == '.');
    lemma_tag_of_digit_wire(w, t);
    let rest = w.subrange(2, w.len() as int);
    assert(rest =~= b64_of(a));
    lemma_split_at_char_single(rest, '|');
}

/// How a two-segment wire string comes apart.
pub proof fn lemma_wire_2_parts(t: char, a: Seq<u8>, b: Seq<u8>)
    requires
        '0' <= t <= '9',
        b64_seg(b64_of(a)),
        b64_seg(b64_of(b)),
    ensures
        parsed_tag(wire_2(t, a, b)) == Some(t as int - 48),
        segments(wire_2(t, a, b)) == seq![b64_of(a), b64_of(b)],
{
    let w = wire_2(t, a, b);
    assert(w[0] == t && w[1] == '.');
    lemma_tag_of_digit_wire(w, t);
    let rest = w.subrange(2, w.len() as int);
    assert(rest =~= b64_of(a) + seq!['|'] + b64_of(b));
    lemma_split_at_char_append(b64_of(a), '|', b64_of(b));
    lemma_split_at_char_single(b64_of(b), '|');
    assert(split_at_char(rest, '|') =~= seq![b64_of(a), b64_of(b)]);
}

/// How a three-segment wire string comes apart.
pub proof fn lemma_wire_3_parts(t: char, a: Seq<u8>, b: Seq<u8>, c: Seq<u8>)
    requires
        '0' <= t <= '9',
        b64_seg(b64_of(a)),
        b64_seg(b64_of(b)),
        b64_seg(b64_of(c)),
    ensures
        parsed_tag(wire_3(t, a, b, c)) == Some(t as int - 48),
        segments(wire_3(t, a, b, c)) == seq![b64_of(a), b64_of(b), b64_of(c)],
{
    let w = wire_3(t, a, b, c);
    assert(w[0] == t && w[1] == '.');
    lemma_tag_of_digit_wire(w, t);
    let rest = w.subrange(2, w.len() as int);
    let tail = b64_of(b) + seq!['|'] + b64_of(c);
    assert(rest =~= b64_of(a) + seq!['|'] + tail);
    lemma_split_at_char_append(b64_of(a), '|', tail);
    lemma_split_at_char_append(b64_of(b), '|', b64_of(c));
    lemma_split_at_char_single(b64_of(c), '|');
    assert(split_at_char(rest, '|') =~= seq![b64_of(a), b64_of(b), b64_of(c)]);
}

/// Take a wire string apart into its numeric tag and its payload segments.
pub fn scan_value(s: &str) -> (r: (Option<usize>, Vec<String>))
    ensures
        r.0 is Some <==> parsed_tag(s@) is Some,
        r.0 is Some ==> r.0->0 == parsed_tag(s@)->0,
        r.1.deep_view() == segments(s@),
        r.1.len() >= 1,
{
    let n = s.unicode_len();
    let dot = find_char(s, '.');
    let tag_part = s.substring_char(0, dot);
    let tag = parse_usize(tag_part);
    let rest = if dot < n {
        s.substring_char(dot + 1, n)
    } else {
        s.substring_char(n, n)
    };
    proof {
        assert(rest@ =~= rest_str(s@));
    }
    let segs = split_on(rest, '|');
    (tag, segs)
}

} // verus!
