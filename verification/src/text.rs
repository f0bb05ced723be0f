//! Text: the few `str` operations the library needs from std, and byte-level helpers.

use vstd::prelude::*;

verus! {

/// Whether `c` has the Unicode `White_Space` property, which is what `char::is_whitespace`, and
/// so `str::trim`, goes by: the ASCII tab, line feed, vertical tab, form feed, carriage return
/// and space, next line, no-break space, ogham space mark, the spaces U+2000 to U+200A, line and
/// paragraph separators, narrow no-break space, medium mathematical space and ideographic space.
pub open spec fn unicode_whitespace(c: char) -> bool {
    let n = c as u32;
    ||| 0x09 <= n <= 0x0D
    ||| n == 0x20
    ||| n == 0x85
    ||| n == 0xA0
    ||| n == 0x1680
    ||| 0x2000 <= n <= 0x200A
    ||| n == 0x2028
    ||| n == 0x2029
    ||| n == 0x202F
    ||| n == 0x205F
    ||| n == 0x3000
}

/// `s` without its leading whitespace.
pub open spec fn trim_start_chars(s: Seq<char>) -> Seq<char>
    decreases s.len(),
{
    if s.len() > 0 && unicode_whitespace(s[0]) {
        trim_start_chars(s.drop_first())
    } else {
        s
    }
}

/// `s` without its trailing whitespace.
pub open spec fn trim_end_chars(s: Seq<char>) -> Seq<char>
    decreases s.len(),
{
    if s.len() > 0 && unicode_whitespace(s.last()) {
        trim_end_chars(s.drop_last())
    } else {
        s
    }
}

/// `s` without leading or trailing whitespace.
pub open spec fn trim_chars(s: Seq<char>) -> Seq<char> {
    trim_end_chars(trim_start_chars(s))
}

proof fn lemma_trim_start_padded(before: Seq<char>, rest: Seq<char>)
    requires
        forall|i: int| 0 <= i < before.len() ==> unicode_whitespace(#[trigger] before[i]),
    ensures
        trim_start_chars(before + rest) == trim_start_chars(rest),
    decreases before.len(),
{
    if before.len() > 0 {
        assert((before + rest).drop_first() == before.drop_first() + rest);
        assert((before + rest)[0] == before[0]);
        lemma_trim_start_padded(before.drop_first(), rest);
    }
}

proof fn lemma_trim_end_padded(rest: Seq<char>, after: Seq<char>)
    requires
        forall|i: int| 0 <= i < after.len() ==> unicode_whitespace(#[trigger] after[i]),
    ensures
        trim_end_chars(rest + after) == trim_end_chars(rest),
    decreases after.len(),
{
    if after.len() > 0 {
        assert((rest + after).drop_last() == rest + after.drop_last());
        assert((rest + after).last() == after.last());
        lemma_trim_end_padded(rest, after.drop_last());
    }
}

/// Whitespace around a text never changes what trimming it gives.
pub proof fn lemma_trim_padded(before: Seq<char>, s: Seq<char>, after: Seq<char>)
    requires
        forall|i: int| 0 <= i < before.len() ==> unicode_whitespace(#[trigger] before[i]),
        forall|i: int| 0 <= i < after.len() ==> unicode_whitespace(#[trigger] after[i]),
    ensures
        trim_chars(before + s + after) == trim_chars(s),
{
    assert(before + s + after == before + (s + after));
    lemma_trim_start_padded(before, s + after);
    // Trimming the end of `s + after` only ever eats `after` and then `s`'s own trailing run.
    lemma_trim_end_padded(s, after);
    lemma_trim_split(s, after);
}

/// Trimming both ends of `s + after`, where `after` is all whitespace, is trimming `s`.
proof fn lemma_trim_split(s: Seq<char>, after: Seq<char>)
    requires
        forall|i: int| 0 <= i < after.len() ==> unicode_whitespace(#[trigger] after[i]),
    ensures
        trim_end_chars(trim_start_chars(s + after)) == trim_end_chars(trim_start_chars(s)),
    decreases s.len(),
{
    if s.len() > 0 && unicode_whitespace(s[0]) {
        assert((s + after).drop_first() == s.drop_first() + after);
        assert((s + after)[0] == s[0]);
        lemma_trim_split(s.drop_first(), after);
    } else if s.len() == 0 {
        assert(s + after == after);
        lemma_trim_start_padded(after, Seq::<char>::empty());
        assert(after + Seq::<char>::empty() == after);
        lemma_trim_all_white(after);
    } else {
        // `s` starts with a non-space, so trimming the start leaves `s + after` and `s` whole.
        assert(trim_start_chars(s + after) == s + after) by {
            assert((s + after)[0] == s[0]);
        }
        lemma_trim_end_padded(s, after);
    }
}

proof fn lemma_trim_all_white(s: Seq<char>)
    requires
        forall|i: int| 0 <= i < s.len() ==> unicode_whitespace(#[trigger] s[i]),
    ensures
        trim_end_chars(trim_start_chars(s)) == Seq::<char>::empty(),
{
    lemma_trim_start_padded(s, Seq::<char>::empty());
    assert(s + Seq::<char>::empty() == s);
}

/// Where `c` first occurs in `s` (the length of `s` when it does not).
pub open spec fn first_index(s: Seq<char>, c: char) -> int
    decreases s.len(),
{
    if s.len() == 0 {
        0
    } else if s[0] == c {
        0
    } else {
        1 + first_index(s.drop_first(), c)
    }
}

pub proof fn lemma_first_index(s: Seq<char>, c: char)
    ensures
        0 <= first_index(s, c) <= s.len(),
        s.contains(c) ==> first_index(s, c) < s.len() && s[first_index(s, c)] == c,
        first_index(s, c) < s.len() ==> s[first_index(s, c)] == c,
        !s.contains(c) ==> first_index(s, c) == s.len(),
        forall|j: int| 0 <= j < first_index(s, c) ==> s[j] != c,
    decreases s.len(),
{
    if s.len() > 0 && s[0] != c {
        lemma_first_index(s.drop_first(), c);
        if s.contains(c) {
            let k = choose|k: int| 0 <= k < s.len() && s[k] == c;
            assert(k > 0);
            assert(s.drop_first()[k - 1] == c);
        }
        assert forall|j: int| 0 <= j < first_index(s, c) implies s[j] != c by {
            if j > 0 {
                assert(s[j] == s.drop_first()[j - 1]);
            }
        }
        if first_index(s, c) < s.len() {
            assert(s[first_index(s, c)] == s.drop_first()[first_index(s, c) - 1]);
        }
        if !s.contains(c) && first_index(s, c) < s.len() {
            assert(s[first_index(s, c)] == c);
        }
    }
}

/// A split around a first occurrence is the split at [`first_index`].
pub proof fn lemma_split_at_first(s: Seq<char>, c: char, before: Seq<char>, after: Seq<char>)
    requires
        s == before + seq![c] + after,
        !before.contains(c),
    ensures
        s.contains(c),
        first_index(s, c) == before.len(),
        before == s.take(first_index(s, c)),
        after == s.skip(first_index(s, c) + 1),
{
    assert(s[before.len() as int] == c);
    lemma_first_index(s, c);
    let i = first_index(s, c);
    if i < before.len() {
        assert(before[i] == c);
    }
    assert(i <= before.len());
    assert(s.take(i) =~= before);
    assert(s.skip(i + 1) =~= after);
}

/// Whether `prefix` starts `s`.
pub open spec fn starts_with(s: Seq<char>, prefix: Seq<char>) -> bool {
    prefix.len() <= s.len() && s.subrange(0, prefix.len() as int) == prefix
}

/// `str::trim`: the slice without leading and trailing whitespace.
#[verifier::external_body]
pub(crate) fn trim(s: &str) -> (r: &str)
    ensures
        r@ == trim_chars(s@),
        r@.len() > 0 ==> !unicode_whitespace(r@[0]) && !unicode_whitespace(r@.last()),
{
    s.trim()
}

/// `str::strip_prefix` with a string pattern: the rest after `prefix`, if `s` starts with it.
#[verifier::external_body]
pub(crate) fn strip_prefix<'a>(s: &'a str, prefix: &str) -> (r: Option<&'a str>)
    ensures
        r is Some <==> starts_with(s@, prefix@),
        r matches Some(rest) ==> s@ == prefix@ + rest@,
{
    s.strip_prefix(prefix)
}

/// `str::contains` with a character pattern.
#[verifier::external_body]
pub(crate) fn contains_char(s: &str, c: char) -> (r: bool)
    ensures
        r == s@.contains(c),
{
    s.contains(c)
}

/// `str::split_once` with a character pattern: around the first occurrence of `c`.
#[verifier::external_body]
pub(crate) fn split_once(s: &str, c: char) -> (r: Option<(&str, &str)>)
    ensures
        r is None <==> !s@.contains(c),
        r matches Some((before, after)) ==> s@ == before@ + seq![c] + after@ && !before@.contains(c),
{
    s.split_once(c)
}

/// `s` without its trailing run of `c`.
pub open spec fn trim_end_char(s: Seq<char>, c: char) -> Seq<char>
    decreases s.len(),
{
    if s.len() > 0 && s.last() == c {
        trim_end_char(s.drop_last(), c)
    } else {
        s
    }
}

/// `str::trim_end_matches` with a character pattern.
#[verifier::external_body]
pub(crate) fn trim_end_matches(s: &str, c: char) -> (r: &str)
    ensures
        r@ == trim_end_char(s@, c),
{
    s.trim_end_matches(c)
}

/// `str`'s `==`: the same characters.
#[verifier::external_body]
pub(crate) fn str_eq(left: &str, right: &str) -> (r: bool)
    ensures
        r == (left@ == right@),
{
    left == right
}

/// An ASCII byte in upper case; every other byte unchanged.
pub open spec fn upper_byte(b: u8) -> u8 {
    if 97 <= b <= 122 { (b - 32) as u8 } else { b }
}

/// Bytes with every ASCII lower-case letter raised, as `str::to_ascii_uppercase` does.
pub open spec fn upper_bytes(s: Seq<u8>) -> Seq<u8> {
    s.map_values(|b: u8| upper_byte(b))
}

/// Append `tail` to `bytes`.
pub fn push_all(bytes: &mut Vec<u8>, tail: &[u8])
    ensures
        final(bytes)@ == old(bytes)@ + tail@,
{
    let mut i: usize = 0;
    while i < tail.len()
        invariant
            0 <= i <= tail@.len(),
            bytes@ == old(bytes)@ + tail@.subrange(0, i as int),
        decreases tail@.len() - i,
    {
        bytes.push(tail[i]);
        i += 1;
        assert(tail@.subrange(0, i as int) == tail@.subrange(0, i - 1) + seq![tail@[i - 1]]);
    }
    assert(tail@.subrange(0, tail@.len() as int) == tail@);
}

/// Append `tail` to `bytes` with every ASCII lower-case letter raised.
pub fn push_upper(bytes: &mut Vec<u8>, tail: &[u8])
    ensures
        final(bytes)@ == old(bytes)@ + upper_bytes(tail@),
{
    let mut i: usize = 0;
    while i < tail.len()
        invariant
            0 <= i <= tail@.len(),
            bytes@ == old(bytes)@ + upper_bytes(tail@.subrange(0, i as int)),
        decreases tail@.len() - i,
    {
        let b = tail[i];
        let raised: u8 = if 97 <= b && b <= 122 { b - 32 } else { b };
        bytes.push(raised);
        i += 1;
        assert(upper_bytes(tail@.subrange(0, i as int)) == upper_bytes(tail@.subrange(0, i - 1)) + seq![upper_byte(tail@[i - 1])]);
    }
    assert(tail@.subrange(0, tail@.len() as int) == tail@);
}

} // verus!
