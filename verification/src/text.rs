//! Shared text machinery: Unicode lowercasing and whitespace behind
//! trusted declarations, UTF-8 widths, trimming, and substring search
//! over character sequences.

use vstd::prelude::*;

verus! {

/// What `str::to_lowercase` returns for a given character sequence.
pub uninterp spec fn lower_of(s: Seq<char>) -> Seq<char>;

/// Relies on str::to_lowercase: the result is a function of the
/// characters alone, here only given a name.
#[verifier::external_body]
pub fn lowercase(s: &str) -> (r: String)
    ensures
        r@ == lower_of(s@),
{
    s.to_lowercase()
}

/// Whether `char::is_whitespace` holds of a character.
pub uninterp spec fn is_space(c: char) -> bool;

/// Relies on char::is_whitespace: a property of the character alone,
/// here only given a name.
#[verifier::external_body]
pub fn is_whitespace_char(c: char) -> (r: bool)
    ensures
        r == is_space(c),
{
    c.is_whitespace()
}

/// Relies on String::push: appends one character.
#[verifier::external_body]
pub fn push_char(s: &mut String, c: char)
    ensures
        final(s)@ == old(s)@.push(c),
{
    s.push(c);
}

/// The number of bytes the UTF-8 encoding of a character takes,
/// determined by its codepoint range.
pub open spec fn char_w(c: char) -> nat {
    if (c as u32) < 0x80 {
        1
    } else if (c as u32) < 0x800 {
        2
    } else if (c as u32) < 0x10000 {
        3
    } else {
        4
    }
}

/// Relies on char::len_utf8: one byte below U+0080, two below U+0800,
/// three below U+10000, four beyond.
#[verifier::external_body]
pub fn char_width(c: char) -> (n: usize)
    ensures
        n == char_w(c),
{
    c.len_utf8()
}

/// The byte length of the UTF-8 encoding of a character sequence.
pub open spec fn width_prefix(s: Seq<char>, k: int) -> nat
    recommends
        0 <= k <= s.len(),
    decreases k,
{
    if k <= 0 {
        0
    } else {
        width_prefix(s, k - 1) + char_w(s[k - 1])
    }
}

/// The byte length of a whole character sequence under UTF-8.
pub open spec fn total_w(s: Seq<char>) -> nat {
    width_prefix(s, s.len() as int)
}

/// Relies on str::len: the byte length of the string, which is the sum
/// of the UTF-8 widths of its characters.
#[verifier::external_body]
pub fn byte_len(s: &str) -> (n: usize)
    ensures
        n == total_w(s@),
{
    s.len()
}

/// Byte widths accumulate one character at a time, each at least one
/// byte: prefixes of more characters are strictly wider.
pub proof fn lemma_width_prefix_mono(s: Seq<char>, k1: int, k2: int)
    requires
        0 <= k1 <= k2 <= s.len(),
    ensures
        width_prefix(s, k1) + (k2 - k1) <= width_prefix(s, k2),
    decreases k2 - k1,
{
    if k1 < k2 {
        lemma_width_prefix_mono(s, k1, k2 - 1);
    }
}

/// A byte offset is reached by at most one character count: boundaries
/// are unique.
pub proof fn lemma_width_prefix_unique(s: Seq<char>, k1: int, k2: int)
    requires
        0 <= k1 <= s.len(),
        0 <= k2 <= s.len(),
        width_prefix(s, k1) == width_prefix(s, k2),
    ensures
        k1 == k2,
{
    if k1 < k2 {
        lemma_width_prefix_mono(s, k1, k2);
    }
    if k2 < k1 {
        lemma_width_prefix_mono(s, k2, k1);
    }
}

/// Two sequences agreeing on their first `k` characters have the same
/// prefix widths up to `k`.
pub proof fn lemma_width_prefix_agree(s: Seq<char>, t: Seq<char>, k: int)
    requires
        0 <= k <= s.len(),
        k <= t.len(),
        forall|j: int| 0 <= j < k ==> s[j] == t[j],
    ensures
        width_prefix(s, k) == width_prefix(t, k),
    decreases k,
{
    if k > 0 {
        lemma_width_prefix_agree(s, t, k - 1);
    }
}

/// The needle read at offset `i` of the haystack, character by
/// character.
pub open spec fn match_at(needle: Seq<char>, hay: Seq<char>, i: int) -> bool {
    &&& 0 <= i
    &&& i + needle.len() <= hay.len()
    &&& forall|j: int| 0 <= j < needle.len() ==> hay[i + j] == needle[j]
}

/// Whether the needle occurs contiguously anywhere in the haystack.
pub open spec fn is_substring_of(needle: Seq<char>, hay: Seq<char>) -> bool {
    exists|i: int| match_at(needle, hay, i)
}

/// Substring test over characters, as `str::contains` performs it.
pub fn contains_chars(hay: &str, needle: &str) -> (r: bool)
    ensures
        r == is_substring_of(needle@, hay@),
{
    let n = needle.unicode_len();
    let h = hay.unicode_len();
    if n > h {
        return false;
    }
    let mut i: usize = 0;
    while i <= h - n
        invariant
            n <= h,
            n == needle@.len(),
            h == hay@.len(),
            i <= h - n + 1,
            forall|x: int| 0 <= x < i ==> !match_at(needle@, hay@, x),
        decreases h - n - i + 1,
    {
        let mut j: usize = 0;
        let mut ok = true;
        while j < n && ok
            invariant
                j <= n,
                ok ==> forall|y: int| 0 <= y < j ==> hay@[i + y] == needle@[y],
                !ok ==> !match_at(needle@, hay@, i as int),
            decreases n - j + (if ok {
                1int
            } else {
                0int
            }),
        {
            if hay.get_char(i + j) != needle.get_char(j) {
                ok = false;
            } else {
                j = j + 1;
            }
        }
        if ok {
            assert(match_at(needle@, hay@, i as int));
            return true;
        }
        i = i + 1;
    }
    false
}

/// The first position at or after `i` holding a non-whitespace
/// character; the length when there is none.
pub open spec fn first_non_space(s: Seq<char>, i: int) -> int
    decreases s.len() - i,
{
    if i < 0 || i >= s.len() {
        s.len() as int
    } else if !is_space(s[i]) {
        i
    } else {
        first_non_space(s, i + 1)
    }
}

/// One past the last non-whitespace character strictly before `i`;
/// zero when there is none.
pub open spec fn last_non_space_end(s: Seq<char>, i: int) -> int
    decreases i,
{
    if i <= 0 || i > s.len() {
        0
    } else if !is_space(s[i - 1]) {
        i
    } else {
        last_non_space_end(s, i - 1)
    }
}

/// The character sequence with leading whitespace removed.
pub open spec fn trim_start_spec(s: Seq<char>) -> Seq<char> {
    s.skip(first_non_space(s, 0))
}

/// The character sequence with leading and trailing whitespace
/// removed.
pub open spec fn trim_spec(s: Seq<char>) -> Seq<char> {
    if first_non_space(s, 0) == s.len() {
        Seq::empty()
    } else {
        s.subrange(first_non_space(s, 0), last_non_space_end(s, s.len() as int))
    }
}

pub proof fn lemma_first_non_space_bounds(s: Seq<char>, i: int)
    requires
        0 <= i <= s.len(),
    ensures
        i <= first_non_space(s, i) <= s.len(),
        first_non_space(s, i) < s.len() ==> !is_space(s[first_non_space(s, i)]),
        forall|k: int| i <= k < first_non_space(s, i) ==> is_space(#[trigger] s[k]),
    decreases s.len() - i,
{
    if i < s.len() && is_space(s[i]) {
        lemma_first_non_space_bounds(s, i + 1);
    }
}

pub proof fn lemma_last_non_space_end_bounds(s: Seq<char>, i: int)
    requires
        0 <= i <= s.len(),
    ensures
        0 <= last_non_space_end(s, i) <= i,
        last_non_space_end(s, i) > 0 ==> !is_space(s[last_non_space_end(s, i) - 1]),
        forall|k: int| last_non_space_end(s, i) <= k < i ==> is_space(#[trigger] s[k]),
    decreases i,
{
    if i > 0 && is_space(s[i - 1]) {
        lemma_last_non_space_end_bounds(s, i - 1);
    }
}

/// When some character is not whitespace, the trim window is ordered:
/// the first kept position lies before its end.
pub proof fn lemma_trim_window(s: Seq<char>)
    requires
        first_non_space(s, 0) < s.len(),
    ensures
        first_non_space(s, 0) < last_non_space_end(s, s.len() as int),
        last_non_space_end(s, s.len() as int) <= s.len(),
{
    lemma_first_non_space_bounds(s, 0);
    lemma_last_non_space_end_bounds(s, s.len() as int);
    let f = first_non_space(s, 0);
    let e = last_non_space_end(s, s.len() as int);
    if e <= f {
        assert(is_space(s[f]));
    }
}

/// Leading-whitespace trim, as `str::trim_start` performs it.
pub fn trim_start_str<'a>(s: &'a str) -> (r: &'a str)
    ensures
        r@ == trim_start_spec(s@),
{
    let n = s.unicode_len();
    let mut i: usize = 0;
    while i < n && is_whitespace_char(s.get_char(i))
        invariant
            i <= n,
            n == s@.len(),
            first_non_space(s@, 0) == first_non_space(s@, i as int),
        decreases n - i,
    {
        i = i + 1;
    }
    proof {
        lemma_first_non_space_bounds(s@, i as int);
        assert(first_non_space(s@, i as int) == i);
    }
    s.substring_char(i, n)
}

/// Both-ends trim, as `str::trim` performs it.
pub fn trim_str<'a>(s: &'a str) -> (r: &'a str)
    ensures
        r@ == trim_spec(s@),
{
    let n = s.unicode_len();
    let mut i: usize = 0;
    while i < n && is_whitespace_char(s.get_char(i))
        invariant
            i <= n,
            n == s@.len(),
            first_non_space(s@, 0) == first_non_space(s@, i as int),
        decreases n - i,
    {
        i = i + 1;
    }
    if i == n {
        proof {
            lemma_first_non_space_bounds(s@, i as int);
        }
        return s.substring_char(n, n);
    }
    let mut e: usize = n;
    while e > 0 && is_whitespace_char(s.get_char(e - 1))
        invariant
            0 <= e <= n,
            n == s@.len(),
            last_non_space_end(s@, n as int) == last_non_space_end(s@, e as int),
        decreases e,
    {
        e = e - 1;
    }
    proof {
        lemma_first_non_space_bounds(s@, i as int);
        lemma_trim_window(s@);
        lemma_last_non_space_end_bounds(s@, e as int);
        if e == 0 {
            assert(last_non_space_end(s@, n as int) == 0);
            assert(first_non_space(s@, 0) < last_non_space_end(s@, n as int));
            assert(false);
        }
    }
    s.substring_char(i, e)
}

} // verus!
