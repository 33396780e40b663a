//! Small character and string helpers shared by the encoder, decoder
//! and the exchange logic: ASCII upper-casing, whitespace tests, and
//! character-wise string equality and search.

use vstd::prelude::*;

verus! {

/// ASCII upper-casing of one character; everything else is unchanged.
pub open spec fn spec_upper(c: char) -> char {
    if 'a' <= c && c <= 'z' {
        ((c as u32) - 32) as char
    } else {
        c
    }
}

/// Upper-cases one ASCII letter, as the code table expects.
pub fn to_upper(c: char) -> (r: char)
    ensures
        r == spec_upper(c),
{
    if 'a' <= c && c <= 'z' {
        (((c as u32) - 32) as u8) as char
    } else {
        c
    }
}

/// The whitespace that separates words: blank, tab, line and carriage
/// returns.
pub open spec fn spec_is_space(c: char) -> bool {
    c == ' ' || c == '\t' || c == '\n' || c == '\r'
}

/// Whether `c` separates words.
pub fn is_space(c: char) -> (r: bool)
    ensures
        r == spec_is_space(c),
{
    c == ' ' || c == '\t' || c == '\n' || c == '\r'
}

/// Relies on `String::push`: appends exactly the one character.
#[verifier::external_body]
pub fn push_char(s: &mut String, c: char)
    ensures
        final(s)@ == old(s)@.push(c),
{
    s.push(c);
}

/// Character-wise equality of two string slices.
pub fn str_eq(a: &str, b: &str) -> (r: bool)
    ensures
        r == (a@ == b@),
{
    let n = a.unicode_len();
    if n != b.unicode_len() {
        proof {
            assert(a@ != b@) by {
                assert(a@.len() != b@.len());
            }
        }
        return false;
    }
    let mut i: usize = 0;
    while i < n
        invariant
            n == a@.len(),
            n == b@.len(),
            i <= n,
            forall|j: int| 0 <= j < i ==> a@[j] == b@[j],
        decreases n - i,
    {
        if a.get_char(i) != b.get_char(i) {
            return false;
        }
        i += 1;
    }
    proof {
        assert(a@ =~= b@);
    }
    true
}

/// Where the word starting at `i` ends: the first position at or after
/// `i` holding whitespace, or the end of the text.
pub open spec fn spec_word_end(s: Seq<char>, i: int) -> int
    decreases s.len() - i,
{
    if i < 0 || i >= s.len() {
        s.len() as int
    } else if spec_is_space(s[i]) {
        i
    } else {
        spec_word_end(s, i + 1)
    }
}

pub proof fn lemma_word_end_bounds(s: Seq<char>, i: int)
    requires
        0 <= i <= s.len(),
    ensures
        i <= spec_word_end(s, i) <= s.len(),
        forall|k: int| i <= k < spec_word_end(s, i) ==> !spec_is_space(s[k]),
        spec_word_end(s, i) < s.len() ==> spec_is_space(s[spec_word_end(s, i)]),
    decreases s.len() - i,
{
    if i < s.len() && !spec_is_space(s[i]) {
        lemma_word_end_bounds(s, i + 1);
    }
}

/// A stretch of non-space characters delimited on both sides is the
/// word that starts at its first position.
pub proof fn lemma_word_end_exact(s: Seq<char>, start: int, e: int)
    requires
        0 <= start <= e <= s.len(),
        forall|k: int| start <= k < e ==> !spec_is_space(s[k]),
        e == s.len() || spec_is_space(s[e]),
    ensures
        spec_word_end(s, start) == e,
    decreases e - start,
{
    if start < e {
        lemma_word_end_exact(s, start + 1, e);
    }
}

/// The words of the text from position `i` on, in order: what
/// splitting on whitespace yields.
pub open spec fn spec_words_from(s: Seq<char>, i: int) -> Seq<Seq<char>>
    decreases s.len() - i,
    via spec_words_from_dec
{
    if i < 0 || i >= s.len() {
        Seq::empty()
    } else if spec_is_space(s[i]) {
        spec_words_from(s, i + 1)
    } else {
        seq![s.subrange(i, spec_word_end(s, i))] + spec_words_from(s, spec_word_end(s, i))
    }
}

#[via_fn]
proof fn spec_words_from_dec(s: Seq<char>, i: int) {
    if 0 <= i && i < s.len() && !spec_is_space(s[i]) {
        lemma_word_end_bounds(s, i + 1);
    }
}

/// A string upper-cased character by character.
pub open spec fn spec_upper_seq(s: Seq<char>) -> Seq<char> {
    s.map_values(|c: char| spec_upper(c))
}

/// ASCII upper-casing of a whole string.
pub fn upper_str(s: &str) -> (r: String)
    ensures
        r@ == spec_upper_seq(s@),
{
    let n = s.unicode_len();
    let mut r = String::new();
    let mut i: usize = 0;
    while i < n
        invariant
            n == s@.len(),
            i <= n,
            r@ == spec_upper_seq(s@.take(i as int)),
        decreases n - i,
    {
        push_char(&mut r, to_upper(s.get_char(i)));
        proof {
            assert(s@.take(i + 1).drop_last() =~= s@.take(i as int));
            assert(spec_upper_seq(s@.take(i + 1)) =~= spec_upper_seq(s@.take(i as int)).push(
                spec_upper(s@[i as int]),
            ));
        }
        i += 1;
    }
    proof {
        assert(s@.take(n as int) =~= s@);
    }
    r
}

/// Whether the character occurs in the string.
pub open spec fn spec_contains_char(s: Seq<char>, c: char) -> bool {
    exists|i: int| 0 <= i < s.len() && s[i] == c
}

/// Whether `c` occurs in `s`.
pub fn contains_char(s: &str, c: char) -> (r: bool)
    ensures
        r == spec_contains_char(s@, c),
{
    let n = s.unicode_len();
    let mut i: usize = 0;
    while i < n
        invariant
            n == s@.len(),
            i <= n,
            forall|j: int| 0 <= j < i ==> s@[j] != c,
        decreases n - i,
    {
        if s.get_char(i) == c {
            return true;
        }
        i += 1;
    }
    false
}

/// Whether `needle` occurs in `hay` as a contiguous run.
pub open spec fn spec_contains_seq(hay: Seq<char>, needle: Seq<char>) -> bool {
    exists|i: int|
        0 <= i && i + needle.len() <= hay.len() && #[trigger] hay.subrange(i, i + needle.len())
            == needle
}

/// Substring search, character by character.
pub fn str_contains(hay: &str, needle: &str) -> (r: bool)
    ensures
        r == spec_contains_seq(hay@, needle@),
{
    let hlen = hay.unicode_len();
    let nlen = needle.unicode_len();
    if nlen > hlen {
        return false;
    }
    if nlen == 0 {
        proof {
            assert(hay@.subrange(0, 0 + needle@.len() as int) =~= needle@);
        }
        return true;
    }
    let mut i: usize = 0;
    while i <= hlen - nlen
        invariant
            hlen == hay@.len(),
            nlen == needle@.len(),
            nlen <= hlen,
            1 <= nlen <= hlen,
            i <= hlen - nlen + 1,
            forall|k: int|
                0 <= k < i ==> #[trigger] hay@.subrange(k, k + needle@.len()) != needle@,
        decreases hlen - i,
    {
        let mut j: usize = 0;
        let mut matched = true;
        while j < nlen
            invariant
                hlen == hay@.len(),
                nlen == needle@.len(),
                i + nlen <= hlen,
                j <= nlen,
                matched ==> forall|l: int| 0 <= l < j ==> hay@[i + l] == needle@[l],
                !matched ==> hay@.subrange(i as int, i + needle@.len()) != needle@,
            decreases nlen - j,
        {
            if matched {
                if hay.get_char(i + j) != needle.get_char(j) {
                    proof {
                        assert(hay@.subrange(i as int, i + needle@.len())[j as int] == hay@[i
                            + j]);
                    }
                    matched = false;
                }
            }
            j += 1;
        }
        if matched {
            proof {
                assert(hay@.subrange(i as int, i + needle@.len()) =~= needle@);
            }
            return true;
        }
        i += 1;
    }
    false
}

/// The decimal digit `d` as a character.
pub open spec fn spec_digit(d: int) -> char {
    (('0' as int) + d) as char
}

/// The decimal digits of `n`, most significant first.
pub open spec fn spec_decimal(n: int) -> Seq<char>
    decreases n,
{
    if n < 0 {
        Seq::empty()
    } else if n < 10 {
        seq![spec_digit(n)]
    } else {
        spec_decimal(n / 10).push(spec_digit(n % 10))
    }
}

/// One decimal digit as a character.
fn digit_char(d: u32) -> (c: char)
    requires
        d < 10,
    ensures
        c == spec_digit(d as int),
{
    ((48 + d) as u8) as char
}

/// `n` written in decimal.
pub fn u32_to_string(n: u32) -> (r: String)
    ensures
        r@ == spec_decimal(n as int),
    decreases n,
{
    if n < 10 {
        let mut s = String::new();
        push_char(&mut s, digit_char(n));
        proof {
            assert(s@ =~= seq![spec_digit(n as int)]);
        }
        s
    } else {
        let mut s = u32_to_string(n / 10);
        push_char(&mut s, digit_char(n % 10));
        s
    }
}

/// `n` written in decimal, zero-padded to at least three digits, as a
/// contest serial number is sent.
pub open spec fn spec_pad3(n: int) -> Seq<char> {
    if n < 10 {
        seq!['0', '0'] + spec_decimal(n)
    } else if n < 100 {
        seq!['0'] + spec_decimal(n)
    } else {
        spec_decimal(n)
    }
}

/// `n` as a three-digit contest serial.
pub fn u32_to_serial(n: u32) -> (r: String)
    ensures
        r@ == spec_pad3(n as int),
{
    let mut s = String::new();
    if n < 10 {
        push_char(&mut s, '0');
        push_char(&mut s, '0');
    } else if n < 100 {
        push_char(&mut s, '0');
    }
    let d = u32_to_string(n);
    s.append(d.as_str());
    proof {
        if n < 10 {
            assert(s@ =~= spec_pad3(n as int));
        } else if n < 100 {
            assert(s@ =~= spec_pad3(n as int));
        } else {
            assert(s@ =~= spec_pad3(n as int));
        }
    }
    s
}

/// The whitespace-separated words of the text, each its own string.
pub fn split_words(text: &str) -> (r: Vec<String>)
    ensures
        r@.map_values(|w: String| w@) == spec_words_from(text@, 0),
{
    let ghost s = text@;
    let n = text.unicode_len();
    let mut words: Vec<String> = Vec::new();
    let mut i: usize = 0;
    while i < n
        invariant
            n == s.len(),
            text@ == s,
            i <= n,
            words@.map_values(|w: String| w@) + spec_words_from(s, i as int) == spec_words_from(
                s,
                0,
            ),
        decreases n - i,
    {
        let c = text.get_char(i);
        if is_space(c) {
            i += 1;
        } else {
            let start = i;
            i += 1;
            while i < n && !is_space(text.get_char(i))
                invariant
                    n == s.len(),
                    text@ == s,
                    start < i <= n,
                    forall|k: int| start <= k < i ==> !spec_is_space(s[k]),
                decreases n - i,
            {
                i += 1;
            }
            proof {
                lemma_word_end_exact(s, start as int, i as int);
            }
            let w = text.substring_char(start, i).to_owned();
            words.push(w);
            proof {
                assert(words@.map_values(|w: String| w@) =~= words@.drop_last().map_values(
                    |w: String| w@,
                ).push(words@.last()@));
                assert(words@.map_values(|w: String| w@) + spec_words_from(s, i as int)
                    =~= spec_words_from(s, 0));
            }
        }
    }
    proof {
        assert(words@.map_values(|w: String| w@) =~= spec_words_from(s, 0));
    }
    words
}

} // verus!
