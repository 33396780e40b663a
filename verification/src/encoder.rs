//! Text to a timed tone sequence.
//!
//! The encoder splits text on whitespace, looks each character up in
//! the ITU code table, and emits (tone-on, duration) pairs with the
//! proper inter-element, inter-character and word gaps.  A word written
//! `<AR>`-style is a prosign: its letters run together with element
//! gaps only, never a character gap.

use vstd::prelude::*;

use crate::text::{is_space, lemma_word_end_exact, spec_is_space, spec_upper, spec_words_from, to_upper};
use crate::timing::Timing;

verus! {

/// The ITU code for one upper-case character, as a `.`/`-` sequence.
pub open spec fn spec_code_of_upper(u: char) -> Option<Seq<char>> {
    match u {
        'A' => Some(".-"@),
        'B' => Some("-..."@),
        'C' => Some("-.-."@),
        'D' => Some("-.."@),
        'E' => Some("."@),
        'F' => Some("..-."@),
        'G' => Some("--."@),
        'H' => Some("...."@),
        'I' => Some(".."@),
        'J' => Some(".---"@),
        'K' => Some("-.-"@),
        'L' => Some(".-.."@),
        'M' => Some("--"@),
        'N' => Some("-."@),
        'O' => Some("---"@),
        'P' => Some(".--."@),
        'Q' => Some("--.-"@),
        'R' => Some(".-."@),
        'S' => Some("..."@),
        'T' => Some("-"@),
        'U' => Some("..-"@),
        'V' => Some("...-"@),
        'W' => Some(".--"@),
        'X' => Some("-..-"@),
        'Y' => Some("-.--"@),
        'Z' => Some("--.."@),
        '0' => Some("-----"@),
        '1' => Some(".----"@),
        '2' => Some("..---"@),
        '3' => Some("...--"@),
        '4' => Some("....-"@),
        '5' => Some("....."@),
        '6' => Some("-...."@),
        '7' => Some("--..."@),
        '8' => Some("---.."@),
        '9' => Some("----."@),
        '.' => Some(".-.-.-"@),
        ',' => Some("--..--"@),
        '?' => Some("..--.."@),
        '/' => Some("-..-."@),
        '+' => Some(".-.-."@),
        '=' => Some("-...-"@),
        '-' => Some("-....-"@),
        '@' => Some(".--.-."@),
        '(' => Some("-.--."@),
        ')' => Some("-.--.-"@),
        '\'' => Some(".----."@),
        _ => None,
    }
}

/// The code of a character after ASCII upper-casing, or `None` when the
/// character has no Morse code and is skipped by the encoder.
pub open spec fn spec_char_code(c: char) -> Option<Seq<char>> {
    spec_code_of_upper(spec_upper(c))
}

/// ITU Morse code table.
pub fn char_to_morse(c: char) -> (r: Option<&'static str>)
    ensures
        match r {
            Some(s) => spec_char_code(c) == Some(s@),
            None => spec_char_code(c) is None,
        },
{
    let u = to_upper(c);
    match u {
        'A' => Some(".-"),
        'B' => Some("-..."),
        'C' => Some("-.-."),
        'D' => Some("-.."),
        'E' => Some("."),
        'F' => Some("..-."),
        'G' => Some("--."),
        'H' => Some("...."),
        'I' => Some(".."),
        'J' => Some(".---"),
        'K' => Some("-.-"),
        'L' => Some(".-.."),
        'M' => Some("--"),
        'N' => Some("-."),
        'O' => Some("---"),
        'P' => Some(".--."),
        'Q' => Some("--.-"),
        'R' => Some(".-."),
        'S' => Some("..."),
        'T' => Some("-"),
        'U' => Some("..-"),
        'V' => Some("...-"),
        'W' => Some(".--"),
        'X' => Some("-..-"),
        'Y' => Some("-.--"),
        'Z' => Some("--.."),
        '0' => Some("-----"),
        '1' => Some(".----"),
        '2' => Some("..---"),
        '3' => Some("...--"),
        '4' => Some("....-"),
        '5' => Some("....."),
        '6' => Some("-...."),
        '7' => Some("--..."),
        '8' => Some("---.."),
        '9' => Some("----."),
        '.' => Some(".-.-.-"),
        ',' => Some("--..--"),
        '?' => Some("..--.."),
        '/' => Some("-..-."),
        '+' => Some(".-.-."),
        '=' => Some("-...-"),
        '-' => Some("-....-"),
        '@' => Some(".--.-."),
        '(' => Some("-.--."),
        ')' => Some("-.--.-"),
        '\'' => Some(".----."),
        _ => None,
    }
}

/// The combined element pattern of a bracket-delimited prosign token,
/// or of the bare `+` alias for `<AR>`.
pub open spec fn spec_prosign_code(w: Seq<char>) -> Option<Seq<char>> {
    if w == "<AR>"@ || w == "+"@ {
        Some(".-.-."@)
    } else if w == "<SK>"@ {
        Some("...-.-"@)
    } else if w == "<KN>"@ {
        Some("-.--."@)
    } else if w == "<BK>"@ {
        Some("-...-.-"@)
    } else if w == "<SOS>"@ {
        Some("...---..."@)
    } else if w == "<HH>"@ {
        Some("........"@)
    } else {
        None
    }
}

/// The elements of one code string: a tone per mark (one dot for `.`,
/// three for `-`), with a one-dot silence between consecutive marks
/// when `inter_elem` is set.
pub open spec fn spec_code_tones(code: Seq<char>, t: Timing, inter_elem: bool) -> Seq<(bool, u64)>
    decreases code.len(),
{
    if code.len() == 0 {
        Seq::empty()
    } else {
        let dur = if code[0] == '-' {
            t.dash
        } else {
            t.dot
        };
        let head: Seq<(bool, u64)> = if code.len() > 1 && inter_elem {
            seq![(true, dur), (false, t.elem_gap)]
        } else {
            seq![(true, dur)]
        };
        head + spec_code_tones(code.skip(1), t, inter_elem)
    }
}

/// The tones of one ordinary word: each character with a code emits
/// its elements, followed by an inter-character gap unless it stands
/// last in the word; codeless characters emit nothing and no gap of
/// their own.
pub open spec fn spec_word_tones(w: Seq<char>, t: Timing) -> Seq<(bool, u64)>
    decreases w.len(),
{
    if w.len() == 0 {
        Seq::empty()
    } else {
        let head: Seq<(bool, u64)> = match spec_char_code(w[0]) {
            Some(code) => spec_code_tones(code, t, true) + (if w.len() > 1 {
                seq![(false, t.char_gap)]
            } else {
                Seq::empty()
            }),
            None => Seq::empty(),
        };
        head + spec_word_tones(w.skip(1), t)
    }
}

/// The tones of one whitespace-delimited token.  A `<...>` token is a
/// prosign: its combined pattern runs with element gaps only, and an
/// unknown prosign emits nothing.  Anything else is an ordinary word.
pub open spec fn spec_token_tones(w: Seq<char>, t: Timing) -> Seq<(bool, u64)> {
    if w.len() >= 1 && w[0] == '<' && w[w.len() - 1] == '>' {
        match spec_prosign_code(w) {
            Some(code) => spec_code_tones(code, t, true),
            None => Seq::empty(),
        }
    } else {
        spec_word_tones(w, t)
    }
}

/// The tones of a word list: each token's tones, with one word gap
/// between consecutive tokens.
pub open spec fn spec_encode_words(ws: Seq<Seq<char>>, t: Timing) -> Seq<(bool, u64)>
    decreases ws.len(),
{
    if ws.len() == 0 {
        Seq::empty()
    } else if ws.len() == 1 {
        spec_token_tones(ws[0], t)
    } else {
        spec_token_tones(ws[0], t) + seq![(false, t.word_gap)] + spec_encode_words(
            ws.skip(1),
            t,
        )
    }
}

/// What encoding a text yields: its words' tones with word gaps
/// between them.
pub open spec fn spec_encode(text: Seq<char>, t: Timing) -> Seq<(bool, u64)> {
    spec_encode_words(spec_words_from(text, 0), t)
}

/// The views of a vector of string slices.
pub open spec fn views_of(ws: Seq<&str>) -> Seq<Seq<char>> {
    ws.map_values(|w: &str| w@)
}

/// Prosign: text like `<AR>` to its dit/dah string, sent without
/// inter-character gaps.
pub fn prosign_to_morse(s: &str) -> (r: Option<&'static str>)
    ensures
        match r {
            Some(p) => spec_prosign_code(s@) == Some(p@),
            None => spec_prosign_code(s@) is None,
        },
{
    if crate::text::str_eq(s, "<AR>") || crate::text::str_eq(s, "+") {
        Some(".-.-.")
    } else if crate::text::str_eq(s, "<SK>") {
        Some("...-.-")
    } else if crate::text::str_eq(s, "<KN>") {
        Some("-.--.")
    } else if crate::text::str_eq(s, "<BK>") {
        Some("-...-.-")
    } else if crate::text::str_eq(s, "<SOS>") {
        Some("...---...")
    } else if crate::text::str_eq(s, "<HH>") {
        Some("........")
    } else {
        None
    }
}

/// Append the elements of one code string to the tone sequence, with
/// inter-element gaps when `inter_elem` is set.
pub fn push_code(out: &mut Vec<(bool, u64)>, code: &str, t: &Timing, inter_elem: bool)
    ensures
        final(out)@ == old(out)@ + spec_code_tones(code@, *t, inter_elem),
{
    let clen = code.unicode_len();
    proof {
        assert(code@.skip(0) =~= code@);
    }
    let mut i: usize = 0;
    while i < clen
        invariant
            clen == code@.len(),
            i <= clen,
            out@ + spec_code_tones(code@.skip(i as int), *t, inter_elem) == old(out)@
                + spec_code_tones(code@, *t, inter_elem),
        decreases clen - i,
    {
        let ghost rest = code@.skip(i as int);
        let el = code.get_char(i);
        let dur = if el == '-' {
            t.dash
        } else {
            t.dot
        };
        out.push((true, dur));
        if i + 1 < clen {
            if inter_elem {
                out.push((false, t.elem_gap));
            }
        }
        proof {
            assert(rest[0] == code@[i as int]);
            assert(rest.skip(1) =~= code@.skip(i + 1));
            assert(out@ + spec_code_tones(code@.skip(i + 1), *t, inter_elem) =~= old(out)@
                + spec_code_tones(code@, *t, inter_elem));
        }
        i += 1;
    }
    proof {
        assert(code@.skip(clen as int) =~= Seq::<char>::empty());
        assert(final(out)@ =~= old(out)@ + spec_code_tones(code@, *t, inter_elem));
    }
}

/// Append the tones of one ordinary word: codes with element gaps, an
/// inter-character gap after every character except the word's last.
fn push_word(out: &mut Vec<(bool, u64)>, w: &str, t: &Timing)
    ensures
        final(out)@ == old(out)@ + spec_word_tones(w@, *t),
{
    let wlen = w.unicode_len();
    proof {
        assert(w@.skip(0) =~= w@);
    }
    let mut ci: usize = 0;
    while ci < wlen
        invariant
            wlen == w@.len(),
            ci <= wlen,
            out@ + spec_word_tones(w@.skip(ci as int), *t) == old(out)@ + spec_word_tones(
                w@,
                *t,
            ),
        decreases wlen - ci,
    {
        let ghost rest = w@.skip(ci as int);
        let ch = w.get_char(ci);
        proof {
            assert(rest[0] == w@[ci as int]);
        }
        match char_to_morse(ch) {
            Some(code) => {
                push_code(out, code, t, true);
                if ci + 1 < wlen {
                    out.push((false, t.char_gap));
                }
            },
            None => {},
        }
        proof {
            assert(rest.skip(1) =~= w@.skip(ci + 1));
            assert(out@ + spec_word_tones(w@.skip(ci + 1), *t) =~= old(out)@ + spec_word_tones(
                w@,
                *t,
            ));
        }
        ci += 1;
    }
    proof {
        assert(w@.skip(wlen as int) =~= Seq::<char>::empty());
        assert(final(out)@ =~= old(out)@ + spec_word_tones(w@, *t));
    }
}

/// Encode full text into a tone sequence: (key-down, milliseconds)
/// pairs, finite and replayable.
pub fn encode(text: &str, timing: &Timing) -> (out: Vec<(bool, u64)>)
    ensures
        out@ == spec_encode(text@, *timing),
{
    let ghost s = text@;
    let n = text.unicode_len();

    let mut words: Vec<&str> = Vec::new();
    let mut i: usize = 0;
    while i < n
        invariant
            n == s.len(),
            text@ == s,
            i <= n,
            views_of(words@) + spec_words_from(s, i as int) == spec_words_from(s, 0),
        decreases n - i,
    {
        let c = text.get_char(i);
        if is_space(c) {
            i += 1;
        } else {
            let start = i;
            i += 1;
            while i < n && !is_space(text.get_char(i))
                invariant
                    n == s.len(),
                    text@ == s,
                    start < i <= n,
                    forall|k: int| start <= k < i ==> !spec_is_space(s[k]),
                decreases n - i,
            {
                i += 1;
            }
            proof {
                lemma_word_end_exact(s, start as int, i as int);
            }
            let w = text.substring_char(start, i);
            words.push(w);
            proof {
                assert(views_of(words@) =~= views_of(words@.drop_last()).push(w@));
                assert(views_of(words@) + spec_words_from(s, i as int) =~= spec_words_from(
                    s,
                    0,
                ));
            }
        }
    }
    proof {
        assert(views_of(words@) =~= spec_words_from(s, 0));
    }

    let ghost ws = spec_words_from(s, 0);
    let mut out: Vec<(bool, u64)> = Vec::new();
    proof {
        assert(ws.skip(0) =~= ws);
    }
    let mut wi: usize = 0;
    while wi < words.len()
        invariant
            views_of(words@) == ws,
            wi <= words.len(),
            out@ + spec_encode_words(ws.skip(wi as int), *timing) == spec_encode_words(
                ws,
                *timing,
            ),
        decreases words.len() - wi,
    {
        let ghost rest = ws.skip(wi as int);
        let w: &str = words[wi];
        proof {
            assert(rest[0] == ws[wi as int]);
            assert(ws[wi as int] == w@);
        }
        let wlen = w.unicode_len();
        if wlen >= 1 && w.get_char(0) == '<' && w.get_char(wlen - 1) == '>' {
            match prosign_to_morse(w) {
                Some(code) => {
                    push_code(&mut out, code, timing, true);
                },
                None => {},
            }
        } else {
            push_word(&mut out, w, timing);
        }
        if wi + 1 < words.len() {
            out.push((false, timing.word_gap));
        }
        proof {
            assert(rest.skip(1) =~= ws.skip(wi + 1));
            assert(out@ + spec_encode_words(ws.skip(wi + 1), *timing) =~= spec_encode_words(
                ws,
                *timing,
            ));
        }
        wi += 1;
    }
    proof {
        assert(ws.skip(words@.len() as int) =~= Seq::<Seq<char>>::empty());
        assert(out@ =~= spec_encode(text@, *timing));
    }
    out
}

/// Every duration of these tones is at least `lo` long.
pub open spec fn tones_at_least(tones: Seq<(bool, u64)>, lo: u64) -> bool {
    forall|i: int| 0 <= i < tones.len() ==> (#[trigger] tones[i]).1 >= lo
}

proof fn lemma_code_tones_positive(code: Seq<char>, t: Timing, inter_elem: bool)
    requires
        t.wf(),
    ensures
        tones_at_least(spec_code_tones(code, t, inter_elem), 1),
    decreases code.len(),
{
    if code.len() > 0 {
        lemma_code_tones_positive(code.skip(1), t, inter_elem);
        let tones = spec_code_tones(code, t, inter_elem);
        let rest = spec_code_tones(code.skip(1), t, inter_elem);
        assert forall|i: int| 0 <= i < tones.len() implies (#[trigger] tones[i]).1 >= 1 by {
            if code.len() > 1 && inter_elem {
                if i >= 2 {
                    assert(tones[i] == rest[i - 2]);
                }
            } else {
                if i >= 1 {
                    assert(tones[i] == rest[i - 1]);
                }
            }
        }
    }
}

proof fn lemma_word_tones_positive(w: Seq<char>, t: Timing)
    requires
        t.wf(),
    ensures
        tones_at_least(spec_word_tones(w, t), 1),
    decreases w.len(),
{
    if w.len() > 0 {
        lemma_word_tones_positive(w.skip(1), t);
        let tones = spec_word_tones(w, t);
        let rest = spec_word_tones(w.skip(1), t);
        let head: Seq<(bool, u64)> = match spec_char_code(w[0]) {
            Some(code) => spec_code_tones(code, t, true) + (if w.len() > 1 {
                seq![(false, t.char_gap)]
            } else {
                Seq::empty()
            }),
            None => Seq::empty(),
        };
        if spec_char_code(w[0]) is Some {
            lemma_code_tones_positive(spec_char_code(w[0]).unwrap(), t, true);
        }
        assert forall|i: int| 0 <= i < tones.len() implies (#[trigger] tones[i]).1 >= 1 by {
            if i < head.len() {
                assert(tones[i] == head[i]);
            } else {
                assert(tones[i] == rest[i - head.len()]);
            }
        }
    }
}

proof fn lemma_token_tones_positive(w: Seq<char>, t: Timing)
    requires
        t.wf(),
    ensures
        tones_at_least(spec_token_tones(w, t), 1),
{
    if w.len() >= 1 && w[0] == '<' && w[w.len() - 1] == '>' {
        if spec_prosign_code(w) is Some {
            lemma_code_tones_positive(spec_prosign_code(w).unwrap(), t, true);
        }
    } else {
        lemma_word_tones_positive(w, t);
    }
}

proof fn lemma_encode_words_positive(ws: Seq<Seq<char>>, t: Timing)
    requires
        t.wf(),
    ensures
        tones_at_least(spec_encode_words(ws, t), 1),
    decreases ws.len(),
{
    if ws.len() == 1 {
        lemma_token_tones_positive(ws[0], t);
    } else if ws.len() > 1 {
        lemma_token_tones_positive(ws[0], t);
        lemma_encode_words_positive(ws.skip(1), t);
        let tones = spec_encode_words(ws, t);
        let head = spec_token_tones(ws[0], t);
        let rest = spec_encode_words(ws.skip(1), t);
        assert forall|i: int| 0 <= i < tones.len() implies (#[trigger] tones[i]).1 >= 1 by {
            if i < head.len() {
                assert(tones[i] == head[i]);
            } else if i == head.len() {
                assert(tones[i] == (false, t.word_gap));
            } else {
                assert(tones[i] == rest[i - head.len() - 1]);
            }
        }
    }
}

/// Law: under a well-formed timing, every segment of an encoded tone
/// sequence — tone and silence alike — has a positive duration, so
/// tone-on segments are never empty and the total time is consistent
/// with the PARIS ratios the timing itself keeps.
pub proof fn lemma_encode_tones_positive(text: Seq<char>, t: Timing)
    requires
        t.wf(),
    ensures
        tones_at_least(spec_encode(text, t), 1),
{
    lemma_encode_words_positive(spec_words_from(text, 0), t);
}

} // verus!
