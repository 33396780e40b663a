//! The round-trip law: a tone sequence the encoder produced, replayed
//! through the decoder with the same timing, reconstructs the text.
//!
//! The replay drives the decoder's abstract transitions: before every
//! element push it ticks once at the element's start instant, and
//! silences only let time pass.  A final tick one character gap after
//! the last element flushes the character still pending.

use vstd::prelude::*;

use crate::decoder::{lemma_table_inverse, sat_add, spec_decode_code, spec_push, spec_tick, DecoderModel};
use crate::encoder::{
    spec_char_code, spec_code_tones, spec_encode, spec_encode_words, spec_token_tones,
    spec_word_tones,
};
use crate::text::{spec_upper, spec_upper_seq, spec_words_from};
use crate::timing::Timing;

verus! {

/// The output of one tick, as the characters it contributed.
pub open spec fn opt_out(o: Option<Seq<char>>) -> Seq<char> {
    match o {
        Some(s) => s,
        None => Seq::empty(),
    }
}

/// Replaying a tone sequence from state `m` at instant `now`: a tone
/// ticks the decoder at its start and then pushes the element (a dash
/// exactly when its length is the timing's dash); a silence only
/// advances the clock.  Yields the final state, everything the ticks
/// reported, and the instant after the last tone.
pub open spec fn spec_replay(m: DecoderModel, tones: Seq<(bool, u64)>, now: u64) -> (
    DecoderModel,
    Seq<char>,
    u64,
)
    decreases tones.len(),
{
    if tones.len() == 0 {
        (m, Seq::empty(), now)
    } else {
        let on = tones[0].0;
        let dur = tones[0].1;
        if on {
            let (m1, out) = spec_tick(m, now);
            let m2 = spec_push(m1, dur == m.timing.dash, dur, now);
            let (mf, rest, endt) = spec_replay(m2, tones.skip(1), sat_add(now, dur));
            (mf, opt_out(out) + rest, endt)
        } else {
            spec_replay(m, tones.skip(1), sat_add(now, dur))
        }
    }
}

/// What a whole tone sequence decodes to: replay from an idle decoder
/// at instant zero, then one final tick a character gap after the end.
pub open spec fn spec_decode_tones(tones: Seq<(bool, u64)>, t: Timing) -> Seq<char> {
    let m0 = DecoderModel {
        code: Seq::empty(),
        text: Seq::empty(),
        last_event: 0,
        last_flush: None,
        timing: t,
    };
    let (mf, out, endt) = spec_replay(m0, tones, 0);
    let (mf2, out2) = spec_tick(mf, sat_add(endt, t.char_gap));
    out + opt_out(out2)
}

/// Replay walks a concatenation left to right.
pub proof fn lemma_replay_concat(m: DecoderModel, a: Seq<(bool, u64)>, b: Seq<(bool, u64)>, now: u64)
    ensures
        spec_replay(m, a + b, now) == ({
            let (m1, o1, e1) = spec_replay(m, a, now);
            let (m2, o2, e2) = spec_replay(m1, b, e1);
            (m2, o1 + o2, e2)
        }),
    decreases a.len(),
{
    if a.len() == 0 {
        assert(a + b =~= b);
        assert(opt_out(None) + spec_replay(m, b, now).1 =~= spec_replay(m, b, now).1);
        assert(spec_replay(m, a, now).1 + spec_replay(m, b, now).1 =~= spec_replay(m, b, now).1);
    } else {
        assert((a + b).skip(1) =~= a.skip(1) + b);
        let on = a[0].0;
        let dur = a[0].1;
        if on {
            let (m1, out) = spec_tick(m, now);
            let m2 = spec_push(m1, dur == m.timing.dash, dur, now);
            lemma_replay_concat(m2, a.skip(1), b, sat_add(now, dur));
            let (ma, oa, ea) = spec_replay(m2, a.skip(1), sat_add(now, dur));
            let (mb, ob, eb) = spec_replay(ma, b, ea);
            assert(opt_out(out) + (oa + ob) =~= (opt_out(out) + oa) + ob);
        } else {
            lemma_replay_concat(m, a.skip(1), b, sat_add(now, dur));
        }
    }
}

/// Every character of a code string is a mark.
pub open spec fn marks_only(code: Seq<char>) -> bool {
    forall|i: int| 0 <= i < code.len() ==> code[i] == '.' || code[i] == '-'
}

/// Enough headroom on the clock for `n` more characters: no addition
/// saturates.
pub open spec fn time_ok(s: u64, n: int) -> bool {
    s + 40000 * (n + 1) <= u64::MAX
}

/// Ground shape facts about the code literals of length 1: each is
/// that long and holds marks only.
#[verifier::spinoff_prover]
#[verifier::rlimit(100)]
proof fn lemma_code_shape_len1()
    ensures
        "."@.len() == 1,
        marks_only("."@),
        "-"@.len() == 1,
        marks_only("-"@),
{
    reveal_strlit(".");
    reveal_strlit("-");
    assert("."@[0] == '.');
    assert("-"@[0] == '-');
}

/// Ground shape facts about the code literals of length 2: each is
/// that long and holds marks only.
#[verifier::spinoff_prover]
#[verifier::rlimit(100)]
proof fn lemma_code_shape_len2()
    ensures
        ".-"@.len() == 2,
        marks_only(".-"@),
        ".."@.len() == 2,
        marks_only(".."@),
        "--"@.len() == 2,
        marks_only("--"@),
        "-."@.len() == 2,
        marks_only("-."@),
{
    reveal_strlit(".-");
    reveal_strlit("..");
    reveal_strlit("--");
    reveal_strlit("-.");
    assert(".-"@[0] == '.');
    assert(".-"@[1] == '-');
    assert(".."@[0] == '.');
    assert(".."@[1] == '.');
    assert("--"@[0] == '-');
    assert("--"@[1] == '-');
    assert("-."@[0] == '-');
    assert("-."@[1] == '.');
}

/// Ground shape facts about the code literals of length 3: each is
/// that long and holds marks only.
#[verifier::spinoff_prover]
#[verifier::rlimit(100)]
proof fn lemma_code_shape_len3()
    ensures
        "-.."@.len() == 3,
        marks_only("-.."@),
        "--."@.len() == 3,
        marks_only("--."@),
        "-.-"@.len() == 3,
        marks_only("-.-"@),
        "---"@.len() == 3,
        marks_only("---"@),
        ".-."@.len() == 3,
        marks_only(".-."@),
        "..."@.len() == 3,
        marks_only("..."@),
        "..-"@.len() == 3,
        marks_only("..-"@),
        ".--"@.len() == 3,
        marks_only(".--"@),
{
    reveal_strlit("-..");
    reveal_strlit("--.");
    reveal_strlit("-.-");
    reveal_strlit("---");
    reveal_strlit(".-.");
    reveal_strlit("...");
    reveal_strlit("..-");
    reveal_strlit(".--");
    assert("-.."@[0] == '-');
    assert("-.."@[1] == '.');
    assert("-.."@[2] == '.');
    assert("--."@[0] == '-');
    assert("--."@[1] == '-');
    assert("--."@[2] == '.');
    assert("-.-"@[0] == '-');
    assert("-.-"@[1] == '.');
    assert("-.-"@[2] == '-');
    assert("---"@[0] == '-');
    assert("---"@[1] == '-');
    assert("---"@[2] == '-');
    assert(".-."@[0] == '.');
    assert(".-."@[1] == '-');
    assert(".-."@[2] == '.');
    assert("..."@[0] == '.');
    assert("..."@[1] == '.');
    assert("..."@[2] == '.');
    assert("..-"@[0] == '.');
    assert("..-"@[1] == '.');
    assert("..-"@[2] == '-');
    assert(".--"@[0] == '.');
    assert(".--"@[1] == '-');
    assert(".--"@[2] == '-');
}

/// Ground shape facts about the code literals of length 4: each is
/// that long and holds marks only.
#[verifier::spinoff_prover]
#[verifier::rlimit(100)]
proof fn lemma_code_shape_len4()
    ensures
        "-..."@.len() == 4,
        marks_only("-..."@),
        "-.-."@.len() == 4,
        marks_only("-.-."@),
        "..-."@.len() == 4,
        marks_only("..-."@),
        "...."@.len() == 4,
        marks_only("...."@),
        ".---"@.len() == 4,
        marks_only(".---"@),
        ".-.."@.len() == 4,
        marks_only(".-.."@),
        ".--."@.len() == 4,
        marks_only(".--."@),
        "--.-"@.len() == 4,
        marks_only("--.-"@),
        "...-"@.len() == 4,
        marks_only("...-"@),
        "-..-"@.len() == 4,
        marks_only("-..-"@),
        "-.--"@.len() == 4,
        marks_only("-.--"@),
        "--.."@.len() == 4,
        marks_only("--.."@),
{
    reveal_strlit("-...");
    reveal_strlit("-.-.");
    reveal_strlit("..-.");
    reveal_strlit("....");
    reveal_strlit(".---");
    reveal_strlit(".-..");
    reveal_strlit(".--.");
    reveal_strlit("--.-");
    reveal_strlit("...-");
    reveal_strlit("-..-");
    reveal_strlit("-.--");
    reveal_strlit("--..");
    assert("-..."@[0] == '-');
    assert("-..."@[1] == '.');
    assert("-..."@[2] == '.');
    assert("-..."@[3] == '.');
    assert("-.-."@[0] == '-');
    assert("-.-."@[1] == '.');
    assert("-.-."@[2] == '-');
    assert("-.-."@[3] == '.');
    assert("..-."@[0] == '.');
    assert("..-."@[1] == '.');
    assert("..-."@[2] == '-');
    assert("..-."@[3] == '.');
    assert("...."@[0] == '.');
    assert("...."@[1] == '.');
    assert("...."@[2] == '.');
    assert("...."@[3] == '.');
    assert(".---"@[0] == '.');
    assert(".---"@[1] == '-');
    assert(".---"@[2] == '-');
    assert(".---"@[3] == '-');
    assert(".-.."@[0] == '.');
    assert(".-.."@[1] == '-');
    assert(".-.."@[2] == '.');
    assert(".-.."@[3] == '.');
    assert(".--."@[0] == '.');
    assert(".--."@[1] == '-');
    assert(".--."@[2] == '-');
    assert(".--."@[3] == '.');
    assert("--.-"@[0] == '-');
    assert("--.-"@[1] == '-');
    assert("--.-"@[2] == '.');
    assert("--.-"@[3] == '-');
    assert("...-"@[0] == '.');
    assert("...-"@[1] == '.');
    assert("...-"@[2] == '.');
    assert("...-"@[3] == '-');
    assert("-..-"@[0] == '-');
    assert("-..-"@[1] == '.');
    assert("-..-"@[2] == '.');
    assert("-..-"@[3] == '-');
    assert("-.--"@[0] == '-');
    assert("-.--"@[1] == '.');
    assert("-.--"@[2] == '-');
    assert("-.--"@[3] == '-');
    assert("--.."@[0] == '-');
    assert("--.."@[1] == '-');
    assert("--.."@[2] == '.');
    assert("--.."@[3] == '.');
}

/// Ground shape facts about the code literals of length 5: each is
/// that long and holds marks only.
#[verifier::spinoff_prover]
#[verifier::rlimit(100)]
proof fn lemma_code_shape_len5()
    ensures
        "-----"@.len() == 5,
        marks_only("-----"@),
        ".----"@.len() == 5,
        marks_only(".----"@),
        "..---"@.len() == 5,
        marks_only("..---"@),
        "...--"@.len() == 5,
        marks_only("...--"@),
        "....-"@.len() == 5,
        marks_only("....-"@),
        "....."@.len() == 5,
        marks_only("....."@),
        "-...."@.len() == 5,
        marks_only("-...."@),
        "--..."@.len() == 5,
        marks_only("--..."@),
        "---.."@.len() == 5,
        marks_only("---.."@),
        "----."@.len() == 5,
        marks_only("----."@),
        "-..-."@.len() == 5,
        marks_only("-..-."@),
        ".-.-."@.len() == 5,
        marks_only(".-.-."@),
        "-...-"@.len() == 5,
        marks_only("-...-"@),
        "-.--."@.len() == 5,
        marks_only("-.--."@),
{
    reveal_strlit("-----");
    reveal_strlit(".----");
    reveal_strlit("..---");
    reveal_strlit("...--");
    reveal_strlit("....-");
    reveal_strlit(".....");
    reveal_strlit("-....");
    reveal_strlit("--...");
    reveal_strlit("---..");
    reveal_strlit("----.");
    reveal_strlit("-..-.");
    reveal_strlit(".-.-.");
    reveal_strlit("-...-");
    reveal_strlit("-.--.");
    assert("-----"@[0] == '-');
    assert("-----"@[1] == '-');
    assert("-----"@[2] == '-');
    assert("-----"@[3] == '-');
    assert("-----"@[4] == '-');
    assert(".----"@[0] == '.');
    assert(".----"@[1] == '-');
    assert(".----"@[2] == '-');
    assert(".----"@[3] == '-');
    assert(".----"@[4] == '-');
    assert("..---"@[0] == '.');
    assert("..---"@[1] == '.');
    assert("..---"@[2] == '-');
    assert("..---"@[3] == '-');
    assert("..---"@[4] == '-');
    assert("...--"@[0] == '.');
    assert("...--"@[1] == '.');
    assert("...--"@[2] == '.');
    assert("...--"@[3] == '-');
    assert("...--"@[4] == '-');
    assert("....-"@[0] == '.');
    assert("....-"@[1] == '.');
    assert("....-"@[2] == '.');
    assert("....-"@[3] == '.');
    assert("....-"@[4] == '-');
    assert("....."@[0] == '.');
    assert("....."@[1] == '.');
    assert("....."@[2] == '.');
    assert("....."@[3] == '.');
    assert("....."@[4] == '.');
    assert("-...."@[0] == '-');
    assert("-...."@[1] == '.');
    assert("-...."@[2] == '.');
    assert("-...."@[3] == '.');
    assert("-...."@[4] == '.');
    assert("--..."@[0] == '-');
    assert("--..."@[1] == '-');
    assert("--..."@[2] == '.');
    assert("--..."@[3] == '.');
    assert("--..."@[4] == '.');
    assert("---.."@[0] == '-');
    assert("---.."@[1] == '-');
    assert("---.."@[2] == '-');
    assert("---.."@[3] == '.');
    assert("---.."@[4] == '.');
    assert("----."@[0] == '-');
    assert("----."@[1] == '-');
    assert("----."@[2] == '-');
    assert("----."@[3] == '-');
    assert("----."@[4] == '.');
    assert("-..-."@[0] == '-');
    assert("-..-."@[1] == '.');
    assert("-..-."@[2] == '.');
    assert("-..-."@[3] == '-');
    assert("-..-."@[4] == '.');
    assert(".-.-."@[0] == '.');
    assert(".-.-."@[1] == '-');
    assert(".-.-."@[2] == '.');
    assert(".-.-."@[3] == '-');
    assert(".-.-."@[4] == '.');
    assert("-...-"@[0] == '-');
    assert("-...-"@[1] == '.');
    assert("-...-"@[2] == '.');
    assert("-...-"@[3] == '.');
    assert("-...-"@[4] == '-');
    assert("-.--."@[0] == '-');
    assert("-.--."@[1] == '.');
    assert("-.--."@[2] == '-');
    assert("-.--."@[3] == '-');
    assert("-.--."@[4] == '.');
}

/// Ground shape facts about the code literals of length 6: each is
/// that long and holds marks only.
#[verifier::spinoff_prover]
#[verifier::rlimit(100)]
proof fn lemma_code_shape_len6()
    ensures
        ".-.-.-"@.len() == 6,
        marks_only(".-.-.-"@),
        "--..--"@.len() == 6,
        marks_only("--..--"@),
        "..--.."@.len() == 6,
        marks_only("..--.."@),
        "-....-"@.len() == 6,
        marks_only("-....-"@),
        ".--.-."@.len() == 6,
        marks_only(".--.-."@),
        "-.--.-"@.len() == 6,
        marks_only("-.--.-"@),
        ".----."@.len() == 6,
        marks_only(".----."@),
{
    reveal_strlit(".-.-.-");
    reveal_strlit("--..--");
    reveal_strlit("..--..");
    reveal_strlit("-....-");
    reveal_strlit(".--.-.");
    reveal_strlit("-.--.-");
    reveal_strlit(".----.");
    assert(".-.-.-"@[0] == '.');
    assert(".-.-.-"@[1] == '-');
    assert(".-.-.-"@[2] == '.');
    assert(".-.-.-"@[3] == '-');
    assert(".-.-.-"@[4] == '.');
    assert(".-.-.-"@[5] == '-');
    assert("--..--"@[0] == '-');
    assert("--..--"@[1] == '-');
    assert("--..--"@[2] == '.');
    assert("--..--"@[3] == '.');
    assert("--..--"@[4] == '-');
    assert("--..--"@[5] == '-');
    assert("..--.."@[0] == '.');
    assert("..--.."@[1] == '.');
    assert("..--.."@[2] == '-');
    assert("..--.."@[3] == '-');
    assert("..--.."@[4] == '.');
    assert("..--.."@[5] == '.');
    assert("-....-"@[0] == '-');
    assert("-....-"@[1] == '.');
    assert("-....-"@[2] == '.');
    assert("-....-"@[3] == '.');
    assert("-....-"@[4] == '.');
    assert("-....-"@[5] == '-');
    assert(".--.-."@[0] == '.');
    assert(".--.-."@[1] == '-');
    assert(".--.-."@[2] == '-');
    assert(".--.-."@[3] == '.');
    assert(".--.-."@[4] == '-');
    assert(".--.-."@[5] == '.');
    assert("-.--.-"@[0] == '-');
    assert("-.--.-"@[1] == '.');
    assert("-.--.-"@[2] == '-');
    assert("-.--.-"@[3] == '-');
    assert("-.--.-"@[4] == '.');
    assert("-.--.-"@[5] == '-');
    assert(".----."@[0] == '.');
    assert(".----."@[1] == '-');
    assert(".----."@[2] == '-');
    assert(".----."@[3] == '-');
    assert(".----."@[4] == '-');
    assert(".----."@[5] == '.');
}

/// Replaying the elements of one code from its `i`-th mark on: the
/// ticks between elements see only a one-dot gap and flush nothing,
/// so the marks accumulate exactly, and the clock ends on the last
/// element's end.
proof fn lemma_replay_elems(code: Seq<char>, i: int, m: DecoderModel, s: u64, t: Timing)
    requires
        t.wf(),
        m.timing == t,
        marks_only(code),
        code.len() <= 6,
        1 <= i < code.len(),
        m.code == code.take(i),
        m.last_event + t.elem_gap == s,
        s + 5000 * (code.len() - i) <= u64::MAX,
    ensures
        ({
            let res = spec_replay(m, spec_code_tones(code.skip(i), t, true), s);
            &&& res.1 == Seq::<char>::empty()
            &&& res.0 == (DecoderModel { code: code, last_event: res.2, ..m })
            &&& s <= res.2 <= s + 4800 * (code.len() - i)
        }),
    decreases code.len() - i,
{
    let cs = code.skip(i);
    let dur = if code[i] == '-' {
        t.dash
    } else {
        t.dot
    };
    assert(cs[0] == code[i]);
    let tones = spec_code_tones(cs, t, true);
    let (m1, o1) = spec_tick(m, s);
    assert(m.code.len() >= 1) by {
        assert(m.code == code.take(i));
    }
    assert(m1 == m && o1 is None);
    let m2 = spec_push(m1, dur == m.timing.dash, dur, s);
    assert(dur == m.timing.dash <==> code[i] == '-');
    assert(m2.code =~= code.take(i + 1));
    assert(m2.last_event == s + dur);
    let sd = sat_add(s, dur);
    assert(sd == s + dur);
    if i + 1 == code.len() {
        assert(cs.skip(1).len() == 0);
        assert(spec_code_tones(cs.skip(1), t, true) == Seq::<(bool, u64)>::empty());
        assert(tones =~= seq![(true, dur)]);
        assert(tones.skip(1) =~= Seq::<(bool, u64)>::empty());
        let rest = spec_replay(m2, tones.skip(1), sd);
        assert(rest == (m2, Seq::<char>::empty(), sd));
        assert(m2.code =~= code);
        assert(opt_out(o1) + Seq::<char>::empty() =~= Seq::<char>::empty());
    } else {
        let inner = spec_code_tones(cs.skip(1), t, true);
        assert(inner.len() >= 1);
        assert(tones =~= seq![(true, dur), (false, t.elem_gap)] + inner);
        assert(tones.skip(1) =~= seq![(false, t.elem_gap)] + inner);
        assert(tones.skip(1).skip(1) =~= inner);
        assert(cs.skip(1) =~= code.skip(i + 1));
        let s2 = sat_add(sd, t.elem_gap);
        assert(s2 == s + dur + t.elem_gap);
        lemma_replay_elems(code, i + 1, m2, s2, t);
        let res = spec_replay(m2, spec_code_tones(code.skip(i + 1), t, true), s2);
        let mid = spec_replay(m2, tones.skip(1), sd);
        assert(tones.skip(1)[0] == (false, t.elem_gap));
        assert(mid == spec_replay(m2, tones.skip(1).skip(1), s2));
        assert(mid == res);
        assert(res.0 =~= (DecoderModel { code: code, last_event: res.2, ..m }));
        assert(opt_out(o1) + res.1 =~= Seq::<char>::empty());
    }
}

/// Replaying one whole character's tones from a boundary: after the
/// boundary tick (which must leave no code pending), the character's
/// marks accumulate and nothing further is reported.
proof fn lemma_replay_code(code: Seq<char>, m: DecoderModel, s: u64, t: Timing)
    requires
        t.wf(),
        m.timing == t,
        marks_only(code),
        1 <= code.len() <= 6,
        spec_tick(m, s).0.code == Seq::<char>::empty(),
        s + 30000 <= u64::MAX,
    ensures
        ({
            let (m1, o1) = spec_tick(m, s);
            let res = spec_replay(m, spec_code_tones(code, t, true), s);
            &&& res.1 == opt_out(o1)
            &&& res.0 == (DecoderModel { code: code, last_event: res.2, ..m1 })
            &&& s <= res.2 <= s + 30000
        }),
{
    let (m1, o1) = spec_tick(m, s);
    assert(m1.timing == t);
    let dur = if code[0] == '-' {
        t.dash
    } else {
        t.dot
    };
    let tones = spec_code_tones(code, t, true);
    let m2 = spec_push(m1, dur == m.timing.dash, dur, s);
    assert(dur == m.timing.dash <==> code[0] == '-');
    assert(m2.code =~= code.take(1));
    assert(m2.last_event == s + dur);
    let sd = sat_add(s, dur);
    assert(sd == s + dur);
    if code.len() == 1 {
        assert(code.skip(1).len() == 0);
        assert(spec_code_tones(code.skip(1), t, true) == Seq::<(bool, u64)>::empty());
        assert(tones =~= seq![(true, dur)]);
        assert(tones.skip(1) =~= Seq::<(bool, u64)>::empty());
        let rest = spec_replay(m2, tones.skip(1), sd);
        assert(rest == (m2, Seq::<char>::empty(), sd));
        assert(m2.code =~= code);
        assert(opt_out(o1) + Seq::<char>::empty() =~= opt_out(o1));
    } else {
        let inner = spec_code_tones(code.skip(1), t, true);
        assert(inner.len() >= 1);
        assert(tones =~= seq![(true, dur), (false, t.elem_gap)] + inner);
        assert(tones.skip(1) =~= seq![(false, t.elem_gap)] + inner);
        assert(tones.skip(1).skip(1) =~= inner);
        let s2 = sat_add(sd, t.elem_gap);
        assert(s2 == s + dur + t.elem_gap);
        lemma_replay_elems(code, 1, m2, s2, t);
        let res = spec_replay(m2, inner, s2);
        let mid = spec_replay(m2, tones.skip(1), sd);
        assert(tones.skip(1)[0] == (false, t.elem_gap));
        assert(mid == spec_replay(m2, tones.skip(1).skip(1), s2));
        assert(mid == res);
        assert(res.0 =~= (DecoderModel { code: code, last_event: res.2, ..m1 }));
        assert(opt_out(o1) + res.1 =~= opt_out(o1));
    }
}

/// Replaying one word's tones from a boundary: after the boundary
/// tick, each inner character boundary flushes the character before
/// it, so everything but the word's last character is reported, whose
/// marks stay pending.
proof fn lemma_replay_word(w: Seq<char>, j: int, m: DecoderModel, s: u64, t: Timing)
    requires
        t.wf(),
        m.timing == t,
        0 <= j < w.len(),
        forall|k: int| j <= k < w.len() ==> (#[trigger] spec_char_code(w[k])) is Some,
        spec_tick(m, s).0.code == Seq::<char>::empty(),
        s + 40000 * (w.len() - j) <= u64::MAX,
    ensures
        ({
            let (m1, o1) = spec_tick(m, s);
            let res = spec_replay(m, spec_word_tones(w.skip(j), t), s);
            &&& res.1 == opt_out(o1) + spec_upper_seq(w.subrange(j, w.len() - 1))
            &&& spec_char_code(w[w.len() - 1]) == Some(res.0.code)
            &&& res.0.last_event == res.2
            &&& res.0.timing == t
            &&& s <= res.2 <= s + 40000 * (w.len() - j)
        }),
    decreases w.len() - j,
{
    let (m1, o1) = spec_tick(m, s);
    let ws = w.skip(j);
    assert(ws[0] == w[j]);
    assert(spec_char_code(w[j]) is Some);
    let code_j = spec_char_code(w[j]).unwrap();
    lemma_char_code_shape(w[j], code_j);
    let ct = spec_code_tones(code_j, t, true);
    lemma_replay_code(code_j, m, s, t);
    let resc = spec_replay(m, ct, s);
    if j + 1 == w.len() {
        assert(ws.skip(1).len() == 0);
        assert(spec_word_tones(ws.skip(1), t) == Seq::<(bool, u64)>::empty());
        assert(spec_word_tones(ws, t) =~= ct);
        assert(w.subrange(j, w.len() - 1).len() == 0);
        assert(opt_out(o1) + spec_upper_seq(w.subrange(j, w.len() - 1)) =~= opt_out(o1)) by {
            assert(spec_upper_seq(w.subrange(j, w.len() - 1)) =~= Seq::<char>::empty());
        }
    } else {
        let tail = spec_word_tones(ws.skip(1), t);
        assert(ws.skip(1) =~= w.skip(j + 1));
        assert(spec_word_tones(ws, t) =~= ct + (seq![(false, t.char_gap)] + tail)) by {
            assert(spec_word_tones(ws, t) == (ct + seq![(false, t.char_gap)]) + tail);
        }
        lemma_replay_concat(m, ct, seq![(false, t.char_gap)] + tail, s);
        let mc = resc.0;
        let e = resc.2;
        assert(mc == (DecoderModel { code: code_j, last_event: e, ..m1 }));
        let s2 = sat_add(e, t.char_gap);
        assert(s2 == e + t.char_gap);
        let midtones = seq![(false, t.char_gap)] + tail;
        assert(midtones[0] == (false, t.char_gap));
        assert(midtones.skip(1) =~= tail);
        let resm = spec_replay(mc, midtones, e);
        assert(resm == spec_replay(mc, tail, s2));

        let (m1p, o1p) = spec_tick(mc, s2);
        assert(m1p.code == Seq::<char>::empty());
        lemma_table_inverse(w[j], code_j);
        assert(o1p == Some(seq![spec_upper(w[j])]));

        lemma_replay_word(w, j + 1, mc, s2, t);
        let resw = spec_replay(mc, spec_word_tones(w.skip(j + 1), t), s2);
        assert(spec_word_tones(ws.skip(1), t) == spec_word_tones(w.skip(j + 1), t));

        let res = spec_replay(m, spec_word_tones(ws, t), s);
        assert(res.0 == resw.0 && res.2 == resw.2);
        assert(res.1 == opt_out(o1) + resw.1);
        assert(spec_upper_seq(w.subrange(j, w.len() - 1)) =~= seq![spec_upper(w[j])]
            + spec_upper_seq(w.subrange(j + 1, w.len() - 1)));
        assert(opt_out(o1) + (opt_out(o1p) + spec_upper_seq(w.subrange(j + 1, w.len() - 1)))
            =~= opt_out(o1) + spec_upper_seq(w.subrange(j, w.len() - 1)));
    }
}

/// Every code of the encoder's table is one to six marks long and
/// holds nothing but `.` and `-`.
pub proof fn lemma_char_code_shape(c: char, s: Seq<char>)
    requires
        spec_char_code(c) == Some(s),
    ensures
        1 <= s.len() <= 6,
        marks_only(s),
{
    lemma_code_shape_len1();
    lemma_code_shape_len2();
    lemma_code_shape_len3();
    lemma_code_shape_len4();
    lemma_code_shape_len5();
    lemma_code_shape_len6();
}

/// The words mapped to their upper-cased forms.
pub open spec fn upper_words(ws: Seq<Seq<char>>) -> Seq<Seq<char>> {
    ws.map_values(|w: Seq<char>| spec_upper_seq(w))
}

/// Decoded words joined by single blanks: what a replayed tone
/// sequence reconstructs.
pub open spec fn spec_join_words(ws: Seq<Seq<char>>) -> Seq<char>
    decreases ws.len(),
{
    if ws.len() == 0 {
        Seq::empty()
    } else if ws.len() == 1 {
        ws[0]
    } else {
        ws[0] + seq![' '] + spec_join_words(ws.skip(1))
    }
}

/// How many characters a word list holds in all.
pub open spec fn words_chars(ws: Seq<Seq<char>>) -> int
    decreases ws.len(),
{
    if ws.len() == 0 {
        0
    } else {
        ws[0].len() + words_chars(ws.skip(1))
    }
}

proof fn lemma_words_chars_nonneg(ws: Seq<Seq<char>>)
    ensures
        words_chars(ws) >= 0,
    decreases ws.len(),
{
    if ws.len() > 0 {
        lemma_words_chars_nonneg(ws.skip(1));
    }
}

/// The words split out of a text inherit its shape: none is empty,
/// their characters are the text's non-space characters, and they
/// hold no more characters than the text.
proof fn lemma_words_from_wf(s: Seq<char>, i: int)
    requires
        0 <= i <= s.len(),
        forall|p: int|
            0 <= p < s.len() ==> crate::text::spec_is_space(s[p]) || (#[trigger] spec_char_code(
                s[p],
            )) is Some,
    ensures
        forall|a: int|
            0 <= a < spec_words_from(s, i).len() ==> (#[trigger] spec_words_from(s, i)[a]).len()
                >= 1,
        forall|a: int, b: int|
            0 <= a < spec_words_from(s, i).len() && 0 <= b < spec_words_from(s, i)[a].len() ==> (
            #[trigger] spec_char_code(spec_words_from(s, i)[a][b])) is Some,
        words_chars(spec_words_from(s, i)) <= s.len() - i,
    decreases s.len() - i,
{
    if i >= s.len() {
    } else if crate::text::spec_is_space(s[i]) {
        lemma_words_from_wf(s, i + 1);
    } else {
        crate::text::lemma_word_end_bounds(s, i);
        let we = crate::text::spec_word_end(s, i);
        assert(we == crate::text::spec_word_end(s, i + 1));
        crate::text::lemma_word_end_bounds(s, i + 1);
        assert(i < we <= s.len());
        let w = s.subrange(i, we);
        lemma_words_from_wf(s, we);
        let rest = spec_words_from(s, we);
        let all = spec_words_from(s, i);
        assert(all == seq![w] + rest);
        assert(all[0] == w);
        assert(w.len() >= 1);
        assert forall|a: int| 0 <= a < all.len() implies (#[trigger] all[a]).len() >= 1 by {
            if a > 0 {
                assert(all[a] == rest[a - 1]);
            }
        }
        assert forall|a: int, b: int|
            0 <= a < all.len() && 0 <= b < all[a].len() implies (#[trigger] spec_char_code(
            all[a][b],
        )) is Some by {
            if a == 0 {
                assert(all[0][b] == s[i + b]);
                assert(!crate::text::spec_is_space(s[i + b]));
            } else {
                assert(all[a] == rest[a - 1]);
            }
        }
        assert(all.skip(1) =~= rest);
        lemma_words_chars_nonneg(rest);
        assert(words_chars(all) == w.len() + words_chars(rest));
    }
}

/// Replaying the tones of the words from index `k` on: after the
/// boundary tick, every character is reported — each word's last at
/// the next word gap, together with the word space — except the very
/// last character of the last word, whose marks stay pending.
proof fn lemma_replay_words(ws: Seq<Seq<char>>, k: int, m: DecoderModel, s: u64, t: Timing)
    requires
        t.wf(),
        m.timing == t,
        0 <= k < ws.len(),
        forall|a: int| 0 <= a < ws.len() ==> (#[trigger] ws[a]).len() >= 1,
        forall|a: int, b: int|
            0 <= a < ws.len() && 0 <= b < ws[a].len() ==> (#[trigger] spec_char_code(
                ws[a][b],
            )) is Some,
        spec_tick(m, s).0.code == Seq::<char>::empty(),
        s + 50000 * (words_chars(ws.skip(k)) + 1) <= u64::MAX,
    ensures
        ({
            let (m1, o1) = spec_tick(m, s);
            let res = spec_replay(m, spec_encode_words(ws.skip(k), t), s);
            let expected = spec_join_words(upper_words(ws.skip(k)));
            &&& expected.len() >= 1
            &&& res.1 == opt_out(o1) + expected.drop_last()
            &&& spec_decode_code(res.0.code) == Some(expected.last())
            &&& res.0.code.len() >= 1
            &&& res.0.last_event == res.2
            &&& res.0.timing == t
            &&& s <= res.2
            &&& res.2 + 50000 <= u64::MAX
        }),
    decreases ws.len() - k,
{
    let (m1, o1) = spec_tick(m, s);
    let wsk = ws.skip(k);
    let w = ws[k];
    assert(wsk[0] == w);
    assert(w.len() >= 1);
    assert(forall|b: int| 0 <= b < w.len() ==> (#[trigger] spec_char_code(w[b])) is Some);
    assert(spec_char_code('<') is None);
    assert(!(w[0] == '<' && w[w.len() - 1] == '>')) by {
        assert(spec_char_code(w[0]) is Some);
    }
    assert(spec_token_tones(w, t) == spec_word_tones(w, t));
    assert(w.skip(0) =~= w);
    lemma_words_chars_nonneg(wsk);
    assert(wsk.skip(1) =~= ws.skip(k + 1));
    lemma_words_chars_nonneg(ws.skip(k + 1));
    assert(words_chars(wsk) == w.len() + words_chars(ws.skip(k + 1)));

    let last_w = ws[ws.len() - 1];
    let lidx = w.len() - 1;
    let code_last = spec_char_code(w[lidx]).unwrap();
    lemma_char_code_shape(w[lidx], code_last);

    if k + 1 == ws.len() {
        assert(wsk.len() == 1);
        assert(spec_encode_words(wsk, t) == spec_token_tones(w, t));
        lemma_replay_word(w, 0, m, s, t);
        let res = spec_replay(m, spec_word_tones(w, t), s);
        let expected = spec_join_words(upper_words(wsk));
        assert(upper_words(wsk).len() == 1);
        assert(upper_words(wsk)[0] == spec_upper_seq(w));
        assert(expected == spec_upper_seq(w));
        assert(expected.len() == w.len());
        lemma_table_inverse(w[lidx], code_last);
        assert(expected.last() == spec_upper(w[lidx]));
        assert(expected.drop_last() =~= spec_upper_seq(w.subrange(0, w.len() - 1)));
        assert(res.1 == opt_out(o1) + expected.drop_last());
        assert(spec_char_code(w[w.len() - 1]) == Some(res.0.code));
        assert(res.0.code == code_last);
    } else {
        let wt = spec_word_tones(w, t);
        let rest_tones = spec_encode_words(ws.skip(k + 1), t);
        let b = seq![(false, t.word_gap)] + rest_tones;
        assert(spec_encode_words(wsk, t) =~= wt + b) by {
            assert(spec_token_tones(wsk[0], t) == wt);
            assert(spec_encode_words(wsk, t) == (spec_token_tones(wsk[0], t) + seq![
                (false, t.word_gap),
            ]) + spec_encode_words(wsk.skip(1), t));
        }
        lemma_replay_concat(m, wt, b, s);
        lemma_replay_word(w, 0, m, s, t);
        let resa = spec_replay(m, wt, s);
        let mc = resa.0;
        let e = resa.2;
        assert(mc.code == code_last);
        assert(mc.code.len() >= 1);
        let s2 = sat_add(e, t.word_gap);
        assert(s2 == e + t.word_gap);

        assert(b[0] == (false, t.word_gap));
        assert(b.skip(1) =~= rest_tones);
        let resb = spec_replay(mc, b, e);
        assert(resb == spec_replay(mc, rest_tones, s2));

        let (m1p, o1p) = spec_tick(mc, s2);
        lemma_table_inverse(w[lidx], code_last);
        assert(m1p.code == Seq::<char>::empty());
        assert(o1p == Some(seq![spec_upper(w[lidx]), ' ']));

        lemma_replay_words(ws, k + 1, mc, s2, t);
        let resw = spec_replay(mc, rest_tones, s2);
        let expected_rest = spec_join_words(upper_words(ws.skip(k + 1)));

        let res = spec_replay(m, spec_encode_words(wsk, t), s);
        assert(res.0 == resw.0 && res.2 == resw.2);
        assert(res.1 == resa.1 + resw.1);

        let expected = spec_join_words(upper_words(wsk));
        assert(upper_words(wsk).skip(1) =~= upper_words(ws.skip(k + 1)));
        assert(upper_words(wsk).len() >= 2);
        assert(upper_words(wsk)[0] == spec_upper_seq(w));
        assert(expected == spec_upper_seq(w) + seq![' '] + expected_rest);
        assert(expected.len() >= 1);
        assert(expected_rest.len() >= 1);
        assert(expected.drop_last() =~= spec_upper_seq(w) + seq![' '] + expected_rest.drop_last());
        assert(expected.last() == expected_rest.last());

        assert(spec_upper_seq(w.subrange(0, w.len() - 1)).push(spec_upper(w[lidx]))
            =~= spec_upper_seq(w));
        assert(res.1 =~= opt_out(o1) + expected.drop_last()) by {
            assert(resa.1 == opt_out(o1) + spec_upper_seq(w.subrange(0, w.len() - 1)));
            assert(resw.1 == opt_out(o1p) + expected_rest.drop_last());
            assert(opt_out(o1p) == seq![spec_upper(w[lidx]), ' ']);
            assert((opt_out(o1) + spec_upper_seq(w.subrange(0, w.len() - 1))) + (seq![
                spec_upper(w[lidx]),
                ' ',
            ] + expected_rest.drop_last()) =~= opt_out(o1) + (spec_upper_seq(w) + seq![' ']
                + expected_rest.drop_last()));
        }
    }
}

/// Law: the decoder reconstructs what the encoder sent.  For any text
/// of code-table characters and whitespace, replaying the encoded
/// tone sequence through the decoder with the timing it was encoded
/// under yields the text's words, upper-cased, separated by single
/// word spaces.  (Texts so long that the clock arithmetic would
/// saturate are excluded.)
pub proof fn lemma_round_trip(text: Seq<char>, t: Timing)
    requires
        t.wf(),
        forall|i: int|
            0 <= i < text.len() ==> crate::text::spec_is_space(text[i]) || (
            #[trigger] spec_char_code(text[i])) is Some,
        50000 * (text.len() + 1) <= u64::MAX,
    ensures
        spec_decode_tones(spec_encode(text, t), t) == spec_join_words(
            upper_words(spec_words_from(text, 0)),
        ),
{
    let ws = spec_words_from(text, 0);
    lemma_words_from_wf(text, 0);
    let m0 = DecoderModel {
        code: Seq::empty(),
        text: Seq::empty(),
        last_event: 0,
        last_flush: None,
        timing: t,
    };
    if ws.len() == 0 {
        assert(spec_encode(text, t) == spec_encode_words(ws, t));
        assert(spec_encode_words(ws, t).len() == 0);
        let res = spec_replay(m0, spec_encode(text, t), 0);
        assert(res == (m0, Seq::<char>::empty(), 0u64));
        let (mf2, out2) = spec_tick(m0, sat_add(0, t.char_gap));
        assert(out2 is None);
        assert(upper_words(ws).len() == 0);
        assert(spec_decode_tones(spec_encode(text, t), t) =~= spec_join_words(upper_words(ws)));
    } else {
        assert(ws.skip(0) =~= ws);
        assert(spec_tick(m0, 0).0.code == Seq::<char>::empty());
        lemma_words_chars_nonneg(ws);
        lemma_replay_words(ws, 0, m0, 0, t);
        let res = spec_replay(m0, spec_encode_words(ws, t), 0);
        let expected = spec_join_words(upper_words(ws));
        assert(spec_encode(text, t) == spec_encode_words(ws, t));
        let (m1, o1) = spec_tick(m0, 0);
        assert(o1 is None);
        assert(res.1 =~= expected.drop_last());
        let drain_at = sat_add(res.2, t.char_gap);
        assert(drain_at == res.2 + t.char_gap);
        let (mf2, out2) = spec_tick(res.0, drain_at);
        assert(crate::decoder::sat_sub(drain_at, res.0.last_event) == t.char_gap);
        assert(out2 == Some(seq![expected.last()]));
        assert(res.1 + opt_out(out2) =~= expected);
    }
}

} // verus!
