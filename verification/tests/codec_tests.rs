use cw_qso_sim::decoder::{decode_code, Decoder};
use cw_qso_sim::encoder::{char_to_morse, encode, prosign_to_morse};
use cw_qso_sim::timing::Timing;

#[test]
fn forward_table_entries() {
    assert_eq!(char_to_morse('A'), Some(".-"));
    assert_eq!(char_to_morse('a'), Some(".-"));
    assert_eq!(char_to_morse('S'), Some("..."));
    assert_eq!(char_to_morse('O'), Some("---"));
    assert_eq!(char_to_morse('0'), Some("-----"));
    assert_eq!(char_to_morse('?'), Some("..--.."));
    assert_eq!(char_to_morse('+'), Some(".-.-."));
    assert_eq!(char_to_morse('#'), None);
    assert_eq!(char_to_morse(' '), None);
}

#[test]
fn prosign_table_entries() {
    assert_eq!(prosign_to_morse("<AR>"), Some(".-.-."));
    assert_eq!(prosign_to_morse("+"), Some(".-.-."));
    assert_eq!(prosign_to_morse("<SK>"), Some("...-.-"));
    assert_eq!(prosign_to_morse("<SOS>"), Some("...---..."));
    assert_eq!(prosign_to_morse("<HH>"), Some("........"));
    assert_eq!(prosign_to_morse("<XX>"), None);
    assert_eq!(prosign_to_morse("AR"), None);
}

#[test]
fn reverse_table_inverts_forward_table() {
    let all = "ABCDEFGHIJKLMNOPQRSTUVWXYZ0123456789.,?/+=-@()'";
    for c in all.chars() {
        let code = char_to_morse(c).expect("every listed character has a code");
        assert_eq!(decode_code(code), Some(c));
    }
    assert_eq!(decode_code(""), None);
    assert_eq!(decode_code("......."), None);
}

#[test]
fn encode_sos_structure() {
    // P5: three dits, three dahs, three dits, with character gaps.
    let t = Timing::from_wpm(20);
    let seq = encode("SOS", &t);
    let expect: Vec<(bool, u64)> = vec![
        (true, 60),
        (false, 60),
        (true, 60),
        (false, 60),
        (true, 60),
        (false, 180),
        (true, 180),
        (false, 60),
        (true, 180),
        (false, 60),
        (true, 180),
        (false, 180),
        (true, 60),
        (false, 60),
        (true, 60),
        (false, 60),
        (true, 60),
    ];
    assert_eq!(seq, expect);
}

#[test]
fn encode_skips_unknown_characters() {
    let t = Timing::from_wpm(20);
    assert_eq!(encode("E#E", &t), encode("E#*E", &t));
    // A word of only unknown characters still separates its neighbours.
    let just_e = encode("E", &t);
    assert_eq!(just_e, vec![(true, 60)]);
}

#[test]
fn encode_prosign_has_no_char_gaps() {
    let t = Timing::from_wpm(20);
    // <AR> = .-.-. run together: 5 elements, 4 element gaps, nothing else.
    let seq = encode("<AR>", &t);
    assert_eq!(seq.len(), 9);
    for (i, &(on, dur)) in seq.iter().enumerate() {
        if i % 2 == 0 {
            assert!(on);
        } else {
            assert!(!on);
            assert_eq!(dur, 60);
        }
    }
    // The same pattern written as separate letters gets a character gap.
    let letters = encode("AR", &t);
    assert!(letters.contains(&(false, 180)));
}

#[test]
fn encode_word_gap_between_words() {
    let t = Timing::from_wpm(20);
    let seq = encode("E E", &t);
    assert_eq!(seq, vec![(true, 60), (false, 420), (true, 60)]);
}

#[test]
fn tone_segments_always_positive() {
    let t = Timing::from_wpm(40);
    for &(_, dur) in encode("PARIS <SK> 73", &t).iter() {
        assert!(dur >= 1);
    }
}

/// Replays a tone sequence through the decoder the way the poll loop
/// sees it: one tick at the start of every segment (the decoder is
/// polled, then the new element is pushed), and one final tick a
/// character gap after the end to drain the last character.
fn replay(seq: &[(bool, u64)], t: Timing) -> String {
    let mut d = Decoder::new(t);
    let mut out = String::new();
    let mut now: u64 = 0;
    for &(on, dur) in seq {
        if let Some(s) = d.tick(now) {
            out.push_str(&s);
        }
        if on {
            d.push_element(dur == t.dash, dur, now);
        }
        now += dur;
    }
    if let Some(s) = d.tick(now + t.char_gap) {
        out.push_str(&s);
    }
    out
}

#[test]
fn decode_sos_round_trip() {
    // P5: decoding the encoded element stream yields "SOS" again.
    let t = Timing::from_wpm(20);
    let seq = encode("SOS", &t);
    let decoded = replay(&seq, t);
    assert_eq!(decoded, "SOS");
}

#[test]
fn round_trip_sentence() {
    let t = Timing::from_wpm(25);
    let seq = encode("cq cq de dl1abc k", &t);
    let decoded = replay(&seq, t);
    let words: Vec<&str> = decoded.split_whitespace().collect();
    assert_eq!(words, vec!["CQ", "CQ", "DE", "DL1ABC", "K"]);
}

#[test]
fn round_trip_collapses_extra_spaces() {
    let t = Timing::from_wpm(20);
    let seq = encode("AB   CD", &t);
    let decoded = replay(&seq, t);
    let words: Vec<&str> = decoded.split_whitespace().collect();
    assert_eq!(words, vec!["AB", "CD"]);
}

#[test]
fn push_element_measures_gap_from_element_end() {
    // P8: a dah pushed at t=0 with duration 60 must not flush before
    // char_gap has elapsed from its end.
    let t = Timing::from_wpm(20);  // char_gap 180, word_gap 420
    let mut d = Decoder::new(t);
    d.push_element(true, 60, 0);
    assert_eq!(d.current_code(), "-");
    // Before the character gap has elapsed from the element's end (60):
    assert_eq!(d.tick(60 + 179), None);
    assert_eq!(d.current_code(), "-");
    // After char_gap but before word_gap: flush to 'T', no space yet.
    let flushed = d.tick(60 + 180);
    assert_eq!(flushed, Some("T".to_string()));
    assert_eq!(d.current_code(), "");
    // Before word_gap measured from the flush: nothing.
    assert_eq!(d.tick(60 + 180 + 419), None);
    // After word_gap from the flush: a space with no character.
    assert_eq!(d.tick(60 + 180 + 420), Some(" ".to_string()));
    // And only once.
    assert_eq!(d.tick(60 + 180 + 840), None);
}

#[test]
fn tick_without_elements_is_idle() {
    // P4: ticking with nothing pushed never changes the code and never
    // invents characters.
    let t = Timing::from_wpm(20);
    let mut d = Decoder::new(t);
    for i in 0..10_000u64 {
        assert_eq!(d.tick(i), None);
        assert_eq!(d.current_code(), "");
        assert_eq!(d.decoded_text(), "");
    }
    d.push_element(false, 60, 10_000);
    let code_before = d.current_code().to_string();
    // Ticks inside the element and its gap change nothing.
    for i in 10_000..(10_060 + 179) {
        assert_eq!(d.tick(i), None);
        assert_eq!(d.current_code(), code_before);
    }
}

#[test]
fn unknown_code_flushes_to_nothing() {
    let t = Timing::from_wpm(20);
    let mut d = Decoder::new(t);
    // Seven dits has no table entry.
    for i in 0..7u64 {
        d.push_element(false, 60, i * 120);
    }
    assert_eq!(d.current_code(), ".......");
    // Character-gap flush of an unknown code reports nothing.
    assert_eq!(d.tick(6 * 120 + 60 + 180), None);
    assert_eq!(d.current_code(), "");
    // The word gap after the flush still yields the single space.
    assert_eq!(d.tick(6 * 120 + 60 + 180 + 420), Some(" ".to_string()));
}

#[test]
fn word_gap_flush_emits_char_and_space() {
    let t = Timing::from_wpm(20);
    let mut d = Decoder::new(t);
    d.push_element(false, 60, 0);
    // Jump straight past the word gap: flush and space together.
    assert_eq!(d.tick(60 + 420), Some("E ".to_string()));
    assert_eq!(d.decoded_text(), " ");
}

#[test]
fn update_timing_swaps_timing() {
    let mut d = Decoder::new(Timing::from_wpm(20));
    d.update_timing(Timing::from_wpm(40));
    d.push_element(false, 30, 0);
    // 40 WPM: dot 30, char_gap 90.
    assert_eq!(d.tick(30 + 89), None);
    assert_eq!(d.tick(30 + 90), Some("E".to_string()));
}

#[test]
fn sk_code_is_no_character() {
    // The SK prosign's element pattern is a procedural signal, not a
    // character: it flushes to nothing rather than to a word space.
    assert_eq!(decode_code("...-.-"), None);
}

#[test]
fn farnsworth_encoding_stretches_gaps_only() {
    let t = Timing::farnsworth(20, 10);
    let seq = encode("E E", &t);
    // Elements keep the 20 WPM dot; the word gap runs at 10 WPM.
    assert_eq!(seq, vec![(true, 60), (false, 840), (true, 60)]);
    let inner = encode("EE", &t);
    assert_eq!(inner, vec![(true, 60), (false, 360), (true, 60)]);
}
