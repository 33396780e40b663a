use cw_qso_sim::decoder::PaddleEvent;
use cw_qso_sim::keyer::{
    paddles_from_mask, process_midi, report_mask, IambicKeyer, KeyboardKeyer, KeyerInput,
    PaddleMode, DAH_MASK, DIT_MASK,
};
use cw_qso_sim::winkeyer::{classify_byte, morse_pattern, WinKeyerKeyer, WkByte};

/// Polls the keyer once per millisecond over `until` ms; the paddles
/// are pressed inside the given half-open intervals.  Returns the
/// emitted elements as (is_dah, at_ms).
fn run_keyer(
    mode: PaddleMode,
    dot: u64,
    dit_span: (u64, u64),
    dah_span: (u64, u64),
    until: u64,
) -> Vec<(bool, u64)> {
    let mut k = IambicKeyer::new(mode, dot);
    let mut events = Vec::new();
    for now in 0..until {
        let dit = dit_span.0 <= now && now < dit_span.1;
        let dah = dah_span.0 <= now && now < dah_span.1;
        match k.poll(dit, dah, now) {
            PaddleEvent::DitDown => events.push((false, now)),
            PaddleEvent::DahDown => events.push((true, now)),
            _ => {},
        }
    }
    events
}

#[test]
fn iambic_a_squeeze_burst_forms_c() {
    // P6: hold DAH throughout, tap DIT once during the DAH's element
    // window: DAH DIT DAH DIT — the letter C — then idle, never a
    // fifth element, however long the DAH is still held.
    let events = run_keyer(PaddleMode::IambicA, 60, (50, 401), (0, 2000), 2000);
    let kinds: Vec<bool> = events.iter().map(|e| e.0).collect();
    assert_eq!(kinds, vec![true, false, true, false]);
}

#[test]
fn iambic_b_bonus_element() {
    // P7: the same paddle input, keyed in both modes: Iambic-B emits
    // exactly one extra trailing element beyond Iambic-A's output.
    // The input releases both paddles during the third element, which
    // is where the two modes' memory rules part.
    let a = run_keyer(PaddleMode::IambicA, 60, (250, 290), (0, 550), 2000);
    let b = run_keyer(PaddleMode::IambicB, 60, (250, 290), (0, 550), 2000);
    let a_kinds: Vec<bool> = a.iter().map(|e| e.0).collect();
    let b_kinds: Vec<bool> = b.iter().map(|e| e.0).collect();
    assert_eq!(a_kinds, vec![true, true, false]);
    assert_eq!(b_kinds, vec![true, true, false, true]);
    assert_eq!(b.len(), a.len() + 1);
    assert_eq!(&b_kinds[..a_kinds.len()], &a_kinds[..]);
}

#[test]
fn iambic_b_repeats_while_held() {
    // Holding one paddle in Iambic-B sends that element repeatedly.
    let events = run_keyer(PaddleMode::IambicB, 60, (0, 0), (0, 1000), 1000);
    assert!(events.len() >= 4);
    assert!(events.iter().all(|e| e.0));
}

#[test]
fn iambic_elements_respect_timing() {
    // A dit occupies dot + gap, a dah three dots + gap.
    let events = run_keyer(PaddleMode::IambicB, 60, (0, 500), (0, 0), 500);
    assert!(events.len() >= 3);
    for pair in events.windows(2) {
        assert_eq!(pair[1].1 - pair[0].1, 120);
    }
}

#[test]
fn straight_mode_follows_the_paddle() {
    let mut k = IambicKeyer::new(PaddleMode::Straight, 60);
    assert_eq!(k.poll(true, false, 0), PaddleEvent::DitDown);
    assert_eq!(k.poll(true, false, 1), PaddleEvent::DitDown);
    assert_eq!(k.poll(false, false, 2), PaddleEvent::DitUp);
}

#[test]
fn keyboard_keyer_is_a_stub() {
    let mut k = KeyboardKeyer::new();
    assert_eq!(k.poll(), PaddleEvent::Idle);
    assert_eq!(k.name(), "Keyboard");
}

#[test]
fn midi_messages_move_the_paddles() {
    // Note-on for the dit note presses the dit lever.
    assert_eq!(process_midi(&[0x90, 60, 100], false, false), (true, false));
    // Note-on for the dah note presses the dah lever.
    assert_eq!(process_midi(&[0x90, 62, 100], true, false), (true, true));
    // Note-on with zero velocity releases.
    assert_eq!(process_midi(&[0x90, 60, 0], true, true), (false, true));
    // Note-off releases.
    assert_eq!(process_midi(&[0x80, 62, 64], true, true), (true, false));
    // Other notes and other messages change nothing.
    assert_eq!(process_midi(&[0x90, 61, 100], false, true), (false, true));
    assert_eq!(process_midi(&[0xB0, 60, 100], false, true), (false, true));
}

#[test]
fn report_mask_picks_the_right_byte() {
    assert_eq!(report_mask(0x01, 0x00, 8), 0x01);
    assert_eq!(report_mask(0x00, 0x10, 8), 0x10);
    assert_eq!(report_mask(0x00, 0x10, 1), 0x00);
    let (dit, dah) = paddles_from_mask(0x11, DIT_MASK, DAH_MASK);
    assert!(dit && dah);
    let (dit, dah) = paddles_from_mask(0x10, DIT_MASK, DAH_MASK);
    assert!(!dit && dah);
    // Swapped masks swap the paddles.
    let (dit, dah) = paddles_from_mask(0x10, DAH_MASK, DIT_MASK);
    assert!(dit && !dah);
}

#[test]
fn wk_byte_classification() {
    assert_eq!(classify_byte(0xC5), WkByte::Status(0xC5));
    assert_eq!(classify_byte(0x80 | 25), WkByte::SpeedPot(25));
    assert_eq!(classify_byte(b'A'), WkByte::Echo('A'));
    assert_eq!(classify_byte(b' '), WkByte::Echo(' '));
}

#[test]
fn wk_patterns_match_the_code_table() {
    assert_eq!(morse_pattern('A'), ".-");
    assert_eq!(morse_pattern('a'), ".-");
    assert_eq!(morse_pattern('%'), "...-.-");
    assert_eq!(morse_pattern('('), "-.--.");
    assert_eq!(morse_pattern('!'), "");
}

#[test]
fn synth_schedules_standard_spacing() {
    // 'A' at dot 60: dit at 0, dah at 120 (dit 60 + one-dot gap 60).
    let mut k = WinKeyerKeyer::new(60);
    k.enqueue_char('A', 0);
    let mut got = Vec::new();
    for now in 0..2000u64 {
        match k.poll(now) {
            PaddleEvent::DitDown => got.push((false, now)),
            PaddleEvent::DahDown => got.push((true, now)),
            _ => {},
        }
    }
    assert_eq!(got, vec![(false, 0), (true, 120)]);
}

#[test]
fn synth_word_space_extends_the_gap() {
    // "E E": the blank adds four dots on top of the three-dot
    // character gap, a full seven-dot word gap between the dits.
    let mut k = WinKeyerKeyer::new(60);
    k.enqueue_char('E', 0);
    k.enqueue_char(' ', 0);
    k.enqueue_char('E', 0);
    let mut got = Vec::new();
    for now in 0..3000u64 {
        if let PaddleEvent::DitDown = k.poll(now) {
            got.push(now);
        }
    }
    assert_eq!(got, vec![0, 60 + 180 + 240]);
}

#[test]
fn synth_skips_unknown_characters() {
    let mut k = WinKeyerKeyer::new(60);
    k.enqueue_char('!', 0);
    for now in 0..1000u64 {
        assert_eq!(k.poll(now), PaddleEvent::Idle);
    }
}
