use cw_qso_sim::timing::Timing;

#[test]
fn from_wpm_keeps_paris_ratios() {
    let t = Timing::from_wpm(20);
    assert_eq!(t.dot, 60);
    assert_eq!(t.dash, 180);
    assert_eq!(t.elem_gap, 60);
    assert_eq!(t.char_gap, 180);
    assert_eq!(t.word_gap, 420);
}

#[test]
fn from_wpm_clamps_zero_to_one() {
    let t = Timing::from_wpm(0);
    assert_eq!(t.dot, 1200);
    assert_eq!(t.dash, 3600);
    assert_eq!(t.word_gap, 8400);
}

#[test]
fn ratios_hold_for_every_wpm() {
    for w in 1..=255u8 {
        let t = Timing::from_wpm(w);
        assert_eq!(t.dash, 3 * t.dot);
        assert_eq!(t.elem_gap, t.dot);
        assert_eq!(t.char_gap, 3 * t.dot);
        assert_eq!(t.word_gap, 7 * t.dot);
    }
}

#[test]
fn farnsworth_stretches_spacing_only() {
    let t = Timing::farnsworth(25, 15);
    let base = Timing::from_wpm(25);
    assert_eq!(t.dot, base.dot);
    assert_eq!(t.dash, base.dash);
    assert_eq!(t.elem_gap, base.elem_gap);
    // 15 WPM dot is 80 ms: spacing as if sent at 15 WPM.
    assert_eq!(t.char_gap, 240);
    assert_eq!(t.word_gap, 560);
}

#[test]
fn farnsworth_never_shrinks_spacing() {
    for c in 1..=60u8 {
        for e in 1..=60u8 {
            let t = Timing::farnsworth(c, e);
            let base = Timing::from_wpm(c);
            assert!(t.char_gap >= base.char_gap);
            assert!(t.word_gap >= base.word_gap);
            assert_eq!(t.dot, base.dot);
            assert_eq!(t.dash, base.dash);
        }
    }
}
