use cw_qso_sim::qso::callsigns::{station_at, station_count};
use cw_qso_sim::qso::exchanges::{QsoScript, SimExchange};
use cw_qso_sim::qso::state::{QsoEngine, QsoEvent, QsoPhase};
use cw_qso_sim::qso::{QsoStyle, WhoStarts};
use cw_qso_sim::text::{split_words, str_contains, u32_to_serial, u32_to_string, upper_str};

#[test]
fn station_pool_entries() {
    assert_eq!(station_count(), 30);
    let first = station_at(0);
    assert_eq!(first.call, "DL1ABC");
    assert_eq!(first.name, "HANS");
    assert_eq!(first.qth, "BERLIN");
    assert_eq!(first.country, "DL");
    assert_eq!(first.dok, "D01");
    let last = station_at(29);
    assert_eq!(last.call, "TF3CW");
}

#[test]
fn generated_exchange_comes_from_the_pool() {
    let ex = SimExchange::generate(QsoStyle::Ragchew);
    let mut found = false;
    for i in 0..station_count() {
        let st = station_at(i);
        if st.call == ex.sim_call {
            assert_eq!(st.name, ex.sim_name);
            assert_eq!(st.qth, ex.sim_qth);
            found = true;
        }
    }
    assert!(found);
    assert!(1 <= ex.sim_serial && ex.sim_serial <= 250);
}

#[test]
fn darc_exchange_is_german() {
    for _ in 0..20 {
        let ex = SimExchange::generate(QsoStyle::DarcCwContest);
        assert!(ex.sim_call.starts_with("DL"));
        assert_ne!(ex.dok, "NM");
    }
}

#[test]
fn decimal_and_serial_formatting() {
    assert_eq!(u32_to_string(0), "0");
    assert_eq!(u32_to_string(7), "7");
    assert_eq!(u32_to_string(42), "42");
    assert_eq!(u32_to_string(12345), "12345");
    assert_eq!(u32_to_serial(1), "001");
    assert_eq!(u32_to_serial(42), "042");
    assert_eq!(u32_to_serial(250), "250");
    assert_eq!(u32_to_serial(1234), "1234");
}

#[test]
fn text_helpers() {
    assert_eq!(upper_str("cq de dl1abc"), "CQ DE DL1ABC");
    assert!(str_contains("SM5XY DE DD6DS K", "DD6DS"));
    assert!(!str_contains("SM5XY DE DD6DS K", "W1AW"));
    assert!(str_contains("ABC", ""));
    let words = split_words("  cq   cq  de dl1abc ");
    assert_eq!(words, vec!["cq", "cq", "de", "dl1abc"]);
}

fn fixed_exchange() -> SimExchange {
    SimExchange {
        sim_call: "SM5XY".to_string(),
        sim_name: "LARS".to_string(),
        sim_qth: "STOCKHOLM".to_string(),
        dok: "NM".to_string(),
        rst_to_me: "599".to_string(),
        rig: "K3".to_string(),
        ant: "YAGI".to_string(),
        pwr: "100W".to_string(),
        sim_serial: 42,
        cwt_ex: "SM".to_string(),
    }
}

#[test]
fn script_ragchew_wording() {
    let ex = fixed_exchange();
    let s = QsoScript::build("DD6DS", &ex, QsoStyle::Ragchew, "579", 1, "OP", "NM", "NM");
    assert_eq!(s.cq, "CQ CQ DE SM5XY SM5XY K");
    assert_eq!(s.answer, "DD6DS DE SM5XY SM5XY K");
    assert_eq!(
        s.report,
        "DD6DS DE SM5XY GE OM UR 599 599 NAME LARS LARS QTH STOCKHOLM STOCKHOLM HW? <AR>"
    );
    assert_eq!(
        s.ack_report,
        "TU DD6DS UR 579 579 NAME LARS QTH STOCKHOLM RIG K3 ANT YAGI PWR 100W HW? <AR>"
    );
    assert_eq!(s.chat.len(), 4);
    assert_eq!(s.chat[1], "RIG HR K3 ANT YAGI PWR 100W HW UR RIG? <AR>");
    assert_eq!(s.sign_off, "OK LARS TU FB QSO 73 ES GL DE SM5XY <SK>");
}

#[test]
fn script_mwc_wording() {
    let ex = fixed_exchange();
    let s = QsoScript::build("DD6DS", &ex, QsoStyle::MwcContest, "579", 7, "OP", "NM", "NM");
    assert_eq!(s.cq, "CQ CQ TEST SM5XY K");
    assert_eq!(s.report, "DD6DS UR RST 599 599 042 K");
    assert_eq!(s.ack_report, "DD6DS TU 73 <SK>");
    assert_eq!(s.contest_ex, "SM5XY UR RST 599 599 007 K");
    assert!(s.chat.is_empty());
    assert_eq!(s.sign_off, "");
}

#[test]
fn script_darc_wording() {
    let ex = fixed_exchange();
    let s = QsoScript::build("DD6DS", &ex, QsoStyle::DarcCwContest, "579", 1, "OP", "NM", "P53");
    assert_eq!(s.report, "DD6DS DE SM5XY RST 599 599 DOK NM NM <AR>");
    assert_eq!(s.ack_report, "TU DD6DS RST 579 579 <AR>");
    assert_eq!(s.sign_off, "TU 73 DE SM5XY <SK>");
    assert_eq!(s.contest_ex, "SM5XY UR RST 599 DOK P53 P53 <AR>");
}

#[test]
fn script_cwt_wording() {
    let ex = fixed_exchange();
    let s = QsoScript::build("DD6DS", &ex, QsoStyle::CwtContest, "579", 1, "HANS", "1234", "NM");
    assert_eq!(s.cq, "CQ CQ CWT SM5XY K");
    assert_eq!(s.report, "DD6DS LARS SM K");
    assert_eq!(s.ack_report, "TU SM5XY");
    assert_eq!(s.contest_ex, "TU HANS 1234");
}

/// A deterministic engine: zero delays and no typos.
fn engine(who: WhoStarts, style: QsoStyle) -> QsoEngine {
    QsoEngine::new("DD6DS", who, style, 0, 0, 0, 1, "OP", "NM", "NM")
}

#[test]
fn engine_walks_a_ragchew_qso() {
    let mut e = engine(WhoStarts::Sim, QsoStyle::Ragchew);
    let sim = e.sim_callsign().to_string();
    let mycall = "DD6DS".to_string();

    // Init schedules the CQ.
    assert!(e.tick("", 0).is_none());
    // The CQ comes once its instant arrives (delay drawn from 0..=0).
    match e.tick("", 1) {
        Some(QsoEvent::SimTransmit(s)) => assert_eq!(s, format!("CQ CQ DE {sim} {sim} K")),
        other => panic!("expected the CQ, got {other:?}"),
    }
    // Waiting until the operator answers with both callsigns.
    assert!(matches!(e.tick("", 2), Some(QsoEvent::WaitingForUser)));
    assert!(matches!(e.tick("QRZ?K", 3), Some(QsoEvent::SimTransmit(_))));
    let answer = format!("{sim} DE {mycall} K");
    assert!(e.tick(&answer, 4).is_none());
    // The report follows.
    match e.tick("", 5) {
        Some(QsoEvent::SimTransmit(s)) => assert!(s.contains("NAME")),
        other => panic!("expected the report, got {other:?}"),
    }
    // A two-character reply advances through the acknowledgement.
    assert!(matches!(e.tick("", 6), Some(QsoEvent::WaitingForUser)));
    assert!(e.tick("R 599 TU", 7).is_none());
    match e.tick("", 8) {
        Some(QsoEvent::SimTransmit(s)) => assert!(s.starts_with("TU DD6DS")),
        other => panic!("expected the ack, got {other:?}"),
    }
    // Chat turns, each answered, then the sign-off and completion.
    let mut transmissions = 0;
    let mut done = false;
    for i in 9..200u64 {
        match e.tick("FB FB", i) {
            Some(QsoEvent::SimTransmit(_)) => transmissions += 1,
            Some(QsoEvent::QsoComplete) => {
                done = true;
                break;
            },
            _ => {},
        }
    }
    assert!(done);
    assert!(e.is_done());
    // Four chat turns plus the sign-off.
    assert_eq!(transmissions, 5);
}

#[test]
fn engine_repeats_on_question_mark() {
    let mut e = engine(WhoStarts::Sim, QsoStyle::Ragchew);
    assert!(e.tick("", 0).is_none());
    let first = match e.tick("", 1) {
        Some(QsoEvent::SimTransmit(s)) => s,
        other => panic!("expected the CQ, got {other:?}"),
    };
    match e.tick("?", 2) {
        Some(QsoEvent::SimTransmit(s)) => assert_eq!(s, first),
        other => panic!("expected a repeat, got {other:?}"),
    }
}

#[test]
fn engine_me_start_waits_for_cq() {
    let mut e = engine(WhoStarts::Me, QsoStyle::Ragchew);
    assert!(matches!(e.tick("", 0), Some(QsoEvent::WaitingForUser)));
    assert!(matches!(e.tick("XYZ", 1), Some(QsoEvent::WaitingForUser)));
    assert!(e.tick("CQ CQ DE DD6DS K", 2).is_none());
    match e.tick("", 3) {
        Some(QsoEvent::SimTransmit(s)) => assert!(s.starts_with("DD6DS DE ")),
        other => panic!("expected the answer, got {other:?}"),
    }
}

#[test]
fn engine_contest_skips_the_chat() {
    let mut e = engine(WhoStarts::Sim, QsoStyle::Contest);
    let sim = e.sim_callsign().to_string();
    assert!(e.tick("", 0).is_none());
    assert!(matches!(e.tick("", 1), Some(QsoEvent::SimTransmit(_))));
    let answer = format!("{sim} DE DD6DS K");
    assert!(e.tick(&answer, 2).is_none());
    assert!(matches!(e.tick("", 3), Some(QsoEvent::SimTransmit(_))));
    assert!(e.tick("599 TU", 4).is_none());
    // Acknowledgement, then straight to the sign-off.
    assert!(matches!(e.tick("", 5), Some(QsoEvent::SimTransmit(_))));
    assert!(matches!(e.tick("", 6), Some(QsoEvent::SimTransmit(_))));
    assert!(matches!(e.tick("", 7), Some(QsoEvent::QsoComplete)));
}

#[test]
fn engine_phases_are_observable() {
    let e = engine(WhoStarts::Sim, QsoStyle::Ragchew);
    assert_eq!(e.phase, QsoPhase::Init);
    assert!(!e.is_done());
    let e2 = engine(WhoStarts::Me, QsoStyle::Ragchew);
    assert_eq!(e2.phase, QsoPhase::ISendCq);
}
