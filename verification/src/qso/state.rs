//! The QSO state machine: a simulated human CW partner.
//!
//! Each tick the engine is handed the operator's latest completed
//! input, and the current time; it decides whether the simulated
//! station transmits, waits, or closes the QSO.  Human-like delays
//! and occasional typos come from the trusted rand wrappers, so the
//! contract states what holds of every draw.

use vstd::prelude::*;

use crate::decoder::sat_add;
use crate::qso::exchanges::{spec_build, spec_exchange_wf, ExchangeModel, QsoScript, ScriptModel, SimExchange};
use crate::qso::callsigns::random_rst;
use crate::qso::{QsoStyle, WhoStarts};
use crate::rng::{rand_below, rand_range_u64, rand_ratio};
use crate::text::{
    contains_char, spec_contains_char, spec_contains_seq, spec_upper_seq, spec_words_from,
    split_words, str_contains, str_eq, upper_str,
};

verus! {

/// Events produced by the engine for the UI and audio layer.
#[derive(Debug, Clone)]
pub enum QsoEvent {
    /// Play this text as CW.
    SimTransmit(String),
    /// The simulated station is listening.
    WaitingForUser,
    /// The QSO ended.
    QsoComplete,
    /// The operator asked for a repeat of the last transmission.
    RepeatLast,
}

/// The phases of a QSO, in the order a standard exchange walks them.
#[derive(Debug, Clone, Copy, PartialEq, Eq, Structural)]
pub enum QsoPhase {
    Init,
    SimSendsCq,
    WaitForMyAnswer,
    ISendCq,
    WaitForSimAnswer,
    SimSendsReport,
    WaitMyReport,
    SimAcksReport,
    Chat { turn: usize },
    WaitChatReply,
    SignOff,
    Done,
}

/// The engine's abstract state.
pub struct EngineModel {
    pub phase: QsoPhase,
    pub script: ScriptModel,
    pub exchange: ExchangeModel,
    pub last_tx: Seq<char>,
    pub my_rst: Seq<char>,
    pub next_tx_at: u64,
    pub min_delay: u64,
    pub max_delay: u64,
    pub mycall: Seq<char>,
    pub style: QsoStyle,
    pub typo_permille: u32,
}

/// Words of `src` up to and including index `k`, then the error
/// prosign, then the whole text's words again: how the engine stammers
/// a typo before repeating itself.
pub open spec fn spec_typo(src: Seq<char>, k: int) -> Seq<char> {
    let ws = spec_words_from(src, 0);
    spec_join(ws.take(k + 1)) + " <HH> "@ + spec_join(ws)
}

/// Words joined by single blanks.
pub open spec fn spec_join(ws: Seq<Seq<char>>) -> Seq<char>
    decreases ws.len(),
{
    if ws.len() == 0 {
        Seq::empty()
    } else if ws.len() == 1 {
        ws[0]
    } else {
        ws[0] + seq![' '] + spec_join(ws.skip(1))
    }
}

/// What can come out of the typo pass: the text itself, or — only
/// when it is longer than four characters and has a word — its typo
/// form for some word index.
pub open spec fn spec_typo_ok(out: Seq<char>, src: Seq<char>) -> bool {
    ||| out == src
    ||| {
        &&& src.len() > 4
        &&& exists|k: int| 0 <= k < spec_words_from(src, 0).len() && out == #[trigger] spec_typo(src, k)
    }
}

/// A transmission instant drawn from the configured delay window.
pub open spec fn spec_sched_ok(next: u64, now: u64, mn: u64, mx: u64) -> bool {
    exists|d: u64| mn <= d <= mx && next == sat_add(now, d)
}

/// A directed call to the simulated station: the input names both the
/// operator's own callsign and the station's, in upper case.
pub open spec fn spec_has_callsign(m: EngineModel, input: Seq<char>) -> bool {
    &&& input.len() > 0
    &&& spec_contains_seq(spec_upper_seq(input), spec_upper_seq(m.mycall))
    &&& spec_contains_seq(spec_upper_seq(input), spec_upper_seq(m.exchange.sim_call))
}

/// A CQ call from the operator, or a call that names them.
pub open spec fn spec_is_cq_or_call(m: EngineModel, input: Seq<char>) -> bool {
    &&& input.len() > 0
    &&& {
        ||| spec_contains_seq(spec_upper_seq(input), "CQ"@)
        ||| spec_contains_seq(spec_upper_seq(input), spec_upper_seq(m.mycall))
    }
}

/// The chat turn that follows the message last sent: one past its
/// index in the chat list, or past the end when it is not there.
pub open spec fn spec_chat_next(chat: Seq<Seq<char>>, last: Seq<char>, j: int) -> int
    decreases chat.len() - j,
{
    if j < 0 || j >= chat.len() {
        chat.len() as int
    } else if chat[j] == last {
        j + 1
    } else {
        spec_chat_next(chat, last, j + 1)
    }
}

/// The full tick relation: given the state before, the input and the
/// time, what the state after and the reported event may be.  The
/// existentials stand for the random delay and typo draws; everything
/// else is pinned.
pub open spec fn spec_tick_rel(
    pre: EngineModel,
    post: EngineModel,
    out: Option<QsoEvent>,
    input: Seq<char>,
    now: u64,
) -> bool {
    if spec_contains_char(input, '?') && pre.last_tx.len() > 0 {
        post == pre && (match out {
            Some(QsoEvent::SimTransmit(s)) => s@ == pre.last_tx,
            _ => false,
        })
    } else {
        match pre.phase {
            QsoPhase::Init => {
                &&& out is None
                &&& exists|d: u64|
                    pre.min_delay <= d <= pre.max_delay && post == (EngineModel {
                        phase: QsoPhase::SimSendsCq,
                        next_tx_at: sat_add(now, d),
                        ..pre
                    })
            },
            QsoPhase::SimSendsCq => {
                if now >= pre.next_tx_at {
                    exists|tx: Seq<char>|
                        {
                            &&& #[trigger] spec_typo_ok(tx, pre.script.cq)
                            &&& post == (EngineModel {
                                phase: QsoPhase::WaitForMyAnswer,
                                last_tx: tx,
                                ..pre
                            })
                            &&& match out {
                                Some(QsoEvent::SimTransmit(s)) => s@ == tx,
                                _ => false,
                            }
                        }
                } else {
                    post == pre && out is None
                }
            },
            QsoPhase::WaitForMyAnswer => {
                if spec_has_callsign(pre, input) {
                    &&& out is None
                    &&& exists|d: u64|
                        pre.min_delay <= d <= pre.max_delay && post == (EngineModel {
                            phase: QsoPhase::SimSendsReport,
                            next_tx_at: sat_add(now, d),
                            ..pre
                        })
                } else {
                    post == pre && out == Some(QsoEvent::WaitingForUser)
                }
            },
            QsoPhase::ISendCq => {
                if spec_is_cq_or_call(pre, input) {
                    &&& out is None
                    &&& exists|d: u64|
                        pre.min_delay <= d <= pre.max_delay && post == (EngineModel {
                            phase: QsoPhase::WaitForSimAnswer,
                            next_tx_at: sat_add(now, d),
                            ..pre
                        })
                } else {
                    post == pre && out == Some(QsoEvent::WaitingForUser)
                }
            },
            QsoPhase::WaitForSimAnswer => {
                if now >= pre.next_tx_at {
                    exists|tx: Seq<char>, d: u64|
                        #![trigger spec_typo_ok(tx, pre.script.answer), sat_add(now, d)]
                        {
                            &&& spec_typo_ok(tx, pre.script.answer)
                            &&& pre.min_delay <= d <= pre.max_delay
                            &&& post == (EngineModel {
                                phase: QsoPhase::SimSendsReport,
                                last_tx: tx,
                                next_tx_at: sat_add(now, d),
                                ..pre
                            })
                            &&& match out {
                                Some(QsoEvent::SimTransmit(s)) => s@ == tx,
                                _ => false,
                            }
                        }
                } else {
                    post == pre && out is None
                }
            },
            QsoPhase::SimSendsReport => {
                if now >= pre.next_tx_at {
                    exists|tx: Seq<char>|
                        {
                            &&& #[trigger] spec_typo_ok(tx, pre.script.report)
                            &&& post == (EngineModel {
                                phase: QsoPhase::WaitMyReport,
                                last_tx: tx,
                                ..pre
                            })
                            &&& match out {
                                Some(QsoEvent::SimTransmit(s)) => s@ == tx,
                                _ => false,
                            }
                        }
                } else {
                    post == pre && out is None
                }
            },
            QsoPhase::WaitMyReport => {
                if input.len() >= 2 {
                    &&& out is None
                    &&& exists|d: u64|
                        pre.min_delay <= d <= pre.max_delay && post == (EngineModel {
                            phase: QsoPhase::SimAcksReport,
                            next_tx_at: sat_add(now, d),
                            ..pre
                        })
                } else {
                    post == pre && out == Some(QsoEvent::WaitingForUser)
                }
            },
            QsoPhase::SimAcksReport => {
                if now >= pre.next_tx_at {
                    exists|tx: Seq<char>, d: u64|
                        #![trigger spec_typo_ok(tx, pre.script.ack_report), sat_add(now, d)]
                        {
                            &&& spec_typo_ok(tx, pre.script.ack_report)
                            &&& pre.min_delay <= d <= pre.max_delay
                            &&& post == (EngineModel {
                                phase: if pre.style == QsoStyle::Contest || pre.style
                                    == QsoStyle::DxPileup || pre.style == QsoStyle::DarcCwContest {
                                    QsoPhase::SignOff
                                } else {
                                    QsoPhase::Chat { turn: 0 }
                                },
                                last_tx: tx,
                                next_tx_at: sat_add(now, d),
                                ..pre
                            })
                            &&& match out {
                                Some(QsoEvent::SimTransmit(s)) => s@ == tx,
                                _ => false,
                            }
                        }
                } else {
                    post == pre && out is None
                }
            },
            QsoPhase::Chat { turn } => {
                if now >= pre.next_tx_at {
                    if turn >= pre.script.chat.len() {
                        &&& out is None
                        &&& exists|d: u64|
                            pre.min_delay <= d <= pre.max_delay && post == (EngineModel {
                                phase: QsoPhase::SignOff,
                                next_tx_at: sat_add(now, d),
                                ..pre
                            })
                    } else {
                        exists|tx: Seq<char>|
                            {
                                &&& #[trigger] spec_typo_ok(tx, pre.script.chat[turn as int])
                                &&& post == (EngineModel {
                                    phase: QsoPhase::WaitChatReply,
                                    last_tx: tx,
                                    ..pre
                                })
                                &&& match out {
                                    Some(QsoEvent::SimTransmit(s)) => s@ == tx,
                                    _ => false,
                                }
                            }
                    }
                } else {
                    post == pre && out is None
                }
            },
            QsoPhase::WaitChatReply => {
                if input.len() >= 2 {
                    &&& out is None
                    &&& exists|d: u64|
                        pre.min_delay <= d <= pre.max_delay && post == (EngineModel {
                            phase: QsoPhase::Chat {
                                turn: spec_chat_next(pre.script.chat, pre.last_tx, 0) as usize,
                            },
                            next_tx_at: sat_add(now, d),
                            ..pre
                        })
                } else {
                    post == pre && out == Some(QsoEvent::WaitingForUser)
                }
            },
            QsoPhase::SignOff => {
                if now >= pre.next_tx_at {
                    exists|tx: Seq<char>|
                        {
                            &&& #[trigger] spec_typo_ok(tx, pre.script.sign_off)
                            &&& post == (EngineModel {
                                phase: QsoPhase::Done,
                                last_tx: tx,
                                ..pre
                            })
                            &&& match out {
                                Some(QsoEvent::SimTransmit(s)) => s@ == tx,
                                _ => false,
                            }
                        }
                } else {
                    post == pre && out is None
                }
            },
            QsoPhase::Done => post == pre && out == Some(QsoEvent::QsoComplete),
        }
    }
}

/// The simulated QSO partner.
pub struct QsoEngine {
    pub phase: QsoPhase,
    pub script: QsoScript,
    pub exchange: SimExchange,
    pub last_tx: String,
    pub my_rst: String,
    pub next_tx_at: u64,
    pub min_delay: u64,
    pub max_delay: u64,
    pub mycall: String,
    pub style: QsoStyle,
    pub typo_permille: u32,
}

impl View for QsoEngine {
    type V = EngineModel;

    open spec fn view(&self) -> EngineModel {
        EngineModel {
            phase: self.phase,
            script: self.script@,
            exchange: self.exchange@,
            last_tx: self.last_tx@,
            my_rst: self.my_rst@,
            next_tx_at: self.next_tx_at,
            min_delay: self.min_delay,
            max_delay: self.max_delay,
            mycall: self.mycall@,
            style: self.style,
            typo_permille: self.typo_permille,
        }
    }
}

/// The text after the typo pass: unchanged, or its typo form.  The
/// probability is `typo_permille` in a thousand.
fn maybe_typo(typo_permille: u32, text: &str) -> (r: String)
    requires
        typo_permille <= 1000,
    ensures
        spec_typo_ok(r@, text@),
{
    if rand_ratio(typo_permille, 1000) && text.unicode_len() > 4 {
        let words = split_words(text);
        if words.len() == 0 {
            return text.to_owned();
        }
        let idx = rand_below(words.len());
        let mut s = join_space(&words, idx + 1);
        s.append(" <HH> ");
        let tail = join_space(&words, words.len());
        s.append(tail.as_str());
        proof {
            let ws = spec_words_from(text@, 0);
            assert(ws.take(ws.len() as int) =~= ws);
            assert(s@ == spec_typo(text@, idx as int));
            assert(text@.len() > 4);
        }
        s
    } else {
        text.to_owned()
    }
}

/// The first `n` words joined by single blanks.
fn join_space(ws: &Vec<String>, n: usize) -> (r: String)
    requires
        n <= ws@.len(),
    ensures
        r@ == spec_join(ws@.map_values(|w: String| w@).take(n as int)),
{
    let ghost views = ws@.map_values(|w: String| w@);
    let mut s = String::new();
    let mut i: usize = 0;
    while i < n
        invariant
            n <= ws@.len(),
            views == ws@.map_values(|w: String| w@),
            i <= n,
            s@ == spec_join(views.take(i as int)),
        decreases n - i,
    {
        if i > 0 {
            s.append(" ");
            proof {
                reveal_strlit(" ");
                assert(" "@ =~= seq![' ']);
            }
        }
        s.append(ws[i].as_str());
        proof {
            lemma_join_push(views.take(i as int), views[i as int]);
            assert(views.take(i as int).push(views[i as int]) =~= views.take(i + 1));
        }
        i += 1;
    }
    s
}

/// Joining one more word appends a blank and the word — except to an
/// empty list, which it makes the word alone.
proof fn lemma_join_push(ws: Seq<Seq<char>>, w: Seq<char>)
    ensures
        ws.len() == 0 ==> spec_join(ws.push(w)) == w,
        ws.len() > 0 ==> spec_join(ws.push(w)) == spec_join(ws) + seq![' '] + w,
    decreases ws.len(),
{
    if ws.len() == 0 {
        assert(ws.push(w)[0] =~= w);
    } else {
        lemma_join_push(ws.skip(1), w);
        assert(ws.push(w).skip(1) =~= ws.skip(1).push(w));
        if ws.len() == 1 {
            assert(spec_join(ws.push(w)) == ws[0] + seq![' '] + w);
        }
    }
}

/// The chat turn following the last transmission, by scan.
fn chat_next(chat: &Vec<String>, last: &String) -> (r: usize)
    ensures
        r as int == spec_chat_next(chat@.map_values(|m: String| m@), last@, 0),
        r <= chat@.len(),
{
    let ghost views = chat@.map_values(|m: String| m@);
    let n = chat.len();
    let mut j: usize = 0;
    while j < n
        invariant
            n == chat@.len(),
            views == chat@.map_values(|m: String| m@),
            j <= n,
            spec_chat_next(views, last@, 0) == spec_chat_next(views, last@, j as int),
        decreases n - j,
    {
        if str_eq(chat[j].as_str(), last.as_str()) {
            return j + 1;
        }
        j += 1;
    }
    n
}

impl QsoEngine {
    /// Bounds the tick arithmetic: the typo ratio is a per-mille
    /// value, and the delay window is ordered.
    pub open spec fn wf(self) -> bool {
        &&& self.typo_permille <= 1000
        &&& self.min_delay <= self.max_delay
    }

    /// A fresh engine: the exchange and the station's report are
    /// drawn, the script is built from them, and the phase starts
    /// with whoever opens the QSO.
    pub fn new(
        mycall: &str,
        who_starts: WhoStarts,
        style: QsoStyle,
        min_delay_ms: u64,
        max_delay_ms: u64,
        typo_permille: u32,
        my_serial: u32,
        cwt_name: &str,
        cwt_nr: &str,
        my_dok: &str,
    ) -> (r: QsoEngine)
        requires
            min_delay_ms <= max_delay_ms,
            typo_permille <= 1000,
        ensures
            r.wf(),
            spec_exchange_wf(r@.exchange, style),
            exists|j: int| 0 <= j < 9 && r@.my_rst == #[trigger] crate::qso::callsigns::spec_rst(j)@,
            r@.script == spec_build(
                mycall@,
                r@.exchange,
                style,
                r@.my_rst,
                my_serial,
                cwt_name@,
                cwt_nr@,
                my_dok@,
            ),
            r@.phase == (if who_starts == WhoStarts::Sim {
                QsoPhase::Init
            } else {
                QsoPhase::ISendCq
            }),
            r@.last_tx.len() == 0,
            r@.next_tx_at == 0,
            r@.min_delay == min_delay_ms,
            r@.max_delay == max_delay_ms,
            r@.mycall == mycall@,
            r@.style == style,
            r@.typo_permille == typo_permille,
    {
        let ex = SimExchange::generate(style);
        let my_rst = random_rst().to_owned();
        let script = QsoScript::build(
            mycall,
            &ex,
            style,
            my_rst.as_str(),
            my_serial,
            cwt_name,
            cwt_nr,
            my_dok,
        );
        let phase = if who_starts == WhoStarts::Sim {
            QsoPhase::Init
        } else {
            QsoPhase::ISendCq
        };
        QsoEngine {
            phase,
            script,
            exchange: ex,
            last_tx: String::new(),
            my_rst,
            next_tx_at: 0,
            min_delay: min_delay_ms,
            max_delay: max_delay_ms,
            mycall: mycall.to_owned(),
            style,
            typo_permille,
        }
    }

    /// True when the input is a directed call naming both the
    /// operator and the simulated station.
    fn input_has_callsign(&self, input: &str) -> (r: bool)
        ensures
            r == spec_has_callsign(self@, input@),
    {
        let up = upper_str(input);
        let my_up = upper_str(self.mycall.as_str());
        let sim_up = upper_str(self.exchange.sim_call.as_str());
        !up.as_str().is_empty() && str_contains(up.as_str(), my_up.as_str()) && str_contains(
            up.as_str(),
            sim_up.as_str(),
        )
    }

    /// True when the input is a CQ call or names the operator.
    fn input_is_cq_or_call(&self, input: &str) -> (r: bool)
        ensures
            r == spec_is_cq_or_call(self@, input@),
    {
        let up = upper_str(input);
        let my_up = upper_str(self.mycall.as_str());
        !up.as_str().is_empty() && (str_contains(up.as_str(), "CQ") || str_contains(
            up.as_str(),
            my_up.as_str(),
        ))
    }

    /// Draw the instant of the next transmission; the drawn delay is
    /// handed back for the caller's reasoning.
    fn schedule_delay(&mut self, now_ms: u64) -> (d: u64)
        requires
            old(self).wf(),
        ensures
            old(self).min_delay <= d <= old(self).max_delay,
            *final(self) == (QsoEngine { next_tx_at: sat_add(now_ms, d), ..*old(self) }),
    {
        let d = rand_range_u64(self.min_delay, self.max_delay);
        self.next_tx_at = now_ms.saturating_add(d);
        proof {
            assert(self.next_tx_at == sat_add(now_ms, d));
        }
        d
    }

    /// One tick of the conversation.  `user_input` is the trimmed,
    /// upper-cased content of the operator's last completed over —
    /// empty when nothing new arrived; `now_ms` is the current time.
    pub fn tick(&mut self, user_input: &str, now_ms: u64) -> (r: Option<QsoEvent>)
        requires
            old(self).wf(),
        ensures
            final(self).wf(),
            spec_tick_rel(old(self)@, final(self)@, r, user_input@, now_ms),
    {
        if contains_char(user_input, '?') && !self.last_tx.as_str().is_empty() {
            return Some(QsoEvent::SimTransmit(self.last_tx.clone()));
        }

        match self.phase {
            QsoPhase::Init => {
                let d = self.schedule_delay(now_ms);
                self.phase = QsoPhase::SimSendsCq;
                proof {
                    assert(self@ =~= (EngineModel {
                        phase: QsoPhase::SimSendsCq,
                        next_tx_at: sat_add(now_ms, d),
                        ..old(self)@
                    }));
                }
                None
            },
            QsoPhase::SimSendsCq => {
                if now_ms >= self.next_tx_at {
                    let tx = maybe_typo(self.typo_permille, self.script.cq.as_str());
                    proof {
                        assert(spec_typo_ok(tx@, old(self)@.script.cq));
                    }
                    self.last_tx = tx.clone();
                    self.phase = QsoPhase::WaitForMyAnswer;
                    proof {
                        assert(self@ =~= (EngineModel {
                            phase: QsoPhase::WaitForMyAnswer,
                            last_tx: tx@,
                            ..old(self)@
                        }));
                    }
                    Some(QsoEvent::SimTransmit(tx))
                } else {
                    None
                }
            },
            QsoPhase::WaitForMyAnswer => {
                if self.input_has_callsign(user_input) {
                    self.phase = QsoPhase::SimSendsReport;
                    let d = self.schedule_delay(now_ms);
                    proof {
                        assert(self@ =~= (EngineModel {
                            phase: QsoPhase::SimSendsReport,
                            next_tx_at: sat_add(now_ms, d),
                            ..old(self)@
                        }));
                    }
                    None
                } else {
                    Some(QsoEvent::WaitingForUser)
                }
            },
            QsoPhase::ISendCq => {
                if self.input_is_cq_or_call(user_input) {
                    let d = self.schedule_delay(now_ms);
                    self.phase = QsoPhase::WaitForSimAnswer;
                    proof {
                        assert(self@ =~= (EngineModel {
                            phase: QsoPhase::WaitForSimAnswer,
                            next_tx_at: sat_add(now_ms, d),
                            ..old(self)@
                        }));
                    }
                    None
                } else {
                    Some(QsoEvent::WaitingForUser)
                }
            },
            QsoPhase::WaitForSimAnswer => {
                if now_ms >= self.next_tx_at {
                    let tx = maybe_typo(self.typo_permille, self.script.answer.as_str());
                    proof {
                        assert(spec_typo_ok(tx@, old(self)@.script.answer));
                    }
                    self.last_tx = tx.clone();
                    self.phase = QsoPhase::SimSendsReport;
                    let d = self.schedule_delay(now_ms);
                    proof {
                        assert(self@ =~= (EngineModel {
                            phase: QsoPhase::SimSendsReport,
                            last_tx: tx@,
                            next_tx_at: sat_add(now_ms, d),
                            ..old(self)@
                        }));
                    }
                    Some(QsoEvent::SimTransmit(tx))
                } else {
                    None
                }
            },
            QsoPhase::SimSendsReport => {
                if now_ms >= self.next_tx_at {
                    let tx = maybe_typo(self.typo_permille, self.script.report.as_str());
                    proof {
                        assert(spec_typo_ok(tx@, old(self)@.script.report));
                    }
                    self.last_tx = tx.clone();
                    self.phase = QsoPhase::WaitMyReport;
                    proof {
                        assert(self@ =~= (EngineModel {
                            phase: QsoPhase::WaitMyReport,
                            last_tx: tx@,
                            ..old(self)@
                        }));
                    }
                    Some(QsoEvent::SimTransmit(tx))
                } else {
                    None
                }
            },
            QsoPhase::WaitMyReport => {
                if user_input.unicode_len() >= 2 {
                    self.phase = QsoPhase::SimAcksReport;
                    let d = self.schedule_delay(now_ms);
                    proof {
                        assert(self@ =~= (EngineModel {
                            phase: QsoPhase::SimAcksReport,
                            next_tx_at: sat_add(now_ms, d),
                            ..old(self)@
                        }));
                    }
                    None
                } else {
                    Some(QsoEvent::WaitingForUser)
                }
            },
            QsoPhase::SimAcksReport => {
                if now_ms >= self.next_tx_at {
                    let tx = maybe_typo(self.typo_permille, self.script.ack_report.as_str());
                    proof {
                        assert(spec_typo_ok(tx@, old(self)@.script.ack_report));
                    }
                    self.last_tx = tx.clone();
                    let next_phase = if self.style == QsoStyle::Contest || self.style
                        == QsoStyle::DxPileup || self.style == QsoStyle::DarcCwContest {
                        QsoPhase::SignOff
                    } else {
                        QsoPhase::Chat { turn: 0 }
                    };
                    self.phase = next_phase;
                    let d = self.schedule_delay(now_ms);
                    proof {
                        assert(self@ =~= (EngineModel {
                            phase: next_phase,
                            last_tx: tx@,
                            next_tx_at: sat_add(now_ms, d),
                            ..old(self)@
                        }));
                    }
                    Some(QsoEvent::SimTransmit(tx))
                } else {
                    None
                }
            },
            QsoPhase::Chat { turn } => {
                if now_ms >= self.next_tx_at {
                    if turn >= self.script.chat.len() {
                        self.phase = QsoPhase::SignOff;
                        let d = self.schedule_delay(now_ms);
                        proof {
                            assert(self@ =~= (EngineModel {
                                phase: QsoPhase::SignOff,
                                next_tx_at: sat_add(now_ms, d),
                                ..old(self)@
                            }));
                        }
                        None
                    } else {
                        let tx = maybe_typo(self.typo_permille, self.script.chat[turn].as_str());
                        proof {
                            assert(spec_typo_ok(tx@, old(self)@.script.chat[turn as int]));
                        }
                        self.last_tx = tx.clone();
                        self.phase = QsoPhase::WaitChatReply;
                        proof {
                            assert(self@ =~= (EngineModel {
                                phase: QsoPhase::WaitChatReply,
                                last_tx: tx@,
                                ..old(self)@
                            }));
                        }
                        Some(QsoEvent::SimTransmit(tx))
                    }
                } else {
                    None
                }
            },
            QsoPhase::WaitChatReply => {
                if user_input.unicode_len() >= 2 {
                    let next_turn = chat_next(&self.script.chat, &self.last_tx);
                    self.phase = QsoPhase::Chat { turn: next_turn };
                    let d = self.schedule_delay(now_ms);
                    proof {
                        assert(self@ =~= (EngineModel {
                            phase: QsoPhase::Chat { turn: next_turn },
                            next_tx_at: sat_add(now_ms, d),
                            ..old(self)@
                        }));
                    }
                    None
                } else {
                    Some(QsoEvent::WaitingForUser)
                }
            },
            QsoPhase::SignOff => {
                if now_ms >= self.next_tx_at {
                    let tx = maybe_typo(self.typo_permille, self.script.sign_off.as_str());
                    proof {
                        assert(spec_typo_ok(tx@, old(self)@.script.sign_off));
                    }
                    self.last_tx = tx.clone();
                    self.phase = QsoPhase::Done;
                    proof {
                        assert(self@ =~= (EngineModel {
                            phase: QsoPhase::Done,
                            last_tx: tx@,
                            ..old(self)@
                        }));
                    }
                    Some(QsoEvent::SimTransmit(tx))
                } else {
                    None
                }
            },
            QsoPhase::Done => Some(QsoEvent::QsoComplete),
        }
    }

    /// The simulated station's callsign.
    pub fn sim_callsign(&self) -> (r: &str)
        ensures
            r@ == self@.exchange.sim_call,
    {
        self.exchange.sim_call.as_str()
    }

    /// Whether the QSO has ended.
    pub fn is_done(&self) -> (r: bool)
        ensures
            r == (self@.phase == QsoPhase::Done),
    {
        self.phase == QsoPhase::Done
    }
}

} // verus!
