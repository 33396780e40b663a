//! Synthetic paddle events from a device-side character stream.
//!
//! A hardware keyer that decodes the operator's paddling itself echoes
//! each decoded character as ASCII.  This module re-synthesizes the
//! timed dit/dah events for such characters: each one is scheduled on
//! a timeline with standard spacing, and `poll` releases the events as
//! their instants arrive, so the rest of the pipeline sees the same
//! stream an iambic keyer would produce.

use vstd::prelude::*;

use crate::decoder::{sat_add, PaddleEvent};

verus! {

/// What one byte of the device's serial stream is: a status byte, a
/// speed-pot report carrying a WPM value, or an echoed character.
#[derive(Debug, Clone, Copy, PartialEq, Eq, Structural)]
pub enum WkByte {
    Status(u8),
    SpeedPot(u8),
    Echo(char),
}

/// Byte classification: the top two bits `11` mark a status byte,
/// `10` a speed-pot byte (low six bits carry the WPM), anything else
/// is an echoed ASCII character.
pub open spec fn spec_classify_byte(b: u8) -> WkByte {
    if b & 0xC0 == 0xC0 {
        WkByte::Status(b)
    } else if b & 0xC0 == 0x80 {
        WkByte::SpeedPot(b & 0x3F)
    } else {
        WkByte::Echo(b as char)
    }
}

/// Classify one byte read from the device.
pub fn classify_byte(b: u8) -> (r: WkByte)
    ensures
        r == spec_classify_byte(b),
{
    if b & 0xC0 == 0xC0 {
        WkByte::Status(b)
    } else if b & 0xC0 == 0x80 {
        WkByte::SpeedPot(b & 0x3F)
    } else {
        WkByte::Echo(b as char)
    }
}

/// The element pattern the device echoes for one character, `-` for a
/// dah and `.` for a dit; empty when the character has no mapping and
/// is skipped.  The last four entries are the prosign characters the
/// device firmware echoes: `+` for AR, `=` for BT, `%` for SK and `(`
/// for KN, each the combined pattern with no inter-character gap.
pub open spec fn spec_wk_pattern(u: char) -> Seq<char> {
    match u {
        'A' => ".-"@,
        'B' => "-..."@,
        'C' => "-.-."@,
        'D' => "-.."@,
        'E' => "."@,
        'F' => "..-."@,
        'G' => "--."@,
        'H' => "...."@,
        'I' => ".."@,
        'J' => ".---"@,
        'K' => "-.-"@,
        'L' => ".-.."@,
        'M' => "--"@,
        'N' => "-."@,
        'O' => "---"@,
        'P' => ".--."@,
        'Q' => "--.-"@,
        'R' => ".-."@,
        'S' => "..."@,
        'T' => "-"@,
        'U' => "..-"@,
        'V' => "...-"@,
        'W' => ".--"@,
        'X' => "-..-"@,
        'Y' => "-.--"@,
        'Z' => "--.."@,
        '0' => "-----"@,
        '1' => ".----"@,
        '2' => "..---"@,
        '3' => "...--"@,
        '4' => "....-"@,
        '5' => "....."@,
        '6' => "-...."@,
        '7' => "--..."@,
        '8' => "---.."@,
        '9' => "----."@,
        '?' => "..--.."@,
        '/' => "-..-."@,
        '+' => ".-.-."@,
        '=' => "-...-"@,
        '%' => "...-.-"@,
        '(' => "-.--."@,
        _ => ""@,
    }
}

/// The echoed character's element pattern, after upper-casing.
pub fn morse_pattern(ch: char) -> (r: &'static str)
    ensures
        r@ == spec_wk_pattern(crate::text::spec_upper(ch)),
{
    let u = crate::text::to_upper(ch);
    match u {
        'A' => ".-",
        'B' => "-...",
        'C' => "-.-.",
        'D' => "-..",
        'E' => ".",
        'F' => "..-.",
        'G' => "--.",
        'H' => "....",
        'I' => "..",
        'J' => ".---",
        'K' => "-.-",
        'L' => ".-..",
        'M' => "--",
        'N' => "-.",
        'O' => "---",
        'P' => ".--.",
        'Q' => "--.-",
        'R' => ".-.",
        'S' => "...",
        'T' => "-",
        'U' => "..-",
        'V' => "...-",
        'W' => ".--",
        'X' => "-..-",
        'Y' => "-.--",
        'Z' => "--..",
        '0' => "-----",
        '1' => ".----",
        '2' => "..---",
        '3' => "...--",
        '4' => "....-",
        '5' => ".....",
        '6' => "-....",
        '7' => "--...",
        '8' => "---..",
        '9' => "----.",
        '?' => "..--..",
        '/' => "-..-.",
        '+' => ".-.-.",
        '=' => "-...-",
        '%' => "...-.-",
        '(' => "-.--.",
        _ => "",
    }
}

/// The abstract state of the synthesizer: the scheduled events (dah
/// flag and emit instant), how many of them were already emitted, the
/// dot length, and the timeline cursor where the next character will
/// be appended.
pub struct SynthModel {
    pub queue: Seq<(bool, u64)>,
    pub head: int,
    pub dot: u64,
    pub next_slot: u64,
}

/// Scheduling one pattern from index `i` at instant `t`: each element
/// is emitted at the running instant, which then advances by the
/// element's length plus a one-dot gap — or plus the three-dot
/// inter-character gap after the pattern's last element.
pub open spec fn spec_sched(p: Seq<char>, i: int, t: u64, dot: u64) -> (Seq<(bool, u64)>, u64)
    decreases p.len() - i,
{
    if i < 0 || i >= p.len() {
        (Seq::empty(), t)
    } else {
        let is_dah = p[i] == '-';
        let el: u64 = if is_dah {
            (3 * dot) as u64
        } else {
            dot
        };
        let gap: u64 = if i + 1 < p.len() {
            dot
        } else {
            (3 * dot) as u64
        };
        let t2 = sat_add(t, (el + gap) as u64);
        let (rest, tf) = spec_sched(p, i + 1, t2, dot);
        (seq![(is_dah, t)] + rest, tf)
    }
}

/// Appending one echoed character to the schedule.  A blank advances
/// the cursor by four more dots — on top of the three-dot gap the
/// previous character already appended, a full seven-dot word gap.
/// A character with a pattern is scheduled no earlier than `now`.
pub open spec fn spec_enqueue(m: SynthModel, ch: char, now: u64) -> SynthModel {
    if ch == ' ' {
        SynthModel { next_slot: sat_add(m.next_slot, (4 * m.dot) as u64), ..m }
    } else {
        let p = spec_wk_pattern(crate::text::spec_upper(ch));
        if p.len() == 0 {
            m
        } else {
            let t0 = if m.next_slot >= now {
                m.next_slot
            } else {
                now
            };
            let (evs, tf) = spec_sched(p, 0, t0, m.dot);
            SynthModel { queue: m.queue + evs, next_slot: tf, ..m }
        }
    }
}

/// One poll: the event at the head of the schedule is released once
/// its instant has arrived; nothing else changes.
pub open spec fn spec_synth_poll(m: SynthModel, now: u64) -> (SynthModel, PaddleEvent) {
    if m.head < m.queue.len() && now >= m.queue[m.head].1 {
        (
            SynthModel { head: m.head + 1, ..m },
            if m.queue[m.head].0 {
                PaddleEvent::DahDown
            } else {
                PaddleEvent::DitDown
            },
        )
    } else {
        (m, PaddleEvent::Idle)
    }
}

/// Re-synthesizes timed paddle events from decoded characters.
pub struct WinKeyerKeyer {
    /// Scheduled events: dah flag and emit instant, in timeline order.
    pub queue: Vec<(bool, u64)>,
    /// Index of the next event to emit.
    pub head: usize,
    /// Dot length in milliseconds, from the operator's speed.
    pub dot_dur: u64,
    /// The instant at which the last scheduled character ends,
    /// trailing gap included.
    pub next_slot: u64,
}

impl View for WinKeyerKeyer {
    type V = SynthModel;

    open spec fn view(&self) -> SynthModel {
        SynthModel {
            queue: self.queue@,
            head: self.head as int,
            dot: self.dot_dur,
            next_slot: self.next_slot,
        }
    }
}

impl WinKeyerKeyer {
    /// Nothing scheduled, nothing emitted; the dot length must leave
    /// room for the seven-dot word gap arithmetic.
    pub open spec fn wf(self) -> bool {
        &&& self.dot_dur <= u64::MAX / 8
        &&& self.head <= self.queue.len()
    }

    /// A fresh synthesizer for the given dot length.
    pub fn new(dot_ms: u64) -> (k: WinKeyerKeyer)
        requires
            dot_ms <= u64::MAX / 8,
        ensures
            k@ == (SynthModel { queue: Seq::<(bool, u64)>::empty(), head: 0, dot: dot_ms, next_slot: 0 }),
            k.wf(),
    {
        let k = WinKeyerKeyer { queue: Vec::new(), head: 0, dot_dur: dot_ms, next_slot: 0 };
        proof {
            assert(k@ =~= SynthModel {
                queue: Seq::<(bool, u64)>::empty(),
                head: 0,
                dot: dot_ms,
                next_slot: 0,
            });
        }
        k
    }

    /// Append the synthetic events for one echoed character.
    pub fn enqueue_char(&mut self, ch: char, now_ms: u64)
        requires
            old(self).wf(),
        ensures
            final(self)@ == spec_enqueue(old(self)@, ch, now_ms),
            final(self).wf(),
    {
        if ch == ' ' {
            self.next_slot = self.next_slot.saturating_add(4 * self.dot_dur);
            return;
        }
        let pattern = morse_pattern(ch);
        let plen = pattern.unicode_len();
        if plen == 0 {
            return;
        }

        let dot = self.dot_dur;
        let mut t: u64 = if self.next_slot >= now_ms {
            self.next_slot
        } else {
            now_ms
        };
        let ghost p = pattern@;
        let ghost t0 = t;
        let ghost q0 = self.queue@;

        let mut i: usize = 0;
        while i < plen
            invariant
                plen == p.len(),
                pattern@ == p,
                i <= plen,
                dot <= u64::MAX / 8,
                self.dot_dur == dot,
                self.head == old(self).head,
                self.next_slot == old(self).next_slot,
                self.queue@ + spec_sched(p, i as int, t, dot).0 == q0 + spec_sched(
                    p,
                    0,
                    t0,
                    dot,
                ).0,
                spec_sched(p, i as int, t, dot).1 == spec_sched(p, 0, t0, dot).1,
            decreases plen - i,
        {
            let ghost t_before = t;
            let is_dah = pattern.get_char(i) == '-';
            self.queue.push((is_dah, t));
            let el: u64 = if is_dah {
                3 * dot
            } else {
                dot
            };
            let gap: u64 = if i + 1 < plen {
                dot
            } else {
                3 * dot
            };
            t = t.saturating_add(el + gap);
            proof {
                assert(self.queue@ + spec_sched(p, i + 1, t, dot).0 =~= q0 + spec_sched(
                    p,
                    0,
                    t0,
                    dot,
                ).0);
            }
            i += 1;
        }
        self.next_slot = t;
        proof {
            assert(self.queue@ + spec_sched(p, plen as int, t, dot).0 =~= self.queue@);
            assert(self.queue@ =~= q0 + spec_sched(p, 0, t0, dot).0);
        }
    }

    /// One poll: emit the next scheduled event once its instant has
    /// arrived.
    pub fn poll(&mut self, now_ms: u64) -> (ev: PaddleEvent)
        requires
            old(self).wf(),
        ensures
            final(self)@ == spec_synth_poll(old(self)@, now_ms).0,
            ev == spec_synth_poll(old(self)@, now_ms).1,
            final(self).wf(),
    {
        if self.head < self.queue.len() {
            let (is_dah, at) = self.queue[self.head];
            if now_ms >= at {
                self.head += 1;
                if is_dah {
                    return PaddleEvent::DahDown;
                } else {
                    return PaddleEvent::DitDown;
                }
            }
        }
        PaddleEvent::Idle
    }
}

} // verus!
