//! The iambic keyer state machine.
//!
//! On each poll the keyer is handed the live pressed state of the two
//! paddles and the current time, and decides whether to start a new
//! element.  One element window `[start, el_end)` is in flight at a
//! time; while inside it, paddle memory may be latched for the next
//! element but no event is emitted.  The squeeze latch is sticky: once
//! both paddles were seen down together it is cleared only at true
//! idle, so contact bounce cannot inject a spurious extra element.

use vstd::prelude::*;

use crate::decoder::PaddleEvent;

verus! {

/// How paddle contacts are turned into elements.
#[derive(Debug, Clone, Copy, PartialEq, Eq, Structural)]
pub enum PaddleMode {
    IambicA,
    IambicB,
    Straight,
}

/// One iambic keyer instance.  `last_el == Some(true)` records that the
/// most recently sent element was a dah.  `el_end` is the instant, in
/// milliseconds, at which the in-flight element plus its trailing
/// one-dot gap completes.
#[derive(Debug, Clone, Copy, PartialEq, Eq, Structural)]
pub struct IambicKeyer {
    pub mode: PaddleMode,
    /// Dot length in milliseconds; a dah lasts three of these.
    pub el_dur: u64,
    pub dit_mem: bool,
    pub dah_mem: bool,
    pub last_el: Option<bool>,
    pub el_end: u64,
    pub squeeze_active: bool,
    pub prev_dit: bool,
    pub prev_dah: bool,
}

/// The state after an element of the chosen kind is started at `now`:
/// the element window covers the element plus a one-dot gap, and the
/// kind is recorded for the alternation rule.
pub open spec fn spec_start_element(s: IambicKeyer, send_dit: bool, now: u64) -> IambicKeyer {
    let dur: int = if send_dit { s.el_dur as int } else { 3 * s.el_dur };
    let end: int = now + dur + s.el_dur;
    IambicKeyer {
        el_end: if end > u64::MAX { u64::MAX } else { end as u64 },
        last_el: Some(!send_dit),
        ..s
    }
}

/// Edge detection, squeeze latching and rising-edge memory, common to
/// both iambic modes: the first thing every poll does.
pub open spec fn spec_latch(s: IambicKeyer, dit: bool, dah: bool) -> IambicKeyer {
    IambicKeyer {
        prev_dit: dit,
        prev_dah: dah,
        squeeze_active: if dit && dah {
            true
        } else if s.mode == PaddleMode::IambicB && !dit && !dah {
            false
        } else {
            s.squeeze_active
        },
        dit_mem: s.dit_mem || (dit && !s.prev_dit),
        dah_mem: s.dah_mem || (dah && !s.prev_dah),
        ..s
    }
}

/// Memory latched while an element window is still open.  Iambic-A
/// latches the opposite memory only during a true squeeze; Iambic-B
/// latches it from the single paddle opposite to the element being sent.
pub open spec fn spec_latch_in_window(s: IambicKeyer, dit: bool, dah: bool) -> IambicKeyer {
    if s.mode == PaddleMode::IambicA {
        if dit && dah {
            match s.last_el {
                Some(true) => IambicKeyer { dit_mem: true, ..s },
                Some(false) => IambicKeyer { dah_mem: true, ..s },
                None => s,
            }
        } else {
            s
        }
    } else {
        match s.last_el {
            Some(true) => if dit { IambicKeyer { dit_mem: true, ..s } } else { s },
            Some(false) => if dah { IambicKeyer { dah_mem: true, ..s } } else { s },
            None => s,
        }
    }
}

/// Re-arming once the window has elapsed.  Iambic-A re-arms from a
/// single held paddle only outside a squeeze sequence, so alternation
/// stops cleanly; Iambic-B re-arms freely from whatever is held.
pub open spec fn spec_rearm(s: IambicKeyer, dit: bool, dah: bool) -> IambicKeyer {
    if s.mode == PaddleMode::IambicA {
        if !s.squeeze_active {
            IambicKeyer {
                dit_mem: s.dit_mem || (dit && !dah),
                dah_mem: s.dah_mem || (dah && !dit),
                ..s
            }
        } else {
            s
        }
    } else {
        IambicKeyer { dit_mem: s.dit_mem || dit, dah_mem: s.dah_mem || dah, ..s }
    }
}

/// The full poll transition: the state after the poll and the event it
/// reports.  Element choice priority: squeeze alternates against the
/// last element sent (dit first), then dit memory, then dah memory,
/// else idle.
pub open spec fn spec_poll(s: IambicKeyer, dit: bool, dah: bool, now: u64) -> (
    IambicKeyer,
    PaddleEvent,
) {
    if s.mode == PaddleMode::Straight {
        (s, if dit { PaddleEvent::DitDown } else { PaddleEvent::DitUp })
    } else {
        let s1 = spec_latch(s, dit, dah);
        if now < s1.el_end {
            (spec_latch_in_window(s1, dit, dah), PaddleEvent::Idle)
        } else {
            let s2 = spec_rearm(s1, dit, dah);
            if dit && dah {
                let send_dit = match s2.last_el {
                    None => true,
                    Some(was_dah) => was_dah,
                };
                let s3 = if send_dit {
                    IambicKeyer { dit_mem: false, ..s2 }
                } else {
                    IambicKeyer { dah_mem: false, ..s2 }
                };
                (
                    spec_start_element(s3, send_dit, now),
                    if send_dit { PaddleEvent::DitDown } else { PaddleEvent::DahDown },
                )
            } else if s2.dit_mem {
                (
                    spec_start_element(IambicKeyer { dit_mem: false, ..s2 }, true, now),
                    PaddleEvent::DitDown,
                )
            } else if s2.dah_mem {
                (
                    spec_start_element(IambicKeyer { dah_mem: false, ..s2 }, false, now),
                    PaddleEvent::DahDown,
                )
            } else {
                let s3 = if s.mode == PaddleMode::IambicA && !dit && !dah {
                    IambicKeyer { squeeze_active: false, ..s2 }
                } else {
                    s2
                };
                (IambicKeyer { last_el: None, ..s3 }, PaddleEvent::Idle)
            }
        }
    }
}

impl IambicKeyer {
    /// The dot length must leave room for a dah plus its trailing gap.
    pub open spec fn wf(self) -> bool {
        self.el_dur <= u64::MAX / 4
    }

    /// A fresh keyer: no memory, no element in flight, both paddles
    /// previously released.
    pub fn new(mode: PaddleMode, dot_ms: u64) -> (k: IambicKeyer)
        requires
            dot_ms <= u64::MAX / 4,
        ensures
            k == (IambicKeyer {
                mode,
                el_dur: dot_ms,
                dit_mem: false,
                dah_mem: false,
                last_el: None,
                el_end: 0,
                squeeze_active: false,
                prev_dit: false,
                prev_dah: false,
            }),
            k.wf(),
    {
        IambicKeyer {
            mode,
            el_dur: dot_ms,
            dit_mem: false,
            dah_mem: false,
            last_el: None,
            el_end: 0,
            squeeze_active: false,
            prev_dit: false,
            prev_dah: false,
        }
    }

    /// One poll step: hand in the live paddle state and the current time
    /// in milliseconds; the keyer reports the element it starts, if any.
    pub fn poll(&mut self, dit_pressed: bool, dah_pressed: bool, now_ms: u64) -> (ev: PaddleEvent)
        requires
            old(self).wf(),
        ensures
            *final(self) == spec_poll(*old(self), dit_pressed, dah_pressed, now_ms).0,
            ev == spec_poll(*old(self), dit_pressed, dah_pressed, now_ms).1,
            final(self).wf(),
    {
        match self.mode {
            PaddleMode::Straight => {
                if dit_pressed {
                    PaddleEvent::DitDown
                } else {
                    PaddleEvent::DitUp
                }
            },
            PaddleMode::IambicA | PaddleMode::IambicB => {
                let dit_edge = dit_pressed && !self.prev_dit;
                let dah_edge = dah_pressed && !self.prev_dah;
                self.prev_dit = dit_pressed;
                self.prev_dah = dah_pressed;

                if dit_pressed && dah_pressed {
                    self.squeeze_active = true;
                }
                if self.mode == PaddleMode::IambicB && !dit_pressed && !dah_pressed {
                    self.squeeze_active = false;
                }

                if dit_edge {
                    self.dit_mem = true;
                }
                if dah_edge {
                    self.dah_mem = true;
                }

                if now_ms < self.el_end {
                    if self.mode == PaddleMode::IambicA {
                        if dit_pressed && dah_pressed {
                            match self.last_el {
                                Some(true) => self.dit_mem = true,
                                Some(false) => self.dah_mem = true,
                                None => {},
                            }
                        }
                    } else {
                        match self.last_el {
                            Some(true) => if dit_pressed {
                                self.dit_mem = true;
                            },
                            Some(false) => if dah_pressed {
                                self.dah_mem = true;
                            },
                            None => {},
                        }
                    }
                    return PaddleEvent::Idle;
                }

                if self.mode == PaddleMode::IambicA {
                    if !self.squeeze_active {
                        if dit_pressed && !dah_pressed {
                            self.dit_mem = true;
                        }
                        if dah_pressed && !dit_pressed {
                            self.dah_mem = true;
                        }
                    }
                } else {
                    if dit_pressed {
                        self.dit_mem = true;
                    }
                    if dah_pressed {
                        self.dah_mem = true;
                    }
                }

                let send_dit: bool;
                if dit_pressed && dah_pressed {
                    let s = match self.last_el {
                        None => true,
                        Some(was_dah) => was_dah,
                    };
                    if s {
                        self.dit_mem = false;
                    } else {
                        self.dah_mem = false;
                    }
                    send_dit = s;
                } else if self.dit_mem {
                    self.dit_mem = false;
                    send_dit = true;
                } else if self.dah_mem {
                    self.dah_mem = false;
                    send_dit = false;
                } else {
                    if self.mode == PaddleMode::IambicA && !dit_pressed && !dah_pressed {
                        self.squeeze_active = false;
                    }
                    self.last_el = None;
                    return PaddleEvent::Idle;
                }

                let dur: u64 = if send_dit {
                    self.el_dur
                } else {
                    3 * self.el_dur
                };
                self.el_end = now_ms.saturating_add(dur).saturating_add(self.el_dur);
                self.last_el = Some(!send_dit);
                if send_dit {
                    PaddleEvent::DitDown
                } else {
                    PaddleEvent::DahDown
                }
            },
        }
    }
}

/// The paddle bitmask of the HID report: dit on bit 0, dah on bit 4.
pub const DIT_MASK: u8 = 0x01;

/// See `DIT_MASK`.
pub const DAH_MASK: u8 = 0x10;

/// MIDI note number a serial-MIDI paddle sends for the dit lever.
pub const NOTE_DIT: u8 = 60;

/// MIDI note number a serial-MIDI paddle sends for the dah lever.
pub const NOTE_DAH: u8 = 62;

/// The paddle bitmask of one HID report: the first byte when it is
/// nonzero, else the second when the report has one (a report-ID
/// prefix shifts the mask there), else nothing pressed.
pub open spec fn spec_report_mask(b0: u8, b1: u8, n: int) -> u8 {
    if b0 != 0 {
        b0
    } else if n >= 2 {
        b1
    } else {
        0
    }
}

/// Pick the paddle bitmask out of a report of `n` bytes.
pub fn report_mask(b0: u8, b1: u8, n: usize) -> (mask: u8)
    ensures
        mask == spec_report_mask(b0, b1, n as int),
{
    if b0 != 0 {
        b0
    } else if n >= 2 {
        b1
    } else {
        0
    }
}

/// Both paddle states read out of a bitmask under the given masks.
pub fn paddles_from_mask(mask: u8, dit_mask: u8, dah_mask: u8) -> (r: (bool, bool))
    ensures
        r.0 == (mask & dit_mask != 0),
        r.1 == (mask & dah_mask != 0),
{
    (mask & dit_mask != 0, mask & dah_mask != 0)
}

/// The paddle state after one MIDI message: a note-on with velocity
/// marks the lever pressed, a note-off (or note-on with velocity
/// zero) marks it released; any other message changes nothing.
pub open spec fn spec_process_midi(msg: Seq<u8>, dit: bool, dah: bool) -> (bool, bool) {
    let status = msg[0] & 0xF0;
    let note = msg[1];
    let velocity = msg[2];
    let pressed = status == 0x90 && velocity > 0;
    let released = (status == 0x90 && velocity == 0) || status == 0x80;
    if pressed || released {
        if note == NOTE_DIT {
            (pressed, dah)
        } else if note == NOTE_DAH {
            (dit, pressed)
        } else {
            (dit, dah)
        }
    } else {
        (dit, dah)
    }
}

/// Fold one MIDI message from a serial-MIDI paddle into the paddle
/// state.
pub fn process_midi(msg: &[u8], dit: bool, dah: bool) -> (r: (bool, bool))
    requires
        msg@.len() >= 3,
    ensures
        r == spec_process_midi(msg@, dit, dah),
{
    let status = msg[0] & 0xF0;
    let note = msg[1];
    let velocity = msg[2];

    let pressed = status == 0x90 && velocity > 0;
    let released = (status == 0x90 && velocity == 0) || status == 0x80;

    if pressed || released {
        if note == NOTE_DIT {
            (pressed, dah)
        } else if note == NOTE_DAH {
            (dit, pressed)
        } else {
            (dit, dah)
        }
    } else {
        (dit, dah)
    }
}

/// Adapter interface: a source of paddle events, polled without
/// blocking.  Hardware backends implement this around their device.
pub trait KeyerInput {
    /// Poll for the next event; `Idle` when there is nothing new.
    fn poll(&mut self) -> PaddleEvent;

    /// Human-readable adapter name.
    fn name(&self) -> &str;
}

/// The fallback adapter when no hardware is present: all input comes
/// from elsewhere, so polling never reports anything.
pub struct KeyboardKeyer;

impl KeyboardKeyer {
    /// The keyboard stub has no state at all.
    pub fn new() -> (k: KeyboardKeyer) {
        KeyboardKeyer
    }
}

impl KeyerInput for KeyboardKeyer {
    fn poll(&mut self) -> (ev: PaddleEvent) {
        PaddleEvent::Idle
    }

    fn name(&self) -> (r: &str) {
        "Keyboard"
    }
}

} // verus!
