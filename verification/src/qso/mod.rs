//! The simulated QSO partner: who it is, what it sends, and when.

use vstd::prelude::*;

pub mod callsigns;
pub mod exchanges;
pub mod state;

pub use state::QsoEngine;
pub use state::QsoEvent;
pub use state::QsoPhase;

verus! {

/// Who opens the QSO: the operator or the simulated station.
#[derive(Debug, Clone, Copy, PartialEq, Eq, Structural)]
pub enum WhoStarts {
    Me,
    Sim,
}

/// The flavour of exchange the simulated station runs.
#[derive(Debug, Clone, Copy, PartialEq, Eq, Structural)]
pub enum QsoStyle {
    Ragchew,
    Contest,
    DxPileup,
    DarcCwContest,
    MwcContest,
    CwtContest,
    Random,
}

} // verus!
