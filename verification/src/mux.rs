//! The capture multiplexer's state machine: it walks the displays in
//! enumeration order, stops at the first frame whose scan yields a login
//! code, and records when every display was examined without one. The caller
//! drives it with one scan result per display; a failed capture counts as
//! nothing found on that display.

use vstd::prelude::*;

use crate::scanner::{ScanResult, ScanResultView};

verus! {

/// Where the walk over the displays stands.
#[derive(Clone, Copy, Debug, PartialEq, Eq, Structural)]
pub enum MuxPhase {
    /// Some display has not been examined yet and no code was found so far.
    Scanning,
    /// A login code was found and handed on; the remaining displays are
    /// never examined.
    Dispatched,
    /// Every display was examined and none carried a login code.
    Exhausted,
}

/// What the caller must do after one step.
pub enum StepAction {
    /// Forward this payload to the dispatcher and stop scanning.
    Dispatch(String),
    /// Examine the next display.
    Continue,
}

/// The state machine itself: how many displays there are, how many were
/// examined, and where the walk stands.
pub struct Mux {
    pub total: usize,
    pub examined: usize,
    pub phase: MuxPhase,
}

impl Mux {
    /// The examined count never passes the display count, scanning means
    /// some display is still unexamined, and exhaustion means all were.
    pub open spec fn wf(&self) -> bool {
        &&& self.examined <= self.total
        &&& (self.phase is Scanning ==> self.examined < self.total)
        &&& (self.phase is Exhausted ==> self.examined == self.total)
    }

    /// Starts a walk over `total` displays; with none connected, the walk is
    /// exhausted at once and the no-code report is already owed.
    pub fn new(total: usize) -> (m: Mux)
        ensures
            m.wf(),
            m.total == total,
            m.examined == 0,
            m.phase == if total == 0 { MuxPhase::Exhausted } else { MuxPhase::Scanning },
    {
        let phase = if total == 0 { MuxPhase::Exhausted } else { MuxPhase::Scanning };
        Mux { total, examined: 0, phase }
    }

    /// Whether another display must be examined.
    pub fn scanning(&self) -> (r: bool)
        ensures
            r == (self.phase is Scanning),
    {
        matches!(self.phase, MuxPhase::Scanning)
    }

    /// Whether the walk ended with no login code on any display, so that the
    /// single no-code report is owed.
    pub fn no_code_found(&self) -> (r: bool)
        ensures
            r == (self.phase is Exhausted),
    {
        matches!(self.phase, MuxPhase::Exhausted)
    }

    /// Consumes the scan result of the next display: a decoded login code is
    /// handed on at once and ends the walk; otherwise the walk moves to the
    /// next display, or is exhausted when this was the last one.
    pub fn step(&mut self, result: ScanResult) -> (a: StepAction)
        requires
            old(self).wf(),
            old(self).phase is Scanning,
        ensures
            final(self).wf(),
            final(self).total == old(self).total,
            final(self).examined == old(self).examined + 1,
            match result@ {
                ScanResultView::Decoded(p) => {
                    &&& final(self).phase is Dispatched
                    &&& a matches StepAction::Dispatch(q) && q@ == p
                },
                ScanResultView::NotFound => {
                    &&& a is Continue
                    &&& final(self).phase == if old(self).examined + 1 == old(self).total {
                        MuxPhase::Exhausted
                    } else {
                        MuxPhase::Scanning
                    }
                },
            },
    {
        self.examined = self.examined + 1;
        match result {
            ScanResult::Decoded(payload) => {
                self.phase = MuxPhase::Dispatched;
                StepAction::Dispatch(payload)
            },
            ScanResult::NotFound => {
                if self.examined == self.total {
                    self.phase = MuxPhase::Exhausted;
                }
                StepAction::Continue
            },
        }
    }
}

} // verus!
