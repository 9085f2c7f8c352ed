use vstd::prelude::*;

use core::time::Duration;

use crate::event::OperationId;
use crate::types::{BleError, BleErrorView};

verus! {

/// The successor of a 64-bit counter, wrapping to zero after the maximum.
pub open spec fn wrapping_next(g: u64) -> u64 {
    if g == u64::MAX {
        0
    } else {
        (g + 1) as u64
    }
}

/// `g + 1`, wrapping to zero after the maximum.
pub fn next_counter(g: u64) -> (r: u64)
    ensures
        r == wrapping_next(g),
{
    if g == u64::MAX {
        0
    } else {
        g + 1
    }
}

/// Identifies one scan among the scans of a session; stale results carry an
/// older generation.
#[derive(Clone, Copy, Debug, PartialEq, Eq, Structural)]
pub struct ScanGeneration(pub u64);

/// The scan that a session is running.
#[derive(Clone, Copy, Debug)]
pub struct ActiveScan {
    pub generation: ScanGeneration,
    pub operation_id: OperationId,
    pub timeout: Option<Duration>,
}

/// A scan session, by value: the last generation handed out and the scan
/// that is running, if any.
pub struct ScanSessionView {
    pub generation: u64,
    pub active: Option<ActiveScan>,
}

/// Tracks the one scan that may run at a time.
#[derive(Debug)]
pub struct ScanSession {
    generation: u64,
    active: Option<ActiveScan>,
}

impl View for ScanSession {
    type V = ScanSessionView;

    closed spec fn view(&self) -> ScanSessionView {
        ScanSessionView { generation: self.generation, active: self.active }
    }
}

/// The running scan of a session, if any, holds the session's latest
/// generation: every generation handed out before it is older.
pub open spec fn session_wf(v: ScanSessionView) -> bool {
    v.active matches Some(a) ==> a.generation == ScanGeneration(v.generation)
}

impl Default for ScanSession {
    fn default() -> (r: Self)
        ensures
            r@.generation == 0,
            r@.active is None,
            session_wf(r@),
    {
        ScanSession { generation: 0, active: None }
    }
}

impl ScanSession {
    #[verifier::type_invariant]
    spec fn running_is_latest(self) -> bool {
        session_wf(self@)
    }

    /// Starts a scan under a new generation. While a scan runs, a second start
    /// is refused with `Busy` and changes nothing.
    pub fn start(&mut self, operation_id: OperationId, timeout: Option<Duration>) -> (r: Result<
        ScanGeneration,
        BleError,
    >)
        ensures
            old(self)@.active is Some ==> {
                &&& r matches Err(e) && e@ == BleErrorView::Busy("scan already active"@)
                &&& final(self)@ == old(self)@
            },
            old(self)@.active is None ==> {
                let g = wrapping_next(old(self)@.generation);
                &&& r == Ok::<ScanGeneration, BleError>(ScanGeneration(g))
                &&& final(self)@.generation == g
                &&& final(self)@.active == Some(
                    ActiveScan { generation: ScanGeneration(g), operation_id, timeout },
                )
            },
            old(self)@.active is None && old(self)@.generation < u64::MAX ==> (r matches Ok(g) && g.0
                > old(self)@.generation),
            session_wf(final(self)@),
    {
        proof {
            use_type_invariant(&*self);
        }
        if self.active.is_some() {
            return Err(BleError::Busy(String::from_str("scan already active")));
        }
        self.generation = next_counter(self.generation);
        let generation = ScanGeneration(self.generation);
        self.active = Some(ActiveScan { generation, operation_id, timeout });
        Ok(generation)
    }

    /// Ends the running scan if `generation` is its generation, answering
    /// `true`; a stale generation changes nothing and answers `false`. Only
    /// the session's latest generation can end a scan, so a generation handed
    /// out before the latest one never does.
    pub fn finish(&mut self, generation: ScanGeneration) -> (r: Result<bool, BleError>)
        ensures
            generation.0 != old(self)@.generation ==> r == Ok::<bool, BleError>(false) && final(self)@
                == old(self)@,
            session_wf(final(self)@),
            match old(self)@.active {
                Some(a) if a.generation == generation => {
                    &&& r == Ok::<bool, BleError>(true)
                    &&& final(self)@.generation == old(self)@.generation
                    &&& final(self)@.active is None
                },
                _ => r == Ok::<bool, BleError>(false) && final(self)@ == old(self)@,
            },
    {
        proof {
            use_type_invariant(&*self);
        }
        match self.active {
            Some(active) => {
                if active.generation == generation {
                    self.active = None;
                    Ok(true)
                } else {
                    Ok(false)
                }
            },
            None => Ok(false),
        }
    }

    /// The generation of the running scan.
    pub fn active_generation(&self) -> (r: Option<ScanGeneration>)
        ensures
            r == match self@.active {
                Some(a) => Some(a.generation),
                None => None::<ScanGeneration>,
            },
            r matches Some(g) ==> g.0 == self@.generation,
    {
        proof {
            use_type_invariant(self);
        }
        match self.active {
            Some(active) => Some(active.generation),
            None => None,
        }
    }

    /// The running scan.
    pub fn active(&self) -> (r: Option<ActiveScan>)
        ensures
            r == self@.active,
            session_wf(self@),
    {
        proof {
            use_type_invariant(self);
        }
        self.active
    }
}

} // verus!
