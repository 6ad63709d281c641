//! The background task that removes expired sessions once an hour.
//!
//! The task sleeps, sweeps and sleeps again for as long as the process
//! lives. A sweep that fails is reported and tried again at the next
//! tick; it never stops the task.

use vstd::prelude::*;
use crate::constants::SWEEP_PERIOD;

verus! {

/// What the driver of the sweeper reports.
#[derive(Clone, Copy, Debug, PartialEq, Eq, Structural)]
pub enum SweeperEvent {
    /// The task has started.
    Started,
    /// The sleep is over.
    Woke,
    /// The sweep ended: the store answered, or failed.
    Swept { ok: bool },
}

/// What the driver of the sweeper is to do next.
#[derive(Clone, Copy, Debug, PartialEq, Eq, Structural)]
pub enum SweeperAction {
    /// Sleep for `seconds`; report the failed sweep first where
    /// `report_failure` is set.
    Sleep { seconds: u64, report_failure: bool },
    /// Delete the sessions that have expired by now.
    Sweep,
}

/// What follows each event.
pub open spec fn sweeper_next(event: SweeperEvent) -> SweeperAction {
    match event {
        SweeperEvent::Started => SweeperAction::Sleep {
            seconds: SWEEP_PERIOD,
            report_failure: false,
        },
        SweeperEvent::Woke => SweeperAction::Sweep,
        SweeperEvent::Swept { ok } => SweeperAction::Sleep {
            seconds: SWEEP_PERIOD,
            report_failure: !ok,
        },
    }
}

/// The sweeper's next action. There is no event on which it stops.
pub fn sweeper_step(event: SweeperEvent) -> (action: SweeperAction)
    ensures
        action == sweeper_next(event),
{
    match event {
        SweeperEvent::Started => SweeperAction::Sleep {
            seconds: SWEEP_PERIOD,
            report_failure: false,
        },
        SweeperEvent::Woke => SweeperAction::Sweep,
        SweeperEvent::Swept { ok } => SweeperAction::Sleep {
            seconds: SWEEP_PERIOD,
            report_failure: !ok,
        },
    }
}

} // verus!
