//! The refresh orchestrator: which steps follow each external trigger.
//!
//! Startup and a timer tick ask for a metadata fetch directly. A user
//! command first dispatches the command, then waits a short settle interval
//! so the player can update its own exposed state, then re-fetches — the
//! re-fetch follows whatever the dispatch reported, so a command that
//! reached no player still refreshes the display instead of raising an
//! error. No trigger ever surfaces an error: every failure bottoms out in
//! the "unavailable" record of the fetch itself.

use vstd::prelude::*;
use crate::dispatch::MprisCommand;

verus! {

/// The settle interval in milliseconds: how long a command-triggered
/// refresh waits before re-reading the player's state.
pub const SETTLE_MILLIS: u64 = 100;

/// The period of the timer-driven refresh, in seconds.
pub const TICK_SECS: u64 = 2;

/// An external trigger the orchestrator responds to.
#[derive(Clone, Copy, Debug, PartialEq, Eq, Structural)]
pub enum Trigger {
    /// The application has just started; render real data immediately.
    Startup,
    /// The periodic refresh timer fired.
    TimerTick,
    /// The user pressed a transport button.
    Command(MprisCommand),
}

/// One step of the plan for a trigger, performed by the surrounding
/// application in order.
#[derive(Clone, Copy, Debug, PartialEq, Eq, Structural)]
pub enum Step {
    /// Dispatch this command to the candidates; ignore the result.
    Dispatch(MprisCommand),
    /// Wait the settle interval.
    Settle,
    /// Fetch metadata and surface the resulting record as the new state.
    Fetch,
}

/// The steps that answer a trigger. A command is followed by a settle wait
/// and a re-fetch whatever its dispatch reports; every other trigger is a
/// plain fetch.
pub open spec fn spec_plan(t: Trigger) -> Seq<Step> {
    match t {
        Trigger::Command(c) => seq![Step::Dispatch(c), Step::Settle, Step::Fetch],
        _ => seq![Step::Fetch],
    }
}

/// Plan the steps for one trigger.
pub fn plan_for(t: &Trigger) -> (p: Vec<Step>)
    ensures
        p@ == spec_plan(*t),
{
    let mut p: Vec<Step> = Vec::new();
    match t {
        Trigger::Command(c) => {
            p.push(Step::Dispatch(*c));
            p.push(Step::Settle);
            p.push(Step::Fetch);
        },
        _ => {
            p.push(Step::Fetch);
        },
    }
    proof {
        assert(p@ =~= spec_plan(*t));
    }
    p
}

/// Every trigger's plan ends in a metadata fetch. In particular a command
/// triggers a re-fetch unconditionally: the plan is fixed before the
/// dispatch runs, so even a command that reaches no player refreshes the
/// display.
pub proof fn lemma_plan_ends_in_fetch(t: Trigger)
    ensures
        spec_plan(t).len() >= 1,
        spec_plan(t).last() == Step::Fetch,
{
}

} // verus!
