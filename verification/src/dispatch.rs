//! Transport-command dispatch.
//!
//! A command (play/pause, next, previous) is offered to the candidates in
//! the same priority order the metadata fetch uses; the first candidate
//! whose invocation succeeds takes it, and no further candidate is tried. A
//! candidate that fails to bind, or binds but rejects the invocation, is
//! skipped. When every candidate fails, the dispatch reports that no player
//! was available — a silent no-op for the user, never an error.

use vstd::prelude::*;

verus! {

/// The three transport commands a player's control interface accepts.
#[derive(Clone, Copy, Debug, PartialEq, Eq, Structural)]
pub enum MprisCommand {
    PlayPause,
    Next,
    Previous,
}

/// What offering the command to one candidate produced.
#[derive(Clone, Copy, Debug, PartialEq, Eq, Structural)]
pub enum DispatchOutcome {
    /// The candidate did not bind.
    NoBind,
    /// The candidate bound but the method invocation failed.
    InvokeFailed,
    /// The candidate accepted the invocation.
    Invoked,
}

/// How a dispatch ended.
#[derive(Clone, Copy, Debug, PartialEq, Eq, Structural)]
pub enum DispatchResult {
    /// Some candidate accepted the command.
    Delivered,
    /// No candidate bound or accepted it; the command was dropped silently.
    NoPlayerAvailable,
}

/// The result of a dispatch, given the outcome of every candidate attempt
/// in priority order: delivered exactly when some candidate accepted the
/// invocation.
pub open spec fn spec_dispatch(outcomes: Seq<DispatchOutcome>) -> DispatchResult
    decreases outcomes.len(),
{
    if outcomes.len() == 0 {
        DispatchResult::NoPlayerAvailable
    } else if outcomes[0] is Invoked {
        DispatchResult::Delivered
    } else {
        spec_dispatch(outcomes.skip(1))
    }
}

/// The next thing a dispatch driver has to do.
pub enum DispatchAction {
    /// Offer the command to the candidate with this index and feed the
    /// outcome back in.
    Attempt(usize),
    /// The dispatch is decided; collect the result with
    /// [`DispatchSession::finish`].
    Finished,
}

/// One command dispatch in progress.
pub struct DispatchSession {
    num: usize,
    next_idx: usize,
    delivered: bool,
}

impl DispatchSession {
    /// How many candidates this dispatch considers.
    pub closed spec fn candidates(self) -> int {
        self.num as int
    }

    /// How many candidates have been attempted so far.
    pub closed spec fn attempted(self) -> int {
        self.next_idx as int
    }

    /// Whether some candidate has accepted the command.
    pub closed spec fn delivered(self) -> bool {
        self.delivered
    }

    pub closed spec fn wf(self) -> bool {
        self.next_idx <= self.num
    }

    /// A dispatch is decided once a candidate accepted the command or every
    /// candidate has been attempted without success.
    pub open spec fn finished(self) -> bool {
        self.delivered() || self.attempted() == self.candidates()
    }

    /// The result this dispatch reports once it is finished.
    pub open spec fn outcome(self) -> DispatchResult {
        if self.delivered() {
            DispatchResult::Delivered
        } else {
            DispatchResult::NoPlayerAvailable
        }
    }

    /// Start a fresh dispatch over a candidate list of the given length.
    pub fn new(num_candidates: usize) -> (s: Self)
        ensures
            s.wf(),
            s.candidates() == num_candidates,
            s.attempted() == 0,
            !s.delivered(),
    {
        DispatchSession { num: num_candidates, next_idx: 0, delivered: false }
    }

    pub fn is_finished(&self) -> (b: bool)
        ensures
            b == self.finished(),
    {
        self.delivered || self.next_idx == self.num
    }

    /// What to do next: offer the command to the next candidate in priority
    /// order, or stop. Once a candidate has accepted the command no further
    /// candidate is ever attempted.
    pub fn next_action(&self) -> (a: DispatchAction)
        requires
            self.wf(),
        ensures
            match a {
                DispatchAction::Attempt(i) => !self.finished() && i == self.attempted()
                    && i < self.candidates(),
                DispatchAction::Finished => self.finished(),
            },
    {
        if self.delivered || self.next_idx == self.num {
            DispatchAction::Finished
        } else {
            DispatchAction::Attempt(self.next_idx)
        }
    }

    /// Feed in what offering the command to the current candidate produced.
    pub fn on_outcome(&mut self, outcome: DispatchOutcome)
        requires
            old(self).wf(),
            !old(self).finished(),
        ensures
            final(self).wf(),
            final(self).candidates() == old(self).candidates(),
            final(self).attempted() == old(self).attempted() + 1,
            final(self).delivered() == (outcome is Invoked),
    {
        if outcome == DispatchOutcome::Invoked {
            self.delivered = true;
        }
        self.next_idx = self.next_idx + 1;
    }

    /// The result of a decided dispatch.
    pub fn finish(self) -> (r: DispatchResult)
        requires
            self.wf(),
            self.finished(),
        ensures
            r == self.outcome(),
    {
        if self.delivered {
            DispatchResult::Delivered
        } else {
            DispatchResult::NoPlayerAvailable
        }
    }
}

/// Reference dispatch driver over a pre-recorded outcome list: runs a
/// [`DispatchSession`] to completion, attempting candidates in priority
/// order and stopping at the first accepted invocation.
pub fn dispatch_from_outcomes(outcomes: &Vec<DispatchOutcome>) -> (r: DispatchResult)
    ensures
        r == spec_dispatch(outcomes@),
{
    let mut session = DispatchSession::new(outcomes.len());
    proof {
        assert(outcomes@.skip(0) =~= outcomes@);
    }
    while !session.is_finished()
        invariant
            session.wf(),
            session.candidates() == outcomes@.len(),
            !session.delivered() ==> spec_dispatch(outcomes@) == spec_dispatch(
                outcomes@.skip(session.attempted()),
            ),
            session.delivered() ==> spec_dispatch(outcomes@) == DispatchResult::Delivered,
        decreases outcomes@.len() - session.attempted(),
    {
        let i = match session.next_action() {
            DispatchAction::Attempt(i) => i,
            DispatchAction::Finished => {
                return session.finish();
            },
        };
        let ghost prev = session.attempted();
        session.on_outcome(outcomes[i]);
        proof {
            let rest = outcomes@.skip(prev);
            assert(rest[0] == outcomes@[prev]);
            if !(outcomes@[prev] is Invoked) {
                assert(rest.skip(1) =~= outcomes@.skip(prev + 1));
            }
        }
    }
    proof {
        if !session.delivered() {
            assert(outcomes@.skip(session.attempted()) =~= Seq::<DispatchOutcome>::empty());
        }
    }
    session.finish()
}

/// A command offered to an empty or wholly non-responsive candidate set is
/// dropped silently: the dispatch completes with `NoPlayerAvailable`, not
/// an error.
pub proof fn lemma_unresponsive_dispatch_is_silent(outcomes: Seq<DispatchOutcome>)
    requires
        forall|i: int| 0 <= i < outcomes.len() ==> !(outcomes[i] is Invoked),
    ensures
        spec_dispatch(outcomes) == DispatchResult::NoPlayerAvailable,
    decreases outcomes.len(),
{
    if outcomes.len() > 0 {
        lemma_unresponsive_dispatch_is_silent(outcomes.skip(1));
    }
}

} // verus!
