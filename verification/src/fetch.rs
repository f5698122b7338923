//! Metadata fetch: candidate resolution and track-record construction.
//!
//! A fetch probes the prioritized candidate list in order. The surrounding
//! application performs the bus I/O for one candidate at a time (bind the
//! control interface, read the metadata and status properties) and feeds the
//! outcome into a [`FetchSession`], which decides whether to accept the
//! candidate's data, move on to the next candidate, or give up with the
//! canonical "unavailable" record.
//!
//! A candidate that binds but whose metadata cannot be read is passed over,
//! so that a lower-priority player that answers properly can still be found;
//! only a candidate that hands back readable metadata ends the search.

use vstd::prelude::*;
use crate::metadata::{MetadataBag, extract_string, extract_string_array, opt_str_view,
    spec_extract_first, spec_extract_string};
use crate::text::str_eq;
use crate::track::{TrackInfo, TrackSpec, unavailable_spec};
use vstd::string::StringExecFns;

verus! {

/// What a playback-status property read produced: the status string, or
/// nothing (the read failed). A failed status read never fails the fetch; it
/// only forces `is_playing` to false.
pub enum StatusReport {
    Status(String),
    Unreadable,
}

/// What probing one candidate produced.
pub enum ProbeOutcome {
    /// The candidate did not bind: nobody owns that identity on the bus.
    NoBind,
    /// The candidate bound but its metadata property could not be read.
    NoMetadata,
    /// The candidate bound and handed back its metadata bag and the result
    /// of the status read.
    Data(MetadataBag, StatusReport),
}

/// Whether a status report means "playing": exactly the string "Playing",
/// case-sensitively; any other string, and a failed read, mean it does not.
pub open spec fn spec_is_playing(status: StatusReport) -> bool {
    match status {
        StatusReport::Status(s) => s@ == "Playing"@,
        StatusReport::Unreadable => false,
    }
}

/// The record built from one candidate's metadata bag and status report,
/// each field independently defaulted when missing or mis-shaped.
pub open spec fn track_of(bag: MetadataBag, status: StatusReport) -> TrackSpec {
    TrackSpec {
        title: match spec_extract_string(bag, "xesam:title"@) {
            Some(t) => t,
            None => "Unknown Title"@,
        },
        artist: match spec_extract_first(bag, "xesam:artist"@) {
            Some(a) => a,
            None => "Unknown Artist"@,
        },
        album: match spec_extract_string(bag, "xesam:album"@) {
            Some(a) => a,
            None => Seq::<char>::empty(),
        },
        is_playing: spec_is_playing(status),
        available: true,
    }
}

/// The record a fetch yields, given the outcome of every candidate probe in
/// priority order: the data of the first candidate with readable metadata,
/// or the "unavailable" record when there is none.
pub open spec fn spec_fetch(outcomes: Seq<ProbeOutcome>) -> TrackSpec
    decreases outcomes.len(),
{
    if outcomes.len() == 0 {
        unavailable_spec()
    } else {
        match outcomes[0] {
            ProbeOutcome::Data(bag, status) => track_of(bag, status),
            _ => spec_fetch(outcomes.skip(1)),
        }
    }
}

/// Build the track record for one resolved candidate.
pub fn build_track_info(bag: &MetadataBag, status: &StatusReport) -> (t: TrackInfo)
    ensures
        t@ == track_of(*bag, *status),
        t@.wf(),
{
    let title = match extract_string(bag, "xesam:title") {
        Some(s) => s,
        None => String::from_str("Unknown Title"),
    };
    let artist = match extract_string_array(bag, "xesam:artist") {
        Some(s) => s,
        None => String::from_str("Unknown Artist"),
    };
    let album = match extract_string(bag, "xesam:album") {
        Some(s) => s,
        None => String::new(),
    };
    let is_playing = match status {
        StatusReport::Status(s) => str_eq(s.as_str(), "Playing"),
        StatusReport::Unreadable => false,
    };
    TrackInfo { title, artist, album, is_playing, available: true }
}

/// The next thing a fetch driver has to do.
pub enum FetchAction {
    /// Probe the candidate with this index (bind it, read its properties)
    /// and feed the outcome back in.
    Probe(usize),
    /// The fetch is decided; collect the record with [`FetchSession::finish`].
    Finished,
}

/// One metadata fetch in progress: which candidate to probe next and what,
/// if anything, has been found. Candidates are re-probed from the top of the
/// list on every fresh fetch; nothing is cached across sessions.
pub struct FetchSession {
    num: usize,
    next_idx: usize,
    found: Option<TrackInfo>,
}

impl FetchSession {
    /// How many candidates this fetch considers.
    pub closed spec fn candidates(self) -> int {
        self.num as int
    }

    /// How many candidates have been probed so far.
    pub closed spec fn probed(self) -> int {
        self.next_idx as int
    }

    /// The accepted record, if a candidate has answered with readable
    /// metadata.
    pub closed spec fn found(self) -> Option<TrackInfo> {
        self.found
    }

    pub closed spec fn wf(self) -> bool {
        &&& self.next_idx <= self.num
        &&& match self.found {
            Some(t) => t@.available && t@.wf(),
            None => true,
        }
    }

    /// A fetch is decided once a candidate's data was accepted or every
    /// candidate has been probed without success.
    pub open spec fn finished(self) -> bool {
        self.found() is Some || self.probed() == self.candidates()
    }

    /// The record this fetch surfaces once it is finished.
    pub open spec fn outcome(self) -> TrackSpec {
        match self.found() {
            Some(t) => t@,
            None => unavailable_spec(),
        }
    }

    /// Start a fresh fetch over a candidate list of the given length.
    pub fn new(num_candidates: usize) -> (s: Self)
        ensures
            s.wf(),
            s.candidates() == num_candidates,
            s.probed() == 0,
            s.found() is None,
    {
        FetchSession { num: num_candidates, next_idx: 0, found: None }
    }

    pub fn is_finished(&self) -> (b: bool)
        ensures
            b == self.finished(),
    {
        self.found.is_some() || self.next_idx == self.num
    }

    /// What to do next: probe the next candidate in priority order, or stop.
    /// Once a candidate's data has been accepted no further candidate is
    /// ever probed.
    pub fn next_action(&self) -> (a: FetchAction)
        requires
            self.wf(),
        ensures
            match a {
                FetchAction::Probe(i) => !self.finished() && i == self.probed()
                    && i < self.candidates(),
                FetchAction::Finished => self.finished(),
            },
    {
        if self.found.is_some() || self.next_idx == self.num {
            FetchAction::Finished
        } else {
            FetchAction::Probe(self.next_idx)
        }
    }

    /// Feed in what probing the current candidate produced. Readable
    /// metadata decides the fetch; a bind failure or an unreadable metadata
    /// bag moves on to the next candidate.
    pub fn on_outcome(&mut self, outcome: &ProbeOutcome)
        requires
            old(self).wf(),
            !old(self).finished(),
        ensures
            final(self).wf(),
            final(self).candidates() == old(self).candidates(),
            final(self).probed() == old(self).probed() + 1,
            match *outcome {
                ProbeOutcome::Data(bag, status) => final(self).found() is Some
                    && final(self).outcome() == track_of(bag, status),
                _ => final(self).found() is None,
            },
    {
        match outcome {
            ProbeOutcome::Data(bag, status) => {
                self.found = Some(build_track_info(bag, status));
            },
            _ => {},
        }
        self.next_idx = self.next_idx + 1;
    }

    /// The record of a decided fetch: what the accepted candidate reported,
    /// or the canonical "unavailable" record when no candidate answered.
    pub fn finish(self) -> (t: TrackInfo)
        requires
            self.wf(),
            self.finished(),
        ensures
            t@ == self.outcome(),
            t@.wf(),
    {
        match self.found {
            Some(t) => t,
            None => TrackInfo::unavailable(),
        }
    }
}

/// Reference fetch driver over a pre-recorded outcome list: runs a
/// [`FetchSession`] to completion, probing candidates in priority order and
/// stopping at the first one with readable metadata.
pub fn fetch_from_outcomes(outcomes: &Vec<ProbeOutcome>) -> (t: TrackInfo)
    ensures
        t@ == spec_fetch(outcomes@),
        t@.wf(),
{
    let mut session = FetchSession::new(outcomes.len());
    proof {
        assert(outcomes@.skip(0) =~= outcomes@);
    }
    while !session.is_finished()
        invariant
            session.wf(),
            session.candidates() == outcomes@.len(),
            session.found() is None ==> spec_fetch(outcomes@) == spec_fetch(
                outcomes@.skip(session.probed()),
            ),
            session.found() is Some ==> session.outcome() == spec_fetch(outcomes@),
        decreases outcomes@.len() - session.probed(),
    {
        let i = match session.next_action() {
            FetchAction::Probe(i) => i,
            FetchAction::Finished => {
                return session.finish();
            },
        };
        let ghost prev = session.probed();
        session.on_outcome(&outcomes[i]);
        proof {
            let rest = outcomes@.skip(prev);
            assert(rest[0] == outcomes@[prev]);
            match outcomes@[prev] {
                ProbeOutcome::Data(bag, status) => {
                    assert(spec_fetch(rest) == track_of(bag, status));
                },
                _ => {
                    assert(rest.skip(1) =~= outcomes@.skip(prev + 1));
                },
            }
        }
    }
    proof {
        if session.found() is None {
            assert(outcomes@.skip(session.probed()) =~= Seq::<ProbeOutcome>::empty());
        }
    }
    session.finish()
}

/// When no candidate hands back readable metadata — in particular when not
/// one of them binds — a fetch yields exactly the "unavailable" record.
pub proof fn lemma_fetch_without_data_is_unavailable(outcomes: Seq<ProbeOutcome>)
    requires
        forall|i: int| 0 <= i < outcomes.len() ==> !(outcomes[i] is Data),
    ensures
        spec_fetch(outcomes) == unavailable_spec(),
    decreases outcomes.len(),
{
    if outcomes.len() > 0 {
        lemma_fetch_without_data_is_unavailable(outcomes.skip(1));
    }
}

/// A fetch is decided by the first candidate with readable metadata: two
/// candidate lists that agree up to and including that candidate yield the
/// same record, whatever stands behind it — no later candidate is ever
/// consulted.
pub proof fn lemma_fetch_ignores_later_candidates(
    a: Seq<ProbeOutcome>,
    b: Seq<ProbeOutcome>,
    i: int,
)
    requires
        0 <= i < a.len(),
        i < b.len(),
        a[i] is Data,
        forall|j: int| 0 <= j < i ==> !(a[j] is Data),
        forall|j: int| 0 <= j <= i ==> a[j] == b[j],
    ensures
        spec_fetch(a) == spec_fetch(b),
    decreases i,
{
    if i == 0 {
        assert(spec_fetch(a) == spec_fetch(b));
    } else {
        lemma_fetch_ignores_later_candidates(a.skip(1), b.skip(1), i - 1);
    }
}

/// Idempotence of a refresh: against an unchanged remote state — the same
/// probe outcomes, candidate for candidate — two consecutive fetches yield
/// identical records, field for field.
pub proof fn lemma_fetch_idempotent(
    first: Seq<ProbeOutcome>,
    second: Seq<ProbeOutcome>,
    t1: TrackSpec,
    t2: TrackSpec,
)
    requires
        first == second,
        t1 == spec_fetch(first),
        t2 == spec_fetch(second),
    ensures
        t1 == t2,
{
}

} // verus!
