//! The track-info record surfaced to the presentation layer.
//!
//! A `TrackInfo` is an immutable snapshot: a refresh either yields a fully
//! populated record from a live player or one of the two canonical fallback
//! records; there is no partial or stale-but-partially-valid state.

use vstd::prelude::*;
use vstd::string::StringExecFns;

verus! {

/// The mathematical value of a `TrackInfo`: its strings as character
/// sequences, plus the two flags.
#[verifier::ext_equal]
pub struct TrackSpec {
    pub title: Seq<char>,
    pub artist: Seq<char>,
    pub album: Seq<char>,
    pub is_playing: bool,
    pub available: bool,
}

impl TrackSpec {
    /// A record never claims to be playing unless it came from a resolved,
    /// readable player.
    pub open spec fn wf(self) -> bool {
        !self.available ==> !self.is_playing
    }
}

/// The record describing the currently surfaced track, replaced wholesale on
/// each refresh.
#[derive(Debug)]
pub struct TrackInfo {
    pub title: String,
    pub artist: String,
    pub album: String,
    pub is_playing: bool,
    pub available: bool,
}

impl View for TrackInfo {
    type V = TrackSpec;

    open spec fn view(&self) -> TrackSpec {
        TrackSpec {
            title: self.title@,
            artist: self.artist@,
            album: self.album@,
            is_playing: self.is_playing,
            available: self.available,
        }
    }
}

/// The record shown before the first fetch has completed: no player has been
/// looked for yet.
pub open spec fn waiting_spec() -> TrackSpec {
    TrackSpec {
        title: "No Track"@,
        artist: "Waiting for a Media Player..."@,
        album: Seq::<char>::empty(),
        is_playing: false,
        available: false,
    }
}

/// The record produced by every failed refresh: the bus was probed and no
/// player answered.
pub open spec fn unavailable_spec() -> TrackSpec {
    TrackSpec {
        title: "No Track"@,
        artist: "No Media Player active..."@,
        album: Seq::<char>::empty(),
        is_playing: false,
        available: false,
    }
}

impl Default for TrackInfo {
    /// The initial record, used before any resolution attempt has run.
    fn default() -> (t: Self)
        ensures
            t@ == waiting_spec(),
            t@.wf(),
    {
        TrackInfo {
            title: String::from_str("No Track"),
            artist: String::from_str("Waiting for a Media Player..."),
            album: String::new(),
            is_playing: false,
            available: false,
        }
    }
}

impl TrackInfo {
    /// The canonical degraded record: every failure mode of a refresh bottoms
    /// out in this value.
    pub fn unavailable() -> (t: Self)
        ensures
            t@ == unavailable_spec(),
            t@.wf(),
    {
        TrackInfo {
            title: String::from_str("No Track"),
            artist: String::from_str("No Media Player active..."),
            album: String::new(),
            is_playing: false,
            available: false,
        }
    }
}

impl PartialEq for TrackInfo {
    fn eq(&self, other: &Self) -> (r: bool) {
        self.title == other.title && self.artist == other.artist && self.album == other.album
            && self.is_playing == other.is_playing && self.available == other.available
    }
}

impl vstd::std_specs::cmp::PartialEqSpecImpl for TrackInfo {
    open spec fn obeys_eq_spec() -> bool {
        true
    }

    open spec fn eq_spec(&self, other: &Self) -> bool {
        self@ == other@
    }
}

} // verus!
