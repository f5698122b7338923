use mpris_bridge::dispatch::{
    dispatch_from_outcomes, DispatchAction, DispatchOutcome, DispatchResult, DispatchSession,
    MprisCommand,
};
use mpris_bridge::fetch::{
    fetch_from_outcomes, FetchAction, FetchSession, ProbeOutcome, StatusReport,
};
use mpris_bridge::metadata::{MetaEntry, MetaValue, MetadataBag};
use mpris_bridge::orchestrator::{plan_for, Step, Trigger, SETTLE_MILLIS, TICK_SECS};
use mpris_bridge::track::TrackInfo;

fn text_entry(key: &str, value: &str) -> MetaEntry {
    MetaEntry {
        key: key.to_string(),
        value: MetaValue::Text(value.to_string()),
    }
}

fn list_entry(key: &str, values: &[&str]) -> MetaEntry {
    MetaEntry {
        key: key.to_string(),
        value: MetaValue::TextList(values.iter().map(|s| s.to_string()).collect()),
    }
}

fn full_bag() -> MetadataBag {
    MetadataBag {
        entries: vec![
            text_entry("xesam:title", "Song A"),
            list_entry("xesam:artist", &["Artist X", "Artist Y"]),
            text_entry("xesam:album", "Album Z"),
        ],
    }
}

fn playing() -> StatusReport {
    StatusReport::Status("Playing".to_string())
}

#[test]
fn fetch_with_no_candidates_is_unavailable() {
    let t = fetch_from_outcomes(&vec![]);
    assert_eq!(t.title, "No Track");
    assert_eq!(t.artist, "No Media Player active...");
    assert_eq!(t.album, "");
    assert!(!t.is_playing);
    assert!(!t.available);
}

#[test]
fn fetch_with_zero_bindable_candidates_is_unavailable() {
    let outcomes = vec![
        ProbeOutcome::NoBind,
        ProbeOutcome::NoBind,
        ProbeOutcome::NoBind,
        ProbeOutcome::NoBind,
    ];
    let t = fetch_from_outcomes(&outcomes);
    assert_eq!(t.title, "No Track");
    assert_eq!(t.artist, "No Media Player active...");
    assert!(!t.is_playing);
    assert!(!t.available);
}

#[test]
fn fetch_takes_second_candidate_when_first_does_not_bind() {
    let outcomes = vec![
        ProbeOutcome::NoBind,
        ProbeOutcome::Data(full_bag(), playing()),
        ProbeOutcome::Data(
            MetadataBag {
                entries: vec![text_entry("xesam:title", "Wrong Song")],
            },
            StatusReport::Unreadable,
        ),
    ];
    let t = fetch_from_outcomes(&outcomes);
    assert!(t.available);
    assert_eq!(t.title, "Song A");
    assert_eq!(t.artist, "Artist X");
}

#[test]
fn fetch_session_never_probes_past_an_accepted_candidate() {
    let mut session = FetchSession::new(3);
    match session.next_action() {
        FetchAction::Probe(i) => assert_eq!(i, 0),
        FetchAction::Finished => panic!("session stopped before the first candidate"),
    }
    session.on_outcome(&ProbeOutcome::NoBind);
    match session.next_action() {
        FetchAction::Probe(i) => assert_eq!(i, 1),
        FetchAction::Finished => panic!("session stopped before the second candidate"),
    }
    session.on_outcome(&ProbeOutcome::Data(full_bag(), playing()));
    match session.next_action() {
        FetchAction::Probe(_) => panic!("a third candidate was attempted"),
        FetchAction::Finished => {}
    }
    let t = session.finish();
    assert_eq!(t.title, "Song A");
}

#[test]
fn fetch_full_bag_yields_exact_record() {
    let outcomes = vec![ProbeOutcome::Data(full_bag(), playing())];
    let t = fetch_from_outcomes(&outcomes);
    assert_eq!(t.title, "Song A");
    assert_eq!(t.artist, "Artist X");
    assert_eq!(t.album, "Album Z");
    assert!(t.is_playing);
    assert!(t.available);
}

#[test]
fn fetch_without_title_defaults_it_and_keeps_the_rest() {
    let bag = MetadataBag {
        entries: vec![
            list_entry("xesam:artist", &["Artist X", "Artist Y"]),
            text_entry("xesam:album", "Album Z"),
        ],
    };
    let t = fetch_from_outcomes(&vec![ProbeOutcome::Data(bag, playing())]);
    assert_eq!(t.title, "Unknown Title");
    assert_eq!(t.artist, "Artist X");
    assert_eq!(t.album, "Album Z");
    assert!(t.is_playing);
    assert!(t.available);
}

#[test]
fn fetch_twice_against_unchanged_state_yields_identical_records() {
    let outcomes = vec![
        ProbeOutcome::NoMetadata,
        ProbeOutcome::Data(full_bag(), playing()),
    ];
    let first = fetch_from_outcomes(&outcomes);
    let second = fetch_from_outcomes(&outcomes);
    assert_eq!(first, second);

    let none = vec![ProbeOutcome::NoBind];
    assert_eq!(fetch_from_outcomes(&none), fetch_from_outcomes(&none));
}

#[test]
fn fetch_passes_over_a_candidate_with_unreadable_metadata() {
    let outcomes = vec![
        ProbeOutcome::NoMetadata,
        ProbeOutcome::Data(full_bag(), playing()),
    ];
    let t = fetch_from_outcomes(&outcomes);
    assert!(t.available);
    assert_eq!(t.title, "Song A");
}

#[test]
fn fetch_status_other_than_playing_is_not_playing() {
    let paused = StatusReport::Status("Paused".to_string());
    let t = fetch_from_outcomes(&vec![ProbeOutcome::Data(full_bag(), paused)]);
    assert!(t.available);
    assert!(!t.is_playing);

    let unreadable = StatusReport::Unreadable;
    let t2 = fetch_from_outcomes(&vec![ProbeOutcome::Data(full_bag(), unreadable)]);
    assert!(t2.available);
    assert!(!t2.is_playing);
}

#[test]
fn default_record_is_the_waiting_record() {
    let t = TrackInfo::default();
    assert_eq!(t.title, "No Track");
    assert_eq!(t.artist, "Waiting for a Media Player...");
    assert_eq!(t.album, "");
    assert!(!t.is_playing);
    assert!(!t.available);
}

#[test]
fn unavailable_record_has_its_canonical_fields() {
    let t = TrackInfo::unavailable();
    assert_eq!(t.title, "No Track");
    assert_eq!(t.artist, "No Media Player active...");
    assert_eq!(t.album, "");
    assert!(!t.is_playing);
    assert!(!t.available);
}

#[test]
fn dispatch_to_empty_candidate_set_completes_silently() {
    let r = dispatch_from_outcomes(&vec![]);
    assert_eq!(r, DispatchResult::NoPlayerAvailable);
}

#[test]
fn dispatch_to_non_responsive_candidates_completes_silently() {
    let r = dispatch_from_outcomes(&vec![
        DispatchOutcome::NoBind,
        DispatchOutcome::InvokeFailed,
        DispatchOutcome::NoBind,
    ]);
    assert_eq!(r, DispatchResult::NoPlayerAvailable);
}

#[test]
fn dispatch_stops_at_the_first_accepting_candidate() {
    let mut session = DispatchSession::new(4);
    match session.next_action() {
        DispatchAction::Attempt(i) => assert_eq!(i, 0),
        DispatchAction::Finished => panic!("dispatch stopped before the first candidate"),
    }
    session.on_outcome(DispatchOutcome::InvokeFailed);
    match session.next_action() {
        DispatchAction::Attempt(i) => assert_eq!(i, 1),
        DispatchAction::Finished => panic!("dispatch stopped before the second candidate"),
    }
    session.on_outcome(DispatchOutcome::Invoked);
    match session.next_action() {
        DispatchAction::Attempt(_) => panic!("a third candidate was attempted"),
        DispatchAction::Finished => {}
    }
    assert_eq!(session.finish(), DispatchResult::Delivered);
}

#[test]
fn command_plan_always_ends_in_a_fetch() {
    let plan = plan_for(&Trigger::Command(MprisCommand::PlayPause));
    assert_eq!(
        plan,
        vec![
            Step::Dispatch(MprisCommand::PlayPause),
            Step::Settle,
            Step::Fetch
        ]
    );
    let plan_next = plan_for(&Trigger::Command(MprisCommand::Next));
    assert_eq!(plan_next[0], Step::Dispatch(MprisCommand::Next));
    assert_eq!(plan_next[2], Step::Fetch);

    assert_eq!(plan_for(&Trigger::TimerTick), vec![Step::Fetch]);
    assert_eq!(plan_for(&Trigger::Startup), vec![Step::Fetch]);
}

#[test]
fn orchestrator_intervals_match_the_design() {
    assert_eq!(SETTLE_MILLIS, 100);
    assert_eq!(TICK_SECS, 2);
}
