//! Core logic of a small "now playing" desktop widget: it discovers which of
//! a prioritized list of media players is reachable on the session message
//! bus, extracts track metadata from the one that answers, dispatches
//! transport commands, and degrades to a well-defined "unavailable" state
//! when no player is running.
//!
//! Bus I/O itself (connecting, binding a proxy, property reads, method calls)
//! is performed by the surrounding application; this crate holds the verified
//! decision logic, driven step by step through small session state machines,
//! together with the metadata extraction rules and the display helpers.

pub mod dispatch;
pub mod fetch;
pub mod metadata;
pub mod orchestrator;
pub mod text;
pub mod track;

pub use dispatch::DispatchAction;
pub use dispatch::DispatchOutcome;
pub use dispatch::DispatchResult;
pub use dispatch::DispatchSession;
pub use dispatch::MprisCommand;
pub use dispatch::dispatch_from_outcomes;
pub use fetch::FetchAction;
pub use fetch::FetchSession;
pub use fetch::ProbeOutcome;
pub use fetch::StatusReport;
pub use fetch::build_track_info;
pub use fetch::fetch_from_outcomes;
pub use metadata::MetaEntry;
pub use metadata::MetaValue;
pub use metadata::MetadataBag;
pub use metadata::extract_string;
pub use metadata::extract_string_array;
pub use orchestrator::SETTLE_MILLIS;
pub use orchestrator::Step;
pub use orchestrator::TICK_SECS;
pub use orchestrator::Trigger;
pub use orchestrator::plan_for;
pub use text::truncate_text;
pub use track::TrackInfo;
pub use track::TrackSpec;
