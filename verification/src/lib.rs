//! A background watchdog library: scans the operating system's process table
//! and requests termination of every process whose executable name exactly
//! matches a configured blacklist, until a shutdown trigger fires.
//!
//! The verified core covers the configuration fallback policy, exact-name
//! blacklist matching, the scan/kill cycle, the idempotent shutdown latch,
//! and the session-event dispatch decision. Platform plumbing (file reads,
//! signal registration, the native message loop) lives outside the library.

mod config;
mod dispatch;
mod scan;
mod shutdown;

pub use config::Config;
pub use config::ParseOutcome;
pub use config::config_from_source;
pub use config::config_from_toml;
pub use config::default_config;
pub use config::default_interval;
pub use config::default_processes;
pub use config::effective_config;
pub use config::doc_malformed;
pub use config::follows_config_policy;
pub use config::interval_key;
pub use config::interval_value;
pub use config::interval_wellshaped;
pub use config::is_default_config;
pub use config::names_of;
pub use config::processes_key;
pub use config::processes_names;
pub use config::processes_wellshaped;
pub use config::spec_default_interval;
pub use config::spec_default_processes;
pub use config::toml_array;
pub use config::toml_doc;
pub use config::toml_entry;
pub use config::toml_has_key;
pub use config::toml_int;
pub use config::toml_is_array;
pub use config::toml_is_int;
pub use config::toml_is_str;
pub use config::toml_parses;
pub use config::toml_str;
pub use scan::KillAttempt;
pub use scan::ProcEntry;
pub use scan::Snapshot;
pub use scan::blacklist_matches;
pub use scan::distinct_pids;
pub use scan::failures_of;
pub use scan::find_matches;
pub use scan::is_blacklisted;
pub use scan::matched_entries;
pub use scan::spec_failures;
pub use scan::ScanPhase;
pub use scan::advance_phase;
pub use scan::lemma_matching_is_exact;
pub use scan::lemma_sleep_separates_cycles;
pub use scan::next_phase;
pub use shutdown::ShutdownLatch;
pub use shutdown::ShutdownState;
pub use shutdown::after_trigger;
pub use shutdown::commits;
pub use shutdown::lemma_exit_exactly_once;
pub use shutdown::lemma_no_commit_after_exit;
pub use shutdown::trigger_commits;
pub use dispatch::CLOSE_MESSAGE;
pub use dispatch::DispatchAction;
pub use dispatch::QUIT_MESSAGE;
pub use dispatch::SessionEvent;
pub use dispatch::dispatch_decision;
pub use dispatch::spec_dispatch;
