//! Updater core for a per-user Thunderbird installation: release discovery,
//! version ordering, download bookkeeping, archive checks and the decisions
//! of one update run.

pub mod application_state;
pub mod discover;
pub mod download;
pub mod error;
pub mod extract;
pub mod text;
pub mod update;
pub mod version;

pub use version::Version;
