//! Verified core of a commit-message generation and review workflow tool:
//! diff statistics, prompt construction, endpoint resolution, response
//! cleanup, and the interactive commit state machine.

pub mod commit;
pub mod config;
pub mod diff;
pub mod endpoint;
pub mod error;
pub mod message;
pub mod prompt;
pub mod provider;
pub mod response;
pub mod state;
pub mod stats;
pub mod text;
pub mod ui;
