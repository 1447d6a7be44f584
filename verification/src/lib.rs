//! One-line status summary for a coding-assistant shell prompt: directory,
//! git state, change counts, token use and model name.
//!
//! Everything here is pure: callers hand in what they read from the
//! repository and from the transcript, and get back the line to print.

pub mod git_info;
pub mod input;
pub mod lines;
pub mod path;
pub mod status_line;
pub mod style;
pub mod text;
pub mod token_count;

pub use git_info::GitInfo;
pub use input::{Input, TranscriptEntry};
pub use status_line::StatusLine;
pub use token_count::TokenCount;
