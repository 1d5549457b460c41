//! The values that the prompt is rendered from.

pub mod git_repo_state;
pub mod git_special_state;
pub mod prompt;
