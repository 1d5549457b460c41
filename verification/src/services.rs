//! Reading a repository and deciding what the prompt says of it.

pub mod git_queries;
pub mod git_state_detector;
pub mod git_status;
pub mod prompt_renderer;
pub mod terminal;
