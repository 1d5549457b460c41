//! A one-line shell prompt: the working directory and, inside a repository,
//! a condensed snapshot of the repository's state.

pub mod models;
pub mod services;
