//! Track which branches of a mirrored Git repository contain a given commit.
//!
//! The crate keeps a local bare mirror of an upstream repository current via
//! scheduled fetches and answers "does branch B contain commit C" queries
//! against whatever state the mirror currently holds.

pub mod ancestry;
pub mod commit_id;
pub mod config;
pub mod consts;
pub mod error;
pub mod git_calls;
pub mod github;
pub mod managed_repository;
pub mod scheduler;
pub mod status;
pub mod text;
pub mod tracked_repository;
pub mod tracker;
