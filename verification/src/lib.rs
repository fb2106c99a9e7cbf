//! Tells the maintainers of a repository, after a build, what changed
//! between two revisions and what they have to do after pulling: install
//! dependencies, build the assets, migrate the database.
//!
//! The library decides and renders; it neither reads nor sends. A driver
//! steps the machine of [`run`] and carries its requests to the outside.

pub mod bot;
pub mod command;
pub mod commit_log;
pub mod diff;
pub mod error;
pub mod github;
pub mod markdown;
pub mod plugin;
pub mod run;
pub mod snapshot;
pub mod text;
