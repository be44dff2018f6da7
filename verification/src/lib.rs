//! Keeps a working directory mirrored to a remote git branch.
//!
//! The crate holds the decisions of the synchroniser: when to commit, pull
//! and push, which git commands make up each operation, how their output is
//! read, and which paths are worth reacting to. Running processes, watching
//! the file system and sleeping are left to the program around it.
//!
//! - [`engine`]: the timing of synchronisation, polling and backoff.
//! - [`git`] and [`exchange`]: the operations on the repository, as
//!   conversations with git that the caller carries out.
//! - [`status`]: reading what git prints.
//! - [`ignore`]: the paths that are left out.
//! - [`daemon`]: the synchroniser that ties these together.
//! - [`clock`]: the time of day for commit messages.
//! - [`config`] and [`settings`]: the settings and how they are changed.
//! - [`updater`] and [`autostart`]: the self-update schedule and the
//!   registration with the session's service manager.
//! - [`text`], [`scan`] and [`render`]: helpers for text.

pub mod autostart;
pub mod clock;
pub mod config;
pub mod daemon;
pub mod engine;
pub mod exchange;
pub mod git;
pub mod ignore;
pub mod render;
pub mod scan;
pub mod settings;
pub mod status;
pub mod text;
pub mod updater;
