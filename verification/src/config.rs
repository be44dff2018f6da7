//! The settings of the synchroniser, with their defaults and limits.

use crate::text::{is_blank, str_is_blank};
use vstd::prelude::*;
use vstd::string::StringExecFns;

verus! {

/// Shortest debounce interval, in seconds.
pub const MIN_DEBOUNCE_SECONDS: u64 = 1;

/// Shortest poll interval, in seconds.
pub const MIN_POLL_SECONDS: u64 = 30;

/// The branch that is synchronised unless the settings name another.
pub fn default_branch() -> (r: String)
    ensures
        r@ == "main"@,
{
    String::from_str("main")
}

/// The remote that is synchronised unless the settings name another.
pub fn default_remote() -> (r: String)
    ensures
        r@ == "origin"@,
{
    String::from_str("origin")
}

/// Seconds of quiet after a change before it is synchronised.
pub fn default_debounce_seconds() -> (r: u64)
    ensures
        r == 5,
{
    5
}

/// Seconds between two looks at the remote.
pub fn default_poll_interval_seconds() -> (r: u64)
    ensures
        r == 300,
{
    300
}

/// What commit messages start with.
pub fn default_commit_prefix() -> (r: String)
    ensures
        r@ == "auto:"@,
{
    String::from_str("auto:")
}

/// How many changed files a commit message lists by name.
pub fn default_max_files_in_summary() -> (r: usize)
    ensures
        r == 5,
{
    5
}

/// How commit messages are written.
#[derive(Debug, Clone, PartialEq, Eq)]
pub struct CommitConfig {
    /// What every message starts with.
    pub prefix: String,
    /// Up to this many changed files are listed by name.
    pub max_files_in_summary: usize,
    /// Whether the time of the commit is appended.
    pub include_timestamp: bool,
}

impl Default for CommitConfig {
    fn default() -> (r: CommitConfig)
        ensures
            r.prefix@ == "auto:"@,
            r.max_files_in_summary == 5,
            !r.include_timestamp,
    {
        CommitConfig {
            prefix: default_commit_prefix(),
            max_files_in_summary: default_max_files_in_summary(),
            include_timestamp: false,
        }
    }
}

/// Which paths are left out of synchronisation, besides the built-in ones.
#[derive(Debug, Clone, PartialEq, Eq)]
pub struct IgnoreConfig {
    /// Glob patterns, relative to the working directory.
    pub globs: Vec<String>,
}

impl Default for IgnoreConfig {
    fn default() -> (r: IgnoreConfig)
        ensures
            r.globs@.len() == 0,
    {
        IgnoreConfig { globs: Vec::new() }
    }
}

/// Whether and how the program updates itself.
#[derive(Debug, Clone, PartialEq, Eq)]
pub struct SelfUpdateConfig {
    pub enabled: bool,
    /// A shell command to run in place of the built-in updater.
    pub command: Option<String>,
    /// Hours between two checks.
    pub interval_hours: Option<u64>,
}

impl Default for SelfUpdateConfig {
    fn default() -> (r: SelfUpdateConfig)
        ensures
            !r.enabled,
            r.command is None,
            r.interval_hours == Some(24u64),
    {
        SelfUpdateConfig { enabled: false, command: None, interval_hours: Some(24) }
    }
}

/// How git is called.
#[derive(Debug, Clone, PartialEq, Eq)]
pub struct GitOptions {
    /// The git executable, where it is not the `git` on the search path.
    pub executable: Option<String>,
    /// Name given to commits as author and committer.
    pub author_name: Option<String>,
    /// Address given to commits as author and committer.
    pub author_email: Option<String>,
    /// Path of the key that authenticates with the remote.
    pub ssh_key_path: Option<String>,
}

impl Default for GitOptions {
    fn default() -> (r: GitOptions)
        ensures
            r.executable is None,
            r.author_name is None,
            r.author_email is None,
            r.ssh_key_path is None,
    {
        GitOptions { executable: None, author_name: None, author_email: None, ssh_key_path: None }
    }
}

/// All settings.
#[derive(Debug, Clone, PartialEq, Eq)]
pub struct Config {
    pub repo_url: String,
    pub branch: String,
    pub remote: String,
    /// The working directory.
    pub workdir: String,
    pub debounce_seconds: u64,
    pub poll_interval_seconds: u64,
    pub commit: CommitConfig,
    pub ignore: IgnoreConfig,
    pub self_update: SelfUpdateConfig,
    pub git: GitOptions,
}

/// Why no settings file could be named.
#[derive(Debug, Clone, PartialEq, Eq)]
pub enum ConfigError {
    /// Nothing names a file and the platform has no settings directory.
    NoDefaultLocation,
}

/// `seconds`, but at least `floor`, in milliseconds; the largest value that
/// fits where that product does not.
pub open spec fn clamped_millis(seconds: u64, floor: u64) -> int {
    let s = if seconds < floor {
        floor as int
    } else {
        seconds as int
    };
    if s * 1000 > u64::MAX {
        u64::MAX as int
    } else {
        s * 1000
    }
}

fn to_clamped_millis(seconds: u64, floor: u64) -> (r: u64)
    ensures
        r == clamped_millis(seconds, floor),
{
    let s = if seconds < floor {
        floor
    } else {
        seconds
    };
    if s > u64::MAX / 1000 {
        u64::MAX
    } else {
        s * 1000
    }
}

impl Config {
    /// The debounce interval in milliseconds.
    pub open spec fn spec_debounce(&self) -> u64 {
        clamped_millis(self.debounce_seconds, MIN_DEBOUNCE_SECONDS) as u64
    }

    /// The poll interval in milliseconds.
    pub open spec fn spec_poll_interval(&self) -> u64 {
        clamped_millis(self.poll_interval_seconds, MIN_POLL_SECONDS) as u64
    }

    /// The file that holds the settings: the one named explicitly, else the
    /// one named by the environment (`from_env`, then `from_legacy_env`),
    /// else the platform's default.
    pub fn resolve_path(
        explicit: Option<String>,
        from_env: Option<String>,
        from_legacy_env: Option<String>,
        platform_default: Option<String>,
    ) -> (r: Result<String, ConfigError>)
        ensures
            explicit is Some ==> r == Ok::<String, ConfigError>(explicit->0),
            explicit is None && from_env is Some ==> r == Ok::<String, ConfigError>(from_env->0),
            explicit is None && from_env is None && from_legacy_env is Some ==> r == Ok::<
                String,
                ConfigError,
            >(from_legacy_env->0),
            explicit is None && from_env is None && from_legacy_env is None ==> r
                == match platform_default {
                Some(p) => Ok::<String, ConfigError>(p),
                None => Err::<String, ConfigError>(ConfigError::NoDefaultLocation),
            },
    {
        if let Some(path) = explicit {
            return Ok(path);
        }
        if let Some(path) = from_env {
            return Ok(path);
        }
        if let Some(path) = from_legacy_env {
            return Ok(path);
        }
        match platform_default {
            Some(path) => Ok(path),
            None => Err(ConfigError::NoDefaultLocation),
        }
    }

    /// Quiet time after a change before it is synchronised, in milliseconds.
    /// Never under one second.
    pub fn debounce_duration(&self) -> (r: u64)
        ensures
            r == clamped_millis(self.debounce_seconds, MIN_DEBOUNCE_SECONDS),
            r >= 1000,
    {
        to_clamped_millis(self.debounce_seconds, MIN_DEBOUNCE_SECONDS)
    }

    /// Time between two looks at the remote, in milliseconds. Never under
    /// thirty seconds.
    pub fn poll_interval(&self) -> (r: u64)
        ensures
            r == clamped_millis(self.poll_interval_seconds, MIN_POLL_SECONDS),
            r >= 30000,
    {
        to_clamped_millis(self.poll_interval_seconds, MIN_POLL_SECONDS)
    }

    /// Puts the defaults in place of a blank commit prefix and of a summary
    /// limit of zero. Nothing else changes.
    pub fn normalize(&mut self)
        ensures
            final(self).commit.prefix@ == (if is_blank(old(self).commit.prefix@) {
                "auto:"@
            } else {
                old(self).commit.prefix@
            }),
            final(self).commit.max_files_in_summary == (if old(self).commit.max_files_in_summary
                == 0 {
                5usize
            } else {
                old(self).commit.max_files_in_summary
            }),
            final(self).commit.include_timestamp == old(self).commit.include_timestamp,
            final(self).repo_url == old(self).repo_url,
            final(self).branch == old(self).branch,
            final(self).remote == old(self).remote,
            final(self).workdir == old(self).workdir,
            final(self).debounce_seconds == old(self).debounce_seconds,
            final(self).poll_interval_seconds == old(self).poll_interval_seconds,
            final(self).ignore == old(self).ignore,
            final(self).self_update == old(self).self_update,
            final(self).git == old(self).git,
    {
        if str_is_blank(self.commit.prefix.as_str()) {
            self.commit.prefix = default_commit_prefix();
        }
        if self.commit.max_files_in_summary == 0 {
            self.commit.max_files_in_summary = default_max_files_in_summary();
        }
    }
}

} // verus!
