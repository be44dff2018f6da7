//! Changing single settings by name, as the command line does.

use crate::config::{CommitConfig, Config, GitOptions, IgnoreConfig, SelfUpdateConfig};
use crate::text::{
    ascii_lowercase,
    is_blank,
    parse_u64,
    parsed_u64,
    replace_char,
    replaced,
    str_is_blank,
    to_ascii_lowercase,
    trim,
    trimmed,
};
use vstd::prelude::*;
use vstd::string::StringExecFns;

verus! {

/// A setting that can be changed by name.
#[derive(PartialEq, Eq, Structural, Clone, Copy, Debug)]
pub enum SettingsKey {
    RepoUrl,
    Branch,
    Remote,
    Workdir,
    SelfUpdateEnabled,
    SelfUpdateIntervalHours,
    SelfUpdateCommand,
    GitSshKeyPath,
}

/// Why a setting could not be changed.
#[derive(Debug, Clone, PartialEq, Eq)]
pub enum SettingsError {
    /// No setting has this name. The name is given as it was looked up.
    UnknownKey(String),
    /// The working directory cannot be blank.
    EmptyWorkdir,
    /// The value, given in lower case, is no truth value.
    NotBoolean(String),
    /// The value is no number of hours.
    NotHours(String),
}

/// The text that describes the error to a person.
pub open spec fn error_message(error: SettingsError) -> Seq<char> {
    match error {
        SettingsError::UnknownKey(name) => "unknown configuration key: "@ + name@,
        SettingsError::EmptyWorkdir => "workdir cannot be empty"@,
        SettingsError::NotBoolean(value) => "cannot parse '"@ + value@ + "' as boolean"@,
        SettingsError::NotHours(value) => "failed to parse '"@ + value@ + "' as hours"@,
    }
}

impl SettingsError {
    /// The text that describes the error to a person.
    pub fn message(&self) -> (r: String)
        ensures
            r@ == error_message(*self),
    {
        match self {
            SettingsError::UnknownKey(name) => {
                let mut r = String::from_str("unknown configuration key: ");
                r.append(name.as_str());
                r
            },
            SettingsError::EmptyWorkdir => String::from_str("workdir cannot be empty"),
            SettingsError::NotBoolean(value) => {
                let mut r = String::from_str("cannot parse '");
                r.append(value.as_str());
                r.append("' as boolean");
                r
            },
            SettingsError::NotHours(value) => {
                let mut r = String::from_str("failed to parse '");
                r.append(value.as_str());
                r.append("' as hours");
                r
            },
        }
    }
}

/// Whether the two hold the same characters.
fn same(a: &String, b: &str) -> (r: bool)
    ensures
        r == (a@ == b@),
{
    *a == String::from_str(b)
}

/// A name as it is looked up: underscores count as hyphens, and capital
/// letters as small ones.
pub open spec fn lookup_name(name: Seq<char>) -> Seq<char> {
    ascii_lowercase(replaced(name, '_', '-'))
}

/// The setting that goes by `name`, a name as it is looked up.
pub open spec fn key_named(name: Seq<char>) -> Option<SettingsKey> {
    if name == "repo-url"@ {
        Some(SettingsKey::RepoUrl)
    } else if name == "branch"@ {
        Some(SettingsKey::Branch)
    } else if name == "remote"@ {
        Some(SettingsKey::Remote)
    } else if name == "workdir"@ || name == "work-dir"@ {
        Some(SettingsKey::Workdir)
    } else if name == "self-update.enabled"@ || name == "self-update-enabled"@ {
        Some(SettingsKey::SelfUpdateEnabled)
    } else if name == "self-update.interval-hours"@ || name == "self-update-interval"@ || name
        == "self-update.interval"@ {
        Some(SettingsKey::SelfUpdateIntervalHours)
    } else if name == "self-update.command"@ || name == "self-update-command"@ {
        Some(SettingsKey::SelfUpdateCommand)
    } else if name == "git.ssh-key"@ || name == "git.ssh-key-path"@ || name == "ssh-key"@ {
        Some(SettingsKey::GitSshKeyPath)
    } else {
        None
    }
}

impl SettingsKey {
    /// The setting that `s` names.
    pub fn from_str(s: &str) -> (r: Result<SettingsKey, SettingsError>)
        ensures
            match key_named(lookup_name(s@)) {
                Some(key) => r == Ok::<SettingsKey, SettingsError>(key),
                None => r matches Err(SettingsError::UnknownKey(name)) && name@ == lookup_name(
                    s@,
                ),
            },
    {
        let hyphened = replace_char(s, '_', '-');
        let name = to_ascii_lowercase(hyphened.as_str());
        if same(&name, "repo-url") {
            Ok(SettingsKey::RepoUrl)
        } else if same(&name, "branch") {
            Ok(SettingsKey::Branch)
        } else if same(&name, "remote") {
            Ok(SettingsKey::Remote)
        } else if same(&name, "workdir") || same(&name, "work-dir") {
            Ok(SettingsKey::Workdir)
        } else if same(&name, "self-update.enabled") || same(&name, "self-update-enabled") {
            Ok(SettingsKey::SelfUpdateEnabled)
        } else if same(&name, "self-update.interval-hours") || same(&name, "self-update-interval")
            || same(&name, "self-update.interval") {
            Ok(SettingsKey::SelfUpdateIntervalHours)
        } else if same(&name, "self-update.command") || same(&name, "self-update-command") {
            Ok(SettingsKey::SelfUpdateCommand)
        } else if same(&name, "git.ssh-key") || same(&name, "git.ssh-key-path") || same(
            &name,
            "ssh-key",
        ) {
            Ok(SettingsKey::GitSshKeyPath)
        } else {
            Err(SettingsError::UnknownKey(name))
        }
    }
}

/// The truth value that `value`, given in lower case, writes.
pub open spec fn truth_value(value: Seq<char>) -> Option<bool> {
    if value == "true"@ || value == "yes"@ || value == "on"@ || value == "1"@ {
        Some(true)
    } else if value == "false"@ || value == "no"@ || value == "off"@ || value == "0"@ {
        Some(false)
    } else {
        None
    }
}

/// The truth value that `value` writes, in capital or small letters.
pub fn parse_bool(value: &str) -> (r: Result<bool, SettingsError>)
    ensures
        match truth_value(ascii_lowercase(value@)) {
            Some(b) => r == Ok::<bool, SettingsError>(b),
            None => r matches Err(SettingsError::NotBoolean(shown)) && shown@ == ascii_lowercase(
                value@,
            ),
        },
{
    let lower = to_ascii_lowercase(value);
    if same(&lower, "true") || same(&lower, "yes") || same(&lower, "on") || same(&lower, "1") {
        Ok(true)
    } else if same(&lower, "false") || same(&lower, "no") || same(&lower, "off") || same(
        &lower,
        "0",
    ) {
        Ok(false)
    } else {
        Err(SettingsError::NotBoolean(lower))
    }
}

/// Whether `value`, trimmed and in lower case, says that there is no value.
pub open spec fn means_none(value: Seq<char>) -> bool {
    value.len() == 0 || value == "none"@ || value == "never"@ || value == "off"@
}

/// The hours that `value` writes: none for a blank value and for `none`,
/// `never` and `off`; else the number that it writes, trimmed.
pub fn parse_optional_hours(value: &str) -> (r: Result<Option<u64>, SettingsError>)
    ensures
        ({
            let normalized = ascii_lowercase(trimmed(value@));
            if means_none(normalized) {
                r == Ok::<Option<u64>, SettingsError>(None)
            } else {
                match parsed_u64(normalized) {
                    Some(hours) => r == Ok::<Option<u64>, SettingsError>(Some(hours)),
                    None => r matches Err(SettingsError::NotHours(shown)) && shown@ == value@,
                }
            }
        }),
{
    let cleaned = trim(value);
    let normalized = to_ascii_lowercase(cleaned.as_str());
    if normalized.as_str().unicode_len() == 0 || same(&normalized, "none") || same(
        &normalized,
        "never",
    ) || same(&normalized, "off") {
        return Ok(None);
    }
    match parse_u64(normalized.as_str()) {
        Some(hours) => Ok(Some(hours)),
        None => Err(SettingsError::NotHours(String::from_str(value))),
    }
}

/// Whether `value`, trimmed, says that a setting is to be cleared: it is
/// empty or `none` in capital or small letters.
pub open spec fn clears(value: Seq<char>) -> bool {
    trimmed(value).len() == 0 || ascii_lowercase(trimmed(value)) == "none"@
}

/// Whether the two settings agree in all that `key` does not name.
pub open spec fn same_but(a: Config, b: Config, key: SettingsKey) -> bool {
    &&& key != SettingsKey::RepoUrl ==> a.repo_url == b.repo_url
    &&& key != SettingsKey::Branch ==> a.branch == b.branch
    &&& key != SettingsKey::Remote ==> a.remote == b.remote
    &&& key != SettingsKey::Workdir ==> a.workdir == b.workdir
    &&& a.debounce_seconds == b.debounce_seconds
    &&& a.poll_interval_seconds == b.poll_interval_seconds
    &&& a.commit == b.commit
    &&& a.ignore == b.ignore
    &&& key != SettingsKey::SelfUpdateEnabled ==> a.self_update.enabled == b.self_update.enabled
    &&& key != SettingsKey::SelfUpdateIntervalHours ==> a.self_update.interval_hours
        == b.self_update.interval_hours
    &&& key != SettingsKey::SelfUpdateCommand ==> a.self_update.command == b.self_update.command
    &&& a.git.executable == b.git.executable
    &&& a.git.author_name == b.git.author_name
    &&& a.git.author_email == b.git.author_email
    &&& key != SettingsKey::GitSshKeyPath ==> a.git.ssh_key_path == b.git.ssh_key_path
}

/// Whether `after` is `before` with the setting `key` given the value
/// `value`.
pub open spec fn is_applied(before: Config, after: Config, key: SettingsKey, value: Seq<char>) -> bool {
    &&& same_but(before, after, key)
    &&& match key {
        SettingsKey::RepoUrl => after.repo_url@ == value,
        SettingsKey::Branch => after.branch@ == value,
        SettingsKey::Remote => after.remote@ == value,
        SettingsKey::Workdir => after.workdir@ == value,
        SettingsKey::SelfUpdateEnabled => Some(after.self_update.enabled) == truth_value(
            ascii_lowercase(value),
        ),
        SettingsKey::SelfUpdateIntervalHours => after.self_update.interval_hours == (
        if means_none(ascii_lowercase(trimmed(value))) {
            None
        } else {
            parsed_u64(ascii_lowercase(trimmed(value)))
        }),
        SettingsKey::SelfUpdateCommand => after.self_update.command.deep_view() == (if clears(
            value,
        ) {
            None
        } else {
            Some(trimmed(value))
        }),
        SettingsKey::GitSshKeyPath => after.git.ssh_key_path.deep_view() == (if clears(value) {
            None
        } else {
            Some(trimmed(value))
        }),
    }
}

/// Whether `value` can be given to the setting `key`.
pub open spec fn is_acceptable(key: SettingsKey, value: Seq<char>) -> bool {
    match key {
        SettingsKey::Workdir => !is_blank(value),
        SettingsKey::SelfUpdateEnabled => truth_value(ascii_lowercase(value)) is Some,
        SettingsKey::SelfUpdateIntervalHours => means_none(ascii_lowercase(trimmed(value)))
            || parsed_u64(ascii_lowercase(trimmed(value))) is Some,
        _ => true,
    }
}

/// The value that clears a setting or fills it: none where `value` is blank
/// or `none`, the trimmed value else.
fn optional_text(value: &str) -> (r: Option<String>)
    ensures
        r.deep_view() == (if clears(value@) {
            None
        } else {
            Some(trimmed(value@))
        }),
{
    let cleaned = trim(value);
    let lower = to_ascii_lowercase(cleaned.as_str());
    if cleaned.as_str().unicode_len() == 0 || same(&lower, "none") {
        None
    } else {
        Some(cleaned)
    }
}

/// Gives the setting `key` the value `value`. Where the value cannot be
/// given to it, the settings stay as they are.
pub fn apply_setting(config: &mut Config, key: SettingsKey, value: &str) -> (r: Result<
    (),
    SettingsError,
>)
    ensures
        r is Ok <==> is_acceptable(key, value@),
        r is Ok ==> is_applied(*old(config), *final(config), key, value@),
        r is Err ==> *final(config) == *old(config),
        r matches Err(e) ==> match key {
            SettingsKey::Workdir => e == SettingsError::EmptyWorkdir,
            SettingsKey::SelfUpdateEnabled => e matches SettingsError::NotBoolean(shown) && shown@
                == ascii_lowercase(value@),
            _ => e matches SettingsError::NotHours(shown) && shown@ == value@,
        },
{
    match key {
        SettingsKey::RepoUrl => {
            config.repo_url = String::from_str(value);
        },
        SettingsKey::Branch => {
            config.branch = String::from_str(value);
        },
        SettingsKey::Remote => {
            config.remote = String::from_str(value);
        },
        SettingsKey::Workdir => {
            if str_is_blank(value) {
                return Err(SettingsError::EmptyWorkdir);
            }
            config.workdir = String::from_str(value);
        },
        SettingsKey::SelfUpdateEnabled => {
            match parse_bool(value) {
                Ok(enabled) => {
                    config.self_update.enabled = enabled;
                },
                Err(e) => {
                    return Err(e);
                },
            }
        },
        SettingsKey::SelfUpdateIntervalHours => {
            match parse_optional_hours(value) {
                Ok(hours) => {
                    config.self_update.interval_hours = hours;
                },
                Err(e) => {
                    return Err(e);
                },
            }
        },
        SettingsKey::SelfUpdateCommand => {
            config.self_update.command = optional_text(value);
        },
        SettingsKey::GitSshKeyPath => {
            config.git.ssh_key_path = optional_text(value);
        },
    }
    Ok(())
}

/// The settings that a new settings file starts with. `workdir` is the
/// working directory to propose; a placeholder stands in where there is
/// none.
pub fn default_config(workdir: Option<String>) -> (c: Config)
    ensures
        c.repo_url@ == "git@github.com:username/repo.git"@,
        c.branch@ == "main"@,
        c.remote@ == "origin"@,
        c.workdir@ == (match workdir {
            Some(dir) => dir@,
            None => "/path/to/your/obsidian-vault"@,
        }),
        c.debounce_seconds == 5,
        c.poll_interval_seconds == 300,
        c.commit.prefix@ == "auto:"@,
        c.commit.max_files_in_summary == 5,
        !c.commit.include_timestamp,
        c.ignore.globs.deep_view() == seq![".obsidian/cache/**"@, "**/*.tmp"@, "**/*.swp"@],
        c.self_update.enabled,
        c.self_update.command is None,
        c.self_update.interval_hours == Some(24u64),
        c.git.executable is None,
        c.git.author_name is None,
        c.git.author_email is None,
        c.git.ssh_key_path is None,
{
    let mut globs: Vec<String> = Vec::new();
    globs.push(String::from_str(".obsidian/cache/**"));
    globs.push(String::from_str("**/*.tmp"));
    globs.push(String::from_str("**/*.swp"));
    assert(globs.deep_view() =~= seq![".obsidian/cache/**"@, "**/*.tmp"@, "**/*.swp"@]);
    Config {
        repo_url: String::from_str("git@github.com:username/repo.git"),
        branch: String::from_str("main"),
        remote: String::from_str("origin"),
        workdir: match workdir {
            Some(dir) => dir,
            None => String::from_str("/path/to/your/obsidian-vault"),
        },
        debounce_seconds: 5,
        poll_interval_seconds: 300,
        commit: CommitConfig::default(),
        ignore: IgnoreConfig { globs },
        self_update: SelfUpdateConfig { enabled: true, command: None, interval_hours: Some(24) },
        git: GitOptions::default(),
    }
}

/// The hours between update checks that a form field gives: the number that
/// it writes; where it writes none, the hours in force, or 24 where none are;
/// and never fewer than one.
pub open spec fn hours_from_field(text: Seq<char>, current: Option<u64>) -> u64 {
    let hours = match parsed_u64(text) {
        Some(hours) => hours,
        None => match current {
            Some(hours) => hours,
            None => 24,
        },
    };
    if hours < 1 {
        1
    } else {
        hours
    }
}

/// The hours between update checks that a form field gives.
pub fn interval_from_field(text: &str, current: Option<u64>) -> (r: u64)
    ensures
        r == hours_from_field(text@, current),
        r >= 1,
{
    let hours = match parse_u64(text) {
        Some(hours) => hours,
        None => match current {
            Some(hours) => hours,
            None => 24,
        },
    };
    if hours < 1 {
        1
    } else {
        hours
    }
}

/// The optional setting that a form field gives: none where the field is
/// empty, its text as it stands else.
pub fn value_from_field(text: &str) -> (r: Option<String>)
    ensures
        r.deep_view() == (if text@.len() == 0 {
            None
        } else {
            Some(text@)
        }),
{
    if text.unicode_len() == 0 {
        None
    } else {
        Some(String::from_str(text))
    }
}

/// The text that a form field shows for an optional setting: the setting,
/// or nothing.
pub fn field_from_value(value: &Option<String>) -> (r: String)
    ensures
        r@ == (match *value {
            Some(text) => text@,
            None => Seq::empty(),
        }),
{
    match value {
        Some(text) => text.clone(),
        None => String::new(),
    }
}

} // verus!
