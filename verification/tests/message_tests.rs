use obsyncgit::config::{CommitConfig, Config, GitOptions, IgnoreConfig, SelfUpdateConfig};
use obsyncgit::daemon::{compose_commit_message, DaemonError, SyncDaemon};
use obsyncgit::engine::SyncEvent;
use obsyncgit::exchange::{GitError, GitReply, Session, Step};
use obsyncgit::ignore::IgnoreError;

fn config() -> Config {
    Config {
        repo_url: "git@example.com:me/notes.git".to_string(),
        branch: "main".to_string(),
        remote: "origin".to_string(),
        workdir: "/home/me/notes".to_string(),
        debounce_seconds: 5,
        poll_interval_seconds: 300,
        commit: CommitConfig { prefix: "auto:".to_string(), max_files_in_summary: 5, include_timestamp: false },
        ignore: IgnoreConfig { globs: vec!["**/*.tmp".to_string(), "  ".to_string()] },
        self_update: SelfUpdateConfig::default(),
        git: GitOptions::default(),
    }
}

fn names(list: &[&str]) -> Vec<String> {
    list.iter().map(|w| w.to_string()).collect()
}

fn ok(stdout: &str) -> GitReply {
    GitReply::Exited { code: Some(0), stdout: stdout.to_string(), stderr: String::new() }
}

fn fail(code: i32, stderr: &str) -> GitReply {
    GitReply::Exited { code: Some(code), stdout: String::new(), stderr: stderr.to_string() }
}

fn converse<T>(
    script: Vec<GitReply>,
    mut op: impl FnMut(&mut Session) -> Step<T>,
) -> (Vec<Vec<String>>, Option<T>) {
    let mut session = Session::new();
    let mut asked: Vec<Vec<String>> = Vec::new();
    let mut script = script.into_iter();
    loop {
        session.rewind();
        match op(&mut session) {
            Step::Done(value) => return (asked, Some(value)),
            Step::Run(command) => {
                asked.push(command.args[2..].to_vec());
                match script.next() {
                    Some(reply) => session.record(reply),
                    None => return (asked, None),
                }
            }
        }
    }
}

#[test]
fn five_files_are_listed_by_name() {
    let commit = CommitConfig { prefix: "auto:".to_string(), max_files_in_summary: 5, include_timestamp: false };
    let files = names(&["a.md", "b.md", "c.md", "d.md", "e.md"]);
    assert_eq!(compose_commit_message(&commit, &files, &None), "auto: a.md, b.md, c.md, d.md, e.md");
}

#[test]
fn six_files_are_counted() {
    let commit = CommitConfig { prefix: "auto:".to_string(), max_files_in_summary: 5, include_timestamp: false };
    let files = names(&["a.md", "b.md", "c.md", "d.md", "e.md", "f.md"]);
    assert_eq!(compose_commit_message(&commit, &files, &None), "auto: updated 6 files");
}

#[test]
fn the_prefix_is_trimmed_and_the_time_appended() {
    let commit = CommitConfig { prefix: "  sync \t".to_string(), max_files_in_summary: 1, include_timestamp: true };
    assert_eq!(
        compose_commit_message(&commit, &names(&["a.md"]), &Some("2024-05-01T10:20:30Z".to_string())),
        "sync a.md (2024-05-01T10:20:30Z)"
    );
    assert_eq!(
        compose_commit_message(&commit, &names(&["a.md", "b.md"]), &Some("T".to_string())),
        "sync updated 2 files (T)"
    );
    assert_eq!(compose_commit_message(&commit, &names(&[]), &None), "sync ");
    let many: Vec<String> = (0..1234).map(|i| format!("f{i}")).collect();
    assert_eq!(compose_commit_message(&commit, &many, &None), "sync updated 1234 files");
    let none = CommitConfig { prefix: "p".to_string(), max_files_in_summary: 0, include_timestamp: false };
    assert_eq!(compose_commit_message(&none, &names(&["a"]), &None), "p updated 1 files");
    assert_eq!(compose_commit_message(&none, &names(&[]), &None), "p ");
}

#[test]
fn build_commit_message_follows_the_settings() {
    let daemon = SyncDaemon::new(config()).unwrap();
    assert_eq!(daemon.commit_timestamp(), None);
    assert_eq!(daemon.build_commit_message(&names(&["a.md", "b.md"])), "auto: a.md, b.md");
    let mut cfg = config();
    cfg.commit.include_timestamp = true;
    let daemon = SyncDaemon::new(cfg).unwrap();
    let message = daemon.build_commit_message(&names(&["a.md"]));
    // "auto: a.md (" + "YYYY-MM-DDTHH:MM:SSZ" + ")"
    assert!(message.starts_with("auto: a.md ("));
    assert!(message.ends_with("Z)"));
    let time = &message["auto: a.md (".len()..message.len() - 1];
    assert_eq!(time.len(), 20);
    let bytes = time.as_bytes();
    assert_eq!(bytes[4], b'-');
    assert_eq!(bytes[7], b'-');
    assert_eq!(bytes[10], b'T');
    assert_eq!(bytes[13], b':');
    assert_eq!(bytes[16], b':');
    assert!(time[0..4].parse::<u32>().unwrap() >= 2024);
    assert_eq!(daemon.commit_timestamp().unwrap().len(), 20);
}

#[test]
fn new_fails_on_a_pattern_that_is_no_glob() {
    let mut cfg = config();
    cfg.ignore.globs = vec!["ok/**".to_string(), " ".to_string(), "bad[".to_string(), "worse{".to_string()];
    match SyncDaemon::new(cfg) {
        Err(DaemonError::Ignore(IgnoreError::Pattern { index, pattern, reason })) => {
            assert_eq!(index, 2);
            assert_eq!(pattern, "bad[");
            assert!(!reason.is_empty());
        }
        _ => panic!("the pattern was accepted"),
    }
}

#[test]
fn the_daemon_hands_out_its_parts() {
    let daemon = SyncDaemon::new(config()).unwrap();
    assert_eq!(daemon.settings(), &config());
    assert!(daemon.filter().should_ignore("/home/me/notes/.git/HEAD"));
    let mut session = Session::new();
    assert!(matches!(daemon.repository().fetch(&mut session), Step::Run(_)));
    let engine = daemon.engine(1_000_000);
    assert_eq!(engine.debounce, 5_000);
    assert_eq!(engine.poll_interval, 300_000);
    assert_eq!(engine.last_poll, 700_000);
}

fn seen(list: &[&str]) -> Vec<Option<String>> {
    list.iter().map(|p| Some(p.to_string())).collect()
}

#[test]
fn notifications_become_events() {
    let daemon = SyncDaemon::new(config()).unwrap();
    let inside = seen(&["/home/me/notes/.git/index.lock", "/home/me/notes/draft.tmp"]);
    assert_eq!(daemon.notification_events(&inside, false), Vec::<SyncEvent>::new());
    assert_eq!(daemon.notification_events(&inside, true), vec![SyncEvent::Rescan]);
    let mixed = seen(&["/home/me/notes/.git/index.lock", "/home/me/notes/a.md"]);
    assert_eq!(daemon.notification_events(&mixed, false), vec![SyncEvent::Changed]);
    assert_eq!(daemon.notification_events(&mixed, true), vec![SyncEvent::Changed, SyncEvent::Rescan]);
    assert_eq!(daemon.notification_events(&seen(&[]), false), Vec::<SyncEvent>::new());
    // a path outside the working directory is not filtered out
    assert_eq!(daemon.notification_events(&seen(&["/tmp/.git"]), false), vec![SyncEvent::Changed]);
    assert_eq!(
        SyncDaemon::failure_event("watch limit reached".to_string()),
        SyncEvent::WatcherError("watch limit reached".to_string())
    );
}

#[test]
fn a_path_that_is_no_text_counts_as_a_change() {
    let daemon = SyncDaemon::new(config()).unwrap();
    let mut paths = seen(&["/home/me/notes/.git/index.lock"]);
    paths.push(None);
    assert_eq!(daemon.notification_events(&paths, false), vec![SyncEvent::Changed]);
    assert_eq!(daemon.notification_events(&vec![None], true), vec![SyncEvent::Changed, SyncEvent::Rescan]);
}

#[test]
fn sync_once_on_an_unchanged_tree_ends_after_the_status() {
    let daemon = SyncDaemon::new(config()).unwrap();
    let (asked, result) = converse(vec![ok(""), ok("")], |s| daemon.sync_once(s, &None));
    assert_eq!(asked, vec![names(&["add", "-A"]), names(&["status", "--short"])]);
    assert_eq!(result, Some(Ok(false)));
}

#[test]
fn sync_once_commits_pulls_and_pushes_in_that_order() {
    let daemon = SyncDaemon::new(config()).unwrap();
    let script = vec![
        ok(""),
        ok("M  a.md\nA  b.md\n"),
        ok("M  a.md\nA  b.md\n"),
        ok("[main 0a1b2c3] auto: a.md, b.md"),
        ok(""),
        ok("Already up to date."),
        ok(""),
    ];
    let (asked, result) = converse(script, |s| daemon.sync_once(s, &None));
    assert_eq!(
        asked,
        vec![
            names(&["add", "-A"]),
            names(&["status", "--short"]),
            names(&["status", "--short"]),
            names(&["commit", "-m", "auto: a.md, b.md"]),
            names(&["status", "--porcelain"]),
            names(&["pull", "--rebase", "origin", "main"]),
            names(&["push", "origin", "main"]),
        ]
    );
    assert_eq!(result, Some(Ok(true)));
}

#[test]
fn sync_once_uses_the_time_it_is_given() {
    let daemon = SyncDaemon::new(config()).unwrap();
    let stamp = Some("2024-05-01T10:20:30Z".to_string());
    let script = vec![ok(""), ok("M  a.md\n"), ok("M  a.md\n")];
    let (asked, result) = converse(script, |s| daemon.sync_once(s, &stamp));
    assert_eq!(asked[3], names(&["commit", "-m", "auto: a.md (2024-05-01T10:20:30Z)"]));
    assert_eq!(result, None);
}

#[test]
fn sync_once_stops_at_the_first_failure() {
    let daemon = SyncDaemon::new(config()).unwrap();
    let (asked, result) = converse(vec![fail(128, "index locked")], |s| daemon.sync_once(s, &None));
    assert_eq!(asked.len(), 1);
    assert!(matches!(result, Some(Err(GitError::Command { exit_code: 128, .. }))));
    let script = vec![ok(""), ok("M  a.md\n"), ok("M  a.md\n"), ok(""), ok(""), fail(1, "conflict"), ok("")];
    let (asked, result) = converse(script, |s| daemon.sync_once(s, &None));
    assert_eq!(asked.last().unwrap(), &names(&["rebase", "--abort"]));
    assert!(asked.iter().all(|command| command[0] != "push"));
    assert_eq!(
        result,
        Some(Err(GitError::Command {
            command: "pull --rebase origin main".to_string(),
            exit_code: 1,
            stderr: "conflict".to_string(),
            stdout: String::new(),
        }))
    );
    let script = vec![ok(""), ok("M  a.md\n"), ok("M  a.md\n"), ok(""), ok(""), ok(""), fail(1, "rejected")];
    let (_, result) = converse(script, |s| daemon.sync_once(s, &None));
    assert!(matches!(result, Some(Err(GitError::Command { exit_code: 1, .. }))));
}

#[test]
fn pull_remote_is_a_rebase_and_nothing_else() {
    let daemon = SyncDaemon::new(config()).unwrap();
    let (asked, result) = converse(vec![ok(""), ok("")], |s| daemon.pull_remote(s));
    assert_eq!(
        asked,
        vec![names(&["status", "--porcelain"]), names(&["pull", "--rebase", "origin", "main"])]
    );
    assert_eq!(result, Some(Ok(())));
}
