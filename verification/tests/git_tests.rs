use obsyncgit::config::{CommitConfig, Config, GitOptions, IgnoreConfig, SelfUpdateConfig};
use obsyncgit::exchange::{CommandOutput, GitCommand, GitError, GitReply, Session, Step};
use obsyncgit::git::{interpret, join_args, GitFacade, WorkdirState};

fn config() -> Config {
    Config {
        repo_url: "git@example.com:me/notes.git".to_string(),
        branch: "main".to_string(),
        remote: "origin".to_string(),
        workdir: "/home/me/notes".to_string(),
        debounce_seconds: 5,
        poll_interval_seconds: 300,
        commit: CommitConfig::default(),
        ignore: IgnoreConfig::default(),
        self_update: SelfUpdateConfig::default(),
        git: GitOptions::default(),
    }
}

fn facade() -> GitFacade {
    GitFacade::new(&config()).unwrap()
}

fn ok(stdout: &str) -> GitReply {
    GitReply::Exited { code: Some(0), stdout: stdout.to_string(), stderr: String::new() }
}

fn fail(code: i32, stderr: &str) -> GitReply {
    GitReply::Exited { code: Some(code), stdout: String::new(), stderr: stderr.to_string() }
}

fn words(list: &[&str]) -> Vec<String> {
    list.iter().map(|w| w.to_string()).collect()
}

/// Runs `op` against the scripted replies. Returns the arguments of every
/// command that was asked for, without the two that every command starts
/// with, and the result if the operation ended before the script did.
fn converse<T>(
    script: Vec<GitReply>,
    mut op: impl FnMut(&mut Session) -> Step<T>,
) -> (Vec<Vec<String>>, Option<T>) {
    let mut session = Session::new();
    let mut asked: Vec<Vec<String>> = Vec::new();
    let mut script = script.into_iter();
    loop {
        session.rewind();
        match op(&mut session) {
            Step::Done(value) => return (asked, Some(value)),
            Step::Run(command) => {
                assert_eq!(command.args[0], "-c");
                assert_eq!(command.args[1], "core.quotepath=false");
                asked.push(command.args[2..].to_vec());
                match script.next() {
                    Some(reply) => session.record(reply),
                    None => return (asked, None),
                }
            }
        }
    }
}

fn first_command<T>(mut op: impl FnMut(&mut Session) -> Step<T>) -> GitCommand {
    let mut session = Session::new();
    match op(&mut session) {
        Step::Run(command) => command,
        Step::Done(_) => panic!("the operation ended without running anything"),
    }
}

#[test]
fn every_command_runs_in_the_workdir_without_prompts_in_the_c_locale() {
    let git = facade();
    let command = first_command(|s| git.fetch(s));
    assert_eq!(command.program, "git");
    assert_eq!(command.workdir, "/home/me/notes");
    assert_eq!(command.args, words(&["-c", "core.quotepath=false", "fetch", "origin"]));
    assert_eq!(
        command.env,
        vec![
            ("GIT_TERMINAL_PROMPT".to_string(), "0".to_string()),
            ("LC_ALL".to_string(), "C".to_string()),
            ("LANG".to_string(), "C".to_string()),
        ]
    );
    assert!(!command.create_workdir);
}

#[test]
fn the_executable_of_the_settings_is_used() {
    let mut cfg = config();
    cfg.git.executable = Some("/opt/git/bin/git".to_string());
    let git = GitFacade::new(&cfg).unwrap();
    let command = first_command(|s| git.push(s));
    assert_eq!(command.program, "/opt/git/bin/git");
    assert_eq!(command.args[2..].to_vec(), words(&["push", "origin", "main"]));
}

#[test]
fn only_the_commit_carries_the_author() {
    let mut cfg = config();
    cfg.git.author_name = Some("Ada".to_string());
    cfg.git.author_email = Some("ada@example.com".to_string());
    let git = GitFacade::new(&cfg).unwrap();
    let mut session = Session::new();
    session.record(ok("M  a.md\n"));
    session.rewind();
    let command = match git.commit(&mut session, "auto: a.md") {
        Step::Run(command) => command,
        Step::Done(_) => panic!("the commit was not asked for"),
    };
    assert_eq!(command.args[2..].to_vec(), words(&["commit", "-m", "auto: a.md"]));
    assert_eq!(
        command.env[3..].to_vec(),
        vec![
            ("GIT_AUTHOR_NAME".to_string(), "Ada".to_string()),
            ("GIT_COMMITTER_NAME".to_string(), "Ada".to_string()),
            ("GIT_AUTHOR_EMAIL".to_string(), "ada@example.com".to_string()),
            ("GIT_COMMITTER_EMAIL".to_string(), "ada@example.com".to_string()),
        ]
    );
    let status = first_command(|s| git.commit(s, "auto: a.md"));
    assert_eq!(status.env.len(), 3);
}

#[test]
fn the_author_email_alone_is_passed_on() {
    let mut cfg = config();
    cfg.git.author_email = Some("ada@example.com".to_string());
    let git = GitFacade::new(&cfg).unwrap();
    let args = words(&["commit", "-m", "x"]);
    let mut session = Session::new();
    let command = match git.run_git(&mut session, &args, true, false) {
        Step::Run(command) => command,
        Step::Done(_) => panic!("nothing was asked for"),
    };
    assert_eq!(
        command.env[3..].to_vec(),
        vec![
            ("GIT_AUTHOR_EMAIL".to_string(), "ada@example.com".to_string()),
            ("GIT_COMMITTER_EMAIL".to_string(), "ada@example.com".to_string()),
        ]
    );
}

#[test]
fn join_args_quotes_arguments_with_blanks() {
    assert_eq!(join_args(&words(&["commit", "-m", "auto: a.md, b.md"])), "commit -m \"auto: a.md, b.md\"");
    assert_eq!(join_args(&words(&["fetch", "origin"])), "fetch origin");
    assert_eq!(join_args(&words(&[])), "");
    assert_eq!(join_args(&words(&["a b"])), "\"a b\"");
    assert_eq!(join_args(&words(&["", "x"])), " x");
}

#[test]
fn interpret_reads_success_failure_signal_and_launch_failure() {
    let args = words(&["push", "origin", "main"]);
    assert_eq!(
        interpret(
            &args,
            GitReply::Exited { code: Some(0), stdout: "out".to_string(), stderr: "err".to_string() }
        ),
        Ok(CommandOutput { stdout: "out".to_string(), stderr: "err".to_string() })
    );
    assert_eq!(
        interpret(&args, fail(128, "fatal: no route")),
        Err(GitError::Command {
            command: "push origin main".to_string(),
            exit_code: 128,
            stderr: "fatal: no route".to_string(),
            stdout: String::new(),
        })
    );
    assert_eq!(
        interpret(
            &args,
            GitReply::Exited { code: None, stdout: String::new(), stderr: String::new() }
        ),
        Err(GitError::Command {
            command: "push origin main".to_string(),
            exit_code: -1,
            stderr: String::new(),
            stdout: String::new(),
        })
    );
    assert_eq!(
        interpret(&args, GitReply::NotStarted { reason: "No such file or directory".to_string() }),
        Err(GitError::Launch {
            command: "push origin main".to_string(),
            reason: "No such file or directory".to_string(),
        })
    );
}

#[test]
fn error_messages_name_command_code_and_output() {
    let with_stderr = GitError::Command {
        command: "push origin main".to_string(),
        exit_code: 128,
        stderr: "fatal: no route\n".to_string(),
        stdout: "ignored".to_string(),
    };
    assert_eq!(with_stderr.message(), "git push origin main failed with code 128: fatal: no route\n");
    let with_stdout = GitError::Command {
        command: "commit -m x".to_string(),
        exit_code: 1,
        stderr: String::new(),
        stdout: "nothing to commit".to_string(),
    };
    assert_eq!(with_stdout.message(), "git commit -m x failed with code 1:  stdout: nothing to commit");
    let signalled = GitError::Command {
        command: "fetch origin".to_string(),
        exit_code: -1,
        stderr: String::new(),
        stdout: String::new(),
    };
    assert_eq!(signalled.message(), "git fetch origin failed with code -1: ");
    let lowest = GitError::Command {
        command: "x".to_string(),
        exit_code: i32::MIN,
        stderr: String::new(),
        stdout: String::new(),
    };
    assert_eq!(lowest.message(), "git x failed with code -2147483648: ");
    let launch = GitError::Launch { command: "fetch origin".to_string(), reason: "not found".to_string() };
    assert_eq!(launch.message(), "failed to execute git command: git fetch origin: not found");
    let conflict = GitError::Conflict { path: "/home/me/notes".to_string() };
    assert_eq!(
        conflict.message(),
        "target directory /home/me/notes is not empty and does not contain a git repository"
    );
    let inspect = GitError::Inspect { path: "/x".to_string(), reason: "denied".to_string() };
    assert_eq!(inspect.message(), "failed to inspect existing directory /x: denied");
}

#[test]
fn session_replays_what_was_recorded() {
    let mut session = Session::new();
    assert_eq!(session.len(), 0);
    assert_eq!(session.next_reply(), None);
    session.record(ok("one"));
    session.record(ok("two"));
    assert_eq!(session.len(), 2);
    session.rewind();
    assert_eq!(session.next_reply(), Some(ok("one")));
    assert_eq!(session.next_reply(), Some(ok("two")));
    assert_eq!(session.next_reply(), None);
    session.rewind();
    assert_eq!(session.next_reply(), Some(ok("one")));
    assert_eq!(ok("x").duplicate(), ok("x"));
}

#[test]
fn fetch_stage_and_push_are_one_command_each() {
    let git = facade();
    assert_eq!(converse(vec![ok("")], |s| git.fetch(s)), (vec![words(&["fetch", "origin"])], Some(Ok(()))));
    assert_eq!(converse(vec![ok("")], |s| git.stage_all(s)), (vec![words(&["add", "-A"])], Some(Ok(()))));
    assert_eq!(
        converse(vec![ok("")], |s| git.push(s)),
        (vec![words(&["push", "origin", "main"])], Some(Ok(())))
    );
    let (asked, result) = converse(vec![fail(1, "rejected")], |s| git.push(s));
    assert_eq!(asked.len(), 1);
    assert_eq!(
        result,
        Some(Err(GitError::Command {
            command: "push origin main".to_string(),
            exit_code: 1,
            stderr: "rejected".to_string(),
            stdout: String::new(),
        }))
    );
}

#[test]
fn clone_creates_the_workdir_first() {
    let git = facade();
    let command = first_command(|s| git.clone_repo(s, "git@example.com:me/notes.git"));
    assert!(command.create_workdir);
    assert_eq!(
        command.args[2..].to_vec(),
        words(&["clone", "--branch", "main", "git@example.com:me/notes.git", "."])
    );
}

#[test]
fn worktree_status_and_cleanliness() {
    let git = facade();
    assert_eq!(
        converse(vec![ok(" M a.md\n")], |s| git.worktree_status(s)),
        (vec![words(&["status", "--porcelain"])], Some(Ok(" M a.md\n".to_string())))
    );
    assert_eq!(converse(vec![ok("")], |s| git.is_worktree_clean(s)).1, Some(Ok(true)));
    assert_eq!(converse(vec![ok(" \n\t\n")], |s| git.is_worktree_clean(s)).1, Some(Ok(true)));
    assert_eq!(converse(vec![ok("?? new.md\n")], |s| git.is_worktree_clean(s)).1, Some(Ok(false)));
    assert!(matches!(converse(vec![fail(128, "x")], |s| git.is_worktree_clean(s)).1, Some(Err(_))));
}

#[test]
fn list_changed_files_reads_short_status() {
    let git = facade();
    let status = " M notes/a.md\n?? new file.md\nR  old.md -> renamed.md\n\nD  gone.md\r\n";
    let (asked, result) = converse(vec![ok(status)], |s| git.list_changed_files(s));
    assert_eq!(asked, vec![words(&["status", "--short"])]);
    assert_eq!(
        result,
        Some(Ok(words(&["notes/a.md", "new file.md", "renamed.md", "gone.md"])))
    );
    assert_eq!(converse(vec![ok("")], |s| git.list_changed_files(s)).1, Some(Ok(Vec::new())));
    assert!(matches!(
        converse(vec![fail(128, "fatal: not a git repository")], |s| git.list_changed_files(s)).1,
        Some(Err(GitError::Command { exit_code: 128, .. }))
    ));
}

#[test]
fn commit_on_a_clean_tree_is_a_no_op() {
    let git = facade();
    let (asked, result) = converse(vec![ok("")], |s| git.commit(s, "auto: a.md"));
    assert_eq!(asked, vec![words(&["status", "--short"])]);
    assert_eq!(result, Some(Ok(false)));
    let (asked, result) = converse(vec![ok("  \n"), ok("never read")], |s| git.commit(s, "m"));
    assert_eq!(asked.len(), 1);
    assert_eq!(result, Some(Ok(false)));
}

#[test]
fn commit_with_nothing_staged_is_a_no_op() {
    let git = facade();
    for status in [" M a.md\n", "?? b.md\n", " M a.md\n?? b.md\n!! target/\n", " D gone.md\n\n"] {
        let (asked, result) = converse(vec![ok(status), ok("never read")], |s| git.commit(s, "m"));
        assert_eq!(asked, vec![words(&["status", "--short"])], "{status:?}");
        assert_eq!(result, Some(Ok(false)), "{status:?}");
    }
}

#[test]
fn commit_with_something_staged_among_other_changes_commits() {
    let git = facade();
    for status in ["M  a.md\n", " M a.md\nA  b.md\n", "?? x\nMM y\n", "R  a -> b\n", "D  gone\n", "UU both\n"] {
        let (asked, result) = converse(vec![ok(status), ok("")], |s| git.commit(s, "m"));
        assert_eq!(asked.len(), 2, "{status:?}");
        assert_eq!(asked[1], words(&["commit", "-m", "m"]), "{status:?}");
        assert_eq!(result, Some(Ok(true)), "{status:?}");
    }
}

#[test]
fn commit_on_a_dirty_tree_commits() {
    let git = facade();
    let (asked, result) = converse(vec![ok("M  a.md\n"), ok("[main 1234] auto")], |s| {
        git.commit(s, "auto: a.md")
    });
    assert_eq!(
        asked,
        vec![words(&["status", "--short"]), words(&["commit", "-m", "auto: a.md"])]
    );
    assert_eq!(result, Some(Ok(true)));
    let (_, result) = converse(vec![ok("M  a.md\n"), fail(1, "hook failed")], |s| git.commit(s, "m"));
    assert!(matches!(result, Some(Err(GitError::Command { exit_code: 1, .. }))));
    let (asked, result) = converse(vec![fail(128, "broken")], |s| git.commit(s, "m"));
    assert_eq!(asked.len(), 1);
    assert!(matches!(result, Some(Err(GitError::Command { exit_code: 128, .. }))));
}

#[test]
fn set_remote_keeps_updates_or_adds() {
    let git = facade();
    let url = "git@example.com:me/notes.git";
    let (asked, result) = converse(vec![ok("git@example.com:me/notes.git\n")], |s| git.set_remote(s, url));
    assert_eq!(asked, vec![words(&["remote", "get-url", "origin"])]);
    assert_eq!(result, Some(Ok(())));
    let (asked, result) = converse(vec![ok("git@old.example.com:x.git\n"), ok("")], |s| git.set_remote(s, url));
    assert_eq!(
        asked,
        vec![words(&["remote", "get-url", "origin"]), words(&["remote", "set-url", "origin", url])]
    );
    assert_eq!(result, Some(Ok(())));
    let (asked, result) = converse(vec![fail(2, "error: No such remote 'origin'"), ok("")], |s| {
        git.set_remote(s, url)
    });
    assert_eq!(
        asked,
        vec![words(&["remote", "get-url", "origin"]), words(&["remote", "add", "origin", url])]
    );
    assert_eq!(result, Some(Ok(())));
    let (_, result) = converse(vec![fail(2, "none"), fail(3, "cannot add")], |s| git.set_remote(s, url));
    assert!(matches!(result, Some(Err(GitError::Command { exit_code: 3, .. }))));
}

#[test]
fn checkout_branch_does_nothing_on_the_branch() {
    let git = facade();
    let (asked, result) = converse(vec![ok("main\n")], |s| git.checkout_branch(s));
    assert_eq!(asked, vec![words(&["rev-parse", "--abbrev-ref", "HEAD"])]);
    assert_eq!(result, Some(Ok(())));
}

#[test]
fn checkout_branch_switches_or_creates_a_tracking_branch() {
    let git = facade();
    let (asked, result) = converse(vec![ok("other\n"), ok("")], |s| git.checkout_branch(s));
    assert_eq!(
        asked,
        vec![words(&["rev-parse", "--abbrev-ref", "HEAD"]), words(&["checkout", "main"])]
    );
    assert_eq!(result, Some(Ok(())));
    let (asked, result) =
        converse(vec![fail(128, "no HEAD"), fail(1, "no such branch"), ok("")], |s| git.checkout_branch(s));
    assert_eq!(
        asked,
        vec![
            words(&["rev-parse", "--abbrev-ref", "HEAD"]),
            words(&["checkout", "main"]),
            words(&["checkout", "-b", "main", "origin/main"]),
        ]
    );
    assert_eq!(result, Some(Ok(())));
    let (_, result) =
        converse(vec![ok("other"), fail(1, "a"), fail(128, "no remote branch")], |s| git.checkout_branch(s));
    assert_eq!(
        result,
        Some(Err(GitError::Command {
            command: "checkout -b main origin/main".to_string(),
            exit_code: 128,
            stderr: "no remote branch".to_string(),
            stdout: String::new(),
        }))
    );
}

#[test]
fn ensure_autostash_leaves_a_clean_tree_alone() {
    let git = facade();
    let (asked, result) = converse(vec![ok("")], |s| git.ensure_autostash(s));
    assert_eq!(asked, vec![words(&["status", "--porcelain"])]);
    assert_eq!(result, Some(Ok(None)));
}

#[test]
fn ensure_autostash_finds_its_entry_by_label() {
    let git = facade();
    let listing = "stash@{0}:On main: something else\nstash@{1}: On main: obsyncgit-autostash \n";
    let (asked, result) = converse(vec![ok(" M a.md\n"), ok("Saved"), ok(listing)], |s| git.ensure_autostash(s));
    assert_eq!(
        asked,
        vec![
            words(&["status", "--porcelain"]),
            words(&["stash", "push", "--include-untracked", "--message", "obsyncgit-autostash"]),
            words(&["stash", "list", "--format=%gd:%gs"]),
        ]
    );
    assert_eq!(result, Some(Ok(Some("stash@{1}".to_string()))));
    let exact = "stash@{0}:other\n stash@{3} :obsyncgit-autostash\nstash@{4}:obsyncgit-autostash\n";
    let (_, result) = converse(vec![ok(" M a.md\n"), ok(""), ok(exact)], |s| git.ensure_autostash(s));
    assert_eq!(result, Some(Ok(Some("stash@{3}".to_string()))));
    let (asked, result) = converse(vec![ok(" M a.md\n"), fail(1, "cannot stash")], |s| git.ensure_autostash(s));
    assert_eq!(asked.len(), 2);
    assert!(matches!(result, Some(Err(GitError::Command { exit_code: 1, .. }))));
    let (_, result) = converse(vec![ok(" M a.md\n"), ok(""), fail(7, "x")], |s| git.ensure_autostash(s));
    assert!(matches!(result, Some(Err(GitError::Command { exit_code: 7, .. }))));
}

#[test]
fn ensure_autostash_names_its_own_entry_below_a_manual_stash() {
    let git = facade();
    let listing = "stash@{0}:WIP on main: 1a2b3c4 x\nstash@{1}:On main: obsyncgit-autostash\n";
    let (_, result) = converse(vec![ok(" M a.md\n"), ok(""), ok(listing)], |s| git.ensure_autostash(s));
    assert_eq!(result, Some(Ok(Some("stash@{1}".to_string()))));
    let script = vec![ok(" M a.md\n"), ok(""), ok(listing), ok(""), ok("")];
    let (asked, result) = converse(script, |s| git.pull_rebase(s));
    assert_eq!(asked[4], words(&["stash", "pop", "stash@{1}"]));
    assert_eq!(result, Some(Ok(())));
}

#[test]
fn ensure_autostash_falls_back_to_the_newest_stash() {
    let git = facade();
    for listing in ["", "stash@{0}:WIP on main: 1a2b3c4 x\n", "stash@{2}:On main: obsyncgit-autostash-old\n", "no colon\n"] {
        let (_, result) = converse(vec![ok(" M a.md\n"), ok(""), ok(listing)], |s| git.ensure_autostash(s));
        assert_eq!(result, Some(Ok(Some("stash@{0}".to_string()))), "{listing:?}");
    }
}

#[test]
fn pop_stash_reports_how_it_went() {
    let git = facade();
    assert_eq!(
        converse(vec![ok("")], |s| git.pop_stash(s, "stash@{2}")),
        (vec![words(&["stash", "pop", "stash@{2}"])], Some(Ok(())))
    );
    assert!(matches!(converse(vec![fail(1, "conflict")], |s| git.pop_stash(s, "stash@{2}")).1, Some(Err(_))));
}

#[test]
fn pull_rebase_on_a_clean_tree_never_stashes() {
    let git = facade();
    let (asked, result) = converse(vec![ok(""), ok("Already up to date.")], |s| git.pull_rebase(s));
    assert_eq!(
        asked,
        vec![words(&["status", "--porcelain"]), words(&["pull", "--rebase", "origin", "main"])]
    );
    assert_eq!(result, Some(Ok(())));
    let (asked, result) = converse(vec![ok(""), fail(1, "conflict"), ok("")], |s| git.pull_rebase(s));
    assert_eq!(
        asked,
        vec![
            words(&["status", "--porcelain"]),
            words(&["pull", "--rebase", "origin", "main"]),
            words(&["rebase", "--abort"]),
        ]
    );
    assert!(asked.iter().all(|command| command[0] != "stash"));
    assert_eq!(
        result,
        Some(Err(GitError::Command {
            command: "pull --rebase origin main".to_string(),
            exit_code: 1,
            stderr: "conflict".to_string(),
            stdout: String::new(),
        }))
    );
}

#[test]
fn pull_rebase_on_a_dirty_tree_restores_the_stash() {
    let git = facade();
    let script = vec![
        ok(" M a.md\n"),
        ok("Saved working directory"),
        ok("stash@{0}: On main: obsyncgit-autostash\n"),
        ok("Successfully rebased"),
        ok("Dropped stash@{0}"),
    ];
    let (asked, result) = converse(script, |s| git.pull_rebase(s));
    assert_eq!(
        asked,
        vec![
            words(&["status", "--porcelain"]),
            words(&["stash", "push", "--include-untracked", "--message", "obsyncgit-autostash"]),
            words(&["stash", "list", "--format=%gd:%gs"]),
            words(&["pull", "--rebase", "origin", "main"]),
            words(&["stash", "pop", "stash@{0}"]),
        ]
    );
    assert_eq!(result, Some(Ok(())));
}

#[test]
fn pull_rebase_succeeds_even_if_the_stash_does_not_come_back() {
    let git = facade();
    let script = vec![
        ok(" M a.md\n"),
        ok(""),
        ok("stash@{1}: obsyncgit-autostash\n"),
        ok(""),
        fail(1, "CONFLICT (content)"),
    ];
    let (asked, result) = converse(script, |s| git.pull_rebase(s));
    assert_eq!(asked[4], words(&["stash", "pop", "stash@{1}"]));
    assert_eq!(result, Some(Ok(())));
}

#[test]
fn pull_rebase_failure_on_a_dirty_tree_aborts_and_restores() {
    let git = facade();
    let script = vec![
        ok(" M a.md\n"),
        ok(""),
        ok("stash@{0}: obsyncgit-autostash\n"),
        fail(1, "could not apply"),
        fail(128, "no rebase in progress"),
        ok(""),
    ];
    let (asked, result) = converse(script, |s| git.pull_rebase(s));
    assert_eq!(
        asked,
        vec![
            words(&["status", "--porcelain"]),
            words(&["stash", "push", "--include-untracked", "--message", "obsyncgit-autostash"]),
            words(&["stash", "list", "--format=%gd:%gs"]),
            words(&["pull", "--rebase", "origin", "main"]),
            words(&["rebase", "--abort"]),
            words(&["stash", "pop", "stash@{0}"]),
        ]
    );
    assert_eq!(
        result,
        Some(Err(GitError::Command {
            command: "pull --rebase origin main".to_string(),
            exit_code: 1,
            stderr: "could not apply".to_string(),
            stdout: String::new(),
        }))
    );
}

#[test]
fn pull_rebase_does_not_pull_if_the_stash_fails() {
    let git = facade();
    let (asked, result) = converse(vec![ok(" M a.md\n"), fail(1, "cannot save")], |s| git.pull_rebase(s));
    assert_eq!(asked.len(), 2);
    assert!(matches!(result, Some(Err(GitError::Command { exit_code: 1, .. }))));
    let (asked, result) = converse(vec![GitReply::NotStarted { reason: "gone".to_string() }], |s| {
        git.pull_rebase(s)
    });
    assert_eq!(asked.len(), 1);
    assert_eq!(
        result,
        Some(Err(GitError::Launch { command: "status --porcelain".to_string(), reason: "gone".to_string() }))
    );
}

#[test]
fn ensure_repo_clones_into_an_empty_workdir_and_ends_on_the_branch() {
    let git = facade();
    let url = "git@example.com:me/notes.git";
    let (asked, result) = converse(vec![ok("Cloning into '.'..."), ok("main\n")], |s| {
        git.ensure_repo(s, url, &WorkdirState::Empty)
    });
    assert_eq!(
        asked,
        vec![
            words(&["clone", "--branch", "main", url, "."]),
            words(&["rev-parse", "--abbrev-ref", "HEAD"]),
        ]
    );
    assert_eq!(result, Some(Ok(())));
    let (asked, result) = converse(vec![ok(""), ok("HEAD\n"), ok("")], |s| {
        git.ensure_repo(s, url, &WorkdirState::Missing)
    });
    assert_eq!(asked[2], words(&["checkout", "main"]));
    assert_eq!(result, Some(Ok(())));
    let (asked, result) = converse(vec![fail(128, "repository not found")], |s| {
        git.ensure_repo(s, url, &WorkdirState::Empty)
    });
    assert_eq!(asked.len(), 1);
    assert!(matches!(result, Some(Err(GitError::Command { exit_code: 128, .. }))));
}

#[test]
fn ensure_repo_refreshes_an_existing_repository() {
    let git = facade();
    let url = "git@example.com:me/notes.git";
    let (asked, result) = converse(vec![ok("git@example.com:me/notes.git"), ok(""), ok("main")], |s| {
        git.ensure_repo(s, url, &WorkdirState::Repository)
    });
    assert_eq!(
        asked,
        vec![
            words(&["remote", "get-url", "origin"]),
            words(&["fetch", "origin"]),
            words(&["rev-parse", "--abbrev-ref", "HEAD"]),
        ]
    );
    assert_eq!(result, Some(Ok(())));
    let (asked, result) = converse(vec![ok("elsewhere"), ok(""), fail(1, "offline")], |s| {
        git.ensure_repo(s, url, &WorkdirState::Repository)
    });
    assert_eq!(asked.len(), 3);
    assert_eq!(asked[2], words(&["fetch", "origin"]));
    assert!(matches!(result, Some(Err(GitError::Command { exit_code: 1, .. }))));
}

#[test]
fn ensure_repo_refuses_an_occupied_or_unreadable_workdir() {
    let git = facade();
    let url = "git@example.com:me/notes.git";
    let (asked, result) = converse(vec![], |s| git.ensure_repo(s, url, &WorkdirState::Occupied));
    assert!(asked.is_empty());
    assert_eq!(result, Some(Err(GitError::Conflict { path: "/home/me/notes".to_string() })));
    let unreadable = WorkdirState::Unreadable { reason: "permission denied".to_string() };
    let (asked, result) = converse(vec![], |s| git.ensure_repo(s, url, &unreadable));
    assert!(asked.is_empty());
    assert_eq!(
        result,
        Some(Err(GitError::Inspect {
            path: "/home/me/notes".to_string(),
            reason: "permission denied".to_string(),
        }))
    );
}
