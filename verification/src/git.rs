//! The operations on the repository, each as a conversation with git.
//!
//! An operation takes a [`Session`] and returns a [`Step`]: the next command
//! to run, or its result. What it returns is a function of the replies in the
//! session alone, stated by the plan of the same name on [`GitFacadeView`].
//! Every plan ends after a bounded number of replies, and once it has ended
//! further replies do not change it.

use crate::config::{Config, GitOptions};
use crate::exchange::{
    follows,
    lemma_follows_after,
    result_view,
    CommandOutput,
    CommandOutputView,
    GitCommand,
    GitCommandView,
    GitError,
    GitErrorView,
    GitReply,
    Plan,
    Session,
    Step,
};
use crate::render::{args2, args3, args4, args5, join, join_texts, push_arg};
use crate::scan::{find_char, lemma_lines_of_blank, lemma_position_is_first, lines_of};
use crate::status::{
    autostash_ref,
    changed_paths,
    find_autostash,
    has_staged_changes,
    is_staged_line,
    names_staged_change,
    parse_changed_files,
};
use crate::text::{chars_of, is_blank, str_is_blank, trim, trimmed};
use vstd::prelude::*;
use vstd::string::StringExecFns;

verus! {

/// The repository in the working directory and the remote branch that it
/// follows.
#[derive(Debug, Clone)]
pub struct GitFacade {
    executable: String,
    repo_path: String,
    remote: String,
    branch: String,
    git_options: GitOptions,
}

/// A [`GitFacade`] as plain text: what its commands depend on. The path of
/// the key in the settings is part of no command and is left out.
pub struct GitFacadeView {
    pub executable: Seq<char>,
    pub repo_path: Seq<char>,
    pub remote: Seq<char>,
    pub branch: Seq<char>,
    pub author_name: Option<Seq<char>>,
    pub author_email: Option<Seq<char>>,
}

impl View for GitFacade {
    type V = GitFacadeView;

    closed spec fn view(&self) -> GitFacadeView {
        GitFacadeView {
            executable: self.executable@,
            repo_path: self.repo_path@,
            remote: self.remote@,
            branch: self.branch@,
            author_name: self.git_options.author_name.deep_view(),
            author_email: self.git_options.author_email.deep_view(),
        }
    }
}

/// An argument as it is shown to a person: in double quotes where it holds a
/// blank.
pub open spec fn shown_arg(arg: Seq<char>) -> Seq<char> {
    if arg.contains(' ') {
        seq!['"'] + arg + seq!['"']
    } else {
        arg
    }
}

/// The arguments as they are shown to a person, with one blank between them.
pub open spec fn shown_args(args: Seq<Seq<char>>) -> Seq<char> {
    join_texts(args.map_values(|a: Seq<char>| shown_arg(a)), " "@)
}

/// The arguments as they are shown to a person, with one blank between them.
pub fn join_args(args: &Vec<String>) -> (r: String)
    ensures
        r@ == shown_args(args.deep_view()),
{
    let mut shown: Vec<String> = Vec::new();
    let mut i: usize = 0;
    let ghost all = args.deep_view();
    let ghost target = all.map_values(|a: Seq<char>| shown_arg(a));
    while i < args.len()
        invariant
            i <= args.len(),
            all == args.deep_view(),
            target == all.map_values(|a: Seq<char>| shown_arg(a)),
            shown.deep_view() == target.take(i as int),
        decreases args.len() - i,
    {
        let arg = &args[i];
        let chars = chars_of(arg.as_str());
        let at = find_char(&chars, 0, chars.len(), ' ');
        proof {
            assert(chars@.subrange(0, chars.len() as int) == chars@);
            lemma_position_is_first(chars@, ' ');
            if at < chars.len() {
                assert(chars@[at as int] == ' ');
            }
            assert(all[i as int] == arg@);
        }
        let ghost before = shown.deep_view();
        let text = if at < chars.len() {
            let mut quoted = String::from_str("\"");
            quoted.append(arg.as_str());
            quoted.append("\"");
            proof {
                reveal_strlit("\"");
                assert("\""@ == seq!['"']);
            }
            quoted
        } else {
            arg.clone()
        };
        shown.push(text);
        assert(shown.deep_view() =~= before.push(shown_arg(arg@)));
        assert(target.take(i + 1) == target.take(i as int).push(target[i as int]));
        i += 1;
    }
    assert(target.take(args.len() as int) == target);
    join(&shown, " ")
}

/// What an invocation with these arguments came to, given its reply.
pub open spec fn outcome(args: Seq<Seq<char>>, reply: GitReply) -> Result<
    CommandOutputView,
    GitErrorView,
> {
    match reply {
        GitReply::NotStarted { reason } => Err(
            GitErrorView::Launch { command: shown_args(args), reason: reason@ },
        ),
        GitReply::Exited { code, stdout, stderr } => if code == Some(0i32) {
            Ok(CommandOutputView { stdout: stdout@, stderr: stderr@ })
        } else {
            Err(
                GitErrorView::Command {
                    command: shown_args(args),
                    exit_code: match code {
                        Some(c) => c,
                        None => -1i32,
                    },
                    stderr: stderr@,
                    stdout: stdout@,
                },
            )
        },
    }
}

/// What an invocation with these arguments came to, given its reply.
pub fn interpret(args: &Vec<String>, reply: GitReply) -> (r: Result<CommandOutput, GitError>)
    ensures
        result_view(r) == outcome(args.deep_view(), reply),
{
    match reply {
        GitReply::NotStarted { reason } => Err(
            GitError::Launch { command: join_args(args), reason },
        ),
        GitReply::Exited { code, stdout, stderr } => {
            match code {
                Some(c) => {
                    if c == 0 {
                        Ok(CommandOutput { stdout, stderr })
                    } else {
                        Err(
                            GitError::Command {
                                command: join_args(args),
                                exit_code: c,
                                stderr,
                                stdout,
                            },
                        )
                    }
                },
                None => Err(
                    GitError::Command { command: join_args(args), exit_code: -1, stderr, stdout },
                ),
            }
        },
    }
}

/// Appends the variable `name` with `value` to `env`.
fn push_env(env: &mut Vec<(String, String)>, name: &str, value: &str)
    ensures
        final(env).deep_view() == old(env).deep_view().push((name@, value@)),
{
    let ghost before = env.deep_view();
    env.push((String::from_str(name), String::from_str(value)));
    assert(env.deep_view() =~= before.push((name@, value@)));
}

/// What the working directory holds before the repository is set up.
#[derive(Debug, Clone, PartialEq, Eq)]
pub enum WorkdirState {
    /// A repository.
    Repository,
    /// Nothing: the directory does not exist.
    Missing,
    /// A directory without entries.
    Empty,
    /// A directory with entries and without a repository.
    Occupied,
    /// A directory that could not be read.
    Unreadable { reason: String },
}

/// The step without what the command printed.
pub open spec fn without_output(
    plan: Plan<Result<CommandOutputView, GitErrorView>>,
) -> Plan<Result<(), GitErrorView>> {
    match plan {
        Plan::Run(c) => Plan::Run(c),
        Plan::Done { value: Ok(_), used } => Plan::Done { value: Ok(()), used },
        Plan::Done { value: Err(e), used } => Plan::Done { value: Err(e), used },
    }
}

fn discard_output(step: Step<Result<CommandOutput, GitError>>) -> (r: Step<Result<(), GitError>>)
    ensures
        r == match step {
            Step::Run(c) => Step::<Result<(), GitError>>::Run(c),
            Step::Done(Ok(_)) => Step::Done(Ok(())),
            Step::Done(Err(e)) => Step::Done(Err(e)),
        },
{
    match step {
        Step::Run(c) => Step::Run(c),
        Step::Done(Ok(_)) => Step::Done(Ok(())),
        Step::Done(Err(e)) => Step::Done(Err(e)),
    }
}

fn copy_option(o: &Option<String>) -> (r: Option<String>)
    ensures
        r == *o,
{
    match o {
        Some(s) => Some(s.clone()),
        None => None,
    }
}

impl GitFacadeView {
    /// The environment of every invocation: no prompt for credentials, and
    /// messages in the C locale. With `author`, also the author and committer
    /// that the settings name.
    pub open spec fn environment(self, author: bool) -> Seq<(Seq<char>, Seq<char>)> {
        let base = seq![("GIT_TERMINAL_PROMPT"@, "0"@), ("LC_ALL"@, "C"@), ("LANG"@, "C"@)];
        let named = match self.author_name {
            Some(name) if author => base + seq![
                ("GIT_AUTHOR_NAME"@, name),
                ("GIT_COMMITTER_NAME"@, name),
            ],
            _ => base,
        };
        match self.author_email {
            Some(email) if author => named + seq![
                ("GIT_AUTHOR_EMAIL"@, email),
                ("GIT_COMMITTER_EMAIL"@, email),
            ],
            _ => named,
        }
    }

    /// The invocation for `args`: run in the working directory, with paths
    /// printed unquoted.
    pub open spec fn command(
        self,
        args: Seq<Seq<char>>,
        author: bool,
        create_workdir: bool,
    ) -> GitCommandView {
        GitCommandView {
            program: self.executable,
            workdir: self.repo_path,
            args: seq!["-c"@, "core.quotepath=false"@] + args,
            env: self.environment(author),
            create_workdir,
        }
    }

    /// One invocation: asked for while no reply is there, and read from the
    /// first reply once there is one.
    pub open spec fn run(
        self,
        args: Seq<Seq<char>>,
        author: bool,
        create_workdir: bool,
        replies: Seq<GitReply>,
    ) -> Plan<Result<CommandOutputView, GitErrorView>> {
        if replies.len() == 0 {
            Plan::Run(self.command(args, author, create_workdir))
        } else {
            Plan::Done { value: outcome(args, replies[0]), used: 1 }
        }
    }
}

impl GitFacade {
    /// Whether `view` is the facade for the repository that `config`
    /// describes: the executable is the one that the settings name, and `git`
    /// where they name none.
    pub open spec fn describes(view: GitFacadeView, config: Config) -> bool {
        view == (GitFacadeView {
            executable: match config.git.executable {
                Some(exe) => exe@,
                None => "git"@,
            },
            repo_path: config.workdir@,
            remote: config.remote@,
            branch: config.branch@,
            author_name: config.git.author_name.deep_view(),
            author_email: config.git.author_email.deep_view(),
        })
    }

    /// The facade for the repository that `config` describes.
    pub fn new(config: &Config) -> (r: Result<GitFacade, GitError>)
        ensures
            r matches Ok(f) && Self::describes(f@, *config),
    {
        let exe = match &config.git.executable {
            Some(exe) => exe.clone(),
            None => String::from_str("git"),
        };
        Ok(
            GitFacade {
                executable: exe,
                repo_path: config.workdir.clone(),
                remote: config.remote.clone(),
                branch: config.branch.clone(),
                git_options: GitOptions {
                    executable: copy_option(&config.git.executable),
                    author_name: copy_option(&config.git.author_name),
                    author_email: copy_option(&config.git.author_email),
                    ssh_key_path: copy_option(&config.git.ssh_key_path),
                },
            },
        )
    }

    /// The invocation for `args`.
    fn command(&self, args: &Vec<String>, include_author_env: bool, create_workdir: bool) -> (c:
        GitCommand)
        ensures
            c@ == self@.command(args.deep_view(), include_author_env, create_workdir),
    {
        let mut full: Vec<String> = Vec::new();
        push_arg(&mut full, "-c");
        push_arg(&mut full, "core.quotepath=false");
        let mut i: usize = 0;
        let ghost head = full.deep_view();
        assert(head =~= seq!["-c"@, "core.quotepath=false"@]);
        let ghost all = args.deep_view();
        while i < args.len()
            invariant
                i <= args.len(),
                all == args.deep_view(),
                full.deep_view() == head + all.take(i as int),
            decreases args.len() - i,
        {
            push_arg(&mut full, args[i].as_str());
            assert(all.take(i + 1) == all.take(i as int).push(args@[i as int]@));
            assert(full.deep_view() =~= head + all.take(i + 1));
            i += 1;
        }
        assert(all.take(args.len() as int) == all);
        let mut env: Vec<(String, String)> = Vec::new();
        push_env(&mut env, "GIT_TERMINAL_PROMPT", "0");
        push_env(&mut env, "LC_ALL", "C");
        push_env(&mut env, "LANG", "C");
        assert(env.deep_view() =~= seq![
            ("GIT_TERMINAL_PROMPT"@, "0"@),
            ("LC_ALL"@, "C"@),
            ("LANG"@, "C"@),
        ]);
        if include_author_env {
            match &self.git_options.author_name {
                Some(name) => {
                    let ghost before = env.deep_view();
                    push_env(&mut env, "GIT_AUTHOR_NAME", name.as_str());
                    push_env(&mut env, "GIT_COMMITTER_NAME", name.as_str());
                    assert(env.deep_view() =~= before + seq![
                        ("GIT_AUTHOR_NAME"@, name@),
                        ("GIT_COMMITTER_NAME"@, name@),
                    ]);
                },
                None => {},
            }
            match &self.git_options.author_email {
                Some(email) => {
                    let ghost before = env.deep_view();
                    push_env(&mut env, "GIT_AUTHOR_EMAIL", email.as_str());
                    push_env(&mut env, "GIT_COMMITTER_EMAIL", email.as_str());
                    assert(env.deep_view() =~= before + seq![
                        ("GIT_AUTHOR_EMAIL"@, email@),
                        ("GIT_COMMITTER_EMAIL"@, email@),
                    ]);
                },
                None => {},
            }
        }
        GitCommand {
            program: self.executable.clone(),
            workdir: self.repo_path.clone(),
            args: full,
            env,
            create_workdir,
        }
    }

    /// One invocation of git with `args`.
    pub fn run_git(
        &self,
        session: &mut Session,
        args: &Vec<String>,
        include_author_env: bool,
        create_workdir: bool,
    ) -> (r: Step<Result<CommandOutput, GitError>>)
        ensures
            follows(
                r,
                *old(session),
                *final(session),
                self@.run(
                    args.deep_view(),
                    include_author_env,
                    create_workdir,
                    old(session).pending(),
                ),
            ),
    {
        match session.next_reply() {
            None => Step::Run(self.command(args, include_author_env, create_workdir)),
            Some(reply) => Step::Done(interpret(args, reply)),
        }
    }
}

impl GitFacadeView {
    /// `git fetch <remote>`.
    pub open spec fn fetch(self, replies: Seq<GitReply>) -> Plan<Result<(), GitErrorView>> {
        without_output(self.run(seq!["fetch"@, self.remote], false, false, replies))
    }

    /// `git add -A`.
    pub open spec fn stage_all(self, replies: Seq<GitReply>) -> Plan<Result<(), GitErrorView>> {
        without_output(self.run(seq!["add"@, "-A"@], false, false, replies))
    }

    /// `git push <remote> <branch>`.
    pub open spec fn push(self, replies: Seq<GitReply>) -> Plan<Result<(), GitErrorView>> {
        without_output(self.run(seq!["push"@, self.remote, self.branch], false, false, replies))
    }

    /// `git clone --branch <branch> <url> .`, in a working directory that is
    /// created first.
    pub open spec fn clone_repo(self, repo_url: Seq<char>, replies: Seq<GitReply>) -> Plan<
        Result<(), GitErrorView>,
    > {
        without_output(
            self.run(
                seq!["clone"@, "--branch"@, self.branch, repo_url, "."@],
                false,
                true,
                replies,
            ),
        )
    }

    /// `git status --porcelain`, for what it prints.
    pub open spec fn worktree_status(self, replies: Seq<GitReply>) -> Plan<
        Result<Seq<char>, GitErrorView>,
    > {
        match self.run(seq!["status"@, "--porcelain"@], false, false, replies) {
            Plan::Run(c) => Plan::Run(c),
            Plan::Done { value: Ok(out), used } => Plan::Done { value: Ok(out.stdout), used },
            Plan::Done { value: Err(e), used } => Plan::Done { value: Err(e), used },
        }
    }

    /// Whether the working tree has no changes: the status is blank.
    pub open spec fn is_worktree_clean(self, replies: Seq<GitReply>) -> Plan<
        Result<bool, GitErrorView>,
    > {
        match self.worktree_status(replies) {
            Plan::Run(c) => Plan::Run(c),
            Plan::Done { value: Ok(status), used } => Plan::Done {
                value: Ok(is_blank(status)),
                used,
            },
            Plan::Done { value: Err(e), used } => Plan::Done { value: Err(e), used },
        }
    }

    /// `git status --short`, for the paths it names.
    pub open spec fn list_changed_files(self, replies: Seq<GitReply>) -> Plan<
        Result<Seq<Seq<char>>, GitErrorView>,
    > {
        match self.run(seq!["status"@, "--short"@], false, false, replies) {
            Plan::Run(c) => Plan::Run(c),
            Plan::Done { value: Ok(out), used } => Plan::Done {
                value: Ok(changed_paths(out.stdout)),
                used,
            },
            Plan::Done { value: Err(e), used } => Plan::Done { value: Err(e), used },
        }
    }

    /// Commits what is staged: `git status --short`, and where that names a
    /// staged change, `git commit -m <message>` with the author's
    /// environment. Where nothing is staged no commit is asked for, whatever
    /// else the tree holds. The result says whether a commit was made.
    pub open spec fn commit(self, message: Seq<char>, replies: Seq<GitReply>) -> Plan<
        Result<bool, GitErrorView>,
    > {
        match self.run(seq!["status"@, "--short"@], false, false, replies) {
            Plan::Run(c) => Plan::Run(c),
            Plan::Done { value: Err(e), used } => Plan::Done { value: Err(e), used },
            Plan::Done { value: Ok(out), used } => if !names_staged_change(out.stdout) {
                Plan::Done { value: Ok(false), used }
            } else {
                match self.run(
                    seq!["commit"@, "-m"@, message],
                    true,
                    false,
                    replies.skip(used as int),
                ).after(used) {
                    Plan::Run(c) => Plan::Run(c),
                    Plan::Done { value: Ok(_), used } => Plan::Done { value: Ok(true), used },
                    Plan::Done { value: Err(e), used } => Plan::Done { value: Err(e), used },
                }
            },
        }
    }

    /// Makes the remote point at `repo_url`: `git remote get-url <remote>`,
    /// then `set-url` where it prints another address, `add` where it fails.
    pub open spec fn set_remote(self, repo_url: Seq<char>, replies: Seq<GitReply>) -> Plan<
        Result<(), GitErrorView>,
    > {
        match self.run(seq!["remote"@, "get-url"@, self.remote], false, false, replies) {
            Plan::Run(c) => Plan::Run(c),
            Plan::Done { value: Ok(current), used } => if trimmed(current.stdout) != repo_url {
                without_output(
                    self.run(
                        seq!["remote"@, "set-url"@, self.remote, repo_url],
                        false,
                        false,
                        replies.skip(used as int),
                    ),
                ).after(used)
            } else {
                Plan::Done { value: Ok(()), used }
            },
            Plan::Done { value: Err(_), used } => without_output(
                self.run(
                    seq!["remote"@, "add"@, self.remote, repo_url],
                    false,
                    false,
                    replies.skip(used as int),
                ),
            ).after(used),
        }
    }

    /// The remote-tracking name of the branch.
    pub open spec fn remote_ref(self) -> Seq<char> {
        self.remote + "/"@ + self.branch
    }

    /// Puts the working tree on the branch: nothing where
    /// `git rev-parse --abbrev-ref HEAD` prints its name; else
    /// `git checkout <branch>`, and where that fails,
    /// `git checkout -b <branch> <remote>/<branch>`.
    pub open spec fn checkout_branch(self, replies: Seq<GitReply>) -> Plan<
        Result<(), GitErrorView>,
    > {
        match self.run(seq!["rev-parse"@, "--abbrev-ref"@, "HEAD"@], false, false, replies) {
            Plan::Run(c) => Plan::Run(c),
            Plan::Done { value, used } => if value matches Ok(head) && trimmed(head.stdout)
                == self.branch {
                Plan::Done { value: Ok(()), used }
            } else {
                match self.run(
                    seq!["checkout"@, self.branch],
                    false,
                    false,
                    replies.skip(used as int),
                ).after(used) {
                    Plan::Run(c) => Plan::Run(c),
                    Plan::Done { value: Ok(_), used } => Plan::Done { value: Ok(()), used },
                    Plan::Done { value: Err(_), used } => without_output(
                        self.run(
                            seq!["checkout"@, "-b"@, self.branch, self.remote_ref()],
                            false,
                            false,
                            replies.skip(used as int),
                        ),
                    ).after(used),
                }
            },
        }
    }

    /// Puts local changes aside before a rebase. On a clean tree nothing is
    /// run after the status and no stash is named. On a dirty tree:
    /// `git stash push --include-untracked --message obsyncgit-autostash`,
    /// then `git stash list --format=%gd:%gs` to find the entry.
    pub open spec fn ensure_autostash(self, replies: Seq<GitReply>) -> Plan<
        Result<Option<Seq<char>>, GitErrorView>,
    > {
        match self.is_worktree_clean(replies) {
            Plan::Run(c) => Plan::Run(c),
            Plan::Done { value: Err(e), used } => Plan::Done { value: Err(e), used },
            Plan::Done { value: Ok(clean), used } => if clean {
                Plan::Done { value: Ok(None), used }
            } else {
                match self.run(
                    seq![
                        "stash"@,
                        "push"@,
                        "--include-untracked"@,
                        "--message"@,
                        "obsyncgit-autostash"@,
                    ],
                    false,
                    false,
                    replies.skip(used as int),
                ).after(used) {
                    Plan::Run(c) => Plan::Run(c),
                    Plan::Done { value: Err(e), used } => Plan::Done { value: Err(e), used },
                    Plan::Done { value: Ok(_), used } => match self.run(
                        seq!["stash"@, "list"@, "--format=%gd:%gs"@],
                        false,
                        false,
                        replies.skip(used as int),
                    ).after(used) {
                        Plan::Run(c) => Plan::Run(c),
                        Plan::Done { value: Err(e), used } => Plan::Done { value: Err(e), used },
                        Plan::Done { value: Ok(list), used } => Plan::Done {
                            value: Ok(Some(autostash_ref(list.stdout))),
                            used,
                        },
                    },
                }
            },
        }
    }

    /// `git stash pop <stash>`.
    pub open spec fn pop_stash(self, stash: Seq<char>, replies: Seq<GitReply>) -> Plan<
        Result<(), GitErrorView>,
    > {
        without_output(self.run(seq!["stash"@, "pop"@, stash], false, false, replies))
    }

    /// Brings the stash back, if there is one, and ends with `verdict`
    /// however that went.
    pub open spec fn restore(
        self,
        stash: Option<Seq<char>>,
        verdict: Result<(), GitErrorView>,
        replies: Seq<GitReply>,
    ) -> Plan<Result<(), GitErrorView>> {
        match stash {
            None => Plan::Done { value: verdict, used: 0 },
            Some(name) => match self.pop_stash(name, replies) {
                Plan::Run(c) => Plan::Run(c),
                Plan::Done { value: _, used } => Plan::Done { value: verdict, used },
            },
        }
    }

    /// Rebases onto the remote branch without losing local changes: they are
    /// put aside first, then `git pull --rebase <remote> <branch>` runs. Where
    /// it succeeds the stash is brought back, and the result is success even
    /// if that fails. Where it fails, `git rebase --abort` runs, whatever it
    /// answers the stash is brought back, and the result is the failure of
    /// the pull.
    pub open spec fn pull_rebase(self, replies: Seq<GitReply>) -> Plan<Result<(), GitErrorView>> {
        match self.ensure_autostash(replies) {
            Plan::Run(c) => Plan::Run(c),
            Plan::Done { value: Err(e), used } => Plan::Done { value: Err(e), used },
            Plan::Done { value: Ok(stash), used } => match self.run(
                seq!["pull"@, "--rebase"@, self.remote, self.branch],
                false,
                false,
                replies.skip(used as int),
            ).after(used) {
                Plan::Run(c) => Plan::Run(c),
                Plan::Done { value: Ok(_), used } => self.restore(
                    stash,
                    Ok(()),
                    replies.skip(used as int),
                ).after(used),
                Plan::Done { value: Err(failure), used } => match self.run(
                    seq!["rebase"@, "--abort"@],
                    false,
                    false,
                    replies.skip(used as int),
                ).after(used) {
                    Plan::Run(c) => Plan::Run(c),
                    Plan::Done { value: _, used } => self.restore(
                        stash,
                        Err(failure),
                        replies.skip(used as int),
                    ).after(used),
                },
            },
        }
    }

    /// One plan after another: the second runs on the replies that the first
    /// left, and only if the first succeeded.
    pub open spec fn and_then(
        first: Plan<Result<(), GitErrorView>>,
        second: Plan<Result<(), GitErrorView>>,
    ) -> Plan<Result<(), GitErrorView>> {
        match first {
            Plan::Run(c) => Plan::Run(c),
            Plan::Done { value: Err(e), used } => Plan::Done { value: Err(e), used },
            Plan::Done { value: Ok(_), used } => second.after(used),
        }
    }

    /// How many replies a plan used; zero while it still asks for a command.
    pub open spec fn used_by<V>(plan: Plan<V>) -> nat {
        match plan {
            Plan::Run(_) => 0,
            Plan::Done { used, .. } => used,
        }
    }

    /// Sets the repository up. Where the working directory holds one, its
    /// remote is set, fetched, and the branch checked out. Where it holds
    /// other files, or cannot be read, nothing is run and the result is an
    /// error. Else the repository is cloned and the branch checked out.
    pub open spec fn ensure_repo(
        self,
        repo_url: Seq<char>,
        workdir: WorkdirState,
        replies: Seq<GitReply>,
    ) -> Plan<Result<(), GitErrorView>> {
        match workdir {
            WorkdirState::Repository => {
                let first = self.set_remote(repo_url, replies);
                let rest = replies.skip(Self::used_by(first) as int);
                let second = self.fetch(rest);
                let last = self.checkout_branch(rest.skip(Self::used_by(second) as int));
                Self::and_then(first, Self::and_then(second, last))
            },
            WorkdirState::Occupied => Plan::Done {
                value: Err(GitErrorView::Conflict { path: self.repo_path }),
                used: 0,
            },
            WorkdirState::Unreadable { reason } => Plan::Done {
                value: Err(GitErrorView::Inspect { path: self.repo_path, reason: reason@ }),
                used: 0,
            },
            WorkdirState::Missing | WorkdirState::Empty => {
                let first = self.clone_repo(repo_url, replies);
                let last = self.checkout_branch(replies.skip(Self::used_by(first) as int));
                Self::and_then(first, last)
            },
        }
    }
}

impl GitFacade {
    /// Fetches from the remote.
    pub fn fetch(&self, session: &mut Session) -> (r: Step<Result<(), GitError>>)
        ensures
            follows(r, *old(session), *final(session), self@.fetch(old(session).pending())),
    {
        let args = args2("fetch", self.remote.as_str());
        discard_output(self.run_git(session, &args, false, false))
    }

    /// Stages every modification, addition and deletion.
    pub fn stage_all(&self, session: &mut Session) -> (r: Step<Result<(), GitError>>)
        ensures
            follows(r, *old(session), *final(session), self@.stage_all(old(session).pending())),
    {
        let args = args2("add", "-A");
        discard_output(self.run_git(session, &args, false, false))
    }

    /// Pushes the branch to the remote.
    pub fn push(&self, session: &mut Session) -> (r: Step<Result<(), GitError>>)
        ensures
            follows(r, *old(session), *final(session), self@.push(old(session).pending())),
    {
        let args = args3("push", self.remote.as_str(), self.branch.as_str());
        discard_output(self.run_git(session, &args, false, false))
    }

    /// Clones `repo_url` into the working directory, at the branch.
    pub fn clone_repo(&self, session: &mut Session, repo_url: &str) -> (r: Step<
        Result<(), GitError>,
    >)
        ensures
            follows(
                r,
                *old(session),
                *final(session),
                self@.clone_repo(repo_url@, old(session).pending()),
            ),
    {
        let args = args5("clone", "--branch", self.branch.as_str(), repo_url, ".");
        discard_output(self.run_git(session, &args, false, true))
    }

    /// What `git status --porcelain` prints.
    pub fn worktree_status(&self, session: &mut Session) -> (r: Step<Result<String, GitError>>)
        ensures
            follows(
                r,
                *old(session),
                *final(session),
                self@.worktree_status(old(session).pending()),
            ),
    {
        let args = args2("status", "--porcelain");
        match self.run_git(session, &args, false, false) {
            Step::Run(c) => Step::Run(c),
            Step::Done(Ok(out)) => Step::Done(Ok(out.stdout)),
            Step::Done(Err(e)) => Step::Done(Err(e)),
        }
    }

    /// Whether the working tree has no changes.
    pub fn is_worktree_clean(&self, session: &mut Session) -> (r: Step<Result<bool, GitError>>)
        ensures
            follows(
                r,
                *old(session),
                *final(session),
                self@.is_worktree_clean(old(session).pending()),
            ),
    {
        match self.worktree_status(session) {
            Step::Run(c) => Step::Run(c),
            Step::Done(Ok(status)) => Step::Done(Ok(str_is_blank(status.as_str()))),
            Step::Done(Err(e)) => Step::Done(Err(e)),
        }
    }

    /// The paths that differ from the last commit; for a rename, the new path.
    pub fn list_changed_files(&self, session: &mut Session) -> (r: Step<
        Result<Vec<String>, GitError>,
    >)
        ensures
            follows(
                r,
                *old(session),
                *final(session),
                self@.list_changed_files(old(session).pending()),
            ),
    {
        let args = args2("status", "--short");
        match self.run_git(session, &args, false, false) {
            Step::Run(c) => Step::Run(c),
            Step::Done(Ok(out)) => Step::Done(Ok(parse_changed_files(out.stdout.as_str()))),
            Step::Done(Err(e)) => Step::Done(Err(e)),
        }
    }

    /// Commits what is staged, if anything is. `Ok(false)` says that nothing
    /// was staged and no commit was made.
    pub fn commit(&self, session: &mut Session, message: &str) -> (r: Step<
        Result<bool, GitError>,
    >)
        ensures
            follows(
                r,
                *old(session),
                *final(session),
                self@.commit(message@, old(session).pending()),
            ),
    {
        let args = args2("status", "--short");
        match self.run_git(session, &args, false, false) {
            Step::Run(c) => Step::Run(c),
            Step::Done(Err(e)) => Step::Done(Err(e)),
            Step::Done(Ok(out)) => {
                if !has_staged_changes(out.stdout.as_str()) {
                    Step::Done(Ok(false))
                } else {
                    let ghost mid = *session;
                    let args = args3("commit", "-m", message);
                    let made = self.run_git(session, &args, true, false);
                    proof {
                        lemma_follows_after(
                            made,
                            *old(session),
                            mid,
                            *session,
                            self@.run(args.deep_view(), true, false, mid.pending()),
                            1,
                        );
                    }
                    match made {
                        Step::Run(c) => Step::Run(c),
                        Step::Done(Ok(_)) => Step::Done(Ok(true)),
                        Step::Done(Err(e)) => Step::Done(Err(e)),
                    }
                }
            },
        }
    }
}

impl GitFacade {
    /// Makes the remote point at `repo_url`.
    pub fn set_remote(&self, session: &mut Session, repo_url: &str) -> (r: Step<
        Result<(), GitError>,
    >)
        ensures
            follows(
                r,
                *old(session),
                *final(session),
                self@.set_remote(repo_url@, old(session).pending()),
            ),
    {
        let args = args3("remote", "get-url", self.remote.as_str());
        match self.run_git(session, &args, false, false) {
            Step::Run(c) => Step::Run(c),
            Step::Done(Ok(current)) => {
                let current_url = trim(current.stdout.as_str());
                if current_url != String::from_str(repo_url) {
                    let ghost mid = *session;
                    let args = args4("remote", "set-url", self.remote.as_str(), repo_url);
                    let set = discard_output(self.run_git(session, &args, false, false));
                    proof {
                        lemma_follows_after(
                            set,
                            *old(session),
                            mid,
                            *session,
                            without_output(
                                self@.run(args.deep_view(), false, false, mid.pending()),
                            ),
                            1,
                        );
                    }
                    set
                } else {
                    Step::Done(Ok(()))
                }
            },
            Step::Done(Err(_)) => {
                let ghost mid = *session;
                let args = args4("remote", "add", self.remote.as_str(), repo_url);
                let added = discard_output(self.run_git(session, &args, false, false));
                proof {
                    lemma_follows_after(
                        added,
                        *old(session),
                        mid,
                        *session,
                        without_output(self@.run(args.deep_view(), false, false, mid.pending())),
                        1,
                    );
                }
                added
            },
        }
    }

    /// Puts the working tree on the branch, creating it from the remote's
    /// where it does not exist yet.
    pub fn checkout_branch(&self, session: &mut Session) -> (r: Step<Result<(), GitError>>)
        ensures
            follows(
                r,
                *old(session),
                *final(session),
                self@.checkout_branch(old(session).pending()),
            ),
    {
        let args = args3("rev-parse", "--abbrev-ref", "HEAD");
        let head = self.run_git(session, &args, false, false);
        let on_branch = match &head {
            Step::Run(_) => false,
            Step::Done(Ok(out)) => trim(out.stdout.as_str()) == self.branch,
            Step::Done(Err(_)) => false,
        };
        match head {
            Step::Run(c) => {
                return Step::Run(c);
            },
            Step::Done(_) => {},
        }
        if on_branch {
            return Step::Done(Ok(()));
        }
        let ghost mid = *session;
        let args = args2("checkout", self.branch.as_str());
        let switched = self.run_git(session, &args, false, false);
        proof {
            lemma_follows_after(
                switched,
                *old(session),
                mid,
                *session,
                self@.run(args.deep_view(), false, false, mid.pending()),
                1,
            );
        }
        match switched {
            Step::Run(c) => Step::Run(c),
            Step::Done(Ok(_)) => Step::Done(Ok(())),
            Step::Done(Err(_)) => {
                let ghost late = *session;
                let mut remote_ref = self.remote.clone();
                remote_ref.append("/");
                remote_ref.append(self.branch.as_str());
                let args = args4("checkout", "-b", self.branch.as_str(), remote_ref.as_str());
                let created = discard_output(self.run_git(session, &args, false, false));
                proof {
                    lemma_follows_after(
                        created,
                        *old(session),
                        late,
                        *session,
                        without_output(self@.run(args.deep_view(), false, false, late.pending())),
                        2,
                    );
                }
                created
            },
        }
    }

    /// Puts local changes aside before a rebase, and names the stash that
    /// holds them; `None` on a clean tree.
    pub fn ensure_autostash(&self, session: &mut Session) -> (r: Step<
        Result<Option<String>, GitError>,
    >)
        ensures
            follows(
                r,
                *old(session),
                *final(session),
                self@.ensure_autostash(old(session).pending()),
            ),
    {
        let clean = match self.is_worktree_clean(session) {
            Step::Run(c) => {
                return Step::Run(c);
            },
            Step::Done(Err(e)) => {
                return Step::Done(Err(e));
            },
            Step::Done(Ok(clean)) => clean,
        };
        if clean {
            return Step::Done(Ok(None));
        }
        let ghost mid = *session;
        let args = args5("stash", "push", "--include-untracked", "--message", "obsyncgit-autostash");
        let pushed = self.run_git(session, &args, false, false);
        proof {
            lemma_follows_after(
                pushed,
                *old(session),
                mid,
                *session,
                self@.run(args.deep_view(), false, false, mid.pending()),
                1,
            );
        }
        match pushed {
            Step::Run(c) => {
                return Step::Run(c);
            },
            Step::Done(Err(e)) => {
                return Step::Done(Err(e));
            },
            Step::Done(Ok(_)) => {},
        }
        let ghost late = *session;
        let args = args3("stash", "list", "--format=%gd:%gs");
        let listed = self.run_git(session, &args, false, false);
        proof {
            lemma_follows_after(
                listed,
                *old(session),
                late,
                *session,
                self@.run(args.deep_view(), false, false, late.pending()),
                2,
            );
        }
        match listed {
            Step::Run(c) => Step::Run(c),
            Step::Done(Err(e)) => Step::Done(Err(e)),
            Step::Done(Ok(list)) => Step::Done(Ok(Some(find_autostash(list.stdout.as_str())))),
        }
    }

    /// Brings the stash back.
    pub fn pop_stash(&self, session: &mut Session, stash: &str) -> (r: Step<
        Result<(), GitError>,
    >)
        ensures
            follows(
                r,
                *old(session),
                *final(session),
                self@.pop_stash(stash@, old(session).pending()),
            ),
    {
        let args = args3("stash", "pop", stash);
        discard_output(self.run_git(session, &args, false, false))
    }

    /// Brings the stash back, if there is one, and ends with `verdict`.
    fn restore(
        &self,
        session: &mut Session,
        stash: Option<String>,
        verdict: Result<(), GitError>,
    ) -> (r: Step<Result<(), GitError>>)
        ensures
            follows(
                r,
                *old(session),
                *final(session),
                self@.restore(stash.deep_view(), result_view(verdict), old(session).pending()),
            ),
    {
        match stash {
            None => {
                assert(session.pending().skip(0) == session.pending());
                Step::Done(verdict)
            },
            Some(name) => match self.pop_stash(session, name.as_str()) {
                Step::Run(c) => Step::Run(c),
                Step::Done(_) => Step::Done(verdict),
            },
        }
    }

    /// Rebases onto the remote branch, keeping local changes safe in a stash
    /// meanwhile and never leaving a rebase half done.
    pub fn pull_rebase(&self, session: &mut Session) -> (r: Step<Result<(), GitError>>)
        ensures
            follows(r, *old(session), *final(session), self@.pull_rebase(old(session).pending())),
    {
        let ghost plan0 = self@.ensure_autostash(old(session).pending());
        let stash = match self.ensure_autostash(session) {
            Step::Run(c) => {
                return Step::Run(c);
            },
            Step::Done(Err(e)) => {
                return Step::Done(Err(e));
            },
            Step::Done(Ok(stash)) => stash,
        };
        let ghost used_a = GitFacadeView::used_by(plan0);
        let ghost mid = *session;
        let args = args4("pull", "--rebase", self.remote.as_str(), self.branch.as_str());
        let pulled = self.run_git(session, &args, false, false);
        proof {
            lemma_follows_after(
                pulled,
                *old(session),
                mid,
                *session,
                self@.run(args.deep_view(), false, false, mid.pending()),
                used_a,
            );
        }
        match pulled {
            Step::Run(c) => Step::Run(c),
            Step::Done(Ok(_)) => {
                let ghost late = *session;
                let ghost shown = stash.deep_view();
                let done = self.restore(session, stash, Ok(()));
                proof {
                    lemma_follows_after(
                        done,
                        *old(session),
                        late,
                        *session,
                        self@.restore(shown, Ok(()), late.pending()),
                        used_a + 1,
                    );
                }
                done
            },
            Step::Done(Err(failure)) => {
                let ghost late = *session;
                let args = args2("rebase", "--abort");
                let aborted = self.run_git(session, &args, false, false);
                proof {
                    lemma_follows_after(
                        aborted,
                        *old(session),
                        late,
                        *session,
                        self@.run(args.deep_view(), false, false, late.pending()),
                        used_a + 1,
                    );
                }
                match aborted {
                    Step::Run(c) => Step::Run(c),
                    Step::Done(_) => {
                        let ghost last = *session;
                        let ghost shown = stash.deep_view();
                        let ghost cause = failure@;
                        let done = self.restore(session, stash, Err(failure));
                        proof {
                            lemma_follows_after(
                                done,
                                *old(session),
                                last,
                                *session,
                                self@.restore(shown, Err(cause), last.pending()),
                                used_a + 2,
                            );
                        }
                        done
                    },
                }
            },
        }
    }

    /// Sets the repository up in the working directory, whose state the
    /// caller has looked up.
    pub fn ensure_repo(&self, session: &mut Session, repo_url: &str, workdir: &WorkdirState) -> (r:
        Step<Result<(), GitError>>)
        ensures
            follows(
                r,
                *old(session),
                *final(session),
                self@.ensure_repo(repo_url@, *workdir, old(session).pending()),
            ),
    {
        match workdir {
            WorkdirState::Repository => {
                let ghost plan_a = self@.set_remote(repo_url@, old(session).pending());
                match self.set_remote(session, repo_url) {
                    Step::Run(c) => {
                        return Step::Run(c);
                    },
                    Step::Done(Err(e)) => {
                        return Step::Done(Err(e));
                    },
                    Step::Done(Ok(_)) => {},
                }
                let ghost used_a = GitFacadeView::used_by(plan_a);
                let ghost mid = *session;
                let ghost plan_b = self@.fetch(mid.pending());
                let fetched = self.fetch(session);
                proof {
                    lemma_follows_after(fetched, *old(session), mid, *session, plan_b, used_a);
                }
                match fetched {
                    Step::Run(c) => {
                        return Step::Run(c);
                    },
                    Step::Done(Err(e)) => {
                        return Step::Done(Err(e));
                    },
                    Step::Done(Ok(_)) => {},
                }
                let ghost used_b = GitFacadeView::used_by(plan_b);
                let ghost late = *session;
                let ghost plan_c = self@.checkout_branch(late.pending());
                let done = self.checkout_branch(session);
                proof {
                    lemma_follows_after(done, mid, late, *session, plan_c, used_b);
                    lemma_follows_after(done, *old(session), mid, *session, plan_c.after(used_b), used_a);
                }
                done
            },
            WorkdirState::Occupied => {
                assert(session.pending().skip(0) == session.pending());
                Step::Done(Err(GitError::Conflict { path: self.repo_path.clone() }))
            },
            WorkdirState::Unreadable { reason } => {
                assert(session.pending().skip(0) == session.pending());
                Step::Done(
                    Err(GitError::Inspect { path: self.repo_path.clone(), reason: reason.clone() }),
                )
            },
            WorkdirState::Missing | WorkdirState::Empty => {
                let ghost plan_a = self@.clone_repo(repo_url@, old(session).pending());
                match self.clone_repo(session, repo_url) {
                    Step::Run(c) => {
                        return Step::Run(c);
                    },
                    Step::Done(Err(e)) => {
                        return Step::Done(Err(e));
                    },
                    Step::Done(Ok(_)) => {},
                }
                let ghost used_a = GitFacadeView::used_by(plan_a);
                let ghost mid = *session;
                let ghost plan_b = self@.checkout_branch(mid.pending());
                let done = self.checkout_branch(session);
                proof {
                    lemma_follows_after(done, *old(session), mid, *session, plan_b, used_a);
                }
                done
            },
        }
    }
}

/// Whether the status that `reply` carries shows a tree without changes.
pub open spec fn shows_clean_tree(reply: GitReply) -> bool {
    reply.succeeded() && is_blank(reply.output())
}

/// Whether the status that `reply` carries shows a tree with changes.
pub open spec fn shows_dirty_tree(reply: GitReply) -> bool {
    reply.succeeded() && !is_blank(reply.output())
}

/// Whether `command` is a `git stash` invocation.
pub open spec fn is_stash_command(command: GitCommandView) -> bool {
    command.args.len() > 2 && command.args[2] == "stash"@
}

/// Whether the status that `reply` carries names no staged change.
pub open spec fn shows_nothing_staged(reply: GitReply) -> bool {
    reply.succeeded() && !names_staged_change(reply.output())
}

/// A clean tree has nothing staged.
pub proof fn lemma_clean_tree_has_nothing_staged(reply: GitReply)
    requires
        shows_clean_tree(reply),
    ensures
        shows_nothing_staged(reply),
{
    let lines = lines_of(reply.output());
    assert forall|i: int| 0 <= i < lines.len() implies !is_staged_line(#[trigger] lines[i]) by {
        lemma_lines_of_blank(reply.output(), i);
    }
}

/// Where nothing is staged `commit` makes no commit: it asks for the status,
/// and with the status in hand it ends with `false`, whatever the message,
/// whatever else the tree holds and whatever replies follow. A clean tree is
/// one such case.
pub proof fn lemma_commit_on_clean_tree(
    git: GitFacadeView,
    message: Seq<char>,
    replies: Seq<GitReply>,
)
    requires
        replies.len() > 0,
        shows_nothing_staged(replies[0]) || shows_clean_tree(replies[0]),
    ensures
        git.commit(message, Seq::empty()) == Plan::<Result<bool, GitErrorView>>::Run(
            git.command(seq!["status"@, "--short"@], false, false),
        ),
        git.commit(message, replies) == (Plan::Done {
            value: Ok::<bool, GitErrorView>(false),
            used: 1,
        }),
{
    if shows_clean_tree(replies[0]) {
        lemma_clean_tree_has_nothing_staged(replies[0]);
    }
}

/// On a clean tree `pull_rebase` never runs `git stash`: whatever the
/// replies, no command that it asks for at any point is one.
pub proof fn lemma_pull_rebase_clean_tree_never_stashes(
    git: GitFacadeView,
    replies: Seq<GitReply>,
    k: int,
)
    requires
        replies.len() > 0,
        shows_clean_tree(replies[0]),
        0 <= k <= replies.len(),
    ensures
        git.pull_rebase(replies.take(k)) matches Plan::Run(command) ==> !is_stash_command(
            command,
        ),
{
    reveal_strlit("stash");
    reveal_strlit("status");
    reveal_strlit("pull");
    reveal_strlit("rebase");
    let seen = replies.take(k);
    let status = git.command(seq!["status"@, "--porcelain"@], false, false);
    let pull = git.command(seq!["pull"@, "--rebase"@, git.remote, git.branch], false, false);
    let abort = git.command(seq!["rebase"@, "--abort"@], false, false);
    assert(status.args[2] == "status"@);
    assert(pull.args[2] == "pull"@);
    assert(abort.args[2] == "rebase"@);
    assert("status"@ != "stash"@) by {
        assert("status"@.len() != "stash"@.len());
    }
    assert("pull"@ != "stash"@) by {
        assert("pull"@.len() != "stash"@.len());
    }
    assert("rebase"@ != "stash"@) by {
        assert("rebase"@.len() != "stash"@.len());
    }
    if k > 0 {
        assert(seen[0] == replies[0]);
        assert(git.ensure_autostash(seen) == (Plan::Done {
            value: Ok::<Option<Seq<char>>, GitErrorView>(None),
            used: 1,
        }));
        if k > 1 {
            assert(seen.skip(1)[0] == replies[1]);
        }
    }
}

/// On a clean tree `pull_rebase` is the status, the pull and, where the
/// pull fails, the abort of the rebase; its result is that of the pull.
pub proof fn lemma_pull_rebase_on_clean_tree(git: GitFacadeView, replies: Seq<GitReply>)
    requires
        replies.len() >= 3,
        shows_clean_tree(replies[0]),
    ensures
        git.pull_rebase(replies.take(1)) == Plan::<Result<(), GitErrorView>>::Run(
            git.command(seq!["pull"@, "--rebase"@, git.remote, git.branch], false, false),
        ),
        replies[1].succeeded() ==> git.pull_rebase(replies) == (Plan::Done {
            value: Ok::<(), GitErrorView>(()),
            used: 2,
        }),
        !replies[1].succeeded() ==> git.pull_rebase(replies.take(2)) == Plan::<
            Result<(), GitErrorView>,
        >::Run(git.command(seq!["rebase"@, "--abort"@], false, false)) && git.pull_rebase(
            replies,
        ) == (Plan::Done {
            value: Err::<(), GitErrorView>(
                outcome(seq!["pull"@, "--rebase"@, git.remote, git.branch], replies[1])->Err_0,
            ),
            used: 3,
        }),
{
    assert(replies.take(1)[0] == replies[0]);
    assert(replies.take(2)[0] == replies[0]);
    assert(replies.take(2).skip(1)[0] == replies[1]);
    assert(replies.skip(1)[0] == replies[1]);
    assert(replies.skip(2)[0] == replies[2]);
    assert(replies.take(1).skip(1).len() == 0);
    assert(replies.take(2).skip(2).len() == 0);
}

/// On a dirty tree `pull_rebase` puts the changes aside before it pulls:
/// after the status come `git stash push` with the synchroniser's label and
/// `git stash list`, and only then the pull.
pub proof fn lemma_pull_rebase_stashes_dirty_tree(git: GitFacadeView, replies: Seq<GitReply>)
    requires
        replies.len() >= 3,
        shows_dirty_tree(replies[0]),
        replies[1].succeeded(),
        replies[2].succeeded(),
    ensures
        git.pull_rebase(replies.take(1)) == Plan::<Result<(), GitErrorView>>::Run(
            git.command(
                seq![
                    "stash"@,
                    "push"@,
                    "--include-untracked"@,
                    "--message"@,
                    "obsyncgit-autostash"@,
                ],
                false,
                false,
            ),
        ),
        git.pull_rebase(replies.take(2)) == Plan::<Result<(), GitErrorView>>::Run(
            git.command(seq!["stash"@, "list"@, "--format=%gd:%gs"@], false, false),
        ),
        git.pull_rebase(replies.take(3)) == Plan::<Result<(), GitErrorView>>::Run(
            git.command(seq!["pull"@, "--rebase"@, git.remote, git.branch], false, false),
        ),
        git.ensure_autostash(replies) == (Plan::Done {
            value: Ok::<Option<Seq<char>>, GitErrorView>(
                Some(autostash_ref(replies[2].output())),
            ),
            used: 3,
        }),
{
    assert(replies.take(1)[0] == replies[0]);
    assert(replies.take(2)[0] == replies[0]);
    assert(replies.take(3)[0] == replies[0]);
    assert(replies.take(2).skip(1)[0] == replies[1]);
    assert(replies.take(3).skip(1)[0] == replies[1]);
    assert(replies.take(3).skip(2)[0] == replies[2]);
    assert(replies.skip(1)[0] == replies[1]);
    assert(replies.skip(2)[0] == replies[2]);
    assert(replies.take(1).skip(1).len() == 0);
    assert(replies.take(2).skip(2).len() == 0);
    assert(replies.take(3).skip(3).len() == 0);
}

/// On a dirty tree a pull that succeeds is followed by `git stash pop` of
/// the stash that was made, and ends in success whatever the pop answers.
pub proof fn lemma_pull_rebase_restores_stash(git: GitFacadeView, replies: Seq<GitReply>)
    requires
        replies.len() >= 5,
        shows_dirty_tree(replies[0]),
        replies[1].succeeded(),
        replies[2].succeeded(),
        replies[3].succeeded(),
    ensures
        git.pull_rebase(replies.take(4)) == Plan::<Result<(), GitErrorView>>::Run(
            git.command(
                seq!["stash"@, "pop"@, autostash_ref(replies[2].output())],
                false,
                false,
            ),
        ),
        git.pull_rebase(replies) == (Plan::Done { value: Ok::<(), GitErrorView>(()), used: 5 }),
{
    lemma_pull_rebase_stashes_dirty_tree(git, replies);
    lemma_pull_rebase_stashes_dirty_tree(git, replies.take(4));
    assert(replies.take(4)[0] == replies[0]);
    assert(replies.take(4)[1] == replies[1]);
    assert(replies.take(4)[2] == replies[2]);
    assert(replies.take(4).skip(3)[0] == replies[3]);
    assert(replies.take(4).skip(4).len() == 0);
    assert(replies.skip(3)[0] == replies[3]);
    assert(replies.skip(4)[0] == replies[4]);
}

/// On a dirty tree a pull that fails is followed by `git rebase --abort`
/// and, whatever that answers, by `git stash pop` of the stash that was
/// made; whatever the pop answers, the result is the failure of the pull.
pub proof fn lemma_pull_rebase_failure_recovers(git: GitFacadeView, replies: Seq<GitReply>)
    requires
        replies.len() >= 6,
        shows_dirty_tree(replies[0]),
        replies[1].succeeded(),
        replies[2].succeeded(),
        !replies[3].succeeded(),
    ensures
        git.pull_rebase(replies.take(4)) == Plan::<Result<(), GitErrorView>>::Run(
            git.command(seq!["rebase"@, "--abort"@], false, false),
        ),
        git.pull_rebase(replies.take(5)) == Plan::<Result<(), GitErrorView>>::Run(
            git.command(
                seq!["stash"@, "pop"@, autostash_ref(replies[2].output())],
                false,
                false,
            ),
        ),
        git.pull_rebase(replies) == (Plan::Done {
            value: Err::<(), GitErrorView>(
                outcome(seq!["pull"@, "--rebase"@, git.remote, git.branch], replies[3])->Err_0,
            ),
            used: 6,
        }),
{
    lemma_pull_rebase_stashes_dirty_tree(git, replies);
    lemma_pull_rebase_stashes_dirty_tree(git, replies.take(4));
    lemma_pull_rebase_stashes_dirty_tree(git, replies.take(5));
    assert(replies.take(4)[0] == replies[0]);
    assert(replies.take(4)[1] == replies[1]);
    assert(replies.take(4)[2] == replies[2]);
    assert(replies.take(5)[0] == replies[0]);
    assert(replies.take(5)[1] == replies[1]);
    assert(replies.take(5)[2] == replies[2]);
    assert(replies.take(4).skip(3)[0] == replies[3]);
    assert(replies.take(5).skip(3)[0] == replies[3]);
    assert(replies.take(5).skip(4)[0] == replies[4]);
    assert(replies.take(4).skip(4).len() == 0);
    assert(replies.take(5).skip(5).len() == 0);
    assert(replies.skip(3)[0] == replies[3]);
    assert(replies.skip(4)[0] == replies[4]);
    assert(replies.skip(5)[0] == replies[5]);
}

/// Whether `plan` has ended and has used at most `bound` replies.
pub open spec fn ends_within<V>(plan: Plan<V>, bound: nat) -> bool {
    plan matches Plan::Done { used, .. } && used <= bound
}

/// `pull_rebase` ends: with six replies in hand it asks for nothing more.
pub proof fn lemma_pull_rebase_ends(git: GitFacadeView, replies: Seq<GitReply>)
    requires
        replies.len() >= 6,
    ensures
        ends_within(git.pull_rebase(replies), 6),
{
    assert(replies.skip(1).len() > 0);
    assert(replies.skip(2).len() > 0);
    assert(replies.skip(3).len() > 0);
    assert(replies.skip(4).len() > 0);
    assert(replies.skip(5).len() > 0);
}

/// `commit` ends with two replies in hand.
pub proof fn lemma_commit_ends(git: GitFacadeView, message: Seq<char>, replies: Seq<GitReply>)
    requires
        replies.len() >= 2,
    ensures
        ends_within(git.commit(message, replies), 2),
{
    assert(replies.skip(1).len() > 0);
}

/// `set_remote` ends with two replies in hand.
pub proof fn lemma_set_remote_ends(git: GitFacadeView, repo_url: Seq<char>, replies: Seq<GitReply>)
    requires
        replies.len() >= 2,
    ensures
        ends_within(git.set_remote(repo_url, replies), 2),
{
    assert(replies.skip(1).len() > 0);
}

/// `checkout_branch` ends with three replies in hand.
pub proof fn lemma_checkout_branch_ends(git: GitFacadeView, replies: Seq<GitReply>)
    requires
        replies.len() >= 3,
    ensures
        ends_within(git.checkout_branch(replies), 3),
{
    assert(replies.skip(1).len() > 0);
    assert(replies.skip(2).len() > 0);
}

/// `ensure_repo` ends with six replies in hand.
pub proof fn lemma_ensure_repo_ends(
    git: GitFacadeView,
    repo_url: Seq<char>,
    workdir: WorkdirState,
    replies: Seq<GitReply>,
)
    requires
        replies.len() >= 6,
    ensures
        ends_within(git.ensure_repo(repo_url, workdir, replies), 6),
{
    match workdir {
        WorkdirState::Repository => {
            lemma_set_remote_ends(git, repo_url, replies);
            let first = git.set_remote(repo_url, replies);
            let rest = replies.skip(GitFacadeView::used_by(first) as int);
            let second = git.fetch(rest);
            lemma_checkout_branch_ends(git, rest.skip(GitFacadeView::used_by(second) as int));
        },
        WorkdirState::Missing | WorkdirState::Empty => {
            let first = git.clone_repo(repo_url, replies);
            lemma_checkout_branch_ends(git, replies.skip(GitFacadeView::used_by(first) as int));
        },
        _ => {},
    }
}

/// What is left of replies with more added behind them is what was left
/// before, with the same added behind it.
pub proof fn lemma_skip_of_longer(replies: Seq<GitReply>, more: Seq<GitReply>)
    ensures
        forall|k: int|
            0 <= k <= replies.len() ==> #[trigger] (replies + more).skip(k) == replies.skip(k)
                + more,
{
    assert forall|k: int| 0 <= k <= replies.len() implies #[trigger] (replies + more).skip(k)
        == replies.skip(k) + more by {
        assert((replies + more).skip(k) =~= replies.skip(k) + more);
    }
}

/// Once a single invocation has been answered, replies that are recorded
/// after the answer change nothing.
pub proof fn lemma_run_is_settled(
    git: GitFacadeView,
    args: Seq<Seq<char>>,
    author: bool,
    create_workdir: bool,
    replies: Seq<GitReply>,
    more: Seq<GitReply>,
)
    requires
        git.run(args, author, create_workdir, replies) is Done,
    ensures
        git.run(args, author, create_workdir, replies + more) == git.run(
            args,
            author,
            create_workdir,
            replies,
        ),
{
}

/// Once `commit` has ended, replies that are recorded after those it used
/// change nothing.
pub proof fn lemma_commit_is_settled(
    git: GitFacadeView,
    message: Seq<char>,
    replies: Seq<GitReply>,
    more: Seq<GitReply>,
)
    requires
        git.commit(message, replies) is Done,
    ensures
        git.commit(message, replies + more) == git.commit(message, replies),
{
    lemma_skip_of_longer(replies, more);
    assert((replies + more).skip(1) == replies.skip(1) + more);
}

/// Once `set_remote` has ended, replies that are recorded after those it
/// used change nothing.
pub proof fn lemma_set_remote_is_settled(
    git: GitFacadeView,
    repo_url: Seq<char>,
    replies: Seq<GitReply>,
    more: Seq<GitReply>,
)
    requires
        git.set_remote(repo_url, replies) is Done,
    ensures
        git.set_remote(repo_url, replies + more) == git.set_remote(repo_url, replies),
{
    lemma_skip_of_longer(replies, more);
    assert((replies + more).skip(1) == replies.skip(1) + more);
}

/// Once `checkout_branch` has ended, replies that are recorded after those
/// it used change nothing.
pub proof fn lemma_checkout_branch_is_settled(
    git: GitFacadeView,
    replies: Seq<GitReply>,
    more: Seq<GitReply>,
)
    requires
        git.checkout_branch(replies) is Done,
    ensures
        git.checkout_branch(replies + more) == git.checkout_branch(replies),
{
    lemma_skip_of_longer(replies, more);
    assert((replies + more).skip(1) == replies.skip(1) + more);
    if replies.len() > 1 {
        assert((replies + more).skip(2) == replies.skip(2) + more);
    }
}

/// Once `pull_rebase` has ended, replies that are recorded after those it
/// used change nothing: it has ended with the same result.
pub proof fn lemma_pull_rebase_is_settled(
    git: GitFacadeView,
    replies: Seq<GitReply>,
    more: Seq<GitReply>,
)
    requires
        git.pull_rebase(replies) is Done,
    ensures
        git.pull_rebase(replies + more) == git.pull_rebase(replies),
{
    lemma_skip_of_longer(replies, more);
    let longer = replies + more;
    if replies.len() > 0 {
        assert(longer.skip(1) == replies.skip(1) + more);
    }
    if replies.len() > 1 {
        assert(longer.skip(2) == replies.skip(2) + more);
    }
    if replies.len() > 2 {
        assert(longer.skip(3) == replies.skip(3) + more);
    }
    if replies.len() > 3 {
        assert(longer.skip(4) == replies.skip(4) + more);
    }
    if replies.len() > 4 {
        assert(longer.skip(5) == replies.skip(5) + more);
    }
    if replies.len() > 5 {
        assert(longer.skip(6) == replies.skip(6) + more);
    }
}

/// Once `ensure_repo` has ended, replies that are recorded after those it
/// used change nothing.
pub proof fn lemma_ensure_repo_is_settled(
    git: GitFacadeView,
    repo_url: Seq<char>,
    workdir: WorkdirState,
    replies: Seq<GitReply>,
    more: Seq<GitReply>,
)
    requires
        git.ensure_repo(repo_url, workdir, replies) is Done,
    ensures
        git.ensure_repo(repo_url, workdir, replies + more) == git.ensure_repo(
            repo_url,
            workdir,
            replies,
        ),
{
    lemma_skip_of_longer(replies, more);
    match workdir {
        WorkdirState::Repository => {
            let first = git.set_remote(repo_url, replies);
            if first is Done {
                lemma_set_remote_is_settled(git, repo_url, replies, more);
                let used = GitFacadeView::used_by(first) as int;
                let rest = replies.skip(used);
                assert((replies + more).skip(used) == rest + more);
                let second = git.fetch(rest);
                if first matches Plan::Done { value: Ok(_), .. } {
                    lemma_skip_of_longer(rest, more);
                    if second matches Plan::Done { value: Ok(_), .. } {
                        let fetched = GitFacadeView::used_by(second) as int;
                        assert((rest + more).skip(fetched) == rest.skip(fetched) + more);
                        lemma_checkout_branch_is_settled(git, rest.skip(fetched), more);
                    }
                }
            }
        },
        WorkdirState::Missing | WorkdirState::Empty => {
            let first = git.clone_repo(repo_url, replies);
            if first matches Plan::Done { value: Ok(_), .. } {
                let used = GitFacadeView::used_by(first) as int;
                assert((replies + more).skip(used) == replies.skip(used) + more);
                lemma_checkout_branch_is_settled(git, replies.skip(used), more);
            }
        },
        _ => {},
    }
}

} // verus!
