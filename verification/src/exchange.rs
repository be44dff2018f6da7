//! What passes between the library and whoever runs git for it.
//!
//! The library never starts a process. An operation is a function of the
//! replies received so far: it either names the next command to run or ends
//! with its result. The caller runs the command, records the reply in a
//! [`Session`], rewinds and asks again; one operation is one session.

use crate::render::{push_signed_decimal, signed_decimal};
use vstd::prelude::*;
use vstd::string::StringExecFns;

verus! {

/// A git invocation, ready to be started.
#[derive(Debug, Clone, PartialEq, Eq)]
pub struct GitCommand {
    /// The executable.
    pub program: String,
    /// The directory in which it runs.
    pub workdir: String,
    /// The arguments after the program's name.
    pub args: Vec<String>,
    /// Environment variables to set, in order: names and values.
    pub env: Vec<(String, String)>,
    /// Whether `workdir` and its parents have to be created before the start.
    pub create_workdir: bool,
}

/// A [`GitCommand`] as plain text.
pub struct GitCommandView {
    pub program: Seq<char>,
    pub workdir: Seq<char>,
    pub args: Seq<Seq<char>>,
    pub env: Seq<(Seq<char>, Seq<char>)>,
    pub create_workdir: bool,
}

impl View for GitCommand {
    type V = GitCommandView;

    open spec fn view(&self) -> GitCommandView {
        GitCommandView {
            program: self.program@,
            workdir: self.workdir@,
            args: self.args.deep_view(),
            env: self.env.deep_view(),
            create_workdir: self.create_workdir,
        }
    }
}

/// How one invocation ended.
#[derive(Debug, Clone, PartialEq, Eq)]
pub enum GitReply {
    /// The program could not be started, or its directory could not be made.
    NotStarted { reason: String },
    /// The program ran. `code` is its exit code, absent where a signal ended it.
    Exited { code: Option<i32>, stdout: String, stderr: String },
}

impl GitReply {
    /// Whether the program ran and exited with code zero.
    pub open spec fn succeeded(self) -> bool {
        self matches GitReply::Exited { code, .. } && code == Some(0i32)
    }

    /// What the program wrote to its standard output; empty where it did not run.
    pub open spec fn output(self) -> Seq<char> {
        match self {
            GitReply::Exited { stdout, .. } => stdout@,
            GitReply::NotStarted { .. } => Seq::empty(),
        }
    }

    /// A copy of this reply.
    pub fn duplicate(&self) -> (r: GitReply)
        ensures
            r == *self,
    {
        match self {
            GitReply::NotStarted { reason } => GitReply::NotStarted { reason: reason.clone() },
            GitReply::Exited { code, stdout, stderr } => GitReply::Exited {
                code: *code,
                stdout: stdout.clone(),
                stderr: stderr.clone(),
            },
        }
    }
}

/// What a successful invocation printed.
#[derive(Debug, Clone, PartialEq, Eq)]
pub struct CommandOutput {
    pub stdout: String,
    pub stderr: String,
}

/// A [`CommandOutput`] as plain text.
pub struct CommandOutputView {
    pub stdout: Seq<char>,
    pub stderr: Seq<char>,
}

impl View for CommandOutput {
    type V = CommandOutputView;

    open spec fn view(&self) -> CommandOutputView {
        CommandOutputView { stdout: self.stdout@, stderr: self.stderr@ }
    }
}

impl DeepView for CommandOutput {
    type V = CommandOutputView;

    open spec fn deep_view(&self) -> CommandOutputView {
        self@
    }
}

/// Why an operation on the repository failed.
#[derive(Debug, Clone, PartialEq, Eq)]
pub enum GitError {
    /// git could not be started. `command` is the invocation as a user would
    /// type it after `git`.
    Launch { command: String, reason: String },
    /// git ran and did not exit with code zero. `exit_code` is -1 where a
    /// signal ended it.
    Command { command: String, exit_code: i32, stderr: String, stdout: String },
    /// The target directory holds files and no repository.
    Conflict { path: String },
    /// The target directory exists and could not be read.
    Inspect { path: String, reason: String },
}

/// A [`GitError`] as plain text.
pub enum GitErrorView {
    Launch { command: Seq<char>, reason: Seq<char> },
    Command { command: Seq<char>, exit_code: i32, stderr: Seq<char>, stdout: Seq<char> },
    Conflict { path: Seq<char> },
    Inspect { path: Seq<char>, reason: Seq<char> },
}

impl View for GitError {
    type V = GitErrorView;

    open spec fn view(&self) -> GitErrorView {
        match self {
            GitError::Launch { command, reason } => GitErrorView::Launch {
                command: command@,
                reason: reason@,
            },
            GitError::Command { command, exit_code, stderr, stdout } => GitErrorView::Command {
                command: command@,
                exit_code: *exit_code,
                stderr: stderr@,
                stdout: stdout@,
            },
            GitError::Conflict { path } => GitErrorView::Conflict { path: path@ },
            GitError::Inspect { path, reason } => GitErrorView::Inspect {
                path: path@,
                reason: reason@,
            },
        }
    }
}

impl GitErrorView {
    /// The text that describes the error to a person.
    pub open spec fn message(self) -> Seq<char> {
        match self {
            GitErrorView::Launch { command, reason } => "failed to execute git command: git "@
                + command + ": "@ + reason,
            GitErrorView::Command { command, exit_code, stderr, stdout } => "git "@ + command
                + " failed with code "@ + signed_decimal(exit_code as int) + ": "@ + stderr + (
            if stdout.len() > 0 && stderr.len() == 0 {
                " stdout: "@ + stdout
            } else {
                Seq::empty()
            }),
            GitErrorView::Conflict { path } => "target directory "@ + path
                + " is not empty and does not contain a git repository"@,
            GitErrorView::Inspect { path, reason } => "failed to inspect existing directory "@
                + path + ": "@ + reason,
        }
    }
}

impl GitError {
    /// The text that describes the error to a person.
    pub fn message(&self) -> (r: String)
        ensures
            r@ == self@.message(),
    {
        match self {
            GitError::Launch { command, reason } => {
                let mut r = String::from_str("failed to execute git command: git ");
                r.append(command.as_str());
                r.append(": ");
                r.append(reason.as_str());
                r
            },
            GitError::Command { command, exit_code, stderr, stdout } => {
                let mut r = String::from_str("git ");
                r.append(command.as_str());
                r.append(" failed with code ");
                push_signed_decimal(&mut r, *exit_code);
                r.append(": ");
                r.append(stderr.as_str());
                if stdout.as_str().unicode_len() > 0 && stderr.as_str().unicode_len() == 0 {
                    let ghost before = r@;
                    r.append(" stdout: ");
                    r.append(stdout.as_str());
                    assert(r@ == before + (" stdout: "@ + stdout@));
                } else {
                    assert(r@ == r@ + Seq::<char>::empty());
                }
                r
            },
            GitError::Conflict { path } => {
                let mut r = String::from_str("target directory ");
                r.append(path.as_str());
                r.append(" is not empty and does not contain a git repository");
                r
            },
            GitError::Inspect { path, reason } => {
                let mut r = String::from_str("failed to inspect existing directory ");
                r.append(path.as_str());
                r.append(": ");
                r.append(reason.as_str());
                r
            },
        }
    }
}

/// What an operation asks for next.
#[derive(Debug, Clone, PartialEq, Eq)]
pub enum Step<T> {
    /// Run this command, record its reply and ask again.
    Run(GitCommand),
    /// The operation has ended with this result.
    Done(T),
}

/// What an operation does on given replies: the model of a [`Step`].
pub enum Plan<V> {
    /// Every reply was used and this command is to be run next.
    Run(GitCommandView),
    /// The operation ends with `value`, having used the first `used` replies.
    Done { value: V, used: nat },
}

impl<V> Plan<V> {
    /// This plan as the continuation of an operation that has already used
    /// `n` replies.
    pub open spec fn after(self, n: nat) -> Plan<V> {
        match self {
            Plan::Run(c) => Plan::Run(c),
            Plan::Done { value, used } => Plan::Done { value, used: used + n },
        }
    }
}

/// A result with both sides as plain values.
pub open spec fn result_view<T: DeepView>(r: Result<T, GitError>) -> Result<T::V, GitErrorView> {
    match r {
        Ok(v) => Ok(v.deep_view()),
        Err(e) => Err(e@),
    }
}

/// The replies received for one operation, and how many of them the
/// operation has read since the last rewind.
#[derive(Debug, Clone)]
pub struct Session {
    replies: Vec<GitReply>,
    cursor: usize,
}

impl Session {
    /// Every reply recorded so far, oldest first.
    pub closed spec fn recorded(&self) -> Seq<GitReply> {
        self.replies@
    }

    /// The replies that have not been read since the last rewind.
    pub closed spec fn pending(&self) -> Seq<GitReply> {
        if self.cursor <= self.replies@.len() {
            self.replies@.skip(self.cursor as int)
        } else {
            Seq::empty()
        }
    }

    /// A session without replies.
    pub fn new() -> (s: Session)
        ensures
            s.recorded() == Seq::<GitReply>::empty(),
            s.pending() == Seq::<GitReply>::empty(),
    {
        Session { replies: Vec::new(), cursor: 0 }
    }

    /// How many replies were recorded.
    pub fn len(&self) -> (n: usize)
        ensures
            n == self.recorded().len(),
    {
        self.replies.len()
    }

    /// Adds the reply to the command that the operation asked for last.
    pub fn record(&mut self, reply: GitReply)
        ensures
            final(self).recorded() == old(self).recorded().push(reply),
    {
        self.replies.push(reply);
    }

    /// Starts reading from the first reply again.
    pub fn rewind(&mut self)
        ensures
            final(self).recorded() == old(self).recorded(),
            final(self).pending() == old(self).recorded(),
    {
        self.cursor = 0;
        assert(self.replies@.skip(0) == self.replies@);
    }

    /// Reads the next reply, if one is left.
    pub fn next_reply(&mut self) -> (r: Option<GitReply>)
        ensures
            final(self).recorded() == old(self).recorded(),
            old(self).pending().len() == 0 ==> r is None && final(self).pending() == old(
                self,
            ).pending(),
            old(self).pending().len() > 0 ==> r == Some(old(self).pending()[0])
                && final(self).pending() == old(self).pending().skip(1),
    {
        if self.cursor < self.replies.len() {
            let reply = self.replies[self.cursor].duplicate();
            self.cursor = self.cursor + 1;
            proof {
                let all = self.replies@;
                assert(all.skip(old(self).cursor as int).skip(1) == all.skip(self.cursor as int));
            }
            Some(reply)
        } else {
            None
        }
    }
}

/// Whether `step`, returned for the replies pending in `before`, is what
/// `plan` says, and `after` has the replies that `plan` used marked as read.
pub open spec fn follows<T: DeepView>(
    step: Step<Result<T, GitError>>,
    before: Session,
    after: Session,
    plan: Plan<Result<T::V, GitErrorView>>,
) -> bool {
    &&& after.recorded() == before.recorded()
    &&& match plan {
        Plan::Run(c) => step matches Step::Run(cmd) && cmd@ == c,
        Plan::Done { value, used } => {
            &&& step matches Step::Done(r)
            &&& result_view(r) == value
            &&& used <= before.pending().len()
            &&& after.pending() == before.pending().skip(used as int)
        },
    }
}

/// A step that follows a plan for the replies left after `n` of them follows
/// the plan as a continuation after those `n`.
pub proof fn lemma_follows_after<T: DeepView>(
    step: Step<Result<T, GitError>>,
    before: Session,
    mid: Session,
    after: Session,
    plan: Plan<Result<T::V, GitErrorView>>,
    n: nat,
)
    requires
        mid.recorded() == before.recorded(),
        n <= before.pending().len(),
        mid.pending() == before.pending().skip(n as int),
        follows(step, mid, after, plan),
    ensures
        follows(step, before, after, plan.after(n)),
{
    match plan {
        Plan::Run(c) => {},
        Plan::Done { value, used } => {
            assert(before.pending().skip(n as int).skip(used as int) == before.pending().skip(
                (used + n) as int,
            ));
        },
    }
}

} // verus!
