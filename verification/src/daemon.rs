//! The synchroniser: the settings, the repository and the path filter, and
//! what one round of synchronisation consists of.

use crate::clock::{clock_text, current_timestamp};
use crate::config::{CommitConfig, Config};
use crate::engine::{SyncEngine, SyncEvent};
use crate::exchange::{
    follows,
    lemma_follows_after,
    GitError,
    GitErrorView,
    GitReply,
    Plan,
    Session,
    Step,
};
use crate::git::{
    ends_within,
    lemma_commit_ends,
    lemma_commit_is_settled,
    lemma_pull_rebase_ends,
    lemma_pull_rebase_is_settled,
    lemma_skip_of_longer,
    GitFacade,
    GitFacadeView,
};
use crate::ignore::{
    builtin_globs,
    can_build,
    explains,
    is_blank_pattern_list,
    user_globs,
    IgnoreError,
    IgnoreMatcher,
};
use crate::render::{decimal, join, join_texts, push_decimal};
use crate::status::changed_paths;
use crate::text::{trim, trimmed};
use vstd::prelude::*;
use vstd::string::StringExecFns;

verus! {

/// The commit message for `files`: the trimmed prefix, a blank, and the
/// names of the files separated by a comma and a blank, or their number
/// where there are more than `max_files`; then, where a time is given, a
/// blank and the time in parentheses.
pub open spec fn commit_message(
    prefix: Seq<char>,
    max_files: nat,
    files: Seq<Seq<char>>,
    stamp: Option<Seq<char>>,
) -> Seq<char> {
    let summary = if files.len() <= max_files {
        join_texts(files, ", "@)
    } else {
        "updated "@ + decimal(files.len()) + " files"@
    };
    let message = trimmed(prefix) + " "@ + summary;
    match stamp {
        Some(time) => message + " ("@ + time + ")"@,
        None => message,
    }
}

/// The commit message for `files`, with the time `stamp` where one is given.
pub fn compose_commit_message(commit: &CommitConfig, files: &Vec<String>, stamp: &Option<String>) -> (r:
    String)
    ensures
        r@ == commit_message(
            commit.prefix@,
            commit.max_files_in_summary as nat,
            files.deep_view(),
            stamp.deep_view(),
        ),
{
    let mut message = trim(commit.prefix.as_str());
    message.append(" ");
    if files.len() <= commit.max_files_in_summary {
        let names = join(files, ", ");
        message.append(names.as_str());
    } else {
        let ghost before = message@;
        message.append("updated ");
        push_decimal(&mut message, files.len() as u64);
        message.append(" files");
        assert(message@ == before + ("updated "@ + decimal(files.len() as nat) + " files"@));
    }
    match stamp {
        Some(time) => {
            message.append(" (");
            message.append(time.as_str());
            message.append(")");
        },
        None => {},
    }
    message
}

/// Why the synchroniser could not be set up.
#[derive(Debug, Clone, PartialEq, Eq)]
pub enum DaemonError {
    /// The repository could not be described.
    Git(GitError),
    /// The ignore patterns could not be compiled.
    Ignore(IgnoreError),
}

/// The synchroniser for one working directory and one remote branch.
pub struct SyncDaemon {
    config: Config,
    git: GitFacade,
    ignore: IgnoreMatcher,
}

impl SyncDaemon {
    /// The settings.
    pub closed spec fn config(&self) -> Config {
        self.config
    }

    /// The repository.
    pub closed spec fn git(&self) -> GitFacade {
        self.git
    }

    /// The path filter.
    pub closed spec fn ignore(&self) -> IgnoreMatcher {
        self.ignore
    }

    /// The synchroniser that `config` describes. It fails exactly where the
    /// path filter cannot be made from the ignore patterns, which it can
    /// where they are all blank.
    pub fn new(config: Config) -> (r: Result<SyncDaemon, DaemonError>)
        ensures
            match r {
                Ok(daemon) => {
                    &&& daemon.config() == config
                    &&& GitFacade::describes(daemon.git()@, config)
                    &&& daemon.ignore().root() == config.workdir@
                    &&& daemon.ignore().globs() == builtin_globs() + user_globs(
                        config.ignore.globs.deep_view(),
                    )
                },
                Err(DaemonError::Ignore(error)) => explains(
                    error,
                    config.ignore.globs.deep_view(),
                ),
                Err(DaemonError::Git(_)) => false,
            },
            r is Ok <==> can_build(config.ignore.globs.deep_view()),
            is_blank_pattern_list(config.ignore.globs.deep_view()) ==> r is Ok,
    {
        let git = match GitFacade::new(&config) {
            Ok(git) => git,
            Err(e) => {
                return Err(DaemonError::Git(e));
            },
        };
        let ignore = match IgnoreMatcher::new(config.workdir.as_str(), &config.ignore.globs) {
            Ok(ignore) => ignore,
            Err(e) => {
                return Err(DaemonError::Ignore(e));
            },
        };
        Ok(SyncDaemon { config, git, ignore })
    }

    /// The settings.
    pub fn settings(&self) -> (c: &Config)
        ensures
            *c == self.config(),
    {
        &self.config
    }

    /// The repository.
    pub fn repository(&self) -> (g: &GitFacade)
        ensures
            *g == self.git(),
    {
        &self.git
    }

    /// The path filter.
    pub fn filter(&self) -> (m: &IgnoreMatcher)
        ensures
            *m == self.ignore(),
    {
        &self.ignore
    }

    /// The timing state for a run that starts at `now`.
    pub fn engine(&self, now: u64) -> (e: SyncEngine)
        ensures
            e.wf(),
            e.debounce == self.config().spec_debounce(),
            e.poll_interval == self.config().spec_poll_interval(),
            e.dirty_since is None,
            e.backoff_until is None,
            e.backoff_step == 0,
            !e.stopped,
            e.last_poll == (if now >= e.poll_interval {
                (now - e.poll_interval) as u64
            } else {
                now
            }),
    {
        SyncEngine::start(&self.config, now)
    }

    /// Whether one of the paths is worth a synchronisation: it is not left
    /// out by the path filter. A path that is no text, given as `None`,
    /// cannot be held against the patterns and is not left out.
    pub open spec fn any_relevant(&self, paths: Seq<Option<String>>) -> bool {
        exists|i: int|
            0 <= i < paths.len() && match #[trigger] paths[i] {
                Some(path) => !self.ignore().ignores(path@),
                None => true,
            }
    }

    /// What the watcher's notification means for the engine: a change where
    /// one of the paths is not left out by the path filter, then a rescan
    /// where the notification asks for one.
    pub fn notification_events(&self, paths: &Vec<Option<String>>, need_rescan: bool) -> (events:
        Vec<SyncEvent>)
        ensures
            events@ == (if self.any_relevant(paths@) {
                seq![SyncEvent::Changed]
            } else {
                Seq::<SyncEvent>::empty()
            }) + (if need_rescan {
                seq![SyncEvent::Rescan]
            } else {
                Seq::<SyncEvent>::empty()
            }),
    {
        let mut relevant = false;
        let mut i: usize = 0;
        while i < paths.len()
            invariant
                i <= paths.len(),
                relevant == self.any_relevant(paths@.take(i as int)),
            decreases paths.len() - i,
        {
            let counts = match &paths[i] {
                Some(path) => !self.ignore.should_ignore(path.as_str()),
                None => true,
            };
            proof {
                let before = paths@.take(i as int);
                let after = paths@.take(i + 1);
                assert(after[i as int] == paths@[i as int]);
                if self.any_relevant(before) {
                    let j = choose|j: int|
                        0 <= j < before.len() && match #[trigger] before[j] {
                            Some(path) => !self.ignore().ignores(path@),
                            None => true,
                        };
                    assert(after[j] == before[j]);
                }
                if self.any_relevant(after) && !counts {
                    let j = choose|j: int|
                        0 <= j < after.len() && match #[trigger] after[j] {
                            Some(path) => !self.ignore().ignores(path@),
                            None => true,
                        };
                    assert(before[j] == after[j]);
                }
            }
            if counts {
                relevant = true;
            }
            i += 1;
        }
        assert(paths@.take(paths.len() as int) == paths@);
        let mut events: Vec<SyncEvent> = Vec::new();
        if relevant {
            events.push(SyncEvent::Changed);
        }
        if need_rescan {
            events.push(SyncEvent::Rescan);
        }
        assert(events@ =~= (if relevant {
            seq![SyncEvent::Changed]
        } else {
            Seq::<SyncEvent>::empty()
        }) + (if need_rescan {
            seq![SyncEvent::Rescan]
        } else {
            Seq::<SyncEvent>::empty()
        }));
        events
    }

    /// What the watcher's failure means for the engine.
    pub fn failure_event(message: String) -> (event: SyncEvent)
        ensures
            event == SyncEvent::WatcherError(message),
    {
        SyncEvent::WatcherError(message)
    }

    /// The time to put into the next commit message: the current time where
    /// the settings ask for one and the system clock gives one; none else.
    pub fn commit_timestamp(&self) -> (stamp: Option<String>)
        ensures
            !self.config().commit.include_timestamp ==> stamp is None,
            stamp matches Some(text) ==> exists|clock: Option<u64>|
                #[trigger] clock_text(clock) == Some(text@),
    {
        if self.config.commit.include_timestamp {
            current_timestamp()
        } else {
            None
        }
    }

    /// The commit message for `files`, with the current time where the
    /// settings ask for it and the system clock gives it.
    pub fn build_commit_message(&self, files: &Vec<String>) -> (r: String)
        ensures
            !self.config().commit.include_timestamp ==> r@ == self.message_for(
                files.deep_view(),
                None,
            ),
            self.config().commit.include_timestamp ==> exists|clock: Option<u64>|
                r@ == self.message_for(files.deep_view(), #[trigger] clock_text(clock)),
    {
        let stamp = self.commit_timestamp();
        let r = compose_commit_message(&self.config.commit, files, &stamp);
        proof {
            match stamp {
                Some(text) => {
                    let clock = choose|clock: Option<u64>|
                        #[trigger] clock_text(clock) == Some(text@);
                    assert(r@ == self.message_for(files.deep_view(), clock_text(clock)));
                },
                None => {
                    assert(clock_text(None) is None);
                    assert(r@ == self.message_for(files.deep_view(), clock_text(None)));
                },
            }
        }
        r
    }

    /// The commit message that the settings give for `files` and `stamp`.
    pub open spec fn message_for(&self, files: Seq<Seq<char>>, stamp: Option<Seq<char>>) -> Seq<
        char,
    > {
        commit_message(
            self.config().commit.prefix@,
            self.config().commit.max_files_in_summary as nat,
            files,
            stamp,
        )
    }

    /// One round of synchronisation: stage everything and list what changed;
    /// where nothing did, end with `false`; else commit with the message for
    /// the changed files, rebase onto the remote, push, and end with `true`.
    /// The first failure ends the round.
    pub open spec fn sync_plan(&self, stamp: Option<Seq<char>>, replies: Seq<GitReply>) -> Plan<
        Result<bool, GitErrorView>,
    > {
        let git = self.git()@;
        match git.stage_all(replies) {
            Plan::Run(c) => Plan::Run(c),
            Plan::Done { value: Err(e), used } => Plan::Done { value: Err(e), used },
            Plan::Done { value: Ok(_), used } => match git.list_changed_files(
                replies.skip(used as int),
            ).after(used) {
                Plan::Run(c) => Plan::Run(c),
                Plan::Done { value: Err(e), used } => Plan::Done { value: Err(e), used },
                Plan::Done { value: Ok(files), used } => if files.len() == 0 {
                    Plan::Done { value: Ok(false), used }
                } else {
                    match git.commit(
                        self.message_for(files, stamp),
                        replies.skip(used as int),
                    ).after(used) {
                        Plan::Run(c) => Plan::Run(c),
                        Plan::Done { value: Err(e), used } => Plan::Done { value: Err(e), used },
                        Plan::Done { value: Ok(_), used } => match git.pull_rebase(
                            replies.skip(used as int),
                        ).after(used) {
                            Plan::Run(c) => Plan::Run(c),
                            Plan::Done { value: Err(e), used } => Plan::Done {
                                value: Err(e),
                                used,
                            },
                            Plan::Done { value: Ok(_), used } => match git.push(
                                replies.skip(used as int),
                            ).after(used) {
                                Plan::Run(c) => Plan::Run(c),
                                Plan::Done { value: Err(e), used } => Plan::Done {
                                    value: Err(e),
                                    used,
                                },
                                Plan::Done { value: Ok(_), used } => Plan::Done {
                                    value: Ok(true),
                                    used,
                                },
                            },
                        },
                    }
                },
            },
        }
    }

    /// One round of synchronisation. `stamp` is the time for the commit
    /// message, as [`SyncDaemon::commit_timestamp`] gave it when the round
    /// began.
    pub fn sync_once(&self, session: &mut Session, stamp: &Option<String>) -> (r: Step<
        Result<bool, GitError>,
    >)
        ensures
            follows(
                r,
                *old(session),
                *final(session),
                self.sync_plan(stamp.deep_view(), old(session).pending()),
            ),
    {
        let ghost plan_a = self.git@.stage_all(old(session).pending());
        match self.git.stage_all(session) {
            Step::Run(c) => {
                return Step::Run(c);
            },
            Step::Done(Err(e)) => {
                return Step::Done(Err(e));
            },
            Step::Done(Ok(_)) => {},
        }
        let ghost used_a = GitFacadeView::used_by(plan_a);
        let ghost session_a = *session;
        let ghost plan_b = self.git@.list_changed_files(session_a.pending());
        let listed = self.git.list_changed_files(session);
        proof {
            lemma_follows_after(listed, *old(session), session_a, *session, plan_b, used_a);
        }
        let files = match listed {
            Step::Run(c) => {
                return Step::Run(c);
            },
            Step::Done(Err(e)) => {
                return Step::Done(Err(e));
            },
            Step::Done(Ok(files)) => files,
        };
        if files.len() == 0 {
            return Step::Done(Ok(false));
        }
        let ghost used_b = GitFacadeView::used_by(plan_b.after(used_a));
        let ghost session_b = *session;
        let message = compose_commit_message(&self.config.commit, &files, stamp);
        let ghost plan_c = self.git@.commit(message@, session_b.pending());
        let committed = self.git.commit(session, message.as_str());
        proof {
            lemma_follows_after(committed, *old(session), session_b, *session, plan_c, used_b);
        }
        match committed {
            Step::Run(c) => {
                return Step::Run(c);
            },
            Step::Done(Err(e)) => {
                return Step::Done(Err(e));
            },
            Step::Done(Ok(_)) => {},
        }
        let ghost used_c = GitFacadeView::used_by(plan_c.after(used_b));
        let ghost session_c = *session;
        let ghost plan_d = self.git@.pull_rebase(session_c.pending());
        let pulled = self.git.pull_rebase(session);
        proof {
            lemma_follows_after(pulled, *old(session), session_c, *session, plan_d, used_c);
        }
        match pulled {
            Step::Run(c) => {
                return Step::Run(c);
            },
            Step::Done(Err(e)) => {
                return Step::Done(Err(e));
            },
            Step::Done(Ok(_)) => {},
        }
        let ghost used_d = GitFacadeView::used_by(plan_d.after(used_c));
        let ghost session_d = *session;
        let ghost plan_e = self.git@.push(session_d.pending());
        let pushed = self.git.push(session);
        proof {
            lemma_follows_after(pushed, *old(session), session_d, *session, plan_e, used_d);
        }
        match pushed {
            Step::Run(c) => Step::Run(c),
            Step::Done(Err(e)) => Step::Done(Err(e)),
            Step::Done(Ok(_)) => Step::Done(Ok(true)),
        }
    }

    /// A look at the remote: a rebase onto it, and nothing else.
    pub fn pull_remote(&self, session: &mut Session) -> (r: Step<Result<(), GitError>>)
        ensures
            follows(
                r,
                *old(session),
                *final(session),
                self.git()@.pull_rebase(old(session).pending()),
            ),
    {
        self.git.pull_rebase(session)
    }
}

/// A round of synchronisation ends: with eleven replies in hand it asks for
/// nothing more.
pub proof fn lemma_sync_ends(daemon: SyncDaemon, stamp: Option<Seq<char>>, replies: Seq<GitReply>)
    requires
        replies.len() >= 11,
    ensures
        ends_within(daemon.sync_plan(stamp, replies), 11),
{
    let git = daemon.git()@;
    match git.list_changed_files(replies.skip(1)).after(1) {
        Plan::Done { value: Ok(files), used: _ } => {
            let message = daemon.message_for(files, stamp);
            lemma_commit_ends(git, message, replies.skip(2));
            match git.commit(message, replies.skip(2)).after(2) {
                Plan::Done { value: Ok(_), used: after_commit } => {
                    lemma_pull_rebase_ends(git, replies.skip(after_commit as int));
                    match git.pull_rebase(replies.skip(after_commit as int)).after(after_commit) {
                        Plan::Done { value: Ok(_), used: after_pull } => {
                            assert(replies.skip(after_pull as int).len() > 0);
                        },
                        _ => {},
                    }
                },
                _ => {},
            }
        },
        _ => {},
    }
}

/// A round on a tree without changes makes no commit and contacts no
/// remote: after staging and the status it ends with `false`.
pub proof fn lemma_sync_on_unchanged_tree(
    daemon: SyncDaemon,
    stamp: Option<Seq<char>>,
    replies: Seq<GitReply>,
)
    requires
        replies.len() >= 2,
        replies[0].succeeded(),
        replies[1].succeeded(),
        changed_paths(replies[1].output()).len() == 0,
    ensures
        daemon.sync_plan(stamp, replies) == (Plan::Done {
            value: Ok::<bool, GitErrorView>(false),
            used: 2,
        }),
{
    assert(replies.skip(1)[0] == replies[1]);
}

/// Once a round of synchronisation has ended, replies that are recorded
/// after those it used change nothing: it has ended with the same result.
#[verifier::rlimit(80)]
pub proof fn lemma_sync_is_settled(
    daemon: SyncDaemon,
    stamp: Option<Seq<char>>,
    replies: Seq<GitReply>,
    more: Seq<GitReply>,
)
    requires
        daemon.sync_plan(stamp, replies) is Done,
    ensures
        daemon.sync_plan(stamp, replies + more) == daemon.sync_plan(stamp, replies),
{
    let git = daemon.git()@;
    lemma_skip_of_longer(replies, more);
    if replies.len() > 0 {
        assert((replies + more).skip(1) == replies.skip(1) + more);
    }
    if replies.len() > 1 {
        assert((replies + more).skip(2) == replies.skip(2) + more);
        match git.list_changed_files(replies.skip(1)).after(1) {
            Plan::Done { value: Ok(files), used: _ } => {
                if files.len() > 0 && replies[0].succeeded() {
                    let message = daemon.message_for(files, stamp);
                    let rest = replies.skip(2);
                    lemma_commit_is_settled(git, message, rest, more);
                    lemma_skip_of_longer(rest, more);
                    match git.commit(message, rest) {
                        Plan::Done { value: Ok(_), used: committed } => {
                            let later = rest.skip(committed as int);
                            assert((rest + more).skip(committed as int) == later + more);
                            assert(later == replies.skip(2 + committed as int));
                            lemma_pull_rebase_is_settled(git, later, more);
                            lemma_skip_of_longer(later, more);
                            match git.pull_rebase(later) {
                                Plan::Done { value: Ok(_), used: pulled } => {
                                    let last = later.skip(pulled as int);
                                    assert((later + more).skip(pulled as int) == last + more);
                                    assert(last == replies.skip(2 + committed as int + pulled as int));
                                    assert((replies + more).skip(2 + committed as int + pulled as int) == last
                                        + more);
                                },
                                _ => {},
                            }
                        },
                        _ => {},
                    }
                }
            },
            _ => {},
        }
    }
}

} // verus!
