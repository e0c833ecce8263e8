//! Synchronising the log directory through git, as a sequence of decisions.
//!
//! Running git and looking at the disk is left to the caller. This module
//! decides what comes next: the caller starts in `SyncState::Start` with
//! `SyncEvent::Begin`, does what the returned step asks, reports what
//! happened as the next event, and goes on until a step ends the run.

use crate::calendar::Moment;
use crate::config::Config;
use crate::date::{clock_chars, clock_text, date_chars, date_text};
use crate::text::{chars_of, push_all, string_from, texts};
use vstd::prelude::*;

verus! {

/// What a run is for.
#[derive(Clone, Copy, Debug, PartialEq, Eq, Structural)]
pub enum SyncMode {
    /// Make sure the repository exists, then pull, then push.
    Sync,
    /// Make sure the repository exists.
    Init,
    /// Pull only.
    Pull,
    /// Stage, commit and push only.
    Push,
}

/// How far a run has come: what was asked for last.
#[derive(Clone, Copy, Debug, PartialEq, Eq, Structural)]
pub enum SyncState {
    Start,
    /// Asked whether the directory is a repository, before setting one up.
    RepoCheck,
    /// Ran `git init`.
    Initializing,
    /// Ran `git remote add`.
    AddingRemote,
    /// Ran the first pull of a new repository.
    FirstPull,
    /// Ran `git checkout -b`.
    CreatingBranch,
    /// Asked whether the directory is a repository, before pulling.
    PullCheck,
    /// Ran `git pull`.
    Pulling,
    /// Asked whether the directory is a repository, before pushing.
    PushCheck,
    /// Ran `git add`.
    Staging,
    /// Ran `git status`.
    ReadingStatus,
    /// Ran `git commit`.
    Committing,
    /// Ran `git push`.
    Pushing,
    /// The run is over.
    Finished,
}

/// What happened to the last thing that was asked for.
#[derive(Clone, Copy, Debug, PartialEq, Eq, Structural)]
pub enum SyncEvent {
    /// Nothing was asked for yet.
    Begin,
    /// Whether the directory is a repository.
    IsRepo(bool),
    /// The command ran and succeeded.
    Succeeded,
    /// The command could not be run, or failed.
    Failed,
    /// `git status` ran; the flag says whether it reported no change.
    Status(bool),
}

/// A git command, without its arguments.
#[derive(Clone, Copy, Debug, PartialEq, Eq, Structural)]
pub enum GitCommand {
    Init,
    AddRemote,
    Pull,
    CreateBranch,
    AddLogs,
    Status,
    Commit,
    Push,
}

/// Why a run failed.
#[derive(Clone, Copy, Debug, PartialEq, Eq, Structural)]
pub enum SyncError {
    /// The settings name no repository.
    NoRepoConfigured,
    /// The log directory is not a repository.
    NotARepository,
    /// The last command failed.
    CommandFailed,
    /// The event does not answer what was asked for.
    UnexpectedEvent,
}

/// Something to tell the user.
#[derive(Clone, Copy, Debug, PartialEq, Eq, Structural)]
pub enum Notice {
    AlreadyInitialized,
    Initializing,
    /// The first pull failed, as it does for a new remote.
    CouldNotPull,
    Pulling,
    Pulled,
    NoChanges,
    Pushing,
    Pushed,
}

/// What the caller is to do next.
#[derive(Clone, Copy, Debug, PartialEq, Eq, Structural)]
pub enum SyncAction {
    /// Find out whether the log directory is a repository.
    AskIsRepo,
    /// Run the command in the log directory.
    Run(GitCommand),
    /// Stop: the run succeeded.
    Done,
    /// Stop: the run failed.
    Fail(SyncError),
}

/// One step of a run.
#[derive(Clone, Copy, Debug, PartialEq, Eq, Structural)]
pub struct SyncStep {
    /// The state to go on from.
    pub state: SyncState,
    /// What to tell the user before acting.
    pub notice: Option<Notice>,
    /// What to do.
    pub action: SyncAction,
}

/// A step that asks whether the directory is a repository.
pub open spec fn ask(state: SyncState) -> SyncStep {
    SyncStep { state, notice: None, action: SyncAction::AskIsRepo }
}

/// A step that runs a command.
pub open spec fn run(state: SyncState, notice: Option<Notice>, command: GitCommand) -> SyncStep {
    SyncStep { state, notice, action: SyncAction::Run(command) }
}

/// A step that ends the run in success.
pub open spec fn done(notice: Option<Notice>) -> SyncStep {
    SyncStep { state: SyncState::Finished, notice, action: SyncAction::Done }
}

/// A step that ends the run in failure.
pub open spec fn fail(error: SyncError) -> SyncStep {
    SyncStep { state: SyncState::Finished, notice: None, action: SyncAction::Fail(error) }
}

/// The step that begins the pull, once the repository is known to be set up.
pub open spec fn after_setup(mode: SyncMode) -> SyncStep {
    if mode == SyncMode::Init {
        done(None)
    } else {
        ask(SyncState::PullCheck)
    }
}

/// The step that follows when `event` answers what was asked for in `state`.
///
/// A run that is to set up the repository needs one in the settings. A
/// directory that is no repository is set up by `init`, `remote add` and a
/// first pull; when that pull fails, the branch is created instead. Pulling
/// and pushing each ask first whether the directory is a repository, and
/// fail when it is not. Pushing stages the log files and stops when git
/// reports no change; otherwise it commits and pushes. A command that fails
/// ends the run, the first pull excepted.
pub open spec fn transition(
    mode: SyncMode,
    repo_configured: bool,
    state: SyncState,
    event: SyncEvent,
) -> SyncStep {
    match (state, event) {
        (SyncState::Start, SyncEvent::Begin) => match mode {
            SyncMode::Sync | SyncMode::Init => if repo_configured {
                ask(SyncState::RepoCheck)
            } else {
                fail(SyncError::NoRepoConfigured)
            },
            SyncMode::Pull => ask(SyncState::PullCheck),
            SyncMode::Push => ask(SyncState::PushCheck),
        },
        (SyncState::RepoCheck, SyncEvent::IsRepo(true)) => if mode == SyncMode::Init {
            done(Some(Notice::AlreadyInitialized))
        } else {
            ask(SyncState::PullCheck)
        },
        (SyncState::RepoCheck, SyncEvent::IsRepo(false)) => run(
            SyncState::Initializing,
            Some(Notice::Initializing),
            GitCommand::Init,
        ),
        (SyncState::Initializing, SyncEvent::Succeeded) => run(
            SyncState::AddingRemote,
            None,
            GitCommand::AddRemote,
        ),
        (SyncState::AddingRemote, SyncEvent::Succeeded) => run(
            SyncState::FirstPull,
            None,
            GitCommand::Pull,
        ),
        (SyncState::FirstPull, SyncEvent::Succeeded) => after_setup(mode),
        (SyncState::FirstPull, SyncEvent::Failed) => run(
            SyncState::CreatingBranch,
            Some(Notice::CouldNotPull),
            GitCommand::CreateBranch,
        ),
        (SyncState::CreatingBranch, SyncEvent::Succeeded) => after_setup(mode),
        (SyncState::PullCheck, SyncEvent::IsRepo(true)) => run(
            SyncState::Pulling,
            Some(Notice::Pulling),
            GitCommand::Pull,
        ),
        (SyncState::PullCheck, SyncEvent::IsRepo(false)) => fail(SyncError::NotARepository),
        (SyncState::Pulling, SyncEvent::Succeeded) => if mode == SyncMode::Pull {
            done(Some(Notice::Pulled))
        } else {
            SyncStep {
                state: SyncState::PushCheck,
                notice: Some(Notice::Pulled),
                action: SyncAction::AskIsRepo,
            }
        },
        (SyncState::PushCheck, SyncEvent::IsRepo(true)) => run(
            SyncState::Staging,
            None,
            GitCommand::AddLogs,
        ),
        (SyncState::PushCheck, SyncEvent::IsRepo(false)) => fail(SyncError::NotARepository),
        (SyncState::Staging, SyncEvent::Succeeded) => run(
            SyncState::ReadingStatus,
            None,
            GitCommand::Status,
        ),
        (SyncState::ReadingStatus, SyncEvent::Status(true)) => done(Some(Notice::NoChanges)),
        (SyncState::ReadingStatus, SyncEvent::Status(false)) => run(
            SyncState::Committing,
            None,
            GitCommand::Commit,
        ),
        (SyncState::Committing, SyncEvent::Succeeded) => run(
            SyncState::Pushing,
            Some(Notice::Pushing),
            GitCommand::Push,
        ),
        (SyncState::Pushing, SyncEvent::Succeeded) => done(Some(Notice::Pushed)),
        (s, SyncEvent::Failed) => if runs_command(s) {
            fail(SyncError::CommandFailed)
        } else {
            fail(SyncError::UnexpectedEvent)
        },
        _ => fail(SyncError::UnexpectedEvent),
    }
}

/// Whether a command was run to reach `state`, so that the next event
/// reports on a command.
pub open spec fn runs_command(state: SyncState) -> bool {
    match state {
        SyncState::Initializing
        | SyncState::AddingRemote
        | SyncState::FirstPull
        | SyncState::CreatingBranch
        | SyncState::Pulling
        | SyncState::Staging
        | SyncState::ReadingStatus
        | SyncState::Committing
        | SyncState::Pushing => true,
        _ => false,
    }
}

/// How many steps a run in `state` can still take, at most.
pub open spec fn steps_left(state: SyncState) -> nat {
    match state {
        SyncState::Start => 14,
        SyncState::RepoCheck => 13,
        SyncState::Initializing => 12,
        SyncState::AddingRemote => 11,
        SyncState::FirstPull => 10,
        SyncState::CreatingBranch => 9,
        SyncState::PullCheck => 8,
        SyncState::Pulling => 7,
        SyncState::PushCheck => 6,
        SyncState::Staging => 5,
        SyncState::ReadingStatus => 4,
        SyncState::Committing => 3,
        SyncState::Pushing => 2,
        SyncState::Finished => 0,
    }
}

fn step_ask(state: SyncState) -> (step: SyncStep)
    ensures
        step == ask(state),
{
    SyncStep { state, notice: None, action: SyncAction::AskIsRepo }
}

fn step_run(state: SyncState, notice: Option<Notice>, command: GitCommand) -> (step: SyncStep)
    ensures
        step == run(state, notice, command),
{
    SyncStep { state, notice, action: SyncAction::Run(command) }
}

fn step_done(notice: Option<Notice>) -> (step: SyncStep)
    ensures
        step == done(notice),
{
    SyncStep { state: SyncState::Finished, notice, action: SyncAction::Done }
}

fn step_fail(error: SyncError) -> (step: SyncStep)
    ensures
        step == fail(error),
{
    SyncStep { state: SyncState::Finished, notice: None, action: SyncAction::Fail(error) }
}

fn step_after_setup(mode: SyncMode) -> (step: SyncStep)
    ensures
        step == after_setup(mode),
{
    match mode {
        SyncMode::Init => step_done(None),
        _ => step_ask(SyncState::PullCheck),
    }
}

/// Decides the next step of a run. The run cannot go on for ever: every step
/// that does not end it leaves fewer steps to take.
pub fn sync_step(mode: SyncMode, repo_configured: bool, state: SyncState, event: SyncEvent) -> (step:
    SyncStep)
    ensures
        step == transition(mode, repo_configured, state, event),
        step.action is Done || step.action is Fail || steps_left(step.state) < steps_left(state),
        (step.action is Done || step.action is Fail) <==> step.state == SyncState::Finished,
{
    match state {
        SyncState::Start => match event {
            SyncEvent::Begin => match mode {
                SyncMode::Sync | SyncMode::Init => {
                    if repo_configured {
                        step_ask(SyncState::RepoCheck)
                    } else {
                        step_fail(SyncError::NoRepoConfigured)
                    }
                },
                SyncMode::Pull => step_ask(SyncState::PullCheck),
                SyncMode::Push => step_ask(SyncState::PushCheck),
            },
            _ => step_fail(SyncError::UnexpectedEvent),
        },
        SyncState::RepoCheck => match event {
            SyncEvent::IsRepo(true) => match mode {
                SyncMode::Init => step_done(Some(Notice::AlreadyInitialized)),
                _ => step_ask(SyncState::PullCheck),
            },
            SyncEvent::IsRepo(false) => step_run(
                SyncState::Initializing,
                Some(Notice::Initializing),
                GitCommand::Init,
            ),
            _ => step_fail(SyncError::UnexpectedEvent),
        },
        SyncState::Initializing => match event {
            SyncEvent::Succeeded => step_run(SyncState::AddingRemote, None, GitCommand::AddRemote),
            SyncEvent::Failed => step_fail(SyncError::CommandFailed),
            _ => step_fail(SyncError::UnexpectedEvent),
        },
        SyncState::AddingRemote => match event {
            SyncEvent::Succeeded => step_run(SyncState::FirstPull, None, GitCommand::Pull),
            SyncEvent::Failed => step_fail(SyncError::CommandFailed),
            _ => step_fail(SyncError::UnexpectedEvent),
        },
        SyncState::FirstPull => match event {
            SyncEvent::Succeeded => step_after_setup(mode),
            SyncEvent::Failed => step_run(
                SyncState::CreatingBranch,
                Some(Notice::CouldNotPull),
                GitCommand::CreateBranch,
            ),
            _ => step_fail(SyncError::UnexpectedEvent),
        },
        SyncState::CreatingBranch => match event {
            SyncEvent::Succeeded => step_after_setup(mode),
            SyncEvent::Failed => step_fail(SyncError::CommandFailed),
            _ => step_fail(SyncError::UnexpectedEvent),
        },
        SyncState::PullCheck => match event {
            SyncEvent::IsRepo(true) => step_run(
                SyncState::Pulling,
                Some(Notice::Pulling),
                GitCommand::Pull,
            ),
            SyncEvent::IsRepo(false) => step_fail(SyncError::NotARepository),
            _ => step_fail(SyncError::UnexpectedEvent),
        },
        SyncState::Pulling => match event {
            SyncEvent::Succeeded => match mode {
                SyncMode::Pull => step_done(Some(Notice::Pulled)),
                _ => SyncStep {
                    state: SyncState::PushCheck,
                    notice: Some(Notice::Pulled),
                    action: SyncAction::AskIsRepo,
                },
            },
            SyncEvent::Failed => step_fail(SyncError::CommandFailed),
            _ => step_fail(SyncError::UnexpectedEvent),
        },
        SyncState::PushCheck => match event {
            SyncEvent::IsRepo(true) => step_run(SyncState::Staging, None, GitCommand::AddLogs),
            SyncEvent::IsRepo(false) => step_fail(SyncError::NotARepository),
            _ => step_fail(SyncError::UnexpectedEvent),
        },
        SyncState::Staging => match event {
            SyncEvent::Succeeded => step_run(SyncState::ReadingStatus, None, GitCommand::Status),
            SyncEvent::Failed => step_fail(SyncError::CommandFailed),
            _ => step_fail(SyncError::UnexpectedEvent),
        },
        SyncState::ReadingStatus => match event {
            SyncEvent::Status(true) => step_done(Some(Notice::NoChanges)),
            SyncEvent::Status(false) => step_run(SyncState::Committing, None, GitCommand::Commit),
            SyncEvent::Failed => step_fail(SyncError::CommandFailed),
            _ => step_fail(SyncError::UnexpectedEvent),
        },
        SyncState::Committing => match event {
            SyncEvent::Succeeded => step_run(
                SyncState::Pushing,
                Some(Notice::Pushing),
                GitCommand::Push,
            ),
            SyncEvent::Failed => step_fail(SyncError::CommandFailed),
            _ => step_fail(SyncError::UnexpectedEvent),
        },
        SyncState::Pushing => match event {
            SyncEvent::Succeeded => step_done(Some(Notice::Pushed)),
            SyncEvent::Failed => step_fail(SyncError::CommandFailed),
            _ => step_fail(SyncError::UnexpectedEvent),
        },
        SyncState::Finished => step_fail(SyncError::UnexpectedEvent),
    }
}

/// Decides the next step of a full synchronisation: set the repository up
/// if need be, pull, then push.
pub fn git_sync(config: &Config, state: SyncState, event: SyncEvent) -> (step: SyncStep)
    ensures
        step == transition(SyncMode::Sync, config.git_repo is Some, state, event),
        step.action is Done || step.action is Fail || steps_left(step.state) < steps_left(state),
{
    sync_step(SyncMode::Sync, config.git_repo.is_some(), state, event)
}

/// Decides the next step of setting the repository up.
pub fn init_git_repo(config: &Config, state: SyncState, event: SyncEvent) -> (step: SyncStep)
    ensures
        step == transition(SyncMode::Init, config.git_repo is Some, state, event),
        step.action is Done || step.action is Fail || steps_left(step.state) < steps_left(state),
{
    sync_step(SyncMode::Init, config.git_repo.is_some(), state, event)
}

/// Decides the next step of a pull.
pub fn git_pull(config: &Config, state: SyncState, event: SyncEvent) -> (step: SyncStep)
    ensures
        step == transition(SyncMode::Pull, config.git_repo is Some, state, event),
        step.action is Done || step.action is Fail || steps_left(step.state) < steps_left(state),
{
    sync_step(SyncMode::Pull, config.git_repo.is_some(), state, event)
}

/// Decides the next step of a push.
pub fn git_push(config: &Config, state: SyncState, event: SyncEvent) -> (step: SyncStep)
    ensures
        step == transition(SyncMode::Push, config.git_repo is Some, state, event),
        step.action is Done || step.action is Fail || steps_left(step.state) < steps_left(state),
{
    sync_step(SyncMode::Push, config.git_repo.is_some(), state, event)
}

/// Whether to synchronise after an entry was written: only when the settings
/// ask for it and name a repository.
pub fn auto_sync_if_enabled(config: &Config) -> (sync: bool)
    ensures
        sync == (config.git_auto_sync == Some(true) && config.git_repo is Some),
{
    let enabled = match config.git_auto_sync {
        Some(flag) => flag,
        None => false,
    };
    enabled && config.git_repo.is_some()
}

/// The message of the commit made at `now`: `Update logs - YYYY-MM-DD HH:MM`.
pub open spec fn commit_message(now: Moment) -> Seq<char> {
    "Update logs - "@ + date_text(now.date) + seq![' '] + clock_text(now.time)
}

/// The arguments that git is run with for `command`.
pub open spec fn command_line(command: GitCommand, url: Seq<char>, branch: Seq<char>, now: Moment)
    -> Seq<Seq<char>> {
    match command {
        GitCommand::Init => seq!["init"@],
        GitCommand::AddRemote => seq!["remote"@, "add"@, "origin"@, url],
        GitCommand::Pull => seq!["pull"@, "origin"@, branch],
        GitCommand::CreateBranch => seq!["checkout"@, "-b"@, branch],
        GitCommand::AddLogs => seq!["add"@, "*.md"@],
        GitCommand::Status => seq!["status"@, "--porcelain"@],
        GitCommand::Commit => seq!["commit"@, "-m"@, commit_message(now)],
        GitCommand::Push => seq!["push"@, "origin"@, branch],
    }
}

fn argument_list(first: &str, second: Option<&str>, third: Option<&str>, last: Option<String>) -> (args:
    Vec<String>)
    ensures
        texts(args@) == seq![first@] + match second {
            Some(a) => seq![a@],
            None => Seq::empty(),
        } + match third {
            Some(a) => seq![a@],
            None => Seq::empty(),
        } + match last {
            Some(a) => seq![a@],
            None => Seq::empty(),
        },
{
    let mut args: Vec<String> = Vec::new();
    args.push(first.to_owned());
    match second {
        Some(a) => {
            args.push(a.to_owned());
        },
        None => {},
    }
    match third {
        Some(a) => {
            args.push(a.to_owned());
        },
        None => {},
    }
    match last {
        Some(a) => {
            args.push(a);
        },
        None => {},
    }
    proof {
        assert(texts(args@) =~= seq![first@] + match second {
            Some(a) => seq![a@],
            None => Seq::empty(),
        } + match third {
            Some(a) => seq![a@],
            None => Seq::empty(),
        } + match last {
            Some(a) => seq![a@],
            None => Seq::empty(),
        });
    }
    args
}

/// The arguments to run git with for `command`, with the remote `repo_url`
/// and the branch `branch`; a commit made at `now` says so in its message.
pub fn git_args(command: GitCommand, repo_url: &str, branch: &str, now: Moment) -> (args: Vec<
    String,
>)
    ensures
        texts(args@) == command_line(command, repo_url@, branch@, now),
{
    let args = match command {
        GitCommand::Init => argument_list("init", None, None, None),
        GitCommand::AddRemote => argument_list(
            "remote",
            Some("add"),
            Some("origin"),
            Some(repo_url.to_owned()),
        ),
        GitCommand::Pull => argument_list("pull", Some("origin"), None, Some(branch.to_owned())),
        GitCommand::CreateBranch => argument_list(
            "checkout",
            Some("-b"),
            None,
            Some(branch.to_owned()),
        ),
        GitCommand::AddLogs => argument_list("add", Some("*.md"), None, None),
        GitCommand::Status => argument_list("status", Some("--porcelain"), None, None),
        GitCommand::Commit => {
            let mut message = chars_of("Update logs - ");
            let date = date_chars(now.date);
            push_all(&mut message, &date);
            message.push(' ');
            let time = clock_chars(now.time);
            push_all(&mut message, &time);
            proof {
                assert(message@ =~= commit_message(now));
            }
            argument_list("commit", Some("-m"), None, Some(string_from(&message)))
        },
        GitCommand::Push => argument_list("push", Some("origin"), None, Some(branch.to_owned())),
    };
    proof {
        assert(texts(args@) =~= command_line(command, repo_url@, branch@, now));
    }
    args
}

} // verus!
