use dailylog::calendar::Moment;
use dailylog::config::{load_config, Config, ConfigFile};
use dailylog::date::{ClockTime, Date};
use dailylog::git::{
    auto_sync_if_enabled, git_args, git_pull, git_push, git_sync, init_git_repo, sync_step,
    GitCommand, Notice, SyncAction, SyncError, SyncEvent, SyncMode, SyncState, SyncStep,
};

fn config(repo: Option<&str>, auto: Option<bool>) -> Config {
    let file = ConfigFile {
        log_dir: Some("/logs".to_string()),
        git_repo: repo.map(|r| r.to_string()),
        git_auto_sync: auto,
        git_branch_name: Some("main".to_string()),
        summary_days: None,
    };
    load_config(Some("/h"), Some(file)).expect("the home directory is known")
}

fn play(mode: SyncMode, configured: bool, events: &[SyncEvent]) -> Vec<SyncStep> {
    let mut state = SyncState::Start;
    let mut steps = Vec::new();
    for event in events {
        let step = sync_step(mode, configured, state, *event);
        state = step.state;
        steps.push(step);
    }
    steps
}

fn actions(steps: &[SyncStep]) -> Vec<SyncAction> {
    steps.iter().map(|s| s.action).collect()
}

fn now() -> Moment {
    Moment {
        date: Date { year: 2024, month: 1, day: 15 },
        time: ClockTime { hour: 14, minute: 30 },
    }
}

#[test]
fn sync_of_an_existing_repository_pulls_then_pushes() {
    let steps = play(
        SyncMode::Sync,
        true,
        &[
            SyncEvent::Begin,
            SyncEvent::IsRepo(true),
            SyncEvent::IsRepo(true),
            SyncEvent::Succeeded,
            SyncEvent::IsRepo(true),
            SyncEvent::Succeeded,
            SyncEvent::Status(false),
            SyncEvent::Succeeded,
            SyncEvent::Succeeded,
        ],
    );
    assert_eq!(
        actions(&steps),
        vec![
            SyncAction::AskIsRepo,
            SyncAction::AskIsRepo,
            SyncAction::Run(GitCommand::Pull),
            SyncAction::AskIsRepo,
            SyncAction::Run(GitCommand::AddLogs),
            SyncAction::Run(GitCommand::Status),
            SyncAction::Run(GitCommand::Commit),
            SyncAction::Run(GitCommand::Push),
            SyncAction::Done,
        ]
    );
    let notices: Vec<Option<Notice>> = steps.iter().map(|s| s.notice).collect();
    assert_eq!(
        notices,
        vec![
            None,
            None,
            Some(Notice::Pulling),
            Some(Notice::Pulled),
            None,
            None,
            None,
            Some(Notice::Pushing),
            Some(Notice::Pushed),
        ]
    );
}

#[test]
fn sync_sets_a_new_repository_up_first() {
    let steps = play(
        SyncMode::Sync,
        true,
        &[
            SyncEvent::Begin,
            SyncEvent::IsRepo(false),
            SyncEvent::Succeeded,
            SyncEvent::Succeeded,
            SyncEvent::Failed,
            SyncEvent::Succeeded,
            SyncEvent::IsRepo(true),
        ],
    );
    assert_eq!(
        actions(&steps),
        vec![
            SyncAction::AskIsRepo,
            SyncAction::Run(GitCommand::Init),
            SyncAction::Run(GitCommand::AddRemote),
            SyncAction::Run(GitCommand::Pull),
            SyncAction::Run(GitCommand::CreateBranch),
            SyncAction::AskIsRepo,
            SyncAction::Run(GitCommand::Pull),
        ]
    );
    assert_eq!(steps[1].notice, Some(Notice::Initializing));
    assert_eq!(steps[4].notice, Some(Notice::CouldNotPull));
}

#[test]
fn sync_without_a_repository_in_the_settings_fails() {
    let steps = play(SyncMode::Sync, false, &[SyncEvent::Begin]);
    assert_eq!(actions(&steps), vec![SyncAction::Fail(SyncError::NoRepoConfigured)]);
    assert_eq!(steps[0].state, SyncState::Finished);
    let step = git_sync(&config(None, Some(true)), SyncState::Start, SyncEvent::Begin);
    assert_eq!(step.action, SyncAction::Fail(SyncError::NoRepoConfigured));
    let step = git_sync(&config(Some("u"), None), SyncState::Start, SyncEvent::Begin);
    assert_eq!(step.action, SyncAction::AskIsRepo);
    assert_eq!(step.state, SyncState::RepoCheck);
}

#[test]
fn a_failed_command_ends_the_run() {
    for state in [
        SyncState::Initializing,
        SyncState::AddingRemote,
        SyncState::CreatingBranch,
        SyncState::Pulling,
        SyncState::Staging,
        SyncState::ReadingStatus,
        SyncState::Committing,
        SyncState::Pushing,
    ] {
        let step = sync_step(SyncMode::Sync, true, state, SyncEvent::Failed);
        assert_eq!(step.action, SyncAction::Fail(SyncError::CommandFailed));
        assert_eq!(step.state, SyncState::Finished);
    }
}

#[test]
fn pull_and_push_need_a_repository() {
    let c = config(None, None);
    let step = git_pull(&c, SyncState::Start, SyncEvent::Begin);
    assert_eq!((step.state, step.action), (SyncState::PullCheck, SyncAction::AskIsRepo));
    let step = git_pull(&c, SyncState::PullCheck, SyncEvent::IsRepo(false));
    assert_eq!(step.action, SyncAction::Fail(SyncError::NotARepository));
    let step = git_push(&c, SyncState::Start, SyncEvent::Begin);
    assert_eq!((step.state, step.action), (SyncState::PushCheck, SyncAction::AskIsRepo));
    let step = git_push(&c, SyncState::PushCheck, SyncEvent::IsRepo(false));
    assert_eq!(step.action, SyncAction::Fail(SyncError::NotARepository));
}

#[test]
fn pull_alone_stops_after_the_pull() {
    let steps = play(
        SyncMode::Pull,
        false,
        &[SyncEvent::Begin, SyncEvent::IsRepo(true), SyncEvent::Succeeded],
    );
    assert_eq!(
        actions(&steps),
        vec![SyncAction::AskIsRepo, SyncAction::Run(GitCommand::Pull), SyncAction::Done]
    );
    assert_eq!(steps[2].notice, Some(Notice::Pulled));
}

#[test]
fn push_without_changes_stops_after_the_status() {
    let steps = play(
        SyncMode::Push,
        false,
        &[
            SyncEvent::Begin,
            SyncEvent::IsRepo(true),
            SyncEvent::Succeeded,
            SyncEvent::Status(true),
        ],
    );
    assert_eq!(
        actions(&steps),
        vec![
            SyncAction::AskIsRepo,
            SyncAction::Run(GitCommand::AddLogs),
            SyncAction::Run(GitCommand::Status),
            SyncAction::Done,
        ]
    );
    assert_eq!(steps[3].notice, Some(Notice::NoChanges));
}

#[test]
fn init_alone_leaves_an_existing_repository_alone() {
    let c = config(Some("url"), None);
    let step = init_git_repo(&c, SyncState::Start, SyncEvent::Begin);
    assert_eq!(step.action, SyncAction::AskIsRepo);
    let step = init_git_repo(&c, SyncState::RepoCheck, SyncEvent::IsRepo(true));
    assert_eq!(step.action, SyncAction::Done);
    assert_eq!(step.notice, Some(Notice::AlreadyInitialized));
    let step = init_git_repo(&c, SyncState::FirstPull, SyncEvent::Succeeded);
    assert_eq!(step.action, SyncAction::Done);
    let step = init_git_repo(&c, SyncState::CreatingBranch, SyncEvent::Succeeded);
    assert_eq!(step.action, SyncAction::Done);
}

#[test]
fn an_event_that_answers_nothing_is_refused() {
    let step = sync_step(SyncMode::Sync, true, SyncState::Start, SyncEvent::Succeeded);
    assert_eq!(step.action, SyncAction::Fail(SyncError::UnexpectedEvent));
    let step = sync_step(SyncMode::Sync, true, SyncState::PullCheck, SyncEvent::Failed);
    assert_eq!(step.action, SyncAction::Fail(SyncError::UnexpectedEvent));
    let step = sync_step(SyncMode::Sync, true, SyncState::Finished, SyncEvent::Begin);
    assert_eq!(step.action, SyncAction::Fail(SyncError::UnexpectedEvent));
    let step = sync_step(SyncMode::Push, true, SyncState::Pulling, SyncEvent::Status(true));
    assert_eq!(step.action, SyncAction::Fail(SyncError::UnexpectedEvent));
}

#[test]
fn auto_sync_needs_the_flag_and_a_repository() {
    assert!(auto_sync_if_enabled(&config(Some("u"), Some(true))));
    assert!(!auto_sync_if_enabled(&config(Some("u"), Some(false))));
    assert!(!auto_sync_if_enabled(&config(Some("u"), None)));
    assert!(!auto_sync_if_enabled(&config(None, Some(true))));
}

#[test]
fn arguments_of_each_command() {
    let args = |c| git_args(c, "https://example.org/r.git", "main", now());
    assert_eq!(args(GitCommand::Init), vec!["init"]);
    assert_eq!(
        args(GitCommand::AddRemote),
        vec!["remote", "add", "origin", "https://example.org/r.git"]
    );
    assert_eq!(args(GitCommand::Pull), vec!["pull", "origin", "main"]);
    assert_eq!(args(GitCommand::CreateBranch), vec!["checkout", "-b", "main"]);
    assert_eq!(args(GitCommand::AddLogs), vec!["add", "*.md"]);
    assert_eq!(args(GitCommand::Status), vec!["status", "--porcelain"]);
    assert_eq!(
        args(GitCommand::Commit),
        vec!["commit", "-m", "Update logs - 2024-01-15 14:30"]
    );
    assert_eq!(args(GitCommand::Push), vec!["push", "origin", "main"]);
}
