use rpatchur::updater::{
    install_dir, stale_extension, updater_advance, updater_start, UpdaterAction, UpdaterReply,
    LOCK_POLL_INTERVAL_MS, LOCK_WAIT_TIMEOUT_SECS,
};

/// Runs the helper; `answers` gives the replies in turn.
fn run(answers: &[UpdaterReply]) -> Vec<UpdaterAction> {
    let mut action = updater_start();
    let mut actions = vec![action];
    for answer in answers {
        action = updater_advance(action, *answer);
        actions.push(action);
    }
    actions
}

#[test]
fn update_replaces_and_starts_the_launcher() {
    for removed in [UpdaterReply::Done, UpdaterReply::NotFound] {
        assert_eq!(
            run(&[
                UpdaterReply::Answer(true),
                UpdaterReply::Done,
                UpdaterReply::Answer(false),
                UpdaterReply::Answer(false),
                UpdaterReply::Done,
                UpdaterReply::Answer(true),
                removed,
                UpdaterReply::Done,
                UpdaterReply::Done,
            ]),
            vec![
                UpdaterAction::LookForStaged,
                UpdaterAction::BeginWait(LOCK_WAIT_TIMEOUT_SECS),
                UpdaterAction::TryOpen,
                UpdaterAction::PollWait,
                UpdaterAction::Sleep(LOCK_POLL_INTERVAL_MS),
                UpdaterAction::TryOpen,
                UpdaterAction::RemoveLive,
                UpdaterAction::RenameStaged,
                UpdaterAction::StartLive,
                UpdaterAction::Finish,
            ]
        );
    }
    assert_eq!(LOCK_WAIT_TIMEOUT_SECS, 60);
    assert_eq!(LOCK_POLL_INTERVAL_MS, 250);
}

#[test]
fn locked_launcher_is_left_alone() {
    let actions = run(&[
        UpdaterReply::Answer(true),
        UpdaterReply::Done,
        UpdaterReply::Answer(false),
        UpdaterReply::Answer(true),
    ]);
    assert_eq!(actions.last(), Some(&UpdaterAction::Finish));
    assert!(!actions.contains(&UpdaterAction::RemoveLive));
}

#[test]
fn failures_end_the_update() {
    let unlocked = [UpdaterReply::Answer(true), UpdaterReply::Done, UpdaterReply::Answer(true)];
    let mut removal = unlocked.to_vec();
    removal.push(UpdaterReply::Failed);
    let actions = run(&removal);
    assert_eq!(actions.last(), Some(&UpdaterAction::Finish));
    assert!(!actions.contains(&UpdaterAction::RenameStaged));
    for failure in [UpdaterReply::Failed, UpdaterReply::NotFound] {
        let mut rename = unlocked.to_vec();
        rename.push(UpdaterReply::Done);
        rename.push(failure);
        let actions = run(&rename);
        assert_eq!(actions.last(), Some(&UpdaterAction::Finish));
        assert!(!actions.contains(&UpdaterAction::StartLive));
    }
}

#[test]
fn failed_start_keeps_the_staged_launcher() {
    for failure in [UpdaterReply::Failed, UpdaterReply::NotFound] {
        for restored in [UpdaterReply::Done, UpdaterReply::Failed] {
            let actions = run(&[
                UpdaterReply::Answer(true),
                UpdaterReply::Done,
                UpdaterReply::Answer(true),
                UpdaterReply::Done,
                UpdaterReply::Done,
                failure,
                restored,
            ]);
            assert_eq!(
                actions[5..],
                [
                    UpdaterAction::StartLive,
                    UpdaterAction::RestoreStaged,
                    UpdaterAction::Finish,
                ]
            );
        }
    }
}

#[test]
fn missing_launcher_is_replaced_without_waiting() {
    let actions = run(&[
        UpdaterReply::Answer(true),
        UpdaterReply::Done,
        UpdaterReply::NotFound,
        UpdaterReply::NotFound,
        UpdaterReply::Done,
        UpdaterReply::Done,
    ]);
    assert_eq!(
        actions[3..],
        [
            UpdaterAction::RemoveLive,
            UpdaterAction::RenameStaged,
            UpdaterAction::StartLive,
            UpdaterAction::Finish,
        ]
    );
}

#[test]
fn setup_is_opened_without_an_update() {
    assert_eq!(
        run(&[UpdaterReply::Answer(false), UpdaterReply::Answer(true), UpdaterReply::Failed]),
        vec![
            UpdaterAction::LookForStaged,
            UpdaterAction::LookForSetup,
            UpdaterAction::StartSetup,
            UpdaterAction::Finish,
        ]
    );
    assert_eq!(
        run(&[UpdaterReply::Answer(false), UpdaterReply::Answer(false)]).last(),
        Some(&UpdaterAction::Finish)
    );
}

#[test]
fn directory_of_the_program_comes_first() {
    assert_eq!(install_dir(Some("exe"), Some("cwd"), "."), "exe");
    assert_eq!(install_dir(None, Some("cwd"), "."), "cwd");
    assert_eq!(install_dir(None, None, "."), ".");
}

#[test]
fn stale_file_has_another_extension() {
    assert_eq!(stale_extension(Some("exe")), "exe.old");
    assert_eq!(stale_extension(None), "old");
}

/// Runs the helper on a launcher and a staged one; the answer is how often the
/// launcher was started.
fn update(
    live: &mut Option<&'static str>,
    staged: &mut Option<&'static str>,
    removable: bool,
    startable: bool,
) -> u32 {
    let mut started = 0;
    let mut action = updater_start();
    loop {
        let reply = match action {
            UpdaterAction::LookForStaged => UpdaterReply::Answer(staged.is_some()),
            UpdaterAction::TryOpen if live.is_none() => UpdaterReply::NotFound,
            UpdaterAction::TryOpen => UpdaterReply::Answer(true),
            UpdaterAction::RemoveLive if live.is_none() => UpdaterReply::NotFound,
            UpdaterAction::RemoveLive if !removable => UpdaterReply::Failed,
            UpdaterAction::RemoveLive => {
                *live = None;
                UpdaterReply::Done
            }
            UpdaterAction::RenameStaged => {
                *live = staged.take();
                UpdaterReply::Done
            }
            UpdaterAction::StartLive if startable => {
                started += 1;
                UpdaterReply::Done
            }
            UpdaterAction::StartLive => UpdaterReply::Failed,
            UpdaterAction::RestoreStaged => {
                *staged = live.take();
                UpdaterReply::Done
            }
            UpdaterAction::LookForSetup => UpdaterReply::Answer(false),
            UpdaterAction::Finish => return started,
            _ => UpdaterReply::Done,
        };
        action = updater_advance(action, reply);
    }
}

#[test]
fn failed_removal_changes_nothing() {
    let mut live = Some("old");
    let mut staged = Some("new");
    assert_eq!(update(&mut live, &mut staged, false, true), 0);
    assert_eq!((live, staged), (Some("old"), Some("new")));
}

#[test]
fn update_is_retried_after_a_failed_start() {
    let mut live = Some("old");
    let mut staged = Some("new");
    assert_eq!(update(&mut live, &mut staged, true, false), 0);
    assert_eq!((live, staged), (None, Some("new")));
    assert_eq!(update(&mut live, &mut staged, true, true), 1);
    assert_eq!((live, staged), (Some("new"), None));
}
