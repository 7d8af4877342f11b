//! The helper that puts a new launcher in the place of the running one, once
//! that has let go of its file, and else opens the setup program. It runs as a
//! state machine that names one operation at a time and is told what came of
//! it.
use vstd::prelude::*;

verus! {

/// The launcher's file.
pub const LAUNCHER_NAME: &'static str = "DimensionsRO.exe";

/// The file of a staged launcher.
pub const STAGED_NAME: &'static str = "DimensionsRO.exe.new";

/// The setup program's file.
pub const SETUP_NAME: &'static str = "Setup.exe";

/// How long the helper waits for the launcher to release its file.
pub const LOCK_WAIT_TIMEOUT_SECS: u64 = 60;

/// How often it looks.
pub const LOCK_POLL_INTERVAL_MS: u64 = 250;

/// An operation of the helper.
#[derive(Clone, Copy, Debug, PartialEq, Eq, Structural)]
pub enum UpdaterAction {
    /// Look whether a new launcher is staged.
    LookForStaged,
    /// Begin to wait, for so many seconds.
    BeginWait(u64),
    /// Try to open the launcher for writing.
    TryOpen,
    /// Look whether the wait is over.
    PollWait,
    /// Sleep for so many milliseconds.
    Sleep(u64),
    /// Remove the launcher.
    RemoveLive,
    /// Give the staged launcher the launcher's name.
    RenameStaged,
    /// Start the launcher.
    StartLive,
    /// Give the launcher, which did not start, the staged one's name again.
    RestoreStaged,
    /// Look whether there is a setup program.
    LookForSetup,
    /// Start the setup program.
    StartSetup,
    Finish,
}

/// What came of an operation.
#[derive(Clone, Copy, Debug, PartialEq, Eq, Structural)]
pub enum UpdaterReply {
    /// It was done.
    Done,
    /// The file does not exist.
    NotFound,
    /// It failed otherwise.
    Failed,
    /// The answer to a question.
    Answer(bool),
}

/// The operation that follows a reply. A reply that does not answer an
/// operation leaves it to be done.
pub open spec fn updater_next(action: UpdaterAction, reply: UpdaterReply) -> UpdaterAction {
    match (action, reply) {
        (UpdaterAction::LookForStaged, UpdaterReply::Answer(staged)) => if staged {
            UpdaterAction::BeginWait(LOCK_WAIT_TIMEOUT_SECS)
        } else {
            UpdaterAction::LookForSetup
        },
        (UpdaterAction::BeginWait(_), UpdaterReply::Done) => UpdaterAction::TryOpen,
        (UpdaterAction::TryOpen, UpdaterReply::Answer(opened)) => if opened {
            UpdaterAction::RemoveLive
        } else {
            UpdaterAction::PollWait
        },
        (UpdaterAction::TryOpen, UpdaterReply::NotFound) => UpdaterAction::RemoveLive,
        (UpdaterAction::PollWait, UpdaterReply::Answer(over)) => if over {
            UpdaterAction::Finish
        } else {
            UpdaterAction::Sleep(LOCK_POLL_INTERVAL_MS)
        },
        (UpdaterAction::Sleep(_), UpdaterReply::Done) => UpdaterAction::TryOpen,
        (UpdaterAction::RemoveLive, UpdaterReply::Done) => UpdaterAction::RenameStaged,
        (UpdaterAction::RemoveLive, UpdaterReply::NotFound) => UpdaterAction::RenameStaged,
        (UpdaterAction::RemoveLive, UpdaterReply::Failed) => UpdaterAction::Finish,
        (UpdaterAction::RenameStaged, UpdaterReply::Done) => UpdaterAction::StartLive,
        (UpdaterAction::RenameStaged, UpdaterReply::NotFound) => UpdaterAction::Finish,
        (UpdaterAction::RenameStaged, UpdaterReply::Failed) => UpdaterAction::Finish,
        (UpdaterAction::StartLive, UpdaterReply::Done) => UpdaterAction::Finish,
        (UpdaterAction::StartLive, UpdaterReply::NotFound) => UpdaterAction::RestoreStaged,
        (UpdaterAction::StartLive, UpdaterReply::Failed) => UpdaterAction::RestoreStaged,
        (UpdaterAction::RestoreStaged, UpdaterReply::Done) => UpdaterAction::Finish,
        (UpdaterAction::RestoreStaged, UpdaterReply::NotFound) => UpdaterAction::Finish,
        (UpdaterAction::RestoreStaged, UpdaterReply::Failed) => UpdaterAction::Finish,
        (UpdaterAction::LookForSetup, UpdaterReply::Answer(present)) => if present {
            UpdaterAction::StartSetup
        } else {
            UpdaterAction::Finish
        },
        (UpdaterAction::StartSetup, UpdaterReply::Done) => UpdaterAction::Finish,
        (UpdaterAction::StartSetup, UpdaterReply::NotFound) => UpdaterAction::Finish,
        (UpdaterAction::StartSetup, UpdaterReply::Failed) => UpdaterAction::Finish,
        (action, _) => action,
    }
}

/// The operation that the helper begins with.
pub fn updater_start() -> (action: UpdaterAction)
    ensures
        action == UpdaterAction::LookForStaged,
{
    UpdaterAction::LookForStaged
}

/// The operation that follows a reply.
pub fn updater_advance(action: UpdaterAction, reply: UpdaterReply) -> (next: UpdaterAction)
    ensures
        next == updater_next(action, reply),
{
    match (action, reply) {
        (UpdaterAction::LookForStaged, UpdaterReply::Answer(staged)) => {
            if staged {
                UpdaterAction::BeginWait(LOCK_WAIT_TIMEOUT_SECS)
            } else {
                UpdaterAction::LookForSetup
            }
        },
        (UpdaterAction::BeginWait(_), UpdaterReply::Done) => UpdaterAction::TryOpen,
        (UpdaterAction::TryOpen, UpdaterReply::Answer(opened)) => {
            if opened {
                UpdaterAction::RemoveLive
            } else {
                UpdaterAction::PollWait
            }
        },
        (UpdaterAction::TryOpen, UpdaterReply::NotFound) => UpdaterAction::RemoveLive,
        (UpdaterAction::PollWait, UpdaterReply::Answer(over)) => {
            if over {
                UpdaterAction::Finish
            } else {
                UpdaterAction::Sleep(LOCK_POLL_INTERVAL_MS)
            }
        },
        (UpdaterAction::Sleep(_), UpdaterReply::Done) => UpdaterAction::TryOpen,
        (UpdaterAction::RemoveLive, UpdaterReply::Done) => UpdaterAction::RenameStaged,
        (UpdaterAction::RemoveLive, UpdaterReply::NotFound) => UpdaterAction::RenameStaged,
        (UpdaterAction::RemoveLive, UpdaterReply::Failed) => UpdaterAction::Finish,
        (UpdaterAction::RenameStaged, UpdaterReply::Done) => UpdaterAction::StartLive,
        (UpdaterAction::RenameStaged, UpdaterReply::NotFound) => UpdaterAction::Finish,
        (UpdaterAction::RenameStaged, UpdaterReply::Failed) => UpdaterAction::Finish,
        (UpdaterAction::StartLive, UpdaterReply::Done) => UpdaterAction::Finish,
        (UpdaterAction::StartLive, UpdaterReply::NotFound) => UpdaterAction::RestoreStaged,
        (UpdaterAction::StartLive, UpdaterReply::Failed) => UpdaterAction::RestoreStaged,
        (UpdaterAction::RestoreStaged, UpdaterReply::Done) => UpdaterAction::Finish,
        (UpdaterAction::RestoreStaged, UpdaterReply::NotFound) => UpdaterAction::Finish,
        (UpdaterAction::RestoreStaged, UpdaterReply::Failed) => UpdaterAction::Finish,
        (UpdaterAction::LookForSetup, UpdaterReply::Answer(present)) => {
            if present {
                UpdaterAction::StartSetup
            } else {
                UpdaterAction::Finish
            }
        },
        (UpdaterAction::StartSetup, UpdaterReply::Done) => UpdaterAction::Finish,
        (UpdaterAction::StartSetup, UpdaterReply::NotFound) => UpdaterAction::Finish,
        (UpdaterAction::StartSetup, UpdaterReply::Failed) => UpdaterAction::Finish,
        (action, _) => action,
    }
}

/// The directory to work in: that of the helper's own program, else the current
/// one, else the one that is given as a last resort.
pub fn install_dir<P>(program_dir: Option<P>, current_dir: Option<P>, last_resort: P) -> (dir: P)
    ensures
        dir == if program_dir is Some {
            program_dir->0
        } else if current_dir is Some {
            current_dir->0
        } else {
            last_resort
        },
{
    match program_dir {
        Some(dir) => dir,
        None => match current_dir {
            Some(dir) => dir,
            None => last_resort,
        },
    }
}

/// The extension of the file that a self-update leaves behind, given the
/// launcher's own.
pub fn stale_extension(extension: Option<&str>) -> (stale: String)
    ensures
        stale@ == match extension {
            Some(extension) => extension@ + ".old"@,
            None => "old"@,
        },
{
    match extension {
        Some(extension) => {
            let mut stale = extension.to_owned();
            stale.append(".old");
            stale
        },
        None => "old".to_owned(),
    }
}

/// The contents of the launcher and of the staged one.
pub struct Programs {
    pub live: Option<Seq<u8>>,
    pub staged: Option<Seq<u8>>,
}

/// How the disk and the running programs may answer an operation. The launcher
/// is reported missing exactly where it is, and a removal or a rename either
/// happens or changes nothing.
pub open spec fn updater_answers(
    programs: Programs,
    action: UpdaterAction,
    reply: UpdaterReply,
    after: Programs,
) -> bool {
    match action {
        UpdaterAction::LookForStaged => after == programs && reply == UpdaterReply::Answer(
            programs.staged is Some,
        ),
        UpdaterAction::TryOpen => {
            &&& after == programs
            &&& (reply == UpdaterReply::NotFound) == (programs.live is None)
            &&& reply is Answer || reply == UpdaterReply::NotFound
        },
        UpdaterAction::RemoveLive => {
            ||| reply == UpdaterReply::Failed && after == programs
            ||| reply == UpdaterReply::NotFound && programs.live is None && after == programs
            ||| reply == UpdaterReply::Done && programs.live is Some && after == (Programs {
                live: None,
                ..programs
            })
        },
        UpdaterAction::RenameStaged => {
            ||| (reply == UpdaterReply::Failed || reply == UpdaterReply::NotFound) && after
                == programs
            ||| reply == UpdaterReply::Done && programs.staged is Some && after == (Programs {
                live: programs.staged,
                staged: None,
            })
        },
        UpdaterAction::RestoreStaged => {
            ||| (reply == UpdaterReply::Failed || reply == UpdaterReply::NotFound) && after
                == programs
            ||| reply == UpdaterReply::Done && programs.live is Some && after == (Programs {
                live: None,
                staged: programs.live,
            })
        },
        UpdaterAction::Finish => false,
        _ => after == programs,
    }
}

/// A run of the helper: the operations and what was on disk before each, and
/// the replies that led from each to the next.
pub open spec fn updater_run(
    actions: Seq<UpdaterAction>,
    disks: Seq<Programs>,
    replies: Seq<UpdaterReply>,
) -> bool {
    &&& actions.len() == replies.len() + 1
    &&& disks.len() == replies.len() + 1
    &&& actions[0] == UpdaterAction::LookForStaged
    &&& forall|i: int|
        #![trigger replies[i]]
        0 <= i < replies.len() ==> {
            &&& updater_answers(disks[i], actions[i], replies[i], disks[i + 1])
            &&& actions[i + 1] == updater_next(actions[i], replies[i])
        }
}

/// Whether a reply says that no program holds the launcher: it could be opened
/// for writing, or there is none.
pub open spec fn released(actions: Seq<UpdaterAction>, replies: Seq<UpdaterReply>, i: int) -> bool {
    actions[i] == UpdaterAction::TryOpen && (replies[i] == UpdaterReply::Answer(true) || replies[i]
        == UpdaterReply::NotFound)
}

/// Whether an operation is part of replacing the launcher.
pub open spec fn replaces(action: UpdaterAction) -> bool {
    ||| action is RemoveLive
    ||| action is RenameStaged
    ||| action is StartLive
    ||| action is RestoreStaged
}

/// How often the launcher was started.
pub open spec fn starts(actions: Seq<UpdaterAction>, replies: Seq<UpdaterReply>) -> nat
    decreases replies.len(),
{
    if replies.len() == 0 {
        0
    } else {
        starts(actions, replies.drop_last()) + if actions[replies.len() - 1] is StartLive
            && replies.last() == UpdaterReply::Done {
            1nat
        } else {
            0nat
        }
    }
}

/// What holds at every point of a run that began with the programs `start`:
/// whether the launcher was started, and what is on disk.
spec fn run_invariant(
    start: Programs,
    action: UpdaterAction,
    programs: Programs,
    started: nat,
) -> bool {
    let replaced = Programs { live: start.staged, staged: None };
    let removed = Programs { live: None, ..start };
    match action {
        UpdaterAction::LookForStaged => programs == start && started == 0,
        UpdaterAction::BeginWait(_) => programs == start && start.staged is Some && started == 0,
        UpdaterAction::TryOpen => programs == start && start.staged is Some && started == 0,
        UpdaterAction::PollWait => {
            &&& programs == start
            &&& start.staged is Some
            &&& start.live is Some
            &&& started == 0
        },
        UpdaterAction::Sleep(_) => {
            &&& programs == start
            &&& start.staged is Some
            &&& start.live is Some
            &&& started == 0
        },
        UpdaterAction::RemoveLive => programs == start && start.staged is Some && started == 0,
        UpdaterAction::RenameStaged => programs == removed && start.staged is Some && started == 0,
        UpdaterAction::StartLive => programs == replaced && start.staged is Some && started == 0,
        UpdaterAction::RestoreStaged => programs == replaced && start.staged is Some && started
            == 0,
        UpdaterAction::LookForSetup => programs == start && start.staged is None && started == 0,
        UpdaterAction::StartSetup => programs == start && start.staged is None && started == 0,
        UpdaterAction::Finish => {
            ||| programs == start && started == 0
            ||| start.staged is Some && programs == removed && started == 0
            ||| start.staged is Some && programs == replaced && started <= 1
        },
    }
}

proof fn lemma_run(
    actions: Seq<UpdaterAction>,
    disks: Seq<Programs>,
    replies: Seq<UpdaterReply>,
    i: int,
)
    requires
        updater_run(actions, disks, replies),
        0 <= i <= replies.len(),
    ensures
        run_invariant(disks[0], actions[i], disks[i], starts(actions, replies.take(i))),
        disks[i] != disks[0] || replaces(actions[i]) ==> exists|j: int|
            0 <= j < i && released(actions, replies, j),
    decreases i,
{
    if i > 0 {
        lemma_run(actions, disks, replies, i - 1);
        let reply = replies[i - 1];
        assert(actions[i] == updater_next(actions[i - 1], reply));
        assert(replies.take(i).drop_last() =~= replies.take(i - 1));
        assert(replies.take(i).last() == reply);
        if actions[i] is RemoveLive && actions[i - 1] is TryOpen {
            assert(released(actions, replies, i - 1));
        }
    }
}

/// The staged launcher is never lost: at every point, whatever failed, it is
/// still staged as it was, or it is the launcher. Where the launcher was
/// started, it is the staged one.
pub proof fn law_staged_launcher_is_never_lost(
    actions: Seq<UpdaterAction>,
    disks: Seq<Programs>,
    replies: Seq<UpdaterReply>,
    i: int,
)
    requires
        updater_run(actions, disks, replies),
        0 <= i <= replies.len(),
        disks[0].staged is Some,
    ensures
        disks[i].staged == disks[0].staged || disks[i].live == disks[0].staged,
        starts(actions, replies.take(i)) > 0 ==> disks[i].live == disks[0].staged,
        actions[i] is StartLive ==> disks[i].live == disks[0].staged,
{
    lemma_run(actions, disks, replies, i);
}

/// A removal that failed leaves the launcher and the staged one as they were, and
/// ends the helper.
pub proof fn law_failed_removal_changes_nothing(
    actions: Seq<UpdaterAction>,
    disks: Seq<Programs>,
    replies: Seq<UpdaterReply>,
    i: int,
)
    requires
        updater_run(actions, disks, replies),
        0 <= i < replies.len(),
        actions[i] is RemoveLive,
        replies[i] == UpdaterReply::Failed,
    ensures
        disks[i + 1] == disks[0],
        actions[i + 1] is Finish,
{
    lemma_run(actions, disks, replies, i);
    let reply = replies[i];
    assert(actions[i + 1] == updater_next(actions[i], reply));
}

/// A rename that failed leaves the staged launcher where it is, and ends the
/// helper: nothing is started.
pub proof fn law_failed_rename_keeps_staged_launcher(
    actions: Seq<UpdaterAction>,
    disks: Seq<Programs>,
    replies: Seq<UpdaterReply>,
    i: int,
)
    requires
        updater_run(actions, disks, replies),
        0 <= i < replies.len(),
        actions[i] is RenameStaged,
        replies[i] == UpdaterReply::Failed || replies[i] == UpdaterReply::NotFound,
    ensures
        disks[i + 1] == (Programs { live: None, ..disks[0] }),
        actions[i + 1] is Finish,
        starts(actions, replies.take(i + 1)) == 0,
{
    lemma_run(actions, disks, replies, i);
    let reply = replies[i];
    assert(actions[i + 1] == updater_next(actions[i], reply));
    assert(replies.take(i + 1).drop_last() =~= replies.take(i));
}

/// Where the new launcher could not be started, it becomes the staged one again:
/// once that is done, what is staged is what it was, for a later run to retry.
/// Where that fails too, it is the launcher.
pub proof fn law_failed_start_keeps_staged_launcher(
    actions: Seq<UpdaterAction>,
    disks: Seq<Programs>,
    replies: Seq<UpdaterReply>,
    i: int,
)
    requires
        updater_run(actions, disks, replies),
        0 <= i < replies.len() - 1,
        actions[i] is StartLive,
        replies[i] == UpdaterReply::Failed || replies[i] == UpdaterReply::NotFound,
    ensures
        disks[0].staged is Some,
        actions[i + 1] is RestoreStaged,
        replies[i + 1] == UpdaterReply::Done ==> disks[i + 2].staged == disks[0].staged
            && actions[i + 2] is Finish,
        replies[i + 1] != UpdaterReply::Done ==> disks[i + 2].live == disks[0].staged,
{
    lemma_run(actions, disks, replies, i);
    let first = replies[i];
    let second = replies[i + 1];
    assert(actions[i + 1] == updater_next(actions[i], first));
    assert(actions[i + 2] == updater_next(actions[i + 1], second));
}

/// The launcher is started at most once, and only the staged one is.
pub proof fn law_launcher_is_started_once(
    actions: Seq<UpdaterAction>,
    disks: Seq<Programs>,
    replies: Seq<UpdaterReply>,
    i: int,
)
    requires
        updater_run(actions, disks, replies),
        0 <= i <= replies.len(),
    ensures
        starts(actions, replies.take(i)) <= 1,
        starts(actions, replies.take(i)) == 1 ==> disks[0].staged is Some && disks[i].live
            == disks[0].staged,
{
    lemma_run(actions, disks, replies, i);
}

/// Nothing is touched before the launcher was released, that is, could be
/// opened for writing or was not there; where that never happens, nothing is
/// touched at all.
pub proof fn law_locked_launcher_is_not_touched(
    actions: Seq<UpdaterAction>,
    disks: Seq<Programs>,
    replies: Seq<UpdaterReply>,
    i: int,
)
    requires
        updater_run(actions, disks, replies),
        0 <= i <= replies.len(),
        forall|j: int| 0 <= j < i ==> !released(actions, replies, j),
    ensures
        disks[i] == disks[0],
        !replaces(actions[i]),
{
    lemma_run(actions, disks, replies, i);
}

/// Without a staged launcher the helper only opens the setup program: it
/// touches nothing and starts no launcher.
pub proof fn law_without_staged_launcher_only_setup(
    actions: Seq<UpdaterAction>,
    disks: Seq<Programs>,
    replies: Seq<UpdaterReply>,
    i: int,
)
    requires
        updater_run(actions, disks, replies),
        0 <= i <= replies.len(),
        disks[0].staged is None,
    ensures
        disks[i] == disks[0],
        !(actions[i] is StartLive),
{
    lemma_run(actions, disks, replies, i);
}

/// Success is owed: once the launcher was released, and no operation fails, the
/// staged launcher takes its place and is started. The launcher may be missing
/// when it is to be removed.
pub proof fn law_undisturbed_update_starts_new_launcher(
    actions: Seq<UpdaterAction>,
    disks: Seq<Programs>,
    replies: Seq<UpdaterReply>,
    i: int,
)
    requires
        updater_run(actions, disks, replies),
        0 <= i <= replies.len() - 4,
        released(actions, replies, i),
        replies[i + 1] != UpdaterReply::Failed,
        replies[i + 2] == UpdaterReply::Done,
        replies[i + 3] == UpdaterReply::Done,
    ensures
        disks[0].staged is Some,
        actions[i + 3] is StartLive,
        actions[i + 4] is Finish,
        disks[i + 4] == (Programs { live: disks[0].staged, staged: None }),
        starts(actions, replies.take(i + 4)) == 1,
{
    lemma_run(actions, disks, replies, i);
    let first = replies[i];
    let second = replies[i + 1];
    let third = replies[i + 2];
    let fourth = replies[i + 3];
    assert(actions[i + 1] == updater_next(actions[i], first));
    assert(actions[i + 2] == updater_next(actions[i + 1], second));
    assert(actions[i + 3] == updater_next(actions[i + 2], third));
    assert(actions[i + 4] == updater_next(actions[i + 3], fourth));
    lemma_run(actions, disks, replies, i + 3);
    assert(replies.take(i + 4).drop_last() =~= replies.take(i + 3));
}

/// A run can follow one that removed the launcher and got no further: with the
/// launcher missing and the staged one there, the helper does not wait for it,
/// and where no operation fails, it ends with the staged launcher in its place,
/// started once and no longer staged.
pub proof fn law_half_finished_update_is_completed(
    actions: Seq<UpdaterAction>,
    disks: Seq<Programs>,
    replies: Seq<UpdaterReply>,
)
    requires
        updater_run(actions, disks, replies),
        disks[0].live is None,
        disks[0].staged is Some,
        actions.last() is Finish,
        forall|j: int|
            0 <= j < replies.len() ==> #[trigger] replies[j] != UpdaterReply::Failed && (replies[j]
                == UpdaterReply::NotFound ==> actions[j] is TryOpen || actions[j] is RemoveLive),
    ensures
        disks.last() == (Programs { live: disks[0].staged, staged: None }),
        starts(actions, replies) == 1,
        forall|j: int| 0 <= j < actions.len() ==> !(#[trigger] actions[j] is PollWait),
{
    let n = replies.len() as int;
    assert forall|j: int| 0 <= j < actions.len() implies !(#[trigger] actions[j] is PollWait) by {
        lemma_run(actions, disks, replies, j);
    }
    lemma_run(actions, disks, replies, n);
    lemma_run(actions, disks, replies, n - 1);
    let last = replies[n - 1];
    assert(actions[n] == updater_next(actions[n - 1], last));
    assert(replies.take(n) =~= replies);
    if actions[n - 1] is RestoreStaged {
        lemma_run(actions, disks, replies, n - 2);
        let earlier = replies[n - 2];
        assert(actions[n - 1] == updater_next(actions[n - 2], earlier));
    }
}

/// Whether a reply is one of those that an operation can have.
pub open spec fn answers_question(action: UpdaterAction, reply: UpdaterReply) -> bool {
    match action {
        UpdaterAction::LookForStaged => reply is Answer,
        UpdaterAction::BeginWait(_) => reply == UpdaterReply::Done,
        UpdaterAction::TryOpen => reply is Answer || reply == UpdaterReply::NotFound,
        UpdaterAction::PollWait => reply is Answer,
        UpdaterAction::Sleep(_) => reply == UpdaterReply::Done,
        UpdaterAction::LookForSetup => reply is Answer,
        UpdaterAction::Finish => false,
        _ => !(reply is Answer),
    }
}

/// Whether every operation of a run was answered.
pub open spec fn all_answered(actions: Seq<UpdaterAction>, replies: Seq<UpdaterReply>) -> bool {
    forall|i: int|
        #![trigger replies[i]]
        0 <= i < replies.len() ==> answers_question(actions[i], replies[i])
}

/// How often the start of the setup program was tried.
pub open spec fn setups(actions: Seq<UpdaterAction>, replies: Seq<UpdaterReply>) -> nat
    decreases replies.len(),
{
    if replies.len() == 0 {
        0
    } else {
        setups(actions, replies.drop_last()) + if actions[replies.len() - 1] is StartSetup {
            1nat
        } else {
            0nat
        }
    }
}

/// Without a staged launcher the setup program is opened once where there is
/// one, and not at all where there is none; the helper is then at its end,
/// whether or not the program started, within three operations.
pub proof fn law_setup_is_opened_once(
    actions: Seq<UpdaterAction>,
    disks: Seq<Programs>,
    replies: Seq<UpdaterReply>,
)
    requires
        updater_run(actions, disks, replies),
        all_answered(actions, replies),
        disks[0].staged is None,
    ensures
        replies.len() <= 3,
        setups(actions, replies) <= 1,
        replies.len() > 1 && replies[1] == UpdaterReply::Answer(true) ==> actions[2] is StartSetup,
        replies.len() > 1 && replies[1] == UpdaterReply::Answer(false) ==> actions[2] is Finish
            && replies.len() == 2,
        replies.len() == 3 ==> actions[3] is Finish && setups(actions, replies) == 1,
{
    reveal_with_fuel(setups, 4);
    if replies.len() > 0 {
        let first = replies[0];
        assert(actions[1] == updater_next(actions[0], first));
    }
    if replies.len() > 1 {
        let second = replies[1];
        assert(actions[2] == updater_next(actions[1], second));
    }
    if replies.len() > 2 {
        let third = replies[2];
        assert(actions[3] == updater_next(actions[2], third));
    }
    if replies.len() > 3 {
        let fourth = replies[3];
        assert(answers_question(actions[3], fourth));
    }
}

/// With a staged launcher the helper waits up to a minute: it tries to open the
/// launcher, and where another program holds it, looks whether the minute is
/// over, ends if so, and else tries again after a quarter of a second.
pub proof fn law_helper_waits_for_the_launcher(
    actions: Seq<UpdaterAction>,
    disks: Seq<Programs>,
    replies: Seq<UpdaterReply>,
    i: int,
)
    requires
        updater_run(actions, disks, replies),
        all_answered(actions, replies),
        disks[0].staged is Some,
        0 <= i < replies.len(),
    ensures
        actions[0] is LookForStaged,
        i == 0 ==> actions[1] == UpdaterAction::BeginWait(60),
        actions[i] is BeginWait ==> actions[i + 1] is TryOpen,
        actions[i] is TryOpen && replies[i] == UpdaterReply::Answer(false) ==> actions[i + 1]
            is PollWait,
        actions[i] is TryOpen && replies[i] != UpdaterReply::Answer(false) ==> actions[i + 1]
            is RemoveLive,
        actions[i] is PollWait && replies[i] == UpdaterReply::Answer(true) ==> actions[i + 1]
            is Finish,
        actions[i] is PollWait && replies[i] == UpdaterReply::Answer(false) ==> actions[i + 1]
            == UpdaterAction::Sleep(250),
        actions[i] is Sleep ==> actions[i + 1] is TryOpen,
{
    let first = replies[0];
    assert(actions[1] == updater_next(actions[0], first));
    let reply = replies[i];
    assert(actions[i + 1] == updater_next(actions[i], reply));
}

/// Once the launcher was released, every operation leads on to the next one, and
/// the helper is at its end after at most five: the launcher is removed, the
/// staged one renamed and started, and renamed back where it did not start.
pub proof fn law_replacement_comes_to_an_end(
    actions: Seq<UpdaterAction>,
    disks: Seq<Programs>,
    replies: Seq<UpdaterReply>,
    i: int,
)
    requires
        updater_run(actions, disks, replies),
        all_answered(actions, replies),
        0 <= i < replies.len(),
    ensures
        actions[i] is RemoveLive ==> if replies[i] == UpdaterReply::Failed {
            actions[i + 1] is Finish
        } else {
            actions[i + 1] is RenameStaged
        },
        actions[i] is RenameStaged ==> if replies[i] == UpdaterReply::Done {
            actions[i + 1] is StartLive
        } else {
            actions[i + 1] is Finish
        },
        actions[i] is StartLive ==> if replies[i] == UpdaterReply::Done {
            actions[i + 1] is Finish
        } else {
            actions[i + 1] is RestoreStaged
        },
        actions[i] is RestoreStaged ==> actions[i + 1] is Finish,
        actions[i] is StartSetup ==> actions[i + 1] is Finish,
        released(actions, replies, i) ==> replies.len() <= i + 5,
{
    let reply = replies[i];
    assert(actions[i + 1] == updater_next(actions[i], reply));
    if released(actions, replies, i) && replies.len() > i + 5 {
        let a = replies[i + 1];
        assert(actions[i + 2] == updater_next(actions[i + 1], a));
        let b = replies[i + 2];
        assert(actions[i + 3] == updater_next(actions[i + 2], b));
        let c = replies[i + 3];
        assert(actions[i + 4] == updater_next(actions[i + 3], c));
        let d = replies[i + 4];
        assert(actions[i + 5] == updater_next(actions[i + 4], d));
        let e = replies[i + 5];
        assert(answers_question(actions[i + 5], e));
    }
}

/// A reply that cannot be one to the operation leaves the operation to be done,
/// and the end is an end.
pub proof fn law_stray_replies_change_no_update(action: UpdaterAction, reply: UpdaterReply)
    requires
        !answers_question(action, reply),
    ensures
        updater_next(action, reply) == action,
{
}

} // verus!
