//! What a change of mode does to the game's directory, whatever operations
//! fail on the way.
use crate::config::ModeArtifacts;
use crate::digest::{hex, sha256};
use crate::mode::{
    active_mode, expected, game_file_name, has_ragexe, mode_of_standby, other_mode, GameFile, Mode,
};
use crate::mode_switch::{
    named_mode, outcome, outcome_message, required_for, switch_action, switch_next, DiskAction,
    DiskReply, RequiredDigests, SwitchPlan, SwitchState,
};
use vstd::prelude::*;

verus! {

/// The game's directory: the content of each file that exists.
pub type Disk = Map<GameFile, Seq<u8>>;

/// A directory after a file got another name; a file that had that name is
/// gone.
pub open spec fn renamed(disk: Disk, file: GameFile, name: GameFile) -> Disk {
    disk.remove(file).insert(name, disk[file])
}

/// How a directory may answer an operation: what it reports about its files is
/// true, and a rename either happens or fails and changes nothing.
pub open spec fn answers(
    disk: Disk,
    action: DiskAction<Seq<char>>,
    reply: DiskReply<Seq<char>>,
    after: Disk,
) -> bool {
    match action {
        DiskAction::Locate => after == disk && (reply is Located || reply is Failed),
        DiskAction::Look(file) => after == disk && reply == DiskReply::<Seq<char>>::Found(
            disk.contains_key(file),
        ),
        DiskAction::Digest(file) => after == disk && (reply is Failed || (disk.contains_key(file)
            && reply == DiskReply::Digested(hex(sha256(disk[file]))))),
        DiskAction::Rename(file, name) => {
            ||| reply is Failed && after == disk
            ||| reply is Renamed && disk.contains_key(file) && after == renamed(disk, file, name)
        },
        DiskAction::Finish(_) => false,
    }
}

/// One step of a change of mode on a directory.
pub open spec fn switch_step(
    plan: SwitchPlan<Seq<char>>,
    state: SwitchState<Seq<char>>,
    disk: Disk,
    reply: DiskReply<Seq<char>>,
    next: SwitchState<Seq<char>>,
    after: Disk,
) -> bool {
    &&& answers(disk, switch_action(plan, state), reply, after)
    &&& next == switch_next(plan, state, reply)
}

/// A change of mode from its beginning on: the states and directories it went
/// through, and the replies that led from each to the next.
pub open spec fn switch_run(
    plan: SwitchPlan<Seq<char>>,
    states: Seq<SwitchState<Seq<char>>>,
    disks: Seq<Disk>,
    replies: Seq<DiskReply<Seq<char>>>,
) -> bool {
    &&& plan.from != plan.to
    &&& states.len() == replies.len() + 1
    &&& disks.len() == replies.len() + 1
    &&& states[0] == SwitchState::<Seq<char>>::LocateDirectory
    &&& forall|i: int|
        #![trigger replies[i]]
        0 <= i < replies.len() ==> switch_step(
            plan,
            states[i],
            disks[i],
            replies[i],
            states[i + 1],
            disks[i + 1],
        )
}

/// The directory with the active executable parked, where there is one.
pub open spec fn ragexe_parked(plan: SwitchPlan<Seq<char>>, disk: Disk) -> Disk {
    if disk.contains_key(GameFile::Ragexe) {
        renamed(disk, GameFile::Ragexe, GameFile::StandbyRagexe(plan.from))
    } else {
        disk
    }
}

/// The directory with both active files parked, where they exist.
pub open spec fn both_parked(plan: SwitchPlan<Seq<char>>, disk: Disk) -> Disk {
    let parked = ragexe_parked(plan, disk);
    if disk.contains_key(GameFile::DataIni) {
        renamed(parked, GameFile::DataIni, GameFile::StandbyDataIni(plan.from))
    } else {
        parked
    }
}

/// The directory in which the executable has changed places, the data file not
/// yet.
pub open spec fn half_switched(plan: SwitchPlan<Seq<char>>, disk: Disk) -> Disk {
    renamed(both_parked(plan, disk), GameFile::StandbyRagexe(plan.to), GameFile::Ragexe)
}

/// The directory after a change of mode: the waiting files are active, and what
/// was active waits under the names of its mode.
pub open spec fn switched(plan: SwitchPlan<Seq<char>>, disk: Disk) -> Disk {
    renamed(half_switched(plan, disk), GameFile::StandbyDataIni(plan.to), GameFile::DataIni)
}

/// Whether nothing stands under the names that the active files are parked
/// under.
pub open spec fn parking_free(plan: SwitchPlan<Seq<char>>, disk: Disk) -> bool {
    &&& !disk.contains_key(GameFile::StandbyRagexe(plan.from))
    &&& !disk.contains_key(GameFile::StandbyDataIni(plan.from))
}

/// Whether no file that is active would be parked over another one.
pub open spec fn parking_safe(plan: SwitchPlan<Seq<char>>, disk: Disk) -> bool {
    &&& disk.contains_key(GameFile::Ragexe) ==> !disk.contains_key(
        GameFile::StandbyRagexe(plan.from),
    )
    &&& disk.contains_key(GameFile::DataIni) ==> !disk.contains_key(
        GameFile::StandbyDataIni(plan.from),
    )
}

/// Whether the waiting executable is there.
pub open spec fn ragexe_waits(plan: SwitchPlan<Seq<char>>, disk: Disk) -> bool {
    disk.contains_key(GameFile::StandbyRagexe(plan.to))
}

/// Whether the waiting data file is there.
pub open spec fn data_waits(plan: SwitchPlan<Seq<char>>, disk: Disk) -> bool {
    disk.contains_key(GameFile::StandbyDataIni(plan.to))
}

/// Whether the waiting executable has the digest that is required, if one is.
pub open spec fn ragexe_trusted(plan: SwitchPlan<Seq<char>>, disk: Disk) -> bool {
    plan.required is Some ==> hex(sha256(disk[GameFile::StandbyRagexe(plan.to)]))
        == plan.required->0.ragexe
}

/// Whether the waiting data file has the digest that is required, if one is.
pub open spec fn data_trusted(plan: SwitchPlan<Seq<char>>, disk: Disk) -> bool {
    plan.required is Some ==> hex(sha256(disk[GameFile::StandbyDataIni(plan.to)]))
        == plan.required->0.data
}

/// What holds of a state and a directory in every run that began with the
/// directory `start`.
spec fn run_invariant(
    plan: SwitchPlan<Seq<char>>,
    start: Disk,
    state: SwitchState<Seq<char>>,
    disk: Disk,
) -> bool {
    let ready = ragexe_waits(plan, start) && data_waits(plan, start) && ragexe_trusted(plan, start)
        && data_trusted(plan, start);
    match state {
        SwitchState::LocateDirectory => disk == start,
        SwitchState::SeekRagexe => disk == start,
        SwitchState::SeekDataIni => disk == start && ragexe_waits(plan, start),
        SwitchState::CheckRagexe => {
            &&& disk == start
            &&& ragexe_waits(plan, start)
            &&& data_waits(plan, start)
            &&& plan.required is Some
        },
        SwitchState::CheckDataIni => {
            &&& disk == start
            &&& ragexe_waits(plan, start)
            &&& data_waits(plan, start)
            &&& plan.required is Some
            &&& ragexe_trusted(plan, start)
        },
        SwitchState::SeekActiveRagexe => disk == start && ready,
        SwitchState::ParkRagexe => disk == start && ready && start.contains_key(GameFile::Ragexe),
        SwitchState::SeekActiveDataIni => disk == ragexe_parked(plan, start) && ready,
        SwitchState::ParkDataIni => {
            &&& disk == ragexe_parked(plan, start)
            &&& ready
            &&& start.contains_key(GameFile::DataIni)
        },
        SwitchState::RestoreRagexe(_) => {
            &&& disk == ragexe_parked(plan, start)
            &&& ready
            &&& start.contains_key(GameFile::DataIni)
        },
        SwitchState::ActivateRagexe => disk == both_parked(plan, start) && ready,
        SwitchState::ActivateDataIni => disk == half_switched(plan, start) && ready,
        SwitchState::Finished(Ok(_)) => disk == switched(plan, start) && ready,
        SwitchState::Finished(Err(_)) => {
            ||| disk == start
            ||| disk == ragexe_parked(plan, start)
            ||| disk == both_parked(plan, start)
            ||| disk == half_switched(plan, start)
            ||| {
                &&& ragexe_parked(plan, start).contains_key(GameFile::StandbyRagexe(plan.from))
                &&& disk == renamed(
                    ragexe_parked(plan, start),
                    GameFile::StandbyRagexe(plan.from),
                    GameFile::Ragexe,
                )
            }
        },
    }
}

proof fn lemma_step_keeps_invariant(
    plan: SwitchPlan<Seq<char>>,
    start: Disk,
    state: SwitchState<Seq<char>>,
    disk: Disk,
    reply: DiskReply<Seq<char>>,
    next: SwitchState<Seq<char>>,
    after: Disk,
)
    requires
        plan.from != plan.to,
        run_invariant(plan, start, state, disk),
        switch_step(plan, state, disk, reply, next, after),
    ensures
        run_invariant(plan, start, next, after),
{
}

proof fn lemma_run_invariant(
    plan: SwitchPlan<Seq<char>>,
    states: Seq<SwitchState<Seq<char>>>,
    disks: Seq<Disk>,
    replies: Seq<DiskReply<Seq<char>>>,
    i: int,
)
    requires
        switch_run(plan, states, disks, replies),
        0 <= i <= replies.len(),
    ensures
        run_invariant(plan, disks[0], states[i], disks[i]),
    decreases i,
{
    if i > 0 {
        lemma_run_invariant(plan, states, disks, replies, i - 1);
        let reply = replies[i - 1];
        lemma_step_keeps_invariant(
            plan,
            disks[0],
            states[i - 1],
            disks[i - 1],
            reply,
            states[i],
            disks[i],
        );
    }
}

/// A change of mode that reports success has done all of it: the waiting files
/// are the active ones and have the digests that were required, and what was
/// active waits.
pub proof fn law_success_means_switched(
    plan: SwitchPlan<Seq<char>>,
    states: Seq<SwitchState<Seq<char>>>,
    disks: Seq<Disk>,
    replies: Seq<DiskReply<Seq<char>>>,
)
    requires
        switch_run(plan, states, disks, replies),
        states.last() == SwitchState::<Seq<char>>::Finished(Ok(())),
    ensures
        disks.last() == switched(plan, disks[0]),
        ragexe_waits(plan, disks[0]) && data_waits(plan, disks[0]),
        disks.last()[GameFile::Ragexe] == disks[0][GameFile::StandbyRagexe(plan.to)],
        disks.last()[GameFile::DataIni] == disks[0][GameFile::StandbyDataIni(plan.to)],
        plan.required matches Some(required) ==> {
            &&& hex(sha256(disks.last()[GameFile::Ragexe])) == required.ragexe
            &&& hex(sha256(disks.last()[GameFile::DataIni])) == required.data
        },
{
    lemma_run_invariant(plan, states, disks, replies, replies.len() as int);
}

/// Where a waiting file is missing, or has not the digest that is required, no
/// file is touched at any point and the change does not succeed: a file that
/// was tampered with never becomes active.
pub proof fn law_untrusted_files_are_never_activated(
    plan: SwitchPlan<Seq<char>>,
    states: Seq<SwitchState<Seq<char>>>,
    disks: Seq<Disk>,
    replies: Seq<DiskReply<Seq<char>>>,
    i: int,
)
    requires
        switch_run(plan, states, disks, replies),
        0 <= i <= replies.len(),
        !ragexe_waits(plan, disks[0]) || !data_waits(plan, disks[0]) || !ragexe_trusted(
            plan,
            disks[0],
        ) || !data_trusted(plan, disks[0]),
    ensures
        disks[i] == disks[0],
        !(switch_action(plan, states[i]) is Rename),
        states[i] != SwitchState::<Seq<char>>::Finished(Ok(())),
    decreases i,
{
    lemma_run_invariant(plan, states, disks, replies, i);
    if i > 0 {
        law_untrusted_files_are_never_activated(plan, states, disks, replies, i - 1);
        let reply = replies[i - 1];
        assert(switch_step(plan, states[i - 1], disks[i - 1], reply, states[i], disks[i]));
    }
}

/// Whether every content that a directory held is still there, under some name.
pub open spec fn nothing_lost(start: Disk, disk: Disk) -> bool {
    forall|file: GameFile| #[trigger]
        start.contains_key(file) ==> exists|name: GameFile| #[trigger]
            disk.contains_key(name) && disk[name] == start[file]
}

proof fn lemma_rename_to_free_name_loses_nothing(
    start: Disk,
    disk: Disk,
    file: GameFile,
    name: GameFile,
)
    requires
        nothing_lost(start, disk),
        disk.contains_key(file),
        !disk.contains_key(name),
    ensures
        nothing_lost(start, renamed(disk, file, name)),
{
    let after = renamed(disk, file, name);
    assert forall|f: GameFile| #[trigger] start.contains_key(f) implies exists|n: GameFile|
        #[trigger] after.contains_key(n) && after[n] == start[f] by {
        let n = choose|n: GameFile| #[trigger] disk.contains_key(n) && disk[n] == start[f];
        if n == file {
            assert(after.contains_key(name) && after[name] == start[f]);
        } else {
            assert(after.contains_key(n) && after[n] == start[f]);
        }
    }
}

/// Where no active file would be parked over another one, no rename that the
/// change orders ever replaces a file, and whatever fails on the way, every
/// file's content is still in the directory at every point.
pub proof fn law_no_file_is_lost(
    plan: SwitchPlan<Seq<char>>,
    states: Seq<SwitchState<Seq<char>>>,
    disks: Seq<Disk>,
    replies: Seq<DiskReply<Seq<char>>>,
    i: int,
)
    requires
        switch_run(plan, states, disks, replies),
        parking_safe(plan, disks[0]),
        0 <= i <= replies.len(),
    ensures
        nothing_lost(disks[0], disks[i]),
        switch_action(plan, states[i]) matches DiskAction::Rename(file, name)
            ==> !disks[i].contains_key(name) || !disks[i].contains_key(file),
    decreases i,
{
    lemma_run_invariant(plan, states, disks, replies, i);
    if i > 0 {
        law_no_file_is_lost(plan, states, disks, replies, i - 1);
        let reply = replies[i - 1];
        assert(switch_step(plan, states[i - 1], disks[i - 1], reply, states[i], disks[i]));
        if switch_action(plan, states[i - 1]) is Rename && reply is Renamed {
            let file = switch_action(plan, states[i - 1])->Rename_0;
            let name = switch_action(plan, states[i - 1])->Rename_1;
            lemma_rename_to_free_name_loses_nothing(disks[0], disks[i - 1], file, name);
        }
    }
}

/// Where the data file could not be parked and the executable could be taken
/// back, the directory is what it was at the beginning, as long as nothing stood
/// under the name that the executable was parked under.
pub proof fn law_failed_parking_is_undone(
    plan: SwitchPlan<Seq<char>>,
    states: Seq<SwitchState<Seq<char>>>,
    disks: Seq<Disk>,
    replies: Seq<DiskReply<Seq<char>>>,
    i: int,
)
    requires
        switch_run(plan, states, disks, replies),
        !disks[0].contains_key(GameFile::StandbyRagexe(plan.from)),
        0 <= i < replies.len(),
        states[i] is RestoreRagexe,
        replies[i] is Renamed,
    ensures
        disks[i + 1] == disks[0],
        states[i + 1] is Finished,
{
    lemma_run_invariant(plan, states, disks, replies, i);
    let reply = replies[i];
    assert(switch_step(plan, states[i], disks[i], reply, states[i + 1], disks[i + 1]));
    assert(disks[i + 1] =~= disks[0]);
}

/// A plan in the other direction.
pub open spec fn reverse(
    plan: SwitchPlan<Seq<char>>,
    required: Option<RequiredDigests<Seq<char>>>,
) -> SwitchPlan<Seq<char>> {
    SwitchPlan { from: plan.to, to: plan.from, required, requested: plan.requested }
}

/// Changing the mode and changing it back restores the directory.
pub proof fn law_switching_back_restores(
    plan: SwitchPlan<Seq<char>>,
    required: Option<RequiredDigests<Seq<char>>>,
    disk: Disk,
)
    requires
        plan.from != plan.to,
        parking_free(plan, disk),
        ragexe_waits(plan, disk),
        data_waits(plan, disk),
        disk.contains_key(GameFile::Ragexe),
        disk.contains_key(GameFile::DataIni),
    ensures
        switched(reverse(plan, required), switched(plan, disk)) == disk,
        parking_free(reverse(plan, required), switched(plan, disk)),
        ragexe_waits(reverse(plan, required), switched(plan, disk)),
        data_waits(reverse(plan, required), switched(plan, disk)),
{
    assert(switched(reverse(plan, required), switched(plan, disk)) =~= disk);
}

/// What a directory answers where no operation fails that can be done.
pub open spec fn calm_reply(disk: Disk, action: DiskAction<Seq<char>>) -> DiskReply<Seq<char>> {
    match action {
        DiskAction::Look(file) => DiskReply::Found(disk.contains_key(file)),
        DiskAction::Digest(file) => DiskReply::Digested(hex(sha256(disk[file]))),
        DiskAction::Rename(_, _) => DiskReply::Renamed,
        _ => DiskReply::Located,
    }
}

/// The directory after such an operation.
pub open spec fn calm_disk(disk: Disk, action: DiskAction<Seq<char>>) -> Disk {
    match action {
        DiskAction::Rename(file, name) => renamed(disk, file, name),
        _ => disk,
    }
}

/// Where a change of mode gets in a number of steps none of which fails.
pub open spec fn calm_run(
    plan: SwitchPlan<Seq<char>>,
    state: SwitchState<Seq<char>>,
    disk: Disk,
    steps: nat,
) -> (SwitchState<Seq<char>>, Disk)
    decreases steps,
{
    if steps == 0 || state is Finished {
        (state, disk)
    } else {
        let action = switch_action(plan, state);
        calm_run(
            plan,
            switch_next(plan, state, calm_reply(disk, action)),
            calm_disk(disk, action),
            (steps - 1) as nat,
        )
    }
}

/// Success is owed: where the waiting files are there and have the digests that
/// are required, and no operation fails, the change ends with success within
/// eleven operations, and the mode is switched.
pub proof fn law_undisturbed_switch_succeeds(plan: SwitchPlan<Seq<char>>, disk: Disk)
    requires
        plan.from != plan.to,
        ragexe_waits(plan, disk),
        data_waits(plan, disk),
        ragexe_trusted(plan, disk),
        data_trusted(plan, disk),
    ensures
        calm_run(plan, SwitchState::LocateDirectory, disk, 11) == (
            SwitchState::<Seq<char>>::Finished(Ok(())),
            switched(plan, disk),
        ),
{
    reveal_with_fuel(calm_run, 12);
}

/// After a change of mode the files that wait tell which mode is active, where
/// an executable was active before.
pub proof fn law_switch_shows_in_waiting_files(plan: SwitchPlan<Seq<char>>, disk: Disk)
    requires
        plan.from != plan.to,
        ragexe_waits(plan, disk),
        disk.contains_key(GameFile::Ragexe),
    ensures
        mode_of_standby(
            switched(plan, disk).contains_key(GameFile::StandbyRagexe(Mode::Vanilla)),
            switched(plan, disk).contains_key(GameFile::StandbyRagexe(Mode::Hd)),
        ) == Some(plan.to),
{
}

/// After the user's change to a mode has succeeded, that mode is the one that
/// is detected, where its digests are configured and its executable is not also
/// the other mode's.
pub proof fn law_applied_mode_is_detected(
    artifacts: ModeArtifacts,
    plan: SwitchPlan<Seq<char>>,
    states: Seq<SwitchState<Seq<char>>>,
    disks: Seq<Disk>,
    replies: Seq<DiskReply<Seq<char>>>,
    vanilla_waits: bool,
    hd_waits: bool,
)
    requires
        switch_run(plan, states, disks, replies),
        states.last() == SwitchState::<Seq<char>>::Finished(Ok(())),
        plan.required == required_for(artifacts, plan.to),
        expected(artifacts, plan.to) is Some,
        !has_ragexe(artifacts, other_mode(plan.to), expected(artifacts, plan.to)->0.ragexe_sha256@),
    ensures
        active_mode(
            Some(artifacts),
            Some(hex(sha256(disks.last()[GameFile::Ragexe]))),
            vanilla_waits,
            hd_waits,
        ) == Some(plan.to),
{
    law_success_means_switched(plan, states, disks, replies);
}

/// A request names a mode exactly by one of the two names, and requires of the
/// waiting files the digests that are configured for that mode, if any are.
pub proof fn law_request_names_mode_and_digests(name: Seq<char>, artifacts: ModeArtifacts)
    ensures
        named_mode(name) == Some(Mode::Vanilla) <==> name == "vanilla"@,
        named_mode(name) == Some(Mode::Hd) <==> name == "hd"@,
        named_mode(name) is None <==> name != "vanilla"@ && name != "hd"@,
        required_for(artifacts, Mode::Vanilla) is Some <==> artifacts.vanilla is Some,
        required_for(artifacts, Mode::Hd) is Some <==> artifacts.hd is Some,
        artifacts.vanilla matches Some(digests) ==> required_for(artifacts, Mode::Vanilla) == Some(
            RequiredDigests { ragexe: digests.ragexe_sha256@, data: digests.dataini_sha256@ },
        ),
        artifacts.hd matches Some(digests) ==> required_for(artifacts, Mode::Hd) == Some(
            RequiredDigests { ragexe: digests.ragexe_sha256@, data: digests.dataini_sha256@ },
        ),
{
    reveal_strlit("vanilla");
    reveal_strlit("hd");
    assert("vanilla"@.len() == 7);
    assert("hd"@.len() == 2);
}

/// The page is told the error of a change that failed, in full, and none for one
/// that succeeded.
pub proof fn law_outcome_is_told_in_full(message: String)
    ensures
        outcome_message(Ok(())) == ""@,
        outcome_message(Err(message)) == message@,
        outcome(Err(message)) == Err::<(), Seq<char>>(message@),
        outcome(Ok(())) == Ok::<(), Seq<char>>(()),
{
}

/// Before anything is renamed: the directory is found, then the waiting
/// executable and the waiting data file are looked for, then both are checked
/// where digests are required. Each thing that is amiss ends the change with a
/// message that names it.
pub proof fn law_waiting_files_are_seen_to_first(
    plan: SwitchPlan<Seq<char>>,
    state: SwitchState<Seq<char>>,
    reply: DiskReply<Seq<char>>,
)
    requires
        plan.from != plan.to,
    ensures
        ({
            let ragexe = GameFile::StandbyRagexe(plan.to);
            let data = GameFile::StandbyDataIni(plan.to);
            let action = switch_action(plan, state);
            let next = switch_action(plan, switch_next(plan, state, reply));
            &&& switch_action(plan, SwitchState::LocateDirectory) is Locate
            &&& action is Locate ==> {
                &&& reply is Located ==> next == DiskAction::<Seq<char>>::Look(ragexe)
                &&& reply matches DiskReply::Failed { path, error } ==> next == DiskAction::Finish(
                    Err("cwd: "@ + error),
                )
            }
            &&& action == DiskAction::<Seq<char>>::Look(ragexe) ==> {
                &&& reply == DiskReply::<Seq<char>>::Found(true) ==> next == DiskAction::<
                    Seq<char>,
                >::Look(data)
                &&& reply == DiskReply::<Seq<char>>::Found(false) ==> next == DiskAction::Finish(
                    Err("faltando "@ + game_file_name(ragexe)),
                )
            }
            &&& action == DiskAction::<Seq<char>>::Look(data) ==> {
                &&& reply == DiskReply::<Seq<char>>::Found(true) && plan.required is Some ==> next
                    == DiskAction::<Seq<char>>::Digest(ragexe)
                &&& reply == DiskReply::<Seq<char>>::Found(true) && plan.required is None ==> next
                    == DiskAction::<Seq<char>>::Look(GameFile::Ragexe)
                &&& reply == DiskReply::<Seq<char>>::Found(false) ==> next == DiskAction::Finish(
                    Err("faltando "@ + game_file_name(data)),
                )
            }
            &&& action == DiskAction::<Seq<char>>::Digest(ragexe) ==> {
                &&& reply matches DiskReply::Digested(digest) ==> next == if plan.required is Some
                    && digest == plan.required->0.ragexe {
                    DiskAction::Digest(data)
                } else {
                    DiskAction::Finish(
                        Err(
                            game_file_name(ragexe) + " sha256 invalido — reinstale o cliente"@,
                        ),
                    )
                }
                &&& reply matches DiskReply::Failed { path, error } ==> next == DiskAction::Finish(
                    Err("hash "@ + game_file_name(ragexe) + ": "@ + error),
                )
            }
            &&& action == DiskAction::<Seq<char>>::Digest(data) ==> {
                &&& reply matches DiskReply::Digested(digest) ==> next == if plan.required is Some
                    && digest == plan.required->0.data {
                    DiskAction::Look(GameFile::Ragexe)
                } else {
                    DiskAction::Finish(
                        Err(
                            game_file_name(data) + " sha256 invalido — reinstale o cliente"@,
                        ),
                    )
                }
                &&& reply matches DiskReply::Failed { path, error } ==> next == DiskAction::Finish(
                    Err("hash "@ + game_file_name(data) + ": "@ + error),
                )
            }
        }),
{
}

/// Then each active file that is there is parked, the executable first, and the
/// waiting files take their places, the executable first. A rename that fails
/// ends the change with a message that names it; only where the data file could
/// not be parked is the executable first taken back.
pub proof fn law_files_change_places_in_order(
    plan: SwitchPlan<Seq<char>>,
    state: SwitchState<Seq<char>>,
    reply: DiskReply<Seq<char>>,
)
    requires
        plan.from != plan.to,
    ensures
        ({
            let park_ragexe = DiskAction::<Seq<char>>::Rename(
                GameFile::Ragexe,
                GameFile::StandbyRagexe(plan.from),
            );
            let park_data = DiskAction::<Seq<char>>::Rename(
                GameFile::DataIni,
                GameFile::StandbyDataIni(plan.from),
            );
            let take_ragexe = DiskAction::<Seq<char>>::Rename(
                GameFile::StandbyRagexe(plan.to),
                GameFile::Ragexe,
            );
            let take_data = DiskAction::<Seq<char>>::Rename(
                GameFile::StandbyDataIni(plan.to),
                GameFile::DataIni,
            );
            let restore = DiskAction::<Seq<char>>::Rename(
                GameFile::StandbyRagexe(plan.from),
                GameFile::Ragexe,
            );
            let action = switch_action(plan, state);
            let after = switch_next(plan, state, reply);
            let next = switch_action(plan, after);
            &&& action == DiskAction::<Seq<char>>::Look(GameFile::Ragexe) ==> {
                &&& reply == DiskReply::<Seq<char>>::Found(true) ==> next == park_ragexe
                &&& reply == DiskReply::<Seq<char>>::Found(false) ==> next == DiskAction::<
                    Seq<char>,
                >::Look(GameFile::DataIni)
            }
            &&& action == park_ragexe ==> {
                &&& reply is Renamed ==> next == DiskAction::<Seq<char>>::Look(GameFile::DataIni)
                &&& reply matches DiskReply::Failed { path, error } ==> next == DiskAction::Finish(
                    Err("rename Ragexe.exe: "@ + error),
                )
            }
            &&& action == DiskAction::<Seq<char>>::Look(GameFile::DataIni) ==> {
                &&& reply == DiskReply::<Seq<char>>::Found(true) ==> next == park_data
                &&& reply == DiskReply::<Seq<char>>::Found(false) ==> next == take_ragexe
            }
            &&& action == park_data ==> {
                &&& reply is Renamed ==> next == take_ragexe
                &&& reply matches DiskReply::Failed { path, error } ==> {
                    &&& next == restore
                    &&& forall|second: DiskReply<Seq<char>>| #[trigger]
                        switch_next(plan, after, second) == (if second is Renamed || second
                            is Failed {
                            SwitchState::Finished(Err("rename DATA.ini: "@ + error))
                        } else {
                            after
                        })
                }
            }
            &&& action == take_ragexe ==> {
                &&& reply is Renamed ==> next == take_data
                &&& reply matches DiskReply::Failed { path, error } ==> next == DiskAction::Finish(
                    Err(
                        if plan.requested {
                            "rename "@ + path + "->"@ + "Ragexe.exe"@ + ": "@ + error
                        } else {
                            "rename act ragexe: "@ + error
                        },
                    ),
                )
            }
            &&& action == take_data ==> {
                &&& reply is Renamed ==> next == DiskAction::<Seq<char>>::Finish(Ok(()))
                &&& reply matches DiskReply::Failed { path, error } ==> next == DiskAction::Finish(
                    Err(
                        if plan.requested {
                            "rename "@ + path + "->"@ + "DATA.ini"@ + ": "@ + error
                        } else {
                            "rename act data: "@ + error
                        },
                    ),
                )
            }
        }),
{
}

/// A change that has ended stays ended, with its outcome, whatever is replied.
/// A reply that cannot be one to the operation leaves the operation to be done.
pub proof fn law_stray_replies_change_no_switch(
    plan: SwitchPlan<Seq<char>>,
    state: SwitchState<Seq<char>>,
    reply: DiskReply<Seq<char>>,
)
    requires
        match switch_action(plan, state) {
            DiskAction::Locate => !(reply is Located || reply is Failed),
            DiskAction::Look(_) => !(reply is Found),
            DiskAction::Digest(_) => !(reply is Digested || reply is Failed),
            DiskAction::Rename(_, _) => !(reply is Renamed || reply is Failed),
            DiskAction::Finish(_) => true,
        },
    ensures
        switch_next(plan, state, reply) == state,
{
}

/// How many operations a change of mode has behind it at least.
spec fn progress(state: SwitchState<Seq<char>>) -> int {
    match state {
        SwitchState::LocateDirectory => 0,
        SwitchState::SeekRagexe => 1,
        SwitchState::SeekDataIni => 2,
        SwitchState::CheckRagexe => 3,
        SwitchState::CheckDataIni => 4,
        SwitchState::SeekActiveRagexe => 5,
        SwitchState::ParkRagexe => 6,
        SwitchState::SeekActiveDataIni => 7,
        SwitchState::ParkDataIni => 8,
        SwitchState::RestoreRagexe(_) => 9,
        SwitchState::ActivateRagexe => 9,
        SwitchState::ActivateDataIni => 10,
        SwitchState::Finished(_) => 11,
    }
}

proof fn lemma_progress(
    plan: SwitchPlan<Seq<char>>,
    states: Seq<SwitchState<Seq<char>>>,
    disks: Seq<Disk>,
    replies: Seq<DiskReply<Seq<char>>>,
    i: int,
)
    requires
        switch_run(plan, states, disks, replies),
        0 <= i <= replies.len(),
    ensures
        i <= progress(states[i]) <= 11,
    decreases i,
{
    if i > 0 {
        lemma_progress(plan, states, disks, replies, i - 1);
        let reply = replies[i - 1];
        assert(switch_step(plan, states[i - 1], disks[i - 1], reply, states[i], disks[i]));
    }
}

/// A change of mode is over after at most eleven operations.
pub proof fn law_switch_comes_to_an_end(
    plan: SwitchPlan<Seq<char>>,
    states: Seq<SwitchState<Seq<char>>>,
    disks: Seq<Disk>,
    replies: Seq<DiskReply<Seq<char>>>,
)
    requires
        switch_run(plan, states, disks, replies),
    ensures
        replies.len() <= 11,
        replies.len() == 11 ==> states.last() is Finished,
{
    lemma_progress(plan, states, disks, replies, replies.len() as int);
}

} // verus!
