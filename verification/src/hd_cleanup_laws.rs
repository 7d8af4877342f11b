//! What a cleanup of the high-definition files does, whatever operations fail on
//! the way.
use crate::config::OptionalPack;
use crate::hd_cleanup::{
    cleanup_action, cleanup_fits, cleanup_next, cleanup_ready, cleanup_wf, done_script, pack_files,
    pack_place, stopped_script, CleanupAction, CleanupReply, CleanupState, CleanupView,
};
use crate::mode::Mode;
use crate::session::law_configured_packs_are_found;
use crate::text::{decimal, escaped, joined};
use vstd::prelude::*;

verus! {

/// Whether a reply is one of those that an operation can have.
pub open spec fn cleanup_answers(
    action: CleanupAction<Seq<char>>,
    reply: CleanupReply<Seq<char>>,
) -> bool {
    match action {
        CleanupAction::SwitchToVanilla => reply is Ready || reply is Failed,
        CleanupAction::Locate => reply is Ready || reply is Failed,
        CleanupAction::Remove(_) => reply is Missing || reply is Removed || reply is Failed,
        CleanupAction::Report(_) => false,
    }
}

/// A cleanup from its beginning on: what it went through, and the replies that
/// led from each point to the next.
pub open spec fn cleanup_run(
    mode: Option<Mode>,
    files: Option<Seq<Seq<char>>>,
    cleanups: Seq<CleanupView>,
    replies: Seq<CleanupReply<Seq<char>>>,
) -> bool {
    &&& cleanups.len() == replies.len() + 1
    &&& cleanups[0] == (CleanupView {
        files,
        index: 0,
        freed: 0,
        errors: seq![],
        state: if mode == Some(Mode::Hd) {
            CleanupState::SwitchToVanilla
        } else {
            cleanup_ready(files)
        },
    })
    &&& forall|i: int|
        #![trigger replies[i]]
        0 <= i < replies.len() ==> {
            &&& cleanup_answers(cleanup_action(cleanups[i]), replies[i])
            &&& cleanups[i + 1] == cleanup_next(cleanups[i], replies[i])
        }
}

/// The names of the files whose removal was ordered, in order.
pub open spec fn removals(cleanups: Seq<CleanupView>) -> Seq<Seq<char>>
    decreases cleanups.len(),
{
    if cleanups.len() == 0 {
        seq![]
    } else {
        match cleanup_action(cleanups.last()) {
            CleanupAction::Remove(name) => removals(cleanups.drop_last()).push(name),
            _ => removals(cleanups.drop_last()),
        }
    }
}

/// The bytes of the files that were removed.
pub open spec fn removed_bytes(replies: Seq<CleanupReply<Seq<char>>>) -> nat
    decreases replies.len(),
{
    if replies.len() == 0 {
        0
    } else {
        removed_bytes(replies.drop_last()) + match replies.last() {
            CleanupReply::Removed(size) => size as nat,
            _ => 0,
        }
    }
}

/// Whether no operation failed.
pub open spec fn none_failed(replies: Seq<CleanupReply<Seq<char>>>) -> bool {
    forall|j: int| 0 <= j < replies.len() ==> !(#[trigger] replies[j] is Failed)
}

spec fn run_invariant(
    mode: Option<Mode>,
    files: Option<Seq<Seq<char>>>,
    cleanup: CleanupView,
    replies: Seq<CleanupReply<Seq<char>>>,
    ordered: Seq<Seq<char>>,
) -> bool {
    &&& cleanup.files == files
    &&& cleanup_wf(cleanup)
    &&& cleanup.freed == removed_bytes(replies)
    &&& none_failed(replies) ==> cleanup.errors.len() == 0
    &&& none_failed(replies) && files is Some && cleanup.state is Finished ==> ordered == files->0
        && cleanup.state == CleanupState::Finished(done_script(cleanup.freed, cleanup.errors))
    &&& mode == Some(Mode::Hd) && !(cleanup.state is SwitchToVanilla) ==> replies.len() > 0 && (
    replies[0] is Ready || cleanup.state is Finished && ordered.len() == 0)
    &&& match cleanup.state {
        CleanupState::Remove => {
            &&& files is Some
            &&& ordered == files->0.take(cleanup.index + 1)
        },
        CleanupState::Finished(script) => {
            ||| ordered.len() == 0 && cleanup.freed == 0
            ||| {
                &&& files is Some
                &&& ordered == files->0
                &&& script == done_script(cleanup.freed, cleanup.errors)
            }
        },
        _ => ordered.len() == 0 && cleanup.freed == 0 && cleanup.errors.len() == 0,
    }
}

/// The order for a removal that a cleanup gives next, if it does.
spec fn ordered_next(ordered: Seq<Seq<char>>, cleanup: CleanupView) -> Seq<Seq<char>> {
    match cleanup_action(cleanup) {
        CleanupAction::Remove(name) => ordered.push(name),
        _ => ordered,
    }
}

proof fn lemma_one_step(
    mode: Option<Mode>,
    files: Option<Seq<Seq<char>>>,
    cleanup: CleanupView,
    replies: Seq<CleanupReply<Seq<char>>>,
    ordered: Seq<Seq<char>>,
    reply: CleanupReply<Seq<char>>,
)
    requires
        run_invariant(mode, files, cleanup, replies, ordered),
        cleanup_answers(cleanup_action(cleanup), reply),
        mode == Some(Mode::Hd) && replies.len() == 0 ==> cleanup.state is SwitchToVanilla,
        mode != Some(Mode::Hd) ==> !(cleanup.state is SwitchToVanilla),
        cleanup.state is SwitchToVanilla ==> replies.len() == 0,
    ensures
        run_invariant(
            mode,
            files,
            cleanup_next(cleanup, reply),
            replies.push(reply),
            ordered_next(ordered, cleanup_next(cleanup, reply)),
        ),
{
    let after = replies.push(reply);
    let next = cleanup_next(cleanup, reply);
    assert(after.drop_last() =~= replies);
    assert(none_failed(after) ==> none_failed(replies)) by {
        assert forall|j: int| none_failed(after) && 0 <= j < replies.len() implies !(
        #[trigger] replies[j] is Failed) by {
            assert(after[j] == replies[j]);
        }
    }
    assert(none_failed(after) ==> !(after[replies.len() as int] is Failed));
    if ordered.len() == 0 {
        assert(ordered =~= seq![]);
    }
    if files is Some {
        let names = files->0;
        if names.len() == 0 {
            assert(names =~= seq![]);
        }
        if next.state is Remove {
            assert(names.take(next.index).push(names[next.index]) =~= names.take(next.index + 1));
            assert(names.take(0) =~= seq![]);
        }
        assert(names.take(names.len() as int) =~= names);
    }
}

proof fn lemma_run(
    mode: Option<Mode>,
    files: Option<Seq<Seq<char>>>,
    cleanups: Seq<CleanupView>,
    replies: Seq<CleanupReply<Seq<char>>>,
    i: int,
)
    requires
        cleanup_run(mode, files, cleanups, replies),
        0 <= i <= replies.len(),
    ensures
        run_invariant(
            mode,
            files,
            cleanups[i],
            replies.take(i),
            removals(cleanups.take(i + 1)),
        ),
        cleanups[i].state is SwitchToVanilla <==> i == 0 && mode == Some(Mode::Hd),
    decreases i,
{
    assert(cleanups.take(i + 1).drop_last() =~= cleanups.take(i));
    assert(cleanups.take(i + 1).last() == cleanups[i]);
    if i == 0 {
        assert(cleanups.take(0) =~= Seq::empty());
        assert(replies.take(0) =~= Seq::empty());
        assert(removals(cleanups.take(0)) =~= seq![]);
    } else {
        lemma_run(mode, files, cleanups, replies, i - 1);
        let reply = replies[i - 1];
        assert(cleanups[i] == cleanup_next(cleanups[i - 1], reply));
        lemma_one_step(
            mode,
            files,
            cleanups[i - 1],
            replies.take(i - 1),
            removals(cleanups.take(i)),
            reply,
        );
        assert(replies.take(i) =~= replies.take(i - 1).push(reply));
    }
}

/// No file is removed while the high-definition mode is active: a cleanup that
/// began in that mode orders a removal only after the change to the vanilla mode
/// succeeded.
pub proof fn law_nothing_is_removed_in_hd_mode(
    files: Option<Seq<Seq<char>>>,
    cleanups: Seq<CleanupView>,
    replies: Seq<CleanupReply<Seq<char>>>,
    i: int,
)
    requires
        cleanup_run(Some(Mode::Hd), files, cleanups, replies),
        0 <= i <= replies.len(),
        cleanup_action(cleanups[i]) is Remove,
    ensures
        i > 0,
        cleanup_action(cleanups[0]) is SwitchToVanilla,
        replies[0] is Ready,
{
    lemma_run(Some(Mode::Hd), files, cleanups, replies, i);
    assert(replies.take(i)[0] == replies[0]);
}

/// A cleanup that ended has ordered the removal of every file of the pack, each
/// once and in order, or of none; and the bytes it reports as freed are those of
/// the files that were removed.
pub proof fn law_every_file_is_removed_once(
    mode: Option<Mode>,
    files: Option<Seq<Seq<char>>>,
    cleanups: Seq<CleanupView>,
    replies: Seq<CleanupReply<Seq<char>>>,
)
    requires
        cleanup_run(mode, files, cleanups, replies),
        cleanups.last().state is Finished,
    ensures
        cleanups.last().freed == removed_bytes(replies),
        removals(cleanups).len() == 0 || (files is Some && removals(cleanups) == files->0
            && cleanups.last().state == CleanupState::Finished(
            done_script(removed_bytes(replies) as int, cleanups.last().errors),
        )),
{
    let n = replies.len() as int;
    lemma_run(mode, files, cleanups, replies, n);
    assert(replies.take(n) =~= replies);
    assert(cleanups.take(n + 1) =~= cleanups);
}

/// A cleanup of a configured pack in which no operation fails removes every
/// file and reports success.
pub proof fn law_undisturbed_cleanup_succeeds(
    mode: Option<Mode>,
    files: Seq<Seq<char>>,
    cleanups: Seq<CleanupView>,
    replies: Seq<CleanupReply<Seq<char>>>,
)
    requires
        cleanup_run(mode, Some(files), cleanups, replies),
        cleanups.last().state is Finished,
        none_failed(replies),
    ensures
        removals(cleanups) == files,
        cleanups.last().state == CleanupState::Finished(
            "cleanupHdResult(true, "@ + decimal(removed_bytes(replies)) + ", \"\")"@,
        ),
{
    let n = replies.len() as int;
    lemma_run(mode, Some(files), cleanups, replies, n);
    assert(replies.take(n) =~= replies);
    assert(cleanups.take(n + 1) =~= cleanups);
}

/// The game's directory: the content of each file that exists.
pub type Folder = Map<Seq<char>, Seq<u8>>;

/// How a directory may answer an operation: a file is reported missing exactly
/// where it is, and a removal takes one file away or fails and changes nothing.
/// The size of a file that was removed is reported, or zero where it could not
/// be read. The change to the vanilla mode may rename any file.
pub open spec fn folder_answers(
    folder: Folder,
    action: CleanupAction<Seq<char>>,
    reply: CleanupReply<Seq<char>>,
    after: Folder,
) -> bool {
    match action {
        CleanupAction::SwitchToVanilla => true,
        CleanupAction::Remove(name) => {
            ||| reply is Missing && !folder.contains_key(name) && after == folder
            ||| reply is Failed && folder.contains_key(name) && after == folder
            ||| {
                &&& reply matches CleanupReply::Removed(size) && (size == folder[name].len()
                    || size == 0)
                &&& folder.contains_key(name)
                &&& after == folder.remove(name)
            }
        },
        _ => after == folder,
    }
}

/// A cleanup of a directory from its beginning on.
pub open spec fn cleanup_folder_run(
    mode: Option<Mode>,
    files: Option<Seq<Seq<char>>>,
    cleanups: Seq<CleanupView>,
    replies: Seq<CleanupReply<Seq<char>>>,
    folders: Seq<Folder>,
) -> bool {
    &&& cleanup_run(mode, files, cleanups, replies)
    &&& folders.len() == cleanups.len()
    &&& forall|i: int|
        #![trigger replies[i]]
        0 <= i < replies.len() ==> folder_answers(
            folders[i],
            cleanup_action(cleanups[i]),
            replies[i],
            folders[i + 1],
        )
}

/// The point from which on a cleanup does nothing but remove files: after the
/// change to the vanilla mode, where it begins with one.
pub open spec fn removing_from(mode: Option<Mode>) -> int {
    if mode == Some(Mode::Hd) {
        1
    } else {
        0
    }
}

proof fn lemma_folder_run(
    mode: Option<Mode>,
    files: Option<Seq<Seq<char>>>,
    cleanups: Seq<CleanupView>,
    replies: Seq<CleanupReply<Seq<char>>>,
    folders: Seq<Folder>,
    i: int,
)
    requires
        cleanup_folder_run(mode, files, cleanups, replies, folders),
        removing_from(mode) <= i <= replies.len(),
    ensures
        !(cleanups[i].state is SwitchToVanilla),
        folders[i].submap_of(folders[removing_from(mode)]),
        forall|name: Seq<char>|
            folders[removing_from(mode)].contains_key(name) && !(#[trigger] folders[i].contains_key(
                name,
            )) ==> files is Some && files->0.contains(name),
        none_failed(replies.take(i)) && files is Some && (cleanups[i].state is Remove
            || cleanups[i].state is Finished) ==> forall|k: int|
            0 <= k < cleanups[i].index ==> !folders[i].contains_key(#[trigger] files->0[k]),
        cleanups[i].state is Finished && none_failed(replies.take(i)) && files is Some
            ==> cleanups[i].index == files->0.len(),
    decreases i,
{
    let from = removing_from(mode);
    lemma_run(mode, files, cleanups, replies, i);
    if i > from {
        lemma_folder_run(mode, files, cleanups, replies, folders, i - 1);
        lemma_run(mode, files, cleanups, replies, i - 1);
        let reply = replies[i - 1];
        let before = cleanups[i - 1];
        assert(cleanups[i] == cleanup_next(before, reply));
        assert(none_failed(replies.take(i)) ==> none_failed(replies.take(i - 1))) by {
            assert forall|j: int|
                none_failed(replies.take(i)) && 0 <= j < replies.take(i - 1).len() implies !(
            #[trigger] replies.take(i - 1)[j] is Failed) by {
                assert(replies.take(i)[j] == replies.take(i - 1)[j]);
            }
        }
        assert(none_failed(replies.take(i)) ==> !(replies.take(i)[i - 1] is Failed));
        if before.state is Remove {
            assert(files->0.contains(files->0[before.index]));
        }
    } else if i == 1 {
        let reply = replies[0];
        assert(cleanups[1] == cleanup_next(cleanups[0], reply));
        assert(none_failed(replies.take(1)) ==> !(replies.take(1)[0] is Failed));
    }
}

/// A cleanup touches no file but the pack's: at every point after the vanilla
/// mode is active, every other file is what it was.
pub proof fn law_cleanup_touches_only_the_pack(
    mode: Option<Mode>,
    files: Option<Seq<Seq<char>>>,
    cleanups: Seq<CleanupView>,
    replies: Seq<CleanupReply<Seq<char>>>,
    folders: Seq<Folder>,
    i: int,
    name: Seq<char>,
)
    requires
        cleanup_folder_run(mode, files, cleanups, replies, folders),
        removing_from(mode) <= i <= replies.len(),
        files is Some ==> !files->0.contains(name),
    ensures
        folders[i].contains_key(name) == folders[removing_from(mode)].contains_key(name),
        folders[i].contains_key(name) ==> folders[i][name] == folders[removing_from(mode)][name],
{
    lemma_folder_run(mode, files, cleanups, replies, folders, i);
}

/// A cleanup of a configured pack in which no operation fails leaves no file of
/// the pack.
pub proof fn law_cleanup_leaves_no_file_of_the_pack(
    mode: Option<Mode>,
    files: Seq<Seq<char>>,
    cleanups: Seq<CleanupView>,
    replies: Seq<CleanupReply<Seq<char>>>,
    folders: Seq<Folder>,
    k: int,
)
    requires
        cleanup_folder_run(mode, Some(files), cleanups, replies, folders),
        cleanups.last().state is Finished,
        none_failed(replies),
        0 <= k < files.len(),
    ensures
        !folders.last().contains_key(files[k]),
{
    let n = replies.len() as int;
    assert(replies.take(n) =~= replies);
    lemma_run(mode, Some(files), cleanups, replies, 0);
    lemma_folder_run(mode, Some(files), cleanups, replies, folders, n);
}

/// What came of the removal of each file of the pack, in the pack's order.
pub open spec fn outcomes(
    mode: Option<Mode>,
    replies: Seq<CleanupReply<Seq<char>>>,
) -> Seq<CleanupReply<Seq<char>>> {
    replies.skip(removing_from(mode) + 1)
}

/// The messages for the files that could not be removed, in the pack's order.
pub open spec fn failures(
    files: Seq<Seq<char>>,
    outcomes: Seq<CleanupReply<Seq<char>>>,
) -> Seq<Seq<char>>
    decreases outcomes.len(),
{
    if outcomes.len() == 0 {
        seq![]
    } else {
        let before = failures(files, outcomes.drop_last());
        match outcomes.last() {
            CleanupReply::Failed(error) => before.push(
                files[outcomes.len() - 1] + ": "@ + error,
            ),
            _ => before,
        }
    }
}

/// The bytes in a directory of the files that were removed.
pub open spec fn bytes_removed(
    folder: Folder,
    files: Seq<Seq<char>>,
    outcomes: Seq<CleanupReply<Seq<char>>>,
) -> nat
    decreases outcomes.len(),
{
    if outcomes.len() == 0 {
        0
    } else {
        bytes_removed(folder, files, outcomes.drop_last()) + if outcomes.last() is Removed {
            folder[files[outcomes.len() - 1]].len()
        } else {
            0
        }
    }
}

/// Whether a name is that of a file that was removed.
pub open spec fn was_removed(
    files: Seq<Seq<char>>,
    outcomes: Seq<CleanupReply<Seq<char>>>,
    name: Seq<char>,
) -> bool {
    exists|k: int| 0 <= k < outcomes.len() && files[k] == name && #[trigger] outcomes[k] is Removed
}

/// Whether the size of every file that was removed could be read: it is the one
/// that was reported.
pub open spec fn sizes_read(
    cleanups: Seq<CleanupView>,
    replies: Seq<CleanupReply<Seq<char>>>,
    folders: Seq<Folder>,
) -> bool {
    forall|i: int|
        #![trigger replies[i]]
        0 <= i < replies.len() ==> match (cleanup_action(cleanups[i]), replies[i]) {
            (CleanupAction::Remove(name), CleanupReply::Removed(size)) => size
                == folders[i][name].len(),
            _ => true,
        }
}

proof fn lemma_failures_empty(files: Seq<Seq<char>>, outcomes: Seq<CleanupReply<Seq<char>>>)
    ensures
        (failures(files, outcomes).len() == 0) == none_failed(outcomes),
    decreases outcomes.len(),
{
    if outcomes.len() > 0 {
        let before = outcomes.drop_last();
        lemma_failures_empty(files, before);
        assert(none_failed(outcomes) ==> !(outcomes[outcomes.len() - 1] is Failed));
        if none_failed(outcomes) {
            assert forall|j: int| 0 <= j < before.len() implies !(#[trigger] before[j] is Failed) by {
                assert(before[j] == outcomes[j]);
            }
        }
        if none_failed(before) && !(outcomes.last() is Failed) {
            assert forall|j: int| 0 <= j < outcomes.len() implies !(
            #[trigger] outcomes[j] is Failed) by {
                if j < before.len() {
                    assert(before[j] == outcomes[j]);
                }
            }
        }
    }
}

/// Whether a cleanup got to the files: the vanilla mode is active and the
/// directory was found.
pub open spec fn reached_files(
    mode: Option<Mode>,
    replies: Seq<CleanupReply<Seq<char>>>,
) -> bool {
    &&& replies.len() > removing_from(mode)
    &&& replies[0] is Ready
    &&& replies[removing_from(mode)] is Ready
}

/// The cleanup and the directory after the first `k` files.
spec fn files_invariant(
    start: Folder,
    files: Seq<Seq<char>>,
    k: int,
    done: Seq<CleanupReply<Seq<char>>>,
    cleanup: CleanupView,
    folder: Folder,
) -> bool {
    &&& 0 <= k <= files.len()
    &&& done.len() == k
    &&& cleanup.files == Some(files)
    &&& cleanup.index == k
    &&& cleanup.errors == failures(files, done)
    &&& cleanup.state == if k < files.len() {
        CleanupState::Remove
    } else {
        CleanupState::Finished(done_script(cleanup.freed, cleanup.errors))
    }
    &&& forall|name: Seq<char>| #[trigger]
        folder.contains_key(name) == (start.contains_key(name) && !was_removed(files, done, name))
    &&& forall|name: Seq<char>| #[trigger]
        folder.contains_key(name) ==> folder[name] == start[name]
}

proof fn lemma_one_file(
    start: Folder,
    files: Seq<Seq<char>>,
    k: int,
    done: Seq<CleanupReply<Seq<char>>>,
    cleanup: CleanupView,
    folder: Folder,
    reply: CleanupReply<Seq<char>>,
    after: Folder,
)
    requires
        files_invariant(start, files, k, done, cleanup, folder),
        k < files.len(),
        cleanup_answers(cleanup_action(cleanup), reply),
        folder_answers(folder, cleanup_action(cleanup), reply, after),
    ensures
        files_invariant(start, files, k + 1, done.push(reply), cleanup_next(cleanup, reply), after),
{
    let longer = done.push(reply);
    assert(longer.drop_last() =~= done);
    assert forall|name: Seq<char>| was_removed(files, longer, name) == (was_removed(
        files,
        done,
        name,
    ) || (reply is Removed && files[k] == name)) by {
        if was_removed(files, done, name) {
            let j = choose|j: int|
                0 <= j < done.len() && files[j] == name && #[trigger] done[j] is Removed;
            assert(longer[j] is Removed);
        }
        if reply is Removed && files[k] == name {
            assert(longer[k] is Removed);
        }
        if was_removed(files, longer, name) {
            let j = choose|j: int|
                0 <= j < longer.len() && files[j] == name && #[trigger] longer[j] is Removed;
            if j < k {
                assert(done[j] is Removed);
            }
        }
    }
    assert forall|name: Seq<char>| #[trigger] after.contains_key(name) == (start.contains_key(name)
        && !was_removed(files, longer, name)) by {
        assert(folder.contains_key(name) == (start.contains_key(name) && !was_removed(
            files,
            done,
            name,
        )));
    }
    assert forall|name: Seq<char>| #[trigger] after.contains_key(name) implies after[name]
        == start[name] by {
        assert(folder.contains_key(name));
    }
}

proof fn lemma_files(
    mode: Option<Mode>,
    files: Seq<Seq<char>>,
    cleanups: Seq<CleanupView>,
    replies: Seq<CleanupReply<Seq<char>>>,
    folders: Seq<Folder>,
    k: int,
)
    requires
        cleanup_folder_run(mode, Some(files), cleanups, replies, folders),
        reached_files(mode, replies),
        0 <= k <= outcomes(mode, replies).len(),
    ensures
        ({
            let from = removing_from(mode);
            let done = outcomes(mode, replies).take(k);
            let i = from + 1 + k;
            &&& files_invariant(folders[from], files, k, done, cleanups[i], folders[i])
            &&& sizes_read(cleanups, replies, folders) ==> cleanups[i].freed == bytes_removed(
                folders[from],
                files,
                done,
            )
        }),
    decreases k,
{
    let from = removing_from(mode);
    let all = outcomes(mode, replies);
    let i = from + 1 + k;
    if k == 0 {
        let first = replies[0];
        let last = replies[from];
        assert(cleanups[1] == cleanup_next(cleanups[0], first));
        assert(cleanups[from + 1] == cleanup_next(cleanups[from], last));
        assert(all.take(0) =~= seq![]);
        assert(failures(files, all.take(0)) =~= seq![]);
        assert(cleanups[i].errors =~= seq![]);
        assert(folders[i] == folders[from]);
        assert forall|name: Seq<char>| !was_removed(files, all.take(0), name) by {}
    } else {
        lemma_files(mode, files, cleanups, replies, folders, k - 1);
        let done = all.take(k - 1);
        let reply = replies[i - 1];
        let before = cleanups[i - 1];
        assert(all[k - 1] == reply);
        assert(all.take(k) =~= done.push(reply));
        assert(done.push(reply).drop_last() =~= done);
        assert(cleanups[i] == cleanup_next(before, reply));
        assert(cleanup_answers(cleanup_action(before), reply));
        assert(k - 1 < files.len());
        lemma_one_file(
            folders[from],
            files,
            k - 1,
            done,
            before,
            folders[i - 1],
            reply,
            folders[i],
        );
        assert(folders[i - 1].contains_key(files[k - 1]) ==> folders[i - 1][files[k - 1]]
            == folders[from][files[k - 1]]);
    }
}

/// A cleanup that got to the files removes what it can and reports the rest. It
/// leaves exactly the files whose removal did not succeed, unchanged. It reports
/// success exactly where no removal failed, and else the files that could not be
/// removed, each with its reason, in the pack's order. Where the sizes could be
/// read, the bytes it reports as freed are those of the files that were removed.
pub proof fn law_cleanup_reports_what_it_left(
    mode: Option<Mode>,
    files: Seq<Seq<char>>,
    cleanups: Seq<CleanupView>,
    replies: Seq<CleanupReply<Seq<char>>>,
    folders: Seq<Folder>,
)
    requires
        cleanup_folder_run(mode, Some(files), cleanups, replies, folders),
        reached_files(mode, replies),
        cleanups.last().state is Finished,
    ensures
        ({
            let start = folders[removing_from(mode)];
            let done = outcomes(mode, replies);
            let left = folders.last();
            let errors = failures(files, done);
            &&& done.len() == files.len()
            &&& forall|name: Seq<char>| #[trigger]
                left.contains_key(name) == (start.contains_key(name) && !was_removed(
                    files,
                    done,
                    name,
                ))
            &&& forall|name: Seq<char>| #[trigger]
                left.contains_key(name) ==> left[name] == start[name]
            &&& cleanups.last().state == CleanupState::Finished(
                done_script(removed_bytes(replies) as int, errors),
            )
            &&& (errors.len() == 0) == none_failed(done)
            &&& sizes_read(cleanups, replies, folders) ==> removed_bytes(replies) == bytes_removed(
                start,
                files,
                done,
            )
        }),
{
    let n = replies.len() as int;
    let done = outcomes(mode, replies);
    lemma_files(mode, files, cleanups, replies, folders, done.len() as int);
    lemma_failures_empty(files, done);
    assert(done.take(done.len() as int) =~= done);
    lemma_run(mode, Some(files), cleanups, replies, n);
    assert(replies.take(n) =~= replies);
}

/// The names of a pack's files are those of the first pack with the id, one for
/// one, and there are none exactly where no pack has it.
pub proof fn law_pack_files_are_those_of_the_pack(packs: Seq<OptionalPack>, id: Seq<char>)
    ensures
        pack_files(packs, id) is None <==> forall|i: int|
            0 <= i < packs.len() ==> (#[trigger] packs[i]).id@ != id,
        pack_files(packs, id) matches Some(names) ==> exists|place: int|
            {
                &&& 0 <= place < packs.len()
                &&& (#[trigger] packs[place]).id@ == id
                &&& forall|i: int| 0 <= i < place ==> (#[trigger] packs[i]).id@ != id
                &&& names.len() == packs[place].files@.len()
                &&& forall|k: int|
                    0 <= k < names.len() ==> #[trigger] names[k] == packs[place].files@[k].name@
            },
{
    law_configured_packs_are_found(packs, id);
    let place = pack_place(packs, id);
    if place < packs.len() {
        assert(packs[place].id@ == id);
    }
}

/// A cleanup that did not get to the files says why: the change of mode failed,
/// no pack is configured, or the directory was not found.
pub proof fn law_cleanup_says_why_it_stopped(cleanup: CleanupView, error: Seq<char>)
    ensures
        ({
            let failed = cleanup_next(cleanup, CleanupReply::Failed(error));
            let ready = cleanup_next(cleanup, CleanupReply::Ready);
            let unconfigured =
                "cleanupHdResult(false, 0, \"pack hd nao configurado em optional_packs\")"@;
            &&& cleanup_action(cleanup) is SwitchToVanilla ==> {
                &&& cleanup_action(failed) == CleanupAction::Report(
                    "cleanupHdResult(false, 0, \""@ + escaped(error, '"') + "\")"@,
                )
                &&& cleanup.files is Some ==> cleanup_action(ready) is Locate
                &&& cleanup.files is None ==> cleanup_action(ready) == CleanupAction::Report(
                    unconfigured,
                )
            }
            &&& cleanup_action(cleanup) is Locate ==> cleanup_action(failed)
                == CleanupAction::Report(
                "cleanupHdResult(false, 0, \"cwd: "@ + error + "\")"@,
            )
            &&& cleanup_ready(None) == CleanupState::Finished(unconfigured)
            &&& forall|files: Seq<Seq<char>>|
                #[trigger] cleanup_ready(Some(files)) == CleanupState::<Seq<char>>::Locate
        }),
{
    reveal_strlit("cleanupHdResult(false, 0, \"");
    reveal_strlit("pack hd nao configurado em optional_packs");
    reveal_strlit("\")");
    reveal_strlit("cleanupHdResult(false, 0, \"pack hd nao configurado em optional_packs\")");
    reveal_strlit("cwd: ");
    reveal_strlit("cleanupHdResult(false, 0, \"cwd: ");
    assert(stopped_script("pack hd nao configurado em optional_packs"@)
        =~= "cleanupHdResult(false, 0, \"pack hd nao configurado em optional_packs\")"@);
    assert(stopped_script("cwd: "@ + error) =~= "cleanupHdResult(false, 0, \"cwd: "@ + error
        + "\")"@);
}

/// The page's call for a cleanup that got to the files says success exactly where
/// every file is gone or was not there, and else lists every file that failed
/// with its reason, in the pack's order. Both give the bytes removed.
pub proof fn law_cleanup_says_success_only_without_failures(
    mode: Option<Mode>,
    files: Seq<Seq<char>>,
    cleanups: Seq<CleanupView>,
    replies: Seq<CleanupReply<Seq<char>>>,
    folders: Seq<Folder>,
)
    requires
        cleanup_folder_run(mode, Some(files), cleanups, replies, folders),
        reached_files(mode, replies),
        cleanups.last().state is Finished,
    ensures
        ({
            let done = outcomes(mode, replies);
            let freed = decimal(removed_bytes(replies));
            let script = if (forall|k: int|
                0 <= k < done.len() ==> !(#[trigger] done[k] is Failed)) {
                "cleanupHdResult(true, "@ + freed + ", \"\")"@
            } else {
                "cleanupHdResult(false, "@ + freed + ", \""@ + escaped(
                    joined(failures(files, done), "; "@),
                    '"',
                ) + "\")"@
            };
            &&& cleanup_action(cleanups.last()) == CleanupAction::Report(script)
            &&& done.len() == files.len()
        }),
{
    law_cleanup_reports_what_it_left(mode, files, cleanups, replies, folders);
}

/// Each removal is followed by the next file of the pack; the bytes freed and
/// the list of failures grow by what came of it, and by nothing else.
pub proof fn law_removals_follow_the_pack(cleanup: CleanupView, reply: CleanupReply<Seq<char>>)
    requires
        cleanup_action(cleanup) is Remove,
        cleanup.files is Some,
        0 <= cleanup.index < cleanup.files->0.len(),
    ensures
        ({
            let names = cleanup.files->0;
            let next = cleanup_next(cleanup, reply);
            &&& cleanup_action(cleanup) == CleanupAction::Remove(names[cleanup.index])
            &&& reply is Ready ==> next == cleanup
            &&& !(reply is Ready) ==> {
                &&& next.files == cleanup.files
                &&& next.index == cleanup.index + 1
                &&& next.index < names.len() ==> cleanup_action(next) == CleanupAction::Remove(
                    names[next.index],
                )
                &&& next.index == names.len() ==> cleanup_action(next) is Report
            }
            &&& reply is Missing ==> next.freed == cleanup.freed && next.errors == cleanup.errors
            &&& reply matches CleanupReply::Removed(size) ==> next.freed == cleanup.freed + size
                && next.errors == cleanup.errors
            &&& reply matches CleanupReply::Failed(error) ==> next.freed == cleanup.freed
                && next.errors == cleanup.errors.push(names[cleanup.index] + ": "@ + error)
        }),
{
}

/// A reply that cannot be one to the operation changes nothing, and the end is an
/// end.
pub proof fn law_stray_replies_change_no_cleanup(
    cleanup: CleanupView,
    reply: CleanupReply<Seq<char>>,
)
    requires
        match cleanup_action(cleanup) {
            CleanupAction::Remove(_) => reply is Ready,
            CleanupAction::Report(_) => true,
            _ => reply is Missing || reply is Removed,
        },
    ensures
        cleanup_next(cleanup, reply) == cleanup,
{
}

/// A reply fits exactly where the bytes freed stay within 64 bits.
pub proof fn law_cleanup_is_limited_by_size_alone(
    cleanup: CleanupView,
    reply: CleanupReply<Seq<char>>,
)
    ensures
        cleanup_fits(cleanup, reply) <==> !(cleanup_action(cleanup) is Remove && reply is Removed
            && cleanup.freed + reply->Removed_0 > 0xffff_ffff_ffff_ffff),
{
}

/// A cleanup is over after an operation for each file, and at most two more.
pub proof fn law_cleanup_comes_to_an_end(
    mode: Option<Mode>,
    files: Option<Seq<Seq<char>>>,
    cleanups: Seq<CleanupView>,
    replies: Seq<CleanupReply<Seq<char>>>,
)
    requires
        cleanup_run(mode, files, cleanups, replies),
    ensures
        replies.len() <= 2 + if files is Some {
            files->0.len()
        } else {
            0
        },
{
    lemma_cleanup_progress(mode, files, cleanups, replies, replies.len() as int);
}

proof fn lemma_cleanup_progress(
    mode: Option<Mode>,
    files: Option<Seq<Seq<char>>>,
    cleanups: Seq<CleanupView>,
    replies: Seq<CleanupReply<Seq<char>>>,
    i: int,
)
    requires
        cleanup_run(mode, files, cleanups, replies),
        0 <= i <= replies.len(),
    ensures
        cleanups[i].files == files,
        match cleanups[i].state {
            CleanupState::SwitchToVanilla => i == 0,
            CleanupState::Locate => i <= 1 && files is Some && cleanups[i].index == 0,
            CleanupState::Remove => files is Some && 0 <= cleanups[i].index < files->0.len() && i
                <= cleanups[i].index + 2,
            CleanupState::Finished(_) => i <= 2 + if files is Some {
                files->0.len()
            } else {
                0
            },
        },
    decreases i,
{
    if i > 0 {
        lemma_cleanup_progress(mode, files, cleanups, replies, i - 1);
        let reply = replies[i - 1];
        assert(cleanups[i] == cleanup_next(cleanups[i - 1], reply));
        lemma_run(mode, files, cleanups, replies, i - 1);
    }
}

} // verus!
