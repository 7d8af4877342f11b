//! The executable values and the plain ones that the other laws speak of: each
//! stands for the other in every part, so that what holds of the plain ones
//! holds of what the launcher does.
use crate::file_download::{
    fetch_outcome, FetchAction, FetchReply, FetchState, FileDownload,
};
use crate::hd_cleanup::{CleanupAction, CleanupReply, CleanupState, HdCleanup};
use crate::mode::GameFile;
use crate::mode_switch::{DiskAction, DiskReply, RequiredDigests, SwitchPlan, SwitchState};
use crate::part_stream::{
    InterruptibleFnError, StreamAction, StreamJob, StreamOutcome, StreamReply, StreamState,
};
use vstd::prelude::*;

verus! {

/// What the disk replies to a change of mode is taken in full.
pub proof fn law_disk_replies_are_taken_in_full(
    found: bool,
    digest: String,
    path: String,
    error: String,
)
    ensures
        DiskReply::<String>::Located@ == DiskReply::<Seq<char>>::Located,
        DiskReply::<String>::Found(found)@ == DiskReply::<Seq<char>>::Found(found),
        DiskReply::Digested(digest)@ == DiskReply::Digested(digest@),
        DiskReply::<String>::Renamed@ == DiskReply::<Seq<char>>::Renamed,
        (DiskReply::Failed { path, error })@ == (DiskReply::Failed { path: path@, error: error@ }),
{
}

/// A change of mode orders the operation that it is at, on the same files.
pub proof fn law_disk_operations_are_ordered_in_full(a: GameFile, b: GameFile, message: String)
    ensures
        DiskAction::<String>::Locate@ == DiskAction::<Seq<char>>::Locate,
        DiskAction::<String>::Look(a)@ == DiskAction::<Seq<char>>::Look(a),
        DiskAction::<String>::Digest(a)@ == DiskAction::<Seq<char>>::Digest(a),
        DiskAction::<String>::Rename(a, b)@ == DiskAction::<Seq<char>>::Rename(a, b),
        DiskAction::<String>::Finish(Ok(()))@ == DiskAction::<Seq<char>>::Finish(Ok(())),
        DiskAction::<String>::Finish(Err(message))@ == DiskAction::Finish(Err(message@)),
{
}

/// The plan of a change of mode keeps both modes, the digests and who asked.
pub proof fn law_switch_plan_is_kept(plan: SwitchPlan<String>)
    ensures
        plan@.from == plan.from,
        plan@.to == plan.to,
        plan@.requested == plan.requested,
        plan.required is None ==> plan@.required is None,
        plan.required matches Some(required) ==> plan@.required == Some(
            RequiredDigests { ragexe: required.ragexe@, data: required.data@ },
        ),
{
}

/// The point that a change of mode has come to is told apart from every other.
pub proof fn law_switch_states_are_told_apart(a: SwitchState<String>, b: SwitchState<String>)
    requires
        a@ == b@,
    ensures
        a is LocateDirectory == b is LocateDirectory,
        a is SeekRagexe == b is SeekRagexe,
        a is SeekDataIni == b is SeekDataIni,
        a is CheckRagexe == b is CheckRagexe,
        a is CheckDataIni == b is CheckDataIni,
        a is SeekActiveRagexe == b is SeekActiveRagexe,
        a is ParkRagexe == b is ParkRagexe,
        a is SeekActiveDataIni == b is SeekActiveDataIni,
        a is ParkDataIni == b is ParkDataIni,
        a is RestoreRagexe == b is RestoreRagexe,
        a is ActivateRagexe == b is ActivateRagexe,
        a is ActivateDataIni == b is ActivateDataIni,
        a is Finished == b is Finished,
        a is RestoreRagexe ==> a->RestoreRagexe_0@ == b->RestoreRagexe_0@,
{
}

/// A change of mode begins where it is said to begin.
pub proof fn law_switch_begins_at_the_beginning(state: SwitchState<String>)
    ensures
        state@ == SwitchState::<Seq<char>>::LocateDirectory <==> state is LocateDirectory,
{
}

/// How an attempt ended is told in full.
pub proof fn law_attempt_outcomes_are_told_in_full(message: String)
    ensures
        InterruptibleFnError::<String>::Interrupted@ == InterruptibleFnError::<
            Seq<char>,
        >::Interrupted,
        InterruptibleFnError::Failed(message)@ == InterruptibleFnError::Failed(message@),
        StreamOutcome::<String>::Done@ == StreamOutcome::<Seq<char>>::Done,
        StreamOutcome::Transient(message)@ == StreamOutcome::Transient(message@),
        StreamOutcome::Fatal(InterruptibleFnError::Failed(message))@ == StreamOutcome::Fatal(
            InterruptibleFnError::Failed(message@),
        ),
        StreamOutcome::<String>::Fatal(InterruptibleFnError::Interrupted)@ == StreamOutcome::<
            Seq<char>,
        >::Fatal(InterruptibleFnError::Interrupted),
{
}

/// What is to be fetched is kept.
pub proof fn law_stream_job_is_kept(job: StreamJob<String>)
    ensures
        job@.url == job.url@,
        job@.size == job.size,
        job@.resume_from == job.resume_from,
{
}

/// What the network and the disk reply to an attempt is taken in full.
pub proof fn law_attempt_replies_are_taken_in_full(
    text: String,
    status: u16,
    content_length: Option<u64>,
    n: u64,
    cancelled: bool,
)
    ensures
        StreamReply::<String>::Ready@ == StreamReply::<Seq<char>>::Ready,
        StreamReply::Failed(text)@ == StreamReply::Failed(text@),
        (StreamReply::<String>::Response { status, content_length })@ == (StreamReply::<
            Seq<char>,
        >::Response { status, content_length }),
        StreamReply::Unbuildable(text)@ == StreamReply::Unbuildable(text@),
        (StreamReply::Refused { status, error: text })@ == (StreamReply::Refused {
            status,
            error: text@,
        }),
        (StreamReply::<String>::Chunk { len: n, cancelled })@ == (StreamReply::<Seq<char>>::Chunk {
            len: n,
            cancelled,
        }),
        (StreamReply::Lost { error: text, cancelled })@ == (StreamReply::Lost {
            error: text@,
            cancelled,
        }),
        StreamReply::<String>::Ended@ == StreamReply::<Seq<char>>::Ended,
        (StreamReply::<String>::Written { since_report_ms: n })@ == (StreamReply::<
            Seq<char>,
        >::Written { since_report_ms: n }),
        StreamReply::<String>::Measured(n)@ == StreamReply::<Seq<char>>::Measured(n),
{
}

/// An attempt orders the operation that it is at, with the same values.
pub proof fn law_attempt_operations_are_ordered_in_full(
    action: StreamAction<String>,
    url: String,
    range: String,
)
    ensures
        action is BuildClient == action@ is BuildClient,
        action is Request == action@ is Request,
        (StreamAction::Request { url, range: Some(range) })@ == (StreamAction::Request {
            url: url@,
            range: Some(range@),
        }),
        (StreamAction::Request { url, range: None })@ == (StreamAction::Request {
            url: url@,
            range: None,
        }),
        action is RemovePart == action@ is RemovePart,
        action is OpenPart == action@ is OpenPart,
        action is OpenPart ==> action->append == action@->append,
        action is Report == action@ is Report,
        action is Report ==> {
            &&& action->downloaded == action@->downloaded
            &&& action->total == action@->total
            &&& action->received == action@->received
        },
        action is NextChunk == action@ is NextChunk,
        action is WriteChunk == action@ is WriteChunk,
        action is Flush == action@ is Flush,
        action is MeasurePart == action@ is MeasurePart,
        action is Finish == action@ is Finish,
        action matches StreamAction::Finish(outcome) ==> action@ == StreamAction::Finish(outcome@),
{
}

/// The point that an attempt has come to is told in full.
pub proof fn law_attempt_states_are_told_in_full(
    total: u64,
    downloaded: u64,
    started: u64,
    len: u64,
    append: bool,
    error: String,
    outcome: StreamOutcome<String>,
)
    ensures
        StreamState::<String>::Connect@ == StreamState::<Seq<char>>::Connect,
        StreamState::<String>::Ask@ == StreamState::<Seq<char>>::Ask,
        (StreamState::<String>::Discard { total })@ == (StreamState::<Seq<char>>::Discard {
            total,
        }),
        (StreamState::<String>::Open { append, total })@ == (StreamState::<Seq<char>>::Open {
            append,
            total,
        }),
        (StreamState::<String>::Announce { total, downloaded })@ == (StreamState::<
            Seq<char>,
        >::Announce { total, downloaded }),
        (StreamState::<String>::Receive { total, downloaded, started })@ == (StreamState::<
            Seq<char>,
        >::Receive { total, downloaded, started }),
        (StreamState::<String>::Store { total, downloaded, started, len })@ == (StreamState::<
            Seq<char>,
        >::Store { total, downloaded, started, len }),
        (StreamState::<String>::Report { total, downloaded, started })@ == (StreamState::<
            Seq<char>,
        >::Report { total, downloaded, started }),
        StreamState::SaveRest(error)@ == StreamState::SaveRest(error@),
        StreamState::<String>::Flush@ == StreamState::<Seq<char>>::Flush,
        StreamState::<String>::Measure@ == StreamState::<Seq<char>>::Measure,
        StreamState::DropPart(outcome)@ == StreamState::DropPart(outcome@),
        StreamState::Finished(outcome)@ == StreamState::Finished(outcome@),
{
}

/// What is replied to a file's download is taken in full.
pub proof fn law_download_replies_are_taken_in_full(
    flag: bool,
    other: bool,
    text: String,
    part: String,
    dest: String,
    outcome: StreamOutcome<String>,
)
    ensures
        FetchReply::<String>::Cancelled(flag)@ == FetchReply::<Seq<char>>::Cancelled(flag),
        FetchReply::Streamed(outcome)@ == FetchReply::Streamed(outcome@),
        FetchReply::<String>::Ready@ == FetchReply::<Seq<char>>::Ready,
        FetchReply::Failed(text)@ == FetchReply::Failed(text@),
        (FetchReply::<String>::Paused { over: flag, cancelled: other })@ == (FetchReply::<
            Seq<char>,
        >::Paused { over: flag, cancelled: other }),
        FetchReply::Digested(text)@ == FetchReply::Digested(text@),
        (FetchReply::NotPromoted { part, dest, error: text })@ == (FetchReply::NotPromoted {
            part: part@,
            dest: dest@,
            error: text@,
        }),
{
}

/// A file's download orders the operation that it is at, and ends as it says.
pub proof fn law_download_operations_are_ordered_in_full(n: u64, error: InterruptibleFnError<String>)
    ensures
        FetchAction::<String>::LookForCancel@ == FetchAction::<Seq<char>>::LookForCancel,
        FetchAction::<String>::Stream@ == FetchAction::<Seq<char>>::Stream,
        FetchAction::<String>::BeginPause(n)@ == FetchAction::<Seq<char>>::BeginPause(n),
        FetchAction::<String>::PollPause@ == FetchAction::<Seq<char>>::PollPause,
        FetchAction::<String>::Sleep(n)@ == FetchAction::<Seq<char>>::Sleep(n),
        FetchAction::<String>::DigestPart@ == FetchAction::<Seq<char>>::DigestPart,
        FetchAction::<String>::RemovePart@ == FetchAction::<Seq<char>>::RemovePart,
        FetchAction::<String>::Promote@ == FetchAction::<Seq<char>>::Promote,
        FetchAction::<String>::Finish(Ok(()))@ == FetchAction::<Seq<char>>::Finish(Ok(())),
        FetchAction::<String>::Finish(Err(error))@ == FetchAction::Finish(Err(error@)),
        fetch_outcome(Ok(())) == Ok::<(), InterruptibleFnError<Seq<char>>>(()),
        fetch_outcome(Err(error)) == Err::<(), InterruptibleFnError<Seq<char>>>(error@),
{
}

/// A file's download keeps its file, its retries and its point.
pub proof fn law_download_is_kept(
    download: FileDownload<String>,
    n: u64,
    message: String,
    error: InterruptibleFnError<String>,
)
    ensures
        download@.name == download.name@,
        download@.sha256 == download.sha256@,
        download@.retries == download.retries,
        download@.state == download.state@,
        FetchState::<String>::LookForCancel@ == FetchState::<Seq<char>>::LookForCancel,
        FetchState::<String>::Stream@ == FetchState::<Seq<char>>::Stream,
        FetchState::<String>::BeginPause(n)@ == FetchState::<Seq<char>>::BeginPause(n),
        FetchState::<String>::PollPause@ == FetchState::<Seq<char>>::PollPause,
        FetchState::<String>::Sleep@ == FetchState::<Seq<char>>::Sleep,
        FetchState::<String>::DigestPart@ == FetchState::<Seq<char>>::DigestPart,
        FetchState::RemovePart(message)@ == FetchState::RemovePart(message@),
        FetchState::<String>::Promote@ == FetchState::<Seq<char>>::Promote,
        FetchState::<String>::Finished(Ok(()))@ == FetchState::<Seq<char>>::Finished(Ok(())),
        FetchState::<String>::Finished(Err(error))@ == FetchState::Finished(Err(error@)),
{
}

/// A cleanup takes replies in full, orders the operation that it is at, and keeps
/// what it has done.
pub proof fn law_cleanup_is_kept(cleanup: HdCleanup, text: String, n: u64)
    ensures
        CleanupReply::<String>::Ready@ == CleanupReply::<Seq<char>>::Ready,
        CleanupReply::Failed(text)@ == CleanupReply::Failed(text@),
        CleanupReply::<String>::Missing@ == CleanupReply::<Seq<char>>::Missing,
        CleanupReply::<String>::Removed(n)@ == CleanupReply::<Seq<char>>::Removed(n),
        CleanupAction::<String>::SwitchToVanilla@ == CleanupAction::<Seq<char>>::SwitchToVanilla,
        CleanupAction::<String>::Locate@ == CleanupAction::<Seq<char>>::Locate,
        CleanupAction::Remove(text)@ == CleanupAction::Remove(text@),
        CleanupAction::Report(text)@ == CleanupAction::Report(text@),
        CleanupState::<String>::SwitchToVanilla@ == CleanupState::<Seq<char>>::SwitchToVanilla,
        CleanupState::<String>::Locate@ == CleanupState::<Seq<char>>::Locate,
        CleanupState::<String>::Remove@ == CleanupState::<Seq<char>>::Remove,
        CleanupState::Finished(text)@ == CleanupState::Finished(text@),
        cleanup@.state == cleanup.state@,
        cleanup@.index == cleanup.index,
        cleanup@.freed == cleanup.freed,
        cleanup@.errors.len() == cleanup.errors@.len(),
        forall|i: int|
            0 <= i < cleanup.errors@.len() ==> cleanup@.errors[i] == (
            #[trigger] cleanup.errors@[i])@,
        cleanup.files is None ==> cleanup@.files is None,
        cleanup.files matches Some(files) ==> {
            &&& cleanup@.files is Some
            &&& cleanup@.files->0.len() == files@.len()
            &&& forall|i: int|
                0 <= i < files@.len() ==> cleanup@.files->0[i] == (#[trigger] files@[i])@
        },
{
}

} // verus!
