//! What a download of a file delivers from the first attempt to the last, over
//! one partial file and one server, and what becomes of it where it was
//! cancelled and is taken up again.
use crate::file_download::{
    fetch_action, fetch_interrupted, fetch_next, FetchReply, FetchState, FileDownload,
    STREAM_MAX_RETRIES,
};
use crate::file_download_laws::{fetch_run, has_digest, FilePair};
use crate::part_stream::{
    stream_action, stream_next, InterruptibleFnError, StreamAction, StreamJob, StreamOutcome,
    StreamReply, StreamState, RANGE_NOT_SATISFIABLE,
};
use crate::part_stream_laws::{
    law_part_stays_a_prefix, part_is_prefix, part_len, stream_run, Transfer,
};
use crate::text::decimal;
use vstd::prelude::*;

verus! {

/// What a server offers: the URL of a file, and its content.
pub struct Offer {
    pub url: Seq<char>,
    pub content: Seq<u8>,
}

/// An attempt from its beginning on.
pub struct Attempt {
    pub job: StreamJob<Seq<char>>,
    pub states: Seq<StreamState<Seq<char>>>,
    pub worlds: Seq<Transfer>,
    pub replies: Seq<StreamReply<Seq<char>>>,
}

/// A file's download from its beginning on, and the attempts behind its replies.
pub struct DownloadRun {
    pub downloads: Seq<FileDownload<Seq<char>>>,
    pub files: Seq<FilePair>,
    pub replies: Seq<FetchReply<Seq<char>>>,
    pub attempts: Seq<Attempt>,
}

/// Whether an attempt at what is offered began with one partial file, left
/// another and ended as the reply says.
pub open spec fn attempt_at(
    offer: Offer,
    size: u64,
    attempt: Attempt,
    before: Option<Seq<u8>>,
    reply: FetchReply<Seq<char>>,
    after: Option<Seq<u8>>,
) -> bool {
    &&& stream_run(
        attempt.job,
        offer.content,
        attempt.states,
        attempt.worlds,
        attempt.replies,
    )
    &&& attempt.job.url == offer.url
    &&& attempt.job.size == size
    &&& attempt.worlds[0].part == before
    &&& attempt.worlds.last().part == after
    &&& reply matches FetchReply::Streamed(outcome) && attempt.states.last()
        == StreamState::Finished(outcome)
}

/// Whether a run is a download of what is offered, with every attempt made on
/// the partial file as it then was.
pub open spec fn download_run(offer: Offer, size: u64, run: DownloadRun) -> bool {
    &&& fetch_run(run.downloads, run.files, run.replies)
    &&& run.attempts.len() == run.replies.len()
    &&& forall|i: int|
        #![trigger run.attempts[i]]
        0 <= i < run.replies.len() && run.downloads[i].state is Stream ==> attempt_at(
            offer,
            size,
            run.attempts[i],
            run.files[i].part,
            run.replies[i],
            run.files[i + 1].part,
        )
}

/// Whether a partial file, if there is one, is the beginning of a content.
pub open spec fn begins(part: Option<Seq<u8>>, content: Seq<u8>) -> bool {
    part matches Some(part) ==> part.is_prefix_of(content)
}

/// Whether a reply to an attempt's operation is one of a server and a disk that
/// do their work: the connection may be severed at any point, and nothing else
/// fails or is cancelled. A server that has no bytes from the byte asked for on
/// may say so.
pub open spec fn willing_reply(
    job: StreamJob<Seq<char>>,
    content: Seq<u8>,
    action: StreamAction<Seq<char>>,
    reply: StreamReply<Seq<char>>,
) -> bool {
    match action {
        StreamAction::Request { url, range } => {
            ||| reply is Response
            ||| reply is Failed
            ||| {
                &&& range is Some
                &&& job.resume_from >= content.len()
                &&& reply is Refused
                &&& reply->Refused_status == RANGE_NOT_SATISFIABLE
            }
        },
        StreamAction::RemovePart => true,
        StreamAction::NextChunk => {
            ||| reply is Ended
            ||| reply matches StreamReply::Chunk { len, cancelled } && !cancelled
            ||| reply matches StreamReply::Lost { error, cancelled } && !cancelled
        },
        _ => !(reply is Failed),
    }
}

/// Whether all replies of an attempt are such.
pub open spec fn willing_attempt(content: Seq<u8>, attempt: Attempt) -> bool {
    forall|i: int|
        #![trigger attempt.replies[i]]
        0 <= i < attempt.replies.len() ==> willing_reply(
            attempt.job,
            content,
            stream_action(attempt.job, attempt.states[i]),
            attempt.replies[i],
        )
}

/// Whether nothing is cancelled in a run, its attempts are such, and no
/// operation on the finished file fails.
pub open spec fn willing_run(offer: Offer, run: DownloadRun) -> bool {
    forall|i: int|
        #![trigger run.replies[i]]
        0 <= i < run.replies.len() ==> match run.replies[i] {
            FetchReply::Cancelled(cancelled) => !cancelled,
            FetchReply::Streamed(_) => willing_attempt(offer.content, run.attempts[i]),
            FetchReply::Ready => true,
            FetchReply::Failed(_) => false,
            FetchReply::Paused { over, cancelled } => !cancelled,
            FetchReply::Digested(_) => true,
            FetchReply::NotPromoted { part, dest, error } => false,
        }
}

/// How many attempts were lost.
pub open spec fn lost_attempts(replies: Seq<FetchReply<Seq<char>>>) -> nat
    decreases replies.len(),
{
    if replies.len() == 0 {
        0
    } else {
        lost_attempts(replies.drop_last()) + match replies.last() {
            FetchReply::Streamed(StreamOutcome::Transient(_)) => 1nat,
            _ => 0nat,
        }
    }
}

/// A run's end.
pub open spec fn run_end(run: DownloadRun) -> FetchState<Seq<char>> {
    run.downloads.last().state
}

proof fn lemma_attempt_keeps_prefix(
    offer: Offer,
    size: u64,
    attempt: Attempt,
    before: Option<Seq<u8>>,
    reply: FetchReply<Seq<char>>,
    after: Option<Seq<u8>>,
)
    requires
        attempt_at(offer, size, attempt, before, reply, after),
        begins(before, offer.content),
    ensures
        begins(after, offer.content),
{
    law_part_stays_a_prefix(
        attempt.job,
        offer.content,
        attempt.states,
        attempt.worlds,
        attempt.replies,
        attempt.replies.len() as int,
    );
}

spec fn attempt_invariant(content: Seq<u8>, state: StreamState<Seq<char>>, world: Transfer) -> bool {
    match state {
        StreamState::DropPart(_) => false,
        StreamState::Finished(StreamOutcome::Fatal(_)) => false,
        StreamState::Finished(StreamOutcome::Done) => world.part == Some(content),
        _ => true,
    }
}

proof fn lemma_willing_attempt(content: Seq<u8>, attempt: Attempt, i: int)
    requires
        stream_run(attempt.job, content, attempt.states, attempt.worlds, attempt.replies),
        part_is_prefix(attempt.worlds[0], content),
        attempt.job.size == content.len(),
        willing_attempt(content, attempt),
        0 <= i <= attempt.replies.len(),
    ensures
        attempt_invariant(content, attempt.states[i], attempt.worlds[i]),
    decreases i,
{
    if i > 0 {
        lemma_willing_attempt(content, attempt, i - 1);
        law_part_stays_a_prefix(
            attempt.job,
            content,
            attempt.states,
            attempt.worlds,
            attempt.replies,
            i,
        );
        let reply = attempt.replies[i - 1];
        assert(attempt.states[i] == stream_next(attempt.job, attempt.states[i - 1], reply));
        assert(attempt.job.resume_from == part_len(attempt.worlds[0]));
        if attempt.states[i - 1] is Measure {
            let part = attempt.worlds[i].part->0;
            if part.len() == content.len() {
                assert(part =~= content);
            }
        }
    }
}

proof fn lemma_lost_grows(replies: Seq<FetchReply<Seq<char>>>, i: int)
    requires
        0 <= i <= replies.len(),
    ensures
        lost_attempts(replies.take(i)) <= lost_attempts(replies),
    decreases replies.len() - i,
{
    if i == replies.len() {
        assert(replies.take(i) =~= replies);
    } else {
        lemma_lost_grows(replies, i + 1);
        assert(replies.take(i + 1).drop_last() =~= replies.take(i));
    }
}

proof fn lemma_part_begins(offer: Offer, size: u64, run: DownloadRun, i: int)
    requires
        download_run(offer, size, run),
        begins(run.files[0].part, offer.content),
        0 <= i <= run.replies.len(),
    ensures
        begins(run.files[i].part, offer.content),
    decreases i,
{
    if i > 0 {
        lemma_part_begins(offer, size, run, i - 1);
        let reply = run.replies[i - 1];
        assert(run.downloads[i] == fetch_next(run.downloads[i - 1], reply));
        if run.downloads[i - 1].state is Stream {
            lemma_attempt_keeps_prefix(
                offer,
                size,
                run.attempts[i - 1],
                run.files[i - 1].part,
                reply,
                run.files[i].part,
            );
        }
    }
}

spec fn run_invariant(offer: Offer, download: FileDownload<Seq<char>>, files: FilePair) -> bool {
    match download.state {
        FetchState::DigestPart => files.part == Some(offer.content),
        FetchState::Promote => files.part == Some(offer.content),
        FetchState::RemovePart(_) => false,
        FetchState::Finished(result) => {
            &&& result == Ok::<(), InterruptibleFnError<Seq<char>>>(())
            &&& files == (FilePair { part: None, dest: Some(offer.content) })
        },
        _ => true,
    }
}

proof fn lemma_willing_run(offer: Offer, size: u64, run: DownloadRun, i: int)
    requires
        download_run(offer, size, run),
        begins(run.files[0].part, offer.content),
        size == offer.content.len(),
        has_digest(offer.content, run.downloads[0].sha256),
        willing_run(offer, run),
        lost_attempts(run.replies) <= STREAM_MAX_RETRIES,
        0 <= i <= run.replies.len(),
    ensures
        run_invariant(offer, run.downloads[i], run.files[i]),
        run.downloads[i].sha256 == run.downloads[0].sha256,
        run.downloads[i].retries == lost_attempts(run.replies.take(i)),
    decreases i,
{
    if i > 0 {
        lemma_willing_run(offer, size, run, i - 1);
        lemma_part_begins(offer, size, run, i - 1);
        lemma_lost_grows(run.replies, i);
        let reply = run.replies[i - 1];
        assert(run.downloads[i] == fetch_next(run.downloads[i - 1], reply));
        assert(run.replies.take(i).drop_last() =~= run.replies.take(i - 1));
        assert(run.replies.take(i).last() == reply);
        if run.downloads[i - 1].state is Stream {
            let attempt = run.attempts[i - 1];
            assert(attempt_at(
                offer,
                size,
                attempt,
                run.files[i - 1].part,
                reply,
                run.files[i].part,
            ));
            lemma_willing_attempt(offer.content, attempt, attempt.replies.len() as int);
        }
    }
}

/// The partial file is the beginning of what the server offers at every point
/// of a download that found it so, through all its attempts, whatever fails or
/// is cancelled.
pub proof fn law_download_keeps_a_prefix(offer: Offer, size: u64, run: DownloadRun, i: int)
    requires
        download_run(offer, size, run),
        begins(run.files[0].part, offer.content),
        0 <= i <= run.replies.len(),
    ensures
        begins(run.files[i].part, offer.content),
{
    lemma_part_begins(offer, size, run, i);
}

/// A download that is not cancelled, of a file that is offered with the
/// configured size and digest, from a disk that does its work, can only end with
/// success, as long as no more connections are severed than there are retries:
/// the file is then the one that is offered, and no partial file is left,
/// whatever beginning of it was there before.
pub proof fn law_download_delivers_the_file(offer: Offer, size: u64, run: DownloadRun)
    requires
        download_run(offer, size, run),
        begins(run.files[0].part, offer.content),
        size == offer.content.len(),
        has_digest(offer.content, run.downloads[0].sha256),
        willing_run(offer, run),
        lost_attempts(run.replies) <= STREAM_MAX_RETRIES,
        run_end(run) is Finished,
    ensures
        run_end(run) == FetchState::<Seq<char>>::Finished(Ok(())),
        run.files.last() == (FilePair { part: None, dest: Some(offer.content) }),
{
    lemma_willing_run(offer, size, run, run.replies.len() as int);
}

/// A download that was cancelled and is taken up again ends as one that was
/// never interrupted: it asks for the bytes that are missing, and where both end,
/// both end with success and leave the same files.
pub proof fn law_resumed_download_ends_as_an_uninterrupted_one(
    offer: Offer,
    size: u64,
    cancelled: DownloadRun,
    resumed: DownloadRun,
    uninterrupted: DownloadRun,
)
    requires
        download_run(offer, size, cancelled),
        begins(cancelled.files[0].part, offer.content),
        run_end(cancelled) == fetch_interrupted(),
        size == offer.content.len(),
        has_digest(offer.content, cancelled.downloads[0].sha256),
        // The second download begins with what the first one left.
        download_run(offer, size, resumed),
        resumed.downloads[0] == cancelled.downloads[0],
        resumed.files[0] == cancelled.files.last(),
        willing_run(offer, resumed),
        lost_attempts(resumed.replies) <= STREAM_MAX_RETRIES,
        run_end(resumed) is Finished,
        // The other one begins where the first one began.
        download_run(offer, size, uninterrupted),
        uninterrupted.downloads[0] == cancelled.downloads[0],
        uninterrupted.files[0] == cancelled.files[0],
        willing_run(offer, uninterrupted),
        lost_attempts(uninterrupted.replies) <= STREAM_MAX_RETRIES,
        run_end(uninterrupted) is Finished,
    ensures
        run_end(resumed) == FetchState::<Seq<char>>::Finished(Ok(())),
        run_end(uninterrupted) == run_end(resumed),
        resumed.files.last() == (FilePair { part: None, dest: Some(offer.content) }),
        uninterrupted.files.last() == resumed.files.last(),
        cancelled.files.last().part matches Some(part) ==> part.len() > 0 ==> {
            &&& part.is_prefix_of(offer.content)
            &&& fetch_action(resumed.downloads[1].state) is Stream
            &&& stream_action(resumed.attempts[1].job, StreamState::Ask) == (
            StreamAction::Request {
                url: offer.url,
                range: Some("bytes="@ + decimal(part.len()) + "-"@),
            })
        },
{
    lemma_part_begins(offer, size, cancelled, cancelled.replies.len() as int);
    law_download_delivers_the_file(offer, size, resumed);
    law_download_delivers_the_file(offer, size, uninterrupted);
    let first = resumed.replies[0];
    assert(resumed.downloads[1] == fetch_next(resumed.downloads[0], first));
    let attempt = resumed.attempts[1];
    assert(resumed.replies.len() > 1);
    assert(attempt_at(
        offer,
        size,
        attempt,
        resumed.files[1].part,
        resumed.replies[1],
        resumed.files[2].part,
    ));
    assert(attempt.job.resume_from == part_len(attempt.worlds[0]));
}

} // verus!
