//! What holds of every download of a file, whatever the network and the disk
//! do.
use crate::digest::{hex, same_ignoring_case, sha256};
use crate::file_download::{
    backoff_secs, fetch_action, fetch_interrupted, fetch_next, FetchAction, FetchReply, FetchState,
    FileDownload, STREAM_MAX_RETRIES,
};
use crate::part_stream::{InterruptibleFnError, StreamOutcome};
use crate::text::decimal;
use vstd::prelude::*;

verus! {

/// The contents of the partial file and of the file under its final name.
pub struct FilePair {
    pub part: Option<Seq<u8>>,
    pub dest: Option<Seq<u8>>,
}

/// How the network and the disk may answer an operation. An attempt may leave
/// anything in the partial file; the digest that is reported is true; the
/// partial file gets its final name or stays where it is.
pub open spec fn fetch_answers(
    files: FilePair,
    action: FetchAction<Seq<char>>,
    reply: FetchReply<Seq<char>>,
    after: FilePair,
) -> bool {
    match action {
        FetchAction::LookForCancel => reply is Cancelled && after == files,
        FetchAction::Stream => reply is Streamed && after.dest == files.dest,
        FetchAction::BeginPause(_) => reply is Ready && after == files,
        FetchAction::PollPause => reply is Paused && after == files,
        FetchAction::Sleep(_) => reply is Ready && after == files,
        FetchAction::DigestPart => after == files && (reply is Failed || (files.part is Some
            && reply == FetchReply::Digested(hex(sha256(files.part->0))))),
        FetchAction::RemovePart => {
            ||| reply is Failed && after == files
            ||| reply is Ready && after == (FilePair { part: None, ..files })
        },
        FetchAction::Promote => {
            ||| reply is NotPromoted && after == files
            ||| reply is Ready && files.part is Some && after == (FilePair {
                part: None,
                dest: files.part,
            })
        },
        FetchAction::Finish(_) => false,
    }
}

/// A download from its beginning on: what it and the files went through, and
/// the replies that led from each point to the next.
pub open spec fn fetch_run(
    downloads: Seq<FileDownload<Seq<char>>>,
    files: Seq<FilePair>,
    replies: Seq<FetchReply<Seq<char>>>,
) -> bool {
    &&& downloads.len() == replies.len() + 1
    &&& files.len() == replies.len() + 1
    &&& downloads[0].state == FetchState::<Seq<char>>::LookForCancel
    &&& downloads[0].retries == 0
    &&& forall|i: int|
        #![trigger replies[i]]
        0 <= i < replies.len() ==> {
            &&& fetch_answers(
                files[i],
                fetch_action(downloads[i].state),
                replies[i],
                files[i + 1],
            )
            &&& downloads[i + 1] == fetch_next(downloads[i], replies[i])
        }
}

/// Whether a content has the digest that the download must have.
pub open spec fn has_digest(content: Seq<u8>, expected: Seq<char>) -> bool {
    same_ignoring_case(hex(sha256(content)), expected)
}

/// How many attempts were made.
pub open spec fn attempts(replies: Seq<FetchReply<Seq<char>>>) -> nat
    decreases replies.len(),
{
    if replies.len() == 0 {
        0
    } else {
        attempts(replies.drop_last()) + if replies.last() is Streamed {
            1nat
        } else {
            0nat
        }
    }
}

/// The seconds of pause that were begun.
pub open spec fn paused_secs(downloads: Seq<FileDownload<Seq<char>>>) -> nat
    decreases downloads.len(),
{
    if downloads.len() == 0 {
        0
    } else {
        paused_secs(downloads.drop_last()) + match downloads.last().state {
            FetchState::BeginPause(secs) => secs as nat,
            _ => 0,
        }
    }
}

/// The seconds that a number of retries waits for in all.
pub open spec fn backoff_total(retries: nat) -> nat
    decreases retries,
{
    if retries == 0 {
        0
    } else {
        backoff_total((retries - 1) as nat) + backoff_secs((retries - 1) as nat)
    }
}

/// The attempts that a state accounts for: one for each retry, and the one that
/// led on from streaming.
spec fn accounted(download: FileDownload<Seq<char>>) -> nat {
    download.retries as nat + match download.state {
        FetchState::DigestPart => 1nat,
        FetchState::RemovePart(_) => 1nat,
        FetchState::Promote => 1nat,
        FetchState::Finished(_) => 1nat,
        _ => 0nat,
    }
}

spec fn run_invariant(
    first: FileDownload<Seq<char>>,
    start: FilePair,
    download: FileDownload<Seq<char>>,
    files: FilePair,
) -> bool {
    &&& download.name == first.name
    &&& download.sha256 == first.sha256
    &&& download.retries <= STREAM_MAX_RETRIES
    &&& match download.state {
        FetchState::Promote => {
            &&& files.dest == start.dest
            &&& files.part is Some
            &&& has_digest(files.part->0, first.sha256)
        },
        FetchState::Finished(Ok(_)) => {
            &&& files.dest is Some
            &&& has_digest(files.dest->0, first.sha256)
            &&& files.part is None
        },
        _ => files.dest == start.dest,
    }
}

proof fn lemma_run(
    downloads: Seq<FileDownload<Seq<char>>>,
    files: Seq<FilePair>,
    replies: Seq<FetchReply<Seq<char>>>,
    i: int,
)
    requires
        fetch_run(downloads, files, replies),
        0 <= i <= replies.len(),
    ensures
        run_invariant(downloads[0], files[0], downloads[i], files[i]),
        attempts(replies.take(i)) <= accounted(downloads[i]),
        paused_secs(downloads.take(i + 1)) == backoff_total(downloads[i].retries as nat),
    decreases i,
{
    if i == 0 {
        assert(downloads.take(1).drop_last() =~= Seq::empty());
        assert(paused_secs(downloads.take(1).drop_last()) == 0);
        assert(downloads.take(1).last() == downloads[0]);
    } else {
        lemma_run(downloads, files, replies, i - 1);
        let reply = replies[i - 1];
        assert(downloads[i] == fetch_next(downloads[i - 1], reply));
        assert(replies.take(i).drop_last() =~= replies.take(i - 1));
        assert(replies.take(i).last() == reply);
        assert(downloads.take(i + 1).drop_last() =~= downloads.take(i));
        assert(downloads.take(i + 1).last() == downloads[i]);
        let before = downloads[i - 1].retries as nat;
        assert(backoff_total(before + 1) == backoff_total(before) + backoff_secs(before));
        assert(backoff_secs(before) <= 16) by {
            reveal_with_fuel(backoff_secs, 6);
        }
    }
}

/// A file that has not the digest it must have never gets its final name: at
/// every point but a successful end, the file there is the one that was there
/// before, or none as before. A successful end leaves one that has the digest,
/// and no partial file.
pub proof fn law_only_checked_files_are_promoted(
    downloads: Seq<FileDownload<Seq<char>>>,
    files: Seq<FilePair>,
    replies: Seq<FetchReply<Seq<char>>>,
    i: int,
)
    requires
        fetch_run(downloads, files, replies),
        0 <= i <= replies.len(),
    ensures
        downloads[i].state != FetchState::<Seq<char>>::Finished(Ok(())) ==> files[i].dest
            == files[0].dest,
        downloads[i].state == FetchState::<Seq<char>>::Finished(Ok(())) ==> {
            &&& files[i].dest is Some
            &&& has_digest(files[i].dest->0, downloads[0].sha256)
            &&& files[i].part is None
        },
{
    lemma_run(downloads, files, replies, i);
}

/// A download makes at most nine attempts, and the pauses between them add up
/// to no more than 79 seconds.
pub proof fn law_attempts_and_pauses_are_bounded(
    downloads: Seq<FileDownload<Seq<char>>>,
    files: Seq<FilePair>,
    replies: Seq<FetchReply<Seq<char>>>,
)
    requires
        fetch_run(downloads, files, replies),
    ensures
        attempts(replies) <= STREAM_MAX_RETRIES + 1,
        paused_secs(downloads) <= 79,
{
    let n = replies.len() as int;
    lemma_run(downloads, files, replies, n);
    assert(replies.take(n) =~= replies);
    assert(downloads.take(n + 1) =~= downloads);
    reveal_with_fuel(backoff_total, 9);
    reveal_with_fuel(backoff_secs, 9);
}

/// A partial file with a wrong digest is removed, and the download fails.
pub proof fn law_wrong_digest_removes_part(
    downloads: Seq<FileDownload<Seq<char>>>,
    files: Seq<FilePair>,
    replies: Seq<FetchReply<Seq<char>>>,
    i: int,
)
    requires
        fetch_run(downloads, files, replies),
        0 <= i < replies.len() - 1,
        downloads[i].state is DigestPart,
        replies[i] is Digested,
        !has_digest(files[i].part->0, downloads[0].sha256),
    ensures
        fetch_action(downloads[i + 1].state) is RemovePart,
        replies[i + 1] is Ready ==> files[i + 2].part is None,
        downloads[i + 2].state is Finished,
        downloads[i + 2].state != FetchState::<Seq<char>>::Finished(Ok(())),
{
    lemma_run(downloads, files, replies, i);
    let first = replies[i];
    let second = replies[i + 1];
    assert(downloads[i + 1] == fetch_next(downloads[i], first));
    assert(downloads[i + 2] == fetch_next(downloads[i + 1], second));
}

/// A cancellation that is seen ends the download at once.
pub proof fn law_cancellation_ends_download(download: FileDownload<Seq<char>>)
    ensures
        download.state is LookForCancel ==> fetch_next(
            download,
            FetchReply::Cancelled(true),
        ).state == fetch_interrupted(),
        download.state is PollPause ==> fetch_next(
            download,
            FetchReply::Paused { over: false, cancelled: true },
        ).state == fetch_interrupted(),
{
}

/// Success is owed: after any number of lost attempts that leaves one to make,
/// an attempt that is done, whose file has the digest and gets its name, ends
/// the download with success.
pub proof fn law_done_attempt_succeeds(download: FileDownload<Seq<char>>, digest: Seq<char>)
    requires
        download.state is Stream,
        same_ignoring_case(digest, download.sha256),
    ensures
        ({
            let streamed = fetch_next(download, FetchReply::Streamed(StreamOutcome::Done));
            let checked = fetch_next(streamed, FetchReply::Digested(digest));
            let promoted = fetch_next(checked, FetchReply::Ready);
            promoted.state == FetchState::<Seq<char>>::Finished(Ok(()))
        }),
{
}

/// A lost attempt is followed by a pause and another attempt as long as there
/// are retries left.
pub proof fn law_lost_attempt_is_retried(download: FileDownload<Seq<char>>, message: Seq<char>)
    requires
        download.state is Stream,
        download.retries < STREAM_MAX_RETRIES,
    ensures
        ({
            let lost = fetch_next(
                download,
                FetchReply::Streamed(StreamOutcome::Transient(message)),
            );
            let paused = fetch_next(lost, FetchReply::Ready);
            let over = fetch_next(paused, FetchReply::Paused { over: true, cancelled: false });
            let again = fetch_next(over, FetchReply::Cancelled(false));
            &&& lost.state == FetchState::<Seq<char>>::BeginPause(
                backoff_secs(download.retries as nat) as u64,
            )
            &&& again.state is Stream
            &&& again.retries == download.retries + 1
        }),
{
}

/// What a download is about never changes, and the number of retries grows by
/// one exactly where a lost attempt is to be followed by another.
pub proof fn law_download_keeps_its_file(
    download: FileDownload<Seq<char>>,
    reply: FetchReply<Seq<char>>,
)
    ensures
        ({
            let next = fetch_next(download, reply);
            &&& next.name == download.name
            &&& next.sha256 == download.sha256
            &&& next.retries == download.retries + if fetch_action(download.state) is Stream
                && reply is Streamed && reply->Streamed_0 is Transient && download.retries < 8 {
                1int
            } else {
                0int
            }
        }),
{
}

/// An attempt is made unless the user cancelled. One that is done is followed by
/// the check of the digest; one that is final ends the download with its own
/// error; one that was lost is followed by a pause, of 1, 2, 4, 8 and then
/// always 16 seconds, or ends the download after eight retries, with the last
/// error.
pub proof fn law_attempts_lead_on(download: FileDownload<Seq<char>>, reply: FetchReply<Seq<char>>)
    ensures
        ({
            let action = fetch_action(download.state);
            let next = fetch_action(fetch_next(download, reply).state);
            let retries = download.retries;
            &&& action is LookForCancel && reply == FetchReply::<Seq<char>>::Cancelled(false)
                ==> next is Stream
            &&& action is LookForCancel && reply == FetchReply::<Seq<char>>::Cancelled(true)
                ==> next == FetchAction::<Seq<char>>::Finish(Err(InterruptibleFnError::Interrupted))
            &&& action is Stream ==> {
                &&& reply matches FetchReply::Streamed(StreamOutcome::Done) ==> next is DigestPart
                &&& reply matches FetchReply::Streamed(StreamOutcome::Fatal(error)) ==> next
                    == FetchAction::Finish(Err(error))
                &&& reply matches FetchReply::Streamed(StreamOutcome::Transient(message)) ==> {
                    &&& retries == 0 ==> next == FetchAction::<Seq<char>>::BeginPause(1)
                    &&& retries == 1 ==> next == FetchAction::<Seq<char>>::BeginPause(2)
                    &&& retries == 2 ==> next == FetchAction::<Seq<char>>::BeginPause(4)
                    &&& retries == 3 ==> next == FetchAction::<Seq<char>>::BeginPause(8)
                    &&& 4 <= retries < 8 ==> next == FetchAction::<Seq<char>>::BeginPause(16)
                    &&& retries >= 8 ==> next == FetchAction::Finish(
                        Err(
                            InterruptibleFnError::Failed(
                                download.name + " after "@ + decimal(retries as nat)
                                    + " retries: "@ + message,
                            ),
                        ),
                    )
                }
            }
        }),
{
    reveal_with_fuel(backoff_secs, 6);
}

/// A pause is polled every quarter of a second until it is over; a cancellation
/// ends it. After it the download looks for a cancellation and goes on.
pub proof fn law_pauses_are_polled(download: FileDownload<Seq<char>>, reply: FetchReply<Seq<char>>)
    ensures
        ({
            let action = fetch_action(download.state);
            let next = fetch_action(fetch_next(download, reply).state);
            &&& action is BeginPause && reply is Ready ==> next is PollPause
            &&& action is PollPause ==> (reply matches FetchReply::Paused { over, cancelled } ==> {
                &&& over ==> next is LookForCancel
                &&& !over && cancelled ==> next == FetchAction::<Seq<char>>::Finish(
                    Err(InterruptibleFnError::Interrupted),
                )
                &&& !over && !cancelled ==> next == FetchAction::<Seq<char>>::Sleep(250)
            })
            &&& action is Sleep ==> action == FetchAction::<Seq<char>>::Sleep(250)
            &&& action is Sleep && reply is Ready ==> next is PollPause
        }),
{
}

/// A file whose digest is the one it must have, but for the case of its letters,
/// gets its final name, and the download ends with success where it could be
/// renamed. Any other file is removed, and whether or not that succeeds, the
/// download ends with an error that gives both digests.
pub proof fn law_digest_decides_what_becomes_of_the_part(
    download: FileDownload<Seq<char>>,
    reply: FetchReply<Seq<char>>,
    second: FetchReply<Seq<char>>,
)
    ensures
        ({
            let action = fetch_action(download.state);
            let after = fetch_next(download, reply);
            let next = fetch_action(after.state);
            let last = fetch_action(fetch_next(after, second).state);
            &&& action is DigestPart ==> {
                &&& reply matches FetchReply::Failed(error) ==> next == FetchAction::Finish(
                    Err(InterruptibleFnError::Failed("sha256 verify: "@ + error)),
                )
                &&& reply matches FetchReply::Digested(digest) ==> if same_ignoring_case(
                    digest,
                    download.sha256,
                ) {
                    next is Promote
                } else {
                    &&& next is RemovePart
                    &&& second is Ready || second is Failed ==> last == FetchAction::Finish(
                        Err(
                            InterruptibleFnError::Failed(
                                "checksum mismatch for "@ + download.name + ": expected "@
                                    + download.sha256 + ", got "@ + digest,
                            ),
                        ),
                    )
                }
            }
            &&& action is Promote ==> {
                &&& reply is Ready ==> next == FetchAction::<Seq<char>>::Finish(Ok(()))
                &&& reply matches FetchReply::NotPromoted { part, dest, error } ==> next
                    == FetchAction::Finish(
                    Err(
                        InterruptibleFnError::Failed(
                            "rename "@ + part + " -> "@ + dest + ": "@ + error,
                        ),
                    ),
                )
            }
        }),
{
}

/// A download that has ended stays ended, and a reply that cannot be one to the
/// operation changes nothing.
pub proof fn law_stray_replies_change_no_download(
    download: FileDownload<Seq<char>>,
    reply: FetchReply<Seq<char>>,
)
    requires
        match fetch_action(download.state) {
            FetchAction::LookForCancel => !(reply is Cancelled),
            FetchAction::Stream => !(reply is Streamed),
            FetchAction::BeginPause(_) => !(reply is Ready),
            FetchAction::PollPause => !(reply is Paused),
            FetchAction::Sleep(_) => !(reply is Ready),
            FetchAction::DigestPart => !(reply is Digested || reply is Failed),
            FetchAction::RemovePart => !(reply is Ready || reply is Failed),
            FetchAction::Promote => !(reply is Ready || reply is NotPromoted),
            FetchAction::Finish(_) => true,
        },
    ensures
        fetch_next(download, reply) == download,
{
}

/// The pause doubles with each retry up to the fourth, from one second on, and
/// is sixteen seconds after any more.
pub proof fn law_pauses_double(retries: nat)
    ensures
        backoff_secs(0) == 1,
        retries < 4 ==> backoff_secs(retries + 1) == 2 * backoff_secs(retries),
        retries >= 4 ==> backoff_secs(retries) == 16,
{
    reveal_with_fuel(backoff_secs, 6);
}

} // verus!
