//! What attempts at fetching a file leave on disk, whatever is lost on the way.
use crate::part_stream::{
    announced_total, fatal, interrupted, long_message, measured, resuming, short_message,
    stream_action, stream_fits, stream_next, InterruptibleFnError, StreamAction, StreamJob,
    StreamOutcome, StreamReply, StreamState, PARTIAL_CONTENT, RANGE_NOT_SATISFIABLE,
};
use crate::text::decimal;
use vstd::prelude::*;

verus! {

/// The world of an attempt: the partial file, what the server has yet to
/// deliver of its body, and the chunk that arrived last.
pub struct Transfer {
    pub part: Option<Seq<u8>>,
    pub rest: Seq<u8>,
    pub chunk: Seq<u8>,
}

/// The size of the partial file; zero where there is none.
pub open spec fn part_len(world: Transfer) -> nat {
    match world.part {
        Some(part) => part.len(),
        None => 0,
    }
}

/// Whether the partial file, if there is one, is the beginning of the file that
/// the server offers.
pub open spec fn part_is_prefix(world: Transfer, remote: Seq<u8>) -> bool {
    world.part matches Some(part) ==> part.is_prefix_of(remote)
}

/// How a server that offers the file `remote`, and a disk, may answer an
/// operation. The server may refuse, break off or end its body at any point,
/// but delivers the bytes it was asked for, in order. The disk may fail, and
/// then may have written some of a chunk.
pub open spec fn transfer_answers(
    job: StreamJob<Seq<char>>,
    remote: Seq<u8>,
    world: Transfer,
    action: StreamAction<Seq<char>>,
    reply: StreamReply<Seq<char>>,
    after: Transfer,
) -> bool {
    match action {
        StreamAction::BuildClient => after == world && (reply is Ready || reply is Failed),
        StreamAction::Request { url, range } => {
            ||| after == world && (reply is Failed || reply is Unbuildable || reply is Refused)
            ||| {
                &&& reply is Response
                &&& reply->Response_status == PARTIAL_CONTENT && range is Some ==> job.resume_from
                    <= remote.len() && after.rest == remote.skip(job.resume_from as int)
                &&& !(reply->Response_status == PARTIAL_CONTENT && range is Some) ==> after.rest
                    == remote
                &&& after.part == world.part
            }
        },
        StreamAction::RemovePart => {
            ||| after == world && reply is Failed
            ||| reply is Ready && after == (Transfer { part: None, ..world })
        },
        StreamAction::OpenPart { append } => {
            ||| after == world && reply is Failed
            ||| {
                &&& reply is Ready
                &&& if append {
                    world.part is Some && after == world
                } else {
                    after == (Transfer { part: Some(Seq::empty()), ..world })
                }
            }
        },
        StreamAction::Report { downloaded, total, received } => after == world && reply is Ready,
        StreamAction::NextChunk => {
            ||| after == world && (reply is Lost || reply is Ended)
            ||| {
                &&& reply is Chunk
                &&& reply->len <= world.rest.len()
                &&& after == (Transfer {
                    part: world.part,
                    chunk: world.rest.take(reply->len as int),
                    rest: world.rest.skip(reply->len as int),
                })
            }
        },
        StreamAction::WriteChunk => {
            &&& world.part is Some
            &&& {
                ||| reply is Written && after == (Transfer {
                    part: Some(world.part->0 + world.chunk),
                    ..world
                })
                ||| reply is Failed && exists|k: int|
                    0 <= k <= world.chunk.len() && after == (Transfer {
                        part: Some(world.part->0 + #[trigger] world.chunk.take(k)),
                        ..world
                    })
            }
        },
        StreamAction::Flush => after == world && (reply is Ready || reply is Failed),
        StreamAction::MeasurePart => after == world && (reply is Failed || (world.part is Some
            && reply is Measured && reply->Measured_0 == world.part->0.len())),
        StreamAction::Finish(_) => false,
    }
}

/// An attempt from its beginning on: the states and worlds it went through, and
/// the replies that led from each to the next. It begins with the size of the
/// partial file, and all sizes fit in 64 bits.
pub open spec fn stream_run(
    job: StreamJob<Seq<char>>,
    remote: Seq<u8>,
    states: Seq<StreamState<Seq<char>>>,
    worlds: Seq<Transfer>,
    replies: Seq<StreamReply<Seq<char>>>,
) -> bool {
    &&& remote.len() <= u64::MAX
    &&& states.len() == replies.len() + 1
    &&& worlds.len() == replies.len() + 1
    &&& states[0] == StreamState::<Seq<char>>::Connect
    &&& job.resume_from == part_len(worlds[0])
    &&& forall|i: int|
        #![trigger replies[i]]
        0 <= i < replies.len() ==> {
            &&& transfer_answers(
                job,
                remote,
                worlds[i],
                stream_action(job, states[i]),
                replies[i],
                worlds[i + 1],
            )
            &&& stream_fits(job, states[i], replies[i])
            &&& states[i + 1] == stream_next(job, states[i], replies[i])
        }
}

/// What holds at every point of an attempt that began with a partial file that
/// is the beginning of the server's file.
spec fn run_invariant(
    job: StreamJob<Seq<char>>,
    remote: Seq<u8>,
    state: StreamState<Seq<char>>,
    world: Transfer,
) -> bool {
    &&& part_is_prefix(world, remote)
    &&& match state {
        StreamState::Connect => job.resume_from == part_len(world),
        StreamState::Ask => job.resume_from == part_len(world),
        StreamState::Discard { total } => world.rest == remote,
        StreamState::Open { append, total } => if append {
            &&& world.part is Some
            &&& job.resume_from == part_len(world)
            &&& world.rest == remote.skip(job.resume_from as int)
        } else {
            world.rest == remote
        },
        StreamState::Announce { total, downloaded } => {
            &&& world.part is Some
            &&& downloaded == world.part->0.len()
            &&& world.part->0 + world.rest == remote
        },
        StreamState::Receive { total, downloaded, started } => {
            &&& world.part is Some
            &&& downloaded == world.part->0.len()
            &&& world.part->0 + world.rest == remote
        },
        StreamState::Store { total, downloaded, started, len } => {
            &&& world.part is Some
            &&& downloaded == world.part->0.len()
            &&& len == world.chunk.len()
            &&& world.part->0 + world.chunk + world.rest == remote
        },
        StreamState::Report { total, downloaded, started } => {
            &&& world.part is Some
            &&& downloaded == world.part->0.len()
            &&& world.part->0 + world.rest == remote
        },
        _ => true,
    }
}

proof fn lemma_step_keeps_invariant(
    job: StreamJob<Seq<char>>,
    remote: Seq<u8>,
    state: StreamState<Seq<char>>,
    world: Transfer,
    reply: StreamReply<Seq<char>>,
    after: Transfer,
)
    requires
        remote.len() <= u64::MAX,
        run_invariant(job, remote, state, world),
        transfer_answers(job, remote, world, stream_action(job, state), reply, after),
        stream_fits(job, state, reply),
    ensures
        run_invariant(job, remote, stream_next(job, state, reply), after),
{
    match state {
        StreamState::Open { append, total } => {
            if reply is Ready {
                if append {
                    let part = world.part->0;
                    assert(part + world.rest =~= remote);
                } else {
                    assert(Seq::<u8>::empty() + remote =~= remote);
                    assert(after.part->0 + after.rest =~= remote);
                }
            }
        },
        StreamState::Receive { total, downloaded, started } => {
            if reply is Chunk {
                assert(after.chunk + after.rest =~= world.rest);
                assert(after.part->0 + after.chunk + after.rest =~= remote);
            }
        },
        StreamState::Store { total, downloaded, started, len } => {
            let part = world.part->0;
            if reply is Failed {
                let k = choose|k: int|
                    0 <= k <= world.chunk.len() && after == (Transfer {
                        part: Some(part + #[trigger] world.chunk.take(k)),
                        ..world
                    });
                assert(part + world.chunk.take(k) =~= remote.take(part.len() + k));
                assert((part + world.chunk.take(k)).is_prefix_of(remote));
            } else {
                assert(part + world.chunk =~= remote.take((part.len() + world.chunk.len()) as int));
                assert((part + world.chunk).is_prefix_of(remote));
            }
        },
        _ => {},
    }
}

proof fn lemma_run_invariant(
    job: StreamJob<Seq<char>>,
    remote: Seq<u8>,
    states: Seq<StreamState<Seq<char>>>,
    worlds: Seq<Transfer>,
    replies: Seq<StreamReply<Seq<char>>>,
    i: int,
)
    requires
        stream_run(job, remote, states, worlds, replies),
        part_is_prefix(worlds[0], remote),
        0 <= i <= replies.len(),
    ensures
        run_invariant(job, remote, states[i], worlds[i]),
    decreases i,
{
    if i > 0 {
        lemma_run_invariant(job, remote, states, worlds, replies, i - 1);
        let reply = replies[i - 1];
        lemma_step_keeps_invariant(job, remote, states[i - 1], worlds[i - 1], reply, worlds[i]);
    }
}

/// The partial file is the beginning of the server's file at every point of an
/// attempt that found it so, whatever was lost, and so is again what the next
/// attempt finds: continuing never mixes bytes up.
pub proof fn law_part_stays_a_prefix(
    job: StreamJob<Seq<char>>,
    remote: Seq<u8>,
    states: Seq<StreamState<Seq<char>>>,
    worlds: Seq<Transfer>,
    replies: Seq<StreamReply<Seq<char>>>,
    i: int,
)
    requires
        stream_run(job, remote, states, worlds, replies),
        part_is_prefix(worlds[0], remote),
        0 <= i <= replies.len(),
    ensures
        part_is_prefix(worlds[i], remote),
{
    lemma_run_invariant(job, remote, states, worlds, replies, i);
}

/// Every progress report gives the true size of the partial file.
pub proof fn law_reported_progress_is_on_disk(
    job: StreamJob<Seq<char>>,
    remote: Seq<u8>,
    states: Seq<StreamState<Seq<char>>>,
    worlds: Seq<Transfer>,
    replies: Seq<StreamReply<Seq<char>>>,
    i: int,
)
    requires
        stream_run(job, remote, states, worlds, replies),
        part_is_prefix(worlds[0], remote),
        0 <= i <= replies.len(),
    ensures
        stream_action(job, states[i]) matches StreamAction::Report { downloaded, total, received }
            ==> worlds[i].part is Some && downloaded == part_len(worlds[i]),
{
    lemma_run_invariant(job, remote, states, worlds, replies, i);
}

/// An attempt that ends as done, on a file of the configured size whose partial
/// file could be measured, has the whole file on disk.
pub proof fn law_done_means_whole_file(
    job: StreamJob<Seq<char>>,
    remote: Seq<u8>,
    states: Seq<StreamState<Seq<char>>>,
    worlds: Seq<Transfer>,
    replies: Seq<StreamReply<Seq<char>>>,
)
    requires
        stream_run(job, remote, states, worlds, replies),
        part_is_prefix(worlds[0], remote),
        replies.len() > 0,
        replies.last() is Measured,
        states.last() == StreamState::<Seq<char>>::Finished(StreamOutcome::Done),
        job.size == remote.len(),
    ensures
        worlds.last().part == Some(remote),
{
    let n = replies.len() - 1;
    lemma_run_invariant(job, remote, states, worlds, replies, n);
    lemma_run_invariant(job, remote, states, worlds, replies, n + 1);
    let reply = replies[n];
    assert(states[n + 1] == stream_next(job, states[n], reply));
    assert(worlds.last().part->0 =~= remote);
}

/// A cancelled attempt leaves the partial file as it is, for a later attempt to
/// continue.
pub proof fn law_cancelled_attempt_keeps_part(
    job: StreamJob<Seq<char>>,
    remote: Seq<u8>,
    states: Seq<StreamState<Seq<char>>>,
    worlds: Seq<Transfer>,
    replies: Seq<StreamReply<Seq<char>>>,
    i: int,
)
    requires
        stream_run(job, remote, states, worlds, replies),
        part_is_prefix(worlds[0], remote),
        0 <= i < replies.len(),
        states[i] is Receive,
        (replies[i] matches StreamReply::Chunk { len, cancelled } && cancelled) || (
        replies[i] matches StreamReply::Lost { error, cancelled } && cancelled),
    ensures
        states[i + 1] == interrupted(),
        worlds[i].part is Some,
        worlds[i + 1].part == worlds[i].part,
{
    lemma_run_invariant(job, remote, states, worlds, replies, i);
    let reply = replies[i];
    assert(states[i + 1] == stream_next(job, states[i], reply));
}

/// The bytes of a list of chunks.
pub open spec fn total_len(chunks: Seq<u64>) -> nat
    decreases chunks.len(),
{
    if chunks.len() == 0 {
        0
    } else {
        total_len(chunks.drop_last()) + chunks.last() as nat
    }
}

/// The state after a list of chunks arrived and was written, each so many
/// milliseconds after the last report.
pub open spec fn fed(
    job: StreamJob<Seq<char>>,
    state: StreamState<Seq<char>>,
    chunks: Seq<u64>,
    delays: Seq<u64>,
) -> StreamState<Seq<char>>
    decreases chunks.len(),
{
    if chunks.len() == 0 {
        state
    } else {
        let before = fed(job, state, chunks.drop_last(), delays.drop_last());
        let arrived = stream_next(
            job,
            before,
            StreamReply::Chunk { len: chunks.last(), cancelled: false },
        );
        let written = stream_next(
            job,
            arrived,
            StreamReply::Written { since_report_ms: delays.last() },
        );
        if written is Report {
            stream_next(job, written, StreamReply::Ready)
        } else {
            written
        }
    }
}

proof fn lemma_fed_counts(
    job: StreamJob<Seq<char>>,
    total: u64,
    downloaded: u64,
    started: u64,
    chunks: Seq<u64>,
    delays: Seq<u64>,
)
    requires
        delays.len() == chunks.len(),
        downloaded + total_len(chunks) <= u64::MAX,
    ensures
        fed(job, StreamState::Receive { total, downloaded, started }, chunks, delays)
            == (StreamState::<Seq<char>>::Receive {
            total,
            downloaded: (downloaded + total_len(chunks)) as u64,
            started,
        }),
    decreases chunks.len(),
{
    if chunks.len() > 0 {
        lemma_fed_counts(
            job,
            total,
            downloaded,
            started,
            chunks.drop_last(),
            delays.drop_last(),
        );
    }
}

/// The state after an attempt in which no operation fails: the server answers
/// with some status and length, delivers some chunks, and the partial file then
/// has the size `got`.
pub open spec fn undisturbed(
    job: StreamJob<Seq<char>>,
    status: u16,
    content_length: Option<u64>,
    chunks: Seq<u64>,
    delays: Seq<u64>,
    got: u64,
) -> StreamState<Seq<char>> {
    let asked = stream_next(job, StreamState::Connect, StreamReply::Ready);
    let answered = stream_next(job, asked, StreamReply::Response { status, content_length });
    let cleared = if answered is Discard {
        stream_next(job, answered, StreamReply::Ready)
    } else {
        answered
    };
    let opened = stream_next(job, cleared, StreamReply::Ready);
    let announced = stream_next(job, opened, StreamReply::Ready);
    let ended = stream_next(job, fed(job, announced, chunks, delays), StreamReply::Ended);
    let flushed = stream_next(job, ended, StreamReply::Ready);
    stream_next(job, flushed, StreamReply::Measured(got))
}

/// An attempt in which nothing fails is done exactly where the partial file has
/// the size that the file must have. A short one is worth another attempt. A
/// long one is removed, and the attempt fails.
pub proof fn law_undisturbed_attempt_is_done_at_the_size(
    job: StreamJob<Seq<char>>,
    status: u16,
    content_length: Option<u64>,
    chunks: Seq<u64>,
    delays: Seq<u64>,
    got: u64,
)
    requires
        delays.len() == chunks.len(),
        job.resume_from + total_len(chunks) <= u64::MAX,
    ensures
        ({
            let end = undisturbed(job, status, content_length, chunks, delays, got);
            &&& end == measured(job, got)
            &&& end == StreamState::<Seq<char>>::Finished(StreamOutcome::Done) <==> got == job.size
            &&& got < job.size ==> end == StreamState::<Seq<char>>::Finished(
                StreamOutcome::Transient(short_message(got, job.size)),
            )
            &&& got > job.size ==> {
                &&& stream_action(job, end) is RemovePart
                &&& stream_next(job, end, StreamReply::Ready) == fatal(long_message(got, job.size))
            }
        }),
{
    let total = announced_total(job, status, content_length) as u64;
    let started: u64 = if resuming(job, status) {
        job.resume_from
    } else {
        0
    };
    lemma_fed_counts(job, total, started, started, chunks, delays);
}

/// An attempt that finds a partial file asks for the bytes from its end on,
/// whatever its size. Where the server has none there, a partial file of the
/// file's size is measured and so done, and a larger one is removed before
/// another attempt is made.
pub proof fn law_existing_part_is_the_offset(job: StreamJob<Seq<char>>, error: Seq<char>)
    requires
        job.resume_from > 0,
    ensures
        ({
            let refusal = StreamReply::Refused { status: RANGE_NOT_SATISFIABLE, error };
            let next = stream_next(job, StreamState::Ask, refusal);
            &&& stream_action(job, StreamState::Ask) == (StreamAction::Request {
                url: job.url,
                range: Some("bytes="@ + decimal(job.resume_from as nat) + "-"@),
            })
            &&& job.resume_from == job.size ==> {
                &&& stream_action(job, next) is MeasurePart
                &&& stream_next(job, next, StreamReply::Measured(job.resume_from))
                    == StreamState::<Seq<char>>::Finished(StreamOutcome::Done)
            }
            &&& job.resume_from > job.size ==> {
                &&& stream_action(job, next) is RemovePart
                &&& stream_next(job, next, StreamReply::Ready) == StreamState::Finished(
                    StreamOutcome::Transient("HTTP error: "@ + error),
                )
            }
            &&& job.resume_from < job.size ==> next == fatal("HTTP error: "@ + error)
        }),
{
}

/// A URL that no request can be built from ends the attempt for good: nothing
/// was reported and no file was touched.
pub proof fn law_bad_url_is_final(job: StreamJob<Seq<char>>, error: Seq<char>)
    ensures
        stream_next(job, StreamState::Ask, StreamReply::Unbuildable(error)) == fatal(
            "GET "@ + job.url + ": "@ + error,
        ),
{
}

/// An attempt builds its client and then asks for the file's URL: for all of it
/// where there is no partial file, else for the bytes from its end on.
pub proof fn law_attempt_asks_for_what_is_missing(job: StreamJob<Seq<char>>, error: Seq<char>)
    ensures
        ({
            let asked = stream_next(job, StreamState::Connect, StreamReply::Ready);
            let failed = stream_next(job, StreamState::Connect, StreamReply::Failed(error));
            &&& stream_action(job, StreamState::Connect) is BuildClient
            &&& job.resume_from == 0 ==> stream_action(job, asked) == (StreamAction::Request {
                url: job.url,
                range: None,
            })
            &&& job.resume_from > 0 ==> stream_action(job, asked) == (StreamAction::Request {
                url: job.url,
                range: Some("bytes="@ + decimal(job.resume_from as nat) + "-"@),
            })
            &&& stream_action(job, failed) == StreamAction::Finish(
                StreamOutcome::Fatal(InterruptibleFnError::Failed("client build: "@ + error)),
            )
        }),
{
}

/// A request that was not answered is worth another attempt; one that could not
/// be made is not. An error status ends the attempt at once, with the partial
/// file as it is. There are two exceptions, both where the server has no bytes
/// from the partial file's end on: a partial file of the file's size is measured,
/// and a larger one is removed before the attempt ends as worth another.
pub proof fn law_refused_attempt_keeps_part(
    job: StreamJob<Seq<char>>,
    state: StreamState<Seq<char>>,
    status: u16,
    error: Seq<char>,
)
    requires
        stream_action(job, state) is Request,
    ensures
        ({
            let lost = stream_next(job, state, StreamReply::Failed(error));
            let bad = stream_next(job, state, StreamReply::Unbuildable(error));
            let next = stream_next(job, state, StreamReply::Refused { status, error });
            let final_end = StreamAction::Finish(
                StreamOutcome::Fatal(InterruptibleFnError::Failed("HTTP error: "@ + error)),
            );
            &&& stream_action(job, lost) == StreamAction::Finish(
                StreamOutcome::Transient("GET "@ + job.url + ": "@ + error),
            )
            &&& stream_action(job, bad) == StreamAction::Finish(
                StreamOutcome::Fatal(
                    InterruptibleFnError::Failed("GET "@ + job.url + ": "@ + error),
                ),
            )
            &&& status != 416 ==> stream_action(job, next) == final_end
            &&& job.resume_from == 0 || job.resume_from < job.size ==> stream_action(job, next)
                == final_end
            &&& status == 416 && job.resume_from > 0 && job.resume_from == job.size
                ==> stream_action(job, next) is MeasurePart
            &&& status == 416 && job.resume_from > job.size ==> {
                let end = StreamAction::Finish(StreamOutcome::Transient("HTTP error: "@ + error));
                &&& stream_action(job, next) is RemovePart
                &&& stream_action(job, stream_next(job, next, StreamReply::Ready)) == end
                &&& stream_action(job, stream_next(job, next, StreamReply::Failed(error))) == end
            }
        }),
{
}

/// A success response decides where the bytes go. Where it continues a partial
/// file, the bytes are appended and progress begins at its size; else a partial
/// file is removed, which may fail, and the bytes begin a new one at zero. The
/// total is what the response announces, with the partial file that it
/// continues, or the configured size where it announces nothing.
pub proof fn law_response_decides_where_bytes_go(
    job: StreamJob<Seq<char>>,
    state: StreamState<Seq<char>>,
    status: u16,
    content_length: Option<u64>,
    removed: StreamReply<Seq<char>>,
    error: Seq<char>,
)
    requires
        stream_action(job, state) is Request,
        stream_fits(job, state, StreamReply::Response { status, content_length }),
        removed is Ready || removed is Failed,
    ensures
        ({
            let continues = job.resume_from > 0 && status == 206;
            let answered = stream_next(
                job,
                state,
                StreamReply::Response { status, content_length },
            );
            let opening = if job.resume_from > 0 && !continues {
                stream_next(job, answered, removed)
            } else {
                answered
            };
            let opened = stream_next(job, opening, StreamReply::Ready);
            let begun: u64 = if continues {
                job.resume_from
            } else {
                0
            };
            let total = if content_length is Some {
                begun + content_length->0
            } else {
                job.size as int
            };
            &&& job.resume_from > 0 && !continues ==> stream_action(job, answered) is RemovePart
            &&& stream_action(job, opening) == (StreamAction::<Seq<char>>::OpenPart {
                append: continues,
            })
            &&& stream_action(job, stream_next(job, opening, StreamReply::Failed(error)))
                == StreamAction::Finish(
                StreamOutcome::Fatal(InterruptibleFnError::Failed("open part: "@ + error)),
            )
            &&& stream_action(job, opened) == (StreamAction::<Seq<char>>::Report {
                downloaded: begun,
                total: total as u64,
                received: None,
            })
            &&& stream_next(job, opened, StreamReply::Ready) == (StreamState::<
                Seq<char>,
            >::Receive { total: total as u64, downloaded: begun, started: begun })
        }),
{
}

/// While a body arrives, every chunk is written unless the user cancelled, and
/// counts once it is written. Progress is reported when more than a quarter of a
/// second has passed since the last report: the size of the partial file, the
/// same total as before, and the bytes received since the body began.
pub proof fn law_chunks_are_written_and_counted(
    job: StreamJob<Seq<char>>,
    total: u64,
    downloaded: u64,
    started: u64,
    len: u64,
    since_report_ms: u64,
    error: Seq<char>,
)
    requires
        started <= downloaded,
        downloaded + len <= u64::MAX,
    ensures
        ({
            let state = StreamState::<Seq<char>>::Receive { total, downloaded, started };
            let counted = StreamState::<Seq<char>>::Receive {
                total,
                downloaded: (downloaded + len) as u64,
                started,
            };
            let cancelled = stream_next(job, state, StreamReply::Chunk { len, cancelled: true });
            let arrived = stream_next(job, state, StreamReply::Chunk { len, cancelled: false });
            let written = stream_next(job, arrived, StreamReply::Written { since_report_ms });
            &&& stream_action(job, state) is NextChunk
            &&& stream_action(job, cancelled) == StreamAction::<Seq<char>>::Finish(
                StreamOutcome::Fatal(InterruptibleFnError::Interrupted),
            )
            &&& stream_action(job, arrived) is WriteChunk
            &&& stream_action(job, stream_next(job, arrived, StreamReply::Failed(error)))
                == StreamAction::Finish(
                StreamOutcome::Fatal(InterruptibleFnError::Failed("write: "@ + error)),
            )
            &&& since_report_ms <= 250 ==> written == counted
            &&& since_report_ms > 250 ==> {
                &&& stream_action(job, written) == (StreamAction::<Seq<char>>::Report {
                    downloaded: (downloaded + len) as u64,
                    total,
                    received: Some((downloaded + len - started) as u64),
                })
                &&& stream_next(job, written, StreamReply::Ready) == counted
            }
        }),
{
}

/// A connection that breaks is worth another attempt, once what arrived is
/// flushed, or could not be; unless the user cancelled. A body that ends is
/// flushed and measured.
pub proof fn law_body_ends(
    job: StreamJob<Seq<char>>,
    state: StreamState<Seq<char>>,
    error: Seq<char>,
    flushed: StreamReply<Seq<char>>,
    other: Seq<char>,
)
    requires
        stream_action(job, state) is NextChunk,
        flushed is Ready || flushed is Failed,
    ensures
        ({
            let cancelled = stream_next(
                job,
                state,
                StreamReply::Lost { error, cancelled: true },
            );
            let lost = stream_next(job, state, StreamReply::Lost { error, cancelled: false });
            let ended = stream_next(job, state, StreamReply::Ended);
            &&& stream_action(job, cancelled) == StreamAction::<Seq<char>>::Finish(
                StreamOutcome::Fatal(InterruptibleFnError::Interrupted),
            )
            &&& stream_action(job, lost) is Flush
            &&& stream_action(job, stream_next(job, lost, flushed)) == StreamAction::Finish(
                StreamOutcome::Transient("recv: "@ + error),
            )
            &&& stream_action(job, ended) is Flush
            &&& stream_action(job, stream_next(job, ended, StreamReply::Ready)) is MeasurePart
            &&& stream_action(job, stream_next(job, ended, StreamReply::Failed(other)))
                == StreamAction::Finish(
                StreamOutcome::Fatal(InterruptibleFnError::Failed("flush: "@ + other)),
            )
        }),
{
}

/// The size of the partial file decides the attempt: it is done exactly at the
/// file's size, worth another attempt below it, and beyond it the partial file is
/// removed, which may fail, and the attempt has failed. The messages give both
/// sizes. Where it could not be measured, the digest is left to decide.
pub proof fn law_size_decides_the_attempt(
    job: StreamJob<Seq<char>>,
    state: StreamState<Seq<char>>,
    got: u64,
    removed: StreamReply<Seq<char>>,
    error: Seq<char>,
)
    requires
        stream_action(job, state) is MeasurePart,
        removed is Ready || removed is Failed,
    ensures
        ({
            let next = stream_next(job, state, StreamReply::Measured(got));
            let sizes = decimal(got as nat) + " of "@ + decimal(job.size as nat) + " bytes"@;
            &&& got == job.size <==> stream_action(job, next) == StreamAction::<
                Seq<char>,
            >::Finish(StreamOutcome::Done)
            &&& got < job.size ==> stream_action(job, next) == StreamAction::Finish(
                StreamOutcome::Transient("short body: got "@ + sizes),
            )
            &&& got > job.size ==> {
                &&& stream_action(job, next) is RemovePart
                &&& stream_action(job, stream_next(job, next, removed)) == StreamAction::Finish(
                    StreamOutcome::Fatal(
                        InterruptibleFnError::Failed("long body: got "@ + sizes),
                    ),
                )
            }
            &&& stream_action(job, stream_next(job, state, StreamReply::Failed(error)))
                == StreamAction::<Seq<char>>::Finish(StreamOutcome::Done)
        }),
{
    let sizes = decimal(got as nat) + " of "@ + decimal(job.size as nat) + " bytes"@;
    assert(short_message(got, job.size) =~= "short body: got "@ + sizes);
    assert(long_message(got, job.size) =~= "long body: got "@ + sizes);
}

/// An attempt that has ended stays ended, and a reply that cannot be one to the
/// operation changes nothing.
pub proof fn law_stray_replies_change_no_attempt(
    job: StreamJob<Seq<char>>,
    state: StreamState<Seq<char>>,
    reply: StreamReply<Seq<char>>,
)
    requires
        match stream_action(job, state) {
            StreamAction::Request { url, range } => !(reply is Failed || reply is Unbuildable
                || reply is Refused || reply is Response),
            StreamAction::Report { downloaded, total, received } => !(reply is Ready),
            StreamAction::NextChunk => !(reply is Chunk || reply is Lost || reply is Ended),
            StreamAction::WriteChunk => !(reply is Written || reply is Failed),
            StreamAction::MeasurePart => !(reply is Measured || reply is Failed),
            StreamAction::Finish(_) => true,
            _ => !(reply is Ready || reply is Failed),
        },
    ensures
        stream_next(job, state, reply) == state,
{
}

/// A reply fits exactly where the sizes that follow from it stay within 64 bits:
/// the total of a response that continues a partial file, and the size of the
/// partial file after a chunk.
pub proof fn law_attempt_is_limited_by_sizes_alone(
    job: StreamJob<Seq<char>>,
    state: StreamState<Seq<char>>,
    reply: StreamReply<Seq<char>>,
)
    ensures
        stream_fits(job, state, reply) <==> {
            &&& !(stream_action(job, state) is Request && reply is Response
                && reply->Response_status == 206 && job.resume_from > 0
                && reply->content_length is Some && job.resume_from + reply->content_length->0
                > 0xffff_ffff_ffff_ffff)
            &&& !(state is Store && reply is Written && state->Store_downloaded + state->Store_len
                > 0xffff_ffff_ffff_ffff)
        },
{
}

/// Whether a reply is a reason to give a partial file up: a success response
/// that does not continue it, a server without bytes from its end on where it is
/// larger than the file, or a size beyond the file's.
pub open spec fn gives_part_up(job: StreamJob<Seq<char>>, reply: StreamReply<Seq<char>>) -> bool {
    ||| reply matches StreamReply::Response { status, content_length } && status != 206
    ||| reply matches StreamReply::Refused { status, error } && status == 416 && job.resume_from
        > job.size
    ||| reply matches StreamReply::Measured(got) && got > job.size
}

/// What was downloaded before is kept: without a reason to give the partial file
/// up, it is at every point the one that the attempt found, perhaps with more
/// bytes after it, however the attempt ends.
pub proof fn law_part_is_kept_without_a_reason(
    job: StreamJob<Seq<char>>,
    remote: Seq<u8>,
    states: Seq<StreamState<Seq<char>>>,
    worlds: Seq<Transfer>,
    replies: Seq<StreamReply<Seq<char>>>,
    i: int,
)
    requires
        stream_run(job, remote, states, worlds, replies),
        0 <= i <= replies.len(),
        worlds[0].part is Some,
        forall|j: int| 0 <= j < i ==> !gives_part_up(job, #[trigger] replies[j]),
    ensures
        worlds[i].part is Some,
        worlds[0].part->0.is_prefix_of(worlds[i].part->0),
        !(stream_action(job, states[i]) is RemovePart),
    decreases i,
{
    lemma_part_is_kept(job, remote, states, worlds, replies, i);
}

proof fn lemma_part_is_kept(
    job: StreamJob<Seq<char>>,
    remote: Seq<u8>,
    states: Seq<StreamState<Seq<char>>>,
    worlds: Seq<Transfer>,
    replies: Seq<StreamReply<Seq<char>>>,
    i: int,
)
    requires
        stream_run(job, remote, states, worlds, replies),
        0 <= i <= replies.len(),
        worlds[0].part is Some,
        forall|j: int| 0 <= j < i ==> !gives_part_up(job, #[trigger] replies[j]),
    ensures
        worlds[i].part is Some,
        worlds[0].part->0.is_prefix_of(worlds[i].part->0),
        !(states[i] is Discard || states[i] is DropPart),
        states[i] matches StreamState::Open { append, total } ==> append || job.resume_from == 0,
    decreases i,
{
    if i > 0 {
        lemma_part_is_kept(job, remote, states, worlds, replies, i - 1);
        let reply = replies[i - 1];
        let first = worlds[0].part->0;
        let before = worlds[i - 1].part->0;
        assert(states[i] == stream_next(job, states[i - 1], reply));
        assert(!gives_part_up(job, reply));
        if states[i - 1] is Store {
            let chunk = worlds[i - 1].chunk;
            if reply is Failed {
                let k = choose|k: int|
                    0 <= k <= chunk.len() && worlds[i] == (Transfer {
                        part: Some(before + #[trigger] chunk.take(k)),
                        ..worlds[i - 1]
                    });
                assert(worlds[i].part->0 == before + chunk.take(k));
            }
            assert(first.is_prefix_of(worlds[i].part->0));
        }
        if states[i - 1] is Open {
            assert(job.resume_from == first.len());
            assert(first.is_prefix_of(worlds[i].part->0));
        }
    }
}

} // verus!
