//! One attempt at fetching a file into its partial file. An earlier attempt's
//! bytes are kept and continued where the server agrees. The attempt runs as a
//! state machine that names one operation at a time and is told what came of
//! it.
use crate::text::{concatenated, decimal, push_decimal};
use vstd::prelude::*;

verus! {

/// The status of a response that continues at the byte asked for.
pub const PARTIAL_CONTENT: u16 = 206;

/// The status by which a server says that it has no bytes from the byte asked
/// for on.
pub const RANGE_NOT_SATISFIABLE: u16 = 416;

/// Progress is reported when more than this many milliseconds have passed
/// since the last report.
pub const REPORT_INTERVAL_MS: u64 = 250;

/// Why a piece of work ended early.
pub enum InterruptibleFnError<T> {
    /// The user cancelled it.
    Interrupted,
    /// It failed.
    Failed(T),
}

/// How an attempt ended.
pub enum StreamOutcome<T> {
    /// The partial file has the size that the file must have, or it could not
    /// be measured; its digest is still to be checked.
    Done,
    /// The connection was lost, or the body was short: worth another attempt.
    Transient(T),
    /// Another attempt would not help.
    Fatal(InterruptibleFnError<T>),
}

/// What an attempt is to fetch.
pub struct StreamJob<T> {
    pub url: T,
    /// The size that the file must have.
    pub size: u64,
    /// The size of the partial file; zero where there is none.
    pub resume_from: u64,
}

/// An operation of an attempt.
pub enum StreamAction<T> {
    BuildClient,
    /// Ask for the file, or for its bytes from some byte on.
    Request { url: T, range: Option<T> },
    RemovePart,
    /// Open the partial file at its end, or empty.
    OpenPart { append: bool },
    /// Report the progress. The rate is zero where nothing was received yet,
    /// else it is `received` bytes over the time since the first report.
    Report { downloaded: u64, total: u64, received: Option<u64> },
    NextChunk,
    /// Write the chunk that arrived.
    WriteChunk,
    /// Flush the partial file.
    Flush,
    MeasurePart,
    Finish(StreamOutcome<T>),
}

/// What came of an operation.
pub enum StreamReply<T> {
    /// It was done.
    Ready,
    /// It failed.
    Failed(T),
    /// The server answered with a success status.
    Response { status: u16, content_length: Option<u64> },
    /// No request can be built from the URL.
    Unbuildable(T),
    /// The server answered with an error status.
    Refused { status: u16, error: T },
    /// A chunk of `len` bytes arrived.
    Chunk { len: u64, cancelled: bool },
    /// The connection broke.
    Lost { error: T, cancelled: bool },
    /// The body ended.
    Ended,
    /// The chunk is written, so many milliseconds after the last report.
    Written { since_report_ms: u64 },
    /// The size of the partial file.
    Measured(u64),
}

/// How far an attempt has come: the next operation. `downloaded` is the size
/// of the partial file, `started` its size when the body began.
pub enum StreamState<T> {
    Connect,
    Ask,
    Discard { total: u64 },
    Open { append: bool, total: u64 },
    Announce { total: u64, downloaded: u64 },
    Receive { total: u64, downloaded: u64, started: u64 },
    Store { total: u64, downloaded: u64, started: u64, len: u64 },
    Report { total: u64, downloaded: u64, started: u64 },
    SaveRest(T),
    Flush,
    Measure,
    /// The partial file is of no use: remove it, and end.
    DropPart(StreamOutcome<T>),
    Finished(StreamOutcome<T>),
}

/// An attempt under way.
pub struct PartStream {
    pub job: StreamJob<String>,
    pub state: StreamState<String>,
}

impl View for InterruptibleFnError<String> {
    type V = InterruptibleFnError<Seq<char>>;

    open spec fn view(&self) -> InterruptibleFnError<Seq<char>> {
        match *self {
            InterruptibleFnError::Interrupted => InterruptibleFnError::Interrupted,
            InterruptibleFnError::Failed(message) => InterruptibleFnError::Failed(message@),
        }
    }
}

impl View for StreamOutcome<String> {
    type V = StreamOutcome<Seq<char>>;

    open spec fn view(&self) -> StreamOutcome<Seq<char>> {
        match *self {
            StreamOutcome::Done => StreamOutcome::Done,
            StreamOutcome::Transient(message) => StreamOutcome::Transient(message@),
            StreamOutcome::Fatal(error) => StreamOutcome::Fatal(error@),
        }
    }
}

impl View for StreamJob<String> {
    type V = StreamJob<Seq<char>>;

    open spec fn view(&self) -> StreamJob<Seq<char>> {
        StreamJob { url: self.url@, size: self.size, resume_from: self.resume_from }
    }
}

impl View for StreamAction<String> {
    type V = StreamAction<Seq<char>>;

    open spec fn view(&self) -> StreamAction<Seq<char>> {
        match *self {
            StreamAction::BuildClient => StreamAction::BuildClient,
            StreamAction::Request { url, range } => StreamAction::Request {
                url: url@,
                range: match range {
                    Some(range) => Some(range@),
                    None => None,
                },
            },
            StreamAction::RemovePart => StreamAction::RemovePart,
            StreamAction::OpenPart { append } => StreamAction::OpenPart { append },
            StreamAction::Report { downloaded, total, received } => StreamAction::Report {
                downloaded,
                total,
                received,
            },
            StreamAction::NextChunk => StreamAction::NextChunk,
            StreamAction::WriteChunk => StreamAction::WriteChunk,
            StreamAction::Flush => StreamAction::Flush,
            StreamAction::MeasurePart => StreamAction::MeasurePart,
            StreamAction::Finish(outcome) => StreamAction::Finish(outcome@),
        }
    }
}

impl View for StreamReply<String> {
    type V = StreamReply<Seq<char>>;

    open spec fn view(&self) -> StreamReply<Seq<char>> {
        match *self {
            StreamReply::Ready => StreamReply::Ready,
            StreamReply::Failed(error) => StreamReply::Failed(error@),
            StreamReply::Response { status, content_length } => StreamReply::Response {
                status,
                content_length,
            },
            StreamReply::Unbuildable(error) => StreamReply::Unbuildable(error@),
            StreamReply::Refused { status, error } => StreamReply::Refused {
                status,
                error: error@,
            },
            StreamReply::Chunk { len, cancelled } => StreamReply::Chunk { len, cancelled },
            StreamReply::Lost { error, cancelled } => StreamReply::Lost { error: error@, cancelled },
            StreamReply::Ended => StreamReply::Ended,
            StreamReply::Written { since_report_ms } => StreamReply::Written { since_report_ms },
            StreamReply::Measured(size) => StreamReply::Measured(size),
        }
    }
}

impl View for StreamState<String> {
    type V = StreamState<Seq<char>>;

    open spec fn view(&self) -> StreamState<Seq<char>> {
        match *self {
            StreamState::Connect => StreamState::Connect,
            StreamState::Ask => StreamState::Ask,
            StreamState::Discard { total } => StreamState::Discard { total },
            StreamState::Open { append, total } => StreamState::Open { append, total },
            StreamState::Announce { total, downloaded } => StreamState::Announce {
                total,
                downloaded,
            },
            StreamState::Receive { total, downloaded, started } => StreamState::Receive {
                total,
                downloaded,
                started,
            },
            StreamState::Store { total, downloaded, started, len } => StreamState::Store {
                total,
                downloaded,
                started,
                len,
            },
            StreamState::Report { total, downloaded, started } => StreamState::Report {
                total,
                downloaded,
                started,
            },
            StreamState::SaveRest(error) => StreamState::SaveRest(error@),
            StreamState::Flush => StreamState::Flush,
            StreamState::Measure => StreamState::Measure,
            StreamState::DropPart(outcome) => StreamState::DropPart(outcome@),
            StreamState::Finished(outcome) => StreamState::Finished(outcome@),
        }
    }
}

/// Whether the server agreed to continue the partial file.
pub open spec fn resuming(job: StreamJob<Seq<char>>, status: u16) -> bool {
    job.resume_from > 0 && status == PARTIAL_CONTENT
}

/// The header that asks for the bytes from the partial file's end on, where
/// there are any before it.
pub open spec fn range_header(job: StreamJob<Seq<char>>) -> Option<Seq<char>> {
    if job.resume_from > 0 {
        Some("bytes="@ + decimal(job.resume_from as nat) + "-"@)
    } else {
        None
    }
}

/// The size that the file will have, as far as the response tells.
pub open spec fn announced_total(
    job: StreamJob<Seq<char>>,
    status: u16,
    content_length: Option<u64>,
) -> int {
    match content_length {
        Some(length) => if resuming(job, status) {
            job.resume_from + length
        } else {
            length as int
        },
        None => job.size as int,
    }
}

/// The operation that a state calls for.
pub open spec fn stream_action(
    job: StreamJob<Seq<char>>,
    state: StreamState<Seq<char>>,
) -> StreamAction<Seq<char>> {
    match state {
        StreamState::Connect => StreamAction::BuildClient,
        StreamState::Ask => StreamAction::Request { url: job.url, range: range_header(job) },
        StreamState::Discard { total } => StreamAction::RemovePart,
        StreamState::Open { append, total } => StreamAction::OpenPart { append },
        StreamState::Announce { total, downloaded } => StreamAction::Report {
            downloaded,
            total,
            received: None,
        },
        StreamState::Receive { total, downloaded, started } => StreamAction::NextChunk,
        StreamState::Store { total, downloaded, started, len } => StreamAction::WriteChunk,
        StreamState::Report { total, downloaded, started } => StreamAction::Report {
            downloaded,
            total,
            received: Some((downloaded - started) as u64),
        },
        StreamState::SaveRest(error) => StreamAction::Flush,
        StreamState::Flush => StreamAction::Flush,
        StreamState::Measure => StreamAction::MeasurePart,
        StreamState::DropPart(outcome) => StreamAction::RemovePart,
        StreamState::Finished(outcome) => StreamAction::Finish(outcome),
    }
}

/// The end of an attempt that another one would not mend.
pub open spec fn fatal(message: Seq<char>) -> StreamState<Seq<char>> {
    StreamState::Finished(StreamOutcome::Fatal(InterruptibleFnError::Failed(message)))
}

/// The end of an attempt that the user cancelled.
pub open spec fn interrupted() -> StreamState<Seq<char>> {
    StreamState::Finished(StreamOutcome::Fatal(InterruptibleFnError::Interrupted))
}

/// The message for a partial file that is too small after the body ended.
pub open spec fn short_message(got: u64, size: u64) -> Seq<char> {
    "short body: got "@ + decimal(got as nat) + " of "@ + decimal(size as nat) + " bytes"@
}

/// The message for a partial file that is too large after the body ended.
pub open spec fn long_message(got: u64, size: u64) -> Seq<char> {
    "long body: got "@ + decimal(got as nat) + " of "@ + decimal(size as nat) + " bytes"@
}

/// The state after an error status. A server that has nothing from the partial
/// file's end on confirms a partial file of the file's size, which is then
/// measured and checked as if its body had just ended. A larger one is of no
/// use: without it, the next attempt asks for the whole file. Any other error
/// status is final.
pub open spec fn refused(job: StreamJob<Seq<char>>, status: u16, error: Seq<char>) -> StreamState<
    Seq<char>,
> {
    let message = "HTTP error: "@ + error;
    if status == RANGE_NOT_SATISFIABLE && 0 < job.resume_from == job.size {
        StreamState::Measure
    } else if status == RANGE_NOT_SATISFIABLE && job.resume_from > job.size {
        StreamState::DropPart(StreamOutcome::Transient(message))
    } else {
        fatal(message)
    }
}

/// The state after the partial file was measured.
pub open spec fn measured(job: StreamJob<Seq<char>>, got: u64) -> StreamState<Seq<char>> {
    if got < job.size {
        StreamState::Finished(StreamOutcome::Transient(short_message(got, job.size)))
    } else if got == job.size {
        StreamState::Finished(StreamOutcome::Done)
    } else {
        StreamState::DropPart(
            StreamOutcome::Fatal(InterruptibleFnError::Failed(long_message(got, job.size))),
        )
    }
}

/// The state after a reply. A reply that does not answer the state's operation
/// changes nothing.
pub open spec fn stream_next(
    job: StreamJob<Seq<char>>,
    state: StreamState<Seq<char>>,
    reply: StreamReply<Seq<char>>,
) -> StreamState<Seq<char>> {
    match (state, reply) {
        (StreamState::Connect, StreamReply::Ready) => StreamState::Ask,
        (StreamState::Connect, StreamReply::Failed(error)) => fatal("client build: "@ + error),
        (StreamState::Ask, StreamReply::Failed(error)) => StreamState::Finished(
            StreamOutcome::Transient("GET "@ + job.url + ": "@ + error),
        ),
        (StreamState::Ask, StreamReply::Unbuildable(error)) => fatal(
            "GET "@ + job.url + ": "@ + error,
        ),
        (StreamState::Ask, StreamReply::Refused { status, error }) => refused(job, status, error),
        (StreamState::Ask, StreamReply::Response { status, content_length }) => {
            let total = announced_total(job, status, content_length) as u64;
            if job.resume_from > 0 && !resuming(job, status) {
                StreamState::Discard { total }
            } else {
                StreamState::Open { append: resuming(job, status), total }
            }
        },
        (StreamState::Discard { total }, StreamReply::Ready) => StreamState::Open {
            append: false,
            total,
        },
        (StreamState::Discard { total }, StreamReply::Failed(error)) => StreamState::Open {
            append: false,
            total,
        },
        (StreamState::Open { append, total }, StreamReply::Ready) => StreamState::Announce {
            total,
            downloaded: if append {
                job.resume_from
            } else {
                0
            },
        },
        (StreamState::Open { append, total }, StreamReply::Failed(error)) => fatal(
            "open part: "@ + error,
        ),
        (
            StreamState::Announce { total, downloaded },
            StreamReply::Ready,
        ) => StreamState::Receive { total, downloaded, started: downloaded },
        (
            StreamState::Receive { total, downloaded, started },
            StreamReply::Chunk { len, cancelled },
        ) => if cancelled {
            interrupted()
        } else {
            StreamState::Store { total, downloaded, started, len }
        },
        (
            StreamState::Receive { total, downloaded, started },
            StreamReply::Lost { error, cancelled },
        ) => if cancelled {
            interrupted()
        } else {
            StreamState::SaveRest(error)
        },
        (
            StreamState::Receive { total, downloaded, started },
            StreamReply::Ended,
        ) => StreamState::Flush,
        (
            StreamState::Store { total, downloaded, started, len },
            StreamReply::Written { since_report_ms },
        ) => {
            let downloaded = (downloaded + len) as u64;
            if since_report_ms > REPORT_INTERVAL_MS {
                StreamState::Report { total, downloaded, started }
            } else {
                StreamState::Receive { total, downloaded, started }
            }
        },
        (
            StreamState::Store { total, downloaded, started, len },
            StreamReply::Failed(error),
        ) => fatal("write: "@ + error),
        (
            StreamState::Report { total, downloaded, started },
            StreamReply::Ready,
        ) => StreamState::Receive { total, downloaded, started },
        (StreamState::SaveRest(error), StreamReply::Ready) => StreamState::Finished(
            StreamOutcome::Transient("recv: "@ + error),
        ),
        (StreamState::SaveRest(error), StreamReply::Failed(second)) => StreamState::Finished(
            StreamOutcome::Transient("recv: "@ + error),
        ),
        (StreamState::Flush, StreamReply::Ready) => StreamState::Measure,
        (StreamState::Flush, StreamReply::Failed(error)) => fatal("flush: "@ + error),
        (StreamState::Measure, StreamReply::Measured(got)) => measured(job, got),
        (StreamState::Measure, StreamReply::Failed(error)) => StreamState::Finished(
            StreamOutcome::Done,
        ),
        (StreamState::DropPart(outcome), StreamReply::Ready) => StreamState::Finished(outcome),
        (StreamState::DropPart(outcome), StreamReply::Failed(error)) => StreamState::Finished(
            outcome,
        ),
        (state, _) => state,
    }
}

/// Whether the sizes that follow from a reply fit in 64 bits.
pub open spec fn stream_fits(
    job: StreamJob<Seq<char>>,
    state: StreamState<Seq<char>>,
    reply: StreamReply<Seq<char>>,
) -> bool {
    match (state, reply) {
        (StreamState::Ask, StreamReply::Response { status, content_length }) => announced_total(
            job,
            status,
            content_length,
        ) <= u64::MAX,
        (
            StreamState::Store { total, downloaded, started, len },
            StreamReply::Written { since_report_ms },
        ) => downloaded + len <= u64::MAX,
        _ => true,
    }
}

/// The bytes on disk never become fewer while a body is received.
pub open spec fn stream_wf(state: StreamState<Seq<char>>) -> bool {
    match state {
        StreamState::Receive { total, downloaded, started } => started <= downloaded,
        StreamState::Store { total, downloaded, started, len } => started <= downloaded,
        StreamState::Report { total, downloaded, started } => started <= downloaded,
        _ => true,
    }
}

/// The end of an attempt that another one would not mend.
fn fatal_state(a: &str, b: &str) -> (state: StreamState<String>)
    ensures
        state@ == fatal(a@ + b@),
{
    StreamState::Finished(StreamOutcome::Fatal(InterruptibleFnError::Failed(concatenated(a, b))))
}

/// The message for a request that was not answered.
fn get_message(url: &str, error: &str) -> (message: String)
    ensures
        message@ == "GET "@ + url@ + ": "@ + error@,
{
    let mut message = concatenated("GET ", url);
    message.append(": ");
    message.append(error);
    message
}

/// The message for a partial file of a wrong size.
fn size_message(what: &str, got: u64, size: u64) -> (message: String)
    ensures
        message@ == what@ + decimal(got as nat) + " of "@ + decimal(size as nat) + " bytes"@,
{
    let mut message = what.to_owned();
    push_decimal(&mut message, got);
    message.append(" of ");
    push_decimal(&mut message, size);
    message.append(" bytes");
    message
}

/// Copies an outcome.
fn copy_stream_outcome(outcome: &StreamOutcome<String>) -> (copy: StreamOutcome<String>)
    ensures
        copy@ == outcome@,
{
    match outcome {
        StreamOutcome::Done => StreamOutcome::Done,
        StreamOutcome::Transient(message) => StreamOutcome::Transient(message.clone()),
        StreamOutcome::Fatal(InterruptibleFnError::Interrupted) => {
            StreamOutcome::Fatal(InterruptibleFnError::Interrupted)
        },
        StreamOutcome::Fatal(InterruptibleFnError::Failed(message)) => {
            StreamOutcome::Fatal(InterruptibleFnError::Failed(message.clone()))
        },
    }
}

impl PartStream {
    /// Begins an attempt, given the size of the partial file (`None` where
    /// there is none).
    pub fn start(url: &str, size: u64, part_size: Option<u64>) -> (stream: PartStream)
        ensures
            stream.job@ == (StreamJob {
                url: url@,
                size,
                resume_from: if part_size is Some {
                    part_size->0
                } else {
                    0
                },
            }),
            stream.state@ == StreamState::<Seq<char>>::Connect,
    {
        let resume_from = match part_size {
            Some(size) => size,
            None => 0,
        };
        PartStream {
            job: StreamJob { url: url.to_owned(), size, resume_from },
            state: StreamState::Connect,
        }
    }

    /// The operation to perform next.
    pub fn action(&self) -> (action: StreamAction<String>)
        requires
            stream_wf(self.state@),
        ensures
            action@ == stream_action(self.job@, self.state@),
    {
        match &self.state {
            StreamState::Connect => StreamAction::BuildClient,
            StreamState::Ask => {
                let range = if self.job.resume_from > 0 {
                    let mut range = "bytes=".to_owned();
                    push_decimal(&mut range, self.job.resume_from);
                    range.append("-");
                    Some(range)
                } else {
                    None
                };
                StreamAction::Request { url: self.job.url.clone(), range }
            },
            StreamState::Discard { total: _ } => StreamAction::RemovePart,
            StreamState::Open { append, total: _ } => StreamAction::OpenPart { append: *append },
            StreamState::Announce { total, downloaded } => StreamAction::Report {
                downloaded: *downloaded,
                total: *total,
                received: None,
            },
            StreamState::Receive { total: _, downloaded: _, started: _ } => StreamAction::NextChunk,
            StreamState::Store { total: _, downloaded: _, started: _, len: _ } => {
                StreamAction::WriteChunk
            },
            StreamState::Report { total, downloaded, started } => StreamAction::Report {
                downloaded: *downloaded,
                total: *total,
                received: Some(*downloaded - *started),
            },
            StreamState::SaveRest(_) => StreamAction::Flush,
            StreamState::Flush => StreamAction::Flush,
            StreamState::Measure => StreamAction::MeasurePart,
            StreamState::DropPart(_) => StreamAction::RemovePart,
            StreamState::Finished(outcome) => StreamAction::Finish(copy_stream_outcome(outcome)),
        }
    }

    /// Whether the sizes that follow from a reply fit in 64 bits.
    pub fn fits(&self, reply: &StreamReply<String>) -> (fits: bool)
        ensures
            fits == stream_fits(self.job@, self.state@, reply@),
    {
        match (&self.state, reply) {
            (StreamState::Ask, StreamReply::Response { status, content_length }) => {
                let resuming = self.job.resume_from > 0 && *status == PARTIAL_CONTENT;
                match content_length {
                    Some(length) => !resuming || *length <= u64::MAX - self.job.resume_from,
                    None => true,
                }
            },
            (
                StreamState::Store { total: _, downloaded, started: _, len },
                StreamReply::Written { since_report_ms: _ },
            ) => *len <= u64::MAX - *downloaded,
            _ => true,
        }
    }

    /// Takes in what came of the operation.
    pub fn advance(self, reply: &StreamReply<String>) -> (next: PartStream)
        requires
            stream_wf(self.state@),
            stream_fits(self.job@, self.state@, reply@),
        ensures
            next.job == self.job,
            next.state@ == stream_next(self.job@, self.state@, reply@),
            stream_wf(next.state@),
    {
        let job = self.job;
        let state = match (self.state, reply) {
            (StreamState::Connect, StreamReply::Ready) => StreamState::Ask,
            (StreamState::Connect, StreamReply::Failed(error)) => {
                fatal_state("client build: ", error.as_str())
            },
            (StreamState::Ask, StreamReply::Failed(error)) => {
                let message = get_message(job.url.as_str(), error.as_str());
                StreamState::Finished(StreamOutcome::Transient(message))
            },
            (StreamState::Ask, StreamReply::Unbuildable(error)) => {
                let message = get_message(job.url.as_str(), error.as_str());
                StreamState::Finished(StreamOutcome::Fatal(InterruptibleFnError::Failed(message)))
            },
            (StreamState::Ask, StreamReply::Refused { status, error }) => {
                if *status == RANGE_NOT_SATISFIABLE && job.resume_from > 0 && job.resume_from
                    == job.size {
                    StreamState::Measure
                } else if *status == RANGE_NOT_SATISFIABLE && job.resume_from > job.size {
                    let message = concatenated("HTTP error: ", error.as_str());
                    StreamState::DropPart(StreamOutcome::Transient(message))
                } else {
                    fatal_state("HTTP error: ", error.as_str())
                }
            },
            (StreamState::Ask, StreamReply::Response { status, content_length }) => {
                let resuming = job.resume_from > 0 && *status == PARTIAL_CONTENT;
                let total: u64 = match content_length {
                    Some(length) => if resuming {
                        job.resume_from + *length
                    } else {
                        *length
                    },
                    None => job.size,
                };
                if job.resume_from > 0 && !resuming {
                    StreamState::Discard { total }
                } else {
                    StreamState::Open { append: resuming, total }
                }
            },
            (StreamState::Discard { total }, StreamReply::Ready) => {
                StreamState::Open { append: false, total }
            },
            (StreamState::Discard { total }, StreamReply::Failed(_)) => {
                StreamState::Open { append: false, total }
            },
            (StreamState::Open { append, total }, StreamReply::Ready) => {
                StreamState::Announce {
                    total,
                    downloaded: if append {
                        job.resume_from
                    } else {
                        0
                    },
                }
            },
            (StreamState::Open { append: _, total: _ }, StreamReply::Failed(error)) => {
                fatal_state("open part: ", error.as_str())
            },
            (StreamState::Announce { total, downloaded }, StreamReply::Ready) => {
                StreamState::Receive { total, downloaded, started: downloaded }
            },
            (
                StreamState::Receive { total, downloaded, started },
                StreamReply::Chunk { len, cancelled },
            ) => {
                if *cancelled {
                    StreamState::Finished(StreamOutcome::Fatal(InterruptibleFnError::Interrupted))
                } else {
                    StreamState::Store { total, downloaded, started, len: *len }
                }
            },
            (
                StreamState::Receive { total: _, downloaded: _, started: _ },
                StreamReply::Lost { error, cancelled },
            ) => {
                if *cancelled {
                    StreamState::Finished(StreamOutcome::Fatal(InterruptibleFnError::Interrupted))
                } else {
                    StreamState::SaveRest(error.clone())
                }
            },
            (
                StreamState::Receive { total: _, downloaded: _, started: _ },
                StreamReply::Ended,
            ) => StreamState::Flush,
            (
                StreamState::Store { total, downloaded, started, len },
                StreamReply::Written { since_report_ms },
            ) => {
                let downloaded: u64 = downloaded + len;
                if *since_report_ms > REPORT_INTERVAL_MS {
                    StreamState::Report { total, downloaded, started }
                } else {
                    StreamState::Receive { total, downloaded, started }
                }
            },
            (
                StreamState::Store { total: _, downloaded: _, started: _, len: _ },
                StreamReply::Failed(error),
            ) => fatal_state("write: ", error.as_str()),
            (StreamState::Report { total, downloaded, started }, StreamReply::Ready) => {
                StreamState::Receive { total, downloaded, started }
            },
            (StreamState::SaveRest(error), StreamReply::Ready) => {
                StreamState::Finished(StreamOutcome::Transient(concatenated("recv: ", error.as_str())))
            },
            (StreamState::SaveRest(error), StreamReply::Failed(_)) => {
                StreamState::Finished(StreamOutcome::Transient(concatenated("recv: ", error.as_str())))
            },
            (StreamState::Flush, StreamReply::Ready) => StreamState::Measure,
            (StreamState::Flush, StreamReply::Failed(error)) => {
                fatal_state("flush: ", error.as_str())
            },
            (StreamState::Measure, StreamReply::Measured(got)) => {
                if *got < job.size {
                    let message = size_message("short body: got ", *got, job.size);
                    StreamState::Finished(StreamOutcome::Transient(message))
                } else if *got == job.size {
                    StreamState::Finished(StreamOutcome::Done)
                } else {
                    let message = size_message("long body: got ", *got, job.size);
                    StreamState::DropPart(
                        StreamOutcome::Fatal(InterruptibleFnError::Failed(message)),
                    )
                }
            },
            (StreamState::Measure, StreamReply::Failed(_)) => {
                StreamState::Finished(StreamOutcome::Done)
            },
            (StreamState::DropPart(outcome), StreamReply::Ready) => StreamState::Finished(outcome),
            (StreamState::DropPart(outcome), StreamReply::Failed(_)) => {
                StreamState::Finished(outcome)
            },
            (state, _) => state,
        };
        PartStream { job, state }
    }
}

} // verus!
