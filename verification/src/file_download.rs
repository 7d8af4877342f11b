//! Downloading one file of a pack: attempts with pauses between them, then a
//! check of the digest, then the partial file gets its final name. The download
//! runs as a state machine that names one operation at a time and is told what
//! came of it.
use crate::config::OptionalPackFile;
use crate::digest::{eq_ignore_ascii_case, same_ignoring_case};
use crate::part_stream::{InterruptibleFnError, StreamOutcome};
use crate::text::{decimal, push_decimal};
use vstd::prelude::*;

verus! {

/// The extension of a partial file.
pub const PART_EXTENSION: &'static str = "part";

/// After so many lost attempts that were each followed by another one, the
/// download gives up.
pub const STREAM_MAX_RETRIES: u32 = 8;

/// While it pauses, the download looks for a cancellation every so many
/// milliseconds.
pub const PAUSE_POLL_MS: u64 = 250;

/// The seconds to wait after a number of retries: doubling from one, and never
/// more than sixteen.
pub open spec fn backoff_secs(retries: nat) -> nat
    decreases retries,
{
    if retries == 0 {
        1
    } else if retries <= 4 {
        2 * backoff_secs((retries - 1) as nat)
    } else {
        16
    }
}

/// An operation of a file's download.
pub enum FetchAction<T> {
    /// Look whether the user cancelled.
    LookForCancel,
    /// Make one attempt at streaming the file.
    Stream,
    /// Begin a pause of so many seconds.
    BeginPause(u64),
    /// Look whether the pause is over, and whether the user cancelled.
    PollPause,
    /// Sleep for so many milliseconds.
    Sleep(u64),
    /// Compute the digest of the partial file.
    DigestPart,
    RemovePart,
    /// Give the partial file its final name.
    Promote,
    Finish(Result<(), InterruptibleFnError<T>>),
}

/// What came of an operation.
pub enum FetchReply<T> {
    Cancelled(bool),
    Streamed(StreamOutcome<T>),
    /// The operation was done.
    Ready,
    /// The operation failed.
    Failed(T),
    Paused { over: bool, cancelled: bool },
    Digested(T),
    /// The partial file at `part` could not be renamed to `dest`.
    NotPromoted { part: T, dest: T, error: T },
}

/// How far a file's download has come: the next operation.
pub enum FetchState<T> {
    LookForCancel,
    Stream,
    BeginPause(u64),
    PollPause,
    Sleep,
    DigestPart,
    /// The partial file is wrong; the message says how.
    RemovePart(T),
    Promote,
    Finished(Result<(), InterruptibleFnError<T>>),
}

/// A file's download under way.
pub struct FileDownload<T> {
    pub name: T,
    /// The digest that the file must have.
    pub sha256: T,
    /// How many attempts were lost and followed by another one.
    pub retries: u32,
    pub state: FetchState<T>,
}

impl View for FetchReply<String> {
    type V = FetchReply<Seq<char>>;

    open spec fn view(&self) -> FetchReply<Seq<char>> {
        match *self {
            FetchReply::Cancelled(cancelled) => FetchReply::Cancelled(cancelled),
            FetchReply::Streamed(outcome) => FetchReply::Streamed(outcome@),
            FetchReply::Ready => FetchReply::Ready,
            FetchReply::Failed(error) => FetchReply::Failed(error@),
            FetchReply::Paused { over, cancelled } => FetchReply::Paused { over, cancelled },
            FetchReply::Digested(digest) => FetchReply::Digested(digest@),
            FetchReply::NotPromoted { part, dest, error } => FetchReply::NotPromoted {
                part: part@,
                dest: dest@,
                error: error@,
            },
        }
    }
}

/// How a download ended, with its message as plain text.
pub open spec fn fetch_outcome(result: Result<(), InterruptibleFnError<String>>) -> Result<
    (),
    InterruptibleFnError<Seq<char>>,
> {
    match result {
        Ok(()) => Ok(()),
        Err(error) => Err(error@),
    }
}

impl View for FetchAction<String> {
    type V = FetchAction<Seq<char>>;

    open spec fn view(&self) -> FetchAction<Seq<char>> {
        match *self {
            FetchAction::LookForCancel => FetchAction::LookForCancel,
            FetchAction::Stream => FetchAction::Stream,
            FetchAction::BeginPause(secs) => FetchAction::BeginPause(secs),
            FetchAction::PollPause => FetchAction::PollPause,
            FetchAction::Sleep(millis) => FetchAction::Sleep(millis),
            FetchAction::DigestPart => FetchAction::DigestPart,
            FetchAction::RemovePart => FetchAction::RemovePart,
            FetchAction::Promote => FetchAction::Promote,
            FetchAction::Finish(result) => FetchAction::Finish(fetch_outcome(result)),
        }
    }
}

impl View for FetchState<String> {
    type V = FetchState<Seq<char>>;

    open spec fn view(&self) -> FetchState<Seq<char>> {
        match *self {
            FetchState::LookForCancel => FetchState::LookForCancel,
            FetchState::Stream => FetchState::Stream,
            FetchState::BeginPause(secs) => FetchState::BeginPause(secs),
            FetchState::PollPause => FetchState::PollPause,
            FetchState::Sleep => FetchState::Sleep,
            FetchState::DigestPart => FetchState::DigestPart,
            FetchState::RemovePart(message) => FetchState::RemovePart(message@),
            FetchState::Promote => FetchState::Promote,
            FetchState::Finished(result) => FetchState::Finished(fetch_outcome(result)),
        }
    }
}

impl View for FileDownload<String> {
    type V = FileDownload<Seq<char>>;

    open spec fn view(&self) -> FileDownload<Seq<char>> {
        FileDownload {
            name: self.name@,
            sha256: self.sha256@,
            retries: self.retries,
            state: self.state@,
        }
    }
}

/// The operation that a state calls for.
pub open spec fn fetch_action(state: FetchState<Seq<char>>) -> FetchAction<Seq<char>> {
    match state {
        FetchState::LookForCancel => FetchAction::LookForCancel,
        FetchState::Stream => FetchAction::Stream,
        FetchState::BeginPause(secs) => FetchAction::BeginPause(secs),
        FetchState::PollPause => FetchAction::PollPause,
        FetchState::Sleep => FetchAction::Sleep(PAUSE_POLL_MS),
        FetchState::DigestPart => FetchAction::DigestPart,
        FetchState::RemovePart(_) => FetchAction::RemovePart,
        FetchState::Promote => FetchAction::Promote,
        FetchState::Finished(result) => FetchAction::Finish(result),
    }
}

/// The end of a download that failed.
pub open spec fn fetch_failed(message: Seq<char>) -> FetchState<Seq<char>> {
    FetchState::Finished(Err(InterruptibleFnError::Failed(message)))
}

/// The end of a download that the user cancelled.
pub open spec fn fetch_interrupted() -> FetchState<Seq<char>> {
    FetchState::Finished(Err(InterruptibleFnError::Interrupted))
}

/// The message for a file that no attempt delivered.
pub open spec fn exhausted_message(name: Seq<char>, retries: u32, message: Seq<char>) -> Seq<char> {
    name + " after "@ + decimal(retries as nat) + " retries: "@ + message
}

/// The message for a file that has another digest than it must have.
pub open spec fn mismatch_message(name: Seq<char>, expected: Seq<char>, got: Seq<char>) -> Seq<
    char,
> {
    "checksum mismatch for "@ + name + ": expected "@ + expected + ", got "@ + got
}

/// The download after a reply. A reply that does not answer the state's
/// operation changes nothing.
pub open spec fn fetch_next(
    download: FileDownload<Seq<char>>,
    reply: FetchReply<Seq<char>>,
) -> FileDownload<Seq<char>> {
    match (download.state, reply) {
        (FetchState::LookForCancel, FetchReply::Cancelled(cancelled)) => FileDownload {
            state: if cancelled {
                fetch_interrupted()
            } else {
                FetchState::Stream
            },
            ..download
        },
        (FetchState::Stream, FetchReply::Streamed(outcome)) => match outcome {
            StreamOutcome::Done => FileDownload { state: FetchState::DigestPart, ..download },
            StreamOutcome::Fatal(error) => FileDownload {
                state: FetchState::Finished(Err(error)),
                ..download
            },
            StreamOutcome::Transient(message) => if download.retries >= STREAM_MAX_RETRIES {
                FileDownload {
                    state: fetch_failed(
                        exhausted_message(download.name, download.retries, message),
                    ),
                    ..download
                }
            } else {
                FileDownload {
                    retries: (download.retries + 1) as u32,
                    state: FetchState::BeginPause(backoff_secs(download.retries as nat) as u64),
                    ..download
                }
            },
        },
        (FetchState::BeginPause(secs), FetchReply::Ready) => FileDownload {
            state: FetchState::PollPause,
            ..download
        },
        (FetchState::PollPause, FetchReply::Paused { over, cancelled }) => FileDownload {
            state: if over {
                FetchState::LookForCancel
            } else if cancelled {
                fetch_interrupted()
            } else {
                FetchState::Sleep
            },
            ..download
        },
        (FetchState::Sleep, FetchReply::Ready) => FileDownload {
            state: FetchState::PollPause,
            ..download
        },
        (FetchState::DigestPart, FetchReply::Digested(digest)) => FileDownload {
            state: if same_ignoring_case(digest, download.sha256) {
                FetchState::Promote
            } else {
                FetchState::RemovePart(mismatch_message(download.name, download.sha256, digest))
            },
            ..download
        },
        (FetchState::DigestPart, FetchReply::Failed(error)) => FileDownload {
            state: fetch_failed("sha256 verify: "@ + error),
            ..download
        },
        (FetchState::RemovePart(message), FetchReply::Ready) => FileDownload {
            state: fetch_failed(message),
            ..download
        },
        (FetchState::RemovePart(message), FetchReply::Failed(error)) => FileDownload {
            state: fetch_failed(message),
            ..download
        },
        (FetchState::Promote, FetchReply::Ready) => FileDownload {
            state: FetchState::Finished(Ok(())),
            ..download
        },
        (FetchState::Promote, FetchReply::NotPromoted { part, dest, error }) => FileDownload {
            state: fetch_failed("rename "@ + part + " -> "@ + dest + ": "@ + error),
            ..download
        },
        _ => download,
    }
}

/// The seconds to wait after a number of retries.
pub fn backoff(retries: u32) -> (secs: u64)
    ensures
        secs == backoff_secs(retries as nat),
{
    reveal_with_fuel(backoff_secs, 6);
    let shift: u32 = if retries < 4 {
        retries
    } else {
        4
    };
    assert(1u64 << 0u32 == 1u64) by (bit_vector);
    assert(1u64 << 1u32 == 2u64) by (bit_vector);
    assert(1u64 << 2u32 == 4u64) by (bit_vector);
    assert(1u64 << 3u32 == 8u64) by (bit_vector);
    assert(1u64 << 4u32 == 16u64) by (bit_vector);
    1u64 << shift
}

/// Whether an installed file is the one that is wanted, given its size and its
/// digest (`None` where it could not be had).
pub fn already_installed(
    size: Option<u64>,
    expected_size: u64,
    digest: Option<&str>,
    expected_sha256: &str,
) -> (installed: bool)
    ensures
        installed == (size == Some(expected_size) && (digest matches Some(digest)
            && same_ignoring_case(digest@, expected_sha256@))),
{
    match size {
        Some(size) => {
            if size != expected_size {
                return false;
            }
        },
        None => {
            return false;
        },
    }
    match digest {
        Some(digest) => eq_ignore_ascii_case(digest, expected_sha256),
        None => false,
    }
}

/// Copies how a download ended.
fn copy_fetch_outcome(result: &Result<(), InterruptibleFnError<String>>) -> (copy: Result<
    (),
    InterruptibleFnError<String>,
>)
    ensures
        fetch_outcome(copy) == fetch_outcome(*result),
{
    match result {
        Ok(()) => Ok(()),
        Err(InterruptibleFnError::Interrupted) => Err(InterruptibleFnError::Interrupted),
        Err(InterruptibleFnError::Failed(message)) => Err(
            InterruptibleFnError::Failed(message.clone()),
        ),
    }
}

/// The end of a download that failed.
fn failed_state(message: String) -> (state: FetchState<String>)
    ensures
        state@ == fetch_failed(message@),
{
    FetchState::Finished(Err(InterruptibleFnError::Failed(message)))
}

/// The end of a download that the user cancelled.
fn interrupted_state() -> (state: FetchState<String>)
    ensures
        state@ == fetch_interrupted(),
{
    FetchState::Finished(Err(InterruptibleFnError::Interrupted))
}

impl FileDownload<String> {
    /// Begins the download of a file.
    pub fn start(file: &OptionalPackFile) -> (download: FileDownload<String>)
        ensures
            download@ == (FileDownload {
                name: file.name@,
                sha256: file.sha256@,
                retries: 0,
                state: FetchState::<Seq<char>>::LookForCancel,
            }),
    {
        FileDownload {
            name: file.name.clone(),
            sha256: file.sha256.clone(),
            retries: 0,
            state: FetchState::LookForCancel,
        }
    }

    /// The operation to perform next.
    pub fn action(&self) -> (action: FetchAction<String>)
        ensures
            action@ == fetch_action(self@.state),
    {
        match &self.state {
            FetchState::LookForCancel => FetchAction::LookForCancel,
            FetchState::Stream => FetchAction::Stream,
            FetchState::BeginPause(secs) => FetchAction::BeginPause(*secs),
            FetchState::PollPause => FetchAction::PollPause,
            FetchState::Sleep => FetchAction::Sleep(PAUSE_POLL_MS),
            FetchState::DigestPart => FetchAction::DigestPart,
            FetchState::RemovePart(_) => FetchAction::RemovePart,
            FetchState::Promote => FetchAction::Promote,
            FetchState::Finished(result) => FetchAction::Finish(copy_fetch_outcome(result)),
        }
    }

    /// Takes in what came of the operation.
    pub fn advance(self, reply: &FetchReply<String>) -> (next: FileDownload<String>)
        ensures
            next@ == fetch_next(self@, reply@),
    {
        let FileDownload { name, sha256, retries, state } = self;
        match (state, reply) {
            (FetchState::LookForCancel, FetchReply::Cancelled(cancelled)) => {
                let state = if *cancelled {
                    interrupted_state()
                } else {
                    FetchState::Stream
                };
                FileDownload { name, sha256, retries, state }
            },
            (FetchState::Stream, FetchReply::Streamed(outcome)) => match outcome {
                StreamOutcome::Done => {
                    FileDownload { name, sha256, retries, state: FetchState::DigestPart }
                },
                StreamOutcome::Fatal(InterruptibleFnError::Interrupted) => {
                    FileDownload { name, sha256, retries, state: interrupted_state() }
                },
                StreamOutcome::Fatal(InterruptibleFnError::Failed(message)) => {
                    FileDownload { name, sha256, retries, state: failed_state(message.clone()) }
                },
                StreamOutcome::Transient(message) => {
                    if retries >= STREAM_MAX_RETRIES {
                        let mut text = name.clone();
                        text.append(" after ");
                        push_decimal(&mut text, retries as u64);
                        text.append(" retries: ");
                        text.append(message.as_str());
                        FileDownload { name, sha256, retries, state: failed_state(text) }
                    } else {
                        let secs = backoff(retries);
                        FileDownload {
                            name,
                            sha256,
                            retries: retries + 1,
                            state: FetchState::BeginPause(secs),
                        }
                    }
                },
            },
            (FetchState::BeginPause(_), FetchReply::Ready) => {
                FileDownload { name, sha256, retries, state: FetchState::PollPause }
            },
            (FetchState::PollPause, FetchReply::Paused { over, cancelled }) => {
                let state = if *over {
                    FetchState::LookForCancel
                } else if *cancelled {
                    interrupted_state()
                } else {
                    FetchState::Sleep
                };
                FileDownload { name, sha256, retries, state }
            },
            (FetchState::Sleep, FetchReply::Ready) => {
                FileDownload { name, sha256, retries, state: FetchState::PollPause }
            },
            (FetchState::DigestPart, FetchReply::Digested(digest)) => {
                if eq_ignore_ascii_case(digest.as_str(), sha256.as_str()) {
                    FileDownload { name, sha256, retries, state: FetchState::Promote }
                } else {
                    let mut text = "checksum mismatch for ".to_owned();
                    text.append(name.as_str());
                    text.append(": expected ");
                    text.append(sha256.as_str());
                    text.append(", got ");
                    text.append(digest.as_str());
                    FileDownload { name, sha256, retries, state: FetchState::RemovePart(text) }
                }
            },
            (FetchState::DigestPart, FetchReply::Failed(error)) => {
                let mut text = "sha256 verify: ".to_owned();
                text.append(error.as_str());
                FileDownload { name, sha256, retries, state: failed_state(text) }
            },
            (FetchState::RemovePart(message), FetchReply::Ready) => {
                FileDownload { name, sha256, retries, state: failed_state(message) }
            },
            (FetchState::RemovePart(message), FetchReply::Failed(_)) => {
                FileDownload { name, sha256, retries, state: failed_state(message) }
            },
            (FetchState::Promote, FetchReply::Ready) => {
                FileDownload { name, sha256, retries, state: FetchState::Finished(Ok(())) }
            },
            (FetchState::Promote, FetchReply::NotPromoted { part, dest, error }) => {
                let mut text = "rename ".to_owned();
                text.append(part.as_str());
                text.append(" -> ");
                text.append(dest.as_str());
                text.append(": ");
                text.append(error.as_str());
                FileDownload { name, sha256, retries, state: failed_state(text) }
            },
            (state, _) => FileDownload { name, sha256, retries, state },
        }
    }
}

} // verus!
