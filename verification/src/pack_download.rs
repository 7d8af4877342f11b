//! Downloading an optional pack: its files one after the other, with a report of
//! every step. The download runs as a state machine that names one operation at
//! a time and is told what came of it.
use crate::cancel::{reset_pack_cancel, PackCancel};
use crate::config::{OptionalPack, OptionalPackFile};
use crate::part_stream::InterruptibleFnError;
use vstd::prelude::*;

verus! {

/// A report of the download of a pack.
pub enum PackProgress {
    Started { id: String, total_bytes: u64 },
    File {
        id: String,
        file_index: usize,
        file_count: usize,
        file_name: String,
        downloaded: u64,
        total: u64,
        bytes_per_sec: u64,
    },
    Verifying { id: String, file_name: String },
    Complete { id: String },
    Cancelled { id: String },
    Failed { id: String, error: String },
}

/// How the download of a pack ended.
pub enum PackEnd {
    Complete,
    Cancelled,
    /// A file could not be downloaded.
    Failed(String),
    /// The place for a file could not be found.
    NoDestination(String),
}

/// An operation of a pack's download. The file that it is about is the
/// download's current one.
pub enum PackAction {
    Report(PackProgress),
    LookForCancel,
    /// Find where the file of this name belongs.
    Locate(String),
    /// Check whether the file is installed already.
    CheckInstalled,
    /// Download the file.
    Fetch,
    Finish(PackEnd),
}

/// What came of an operation.
pub enum PackReply {
    Ready,
    Cancelled(bool),
    Located,
    NotLocated(String),
    Installed(bool),
    Fetched(Result<(), InterruptibleFnError<String>>),
}

/// How far the download of a pack has come: the next operation.
pub enum PackState {
    ReportStart,
    LookForCancel,
    Locate,
    ReportCheck,
    CheckInstalled,
    ReportInstalled,
    LookForCancelAgain,
    Fetch,
    ReportFetched,
    ReportEnd(PackEnd),
    Finished(PackEnd),
}

/// The download of a pack under way.
pub struct PackDownload {
    pub pack: OptionalPack,
    /// The bytes of all files of the pack.
    pub total_bytes: u64,
    /// The current file's place in the pack.
    pub index: usize,
    pub state: PackState,
}

/// The bytes of a list of files.
pub open spec fn total_size(files: Seq<OptionalPackFile>) -> nat
    decreases files.len(),
{
    if files.len() == 0 {
        0
    } else {
        total_size(files.drop_last()) + files.last().size as nat
    }
}

/// Adds up the sizes of a list of files; `None` where they exceed 64 bits.
pub fn total_bytes(files: &Vec<OptionalPackFile>) -> (total: Option<u64>)
    ensures
        total is Some == (total_size(files@) <= u64::MAX),
        total matches Some(total) ==> total == total_size(files@),
{
    let mut total: u64 = 0;
    let mut i: usize = 0;
    assert(files@.take(0) =~= Seq::empty());
    while i < files.len()
        invariant
            i <= files.len(),
            total == total_size(files@.take(i as int)),
        decreases files.len() - i,
    {
        proof {
            assert(files@.take(i + 1).drop_last() =~= files@.take(i as int));
            assert(files@.take(i + 1).last() == files@[i as int]);
        }
        match total.checked_add(files[i].size) {
            Some(sum) => {
                total = sum;
            },
            None => {
                proof {
                    lemma_total_size_grows(files@, i + 1);
                }
                return None;
            },
        }
        i = i + 1;
    }
    assert(files@.take(i as int) =~= files@);
    Some(total)
}

/// More files have no fewer bytes.
proof fn lemma_total_size_grows(files: Seq<OptionalPackFile>, i: int)
    requires
        0 <= i <= files.len(),
    ensures
        total_size(files.take(i)) <= total_size(files),
    decreases files.len() - i,
{
    if i == files.len() {
        assert(files.take(i) =~= files);
    } else {
        lemma_total_size_grows(files, i + 1);
        assert(files.take(i + 1).drop_last() =~= files.take(i));
    }
}

impl PackDownload {
    /// The current file is one of the pack, except before the first report of
    /// an empty pack and at the end.
    pub open spec fn wf(self) -> bool {
        &&& self.total_bytes == total_size(self.pack.files@)
        &&& self.index <= self.pack.files@.len()
        &&& match self.state {
            PackState::ReportStart => self.index == 0,
            PackState::ReportEnd(_) => true,
            PackState::Finished(_) => true,
            _ => self.index < self.pack.files@.len(),
        }
    }

    /// The current file.
    pub open spec fn file(self) -> OptionalPackFile {
        self.pack.files@[self.index as int]
    }

    /// The report of a number of bytes of the current file.
    pub open spec fn progress(self, downloaded: u64, total: u64, rate: u64) -> PackProgress {
        PackProgress::File {
            id: self.pack.id,
            file_index: self.index,
            file_count: self.pack.files@.len() as usize,
            file_name: self.file().name,
            downloaded,
            total,
            bytes_per_sec: rate,
        }
    }

    /// The operation that the state calls for.
    pub open spec fn next_action(self) -> PackAction {
        let id = self.pack.id;
        match self.state {
            PackState::ReportStart => PackAction::Report(
                PackProgress::Started { id, total_bytes: self.total_bytes },
            ),
            PackState::LookForCancel => PackAction::LookForCancel,
            PackState::Locate => PackAction::Locate(self.file().name),
            PackState::ReportCheck => PackAction::Report(
                PackProgress::Verifying { id, file_name: self.file().name },
            ),
            PackState::CheckInstalled => PackAction::CheckInstalled,
            PackState::ReportInstalled => PackAction::Report(
                self.progress(self.file().size, self.file().size, 0),
            ),
            PackState::LookForCancelAgain => PackAction::LookForCancel,
            PackState::Fetch => PackAction::Fetch,
            PackState::ReportFetched => PackAction::Report(
                PackProgress::Verifying { id, file_name: self.file().name },
            ),
            PackState::ReportEnd(PackEnd::Complete) => PackAction::Report(
                PackProgress::Complete { id },
            ),
            PackState::ReportEnd(PackEnd::Cancelled) => PackAction::Report(
                PackProgress::Cancelled { id },
            ),
            PackState::ReportEnd(PackEnd::Failed(error)) => PackAction::Report(
                PackProgress::Failed { id, error },
            ),
            PackState::ReportEnd(PackEnd::NoDestination(error)) => PackAction::Finish(
                PackEnd::NoDestination(error),
            ),
            PackState::Finished(end) => PackAction::Finish(end),
        }
    }

    /// The download in another state.
    pub open spec fn in_state(self, state: PackState) -> PackDownload {
        PackDownload { state, ..self }
    }

    /// The download at a file's place, or past the last file.
    pub open spec fn at_file(self, index: int) -> PackDownload {
        PackDownload {
            index: index as usize,
            state: if index < self.pack.files@.len() {
                PackState::LookForCancel
            } else {
                PackState::ReportEnd(PackEnd::Complete)
            },
            ..self
        }
    }

    /// The download after a reply. A reply that does not answer the state's
    /// operation changes nothing.
    pub open spec fn next(self, reply: PackReply) -> PackDownload {
        match (self.state, reply) {
            (PackState::ReportStart, PackReply::Ready) => self.at_file(0),
            (PackState::LookForCancel, PackReply::Cancelled(cancelled)) => self.in_state(
                if cancelled {
                    PackState::ReportEnd(PackEnd::Cancelled)
                } else {
                    PackState::Locate
                },
            ),
            (PackState::Locate, PackReply::Located) => self.in_state(PackState::ReportCheck),
            (PackState::Locate, PackReply::NotLocated(error)) => self.in_state(
                PackState::Finished(PackEnd::NoDestination(error)),
            ),
            (PackState::ReportCheck, PackReply::Ready) => self.in_state(PackState::CheckInstalled),
            (PackState::CheckInstalled, PackReply::Installed(installed)) => self.in_state(
                if installed {
                    PackState::ReportInstalled
                } else {
                    PackState::LookForCancelAgain
                },
            ),
            (PackState::ReportInstalled, PackReply::Ready) => self.at_file(self.index + 1),
            (PackState::LookForCancelAgain, PackReply::Cancelled(cancelled)) => self.in_state(
                if cancelled {
                    PackState::ReportEnd(PackEnd::Cancelled)
                } else {
                    PackState::Fetch
                },
            ),
            (PackState::Fetch, PackReply::Fetched(Ok(_))) => self.in_state(
                PackState::ReportFetched,
            ),
            (
                PackState::Fetch,
                PackReply::Fetched(Err(InterruptibleFnError::Interrupted)),
            ) => self.in_state(PackState::ReportEnd(PackEnd::Cancelled)),
            (
                PackState::Fetch,
                PackReply::Fetched(Err(InterruptibleFnError::Failed(error))),
            ) => self.in_state(PackState::ReportEnd(PackEnd::Failed(error))),
            (PackState::ReportFetched, PackReply::Ready) => self.at_file(self.index + 1),
            (PackState::ReportEnd(end), PackReply::Ready) => self.in_state(
                PackState::Finished(end),
            ),
            _ => self,
        }
    }

    /// Begins the download of a pack, and forgets an earlier cancellation.
    pub fn start(pack: OptionalPack, cancel: &mut PackCancel) -> (download: PackDownload)
        requires
            total_size(pack.files@) <= u64::MAX,
        ensures
            download.wf(),
            download.pack == pack,
            download.total_bytes == total_size(pack.files@),
            download.index == 0,
            download.state == PackState::ReportStart,
            !final(cancel).requested,
    {
        reset_pack_cancel(cancel);
        let total_bytes: u64 = match total_bytes(&pack.files) {
            Some(total) => total,
            None => 0,
        };
        PackDownload { pack, total_bytes, index: 0, state: PackState::ReportStart }
    }

    /// The report of a number of bytes of the current file.
    pub fn file_progress(&self, downloaded: u64, total: u64, bytes_per_sec: u64) -> (progress:
        PackProgress)
        requires
            self.index < self.pack.files@.len(),
        ensures
            progress == self.progress(downloaded, total, bytes_per_sec),
    {
        PackProgress::File {
            id: self.pack.id.clone(),
            file_index: self.index,
            file_count: self.pack.files.len(),
            file_name: self.pack.files[self.index].name.clone(),
            downloaded,
            total,
            bytes_per_sec,
        }
    }

    /// The operation to perform next.
    pub fn action(&self) -> (action: PackAction)
        requires
            self.wf(),
        ensures
            action == self.next_action(),
    {
        match &self.state {
            PackState::ReportStart => PackAction::Report(
                PackProgress::Started { id: self.pack.id.clone(), total_bytes: self.total_bytes },
            ),
            PackState::LookForCancel => PackAction::LookForCancel,
            PackState::Locate => PackAction::Locate(self.pack.files[self.index].name.clone()),
            PackState::ReportCheck => PackAction::Report(
                PackProgress::Verifying {
                    id: self.pack.id.clone(),
                    file_name: self.pack.files[self.index].name.clone(),
                },
            ),
            PackState::CheckInstalled => PackAction::CheckInstalled,
            PackState::ReportInstalled => {
                let size = self.pack.files[self.index].size;
                PackAction::Report(self.file_progress(size, size, 0))
            },
            PackState::LookForCancelAgain => PackAction::LookForCancel,
            PackState::Fetch => PackAction::Fetch,
            PackState::ReportFetched => PackAction::Report(
                PackProgress::Verifying {
                    id: self.pack.id.clone(),
                    file_name: self.pack.files[self.index].name.clone(),
                },
            ),
            PackState::ReportEnd(PackEnd::Complete) => PackAction::Report(
                PackProgress::Complete { id: self.pack.id.clone() },
            ),
            PackState::ReportEnd(PackEnd::Cancelled) => PackAction::Report(
                PackProgress::Cancelled { id: self.pack.id.clone() },
            ),
            PackState::ReportEnd(PackEnd::Failed(error)) => PackAction::Report(
                PackProgress::Failed { id: self.pack.id.clone(), error: error.clone() },
            ),
            PackState::ReportEnd(PackEnd::NoDestination(error)) => PackAction::Finish(
                PackEnd::NoDestination(error.clone()),
            ),
            PackState::Finished(end) => PackAction::Finish(copy_end(end)),
        }
    }

    /// The download at a file's place, or past the last file.
    fn to_file(self, index: usize) -> (next: PackDownload)
        ensures
            next == self.at_file(index as int),
    {
        let state = if index < self.pack.files.len() {
            PackState::LookForCancel
        } else {
            PackState::ReportEnd(PackEnd::Complete)
        };
        PackDownload { pack: self.pack, total_bytes: self.total_bytes, index, state }
    }

    /// Takes in what came of the operation.
    pub fn advance(self, reply: &PackReply) -> (next: PackDownload)
        requires
            self.wf(),
        ensures
            next == self.next(*reply),
            next.wf(),
    {
        let PackDownload { pack, total_bytes, index, state } = self;
        let file_count = pack.files.len();
        assert(index <= file_count);
        let state = match (state, reply) {
            (PackState::ReportStart, PackReply::Ready) => {
                let here = PackDownload { pack, total_bytes, index, state: PackState::ReportStart };
                return here.to_file(0);
            },
            (PackState::LookForCancel, PackReply::Cancelled(cancelled)) => {
                if *cancelled {
                    PackState::ReportEnd(PackEnd::Cancelled)
                } else {
                    PackState::Locate
                }
            },
            (PackState::Locate, PackReply::Located) => PackState::ReportCheck,
            (PackState::Locate, PackReply::NotLocated(error)) => {
                PackState::Finished(PackEnd::NoDestination(error.clone()))
            },
            (PackState::ReportCheck, PackReply::Ready) => PackState::CheckInstalled,
            (PackState::CheckInstalled, PackReply::Installed(installed)) => {
                if *installed {
                    PackState::ReportInstalled
                } else {
                    PackState::LookForCancelAgain
                }
            },
            (PackState::ReportInstalled, PackReply::Ready) => {
                let here = PackDownload {
                    pack,
                    total_bytes,
                    index,
                    state: PackState::ReportInstalled,
                };
                return here.to_file(index + 1);
            },
            (PackState::LookForCancelAgain, PackReply::Cancelled(cancelled)) => {
                if *cancelled {
                    PackState::ReportEnd(PackEnd::Cancelled)
                } else {
                    PackState::Fetch
                }
            },
            (PackState::Fetch, PackReply::Fetched(Ok(_))) => PackState::ReportFetched,
            (PackState::Fetch, PackReply::Fetched(Err(InterruptibleFnError::Interrupted))) => {
                PackState::ReportEnd(PackEnd::Cancelled)
            },
            (PackState::Fetch, PackReply::Fetched(Err(InterruptibleFnError::Failed(error)))) => {
                PackState::ReportEnd(PackEnd::Failed(error.clone()))
            },
            (PackState::ReportFetched, PackReply::Ready) => {
                let here = PackDownload {
                    pack,
                    total_bytes,
                    index,
                    state: PackState::ReportFetched,
                };
                return here.to_file(index + 1);
            },
            (PackState::ReportEnd(end), PackReply::Ready) => PackState::Finished(end),
            (state, _) => state,
        };
        PackDownload { pack, total_bytes, index, state }
    }
}

/// Copies how a download ended.
fn copy_end(end: &PackEnd) -> (copy: PackEnd)
    ensures
        copy == *end,
{
    match end {
        PackEnd::Complete => PackEnd::Complete,
        PackEnd::Cancelled => PackEnd::Cancelled,
        PackEnd::Failed(error) => PackEnd::Failed(error.clone()),
        PackEnd::NoDestination(error) => PackEnd::NoDestination(error.clone()),
    }
}

/// The error of a download that did not complete; `None` for one that did.
pub fn pack_error(end: &PackEnd) -> (error: Option<String>)
    ensures
        error is None == (*end is Complete),
        error matches Some(error) ==> error@ == match *end {
            PackEnd::Complete => ""@,
            PackEnd::Cancelled => "pack download cancelled"@,
            PackEnd::Failed(message) => message@,
            PackEnd::NoDestination(message) => message@,
        },
{
    match end {
        PackEnd::Complete => None,
        PackEnd::Cancelled => Some("pack download cancelled".to_owned()),
        PackEnd::Failed(message) => Some(message.clone()),
        PackEnd::NoDestination(message) => Some(message.clone()),
    }
}

} // verus!
