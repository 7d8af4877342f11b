//! What holds of every download of a pack, whatever comes of its operations.
use crate::config::OptionalPackFile;
use crate::pack_download::{
    total_size, PackAction, PackDownload, PackEnd, PackProgress, PackReply, PackState,
};
use crate::part_stream::InterruptibleFnError;
use vstd::prelude::*;

verus! {

/// Whether a reply is one of those that an operation can have.
pub open spec fn pack_answers(action: PackAction, reply: PackReply) -> bool {
    match action {
        PackAction::Report(_) => reply is Ready,
        PackAction::LookForCancel => reply is Cancelled,
        PackAction::Locate(_) => reply is Located || reply is NotLocated,
        PackAction::CheckInstalled => reply is Installed,
        PackAction::Fetch => reply is Fetched,
        PackAction::Finish(_) => false,
    }
}

/// A pack's download from its beginning on: what it went through, and the
/// replies that led from each point to the next.
pub open spec fn pack_run(downloads: Seq<PackDownload>, replies: Seq<PackReply>) -> bool {
    &&& downloads.len() == replies.len() + 1
    &&& downloads[0].wf()
    &&& downloads[0].state == PackState::ReportStart
    &&& forall|i: int|
        #![trigger replies[i]]
        0 <= i < replies.len() ==> {
            &&& pack_answers(downloads[i].next_action(), replies[i])
            &&& downloads[i + 1] == downloads[i].next(replies[i])
        }
}

/// How many files were found installed or were downloaded.
pub open spec fn files_ready(replies: Seq<PackReply>) -> nat
    decreases replies.len(),
{
    if replies.len() == 0 {
        0
    } else {
        files_ready(replies.drop_last()) + match replies.last() {
            PackReply::Installed(true) => 1nat,
            PackReply::Fetched(Ok(_)) => 1nat,
            _ => 0nat,
        }
    }
}

/// The reports made, in order.
pub open spec fn reports(downloads: Seq<PackDownload>) -> Seq<PackProgress>
    decreases downloads.len(),
{
    if downloads.len() == 0 {
        seq![]
    } else {
        match downloads.last().next_action() {
            PackAction::Report(progress) => reports(downloads.drop_last()).push(progress),
            _ => reports(downloads.drop_last()),
        }
    }
}

/// The pack that a report is about.
pub open spec fn report_id(progress: PackProgress) -> String {
    match progress {
        PackProgress::Started { id, total_bytes } => id,
        PackProgress::File {
            id,
            file_index,
            file_count,
            file_name,
            downloaded,
            total,
            bytes_per_sec,
        } => id,
        PackProgress::Verifying { id, file_name } => id,
        PackProgress::Complete { id } => id,
        PackProgress::Cancelled { id } => id,
        PackProgress::Failed { id, error } => id,
    }
}

/// Whether a report says that the download is over.
pub open spec fn is_last_report(progress: PackProgress) -> bool {
    progress is Complete || progress is Cancelled || progress is Failed
}

/// The report that goes with an end, where there is one.
pub open spec fn end_report(id: String, end: PackEnd) -> Option<PackProgress> {
    match end {
        PackEnd::Complete => Some(PackProgress::Complete { id }),
        PackEnd::Cancelled => Some(PackProgress::Cancelled { id }),
        PackEnd::Failed(error) => Some(PackProgress::Failed { id, error }),
        PackEnd::NoDestination(_) => None,
    }
}

/// The files that a point of the download accounts for.
spec fn accounted(download: PackDownload) -> nat {
    download.index as nat + match download.state {
        PackState::ReportInstalled => 1nat,
        PackState::ReportFetched => 1nat,
        _ => 0nat,
    }
}

spec fn run_invariant(
    first: PackDownload,
    download: PackDownload,
    ready: nat,
    made: Seq<PackProgress>,
) -> bool {
    let id = first.pack.id;
    &&& download.pack == first.pack
    &&& download.total_bytes == first.total_bytes
    &&& download.wf()
    &&& ready == accounted(download)
    &&& made.len() > 0
    &&& made[0] == (PackProgress::Started { id, total_bytes: first.total_bytes })
    &&& forall|j: int| 0 <= j < made.len() ==> report_id(#[trigger] made[j]) == id
    &&& forall|j: int| 0 <= j < made.len() - 1 ==> !is_last_report(#[trigger] made[j])
    &&& match download.state {
        PackState::ReportEnd(end) => {
            &&& !(end is NoDestination)
            &&& Some(made.last()) == end_report(id, end)
            &&& end is Complete ==> download.index == first.pack.files@.len()
        },
        PackState::Finished(end) => {
            &&& end is Complete ==> download.index == first.pack.files@.len()
            &&& if end is NoDestination {
                !is_last_report(made.last())
            } else {
                Some(made.last()) == end_report(id, end)
            }
        },
        _ => !is_last_report(made.last()),
    }
}

proof fn lemma_run(downloads: Seq<PackDownload>, replies: Seq<PackReply>, i: int)
    requires
        pack_run(downloads, replies),
        0 <= i <= replies.len(),
    ensures
        run_invariant(
            downloads[0],
            downloads[i],
            files_ready(replies.take(i)),
            reports(downloads.take(i + 1)),
        ),
    decreases i,
{
    assert(downloads.take(i + 1).drop_last() =~= downloads.take(i));
    assert(downloads.take(i + 1).last() == downloads[i]);
    if i == 0 {
        assert(downloads.take(0) =~= Seq::empty());
        assert(replies.take(0) =~= Seq::empty());
        assert(reports(downloads.take(0)) =~= seq![]);
    } else {
        lemma_run(downloads, replies, i - 1);
        let reply = replies[i - 1];
        assert(downloads[i] == downloads[i - 1].next(reply));
        assert(replies.take(i).drop_last() =~= replies.take(i - 1));
        assert(replies.take(i).last() == reply);
        lemma_one_step(
            downloads[0],
            downloads[i - 1],
            reply,
            files_ready(replies.take(i - 1)),
            reports(downloads.take(i)),
        );
    }
}

proof fn lemma_one_step(
    first: PackDownload,
    download: PackDownload,
    reply: PackReply,
    ready: nat,
    made: Seq<PackProgress>,
)
    requires
        run_invariant(first, download, ready, made),
        pack_answers(download.next_action(), reply),
    ensures
        run_invariant(
            first,
            download.next(reply),
            ready + match reply {
                PackReply::Installed(true) => 1nat,
                PackReply::Fetched(Ok(_)) => 1nat,
                _ => 0nat,
            },
            match download.next(reply).next_action() {
                PackAction::Report(progress) => made.push(progress),
                _ => made,
            },
        ),
{
    assert(download.pack.files.len() == download.pack.files@.len());
}

/// The reports of a finished download: the first announces the bytes of all
/// files, every one is about the pack, and the last one alone says how it ended.
/// Where the place for a file could not be found, none says so.
pub proof fn law_reports_tell_how_it_ended(
    downloads: Seq<PackDownload>,
    replies: Seq<PackReply>,
    end: PackEnd,
)
    requires
        pack_run(downloads, replies),
        downloads.last().state == PackState::Finished(end),
    ensures
        ({
            let id = downloads[0].pack.id;
            let made = reports(downloads);
            &&& made.len() > 0
            &&& made[0] == (PackProgress::Started {
                id,
                total_bytes: total_size(downloads[0].pack.files@) as u64,
            })
            &&& forall|j: int| 0 <= j < made.len() ==> report_id(#[trigger] made[j]) == id
            &&& forall|j: int| 0 <= j < made.len() - 1 ==> !is_last_report(#[trigger] made[j])
            &&& end is NoDestination ==> !is_last_report(made.last())
            &&& !(end is NoDestination) ==> Some(made.last()) == end_report(id, end)
        }),
{
    let n = replies.len() as int;
    lemma_run(downloads, replies, n);
    assert(downloads.take(n + 1) =~= downloads);
}

/// A download that is reported as complete has every file of the pack: each was
/// found installed or was downloaded.
pub proof fn law_complete_means_every_file_is_ready(
    downloads: Seq<PackDownload>,
    replies: Seq<PackReply>,
)
    requires
        pack_run(downloads, replies),
        downloads.last().state == PackState::Finished(PackEnd::Complete),
    ensures
        files_ready(replies) == downloads[0].pack.files@.len(),
{
    let n = replies.len() as int;
    lemma_run(downloads, replies, n);
    assert(replies.take(n) =~= replies);
}

/// The files are taken in the order of the pack, each once: the current file's
/// place is the number of files that are ready.
pub proof fn law_files_are_taken_in_order(
    downloads: Seq<PackDownload>,
    replies: Seq<PackReply>,
    i: int,
)
    requires
        pack_run(downloads, replies),
        0 <= i <= replies.len(),
        downloads[i].state is LookForCancel,
    ensures
        downloads[i].index == files_ready(replies.take(i)),
        downloads[i].pack == downloads[0].pack,
{
    lemma_run(downloads, replies, i);
}

/// A cancellation that is seen, before a file or in its download, is reported
/// and ends the download of the pack.
pub proof fn law_cancellation_is_reported(download: PackDownload, reply: PackReply)
    requires
        (download.state is LookForCancel || download.state is LookForCancelAgain) && reply
            == PackReply::Cancelled(true) || download.state is Fetch && reply
            == PackReply::Fetched(Err(InterruptibleFnError::Interrupted)),
    ensures
        download.next(reply).next_action() == PackAction::Report(
            PackProgress::Cancelled { id: download.pack.id },
        ),
        download.next(reply).next(PackReply::Ready).state == PackState::Finished(
            PackEnd::Cancelled,
        ),
{
}

/// No file is downloaded without a look for a cancellation right before, so one
/// that came while the file was checked is not overlooked.
pub proof fn law_fetch_follows_a_look(
    downloads: Seq<PackDownload>,
    replies: Seq<PackReply>,
    i: int,
)
    requires
        pack_run(downloads, replies),
        0 <= i <= replies.len(),
        downloads[i].next_action() is Fetch,
    ensures
        i > 0,
        downloads[i - 1].next_action() is LookForCancel,
        replies[i - 1] == PackReply::Cancelled(false),
{
    lemma_run(downloads, replies, i);
    if i > 0 {
        lemma_run(downloads, replies, i - 1);
        let reply = replies[i - 1];
        assert(downloads[i] == downloads[i - 1].next(reply));
    }
}

/// The download after one file that was found installed, or else downloaded.
pub open spec fn after_file(download: PackDownload, installed: bool) -> PackDownload {
    let checked = download.next(PackReply::Cancelled(false)).next(PackReply::Located).next(
        PackReply::Ready,
    ).next(PackReply::Installed(installed));
    if installed {
        checked.next(PackReply::Ready)
    } else {
        checked.next(PackReply::Cancelled(false)).next(PackReply::Fetched(Ok(()))).next(
            PackReply::Ready,
        )
    }
}

/// The download after a number of such files.
pub open spec fn after_files(download: PackDownload, installed: Seq<bool>) -> PackDownload
    decreases installed.len(),
{
    if installed.len() == 0 {
        download
    } else {
        after_file(after_files(download, installed.drop_last()), installed.last())
    }
}

proof fn lemma_after_files(download: PackDownload, installed: Seq<bool>)
    requires
        download.index == 0,
        installed.len() <= download.pack.files@.len(),
        download == download.at_file(0),
    ensures
        after_files(download, installed) == download.at_file(installed.len() as int),
    decreases installed.len(),
{
    assert(download.pack.files.len() == download.pack.files@.len());
    if installed.len() > 0 {
        lemma_after_files(download, installed.drop_last());
    }
}

/// Success is owed: a download in which nothing is cancelled and no operation
/// fails completes, whichever files were installed before.
pub proof fn law_undisturbed_download_completes(download: PackDownload, installed: Seq<bool>)
    requires
        download.wf(),
        download.state == PackState::ReportStart,
        installed.len() == download.pack.files@.len(),
    ensures
        after_files(download.next(PackReply::Ready), installed).next(PackReply::Ready).state
            == PackState::Finished(PackEnd::Complete),
{
    lemma_after_files(download.next(PackReply::Ready), installed);
}

/// The bytes of a pack are those of its files, added up.
pub proof fn law_sizes_add_up(
    a: Seq<OptionalPackFile>,
    b: Seq<OptionalPackFile>,
    file: OptionalPackFile,
)
    ensures
        total_size(seq![]) == 0,
        total_size(seq![file]) == file.size,
        total_size(a + b) == total_size(a) + total_size(b),
    decreases b.len(),
{
    assert(seq![file].drop_last() =~= seq![]);
    assert(total_size(seq![]) == 0);
    if b.len() == 0 {
        assert(a + b =~= a);
    } else {
        law_sizes_add_up(a, b.drop_last(), file);
        assert((a + b).drop_last() =~= a + b.drop_last());
    }
}

/// A download begins by announcing the pack and its bytes, and then takes the
/// first file; a pack without files is complete at once.
pub proof fn law_download_is_announced(download: PackDownload)
    requires
        download.state == PackState::ReportStart,
    ensures
        ({
            let next = download.next(PackReply::Ready);
            &&& download.next_action() == PackAction::Report(
                PackProgress::Started {
                    id: download.pack.id,
                    total_bytes: download.total_bytes,
                },
            )
            &&& next.index == 0
            &&& download.pack.files@.len() > 0 ==> next.state == PackState::LookForCancel
            &&& download.pack.files@.len() == 0 ==> next.next_action() == PackAction::Report(
                PackProgress::Complete { id: download.pack.id },
            )
        }),
{
}

/// Before a file is taken, a cancellation ends the download. Else its place is
/// found, its check is announced and made. A file that is installed is reported
/// with its whole size, and the next one follows.
pub proof fn law_installed_file_is_passed_over(download: PackDownload, error: String)
    requires
        download.wf(),
        download.state == PackState::LookForCancel,
    ensures
        ({
            let id = download.pack.id;
            let file = download.pack.files@[download.index as int];
            let count = download.pack.files@.len();
            let locating = download.next(PackReply::Cancelled(false));
            let lost = locating.next(PackReply::NotLocated(error));
            let announcing = locating.next(PackReply::Located);
            let checking = announcing.next(PackReply::Ready);
            let installed = checking.next(PackReply::Installed(true));
            let passed = installed.next(PackReply::Ready);
            &&& download.next_action() is LookForCancel
            &&& locating.next_action() == PackAction::Locate(file.name)
            &&& lost.next_action() == PackAction::Finish(PackEnd::NoDestination(error))
            &&& announcing.next_action() == PackAction::Report(
                PackProgress::Verifying { id, file_name: file.name },
            )
            &&& checking.next_action() is CheckInstalled
            &&& installed.next_action() == PackAction::Report(
                PackProgress::File {
                    id,
                    file_index: download.index,
                    file_count: count as usize,
                    file_name: file.name,
                    downloaded: file.size,
                    total: file.size,
                    bytes_per_sec: 0,
                },
            )
            &&& goes_on_to_next(download, passed)
            &&& checking.index == download.index
        }),
{
    assert(download.pack.files.len() == download.pack.files@.len());
}

/// Whether a download has gone on to the file after another one's, or is complete
/// where that was the last.
pub open spec fn goes_on_to_next(download: PackDownload, next: PackDownload) -> bool {
    &&& next.pack == download.pack
    &&& next.total_bytes == download.total_bytes
    &&& next.index == download.index + 1
    &&& next.index < download.pack.files@.len() ==> next.state == PackState::LookForCancel
    &&& next.index == download.pack.files@.len() ==> {
        &&& next.next_action() == PackAction::Report(
            PackProgress::Complete { id: download.pack.id },
        )
        &&& next.next(PackReply::Ready).next_action() == PackAction::Finish(PackEnd::Complete)
    }
}

/// A file that is not installed is downloaded, unless the user cancelled during
/// the check. Its success is announced and the next file follows; a
/// cancellation, or its error, is reported and ends the download of the pack.
pub proof fn law_missing_file_is_downloaded(download: PackDownload, error: String)
    requires
        download.wf(),
        download.state == PackState::CheckInstalled,
    ensures
        ({
            let id = download.pack.id;
            let file = download.pack.files@[download.index as int];
            let looking = download.next(PackReply::Installed(false));
            let cancelled = looking.next(PackReply::Cancelled(true));
            let fetching = looking.next(PackReply::Cancelled(false));
            let fetched = fetching.next(PackReply::Fetched(Ok(())));
            let interrupted = fetching.next(
                PackReply::Fetched(Err(InterruptibleFnError::Interrupted)),
            );
            let failed = fetching.next(
                PackReply::Fetched(Err(InterruptibleFnError::Failed(error))),
            );
            let told = PackAction::Report(PackProgress::Cancelled { id });
            &&& looking.next_action() is LookForCancel
            &&& cancelled.next_action() == told
            &&& cancelled.next(PackReply::Ready).next_action() == PackAction::Finish(
                PackEnd::Cancelled,
            )
            &&& fetching.next_action() is Fetch
            &&& fetching.index == download.index
            &&& fetching.pack == download.pack
            &&& fetched.next_action() == PackAction::Report(
                PackProgress::Verifying { id, file_name: file.name },
            )
            &&& goes_on_to_next(download, fetched.next(PackReply::Ready))
            &&& interrupted.next_action() == told
            &&& interrupted.next(PackReply::Ready).next_action() == PackAction::Finish(
                PackEnd::Cancelled,
            )
            &&& failed.next_action() == PackAction::Report(PackProgress::Failed { id, error })
            &&& failed.next(PackReply::Ready).next_action() == PackAction::Finish(
                PackEnd::Failed(error),
            )
        }),
{
    assert(download.pack.files.len() == download.pack.files@.len());
}

/// A report of progress is about the current file, its place and the number of
/// files, and holds the numbers that were handed in.
pub proof fn law_progress_is_about_the_current_file(
    download: PackDownload,
    downloaded: u64,
    total: u64,
    rate: u64,
)
    ensures
        download.progress(downloaded, total, rate) == (PackProgress::File {
            id: download.pack.id,
            file_index: download.index,
            file_count: download.pack.files@.len() as usize,
            file_name: download.pack.files@[download.index as int].name,
            downloaded,
            total,
            bytes_per_sec: rate,
        }),
{
}

/// A download that has ended stays ended, and a reply that cannot be one to the
/// operation changes nothing.
pub proof fn law_stray_replies_change_no_pack(download: PackDownload, reply: PackReply)
    requires
        !pack_answers(download.next_action(), reply),
        !(download.state matches PackState::ReportEnd(PackEnd::NoDestination(_))),
    ensures
        download.next(reply) == download,
{
}

/// The operations that a point of a pack's download has behind it at most.
spec fn behind(download: PackDownload) -> int {
    let done = 8 * download.index;
    match download.state {
        PackState::ReportStart => 0,
        PackState::LookForCancel => done + 1,
        PackState::Locate => done + 2,
        PackState::ReportCheck => done + 3,
        PackState::CheckInstalled => done + 4,
        PackState::ReportInstalled => done + 5,
        PackState::LookForCancelAgain => done + 5,
        PackState::Fetch => done + 6,
        PackState::ReportFetched => done + 7,
        PackState::ReportEnd(_) => done + 7,
        PackState::Finished(_) => done + 8,
    }
}

proof fn lemma_behind(downloads: Seq<PackDownload>, replies: Seq<PackReply>, i: int)
    requires
        pack_run(downloads, replies),
        0 <= i <= replies.len(),
    ensures
        i <= behind(downloads[i]),
    decreases i,
{
    if i > 0 {
        lemma_behind(downloads, replies, i - 1);
        lemma_run(downloads, replies, i - 1);
        let reply = replies[i - 1];
        assert(downloads[i] == downloads[i - 1].next(reply));
        let pack = downloads[i - 1].pack;
        assert(pack.files.len() == pack.files@.len());
    }
}

/// A pack's download is over after at most eight operations for each file, and
/// eight more.
pub proof fn law_pack_download_comes_to_an_end(downloads: Seq<PackDownload>, replies: Seq<PackReply>)
    requires
        pack_run(downloads, replies),
    ensures
        replies.len() <= 8 * downloads[0].pack.files@.len() + 8,
{
    lemma_behind(downloads, replies, replies.len() as int);
    lemma_run(downloads, replies, replies.len() as int);
}

} // verus!
