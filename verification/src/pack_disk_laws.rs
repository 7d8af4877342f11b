//! What downloads of a pack leave on disk, over all files of the pack. Partial
//! files have names of their own and are left out.
use crate::config::{OptionalPack, OptionalPackFile};
use crate::file_download::{fetch_outcome, FetchReply, FetchState, FileDownload};
use crate::file_download_laws::{
    fetch_run, has_digest, law_only_checked_files_are_promoted, FilePair,
};
use crate::pack_download::{
    PackAction, PackDownload, PackEnd, PackProgress, PackReply, PackState,
};
use crate::pack_download_laws::{pack_run, reports};
use vstd::prelude::*;

verus! {

/// The launcher's directory: the content of each file under its final name.
pub type Folder = Map<Seq<char>, Seq<u8>>;

/// A file's download from its beginning on.
pub struct FetchTrace {
    pub downloads: Seq<FileDownload<Seq<char>>>,
    pub files: Seq<FilePair>,
    pub replies: Seq<FetchReply<Seq<char>>>,
}

/// A pack's download from its beginning on, with the downloads behind its
/// replies.
pub struct PackTrace {
    pub downloads: Seq<PackDownload>,
    pub folders: Seq<Folder>,
    pub replies: Seq<PackReply>,
    pub fetches: Seq<FetchTrace>,
}

/// Whether a file is there with its digest.
pub open spec fn has_file(folder: Folder, file: OptionalPackFile) -> bool {
    folder.contains_key(file.name@) && has_digest(folder[file.name@], file.sha256@)
}

/// Whether a file is there with its size and its digest: it need not be
/// downloaded.
pub open spec fn is_installed(folder: Folder, file: OptionalPackFile) -> bool {
    has_file(folder, file) && folder[file.name@].len() == file.size
}

/// The content under a name.
pub open spec fn content_of(folder: Folder, name: Seq<char>) -> Option<Seq<u8>> {
    if folder.contains_key(name) {
        Some(folder[name])
    } else {
        None
    }
}

/// The folder with a content under a name, or without one.
pub open spec fn with_content(folder: Folder, name: Seq<char>, content: Option<Seq<u8>>) -> Folder {
    match content {
        Some(content) => folder.insert(name, content),
        None => folder.remove(name),
    }
}

/// Whether no two files of a pack share a name.
pub open spec fn names_differ(pack: OptionalPack) -> bool {
    forall|j: int, k: int|
        0 <= j < k < pack.files@.len() ==> (#[trigger] pack.files@[j]).name@ != (
        #[trigger] pack.files@[k]).name@
}

/// Whether a download of a file in a folder ended as the reply says and left
/// another folder.
pub open spec fn fetch_in(
    folder: Folder,
    file: OptionalPackFile,
    trace: FetchTrace,
    reply: PackReply,
    after: Folder,
) -> bool {
    &&& fetch_run(trace.downloads, trace.files, trace.replies)
    &&& trace.downloads[0].name == file.name@
    &&& trace.downloads[0].sha256 == file.sha256@
    &&& trace.files[0].dest == content_of(folder, file.name@)
    &&& reply matches PackReply::Fetched(result) && trace.downloads.last().state
        == FetchState::Finished(fetch_outcome(result))
    &&& after == with_content(folder, file.name@, trace.files.last().dest)
}

/// Whether a run is a pack's download in a folder: a file is reported installed
/// only where it is, and only a file's download changes the folder.
pub open spec fn pack_trace(trace: PackTrace) -> bool {
    &&& pack_run(trace.downloads, trace.replies)
    &&& trace.folders.len() == trace.downloads.len()
    &&& trace.fetches.len() == trace.replies.len()
    &&& forall|i: int|
        #![trigger trace.replies[i]]
        0 <= i < trace.replies.len() ==> match trace.downloads[i].next_action() {
            PackAction::CheckInstalled => {
                &&& trace.folders[i + 1] == trace.folders[i]
                &&& trace.replies[i] == PackReply::Installed(true) ==> is_installed(
                    trace.folders[i],
                    trace.downloads[i].file(),
                )
            },
            PackAction::Fetch => fetch_in(
                trace.folders[i],
                trace.downloads[i].file(),
                trace.fetches[i],
                trace.replies[i],
                trace.folders[i + 1],
            ),
            _ => trace.folders[i + 1] == trace.folders[i],
        }
}

/// Whether a file is one that a pack's download has not put in place: it comes
/// after the current one, or is the current one and was not downloaded.
pub open spec fn is_pending(download: PackDownload, k: int) -> bool {
    &&& download.index <= k < download.pack.files@.len()
    &&& k == download.index ==> !(download.state is ReportFetched)
}

spec fn run_invariant(
    first: PackDownload,
    start: Folder,
    download: PackDownload,
    folder: Folder,
) -> bool {
    let files = first.pack.files@;
    &&& download.pack == first.pack
    &&& download.wf()
    &&& forall|k: int| 0 <= k < download.index ==> has_file(folder, #[trigger] files[k])
    &&& forall|k: int|
        is_pending(download, k) ==> content_of(folder, (#[trigger] files[k]).name@) == content_of(
            start,
            files[k].name@,
        )
    &&& forall|name: Seq<char>|
        (forall|k: int| 0 <= k < files.len() ==> (#[trigger] files[k]).name@ != name)
            ==> #[trigger] content_of(folder, name) == content_of(start, name)
    &&& match download.state {
        PackState::ReportInstalled => has_file(folder, download.file()),
        PackState::ReportFetched => has_file(folder, download.file()),
        PackState::ReportEnd(end) => end is Complete ==> download.index == files.len(),
        PackState::Finished(end) => end is Complete ==> download.index == files.len(),
        _ => true,
    }
}

proof fn lemma_fetch(
    folder: Folder,
    file: OptionalPackFile,
    trace: FetchTrace,
    reply: PackReply,
    after: Folder,
)
    requires
        fetch_in(folder, file, trace, reply, after),
    ensures
        reply matches PackReply::Fetched(Ok(_)) ==> has_file(after, file),
        reply matches PackReply::Fetched(Err(_)) ==> after == folder,
        forall|name: Seq<char>|
            name != file.name@ ==> #[trigger] content_of(after, name) == content_of(folder, name),
{
    law_only_checked_files_are_promoted(
        trace.downloads,
        trace.files,
        trace.replies,
        trace.replies.len() as int,
    );
    if reply matches PackReply::Fetched(Err(_)) {
        assert(after =~= folder);
    }
}

proof fn lemma_trace(trace: PackTrace, i: int)
    requires
        pack_trace(trace),
        names_differ(trace.downloads[0].pack),
        0 <= i <= trace.replies.len(),
    ensures
        run_invariant(
            trace.downloads[0],
            trace.folders[0],
            trace.downloads[i],
            trace.folders[i],
        ),
    decreases i,
{
    if i > 0 {
        lemma_trace(trace, i - 1);
        let before = trace.downloads[i - 1];
        let reply = trace.replies[i - 1];
        let files = before.pack.files@;
        assert(before.pack.files.len() == files.len());
        assert(trace.downloads[i] == before.next(reply));
        if before.next_action() is Fetch {
            let folder = trace.folders[i - 1];
            let after = trace.folders[i];
            lemma_fetch(folder, before.file(), trace.fetches[i - 1], reply, after);
            assert forall|k: int| 0 <= k < before.index implies has_file(
                after,
                #[trigger] files[k],
            ) by {
                let name = files[k].name@;
                assert(name != files[before.index as int].name@);
                assert(content_of(after, name) == content_of(folder, name));
            }
            assert forall|k: int| is_pending(trace.downloads[i], k) implies content_of(
                after,
                (#[trigger] files[k]).name@,
            ) == content_of(trace.folders[0], files[k].name@) by {
                assert(is_pending(before, k));
                if k > before.index {
                    assert(files[before.index as int].name@ != files[k].name@);
                }
            }
            assert forall|name: Seq<char>|
                (forall|k: int| 0 <= k < files.len() ==> (#[trigger] files[k]).name@
                    != name) implies #[trigger] content_of(after, name) == content_of(
                trace.folders[0],
                name,
            ) by {
                assert(files[before.index as int].name@ != name);
                assert(content_of(after, name) == content_of(folder, name));
            }
        }
    }
}

/// At every point of a pack's download, whatever fails later, each file that it
/// is done with is there with its digest; each file that comes later, and the
/// current one until it was downloaded, is as it was before; and no file that is
/// not the pack's was touched. A download that completed is done with all files
/// of the pack.
pub proof fn law_complete_pack_is_on_disk(trace: PackTrace, i: int)
    requires
        pack_trace(trace),
        names_differ(trace.downloads[0].pack),
        0 <= i <= trace.replies.len(),
    ensures
        ({
            let files = trace.downloads[0].pack.files@;
            &&& forall|k: int|
                0 <= k < trace.downloads[i].index ==> has_file(
                    trace.folders[i],
                    #[trigger] files[k],
                )
            &&& forall|k: int|
                is_pending(trace.downloads[i], k) ==> content_of(
                    trace.folders[i],
                    (#[trigger] files[k]).name@,
                ) == content_of(trace.folders[0], files[k].name@)
            &&& trace.downloads[i].state == PackState::Finished(PackEnd::Complete) ==> forall|k: int|
                0 <= k < files.len() ==> has_file(trace.folders[i], #[trigger] files[k])
            &&& forall|name: Seq<char>|
                (forall|k: int| 0 <= k < files.len() ==> (#[trigger] files[k]).name@ != name)
                    ==> #[trigger] content_of(trace.folders[i], name) == content_of(
                    trace.folders[0],
                    name,
                )
        }),
{
    lemma_trace(trace, i);
}

/// Whether nothing is cancelled in a run, every place is found, and every file
/// is reported installed exactly where it is.
pub open spec fn undisturbed_trace(trace: PackTrace) -> bool {
    forall|i: int|
        #![trigger trace.replies[i]]
        0 <= i < trace.replies.len() ==> {
            &&& trace.replies[i] != PackReply::Cancelled(true)
            &&& !(trace.replies[i] is NotLocated)
            &&& trace.replies[i] matches PackReply::Installed(installed) ==> installed
                == is_installed(trace.folders[i], trace.downloads[i].file())
        }
}

/// The reports that a file which need not be downloaded leads to.
pub open spec fn installed_reports(pack: OptionalPack, k: int) -> Seq<PackProgress> {
    let file = pack.files@[k];
    seq![
        PackProgress::Verifying { id: pack.id, file_name: file.name },
        PackProgress::File {
            id: pack.id,
            file_index: k as usize,
            file_count: pack.files@.len() as usize,
            file_name: file.name,
            downloaded: file.size,
            total: file.size,
            bytes_per_sec: 0,
        },
    ]
}

/// The reports of a pack's download after its first `k` files, none of which
/// need be downloaded.
pub open spec fn reports_after(pack: OptionalPack, total_bytes: u64, k: nat) -> Seq<PackProgress>
    decreases k,
{
    if k == 0 {
        seq![PackProgress::Started { id: pack.id, total_bytes }]
    } else {
        reports_after(pack, total_bytes, (k - 1) as nat) + installed_reports(pack, k - 1)
    }
}

/// The reports of a download of a pack that is installed.
pub open spec fn idle_reports(pack: OptionalPack, total_bytes: u64) -> Seq<PackProgress> {
    reports_after(pack, total_bytes, pack.files@.len()).push(PackProgress::Complete { id: pack.id })
}

/// The state after a number of operations, where no file need be downloaded.
spec fn idle_state(files: nat, i: int) -> PackState {
    if i == 0 {
        PackState::ReportStart
    } else if i <= 5 * files {
        let r = (i - 1) % 5;
        if r == 0 {
            PackState::LookForCancel
        } else if r == 1 {
            PackState::Locate
        } else if r == 2 {
            PackState::ReportCheck
        } else if r == 3 {
            PackState::CheckInstalled
        } else {
            PackState::ReportInstalled
        }
    } else if i == 5 * files + 1 {
        PackState::ReportEnd(PackEnd::Complete)
    } else {
        PackState::Finished(PackEnd::Complete)
    }
}

/// The current file's place after a number of operations.
spec fn idle_index(files: nat, i: int) -> int {
    if i == 0 {
        0
    } else if i <= 5 * files {
        (i - 1) / 5
    } else {
        files as int
    }
}

/// The reports made up to then.
spec fn idle_made(pack: OptionalPack, total_bytes: u64, i: int) -> Seq<PackProgress> {
    let files = pack.files@.len();
    if i == 0 {
        reports_after(pack, total_bytes, 0)
    } else if i <= 5 * files {
        let k = (i - 1) / 5;
        let r = (i - 1) % 5;
        if r < 2 {
            reports_after(pack, total_bytes, k as nat)
        } else if r < 4 {
            reports_after(pack, total_bytes, k as nat).push(installed_reports(pack, k)[0])
        } else {
            reports_after(pack, total_bytes, (k + 1) as nat)
        }
    } else {
        idle_reports(pack, total_bytes)
    }
}

proof fn lemma_idle(trace: PackTrace, i: int)
    requires
        pack_trace(trace),
        undisturbed_trace(trace),
        forall|k: int|
            0 <= k < trace.downloads[0].pack.files@.len() ==> is_installed(
                trace.folders[0],
                #[trigger] trace.downloads[0].pack.files@[k],
            ),
        0 <= i <= trace.replies.len(),
    ensures
        ({
            let first = trace.downloads[0];
            let files = first.pack.files@.len();
            &&& i <= 5 * files + 2
            &&& trace.downloads[i] == (PackDownload {
                index: idle_index(files, i) as usize,
                state: idle_state(files, i),
                ..first
            })
            &&& trace.folders[i] == trace.folders[0]
            &&& reports(trace.downloads.take(i + 1)) == idle_made(first.pack, first.total_bytes, i)
        }),
    decreases i,
{
    let first = trace.downloads[0];
    let files = first.pack.files@.len();
    assert(first.pack.files.len() == files);
    assert(trace.downloads.take(i + 1).drop_last() =~= trace.downloads.take(i));
    assert(trace.downloads.take(i + 1).last() == trace.downloads[i]);
    if i == 0 {
        assert(trace.downloads.take(0) =~= Seq::empty());
        assert(reports(trace.downloads.take(0)) =~= seq![]);
    } else {
        lemma_idle(trace, i - 1);
        let before = trace.downloads[i - 1];
        let reply = trace.replies[i - 1];
        assert(trace.downloads[i] == before.next(reply));
        if 1 < i <= 5 * files + 1 {
            let k = (i - 2) / 5;
            let r = (i - 2) % 5;
            assert(0 <= k < files);
            assert(before.file() == first.pack.files@[k]);
            assert(is_installed(trace.folders[0], first.pack.files@[k]));
            let made = reports_after(first.pack, first.total_bytes, k as nat);
            let both = installed_reports(first.pack, k);
            assert(made + both =~= made.push(both[0]).push(both[1]));
        }
        assert(reports(trace.downloads.take(i + 1)) =~= idle_made(
            first.pack,
            first.total_bytes,
            i,
        ));
    }
}

/// A second download of a pack that was downloaded fetches nothing: where its
/// files were left as they are, and have their configured sizes, and nothing is
/// cancelled, it changes no file and is over after a look at each file, as a
/// download that completed, with the reports of installed files.
pub proof fn law_second_download_fetches_nothing(first: PackTrace, second: PackTrace, i: int)
    requires
        pack_trace(first),
        names_differ(first.downloads[0].pack),
        first.downloads.last().state == PackState::Finished(PackEnd::Complete),
        forall|k: int|
            0 <= k < first.downloads[0].pack.files@.len() ==> first.folders.last()[(
            #[trigger] first.downloads[0].pack.files@[k]).name@].len()
                == first.downloads[0].pack.files@[k].size,
        pack_trace(second),
        second.downloads[0].pack == first.downloads[0].pack,
        second.folders[0] == first.folders.last(),
        undisturbed_trace(second),
        0 <= i <= second.replies.len(),
    ensures
        !(second.downloads[i].next_action() is Fetch),
        second.folders[i] == second.folders[0],
        second.replies.len() <= 5 * first.downloads[0].pack.files@.len() + 2,
        second.downloads[i].state is Finished <==> i == 5 * first.downloads[0].pack.files@.len()
            + 2,
        second.downloads[i].state is Finished ==> {
            &&& second.downloads[i].state == PackState::Finished(PackEnd::Complete)
            &&& reports(second.downloads.take(i + 1)) == idle_reports(
                first.downloads[0].pack,
                first.downloads[0].total_bytes,
            )
        },
{
    lemma_trace(first, 0);
    lemma_trace(first, first.replies.len() as int);
    lemma_idle(second, i);
    lemma_idle(second, second.replies.len() as int);
}

} // verus!
