//! Downloads of packs with a server and a disk in memory.
use rpatchur::cancel::{request_pack_cancel, PackCancel};
use rpatchur::config::{OptionalPack, OptionalPackFile};
use rpatchur::digest::FileHasher;
use rpatchur::file_download::{already_installed, FetchAction, FetchReply, FileDownload};
use rpatchur::pack_download::{PackAction, PackDownload, PackEnd, PackProgress, PackReply};
use rpatchur::part_stream::{
    InterruptibleFnError, PartStream, StreamAction, StreamOutcome, StreamReply,
};
use std::collections::BTreeMap;

fn sha256(content: &[u8]) -> String {
    let mut hasher = FileHasher::new();
    hasher.absorb(content, content.len());
    hasher.finish()
}

fn file(name: &str, content: &[u8]) -> OptionalPackFile {
    OptionalPackFile {
        name: name.to_string(),
        url: format!("http://host/{}", name),
        size: content.len() as u64,
        sha256: sha256(content).to_uppercase(),
    }
}

struct World {
    remote: BTreeMap<String, Vec<u8>>,
    disk: BTreeMap<String, Vec<u8>>,
    parts: BTreeMap<String, Vec<u8>>,
    cancel: PackCancel,
    /// The user cancels when so many chunks have arrived.
    cancel_after: Option<u32>,
    /// A connection breaks after so many chunks.
    breaks_after: u32,
    chunks: u32,
    ranges: Vec<Option<String>>,
}

impl World {
    fn new(remote: &[(&str, &[u8])]) -> World {
        World {
            remote: remote
                .iter()
                .map(|(name, content)| (format!("http://host/{}", name), content.to_vec()))
                .collect(),
            disk: BTreeMap::new(),
            parts: BTreeMap::new(),
            cancel: PackCancel { requested: false },
            cancel_after: None,
            breaks_after: u32::MAX,
            chunks: 0,
            ranges: Vec::new(),
        }
    }

    fn stream(&mut self, file: &OptionalPackFile) -> StreamOutcome<String> {
        let name = file.name.clone();
        let part_size = self.parts.get(&name).map(|part| part.len() as u64);
        let mut stream = PartStream::start(&file.url, file.size, part_size);
        let mut body: Vec<u8> = Vec::new();
        let mut chunk: Vec<u8> = Vec::new();
        let mut arrived = 0;
        loop {
            let reply = match stream.action() {
                StreamAction::BuildClient => StreamReply::Ready,
                StreamAction::Request { url, range } => {
                    self.ranges.push(range.clone());
                    let content = &self.remote[&url];
                    let from = match range {
                        Some(_) => self.parts[&name].len(),
                        None => 0,
                    };
                    if from >= content.len() {
                        StreamReply::Refused { status: 416, error: "416".to_string() }
                    } else {
                        body = content[from..].to_vec();
                        StreamReply::Response {
                            status: if from > 0 { 206 } else { 200 },
                            content_length: Some(body.len() as u64),
                        }
                    }
                }
                StreamAction::RemovePart => {
                    self.parts.remove(&name);
                    StreamReply::Ready
                }
                StreamAction::OpenPart { append } => {
                    if !append {
                        self.parts.insert(name.clone(), Vec::new());
                    }
                    StreamReply::Ready
                }
                StreamAction::Report { .. } => StreamReply::Ready,
                StreamAction::NextChunk => {
                    if self.cancel_after == Some(self.chunks) {
                        request_pack_cancel(&mut self.cancel);
                    }
                    if body.is_empty() {
                        StreamReply::Ended
                    } else if arrived == self.breaks_after {
                        StreamReply::Lost {
                            error: "reset".to_string(),
                            cancelled: self.cancel.requested,
                        }
                    } else {
                        arrived += 1;
                        self.chunks += 1;
                        let n = body.len().min(2);
                        chunk = body.drain(..n).collect();
                        StreamReply::Chunk { len: n as u64, cancelled: self.cancel.requested }
                    }
                }
                StreamAction::WriteChunk => {
                    self.parts.get_mut(&name).unwrap().extend(&chunk);
                    StreamReply::Written { since_report_ms: 0 }
                }
                StreamAction::Flush => StreamReply::Ready,
                StreamAction::MeasurePart => StreamReply::Measured(self.parts[&name].len() as u64),
                StreamAction::Finish(outcome) => return outcome,
            };
            assert!(stream.fits(&reply));
            stream = stream.advance(&reply);
        }
    }

    fn fetch(&mut self, file: &OptionalPackFile) -> Result<(), InterruptibleFnError<String>> {
        let mut download = FileDownload::start(file);
        loop {
            let reply = match download.action() {
                FetchAction::LookForCancel => FetchReply::Cancelled(self.cancel.requested),
                FetchAction::Stream => FetchReply::Streamed(self.stream(file)),
                FetchAction::BeginPause(_) => FetchReply::Ready,
                FetchAction::PollPause => {
                    FetchReply::Paused { over: true, cancelled: self.cancel.requested }
                }
                FetchAction::Sleep(_) => FetchReply::Ready,
                FetchAction::DigestPart => FetchReply::Digested(sha256(&self.parts[&file.name])),
                FetchAction::RemovePart => {
                    self.parts.remove(&file.name);
                    FetchReply::Ready
                }
                FetchAction::Promote => {
                    let part = self.parts.remove(&file.name).unwrap();
                    self.disk.insert(file.name.clone(), part);
                    FetchReply::Ready
                }
                FetchAction::Finish(result) => return result,
            };
            download = download.advance(&reply);
        }
    }

    /// Downloads a pack; the answer is the short form of each report, how many
    /// files were fetched, and the end.
    fn download(&mut self, files: Vec<OptionalPackFile>) -> (Vec<&'static str>, u32, PackEnd) {
        let pack = OptionalPack { id: "hd".to_string(), files };
        let mut download = PackDownload::start(pack, &mut self.cancel);
        let mut reports = Vec::new();
        let mut fetches = 0;
        loop {
            let reply = match download.action() {
                PackAction::Report(progress) => {
                    reports.push(match progress {
                        PackProgress::Started { .. } => "started",
                        PackProgress::File { downloaded, total, bytes_per_sec, .. } => {
                            assert_eq!((downloaded, bytes_per_sec), (total, 0));
                            "file"
                        }
                        PackProgress::Verifying { .. } => "verifying",
                        PackProgress::Complete { .. } => "complete",
                        PackProgress::Cancelled { .. } => "cancelled",
                        PackProgress::Failed { .. } => "failed",
                    });
                    PackReply::Ready
                }
                PackAction::LookForCancel => PackReply::Cancelled(self.cancel.requested),
                PackAction::Locate(_) => PackReply::Located,
                PackAction::CheckInstalled => {
                    let file = &download.pack.files[download.index];
                    let content = self.disk.get(&file.name);
                    let digest = content.map(|content| sha256(content));
                    PackReply::Installed(already_installed(
                        content.map(|content| content.len() as u64),
                        file.size,
                        digest.as_deref(),
                        &file.sha256,
                    ))
                }
                PackAction::Fetch => {
                    fetches += 1;
                    PackReply::Fetched(self.fetch(&download.pack.files[download.index]))
                }
                PackAction::Finish(end) => return (reports, fetches, end),
            };
            download = download.advance(&reply);
        }
    }
}

const A: &[u8] = b"0123456789";
const B: &[u8] = b"abcde";

#[test]
fn complete_pack_is_on_disk() {
    let mut world = World::new(&[("a", A), ("b", B)]);
    world.disk.insert("other".to_string(), b"x".to_vec());
    let (_, fetches, end) = world.download(vec![file("a", A), file("b", B)]);
    assert!(matches!(end, PackEnd::Complete));
    assert_eq!(fetches, 2);
    assert_eq!(world.disk["a"], A);
    assert_eq!(world.disk["b"], B);
    assert_eq!(world.disk["other"], b"x");
    assert!(world.parts.is_empty());
}

#[test]
fn second_download_fetches_nothing() {
    let mut world = World::new(&[("a", A), ("b", B)]);
    world.download(vec![file("a", A), file("b", B)]);
    let disk = world.disk.clone();
    world.ranges.clear();
    let (reports, fetches, end) = world.download(vec![file("a", A), file("b", B)]);
    assert!(matches!(end, PackEnd::Complete));
    assert_eq!(fetches, 0);
    assert!(world.ranges.is_empty());
    assert_eq!(world.disk, disk);
    assert_eq!(
        reports,
        vec!["started", "verifying", "file", "verifying", "file", "complete"]
    );
}

#[test]
fn later_failure_keeps_earlier_files() {
    let mut world = World::new(&[("a", A), ("b", b"abcdX")]);
    let (reports, _, end) = world.download(vec![file("a", A), file("b", B)]);
    match end {
        PackEnd::Failed(message) => assert_eq!(
            message,
            format!(
                "checksum mismatch for b: expected {}, got {}",
                sha256(B).to_uppercase(),
                sha256(b"abcdX")
            )
        ),
        _ => panic!("not failed"),
    }
    assert_eq!(reports.last(), Some(&"failed"));
    assert_eq!(world.disk["a"], A);
    assert!(!world.disk.contains_key("b"));
    assert!(world.parts.is_empty());
}

#[test]
fn resumed_download_ends_as_an_uninterrupted_one() {
    let mut world = World::new(&[("a", A)]);
    world.cancel_after = Some(2);
    let (reports, _, end) = world.download(vec![file("a", A)]);
    assert!(matches!(end, PackEnd::Cancelled));
    assert_eq!(reports.last(), Some(&"cancelled"));
    assert_eq!(world.parts["a"], b"0123");
    assert!(world.disk.is_empty());

    world.cancel_after = None;
    world.ranges.clear();
    world.breaks_after = 1;
    let (_, _, end) = world.download(vec![file("a", A)]);
    assert!(matches!(end, PackEnd::Complete));
    assert_eq!(world.ranges[0].as_deref(), Some("bytes=4-"));
    assert_eq!(world.disk["a"], A);
    assert!(world.parts.is_empty());

    let mut uninterrupted = World::new(&[("a", A)]);
    uninterrupted.download(vec![file("a", A)]);
    assert_eq!(world.disk, uninterrupted.disk);
    assert_eq!(world.parts, uninterrupted.parts);
}

#[test]
fn whole_partial_file_is_promoted_without_its_bytes_again() {
    let mut world = World::new(&[("a", A)]);
    world.parts.insert("a".to_string(), A.to_vec());
    let (_, _, end) = world.download(vec![file("a", A)]);
    assert!(matches!(end, PackEnd::Complete));
    assert_eq!(world.ranges, vec![Some("bytes=10-".to_string())]);
    assert_eq!(world.chunks, 0);
    assert_eq!(world.disk["a"], A);
}

#[test]
fn failed_download_keeps_what_was_there() {
    let mut world = World::new(&[("a", A), ("b", b"abcdX")]);
    world.disk.insert("b".to_string(), b"old".to_vec());
    world.disk.insert("c".to_string(), b"older".to_vec());
    let (_, _, end) = world.download(vec![file("a", A), file("b", B), file("c", B)]);
    assert!(matches!(end, PackEnd::Failed(_)));
    assert_eq!(world.disk["a"], A);
    assert_eq!(world.disk["b"], b"old");
    assert_eq!(world.disk["c"], b"older");
}
