use rpatchur::cancel::PackCancel;
use rpatchur::config::{OptionalPack, OptionalPackFile};
use rpatchur::pack_download::{
    pack_error, total_bytes, PackAction, PackDownload, PackEnd, PackProgress, PackReply,
};
use rpatchur::part_stream::InterruptibleFnError;

fn file(name: &str, size: u64) -> OptionalPackFile {
    OptionalPackFile {
        name: name.to_string(),
        url: format!("http://host/{}", name),
        size,
        sha256: "00".to_string(),
    }
}

fn pack(files: Vec<OptionalPackFile>) -> OptionalPack {
    OptionalPack { id: "hd".to_string(), files }
}

fn start(files: Vec<OptionalPackFile>) -> PackDownload {
    let mut cancel = PackCancel { requested: true };
    let download = PackDownload::start(pack(files), &mut cancel);
    assert!(!cancel.requested);
    download
}

fn show(progress: &PackProgress) -> String {
    match progress {
        PackProgress::Started { id, total_bytes } => format!("started {} {}", id, total_bytes),
        PackProgress::File {
            id,
            file_index,
            file_count,
            file_name,
            downloaded,
            total,
            bytes_per_sec,
        } => format!(
            "file {} {}/{} {} {}/{} {}",
            id, file_index, file_count, file_name, downloaded, total, bytes_per_sec
        ),
        PackProgress::Verifying { id, file_name } => format!("verifying {} {}", id, file_name),
        PackProgress::Complete { id } => format!("complete {}", id),
        PackProgress::Cancelled { id } => format!("cancelled {}", id),
        PackProgress::Failed { id, error } => format!("failed {} {}", id, error),
    }
}

/// What happens in a run.
struct Script {
    installed: Vec<&'static str>,
    cancel_before: Option<&'static str>,
    cancel_in_check_of: Option<&'static str>,
    fail: Option<(&'static str, &'static str)>,
    interrupt: Option<&'static str>,
    lost: Option<&'static str>,
}

fn calm() -> Script {
    Script {
        installed: vec![],
        cancel_before: None,
        cancel_in_check_of: None,
        fail: None,
        interrupt: None,
        lost: None,
    }
}

fn run(mut download: PackDownload, script: &Script) -> (Vec<String>, PackEnd) {
    let mut reports = Vec::new();
    let mut current = String::new();
    let mut checked = false;
    loop {
        let name = download
            .pack
            .files
            .get(download.index)
            .map(|f| f.name.clone())
            .unwrap_or_default();
        if name != current {
            current = name.clone();
            checked = false;
        }
        let reply = match download.action() {
            PackAction::Report(progress) => {
                reports.push(show(&progress));
                PackReply::Ready
            }
            PackAction::LookForCancel => PackReply::Cancelled(if checked {
                script.cancel_in_check_of == Some(name.as_str())
            } else {
                script.cancel_before == Some(name.as_str())
            }),
            PackAction::Locate(wanted) => {
                assert_eq!(wanted, name);
                if script.lost == Some(name.as_str()) {
                    PackReply::NotLocated("exe has no parent dir".to_string())
                } else {
                    PackReply::Located
                }
            }
            PackAction::CheckInstalled => {
                checked = true;
                PackReply::Installed(script.installed.contains(&name.as_str()))
            }
            PackAction::Fetch => {
                reports.push(show(&download.file_progress(1, 2, 3)));
                match script.fail {
                    Some((file, error)) if file == name => PackReply::Fetched(Err(
                        InterruptibleFnError::Failed(error.to_string()),
                    )),
                    _ if script.interrupt == Some(name.as_str()) => {
                        PackReply::Fetched(Err(InterruptibleFnError::Interrupted))
                    }
                    _ => PackReply::Fetched(Ok(())),
                }
            }
            PackAction::Finish(end) => return (reports, end),
        };
        download = download.advance(&reply);
    }
}

#[test]
fn sizes_add_up() {
    assert_eq!(total_bytes(&vec![]), Some(0));
    assert_eq!(total_bytes(&vec![file("a", 3), file("b", 4)]), Some(7));
    assert_eq!(total_bytes(&vec![file("a", u64::MAX), file("b", 0)]), Some(u64::MAX));
    assert_eq!(total_bytes(&vec![file("a", u64::MAX), file("b", 1), file("c", 0)]), None);
}

#[test]
fn undisturbed_download_completes() {
    let mut script = calm();
    script.installed = vec!["a"];
    let (reports, end) = run(start(vec![file("a", 3), file("b", 4)]), &script);
    assert_eq!(
        reports,
        vec![
            "started hd 7",
            "verifying hd a",
            "file hd 0/2 a 3/3 0",
            "verifying hd b",
            "file hd 1/2 b 1/2 3",
            "verifying hd b",
            "complete hd",
        ]
    );
    assert!(matches!(end, PackEnd::Complete));
    assert_eq!(pack_error(&end), None);
}

#[test]
fn empty_pack_completes() {
    let (reports, end) = run(start(vec![]), &calm());
    assert_eq!(reports, vec!["started hd 0", "complete hd"]);
    assert!(matches!(end, PackEnd::Complete));
}

#[test]
fn cancellation_before_a_file() {
    let mut script = calm();
    script.cancel_before = Some("b");
    script.installed = vec!["a"];
    let (reports, end) = run(start(vec![file("a", 3), file("b", 4)]), &script);
    assert_eq!(
        reports,
        vec!["started hd 7", "verifying hd a", "file hd 0/2 a 3/3 0", "cancelled hd"]
    );
    assert_eq!(pack_error(&end), Some("pack download cancelled".to_string()));
}

#[test]
fn cancellation_while_a_file_is_checked() {
    let mut script = calm();
    script.cancel_in_check_of = Some("a");
    let (reports, end) = run(start(vec![file("a", 3)]), &script);
    assert_eq!(reports, vec!["started hd 3", "verifying hd a", "cancelled hd"]);
    assert!(matches!(end, PackEnd::Cancelled));
}

#[test]
fn cancellation_while_a_file_is_downloaded() {
    let mut script = calm();
    script.interrupt = Some("a");
    let (reports, end) = run(start(vec![file("a", 3)]), &script);
    assert_eq!(
        reports,
        vec!["started hd 3", "verifying hd a", "file hd 0/1 a 1/2 3", "cancelled hd"]
    );
    assert!(matches!(end, PackEnd::Cancelled));
}

#[test]
fn failed_file_fails_the_pack() {
    let mut script = calm();
    script.fail = Some(("a", "write: full"));
    let (reports, end) = run(start(vec![file("a", 3), file("b", 4)]), &script);
    assert_eq!(reports.last().unwrap(), "failed hd write: full");
    assert_eq!(pack_error(&end), Some("write: full".to_string()));
}

#[test]
fn missing_destination_ends_without_a_last_report() {
    let mut script = calm();
    script.lost = Some("a");
    let (reports, end) = run(start(vec![file("a", 3)]), &script);
    assert_eq!(reports, vec!["started hd 3"]);
    assert_eq!(pack_error(&end), Some("exe has no parent dir".to_string()));
}
