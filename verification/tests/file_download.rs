use rpatchur::config::OptionalPackFile;
use rpatchur::file_download::{
    already_installed, backoff, FetchAction, FetchReply, FileDownload, PAUSE_POLL_MS,
    STREAM_MAX_RETRIES,
};
use rpatchur::part_stream::{InterruptibleFnError, StreamOutcome};

fn file() -> OptionalPackFile {
    OptionalPackFile {
        name: "hd.grf".to_string(),
        url: "http://host/hd.grf".to_string(),
        size: 10,
        sha256: "ABCD".to_string(),
    }
}

fn streaming() -> FileDownload<String> {
    let download = FileDownload::start(&file());
    assert!(matches!(download.action(), FetchAction::LookForCancel));
    let download = download.advance(&FetchReply::Cancelled(false));
    assert!(matches!(download.action(), FetchAction::Stream));
    download
}

fn streamed(outcome: StreamOutcome<String>) -> FetchReply<String> {
    FetchReply::Streamed(outcome)
}

fn transient() -> FetchReply<String> {
    streamed(StreamOutcome::Transient("recv: reset".to_string()))
}

fn failed(download: FileDownload<String>) -> String {
    match download.action() {
        FetchAction::Finish(Err(InterruptibleFnError::Failed(message))) => message,
        _ => panic!("not failed"),
    }
}

fn interrupted(download: FileDownload<String>) -> bool {
    matches!(
        download.action(),
        FetchAction::Finish(Err(InterruptibleFnError::Interrupted))
    )
}

#[test]
fn pauses_double_up_to_sixteen_seconds() {
    let pauses: Vec<u64> = (0..8).map(backoff).collect();
    assert_eq!(pauses, vec![1, 2, 4, 8, 16, 16, 16, 16]);
    assert_eq!(pauses.iter().sum::<u64>(), 79);
    assert_eq!(backoff(u32::MAX), 16);
}

#[test]
fn good_file_is_promoted() {
    let download = streaming().advance(&streamed(StreamOutcome::Done));
    assert!(matches!(download.action(), FetchAction::DigestPart));
    let download = download.advance(&FetchReply::Digested("abcd".to_string()));
    assert!(matches!(download.action(), FetchAction::Promote));
    let download = download.advance(&FetchReply::Ready);
    assert!(matches!(download.action(), FetchAction::Finish(Ok(()))));
}

#[test]
fn wrong_digest_removes_the_part() {
    for removal in [FetchReply::Ready, FetchReply::Failed("busy".to_string())] {
        let download = streaming()
            .advance(&streamed(StreamOutcome::Done))
            .advance(&FetchReply::Digested("ffff".to_string()));
        assert!(matches!(download.action(), FetchAction::RemovePart));
        assert_eq!(
            failed(download.advance(&removal)),
            "checksum mismatch for hd.grf: expected ABCD, got ffff"
        );
    }
}

#[test]
fn unreadable_part_fails() {
    let download = streaming()
        .advance(&streamed(StreamOutcome::Done))
        .advance(&FetchReply::Failed("verification cancelled".to_string()));
    assert_eq!(failed(download), "sha256 verify: verification cancelled");
}

#[test]
fn failed_rename_fails() {
    let download = streaming()
        .advance(&streamed(StreamOutcome::Done))
        .advance(&FetchReply::Digested("abcd".to_string()))
        .advance(&FetchReply::NotPromoted {
            part: "hd.part".to_string(),
            dest: "hd.grf".to_string(),
            error: "busy".to_string(),
        });
    assert_eq!(failed(download), "rename hd.part -> hd.grf: busy");
}

#[test]
fn fatal_outcomes_end_the_download() {
    let error = InterruptibleFnError::Failed("write: full".to_string());
    assert_eq!(
        failed(streaming().advance(&streamed(StreamOutcome::Fatal(error)))),
        "write: full"
    );
    let error = InterruptibleFnError::Interrupted;
    assert!(interrupted(streaming().advance(&streamed(StreamOutcome::Fatal(error)))));
}

#[test]
fn lost_attempts_are_retried_and_bounded() {
    let mut download = FileDownload::start(&file());
    let mut attempts = 0;
    let mut waited = 0;
    let message = loop {
        let reply = match download.action() {
            FetchAction::LookForCancel => FetchReply::Cancelled(false),
            FetchAction::Stream => {
                attempts += 1;
                transient()
            }
            FetchAction::BeginPause(secs) => {
                waited += secs;
                FetchReply::Ready
            }
            FetchAction::PollPause => FetchReply::Paused { over: true, cancelled: true },
            FetchAction::Finish(Err(InterruptibleFnError::Failed(message))) => break message,
            _ => panic!("unexpected operation"),
        };
        download = download.advance(&reply);
    };
    assert_eq!(attempts, STREAM_MAX_RETRIES + 1);
    assert_eq!(waited, 79);
    assert_eq!(message, "hd.grf after 8 retries: recv: reset");
}

#[test]
fn cancellation_is_seen_before_an_attempt_and_in_a_pause() {
    let download = FileDownload::start(&file());
    assert!(interrupted(download.advance(&FetchReply::Cancelled(true))));
    let pausing = streaming().advance(&transient()).advance(&FetchReply::Ready);
    assert!(matches!(pausing.action(), FetchAction::PollPause));
    let sleeping = pausing.advance(&FetchReply::Paused { over: false, cancelled: false });
    assert!(matches!(sleeping.action(), FetchAction::Sleep(PAUSE_POLL_MS)));
    let polling = sleeping.advance(&FetchReply::Ready);
    assert!(interrupted(
        polling.advance(&FetchReply::Paused { over: false, cancelled: true })
    ));
}

#[test]
fn installed_files_are_recognised() {
    assert!(already_installed(Some(10), 10, Some("aBcD"), "AbCd"));
    assert!(!already_installed(Some(9), 10, Some("abcd"), "abcd"));
    assert!(!already_installed(None, 10, Some("abcd"), "abcd"));
    assert!(!already_installed(Some(10), 10, None, "abcd"));
    assert!(!already_installed(Some(10), 10, Some("abce"), "abcd"));
}
