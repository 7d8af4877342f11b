use rpatchur::part_stream::{
    InterruptibleFnError, PartStream, StreamAction, StreamOutcome, StreamReply,
};

const URL: &str = "http://host/file";

/// A server and a disk. The server breaks off after `serves` bytes.
struct World {
    remote: Vec<u8>,
    ranges: bool,
    serves: usize,
    part: Option<Vec<u8>>,
}

fn at(stream: &PartStream) -> StreamAction<String> {
    stream.action()
}

fn step(stream: PartStream, reply: StreamReply<String>) -> PartStream {
    assert!(stream.fits(&reply));
    stream.advance(&reply)
}

/// Makes one attempt, and tells the reports it made.
fn attempt(world: &mut World, size: u64) -> (StreamOutcome<String>, Vec<(u64, u64, Option<u64>)>) {
    let part_size = world.part.as_ref().map(|p| p.len() as u64);
    let mut stream = PartStream::start(URL, size, part_size);
    let mut body: Vec<u8> = Vec::new();
    let mut served = 0;
    let mut chunk: Vec<u8> = Vec::new();
    let mut reports = Vec::new();
    loop {
        let reply = match at(&stream) {
            StreamAction::BuildClient => StreamReply::Ready,
            StreamAction::Request { url, range } => {
                assert_eq!(url, URL);
                let from = match range {
                    Some(range) if world.ranges => {
                        let from = world.part.as_ref().unwrap().len();
                        assert_eq!(range, format!("bytes={}-", from));
                        from
                    }
                    _ => 0,
                };
                if from >= world.remote.len() {
                    StreamReply::Refused { status: 416, error: "416".to_string() }
                } else {
                    body = world.remote[from..].to_vec();
                    StreamReply::Response {
                        status: if from > 0 { 206 } else { 200 },
                        content_length: Some(body.len() as u64),
                    }
                }
            }
            StreamAction::RemovePart => {
                world.part = None;
                StreamReply::Ready
            }
            StreamAction::OpenPart { append } => {
                if append {
                    assert!(world.part.is_some());
                } else {
                    world.part = Some(Vec::new());
                }
                StreamReply::Ready
            }
            StreamAction::Report { downloaded, total, received } => {
                assert_eq!(downloaded, world.part.as_ref().unwrap().len() as u64);
                reports.push((downloaded, total, received));
                StreamReply::Ready
            }
            StreamAction::NextChunk => {
                if body.is_empty() {
                    StreamReply::Ended
                } else if served >= world.serves {
                    StreamReply::Lost { error: "reset".to_string(), cancelled: false }
                } else {
                    let n = body.len().min(3);
                    chunk = body.drain(..n).collect();
                    served += n;
                    StreamReply::Chunk { len: n as u64, cancelled: false }
                }
            }
            StreamAction::WriteChunk => {
                world.part.as_mut().unwrap().extend(&chunk);
                StreamReply::Written { since_report_ms: if served % 2 == 0 { 251 } else { 250 } }
            }
            StreamAction::Flush => StreamReply::Ready,
            StreamAction::MeasurePart => {
                StreamReply::Measured(world.part.as_ref().unwrap().len() as u64)
            }
            StreamAction::Finish(outcome) => return (outcome, reports),
        };
        stream = step(stream, reply);
    }
}

fn world(part: Option<&[u8]>, ranges: bool, serves: usize) -> World {
    World {
        remote: b"0123456789".to_vec(),
        ranges,
        serves,
        part: part.map(|p| p.to_vec()),
    }
}

#[test]
fn fetches_a_whole_file() {
    let mut w = world(None, true, 100);
    let (outcome, reports) = attempt(&mut w, 10);
    assert!(matches!(outcome, StreamOutcome::Done));
    assert_eq!(w.part.unwrap(), b"0123456789");
    // The first report is made at once; later ones when enough time has passed.
    assert_eq!(reports, vec![(0, 10, None), (6, 10, Some(6)), (10, 10, Some(10))]);
}

#[test]
fn continues_a_partial_file() {
    let mut w = world(Some(b"0123"), true, 100);
    let (outcome, reports) = attempt(&mut w, 10);
    assert!(matches!(outcome, StreamOutcome::Done));
    assert_eq!(w.part.unwrap(), b"0123456789");
    assert_eq!(reports[0], (4, 10, None));
    assert_eq!(reports[1], (10, 10, Some(6)));
}

#[test]
fn restarts_where_the_server_does_not_continue() {
    let mut w = world(Some(b"0123"), false, 100);
    let (outcome, reports) = attempt(&mut w, 10);
    assert!(matches!(outcome, StreamOutcome::Done));
    assert_eq!(w.part.unwrap(), b"0123456789");
    assert_eq!(reports[0], (0, 10, None));
}

#[test]
fn partial_file_of_full_size_is_confirmed() {
    let mut w = world(Some(b"0123456789"), true, 100);
    let (outcome, reports) = attempt(&mut w, 10);
    assert!(matches!(outcome, StreamOutcome::Done));
    assert_eq!(w.part.unwrap(), b"0123456789");
    assert!(reports.is_empty());
}

#[test]
fn full_size_is_the_offset_too() {
    let stream = step(PartStream::start(URL, 10, Some(10)), StreamReply::Ready);
    match stream.action() {
        StreamAction::Request { range, .. } => assert_eq!(range, Some("bytes=10-".to_string())),
        _ => panic!("no request"),
    }
}

#[test]
fn partial_file_that_is_too_large_is_dropped() {
    let mut w = world(Some(b"xxxxxxxxxxxx"), true, 100);
    match attempt(&mut w, 10).0 {
        StreamOutcome::Transient(message) => assert_eq!(message, "HTTP error: 416"),
        _ => panic!("not transient"),
    }
    assert!(w.part.is_none());
    assert!(matches!(attempt(&mut w, 10).0, StreamOutcome::Done));
    assert_eq!(w.part.unwrap(), b"0123456789");
}

#[test]
fn partial_file_that_is_too_large_is_restarted_without_ranges() {
    let mut w = world(Some(b"xxxxxxxxxxxx"), false, 100);
    assert!(matches!(attempt(&mut w, 10).0, StreamOutcome::Done));
    assert_eq!(w.part.unwrap(), b"0123456789");
}

#[test]
fn long_body_is_removed_and_fails() {
    let mut w = world(None, true, 100);
    match attempt(&mut w, 8).0 {
        StreamOutcome::Fatal(InterruptibleFnError::Failed(message)) => {
            assert_eq!(message, "long body: got 10 of 8 bytes")
        }
        _ => panic!("not fatal"),
    }
    assert!(w.part.is_none());
}

#[test]
fn lost_connection_keeps_the_beginning() {
    let mut w = world(None, true, 4);
    match attempt(&mut w, 10).0 {
        StreamOutcome::Transient(message) => assert_eq!(message, "recv: reset"),
        _ => panic!("not transient"),
    }
    assert_eq!(w.part.as_ref().unwrap(), b"012345");
    w.serves = 100;
    assert!(matches!(attempt(&mut w, 10).0, StreamOutcome::Done));
    assert_eq!(w.part.unwrap(), b"0123456789");
}

#[test]
fn short_body_is_worth_another_attempt() {
    let mut w = world(None, true, 100);
    match attempt(&mut w, 12).0 {
        StreamOutcome::Transient(message) => {
            assert_eq!(message, "short body: got 10 of 12 bytes")
        }
        _ => panic!("not transient"),
    }
}

fn outcome(stream: PartStream) -> StreamOutcome<String> {
    match stream.action() {
        StreamAction::Finish(outcome) => outcome,
        _ => panic!("not finished"),
    }
}

fn fatal(stream: PartStream) -> String {
    match outcome(stream) {
        StreamOutcome::Fatal(InterruptibleFnError::Failed(message)) => message,
        _ => panic!("not fatal"),
    }
}

fn failed(message: &str) -> StreamReply<String> {
    StreamReply::Failed(message.to_string())
}

fn asked() -> PartStream {
    step(PartStream::start(URL, 10, None), StreamReply::Ready)
}

fn opening() -> PartStream {
    step(asked(), StreamReply::Response { status: 200, content_length: None })
}

fn receiving() -> PartStream {
    step(step(opening(), StreamReply::Ready), StreamReply::Ready)
}

#[test]
fn fatal_errors() {
    let start = PartStream::start(URL, 10, None);
    assert_eq!(fatal(step(start, failed("tls"))), "client build: tls");
    assert_eq!(
        fatal(step(
            asked(),
            StreamReply::Refused { status: 404, error: "404".to_string() }
        )),
        "HTTP error: 404"
    );
    let resumed = step(PartStream::start(URL, 10, Some(4)), StreamReply::Ready);
    assert_eq!(
        fatal(step(
            resumed,
            StreamReply::Refused { status: 416, error: "416".to_string() }
        )),
        "HTTP error: 416"
    );
    assert_eq!(
        fatal(step(asked(), StreamReply::Unbuildable("no base".to_string()))),
        "GET http://host/file: no base"
    );
    assert_eq!(fatal(step(opening(), failed("denied"))), "open part: denied");
    let storing = step(receiving(), StreamReply::Chunk { len: 5, cancelled: false });
    assert_eq!(fatal(step(storing, failed("full"))), "write: full");
    let flushing = step(receiving(), StreamReply::Ended);
    assert_eq!(fatal(step(flushing, failed("full"))), "flush: full");
}

#[test]
fn failed_request_is_worth_another_attempt() {
    match outcome(step(asked(), failed("dns"))) {
        StreamOutcome::Transient(message) => assert_eq!(message, "GET http://host/file: dns"),
        _ => panic!("not transient"),
    }
}

#[test]
fn unmeasurable_part_counts_as_done() {
    let measuring = step(step(receiving(), StreamReply::Ended), StreamReply::Ready);
    assert!(matches!(measuring.action(), StreamAction::MeasurePart));
    assert!(matches!(outcome(step(measuring, failed("gone"))), StreamOutcome::Done));
}

#[test]
fn cancellation_is_seen_at_the_next_chunk() {
    let chunk = step(receiving(), StreamReply::Chunk { len: 5, cancelled: true });
    assert!(matches!(
        outcome(chunk),
        StreamOutcome::Fatal(InterruptibleFnError::Interrupted)
    ));
    let lost = StreamReply::Lost { error: "reset".to_string(), cancelled: true };
    assert!(matches!(
        outcome(step(receiving(), lost)),
        StreamOutcome::Fatal(InterruptibleFnError::Interrupted)
    ));
}

#[test]
fn removal_may_fail() {
    let stream = step(PartStream::start(URL, 10, Some(20)), StreamReply::Ready);
    let stream = step(stream, StreamReply::Response { status: 200, content_length: Some(10) });
    assert!(matches!(stream.action(), StreamAction::RemovePart));
    let stream = step(stream, failed("busy"));
    assert!(matches!(stream.action(), StreamAction::OpenPart { append: false }));
}

#[test]
fn sizes_beyond_the_limit_do_not_fit() {
    let stream = step(PartStream::start(URL, 10, Some(4)), StreamReply::Ready);
    let huge = StreamReply::Response { status: 206, content_length: Some(u64::MAX) };
    assert!(!stream.fits(&huge));
    let plain = StreamReply::Response { status: 200, content_length: Some(u64::MAX) };
    assert!(stream.fits(&plain));
    let storing = step(receiving(), StreamReply::Chunk { len: u64::MAX, cancelled: false });
    let storing = step(storing, StreamReply::Written { since_report_ms: 0 });
    let storing = step(storing, StreamReply::Chunk { len: 1, cancelled: false });
    assert!(!storing.fits(&StreamReply::Written { since_report_ms: 0 }));
}

#[test]
fn unknown_length_is_taken_from_the_configuration() {
    let announcing = step(opening(), StreamReply::Ready);
    match announcing.action() {
        StreamAction::Report { downloaded, total, received } => {
            assert_eq!((downloaded, total, received), (0, 10, None))
        }
        _ => panic!("no report"),
    }
}
