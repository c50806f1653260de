use stream_download::download::{Action, Download, Event, Phase};
use stream_download::error::DownloadError;

const URL: &str = "http://mock.test/file.bin";
const PATH: &str = "file.bin";

/// What a stand-in for the network, the disk and the terminal saw of one download.
struct Outcome {
    requested: Vec<String>,
    created: Vec<String>,
    file: Vec<u8>,
    display_total: Option<u64>,
    display_message: Option<String>,
    positions: Vec<u64>,
    result: Result<String, DownloadError>,
    last_position: u64,
    phase: Phase,
}

/// What the stand-in is to deliver.
struct Script {
    request_fails: bool,
    declared: Option<u64>,
    create_fails: bool,
    chunks: Vec<Vec<u8>>,
    stream_fails_at: Option<usize>,
    write_fails_at: Option<usize>,
}

fn script(declared: Option<u64>, chunks: &[&[u8]]) -> Script {
    Script {
        request_fails: false,
        declared,
        create_fails: false,
        chunks: chunks.iter().map(|chunk| chunk.to_vec()).collect(),
        stream_fails_at: None,
        write_fails_at: None,
    }
}

fn next_item(script: &Script, read: usize) -> Event {
    if script.stream_fails_at == Some(read) {
        Event::StreamFailed
    } else if read < script.chunks.len() {
        Event::Chunk { bytes: script.chunks[read].clone() }
    } else {
        Event::StreamEnded
    }
}

fn run(script: &Script) -> Outcome {
    let (mut download, first) = Download::begin(URL, PATH);
    let mut outcome = Outcome {
        requested: Vec::new(),
        created: Vec::new(),
        file: Vec::new(),
        display_total: None,
        display_message: None,
        positions: Vec::new(),
        result: Err(DownloadError::StreamRead),
        last_position: 0,
        phase: Phase::Requesting,
    };
    let mut read: usize = 0;
    let mut written: usize = 0;
    let mut action = first;
    loop {
        let event = match action {
            Action::Request { url } => {
                outcome.requested.push(url);
                if script.request_fails {
                    Event::RequestFailed
                } else {
                    Event::Response { declared_length: script.declared }
                }
            }
            Action::Open { total, message, path } => {
                outcome.display_total = Some(total);
                outcome.display_message = Some(message);
                if script.create_fails {
                    Event::FileCreateFailed
                } else {
                    outcome.created.push(path);
                    outcome.file.clear();
                    Event::FileCreated
                }
            }
            Action::Read => {
                let event = next_item(script, read);
                read += 1;
                event
            }
            Action::Write { bytes } => {
                let failed = script.write_fails_at == Some(written);
                written += 1;
                if failed {
                    Event::WriteFailed
                } else {
                    outcome.file.extend_from_slice(&bytes);
                    Event::Written
                }
            }
            Action::Advance { position } => {
                outcome.positions.push(position);
                let event = next_item(script, read);
                read += 1;
                event
            }
            Action::Finish { message } => {
                outcome.result = Ok(message);
                break;
            }
            Action::Fail { error } => {
                outcome.result = Err(error);
                break;
            }
        };
        action = download.step(event).expect("the event answers the action");
    }
    outcome.last_position = download.position();
    outcome.phase = download.phase();
    outcome
}

#[test]
fn ten_bytes_in_four_chunks() {
    let outcome = run(&script(Some(10), &[b"012", b"345", b"678", b"9"]));
    assert_eq!(outcome.file, b"0123456789".to_vec());
    assert_eq!(outcome.positions, vec![3, 6, 9, 10]);
    assert_eq!(outcome.last_position, 10);
    assert_eq!(outcome.phase, Phase::Finished);
    assert_eq!(
        outcome.result,
        Ok(String::from("Downloaded http://mock.test/file.bin to file.bin"))
    );
    assert_eq!(outcome.requested, vec![String::from(URL)]);
    assert_eq!(outcome.created, vec![String::from(PATH)]);
    assert_eq!(outcome.display_total, Some(10));
    assert_eq!(
        outcome.display_message,
        Some(String::from("Downloading http://mock.test/file.bin"))
    );
}

#[test]
fn one_byte_chunks_and_one_chunk_give_the_same_file() {
    let body: &[u8] = b"0123456789";
    let single: Vec<&[u8]> = vec![body];
    let split: Vec<&[u8]> = body.chunks(1).collect();
    let uneven: Vec<&[u8]> = vec![&body[..7], &body[7..7], &body[7..]];
    let first = run(&script(Some(10), &single));
    let second = run(&script(Some(10), &split));
    let third = run(&script(Some(10), &uneven));
    assert_eq!(first.file, body.to_vec());
    assert_eq!(second.file, body.to_vec());
    assert_eq!(third.file, body.to_vec());
    assert_eq!(first.positions, vec![10]);
    assert_eq!(second.positions, vec![1, 2, 3, 4, 5, 6, 7, 8, 9, 10]);
    assert_eq!(third.positions, vec![7, 7, 10]);
}

#[test]
fn more_bytes_than_declared_are_written_but_not_counted() {
    let outcome = run(&script(Some(4), &[b"abc", b"def", b"ghi"]));
    assert_eq!(outcome.file, b"abcdefghi".to_vec());
    assert_eq!(outcome.positions, vec![3, 4, 4]);
    assert_eq!(outcome.last_position, 4);
    assert!(outcome.result.is_ok());
}

#[test]
fn fewer_bytes_than_declared_finish_below_the_total() {
    let outcome = run(&script(Some(100), &[b"abc", b"de"]));
    assert_eq!(outcome.file, b"abcde".to_vec());
    assert_eq!(outcome.positions, vec![3, 5]);
    assert_eq!(outcome.last_position, 5);
    assert_eq!(outcome.phase, Phase::Finished);
}

#[test]
fn empty_stream_creates_an_empty_file() {
    let outcome = run(&script(Some(0), &[]));
    assert_eq!(outcome.created, vec![String::from(PATH)]);
    assert!(outcome.file.is_empty());
    assert!(outcome.positions.is_empty());
    assert_eq!(outcome.last_position, 0);
    assert_eq!(outcome.phase, Phase::Finished);
}

#[test]
fn failed_request_names_the_source() {
    let mut script = script(Some(10), &[b"0123456789"]);
    script.request_fails = true;
    let outcome = run(&script);
    assert_eq!(outcome.result, Err(DownloadError::Request { url: String::from(URL) }));
    assert!(outcome.created.is_empty());
    assert_eq!(outcome.display_total, None);
    assert_eq!(outcome.phase, Phase::Failed);
}

#[test]
fn missing_length_fails_before_the_file_is_created() {
    let outcome = run(&script(None, &[b"0123456789"]));
    assert_eq!(outcome.result, Err(DownloadError::MissingLength { url: String::from(URL) }));
    assert!(outcome.created.is_empty());
    assert!(outcome.file.is_empty());
    assert_eq!(outcome.display_total, None);
    assert!(outcome.positions.is_empty());
    assert_eq!(outcome.phase, Phase::Failed);
}

#[test]
fn file_that_cannot_be_created_names_the_destination() {
    let mut script = script(Some(10), &[b"0123456789"]);
    script.create_fails = true;
    let outcome = run(&script);
    assert_eq!(outcome.result, Err(DownloadError::FileCreate { path: String::from(PATH) }));
    assert_eq!(outcome.display_total, Some(10));
    assert!(outcome.file.is_empty());
    assert_eq!(outcome.phase, Phase::Failed);
}

#[test]
fn stream_failure_keeps_what_was_written() {
    let mut script = script(Some(10), &[b"012", b"345", b"678", b"9"]);
    script.stream_fails_at = Some(2);
    let outcome = run(&script);
    assert_eq!(outcome.result, Err(DownloadError::StreamRead));
    assert_eq!(outcome.file, b"012345".to_vec());
    assert_eq!(outcome.positions, vec![3, 6]);
    assert_eq!(outcome.last_position, 6);
    assert_eq!(outcome.phase, Phase::Failed);
}

#[test]
fn stream_failure_on_the_first_read() {
    let mut script = script(Some(10), &[b"012"]);
    script.stream_fails_at = Some(0);
    let outcome = run(&script);
    assert_eq!(outcome.result, Err(DownloadError::StreamRead));
    assert_eq!(outcome.created, vec![String::from(PATH)]);
    assert!(outcome.file.is_empty());
}

#[test]
fn write_failure_keeps_the_earlier_chunks() {
    let mut script = script(Some(10), &[b"012", b"345", b"678", b"9"]);
    script.write_fails_at = Some(2);
    let outcome = run(&script);
    assert_eq!(outcome.result, Err(DownloadError::FileWrite));
    assert_eq!(outcome.file, b"012345".to_vec());
    assert_eq!(outcome.positions, vec![3, 6]);
    assert_eq!(outcome.last_position, 6);
    assert_eq!(outcome.phase, Phase::Failed);
}

#[test]
fn begin_asks_for_the_source() {
    let (download, action) = Download::begin(URL, PATH);
    assert_eq!(action, Action::Request { url: String::from(URL) });
    assert_eq!(download.url(), URL);
    assert_eq!(download.path(), PATH);
    assert_eq!(download.phase(), Phase::Requesting);
    assert_eq!(download.total(), 0);
    assert_eq!(download.position(), 0);
}

#[test]
fn each_step_gives_the_next_action() {
    let (mut download, _) = Download::begin(URL, PATH);
    assert_eq!(
        download.step(Event::Response { declared_length: Some(5) }),
        Some(Action::Open {
            total: 5,
            message: String::from("Downloading http://mock.test/file.bin"),
            path: String::from(PATH),
        })
    );
    assert_eq!(download.phase(), Phase::Opening);
    assert_eq!(download.total(), 5);
    assert_eq!(download.step(Event::FileCreated), Some(Action::Read));
    assert_eq!(download.phase(), Phase::Reading);
    assert_eq!(
        download.step(Event::Chunk { bytes: vec![1, 2, 3] }),
        Some(Action::Write { bytes: vec![1, 2, 3] })
    );
    assert_eq!(download.phase(), Phase::Writing);
    assert_eq!(download.position(), 0);
    assert_eq!(download.step(Event::Written), Some(Action::Advance { position: 3 }));
    assert_eq!(download.phase(), Phase::Reading);
    assert_eq!(download.position(), 3);
    assert_eq!(
        download.step(Event::Chunk { bytes: vec![4, 5, 6] }),
        Some(Action::Write { bytes: vec![4, 5, 6] })
    );
    assert_eq!(download.step(Event::Written), Some(Action::Advance { position: 5 }));
    assert_eq!(
        download.step(Event::StreamEnded),
        Some(Action::Finish {
            message: String::from("Downloaded http://mock.test/file.bin to file.bin"),
        })
    );
    assert_eq!(download.phase(), Phase::Finished);
    assert_eq!(download.position(), 5);
}

#[test]
fn events_out_of_turn_are_dropped() {
    let (mut download, _) = Download::begin(URL, PATH);
    assert_eq!(download.step(Event::FileCreated), None);
    assert_eq!(download.step(Event::Chunk { bytes: vec![1] }), None);
    assert_eq!(download.step(Event::Written), None);
    assert_eq!(download.step(Event::StreamEnded), None);
    assert_eq!(download.phase(), Phase::Requesting);
    assert!(download.step(Event::Response { declared_length: Some(2) }).is_some());
    assert_eq!(download.step(Event::Response { declared_length: Some(9) }), None);
    assert_eq!(download.step(Event::Written), None);
    assert_eq!(download.total(), 2);
    assert_eq!(download.phase(), Phase::Opening);
    assert!(download.step(Event::FileCreated).is_some());
    assert_eq!(download.step(Event::Written), None);
    assert_eq!(download.step(Event::WriteFailed), None);
    assert_eq!(download.step(Event::FileCreateFailed), None);
    assert_eq!(download.phase(), Phase::Reading);
    assert!(download.step(Event::Chunk { bytes: vec![7] }).is_some());
    assert_eq!(download.step(Event::Chunk { bytes: vec![8] }), None);
    assert_eq!(download.step(Event::StreamEnded), None);
    assert_eq!(download.step(Event::StreamFailed), None);
    assert_eq!(download.phase(), Phase::Writing);
    assert_eq!(download.position(), 0);
}

#[test]
fn nothing_follows_the_end() {
    let (mut finished, _) = Download::begin(URL, PATH);
    finished.step(Event::Response { declared_length: Some(1) });
    finished.step(Event::FileCreated);
    finished.step(Event::StreamEnded);
    assert_eq!(finished.phase(), Phase::Finished);
    let (mut failed, _) = Download::begin(URL, PATH);
    failed.step(Event::RequestFailed);
    assert_eq!(failed.phase(), Phase::Failed);
    let events = || {
        vec![
            Event::RequestFailed,
            Event::Response { declared_length: None },
            Event::Response { declared_length: Some(3) },
            Event::FileCreated,
            Event::FileCreateFailed,
            Event::Chunk { bytes: vec![1, 2] },
            Event::StreamFailed,
            Event::StreamEnded,
            Event::Written,
            Event::WriteFailed,
        ]
    };
    for event in events() {
        assert_eq!(finished.step(event), None);
    }
    for event in events() {
        assert_eq!(failed.step(event), None);
    }
    assert_eq!(finished.phase(), Phase::Finished);
    assert_eq!(failed.phase(), Phase::Failed);
}

#[test]
fn write_failure_is_answered_with_file_write() {
    let (mut download, _) = Download::begin(URL, PATH);
    download.step(Event::Response { declared_length: Some(4) });
    download.step(Event::FileCreated);
    download.step(Event::Chunk { bytes: vec![1, 2] });
    assert_eq!(
        download.step(Event::WriteFailed),
        Some(Action::Fail { error: DownloadError::FileWrite })
    );
    assert_eq!(download.position(), 0);
    assert_eq!(download.phase(), Phase::Failed);
}

#[test]
fn largest_declared_size_is_accepted() {
    let (mut download, _) = Download::begin(URL, PATH);
    download.step(Event::Response { declared_length: Some(u64::MAX) });
    download.step(Event::FileCreated);
    download.step(Event::Chunk { bytes: vec![0; 1000] });
    assert_eq!(download.step(Event::Written), Some(Action::Advance { position: 1000 }));
    assert_eq!(download.total(), u64::MAX);
}
