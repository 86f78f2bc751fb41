use printrs::dest::{CupsDestination, CupsDestinationInfo, CupsDestinations};
use printrs::error::PrintErrorOf;
use printrs::job::{PrintActionOf, PrintEventOf, JOB_TITLE};
use printrs::options::{CopiesInt, MediaSize, PrintOptions};
use printrs::{print, CupsJob, PrintAction, PrintEvent};

const OK: i32 = 0;
const CONTINUE: i32 = 100;
const FAILED: i32 = 1030;

fn one_destination() -> CupsDestinations {
    CupsDestinations::new(vec![CupsDestination::new(
        "office".to_string(),
        None,
        1,
        vec![],
        CupsDestinationInfo { handle: 0 },
    )])
}

fn options(copies: Option<i32>, size: Option<MediaSize>) -> PrintOptions {
    PrintOptions {
        copies: copies.map(CopiesInt),
        finishings: None,
        media_size: size,
        media_source: None,
        media_type: None,
        number_up: None,
        orientation: None,
        color_mode: None,
        quality: None,
        sides_mode: None,
    }
}

fn start(opts: PrintOptions, documents: usize) -> CupsJob {
    print(&one_destination(), &opts, documents).expect("there is a destination")
}

fn created(job_id: i32) -> PrintEvent {
    PrintEventOf::JobCreated { status: OK, job_id, last_error: None }
}

fn status(make: fn(i32, Option<String>) -> PrintEvent, code: i32, msg: Option<&str>) -> PrintEvent {
    make(code, msg.map(|m| m.to_string()))
}

fn started(code: i32, msg: Option<String>) -> PrintEvent {
    PrintEventOf::DocumentStarted { status: code, last_error: msg }
}
fn written(code: i32, msg: Option<String>) -> PrintEvent {
    PrintEventOf::ChunkWritten { status: code, last_error: msg }
}
fn finished_doc(code: i32, msg: Option<String>) -> PrintEvent {
    PrintEventOf::DocumentFinished { status: code, last_error: msg }
}
fn closed(code: i32, msg: Option<String>) -> PrintEvent {
    PrintEventOf::JobClosed { status: code, last_error: msg }
}
fn cancelled(code: i32, msg: Option<String>) -> PrintEvent {
    PrintEventOf::JobCancelled { status: code, last_error: msg }
}
fn read(bytes: &[u8]) -> PrintEvent {
    PrintEventOf::ChunkRead { result: Ok(bytes.to_vec()) }
}

fn is_backend(e: &PrintErrorOf<String>, msg: &str) -> bool {
    matches!(e, PrintErrorOf::Backend(m) if m == msg)
}

#[test]
fn no_destination_no_printers() {
    let r = print(&CupsDestinations::new(vec![]), &options(None, None), 1);
    assert!(matches!(r, Err(PrintErrorOf::NoPrinters)));
}

#[test]
fn successful_job_with_one_option_and_two_documents() {
    let mut job = start(options(Some(2), None), 2);
    assert!(
        matches!(job.action(), PrintActionOf::CheckOption { name, value } if name == "copies" && value == "2")
    );
    assert!(matches!(
        job.step(PrintEventOf::OptionChecked { supported: 1 }),
        PrintActionOf::AddOption { name, value } if name == "copies" && value == "2"
    ));
    assert!(
        matches!(job.step(PrintEventOf::OptionAdded), PrintActionOf::CreateJob { title } if title == JOB_TITLE)
    );
    assert!(matches!(
        job.step(created(17)),
        PrintActionOf::StartDocument { document: 0, job_id: 17, file_name, .. } if file_name == "printrs-1"
    ));
    assert!(matches!(job.step(status(started, CONTINUE, None)), PrintActionOf::ReadChunk { document: 0 }));
    let chunk = vec![7u8; 65536];
    assert!(matches!(
        job.step(read(&chunk)),
        PrintActionOf::WriteChunk { document: 0, data } if data == chunk
    ));
    assert!(matches!(job.step(status(written, CONTINUE, None)), PrintActionOf::ReadChunk { document: 0 }));
    assert!(matches!(job.step(read(&[])), PrintActionOf::FinishDocument { document: 0 }));
    assert!(matches!(
        job.step(status(finished_doc, OK, None)),
        PrintActionOf::StartDocument { document: 1, job_id: 17, file_name, .. } if file_name == "printrs-2"
    ));
    assert!(matches!(job.step(status(started, CONTINUE, None)), PrintActionOf::ReadChunk { document: 1 }));
    assert!(matches!(job.step(read(&[])), PrintActionOf::FinishDocument { document: 1 }));
    assert!(matches!(job.step(status(finished_doc, OK, None)), PrintActionOf::CloseJob { job_id: 17 }));
    assert!(matches!(
        job.step(status(closed, OK, None)),
        PrintActionOf::Finished { result: Ok(()), cancel_error: None }
    ));
}

#[test]
fn unsupported_option_stops_before_the_job() {
    let mut job = start(options(Some(1), Some(MediaSize::A4)), 1);
    job.step(PrintEventOf::OptionChecked { supported: 1 });
    assert!(matches!(
        job.step(PrintEventOf::OptionAdded),
        PrintActionOf::CheckOption { name, value } if name == "media" && value == "iso_a4_210x297mm"
    ));
    let a = job.step(PrintEventOf::OptionChecked { supported: 0 });
    match a {
        PrintActionOf::Finished {
            result: Err(PrintErrorOf::UnsupportedOption { name, value }),
            cancel_error: None,
        } => {
            assert_eq!(name, "media size");
            assert_eq!(value, "a4");
        },
        other => panic!("unexpected action {:?}", other),
    }
}

#[test]
fn failed_creation_is_not_cancelled() {
    let mut job = start(options(None, None), 1);
    assert!(matches!(job.action(), PrintActionOf::CreateJob { .. }));
    let a = job.step(PrintEventOf::JobCreated {
        status: FAILED,
        job_id: 0,
        last_error: Some("printer is offline".to_string()),
    });
    match a {
        PrintActionOf::Finished { result: Err(e), cancel_error: None } => {
            assert!(is_backend(&e, "printer is offline"))
        },
        other => panic!("unexpected action {:?}", other),
    }
}

#[test]
fn failed_upload_cancels_the_job() {
    let mut job = start(options(None, None), 1);
    job.step(created(5));
    job.step(status(started, CONTINUE, None));
    job.step(read(b"0123456789"));
    assert!(matches!(
        job.step(status(written, FAILED, Some("broken pipe"))),
        PrintActionOf::CancelJob { job_id: 5 }
    ));
    match job.step(status(cancelled, OK, None)) {
        PrintActionOf::Finished { result: Err(e), cancel_error: None } => {
            assert!(is_backend(&e, "broken pipe"))
        },
        other => panic!("unexpected action {:?}", other),
    }
}

#[test]
fn failed_cancellation_is_reported_beside_the_failure() {
    let mut job = start(options(None, None), 1);
    job.step(created(5));
    assert!(matches!(job.step(status(started, FAILED, None)), PrintActionOf::CancelJob { job_id: 5 }));
    match job.step(status(cancelled, FAILED, Some("no such job"))) {
        PrintActionOf::Finished { result: Err(e), cancel_error: Some(c) } => {
            assert!(is_backend(&e, ""));
            assert!(is_backend(&c, "no such job"));
        },
        other => panic!("unexpected action {:?}", other),
    }
}

#[test]
fn failed_read_cancels_with_file_error() {
    let mut job = start(options(None, None), 2);
    job.step(created(9));
    job.step(status(started, CONTINUE, None));
    let a = job.step(PrintEventOf::ChunkRead { result: Err("permission denied".to_string()) });
    assert!(matches!(a, PrintActionOf::CancelJob { job_id: 9 }));
    match job.step(status(cancelled, OK, None)) {
        PrintActionOf::Finished { result: Err(PrintErrorOf::FileRead(m)), cancel_error: None } => {
            assert_eq!(m, "permission denied")
        },
        other => panic!("unexpected action {:?}", other),
    }
}

#[test]
fn failed_close_cancels_the_job() {
    let mut job = start(options(None, None), 0);
    assert!(matches!(job.step(created(3)), PrintActionOf::CloseJob { job_id: 3 }));
    assert!(matches!(job.step(status(closed, FAILED, Some("stopped"))), PrintActionOf::CancelJob { job_id: 3 }));
    match job.step(status(cancelled, OK, None)) {
        PrintActionOf::Finished { result: Err(e), cancel_error: None } => assert!(is_backend(&e, "stopped")),
        other => panic!("unexpected action {:?}", other),
    }
}

#[test]
fn failed_document_finish_cancels_the_job() {
    let mut job = start(options(None, None), 1);
    job.step(created(4));
    job.step(status(started, CONTINUE, None));
    job.step(read(&[]));
    assert!(matches!(job.step(status(finished_doc, FAILED, Some("bad"))), PrintActionOf::CancelJob { job_id: 4 }));
}

#[test]
fn unexpected_event_repeats_the_action() {
    let mut job = start(options(None, None), 1);
    assert!(matches!(job.step(PrintEventOf::OptionAdded), PrintActionOf::CreateJob { .. }));
    job.step(created(8));
    assert!(matches!(job.step(read(b"abc")), PrintActionOf::StartDocument { document: 0, .. }));
}

#[test]
fn finished_job_stays_finished() {
    let mut job = start(options(None, None), 0);
    job.step(created(1));
    job.step(status(closed, OK, None));
    assert!(matches!(
        job.step(created(2)),
        PrintActionOf::Finished { result: Ok(()), cancel_error: None }
    ));
    assert!(matches!(
        job.step(status(cancelled, OK, None)),
        PrintActionOf::Finished { result: Ok(()), cancel_error: None }
    ));
}

#[test]
fn documents_are_named_by_number() {
    let mut job = start(options(None, None), 12);
    job.step(created(1));
    for n in 1..=12 {
        match job.action() {
            PrintActionOf::StartDocument { file_name, .. } => assert_eq!(file_name, format!("printrs-{}", n)),
            other => panic!("unexpected action {:?}", other),
        }
        job.step(status(started, CONTINUE, None));
        job.step(read(&[]));
        job.step(status(finished_doc, OK, None));
    }
    assert!(matches!(job.action(), PrintActionOf::CloseJob { job_id: 1 }));
}

#[test]
fn empty_backend_message_when_cups_has_none() {
    let e = printrs::error::backend_error(None);
    assert!(is_backend(&e, ""));
    let e = printrs::error::backend_error(Some("x".to_string()));
    assert!(is_backend(&e, "x"));
    let _unused: Option<PrintAction> = None;
}

#[test]
fn documents_start_in_the_automatic_format_and_never_as_the_last() {
    let mut job = start(options(None, None), 2);
    for n in 0..2 {
        if n == 0 {
            job.step(created(6));
        }
        match job.action() {
            PrintActionOf::StartDocument { document, job_id, format, last_document, .. } => {
                assert_eq!(document, n);
                assert_eq!(job_id, 6);
                assert_eq!(format, "application/octet-stream");
                assert_eq!(last_document, 0);
            },
            other => panic!("unexpected action {:?}", other),
        }
        job.step(status(started, CONTINUE, None));
        job.step(read(&[]));
        job.step(status(finished_doc, OK, None));
    }
}

#[test]
fn each_chunk_is_written_as_it_was_read() {
    let chunks: [&[u8]; 3] = [b"%PDF-1.4\n", b"\x00\x01\x02\xff", b"the end"];
    let mut job = start(options(None, None), 1);
    job.step(created(2));
    job.step(status(started, CONTINUE, None));
    let mut written_bytes: Vec<u8> = Vec::new();
    for chunk in chunks.iter() {
        match job.step(read(chunk)) {
            PrintActionOf::WriteChunk { document: 0, data } => {
                assert_eq!(&data[..], *chunk);
                written_bytes.extend_from_slice(&data);
            },
            other => panic!("unexpected action {:?}", other),
        }
        assert!(matches!(job.step(status(written, CONTINUE, None)), PrintActionOf::ReadChunk { document: 0 }));
    }
    assert!(matches!(job.step(read(&[])), PrintActionOf::FinishDocument { document: 0 }));
    assert_eq!(written_bytes, chunks.concat());
}

#[test]
fn a_pending_chunk_is_written_again_after_an_unexpected_event() {
    let mut job = start(options(None, None), 1);
    job.step(created(2));
    job.step(status(started, CONTINUE, None));
    job.step(read(b"xyz"));
    assert!(matches!(
        job.step(read(b"other")),
        PrintActionOf::WriteChunk { document: 0, data } if data == b"xyz"
    ));
}
