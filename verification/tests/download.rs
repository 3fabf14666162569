use moviebox_tui::download::{
    cap_at_total, metadata_matches, parse_content_range, safe_file_stem, segment_count,
    segment_path, segment_ranges, sidecar_path, DownloadError, DownloadOutcome, DownloadProgress,
    ResumeMetadata,
};
use moviebox_tui::transfer::{
    retry_delay, Begin, Download, ResponseHead, SegmentBegin, SegmentJob, SegmentStep, Segmented,
    Step, WorkerEnd,
};

fn head(status: u16, length: Option<u64>, range: Option<&str>) -> ResponseHead {
    ResponseHead {
        status,
        status_text: format!("{status} words"),
        accept_ranges: None,
        content_length: length,
        content_range: range.map(|s| s.to_string()),
        etag: None,
        last_modified: None,
    }
}

fn known(total: u64) -> ResumeMetadata {
    ResumeMetadata { etag: None, last_modified: None, total: Some(total), segments: None }
}

fn asked(begin: Begin) -> (Option<String>, Option<String>) {
    match begin {
        Begin::Ask(q) => (q.range, q.if_range),
        _ => panic!("expected a request"),
    }
}

#[test]
fn resume_speed_uses_session_bytes_not_total() {
    // 1 000 000 bytes are there, and the file has 4096 more.
    let mut d = Download::new(known(1_004_096));
    let (range, _) = asked(d.begin(false, 1_000_000));
    assert_eq!(range, Some("bytes=1000000-".to_string()));
    let answer = head(206, Some(4096), Some("bytes 1000000-1004095/1004096"));
    match d.answer(&answer, 1_000_000) {
        Step::Receive { offset, discard } => {
            assert_eq!(offset, 1_000_000);
            assert!(!discard);
        }
        _ => panic!("expected bytes"),
    }
    let report = d.progress(1_000_000, 1_004_096);
    assert_eq!(report.session_bytes, 4096);
    let last = d.end(1_000_000, 1_004_096).unwrap();
    assert_eq!(last.downloaded, 1_004_096);
    assert_eq!(last.session_bytes, 4096);
}

#[test]
fn shrunk_remote_file_resets_partial_and_restarts() {
    // 100 bytes are there of a file that had 50; the server now has 30.
    let mut d = Download::new(known(50));
    assert_eq!(asked(d.begin(false, 100)).0, Some("bytes=100-".to_string()));
    assert!(matches!(d.answer(&head(416, Some(0), None), 100), Step::Reset(1)));
    assert_eq!(d.metadata.total, None);
    assert_eq!(asked(d.begin(false, 0)).0, None);
    match d.answer(&head(200, Some(30), None), 0) {
        Step::Receive { offset, discard } => assert_eq!((offset, discard), (0, false)),
        _ => panic!("expected bytes"),
    }
    assert!(d.end(0, 30).is_ok());
}

#[test]
fn progress_never_exceeds_total() {
    // The server claims 1000 bytes and sends 1200.
    let mut d = Download::new(ResumeMetadata::default());
    asked(d.begin(false, 0));
    d.answer(&head(206, Some(1200), Some("bytes 0-999/1000")), 0);
    let report = d.progress(0, 1200);
    assert_eq!((report.downloaded, report.total), (1000, Some(1000)));
    assert_eq!(d.end(0, 1200), Err(1));
    assert!(matches!(
        d.last_error,
        Some(DownloadError::Incomplete { downloaded: 1200, expected: 1000 })
    ));
    assert_eq!(cap_at_total(7, Some(5)), 5);
    assert_eq!(cap_at_total(7, None), 7);
}

#[test]
fn complete_parts_are_finished() {
    let mut d = Download::new(known(100));
    asked(d.begin(false, 100));
    match d.answer(&head(416, None, None), 100) {
        Step::Finish(o) => assert_eq!(o, DownloadOutcome::Completed { bytes: 100 }),
        _ => panic!("expected the end"),
    }
}

#[test]
fn four_failures_end_a_download() {
    let mut d = Download::new(ResumeMetadata::default());
    let mut waits = Vec::new();
    for _ in 0..4 {
        asked(d.begin(false, 0));
        match d.answer(&head(503, None, None), 0) {
            Step::Retry(wait) => waits.push(wait),
            _ => panic!("expected another attempt"),
        }
    }
    assert_eq!(waits, vec![1, 2, 4, 0]);
    match d.begin(false, 0) {
        Begin::Fail(e) => assert_eq!(e.message(), "server returned HTTP 503 words"),
        _ => panic!("expected failure"),
    }
    assert_eq!(retry_delay(4), 0);
}

#[test]
fn cancelled_downloads_pause() {
    let mut d = Download::new(ResumeMetadata::default());
    match d.begin(true, 42) {
        Begin::Pause(o) => assert_eq!(o, DownloadOutcome::Paused { bytes: 42 }),
        _ => panic!("expected a pause"),
    }
}

#[test]
fn a_server_that_begins_anew_discards_the_part() {
    let mut d = Download::new(known(10));
    d.metadata.last_modified = Some("then".into());
    d.metadata.etag = Some("tag".into());
    assert_eq!(asked(d.begin(false, 5)), (Some("bytes=5-".into()), Some("tag".into())));
    match d.answer(&head(200, Some(10), None), 5) {
        Step::Receive { offset, discard } => assert_eq!((offset, discard), (0, true)),
        _ => panic!("expected bytes"),
    }
    assert_eq!(d.metadata.etag, Some("tag".to_string()));
}

#[test]
fn another_size_resets_the_part() {
    let mut d = Download::new(known(10));
    assert!(matches!(d.answer(&head(206, Some(6), Some("bytes 5-10/11")), 5), Step::Reset(1)));
    assert_eq!(d.metadata.total, None);
}

#[test]
fn another_range_is_refused() {
    let mut d = Download::new(known(10));
    match d.answer(&head(206, Some(6), Some("bytes 4-9/10")), 5) {
        Step::Fail(e) => {
            assert_eq!(e.message(), "invalid partial response: requested byte 5, received 4")
        }
        _ => panic!("expected a refusal"),
    }
    match d.answer(&head(206, Some(6), None), 5) {
        Step::Fail(e) => assert_eq!(e.message(), "invalid partial response: Content-Range missing"),
        _ => panic!("expected a refusal"),
    }
}

#[test]
fn large_files_are_divided() {
    let mut answer = head(200, Some(33_554_432), None);
    answer.accept_ranges = Some("Bytes".into());
    answer.etag = Some("e".into());
    let mut d = Download::new(ResumeMetadata::default());
    match d.answer(&answer, 0) {
        Step::Segment { metadata, discard } => {
            assert!(discard);
            assert_eq!(metadata.segments, Some(2));
            assert_eq!(metadata.total, Some(33_554_432));
        }
        _ => panic!("expected segments"),
    }
    d.undivide();
    assert!(matches!(d.answer(&answer, 0), Step::Receive { .. }));
    let mut small = head(200, Some(33_554_431), None);
    small.accept_ranges = Some("bytes".into());
    assert!(matches!(
        Download::new(ResumeMetadata::default()).answer(&small, 0),
        Step::Receive { .. }
    ));
}

#[test]
fn segments_cover_the_file() {
    assert_eq!(segment_count(268_435_455), 2);
    assert_eq!(segment_count(268_435_456), 4);
    assert_eq!(segment_count(2_147_483_648), 8);
    assert_eq!(segment_ranges(10, 3), vec![(0, 2), (3, 5), (6, 9)]);
    assert_eq!(segment_ranges(4, 4), vec![(0, 0), (1, 1), (2, 2), (3, 3)]);
}

#[test]
fn segments_are_asked_for_where_they_stopped() {
    let mut job = SegmentJob::new(100, 199, 1000, Some("v".into()));
    assert_eq!(job.expected(), 100);
    match job.begin(false, 30) {
        SegmentBegin::Ask(existing, q) => {
            assert_eq!(existing, 30);
            assert_eq!(q.range, Some("bytes=130-199".to_string()));
            assert_eq!(q.if_range, Some("v".to_string()));
        }
        _ => panic!("expected a request"),
    }
    assert!(matches!(job.answer(&head(206, None, Some("bytes 130-199/1000")), 30), SegmentStep::Receive));
    assert_eq!(job.take(30, 50), 50);
    assert_eq!(job.take(80, 50), 20);
    assert!(matches!(job.begin(false, 100), SegmentBegin::Done));
    assert!(matches!(job.begin(false, 400), SegmentBegin::Done));
    assert!(matches!(job.begin(true, 0), SegmentBegin::Fail(DownloadError::Paused)));
}

#[test]
fn segments_take_only_what_was_asked_for() {
    let mut job = SegmentJob::new(0, 9, 20, None);
    match job.answer(&head(206, None, Some("bytes 0-9/30")), 0) {
        SegmentStep::Fail(e) => assert_eq!(
            e.message(),
            "invalid partial response: worker requested 0-9/20, received bytes 0-9/30"
        ),
        _ => panic!("expected a refusal"),
    }
    assert!(matches!(job.answer(&head(200, None, None), 0), SegmentStep::Retry(1)));
    assert_eq!(job.end(4), 2);
    job.fail(DownloadError::Network("x".into()));
    job.fail(DownloadError::Network("y".into()));
    match job.begin(false, 4) {
        SegmentBegin::Fail(e) => assert_eq!(e.message(), "network error: y"),
        _ => panic!("expected failure"),
    }
}

#[test]
fn segmented_downloads_add_up() {
    let meta = ResumeMetadata { etag: None, last_modified: None, total: Some(10), segments: Some(3) };
    let mut s = Segmented::new(&meta).unwrap();
    assert!(s.overlong(0, 4));
    assert!(!s.overlong(2, 4));
    s.resume(&vec![9, 3, 1]);
    assert_eq!((s.initial, s.downloaded), (4, 4));
    assert_eq!(s.missing(0), 3);
    let p = s.arrived(0, 3, 2);
    assert_eq!(
        p,
        DownloadProgress { downloaded: 7, total: Some(10), session_bytes: 3, attempt: 2, workers: 3 }
    );
    assert!(s.worker_ended(WorkerEnd::Done).is_none());
    assert!(matches!(
        s.worker_ended(WorkerEnd::Failed(DownloadError::Paused)),
        Some(Ok(DownloadOutcome::Paused { bytes: 7 }))
    ));
    assert!(matches!(
        s.worker_ended(WorkerEnd::Failed(DownloadError::File("disk".into()))),
        Some(Err(DownloadError::File(_)))
    ));
    match s.worker_ended(WorkerEnd::Stopped("panic".into())) {
        Some(Err(e)) => {
            assert_eq!(e.message(), "invalid partial response: download worker stopped: panic")
        }
        _ => panic!("expected failure"),
    }
    s.worker_ended(WorkerEnd::Done);
    assert!(!s.complete());
    s.worker_ended(WorkerEnd::Done);
    assert!(s.complete());
    assert!(matches!(s.assembled(10), Ok(DownloadOutcome::Completed { bytes: 10 })));
    assert_eq!(
        s.assembled(9).err().unwrap().message(),
        "download ended at 9 of 10 bytes"
    );
    assert_eq!(s.last_report().session_bytes, 6);
    assert!(Segmented::new(&ResumeMetadata::default()).is_err());
}

#[test]
fn metadata_is_held_against_the_answer() {
    let mut a = known(10);
    let mut b = known(10);
    assert!(metadata_matches(&a, &b));
    a.etag = Some("x".into());
    assert!(metadata_matches(&a, &b));
    b.etag = Some("y".into());
    assert!(!metadata_matches(&a, &b));
    b.etag = None;
    a.last_modified = Some("m".into());
    b.last_modified = Some("n".into());
    assert!(!metadata_matches(&a, &b));
    assert!(!metadata_matches(&known(10), &known(11)));
}

#[test]
fn content_ranges_are_read() {
    assert_eq!(parse_content_range("bytes 0-999/1000").unwrap(), (0, Some(1000)));
    assert_eq!(parse_content_range("bytes 5-9/*").unwrap(), (5, None));
    let words = |s: &str| parse_content_range(s).err().unwrap().message();
    assert_eq!(words("items 0-1/2"), "invalid partial response: items 0-1/2");
    assert_eq!(words("bytes 0-1"), "invalid partial response: 0-1");
    assert_eq!(words("bytes 01/2"), "invalid partial response: 01/2");
    assert_eq!(words("bytes a-1/2"), "invalid partial response: a-1/2");
    assert_eq!(words("bytes 0-1/x"), "invalid partial response: 0-1/x");
}

#[test]
fn files_get_safe_names() {
    assert_eq!(safe_file_stem("The Matrix: Reloaded"), "The_Matrix__Reloaded");
    assert_eq!(safe_file_stem("..hidden.."), "hidden");
    assert_eq!(safe_file_stem("a/b\\c"), "a_b_c");
    assert_eq!(safe_file_stem("???"), "MovieBox-Tui_Stream");
    assert_eq!(safe_file_stem(""), "MovieBox-Tui_Stream");
    assert_eq!(safe_file_stem("con"), "con_");
    assert_eq!(safe_file_stem("Lpt9"), "Lpt9_");
    assert_eq!(safe_file_stem("com0"), "com0");
    assert_eq!(safe_file_stem("COM10"), "COM10");
    assert_eq!(safe_file_stem("x\u{3000}y\u{85}z\u{7f}w"), "x_y_z_w");
    assert_eq!(safe_file_stem(&"é".repeat(200)).chars().count(), 120);
    for title in ["a. b", "con", "", "_x_", "The Matrix: Reloaded.", "..a.._"] {
        let stem = safe_file_stem(title);
        assert_eq!(safe_file_stem(&stem), stem);
    }
}

#[test]
fn sidecars_stand_beside_the_file() {
    assert_eq!(sidecar_path("/d/movie.mp4", "part"), "/d/movie.mp4.part");
    assert_eq!(segment_path("/d/movie.mp4", 3), "/d/movie.mp4.part.3");
}

#[test]
fn download_errors_have_words() {
    assert_eq!(DownloadError::File("disk full".into()).message(), "file error: disk full");
    assert_eq!(DownloadError::Paused.message(), "download paused");
    assert_eq!(DownloadError::Network("x".into()).message(), "network error: x");
}
