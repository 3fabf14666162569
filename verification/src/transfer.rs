//! The course of a download: which request is made next, what an answer leads to, and when the
//! download is over.
//!
//! The machines here decide; requests, files and waiting are left to the caller, who hands back what
//! has come of them.
use vstd::prelude::*;
use crate::download::{
    DownloadError, DownloadErrorV, DownloadOutcome, DownloadProgress, MAX_ATTEMPTS, ResumeMetadata,
    ResumeMetadataV, SEGMENT_THRESHOLD, cap_at_total, capped, content_range, error_opt,
    law_content_range_read_back, law_segments_cover, metadata_matches, nothing_known, parse_content_range, segment_count,
    segment_range, segment_ranges, segments_for, validator_of,
};
use crate::numbers::{decimal, decimal_text};
use crate::strings::{
    cat2, cat3, cat4, cat5, copy_opt, copy_text, eq_no_case, lower_text, same_no_case, text_opt,
};

verus! {

// ---------------------------------------------------------------------------
// Requests and answers
// ---------------------------------------------------------------------------

/// What is asked of the server: a part of the file, and on which condition.
pub struct RangeRequest {
    /// The value of `Range`.
    pub range: Option<String>,
    /// The value of `If-Range`.
    pub if_range: Option<String>,
}

/// The head of an answer.
pub struct ResponseHead {
    /// The status.
    pub status: u16,
    /// The status in words.
    pub status_text: String,
    /// The value of `Accept-Ranges`.
    pub accept_ranges: Option<String>,
    /// The bytes that follow.
    pub content_length: Option<u64>,
    /// The value of `Content-Range`.
    pub content_range: Option<String>,
    /// The value of `ETag`.
    pub etag: Option<String>,
    /// The value of `Last-Modified`.
    pub last_modified: Option<String>,
}

/// What the head of an answer means.
pub struct ResponseHeadV {
    /// The status.
    pub status: u16,
    /// The status in words.
    pub status_text: Seq<char>,
    /// The value of `Accept-Ranges`.
    pub accept_ranges: Option<Seq<char>>,
    /// The bytes that follow.
    pub content_length: Option<u64>,
    /// The value of `Content-Range`.
    pub content_range: Option<Seq<char>>,
    /// The value of `ETag`.
    pub etag: Option<Seq<char>>,
    /// The value of `Last-Modified`.
    pub last_modified: Option<Seq<char>>,
}

impl View for ResponseHead {
    type V = ResponseHeadV;

    open spec fn view(&self) -> ResponseHeadV {
        ResponseHeadV {
            status: self.status,
            status_text: self.status_text@,
            accept_ranges: text_opt(self.accept_ranges),
            content_length: self.content_length,
            content_range: text_opt(self.content_range),
            etag: text_opt(self.etag),
            last_modified: text_opt(self.last_modified),
        }
    }
}

impl ResponseHeadV {
    /// Whether the answer is one of success.
    pub open spec fn success(self) -> bool {
        200 <= self.status <= 299
    }

    /// Whether the file can be fetched in segments.
    pub open spec fn divisible(self) -> bool {
        &&& self.status == 200
        &&& self.accept_ranges is Some && eq_no_case(self.accept_ranges->0, "bytes"@)
        &&& self.content_length is Some && self.content_length->0 >= SEGMENT_THRESHOLD
    }
}

/// One of two values, the first where it is there.
pub open spec fn first_known<T>(a: Option<T>, b: Option<T>) -> Option<T> {
    if a is Some {
        a
    } else {
        b
    }
}

/// The seconds to wait after an attempt: twice as many each time, and none after the last.
pub open spec fn pause_after(attempt: usize) -> u64 {
    if attempt == 1 {
        1
    } else if attempt == 2 {
        2
    } else if attempt == 3 {
        4
    } else {
        0
    }
}

/// The seconds to wait after an attempt.
pub fn retry_delay(attempt: usize) -> (r: u64)
    ensures
        r == pause_after(attempt),
{
    if attempt == 1 {
        1
    } else if attempt == 2 {
        2
    } else if attempt == 3 {
        4
    } else {
        0
    }
}

// ---------------------------------------------------------------------------
// The download of a file
// ---------------------------------------------------------------------------

/// The download of a file.
pub struct Download {
    /// The attempt, from one on.
    pub attempt: usize,
    /// What is known of the file.
    pub metadata: ResumeMetadata,
    /// Whether the file is not fetched in segments.
    pub segmented_disabled: bool,
    /// Why the attempt before has failed.
    pub last_error: Option<DownloadError>,
}

/// What the download of a file means.
pub struct DownloadV {
    /// The attempt, from one on.
    pub attempt: usize,
    /// What is known of the file.
    pub metadata: ResumeMetadataV,
    /// Whether the file is not fetched in segments.
    pub segmented_disabled: bool,
    /// Why the attempt before has failed.
    pub last_error: Option<DownloadErrorV>,
}

impl View for Download {
    type V = DownloadV;

    open spec fn view(&self) -> DownloadV {
        DownloadV {
            attempt: self.attempt,
            metadata: self.metadata@,
            segmented_disabled: self.segmented_disabled,
            last_error: error_opt(self.last_error),
        }
    }
}

/// How an attempt begins.
pub enum Begin {
    /// It is not made, and the download has failed.
    Fail(DownloadError),
    /// It is not made, and the download is paused.
    Pause(DownloadOutcome),
    /// A request is made.
    Ask(RangeRequest),
}

/// What an answer leads to.
pub enum Step {
    /// The part of the file is discarded, and the next attempt follows after some seconds.
    Reset(u64),
    /// The next attempt follows after some seconds.
    Retry(u64),
    /// The part of the file is all of it.
    Finish(DownloadOutcome),
    /// The download has failed.
    Fail(DownloadError),
    /// The file is fetched in segments; earlier segments are discarded first, if they do not fit.
    Segment {
        /// What is known of the file.
        metadata: ResumeMetadata,
        /// Whether earlier segments are discarded.
        discard: bool,
    },
    /// The bytes that follow are put behind the part of the file, which is discarded first if the
    /// server begins anew.
    Receive {
        /// The bytes of the part of the file.
        offset: u64,
        /// Whether it is discarded.
        discard: bool,
    },
}

/// What it means that an answer leads to something.
pub enum StepV {
    /// The part of the file is discarded, and the next attempt follows after some seconds.
    Reset(u64),
    /// The next attempt follows after some seconds.
    Retry(u64),
    /// The part of the file is all of it.
    Finish(DownloadOutcome),
    /// The download has failed.
    Fail(DownloadErrorV),
    /// The file is fetched in segments.
    Segment {
        /// What is known of the file.
        metadata: ResumeMetadataV,
        /// Whether earlier segments are discarded.
        discard: bool,
    },
    /// The bytes that follow are put behind the part of the file.
    Receive {
        /// The bytes of the part of the file.
        offset: u64,
        /// Whether it is discarded.
        discard: bool,
    },
}

impl View for Step {
    type V = StepV;

    open spec fn view(&self) -> StepV {
        match *self {
            Step::Reset(s) => StepV::Reset(s),
            Step::Retry(s) => StepV::Retry(s),
            Step::Finish(o) => StepV::Finish(o),
            Step::Fail(e) => StepV::Fail(e@),
            Step::Segment { metadata, discard } => StepV::Segment { metadata: metadata@, discard },
            Step::Receive { offset, discard } => StepV::Receive { offset, discard },
        }
    }
}

impl DownloadV {
    /// Whether the attempt is one that can be made or follows the last.
    pub open spec fn wf(self) -> bool {
        1 <= self.attempt <= MAX_ATTEMPTS + 1
    }

    /// After an attempt has failed.
    pub open spec fn failed(self, e: DownloadErrorV) -> DownloadV {
        DownloadV { attempt: (self.attempt + 1) as usize, last_error: Some(e), ..self }
    }

    /// After what is known of the file turned out to be wrong.
    pub open spec fn reset(self) -> DownloadV {
        DownloadV { metadata: nothing_known(), ..self }.failed(
            DownloadErrorV::InvalidRange("remote file size changed; partial reset"@),
        )
    }

    /// What is known of a file that is fetched in segments.
    pub open spec fn segmented(head: ResponseHeadV) -> ResumeMetadataV {
        let total = head.content_length->0;
        ResumeMetadataV {
            etag: head.etag,
            last_modified: head.last_modified,
            total: Some(total),
            segments: Some(segments_for(total)),
        }
    }

    /// What is known of a file once an answer has told more.
    pub open spec fn learnt(self, head: ResponseHeadV, total: Option<u64>) -> DownloadV {
        DownloadV {
            metadata: ResumeMetadataV {
                etag: first_known(head.etag, self.metadata.etag),
                last_modified: first_known(head.last_modified, self.metadata.last_modified),
                total: first_known(total, self.metadata.total),
                segments: None,
            },
            ..self
        }
    }

    /// Where the bytes that an answer brings belong, and how many bytes the file has; or why the
    /// answer is refused.
    pub open spec fn placed(head: ResponseHeadV, offset: u64) -> Result<
        (u64, Option<u64>),
        DownloadErrorV,
    > {
        if head.status == 206 {
            match head.content_range {
                None => Err(DownloadErrorV::InvalidRange("Content-Range missing"@)),
                Some(v) => match content_range(v) {
                    Err(s) => Err(DownloadErrorV::InvalidRange(s)),
                    Ok((start, total)) => if start != offset {
                        Err(
                            DownloadErrorV::InvalidRange(
                                "requested byte "@ + decimal(offset as nat) + ", received "@
                                    + decimal(start),
                            ),
                        )
                    } else {
                        Ok(
                            (
                                offset,
                                match total {
                                    Some(n) => Some(n as u64),
                                    None => None,
                                },
                            ),
                        )
                    },
                },
            }
        } else {
            Ok((0, head.content_length))
        }
    }

    /// What an answer of success leads to.
    pub open spec fn accepted(self, head: ResponseHeadV, offset: u64) -> (DownloadV, StepV) {
        match DownloadV::placed(head, offset) {
            Err(e) => (self, StepV::Fail(e)),
            Ok((place, total)) => if place > 0 && self.metadata.total is Some && total is Some
                && self.metadata.total != total {
                (self.reset(), StepV::Reset(pause_after(self.attempt)))
            } else {
                (
                    self.learnt(head, total),
                    StepV::Receive { offset: place, discard: place < offset },
                )
            },
        }
    }

    /// What an answer leads to.
    pub open spec fn answered(self, head: ResponseHeadV, offset: u64) -> (DownloadV, StepV) {
        if head.status == 416 && self.metadata.total is Some && offset > self.metadata.total->0 {
            (self.reset(), StepV::Reset(pause_after(self.attempt)))
        } else if head.status == 416 && self.metadata.total == Some(offset) {
            (self, StepV::Finish(DownloadOutcome::Completed { bytes: offset }))
        } else if !head.success() {
            (
                self.failed(DownloadErrorV::Http(head.status, head.status_text)),
                StepV::Retry(pause_after(self.attempt)),
            )
        } else if !self.segmented_disabled && offset == 0 && head.divisible() {
            (
                self,
                StepV::Segment {
                    metadata: DownloadV::segmented(head),
                    discard: !self.metadata.agrees(DownloadV::segmented(head)),
                },
            )
        } else {
            self.accepted(head, offset)
        }
    }
}

impl Download {
    /// The first attempt, with what is known of the file.
    pub fn new(metadata: ResumeMetadata) -> (r: Download)
        ensures
            r@ == (DownloadV {
                attempt: 1,
                metadata: metadata@,
                segmented_disabled: false,
                last_error: None,
            }),
            r@.wf(),
    {
        Download { attempt: 1, metadata, segmented_disabled: false, last_error: None }
    }

    /// Begins an attempt, with so many bytes of the file there. The rest is asked for, as long as
    /// the file has not changed.
    pub fn begin(&mut self, cancelled: bool, offset: u64) -> (r: Begin)
        requires
            old(self)@.wf(),
        ensures
            r is Ask || r is Pause ==> *final(self) == *old(self),
            r is Fail ==> final(self)@ == (DownloadV { last_error: None, ..old(self)@ }),
            match r {
                Begin::Fail(e) => old(self)@.attempt > MAX_ATTEMPTS && e@ == (
                match old(self)@.last_error {
                    Some(e) => e,
                    None => DownloadErrorV::InvalidRange("download failed without a response"@),
                }),
                Begin::Pause(o) => old(self)@.attempt <= MAX_ATTEMPTS && cancelled && o
                    == DownloadOutcome::Paused { bytes: offset },
                Begin::Ask(q) => {
                    &&& old(self)@.attempt <= MAX_ATTEMPTS && !cancelled
                    &&& text_opt(q.range) == (if offset > 0 {
                        Some("bytes="@ + decimal(offset as nat) + "-"@)
                    } else {
                        None
                    })
                    &&& text_opt(q.if_range) == (if offset > 0 {
                        old(self)@.metadata.validator()
                    } else {
                        None
                    })
                },
            },
    {
        if self.attempt > MAX_ATTEMPTS {
            let error = match self.last_error.take() {
                Some(e) => e,
                None => DownloadError::InvalidRange(copy_text("download failed without a response")),
            };
            return Begin::Fail(error);
        }
        if cancelled {
            return Begin::Pause(DownloadOutcome::Paused { bytes: offset });
        }
        if offset > 0 {
            let range = cat3("bytes=", decimal_text(offset).as_str(), "-");
            Begin::Ask(
                RangeRequest { range: Some(range), if_range: validator_of(&self.metadata) },
            )
        } else {
            Begin::Ask(RangeRequest { range: None, if_range: None })
        }
    }

    /// Notes that an attempt has failed. The result says for how many seconds to wait.
    pub fn fail(&mut self, error: DownloadError) -> (wait: u64)
        requires
            1 <= old(self)@.attempt <= MAX_ATTEMPTS,
        ensures
            final(self)@ == old(self)@.failed(error@),
            final(self)@.wf(),
            wait == pause_after(old(self)@.attempt),
    {
        let wait = retry_delay(self.attempt);
        self.attempt = self.attempt + 1;
        self.last_error = Some(error);
        wait
    }

    /// Discards what is known of the file.
    fn forget(&mut self) -> (wait: u64)
        requires
            1 <= old(self)@.attempt <= MAX_ATTEMPTS,
        ensures
            final(self)@ == old(self)@.reset(),
            wait == pause_after(old(self)@.attempt),
    {
        self.metadata = ResumeMetadata::default();
        self.fail(
            DownloadError::InvalidRange(copy_text("remote file size changed; partial reset")),
        )
    }

    /// Where the bytes that an answer brings belong, and how many bytes the file has.
    fn place(head: &ResponseHead, offset: u64) -> (r: Result<(u64, Option<u64>), DownloadError>)
        ensures
            match r {
                Ok(p) => DownloadV::placed(head@, offset) == Ok::<
                    (u64, Option<u64>),
                    DownloadErrorV,
                >(p),
                Err(e) => DownloadV::placed(head@, offset) matches Err(v) && e@ == v,
            },
    {
        if head.status != 206 {
            return Ok((0, head.content_length));
        }
        match &head.content_range {
            None => Err(DownloadError::InvalidRange(copy_text("Content-Range missing"))),
            Some(v) => match parse_content_range(v.as_str()) {
                Err(e) => Err(e),
                Ok((start, total)) => {
                    if start != offset {
                        let text = cat4(
                            "requested byte ",
                            decimal_text(offset).as_str(),
                            ", received ",
                            decimal_text(start).as_str(),
                        );
                        Err(DownloadError::InvalidRange(text))
                    } else {
                        Ok((offset, total))
                    }
                },
            },
        }
    }

    /// What is known of a file that is fetched in segments.
    fn segmented(head: &ResponseHead, total: u64) -> (r: ResumeMetadata)
        requires
            head@.content_length == Some(total),
        ensures
            r@ == DownloadV::segmented(head@),
    {
        ResumeMetadata {
            etag: copy_opt(&head.etag),
            last_modified: copy_opt(&head.last_modified),
            total: Some(total),
            segments: Some(segment_count(total)),
        }
    }

    /// Learns of the file from an answer.
    fn learn(&mut self, head: &ResponseHead, total: Option<u64>)
        ensures
            final(self)@ == old(self)@.learnt(head@, total),
    {
        let etag = match &head.etag {
            Some(s) => Some(copy_text(s.as_str())),
            None => copy_opt(&self.metadata.etag),
        };
        let last_modified = match &head.last_modified {
            Some(s) => Some(copy_text(s.as_str())),
            None => copy_opt(&self.metadata.last_modified),
        };
        let size: Option<u64> = match total {
            Some(n) => Some(n),
            None => self.metadata.total,
        };
        self.metadata = ResumeMetadata { etag, last_modified, total: size, segments: None };
    }

    /// Takes an answer of success.
    fn accept(&mut self, head: &ResponseHead, offset: u64) -> (r: Step)
        requires
            1 <= old(self)@.attempt <= MAX_ATTEMPTS,
        ensures
            (final(self)@, r@) == old(self)@.accepted(head@, offset),
    {
        match Download::place(head, offset) {
            Err(e) => Step::Fail(e),
            Ok((place, total)) => {
                let changed = match (self.metadata.total, total) {
                    (Some(a), Some(b)) => a != b,
                    _ => false,
                };
                if place > 0 && changed {
                    Step::Reset(self.forget())
                } else {
                    self.learn(head, total);
                    Step::Receive { offset: place, discard: place < offset }
                }
            },
        }
    }

    /// Whether the file can be fetched in segments; if so, its bytes.
    fn divisible(head: &ResponseHead) -> (r: Option<u64>)
        ensures
            match r {
                Some(n) => head@.divisible() && head@.content_length == Some(n),
                None => !head@.divisible(),
            },
    {
        let ranges = match &head.accept_ranges {
            Some(s) => same_no_case(s.as_str(), "bytes"),
            None => false,
        };
        match head.content_length {
            Some(n) => if head.status == 200 && ranges && n >= SEGMENT_THRESHOLD {
                Some(n)
            } else {
                None
            },
            None => None,
        }
    }

    /// Takes the head of an answer, with so many bytes of the file there.
    pub fn answer(&mut self, head: &ResponseHead, offset: u64) -> (r: Step)
        requires
            1 <= old(self)@.attempt <= MAX_ATTEMPTS,
        ensures
            (final(self)@, r@) == old(self)@.answered(head@, offset),
    {
        let (shrunk, whole): (bool, bool) = match self.metadata.total {
            Some(t) => (offset > t, t == offset),
            None => (false, false),
        };
        if head.status == 416 && shrunk {
            return Step::Reset(self.forget());
        }
        if head.status == 416 && whole {
            return Step::Finish(DownloadOutcome::Completed { bytes: offset });
        }
        if !(200 <= head.status && head.status <= 299) {
            let text = copy_text(head.status_text.as_str());
            return Step::Retry(self.fail(DownloadError::Http(head.status, text)));
        }
        if !self.segmented_disabled && offset == 0 {
            match Download::divisible(head) {
                Some(total) => {
                    let metadata = Download::segmented(head, total);
                    let discard = !metadata_matches(&self.metadata, &metadata);
                    return Step::Segment { metadata, discard };
                },
                None => {},
            }
        }
        self.accept(head, offset)
    }

    /// Notes that the file cannot be fetched in segments: it is fetched as a whole from then on.
    pub fn undivide(&mut self)
        requires
            1 <= old(self)@.attempt <= MAX_ATTEMPTS,
        ensures
            final(self)@ == (DownloadV {
                attempt: (old(self)@.attempt + 1) as usize,
                metadata: nothing_known(),
                segmented_disabled: true,
                ..old(self)@
            }),
            final(self)@.wf(),
    {
        self.metadata = ResumeMetadata::default();
        self.segmented_disabled = true;
        self.attempt = self.attempt + 1;
    }

    /// What is reported while bytes arrive.
    pub fn progress(&self, offset: u64, downloaded: u64) -> (r: DownloadProgress)
        ensures
            r == (DownloadProgress {
                downloaded: capped(downloaded, self@.metadata.total),
                total: self@.metadata.total,
                session_bytes: if downloaded >= offset {
                    (downloaded - offset) as u64
                } else {
                    0
                },
                attempt: self@.attempt,
                workers: 1,
            }),
    {
        DownloadProgress {
            downloaded: cap_at_total(downloaded, self.metadata.total),
            total: self.metadata.total,
            session_bytes: if downloaded >= offset {
                downloaded - offset
            } else {
                0
            },
            attempt: self.attempt,
            workers: 1,
        }
    }

    /// Takes it that no more bytes come: the file is complete if it has the bytes expected, and
    /// otherwise the attempt has failed. The result is the last report, or for how many seconds to
    /// wait.
    pub fn end(&mut self, offset: u64, downloaded: u64) -> (r: Result<DownloadProgress, u64>)
        requires
            1 <= old(self)@.attempt <= MAX_ATTEMPTS,
        ensures
            match r {
                Ok(p) => {
                    &&& old(self)@.metadata.total is None || old(self)@.metadata.total == Some(
                        downloaded,
                    )
                    &&& *final(self) == *old(self)
                    &&& p == DownloadProgress {
                        downloaded,
                        total: Some(downloaded),
                        session_bytes: if downloaded >= offset {
                            (downloaded - offset) as u64
                        } else {
                            0
                        },
                        attempt: old(self)@.attempt,
                        workers: 1,
                    }
                },
                Err(wait) => {
                    &&& old(self)@.metadata.total is Some && old(self)@.metadata.total != Some(
                        downloaded,
                    )
                    &&& final(self)@ == old(self)@.failed(
                        DownloadErrorV::Incomplete {
                            downloaded,
                            expected: old(self)@.metadata.total->0,
                        },
                    )
                    &&& wait == pause_after(old(self)@.attempt)
                },
            },
    {
        match self.metadata.total {
            Some(expected) => {
                if downloaded != expected {
                    return Err(self.fail(DownloadError::Incomplete { downloaded, expected }));
                }
            },
            None => {},
        }
        Ok(
            DownloadProgress {
                downloaded,
                total: Some(downloaded),
                session_bytes: if downloaded >= offset {
                    downloaded - offset
                } else {
                    0
                },
                attempt: self.attempt,
                workers: 1,
            },
        )
    }
}

/// What was downloaded is discarded only where the server begins anew, or where the size of the file
/// has changed.
pub proof fn law_part_is_kept(d: DownloadV, head: ResponseHeadV, offset: u64)
    requires
        head.status == 206,
        d.metadata.total is None || head.content_range is None || content_range(
            head.content_range->0,
        ) is Err || content_range(head.content_range->0)->Ok_0.1 is None
            || content_range(head.content_range->0)->Ok_0.1 == Some(d.metadata.total->0 as nat),
    ensures
        !(d.answered(head, offset).1 is Reset),
        d.answered(head, offset).1 matches StepV::Receive { offset: o, discard } ==> o == offset
            && !discard,
{
    if head.content_range is Some {
        match content_range(head.content_range->0) {
            Ok((start, total)) => {
                if total is Some {
                    assert(total->0 <= u64::MAX) by {
                        lemma_content_range_bounds(head.content_range->0);
                    }
                }
            },
            Err(_) => {},
        }
    }
}

/// The numbers of a `Content-Range` fit.
pub proof fn lemma_content_range_bounds(v: Seq<char>)
    ensures
        content_range(v) matches Ok(p) ==> p.0 <= u64::MAX && (p.1 is Some ==> p.1->0 <= u64::MAX),
{
}

/// What is reported as downloaded is never more than is expected.
pub proof fn law_progress_within_total(downloaded: u64, total: u64)
    ensures
        capped(downloaded, Some(total)) <= total,
{
}

// ---------------------------------------------------------------------------
// The download of one segment
// ---------------------------------------------------------------------------

/// The download of one segment of a file.
pub struct SegmentJob {
    /// The first byte.
    pub start: u64,
    /// The last byte.
    pub end: u64,
    /// The bytes of the file.
    pub total: u64,
    /// What tells whether the file has changed.
    pub validator: Option<String>,
    /// The attempt, from one on.
    pub attempt: usize,
    /// Why the attempt before has failed.
    pub last_error: Option<DownloadError>,
}

/// What the download of one segment means.
pub struct SegmentJobV {
    /// The first byte.
    pub start: u64,
    /// The last byte.
    pub end: u64,
    /// The bytes of the file.
    pub total: u64,
    /// What tells whether the file has changed.
    pub validator: Option<Seq<char>>,
    /// The attempt, from one on.
    pub attempt: usize,
    /// Why the attempt before has failed.
    pub last_error: Option<DownloadErrorV>,
}

impl View for SegmentJob {
    type V = SegmentJobV;

    open spec fn view(&self) -> SegmentJobV {
        SegmentJobV {
            start: self.start,
            end: self.end,
            total: self.total,
            validator: text_opt(self.validator),
            attempt: self.attempt,
            last_error: error_opt(self.last_error),
        }
    }
}

/// How an attempt at a segment begins.
pub enum SegmentBegin {
    /// The segment is complete.
    Done,
    /// It is not made, and the download has failed or is paused.
    Fail(DownloadError),
    /// A request is made, with so many bytes of the segment there.
    Ask(u64, RangeRequest),
}

/// What an answer for a segment leads to.
pub enum SegmentStep {
    /// The next attempt follows after some seconds.
    Retry(u64),
    /// The download has failed.
    Fail(DownloadError),
    /// The bytes that follow belong behind those there.
    Receive,
}

impl SegmentJobV {
    /// Whether the segment is one of the file, and the attempt one that can be made or follows the
    /// last.
    pub open spec fn wf(self) -> bool {
        &&& self.start <= self.end < self.total
        &&& 1 <= self.attempt <= MAX_ATTEMPTS + 1
    }

    /// The bytes of the segment.
    pub open spec fn expected(self) -> int {
        self.end - self.start + 1
    }

    /// How many of the bytes in a file belong to the segment.
    pub open spec fn existing(self, len: u64) -> int {
        if len <= self.expected() {
            len as int
        } else {
            self.expected()
        }
    }

    /// After an attempt has failed.
    pub open spec fn failed(self, e: DownloadErrorV) -> SegmentJobV {
        SegmentJobV { attempt: (self.attempt + 1) as usize, last_error: Some(e), ..self }
    }

    /// What is refused in an answer to a request from a byte on, if anything is.
    pub open spec fn mismatch(self, range: Option<Seq<char>>, from: int) -> Option<DownloadErrorV> {
        match range {
            None => Some(DownloadErrorV::InvalidRange("Content-Range missing"@)),
            Some(v) => match content_range(v) {
                Err(s) => Some(DownloadErrorV::InvalidRange(s)),
                Ok((start, total)) => if start != from || total != Some(self.total as nat) {
                    Some(
                        DownloadErrorV::InvalidRange(
                            "worker requested "@ + decimal(from as nat) + "-"@ + decimal(
                                self.end as nat,
                            ) + "/"@ + decimal(self.total as nat) + ", received "@ + v,
                        ),
                    )
                } else {
                    None
                },
            },
        }
    }
}

impl SegmentJob {
    /// The first attempt at a segment.
    pub fn new(start: u64, end: u64, total: u64, validator: Option<String>) -> (r: SegmentJob)
        requires
            start <= end < total,
        ensures
            r@ == (SegmentJobV {
                start,
                end,
                total,
                validator: text_opt(validator),
                attempt: 1,
                last_error: None,
            }),
            r@.wf(),
    {
        SegmentJob { start, end, total, validator, attempt: 1, last_error: None }
    }

    /// The bytes of the segment.
    pub fn expected(&self) -> (r: u64)
        requires
            self@.wf(),
        ensures
            r == self@.expected(),
    {
        self.end - self.start + 1
    }

    /// Begins an attempt, with a file of so many bytes there.
    pub fn begin(&mut self, cancelled: bool, len: u64) -> (r: SegmentBegin)
        requires
            old(self)@.wf(),
        ensures
            r is Fail && old(self)@.attempt > MAX_ATTEMPTS ==> final(self)@ == (SegmentJobV {
                last_error: None,
                ..old(self)@
            }),
            !(r is Fail && old(self)@.attempt > MAX_ATTEMPTS) ==> *final(self) == *old(self),
            match r {
                SegmentBegin::Fail(e) => if old(self)@.attempt > MAX_ATTEMPTS {
                    e@ == (match old(self)@.last_error {
                        Some(e) => e,
                        None => DownloadErrorV::Incomplete {
                            downloaded: len,
                            expected: old(self)@.expected() as u64,
                        },
                    })
                } else {
                    cancelled && e@ == DownloadErrorV::Paused
                },
                SegmentBegin::Done => old(self)@.attempt <= MAX_ATTEMPTS && !cancelled && old(
                    self,
                )@.existing(len) == old(self)@.expected(),
                SegmentBegin::Ask(existing, q) => {
                    &&& old(self)@.attempt <= MAX_ATTEMPTS && !cancelled
                    &&& existing == old(self)@.existing(len) && existing < old(self)@.expected()
                    &&& text_opt(q.range) == Some(
                        "bytes="@ + decimal((old(self)@.start + existing) as nat) + "-"@ + decimal(
                            old(self)@.end as nat,
                        ),
                    )
                    &&& text_opt(q.if_range) == old(self)@.validator
                },
            },
    {
        let expected = self.expected();
        if self.attempt > MAX_ATTEMPTS {
            let error = match self.last_error.take() {
                Some(e) => e,
                None => DownloadError::Incomplete { downloaded: len, expected },
            };
            return SegmentBegin::Fail(error);
        }
        if cancelled {
            return SegmentBegin::Fail(DownloadError::Paused);
        }
        let existing: u64 = if len <= expected {
            len
        } else {
            expected
        };
        if existing == expected {
            return SegmentBegin::Done;
        }
        let range = cat4(
            "bytes=",
            decimal_text(self.start + existing).as_str(),
            "-",
            decimal_text(self.end).as_str(),
        );
        let if_range = copy_opt(&self.validator);
        SegmentBegin::Ask(existing, RangeRequest { range: Some(range), if_range })
    }

    /// Notes that an attempt has failed. The result says for how many seconds to wait.
    pub fn fail(&mut self, error: DownloadError) -> (wait: u64)
        requires
            old(self)@.wf(),
            old(self)@.attempt <= MAX_ATTEMPTS,
        ensures
            final(self)@ == old(self)@.failed(error@),
            final(self)@.wf(),
            wait == pause_after(old(self)@.attempt),
    {
        let wait = retry_delay(self.attempt);
        self.attempt = self.attempt + 1;
        self.last_error = Some(error);
        wait
    }

    /// What is refused in an answer to a request from a byte on, if anything is.
    fn mismatch(&self, range: &Option<String>, from: u64) -> (r: Option<DownloadError>)
        ensures
            error_opt(r) == self@.mismatch(text_opt(*range), from as int),
    {
        match range {
            None => Some(DownloadError::InvalidRange(copy_text("Content-Range missing"))),
            Some(v) => match parse_content_range(v.as_str()) {
                Err(e) => Some(e),
                Ok((start, total)) => {
                    let whole = match total {
                        Some(n) => n == self.total,
                        None => false,
                    };
                    if start != from || !whole {
                        let mut text = cat5(
                            "worker requested ",
                            decimal_text(from).as_str(),
                            "-",
                            decimal_text(self.end).as_str(),
                            "/",
                        );
                        text.append(decimal_text(self.total).as_str());
                        text.append(", received ");
                        text.append(v.as_str());
                        Some(DownloadError::InvalidRange(text))
                    } else {
                        None
                    }
                },
            },
        }
    }

    /// Takes the head of an answer, with so many bytes of the segment there. Only the part that was
    /// asked for is taken.
    pub fn answer(&mut self, head: &ResponseHead, existing: u64) -> (r: SegmentStep)
        requires
            old(self)@.wf(),
            old(self)@.attempt <= MAX_ATTEMPTS,
            existing < old(self)@.expected(),
        ensures
            match r {
                SegmentStep::Retry(wait) => head@.status != 206 && wait == pause_after(
                    old(self)@.attempt,
                ) && final(self)@ == old(self)@.failed(
                    DownloadErrorV::InvalidRange(
                        "worker expected HTTP 206, received "@ + head@.status_text,
                    ),
                ),
                SegmentStep::Fail(e) => head@.status == 206 && *final(self) == *old(self) && old(
                    self,
                )@.mismatch(head@.content_range, old(self)@.start + existing) == Some(e@),
                SegmentStep::Receive => head@.status == 206 && *final(self) == *old(self) && old(
                    self,
                )@.mismatch(head@.content_range, old(self)@.start + existing) is None,
            },
    {
        if head.status != 206 {
            let text = cat2("worker expected HTTP 206, received ", head.status_text.as_str());
            return SegmentStep::Retry(self.fail(DownloadError::InvalidRange(text)));
        }
        match self.mismatch(&head.content_range, self.start + existing) {
            Some(e) => SegmentStep::Fail(e),
            None => SegmentStep::Receive,
        }
    }

    /// How many bytes of a piece belong to the segment, with so many written: never more than are
    /// missing.
    pub fn take(&self, written: u64, piece: usize) -> (r: usize)
        requires
            self@.wf(),
            written <= self@.expected(),
        ensures
            r <= piece,
            written + r <= self@.expected(),
            r == piece || written + r == self@.expected(),
    {
        let remaining: u64 = self.expected() - written;
        if piece as u64 <= remaining {
            piece
        } else {
            remaining as usize
        }
    }

    /// Takes it that no more bytes come, with so many written. The result says for how many seconds
    /// to wait.
    pub fn end(&mut self, written: u64) -> (wait: u64)
        requires
            old(self)@.wf(),
            old(self)@.attempt <= MAX_ATTEMPTS,
        ensures
            final(self)@ == old(self)@.failed(
                DownloadErrorV::Incomplete {
                    downloaded: written,
                    expected: old(self)@.expected() as u64,
                },
            ),
            final(self)@.wf(),
            wait == pause_after(old(self)@.attempt),
    {
        let expected = self.expected();
        self.fail(DownloadError::Incomplete { downloaded: written, expected })
    }
}

// ---------------------------------------------------------------------------
// The download in segments
// ---------------------------------------------------------------------------

/// The download of a file in segments.
pub struct Segmented {
    /// The bytes of the file.
    pub total: u64,
    /// The first and the last bytes of the segments.
    pub ranges: Vec<(u64, u64)>,
    /// What tells whether the file has changed.
    pub validator: Option<String>,
    /// The bytes of each segment that are there.
    pub parts: Vec<u64>,
    /// The bytes that were there at the start.
    pub initial: u64,
    /// The bytes that are there.
    pub downloaded: u64,
    /// The segments that are complete.
    pub finished: usize,
}

/// What the end of the work on one segment means.
pub enum WorkerEnd {
    /// The segment is complete.
    Done,
    /// It has failed, or is paused.
    Failed(DownloadError),
    /// The work has stopped for another reason.
    Stopped(String),
}

/// The bytes of a segment.
pub open spec fn range_len(r: (u64, u64)) -> int {
    r.1 - r.0 + 1
}

/// How many bytes of a segment a file of a length gives: all, or none if it is too long.
pub open spec fn usable_len(r: (u64, u64), len: u64) -> int {
    if len > range_len(r) {
        0
    } else {
        len as int
    }
}

/// The bytes that files give of the first `n` segments.
pub open spec fn usable_sum(ranges: Seq<(u64, u64)>, lens: Seq<u64>, n: int) -> int
    decreases n,
{
    if n <= 0 {
        0
    } else {
        usable_sum(ranges, lens, n - 1) + usable_len(ranges[n - 1], lens[n - 1])
    }
}

/// Files that hold nothing give nothing.
proof fn lemma_nothing_usable(ranges: Seq<(u64, u64)>, lens: Seq<u64>, n: int)
    requires
        0 <= n <= lens.len() == ranges.len(),
        forall|i: int| 0 <= i < lens.len() ==> #[trigger] lens[i] == 0,
    ensures
        usable_sum(ranges, lens, n) == 0,
    decreases n,
{
    if n > 0 {
        lemma_nothing_usable(ranges, lens, n - 1);
        assert(lens[n - 1] == 0);
    }
}

/// Counting what is usable of what is usable changes nothing.
proof fn lemma_same_usable(ranges: Seq<(u64, u64)>, lens: Seq<u64>, parts: Seq<u64>, n: int)
    requires
        0 <= n <= lens.len() == ranges.len() == parts.len(),
        forall|i: int|
            0 <= i < parts.len() ==> #[trigger] parts[i] == usable_len(ranges[i], lens[i]),
        forall|i: int| 0 <= i < parts.len() ==> #[trigger] parts[i] <= range_len(ranges[i]),
    ensures
        usable_sum(ranges, parts, n) == usable_sum(ranges, lens, n),
    decreases n,
{
    if n > 0 {
        lemma_same_usable(ranges, lens, parts, n - 1);
        assert(parts[n - 1] == usable_len(ranges[n - 1], lens[n - 1]));
    }
}

/// More bytes of one segment are so many more in all.
proof fn lemma_usable_update(ranges: Seq<(u64, u64)>, parts: Seq<u64>, i: int, len: u64, n: int)
    requires
        0 <= n <= ranges.len() == parts.len(),
        0 <= i < parts.len(),
        parts[i] <= range_len(ranges[i]),
        len <= range_len(ranges[i]),
    ensures
        usable_sum(ranges, parts.update(i, len), n) == usable_sum(ranges, parts, n) + (if i < n {
            len - parts[i]
        } else {
            0
        }),
    decreases n,
{
    if n > 0 {
        lemma_usable_update(ranges, parts, i, len, n - 1);
    }
}

/// What is taken of a piece for a segment, behind the bytes of it that are there, is no more than is
/// missing of it.
pub proof fn law_taken_is_missing(s: Segmented, i: int, job: SegmentJobV, taken: int)
    requires
        s.wf(),
        0 <= i < s.ranges@.len(),
        job.start == s.ranges@[i].0,
        job.end == s.ranges@[i].1,
        s.parts@[i] + taken <= job.expected(),
    ensures
        taken <= s.missing_of(i),
{
}

impl Segmented {
    /// Whether the segments are those of the file.
    pub open spec fn divided(self) -> bool {
        &&& 1 <= self.ranges@.len() <= self.total
        &&& forall|i: int|
            0 <= i < self.ranges@.len() ==> (#[trigger] self.ranges@[i]).0 == segment_range(
                self.total as int,
                self.ranges@.len() as int,
                i,
            ).0 && self.ranges@[i].1 == segment_range(
                self.total as int,
                self.ranges@.len() as int,
                i,
            ).1
    }

    /// Whether the segments are those of the file, no more is there of any than belongs to it, and the
    /// bytes that are there are those of the segments.
    pub open spec fn wf(self) -> bool {
        &&& self.divided()
        &&& self.parts@.len() == self.ranges@.len()
        &&& forall|i: int|
            0 <= i < self.parts@.len() ==> #[trigger] self.parts@[i] <= range_len(self.ranges@[i])
        &&& self.downloaded == usable_sum(self.ranges@, self.parts@, self.ranges@.len() as int)
        &&& self.initial <= self.downloaded
    }

    /// The bytes of a segment that are missing.
    pub open spec fn missing_of(self, i: int) -> int {
        range_len(self.ranges@[i]) - self.parts@[i]
    }

    /// The segments in which a file is fetched.
    pub fn new(metadata: &ResumeMetadata) -> (r: Result<Segmented, DownloadError>)
        requires
            metadata@.total is Some ==> (match metadata@.segments {
                Some(n) => 1 <= n <= metadata@.total->0,
                None => 2 <= metadata@.total->0,
            }),
        ensures
            match r {
                Ok(s) => {
                    &&& metadata@.total == Some(s.total)
                    &&& s.ranges@.len() == (match metadata@.segments {
                        Some(n) => n,
                        None => segments_for(s.total),
                    })
                    &&& s.wf()
                    &&& text_opt(s.validator) == metadata@.validator()
                    &&& s.initial == 0 && s.downloaded == 0 && s.finished == 0
                    &&& forall|i: int| 0 <= i < s.parts@.len() ==> #[trigger] s.parts@[i] == 0
                },
                Err(e) => metadata@.total is None && e@ == DownloadErrorV::InvalidRange(
                    "segment total missing"@,
                ),
            },
    {
        let total = match metadata.total {
            Some(n) => n,
            None => {
                return Err(DownloadError::InvalidRange(copy_text("segment total missing")));
            },
        };
        let segments: usize = match metadata.segments {
            Some(n) => n,
            None => segment_count(total),
        };
        let ranges = segment_ranges(total, segments);
        let mut parts: Vec<u64> = Vec::new();
        let mut i: usize = 0;
        while i < ranges.len()
            invariant
                i <= ranges@.len(),
                parts@.len() == i,
                forall|j: int| 0 <= j < i ==> #[trigger] parts@[j] == 0,
            decreases ranges@.len() - i,
        {
            parts.push(0);
            i = i + 1;
        }
        let r = Segmented {
            total,
            ranges,
            validator: validator_of(metadata),
            parts,
            initial: 0,
            downloaded: 0,
            finished: 0,
        };
        proof {
            let k = r.ranges@.len() as int;
            assert forall|j: int| 0 <= j < r.parts@.len() implies #[trigger] r.parts@[j] <= range_len(
                r.ranges@[j],
            ) by {
                law_segments_cover(total as int, k, j);
            }
            lemma_nothing_usable(r.ranges@, r.parts@, k);
        }
        Ok(r)
    }

    /// Whether the file of a segment has to be emptied: it is longer than the segment.
    pub fn overlong(&self, i: usize, len: u64) -> (r: bool)
        requires
            self.divided(),
            i < self.ranges@.len(),
        ensures
            r == (len > range_len(self.ranges@[i as int])),
    {
        let (a, b) = self.ranges[i];
        proof {
            law_segments_cover(self.total as int, self.ranges@.len() as int, i as int);
        }
        len > b - a + 1
    }

    /// What files of the first segments give is no more than lies before the next.
    proof fn lemma_usable_sum(self, lens: Seq<u64>, n: int)
        requires
            self.divided(),
            lens.len() == self.ranges@.len(),
            0 <= n <= self.ranges@.len(),
        ensures
            0 <= usable_sum(self.ranges@, lens, n) <= (if n == self.ranges@.len() {
                self.total as int
            } else {
                self.ranges@[n].0 as int
            }),
        decreases n,
    {
        let total = self.total as int;
        let k = self.ranges@.len() as int;
        law_segments_cover(total, k, 0);
        if n > 0 {
            self.lemma_usable_sum(lens, n - 1);
            law_segments_cover(total, k, n - 1);
            assert(self.ranges@[n - 1].1 - self.ranges@[n - 1].0 >= 0);
            if n < k {
                assert(self.ranges@[n].0 == self.ranges@[n - 1].1 + 1);
            }
        }
    }

    /// Takes the lengths of the files of the segments at the start.
    pub fn resume(&mut self, lens: &Vec<u64>)
        requires
            old(self).wf(),
            lens@.len() == old(self).ranges@.len(),
        ensures
            final(self).wf(),
            final(self).total == old(self).total,
            final(self).ranges@ == old(self).ranges@,
            final(self).validator == old(self).validator,
            final(self).finished == old(self).finished,
            forall|i: int|
                0 <= i < lens@.len() ==> #[trigger] final(self).parts@[i] == usable_len(
                    old(self).ranges@[i],
                    lens@[i],
                ),
            final(self).initial == usable_sum(
                old(self).ranges@,
                lens@,
                old(self).ranges@.len() as int,
            ),
            final(self).downloaded == final(self).initial,
            final(self).initial <= final(self).total,
    {
        let mut sum: u64 = 0;
        let mut parts: Vec<u64> = Vec::new();
        let mut i: usize = 0;
        while i < self.ranges.len()
            invariant
                i <= self.ranges@.len() == lens@.len(),
                self.divided(),
                *self == *old(self),
                parts@.len() == i,
                forall|j: int|
                    0 <= j < i ==> #[trigger] parts@[j] == usable_len(self.ranges@[j], lens@[j]),
                sum == usable_sum(self.ranges@, lens@, i as int),
            decreases self.ranges@.len() - i,
        {
            proof {
                self.lemma_usable_sum(lens@, i + 1);
                self.lemma_usable_sum(lens@, i as int);
                law_segments_cover(self.total as int, self.ranges@.len() as int, i as int);
            }
            if self.overlong(i, lens[i]) {
                parts.push(0);
            } else {
                sum = sum + lens[i];
                parts.push(lens[i]);
            }
            i = i + 1;
        }
        proof {
            let k = self.ranges@.len() as int;
            self.lemma_usable_sum(lens@, k);
            assert forall|j: int| 0 <= j < k implies #[trigger] parts@[j] <= range_len(
                self.ranges@[j],
            ) by {
                law_segments_cover(self.total as int, k, j);
            }
            lemma_same_usable(self.ranges@, lens@, parts@, k);
        }
        self.parts = parts;
        self.initial = sum;
        self.downloaded = sum;
    }

    /// The bytes of a segment that are missing.
    pub fn missing(&self, i: usize) -> (r: u64)
        requires
            self.wf(),
            i < self.ranges@.len(),
        ensures
            r == self.missing_of(i as int),
    {
        let (a, b) = self.ranges[i];
        proof {
            law_segments_cover(self.total as int, self.ranges@.len() as int, i as int);
            assert(self.parts@[i as int] <= range_len(self.ranges@[i as int]));
        }
        b - a + 1 - self.parts[i]
    }

    /// Takes it that bytes of a segment have arrived, in an attempt at it. The result is what is
    /// reported: never more than the file has.
    pub fn arrived(&mut self, i: usize, bytes: u64, attempt: usize) -> (r: DownloadProgress)
        requires
            old(self).wf(),
            i < old(self).ranges@.len(),
            bytes <= old(self).missing_of(i as int),
        ensures
            final(self).wf(),
            final(self).total == old(self).total,
            final(self).ranges == old(self).ranges,
            final(self).validator == old(self).validator,
            final(self).finished == old(self).finished,
            final(self).initial == old(self).initial,
            final(self).parts@ == old(self).parts@.update(
                i as int,
                (old(self).parts@[i as int] + bytes) as u64,
            ),
            final(self).downloaded == old(self).downloaded + bytes,
            r == (DownloadProgress {
                downloaded: final(self).downloaded,
                total: Some(old(self).total),
                session_bytes: (final(self).downloaded - old(self).initial) as u64,
                attempt,
                workers: old(self).ranges@.len() as usize,
            }),
            r.downloaded <= old(self).total,
    {
        let workers: usize = self.ranges.len();
        let ghost before = *self;
        let part: u64 = self.parts[i];
        proof {
            let k = self.ranges@.len() as int;
            law_segments_cover(self.total as int, k, i as int);
            assert(self.parts@[i as int] <= range_len(self.ranges@[i as int]));
            let after = self.parts@.update(i as int, (part + bytes) as u64);
            lemma_usable_update(self.ranges@, self.parts@, i as int, (part + bytes) as u64, k);
            self.lemma_usable_sum(after, k);
        }
        self.parts.set(i, part + bytes);
        self.downloaded = self.downloaded + bytes;
        assert(self.parts@ =~= before.parts@.update(i as int, (part + bytes) as u64));
        DownloadProgress {
            downloaded: self.downloaded,
            total: Some(self.total),
            session_bytes: self.downloaded - self.initial,
            attempt,
            workers,
        }
    }

    /// Takes the end of the work on one segment. The result is the end of the download, if it is one.
    pub fn worker_ended(&mut self, end: WorkerEnd) -> (r: Option<
        Result<DownloadOutcome, DownloadError>,
    >)
        requires
            old(self).finished < old(self).ranges@.len(),
        ensures
            match end {
                WorkerEnd::Done => r is None && *final(self) == (Segmented {
                    finished: (old(self).finished + 1) as usize,
                    ..*old(self)
                }),
                WorkerEnd::Failed(e) => *final(self) == *old(self) && (if e is Paused {
                    r == Some(
                        Ok::<DownloadOutcome, DownloadError>(
                            DownloadOutcome::Paused { bytes: old(self).downloaded },
                        ),
                    )
                } else {
                    r == Some(Err::<DownloadOutcome, DownloadError>(e))
                }),
                WorkerEnd::Stopped(s) => *final(self) == *old(self) && r is Some && r->0 is Err
                    && r->0->Err_0@ == DownloadErrorV::InvalidRange(
                    "download worker stopped: "@ + s@,
                ),
            },
    {
        match end {
            WorkerEnd::Done => {
                assert(self.ranges.len() == self.ranges@.len());
                self.finished = self.finished + 1;
                None
            },
            WorkerEnd::Failed(DownloadError::Paused) => Some(
                Ok(DownloadOutcome::Paused { bytes: self.downloaded }),
            ),
            WorkerEnd::Failed(e) => Some(Err(e)),
            WorkerEnd::Stopped(s) => {
                let text = cat2("download worker stopped: ", s.as_str());
                Some(Err(DownloadError::InvalidRange(text)))
            },
        }
    }

    /// Whether all segments are complete.
    pub fn complete(&self) -> (r: bool)
        ensures
            r == (self.finished >= self.ranges@.len()),
    {
        self.finished >= self.ranges.len()
    }

    /// Takes the length of the file that the segments were put together in.
    pub fn assembled(&self, len: u64) -> (r: Result<DownloadOutcome, DownloadError>)
        ensures
            match r {
                Ok(o) => len == self.total && o == DownloadOutcome::Completed { bytes: self.total },
                Err(e) => len != self.total && e@ == DownloadErrorV::Incomplete {
                    downloaded: len,
                    expected: self.total,
                },
            },
    {
        if len != self.total {
            Err(DownloadError::Incomplete { downloaded: len, expected: self.total })
        } else {
            Ok(DownloadOutcome::Completed { bytes: self.total })
        }
    }

    /// The last report of a file that is complete.
    pub fn last_report(&self) -> (r: DownloadProgress)
        ensures
            r == (DownloadProgress {
                downloaded: self.total,
                total: Some(self.total),
                session_bytes: if self.total >= self.initial {
                    (self.total - self.initial) as u64
                } else {
                    0
                },
                attempt: 1,
                workers: self.ranges@.len() as usize,
            }),
    {
        DownloadProgress {
            downloaded: self.total,
            total: Some(self.total),
            session_bytes: if self.total >= self.initial {
                self.total - self.initial
            } else {
                0
            },
            attempt: 1,
            workers: self.ranges.len(),
        }
    }
}

/// Four attempts that fail end a download, whatever fails in them.
pub proof fn law_attempts_end(
    d: DownloadV,
    a: DownloadErrorV,
    b: DownloadErrorV,
    c: DownloadErrorV,
    e: DownloadErrorV,
)
    requires
        d.attempt == 1,
    ensures
        d.failed(a).failed(b).failed(c).failed(e).attempt > MAX_ATTEMPTS,
        d.failed(a).failed(b).failed(c).failed(e).last_error == Some(e),
{
}

/// The segments of a file, complete and put together in their order, have the bytes of the file.
pub proof fn law_segments_add_up(s: Segmented, lens: Seq<u64>, n: int)
    requires
        s.wf(),
        lens.len() == s.ranges@.len(),
        0 <= n <= s.ranges@.len(),
        forall|i: int| 0 <= i < lens.len() ==> #[trigger] lens[i] == range_len(s.ranges@[i]),
    ensures
        usable_sum(s.ranges@, lens, n) == (if n == s.ranges@.len() {
            s.total as int
        } else {
            s.ranges@[n].0 as int
        }),
    decreases n,
{
    let total = s.total as int;
    let k = s.ranges@.len() as int;
    law_segments_cover(total, k, 0);
    if n > 0 {
        law_segments_add_up(s, lens, n - 1);
        law_segments_cover(total, k, n - 1);
        assert(lens[n - 1] == range_len(s.ranges@[n - 1]));
        if n < k {
            assert(s.ranges@[n].0 == s.ranges@[n - 1].1 + 1);
        }
    }
}

// ---------------------------------------------------------------------------
// What answers lead to
// ---------------------------------------------------------------------------

/// Whether two known texts differ.
pub open spec fn differ(a: Option<Seq<char>>, b: Option<Seq<char>>) -> bool {
    a is Some && b is Some && a->0 != b->0
}

/// A whole file of at least 32 MiB from a server that takes ranges is fetched in segments, unless that
/// is ruled out: in two below 256 MiB, in four below 2 GiB, else in eight. The segments of an earlier
/// download are kept unless size or number of segments differ, or the tags do, or, where there are
/// not two tags to compare, the dates.
pub proof fn law_segments_are_kept(d: DownloadV, head: ResponseHeadV, total: u64)
    requires
        !d.segmented_disabled,
        head.status == 200,
        head.accept_ranges is Some && lower_text(head.accept_ranges->0) == "bytes"@,
        head.content_length == Some(total),
        total >= 33_554_432,
    ensures
        ({
            let n: usize = if total < 268_435_456 {
                2
            } else if total < 2_147_483_648 {
                4
            } else {
                8
            };
            let known = d.metadata;
            let other_file = if known.etag is Some && head.etag is Some {
                differ(known.etag, head.etag)
            } else {
                differ(known.last_modified, head.last_modified)
            };
            &&& d.answered(head, 0).0 == d
            &&& d.answered(head, 0).1 matches StepV::Segment { metadata, discard } && {
                &&& metadata.etag == head.etag
                &&& metadata.last_modified == head.last_modified
                &&& metadata.total == Some(total)
                &&& metadata.segments == Some(n)
                &&& discard <==> known.total != Some(total) || known.segments != Some(n)
                    || other_file
            }
        }),
{
    reveal_strlit("bytes");
    assert(lower_text("bytes"@) =~= "bytes"@);
}

/// Only a whole file of at least 32 MiB, asked for from its first byte of a server that takes ranges,
/// is fetched in segments.
pub proof fn law_divided_only_if_large(d: DownloadV, head: ResponseHeadV, offset: u64)
    requires
        d.answered(head, offset).1 is Segment,
    ensures
        !d.segmented_disabled,
        offset == 0,
        head.status == 200,
        head.content_length is Some && head.content_length->0 >= 33_554_432,
        head.accept_ranges is Some && lower_text(head.accept_ranges->0) == "bytes"@,
{
    reveal_strlit("bytes");
    assert(lower_text("bytes"@) =~= "bytes"@);
}

/// A part of the file that begins where the part there ends is put behind it: nothing of what is
/// there is discarded, and what the answer says of the file is remembered before what was known.
pub proof fn law_resumes_where_it_left_off(
    d: DownloadV,
    head: ResponseHeadV,
    offset: u64,
    end: u64,
    total: u64,
)
    requires
        head.status == 206,
        head.content_range == Some(
            "bytes "@ + decimal(offset as nat) + "-"@ + decimal(end as nat) + "/"@ + decimal(
                total as nat,
            ),
        ),
        d.metadata.total is None || d.metadata.total == Some(total),
    ensures
        d.answered(head, offset).1 == (StepV::Receive { offset, discard: false }),
        d.answered(head, offset).0.attempt == d.attempt,
        d.answered(head, offset).0.metadata.total == Some(total),
        d.answered(head, offset).0.metadata.etag == (if head.etag is Some {
            head.etag
        } else {
            d.metadata.etag
        }),
        d.answered(head, offset).0.metadata.last_modified == (if head.last_modified is Some {
            head.last_modified
        } else {
            d.metadata.last_modified
        }),
{
    law_content_range_read_back(offset, end, total);
}

/// A part that begins elsewhere is refused, and nothing is changed.
pub proof fn law_another_part_is_refused(
    d: DownloadV,
    head: ResponseHeadV,
    offset: u64,
    start: u64,
    end: u64,
    total: u64,
)
    requires
        head.status == 206,
        start != offset,
        head.content_range == Some(
            "bytes "@ + decimal(start as nat) + "-"@ + decimal(end as nat) + "/"@ + decimal(
                total as nat,
            ),
        ),
    ensures
        d.answered(head, offset).1 is Fail,
        d.answered(head, offset).0 == d,
{
    law_content_range_read_back(start, end, total);
}

/// Where the size of the file has changed, what is there and what is known is given up.
pub proof fn law_changed_size_starts_over(
    d: DownloadV,
    head: ResponseHeadV,
    offset: u64,
    end: u64,
    total: u64,
)
    requires
        head.status == 206,
        offset > 0,
        d.metadata.total is Some && d.metadata.total->0 != total,
        d.attempt <= 4,
        head.content_range == Some(
            "bytes "@ + decimal(offset as nat) + "-"@ + decimal(end as nat) + "/"@ + decimal(
                total as nat,
            ),
        ),
    ensures
        d.answered(head, offset).1 is Reset,
        d.answered(head, offset).0.attempt == d.attempt + 1,
        d.answered(head, offset).0.metadata.total is None,
        d.answered(head, offset).0.metadata.etag is None,
        d.answered(head, offset).0.metadata.last_modified is None,
{
    law_content_range_read_back(offset, end, total);
}

/// A server that sends the whole file has it received from its first byte, and what was there is
/// discarded if there was anything.
pub proof fn law_whole_file_replaces_part(d: DownloadV, head: ResponseHeadV, offset: u64)
    requires
        200 <= head.status <= 299,
        head.status != 206,
        offset > 0 || d.segmented_disabled || head.accept_ranges is None,
    ensures
        d.answered(head, offset).1 == (StepV::Receive { offset: 0, discard: offset > 0 }),
        d.answered(head, offset).0.metadata.total == (if head.content_length is Some {
            head.content_length
        } else {
            d.metadata.total
        }),
        d.answered(head, offset).0.metadata.segments is None,
{
}

/// A server that has nothing behind the part that is there ends the download if the part is the whole
/// file, and has it started over if the part is longer than the file was.
pub proof fn law_nothing_behind_the_part(d: DownloadV, head: ResponseHeadV, offset: u64)
    requires
        head.status == 416,
        d.metadata.total is Some,
    ensures
        offset == d.metadata.total->0 ==> d.answered(head, offset) == (
            d,
            StepV::Finish(DownloadOutcome::Completed { bytes: offset }),
        ),
        offset > d.metadata.total->0 ==> d.answered(head, offset).1 is Reset && d.answered(
            head,
            offset,
        ).0.metadata.total is None,
        offset < d.metadata.total->0 ==> d.answered(head, offset).1 is Retry && d.answered(
            head,
            offset,
        ).0.metadata == d.metadata,
{
}

/// Any other refusal counts as a failed attempt: what is known is kept, and the next attempt follows
/// after one, two and four seconds, in this order.
pub proof fn law_refusals_are_retried(d: DownloadV, head: ResponseHeadV, offset: u64)
    requires
        !(200 <= head.status <= 299),
        head.status != 416,
        1 <= d.attempt <= 4,
    ensures
        d.answered(head, offset).0.metadata == d.metadata,
        d.answered(head, offset).0.attempt == d.attempt + 1,
        d.answered(head, offset).0.last_error == Some(
            DownloadErrorV::Http(head.status, head.status_text),
        ),
        d.attempt == 1 ==> d.answered(head, offset).1 == StepV::Retry(1),
        d.attempt == 2 ==> d.answered(head, offset).1 == StepV::Retry(2),
        d.attempt == 3 ==> d.answered(head, offset).1 == StepV::Retry(4),
        d.attempt == 4 ==> d.answered(head, offset).1 == StepV::Retry(0),
{
}

/// An answer for a segment is taken exactly if it begins with the byte that was asked for, of a file
/// of the size that is known.
pub proof fn law_segment_takes_what_it_asked_for(
    job: SegmentJobV,
    from: u64,
    start: u64,
    end: u64,
    total: u64,
)
    ensures
        job.mismatch(
            Some(
                "bytes "@ + decimal(start as nat) + "-"@ + decimal(end as nat) + "/"@ + decimal(
                    total as nat,
                ),
            ),
            from as int,
        ) is None <==> start == from && total == job.total,
        job.mismatch(None, from as int) is Some,
        job.mismatch(
            Some("bytes "@ + decimal(start as nat) + "-"@ + decimal(end as nat) + "/"@ + "*"@),
            from as int,
        ) is Some,
{
    law_content_range_read_back(start, end, total);
}

/// The bytes of a segment are those from its first to its last, and a longer file counts as all of
/// them.
pub proof fn law_segment_bytes(job: SegmentJobV, len: u64)
    requires
        job.start <= job.end,
    ensures
        job.start + job.expected() == job.end + 1,
        len as int + job.start <= job.end ==> job.existing(len) == len,
        len as int + job.start > job.end ==> job.existing(len) == job.expected(),
{
}

/// Of a segment what has been saved counts if it is not more than the segment, and nothing else.
pub proof fn law_what_counts_of_segments(ranges: Seq<(u64, u64)>, lens: Seq<u64>, n: int)
    requires
        0 <= n < ranges.len() == lens.len(),
        ranges[n].0 <= ranges[n].1,
    ensures
        lens[n] <= ranges[n].1 - ranges[n].0 + 1 ==> usable_sum(ranges, lens, n + 1) == usable_sum(
            ranges,
            lens,
            n,
        ) + lens[n],
        lens[n] > ranges[n].1 - ranges[n].0 + 1 ==> usable_sum(ranges, lens, n + 1) == usable_sum(
            ranges,
            lens,
            n,
        ),
        usable_sum(ranges, lens, 0) == 0,
{
}

/// The pauses between attempts are one, two and four seconds.
pub proof fn law_pauses(attempt: usize)
    ensures
        pause_after(1) == 1,
        pause_after(2) == 2,
        pause_after(3) == 4,
        attempt > 3 ==> pause_after(attempt) == 0,
{
}

} // verus!
