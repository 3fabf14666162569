//! Downloads that survive interruptions: file names, ranges, and what each answer leads to.
use vstd::prelude::*;
use crate::numbers::{
    decimal, decimal_text, lemma_decimal, lemma_decimal_round_trip, parse_nat, read_number,
};
use crate::strings::{
    CharClass, before, begins, cat2, cat3, cat5, chars_of, class_from, copy_opt, copy_text, is_control,
    is_digit, is_white, lemma_before, lemma_nothing_to_trim, same_text, take_at_most, text_opt, text_range, trim, trim_bounds, trimmed, upper_text,
    white, without_prefix, to_upper,
};

verus! {

/// How often a request is tried.
pub const MAX_ATTEMPTS: usize = 4;

/// From how many bytes on a file is fetched in segments: 32 MiB.
pub const SEGMENT_THRESHOLD: u64 = 33_554_432;

/// The most segments that a file is fetched in.
pub const MAX_SEGMENTS: usize = 8;

// ---------------------------------------------------------------------------
// File names
// ---------------------------------------------------------------------------

/// Whether a character cannot stand in the name of a file everywhere.
pub open spec fn is_forbidden(c: char) -> bool {
    is_control(c) || is_white(c) || c == '/' || c == '\\' || c == ':' || c == '*' || c == '?' || c
        == '"' || c == '<' || c == '>' || c == '|'
}

/// A text with underscores in the place of characters that cannot stand in the name of a file.
pub open spec fn allowed(s: Seq<char>) -> Seq<char> {
    s.map_values(
        |c: char|
            if is_forbidden(c) {
                '_'
            } else {
                c
            },
    )
}

/// Whether a text in capitals is the name of a device.
pub open spec fn is_device(s: Seq<char>) -> bool {
    ||| s == "CON"@
    ||| s == "PRN"@
    ||| s == "AUX"@
    ||| s == "NUL"@
    ||| (s.len() == 4 && (begins(s, "COM"@) || begins(s, "LPT"@)) && '1' <= s[3] <= '9')
}

/// The name that a file gets for a title.
pub open spec fn stem_for(s: Seq<char>) -> Seq<char> {
    let stem = trim(allowed(take_at_most(s, 120)), CharClass::StemEdge);
    if stem.len() == 0 {
        "MovieBox-Tui_Stream"@
    } else if is_device(upper_text(stem)) {
        stem.push('_')
    } else {
        stem
    }
}

/// A text with underscores in the place of characters that cannot stand in the name of a file.
fn allow(v: &[char], n: usize) -> (r: Vec<char>)
    requires
        n <= v@.len(),
    ensures
        r@ == allowed(v@.take(n as int)),
{
    let mut r: Vec<char> = Vec::new();
    let mut i: usize = 0;
    while i < n
        invariant
            i <= n <= v@.len(),
            r@ =~= allowed(v@.take(i as int)),
        decreases n - i,
    {
        let c = v[i];
        let control = c <= '\u{1f}' || ('\u{7f}' <= c && c <= '\u{9f}');
        let bad = control || white(c) || c == '/' || c == '\\' || c == ':' || c == '*' || c == '?'
            || c == '"' || c == '<' || c == '>' || c == '|';
        r.push(
            if bad {
                '_'
            } else {
                c
            },
        );
        i = i + 1;
        assert(v@.take(i as int) =~= v@.take(i - 1).push(c));
    }
    r
}

/// Whether a text in capitals is the name of a device.
fn names_device(s: &str) -> (r: bool)
    ensures
        r == is_device(s@),
{
    if same_text(s, "CON") || same_text(s, "PRN") || same_text(s, "AUX") || same_text(s, "NUL") {
        return true;
    }
    let v = chars_of(s);
    let numbered = crate::strings::begins_with(s, "COM") || crate::strings::begins_with(s, "LPT");
    v.len() == 4 && numbered && '1' <= v[3] && v[3] <= '9'
}

/// The name that a file gets for a title.
pub fn safe_file_stem(value: &str) -> (r: String)
    ensures
        r@ == stem_for(value@),
{
    let v = chars_of(value);
    let n: usize = if v.len() <= 120 {
        v.len()
    } else {
        120
    };
    assert(v@.take(n as int) =~= take_at_most(value@, 120));
    let clean = allow(v.as_slice(), n);
    let (a, b) = trim_bounds(clean.as_slice(), CharClass::StemEdge);
    let mut stem = text_range(clean.as_slice(), a, b);
    if a == b {
        return copy_text("MovieBox-Tui_Stream");
    }
    if names_device(to_upper(stem.as_str()).as_str()) {
        stem.push('_');
    }
    stem
}

/// What is trimmed is a part of the text, and has no edge of the class.
proof fn lemma_trim(s: Seq<char>, k: CharClass)
    ensures
        forall|i: int| 0 <= i < trim(s, k).len() ==> s.contains(#[trigger] trim(s, k)[i]),
        trim(s, k).len() > 0 ==> !k.holds(trim(s, k)[0]) && !k.holds(trim(s, k).last()),
        trim(s, k).len() <= s.len(),
    decreases s.len(),
{
    if s.len() > 0 && k.holds(s[0]) {
        lemma_trim(s.skip(1), k);
        let t = trim(s, k);
        assert(t == trim(s.skip(1), k));
        assert forall|i: int| 0 <= i < t.len() implies s.contains(#[trigger] t[i]) by {
            let j = choose|j: int| 0 <= j < s.skip(1).len() && s.skip(1)[j] == t[i];
            assert(s[j + 1] == t[i]);
        }
    } else {
        lemma_trim_end(s, k);
    }
}

/// What is trimmed at its end begins as the text does.
proof fn lemma_trim_end(s: Seq<char>, k: CharClass)
    ensures
        ({
            let t = crate::strings::trim_end(s, k);
            &&& t.len() <= s.len()
            &&& t == s.take(t.len() as int)
            &&& t.len() > 0 ==> !k.holds(t.last())
            &&& s.len() > 0 && !k.holds(s[0]) ==> t.len() > 0
        }),
        forall|i: int|
            0 <= i < crate::strings::trim_end(s, k).len() ==> s.contains(
                #[trigger] crate::strings::trim_end(s, k)[i],
            ),
    decreases s.len(),
{
    let t = crate::strings::trim_end(s, k);
    if s.len() > 0 && k.holds(s.last()) {
        lemma_trim_end(s.drop_last(), k);
        assert(t =~= s.take(t.len() as int));
        if s.len() > 1 && !k.holds(s[0]) {
            assert(s.drop_last()[0] == s[0]);
        }
    } else {
        assert(s.take(s.len() as int) =~= s);
    }
    assert forall|i: int| 0 <= i < t.len() implies s.contains(#[trigger] t[i]) by {
        assert(s[i] == t[i]);
    }
}

/// The name that a file gets has at most 120 characters and is never empty. It holds no character
/// that cannot stand in one, begins neither with a dot nor with an underscore, does not end with a
/// dot, and is not the name of a device. Made the name of a file again, it stays as it is.
pub proof fn law_stem_is_safe(s: Seq<char>)
    ensures
        0 < stem_for(s).len() <= 120,
        forall|i: int| 0 <= i < stem_for(s).len() ==> !is_forbidden(#[trigger] stem_for(s)[i]),
        stem_for(s)[0] != '.',
        stem_for(s)[0] != '_',
        stem_for(s).last() != '.',
        !is_device(upper_text(stem_for(s))),
        stem_for(stem_for(s)) == stem_for(s),
{
    reveal_strlit("MovieBox-Tui_Stream");
    reveal_strlit("CON");
    reveal_strlit("PRN");
    reveal_strlit("AUX");
    reveal_strlit("NUL");
    reveal_strlit("COM");
    reveal_strlit("LPT");
    let w = allowed(take_at_most(s, 120));
    let stem = trim(w, CharClass::StemEdge);
    lemma_trim(w, CharClass::StemEdge);
    assert forall|i: int| 0 <= i < stem.len() implies !is_forbidden(#[trigger] stem[i]) by {
        assert(w.contains(stem[i]));
    }
    let out = stem_for(s);
    if stem.len() == 0 {
        assert(upper_text(out).len() == 19);
        lemma_nothing_to_trim(out, CharClass::StemEdge);
    } else if is_device(upper_text(stem)) {
        assert forall|i: int| 0 <= i < out.len() implies !is_forbidden(#[trigger] out[i]) by {
            if i < stem.len() {
                assert(out[i] == stem[i]);
            }
        }
        assert(out[0] == stem[0]);
        assert(upper_text(stem).len() == 3 || upper_text(stem).len() == 4);
        assert(upper_text(out).len() == 4 || upper_text(out).len() == 5);
        assert(upper_text(out).last() == '_');
        lemma_nothing_to_trim(stem, CharClass::StemEdge);
        assert(out.drop_last() =~= stem);
        assert(trim(out, CharClass::StemEdge) == stem);
    } else {
        lemma_nothing_to_trim(stem, CharClass::StemEdge);
    }
    assert(take_at_most(out, 120) == out);
    assert(allowed(out) =~= out);
}

/// The path of a file beside another.
pub open spec fn sidecar(destination: Seq<char>, suffix: Seq<char>) -> Seq<char> {
    destination + "."@ + suffix
}

/// The path of a file beside another.
pub fn sidecar_path(destination: &str, suffix: &str) -> (r: String)
    ensures
        r@ == sidecar(destination@, suffix@),
{
    cat3(destination, ".", suffix)
}

/// The path of a segment of a file.
pub fn segment_path(destination: &str, index: usize) -> (r: String)
    ensures
        r@ == sidecar(destination@, "part."@ + decimal(index as nat)),
{
    let suffix = cat2("part.", decimal_text(index as u64).as_str());
    sidecar_path(destination, suffix.as_str())
}

// ---------------------------------------------------------------------------
// Progress
// ---------------------------------------------------------------------------

/// How far a download has come.
#[derive(Debug, Clone, Copy, PartialEq, Eq, Structural)]
pub struct DownloadProgress {
    /// The bytes that have arrived.
    pub downloaded: u64,
    /// The bytes expected.
    pub total: Option<u64>,
    /// The bytes that have arrived since the transfer began.
    pub session_bytes: u64,
    /// The attempt.
    pub attempt: usize,
    /// How many segments are fetched at once.
    pub workers: usize,
}

/// How a download has ended.
#[derive(Debug, Clone, Copy, PartialEq, Eq, Structural)]
pub enum DownloadOutcome {
    /// The file is complete.
    Completed {
        /// Its bytes.
        bytes: u64,
    },
    /// The download can be continued.
    Paused {
        /// The bytes that have arrived.
        bytes: u64,
    },
}

/// The lower of what has arrived and what is expected.
pub open spec fn capped(downloaded: u64, total: Option<u64>) -> u64 {
    match total {
        Some(t) => if downloaded <= t {
            downloaded
        } else {
            t
        },
        None => downloaded,
    }
}

/// What is reported as arrived: never more than is expected.
pub fn cap_at_total(downloaded: u64, total: Option<u64>) -> (r: u64)
    ensures
        r == capped(downloaded, total),
        total is Some ==> r <= total->0,
{
    match total {
        Some(t) => if downloaded <= t {
            downloaded
        } else {
            t
        },
        None => downloaded,
    }
}

// ---------------------------------------------------------------------------
// Errors
// ---------------------------------------------------------------------------

/// Why a download has failed.
#[derive(Debug)]
pub enum DownloadError {
    /// The server has refused it, with a status and its words.
    Http(u16, String),
    /// The connection has failed.
    Network(String),
    /// A file could not be written.
    File(String),
    /// The server has sent another part than was asked for.
    InvalidRange(String),
    /// The server has sent less than expected.
    Incomplete {
        /// The bytes that have arrived.
        downloaded: u64,
        /// The bytes expected.
        expected: u64,
    },
    /// The user has stopped it.
    Paused,
}

/// What it means that a download has failed.
pub enum DownloadErrorV {
    /// The server has refused it.
    Http(u16, Seq<char>),
    /// The connection has failed.
    Network(Seq<char>),
    /// A file could not be written.
    File(Seq<char>),
    /// The server has sent another part than was asked for.
    InvalidRange(Seq<char>),
    /// The server has sent less than expected.
    Incomplete {
        /// The bytes that have arrived.
        downloaded: u64,
        /// The bytes expected.
        expected: u64,
    },
    /// The user has stopped it.
    Paused,
}

impl View for DownloadError {
    type V = DownloadErrorV;

    open spec fn view(&self) -> DownloadErrorV {
        match *self {
            DownloadError::Http(n, s) => DownloadErrorV::Http(n, s@),
            DownloadError::Network(s) => DownloadErrorV::Network(s@),
            DownloadError::File(s) => DownloadErrorV::File(s@),
            DownloadError::InvalidRange(s) => DownloadErrorV::InvalidRange(s@),
            DownloadError::Incomplete { downloaded, expected } => DownloadErrorV::Incomplete {
                downloaded,
                expected,
            },
            DownloadError::Paused => DownloadErrorV::Paused,
        }
    }
}

/// What an optional error means.
pub open spec fn error_opt(e: Option<DownloadError>) -> Option<DownloadErrorV> {
    match e {
        Some(e) => Some(e@),
        None => None,
    }
}

impl DownloadErrorV {
    /// The reason in words.
    pub open spec fn words(self) -> Seq<char> {
        match self {
            DownloadErrorV::Http(_, s) => "server returned HTTP "@ + s,
            DownloadErrorV::Network(s) => "network error: "@ + s,
            DownloadErrorV::File(s) => "file error: "@ + s,
            DownloadErrorV::InvalidRange(s) => "invalid partial response: "@ + s,
            DownloadErrorV::Incomplete { downloaded, expected } => "download ended at "@ + decimal(
                downloaded as nat,
            ) + " of "@ + decimal(expected as nat) + " bytes"@,
            DownloadErrorV::Paused => "download paused"@,
        }
    }
}

impl DownloadError {
    /// The reason in words.
    pub fn message(&self) -> (r: String)
        ensures
            r@ == self@.words(),
    {
        match self {
            DownloadError::Http(_, s) => cat2("server returned HTTP ", s.as_str()),
            DownloadError::Network(s) => cat2("network error: ", s.as_str()),
            DownloadError::File(s) => cat2("file error: ", s.as_str()),
            DownloadError::InvalidRange(s) => cat2("invalid partial response: ", s.as_str()),
            DownloadError::Incomplete { downloaded, expected } => cat5(
                "download ended at ",
                decimal_text(*downloaded).as_str(),
                " of ",
                decimal_text(*expected).as_str(),
                " bytes",
            ),
            DownloadError::Paused => copy_text("download paused"),
        }
    }
}

// ---------------------------------------------------------------------------
// Segments
// ---------------------------------------------------------------------------

/// In how many segments a file is fetched: two below 256 MiB, four below 2 GiB, else eight.
pub open spec fn segments_for(total: u64) -> usize {
    if total < 268_435_456 {
        2
    } else if total < 2_147_483_648 {
        4
    } else {
        8
    }
}

/// In how many segments a file is fetched.
pub fn segment_count(total: u64) -> (r: usize)
    ensures
        r == segments_for(total),
        1 <= r <= MAX_SEGMENTS,
{
    if total < 268_435_456 {
        2
    } else if total < 2_147_483_648 {
        4
    } else {
        MAX_SEGMENTS
    }
}

/// The first and the last byte of a segment: all have the same length but the last, which takes the
/// rest.
pub open spec fn segment_range(total: int, segments: int, i: int) -> (int, int) {
    let size = total / segments;
    (
        i * size,
        if i + 1 == segments {
            total - 1
        } else {
            (i + 1) * size - 1
        },
    )
}

/// The first and the last bytes of the segments of a file.
pub fn segment_ranges(total: u64, segments: usize) -> (r: Vec<(u64, u64)>)
    requires
        1 <= segments <= total,
    ensures
        r@.len() == segments,
        forall|i: int|
            0 <= i < segments ==> (#[trigger] r@[i]).0 == segment_range(
                total as int,
                segments as int,
                i,
            ).0 && r@[i].1 == segment_range(total as int, segments as int, i).1,
{
    let size: u64 = total / segments as u64;
    let mut r: Vec<(u64, u64)> = Vec::new();
    let mut index: usize = 0;
    let mut start: u64 = 0;
    proof {
        assert(size * segments <= total) by (nonlinear_arith)
            requires
                size == total / segments as u64,
                segments >= 1,
        ;
        assert(size >= 1) by (nonlinear_arith)
            requires
                size == total / segments as u64,
                1 <= segments <= total,
        ;
    }
    while index < segments
        invariant
            1 <= segments <= total,
            index <= segments,
            r@.len() == index,
            size == total as int / segments as int,
            size >= 1,
            size * segments <= total,
            start == index * size,
            forall|i: int|
                0 <= i < index ==> (#[trigger] r@[i]).0 == segment_range(
                    total as int,
                    segments as int,
                    i,
                ).0 && r@[i].1 == segment_range(total as int, segments as int, i).1,
        decreases segments - index,
    {
        proof {
            let a = index * size;
            let b = (index + 1) * size;
            let all = size * segments;
            assert(b == a + size) by (nonlinear_arith)
                requires
                    a == index * size,
                    b == (index + 1) * size,
            ;
            assert(b <= all) by (nonlinear_arith)
                requires
                    b == (index + 1) * size,
                    all == size * segments,
                    index + 1 <= segments,
                    size >= 1,
            ;
            assert(start + size <= total);
        }
        let end: u64 = if index + 1 == segments {
            total - 1
        } else {
            start + size - 1
        };
        r.push((start, end));
        start = start + size;
        index = index + 1;
    }
    r
}

/// The segments of a file follow one another without gap or overlap, from its first byte to its last,
/// and none is empty.
pub proof fn law_segments_cover(total: int, segments: int, i: int)
    requires
        1 <= segments <= total,
        0 <= i < segments,
    ensures
        segment_range(total, segments, 0).0 == 0,
        segment_range(total, segments, segments - 1).1 == total - 1,
        segment_range(total, segments, i).0 <= segment_range(total, segments, i).1,
        i + 1 < segments ==> segment_range(total, segments, i + 1).0 == segment_range(
            total,
            segments,
            i,
        ).1 + 1,
        segment_range(total, segments, i).1 <= total - 1,
{
    let size = total / segments;
    let a = i * size;
    let b = (i + 1) * size;
    assert(size >= 1) by (nonlinear_arith)
        requires
            size == total / segments,
            1 <= segments <= total,
    ;
    assert(segments * size <= total) by (nonlinear_arith)
        requires
            size == total / segments,
            segments >= 1,
    ;
    assert(b == a + size) by (nonlinear_arith)
        requires
            a == i * size,
            b == (i + 1) * size,
    ;
    assert(b <= segments * size) by (nonlinear_arith)
        requires
            b == (i + 1) * size,
            i + 1 <= segments,
            size >= 1,
    ;
    assert(0 * size == 0);
    assert(segment_range(total, segments, i).0 == a);
    assert(i + 1 != segments ==> segment_range(total, segments, i).1 == b - 1);
}

/// What is known of a file that was partly downloaded.
#[derive(Debug, Clone)]
pub struct ResumeMetadata {
    /// The tag of its contents.
    pub etag: Option<String>,
    /// When it was last changed.
    pub last_modified: Option<String>,
    /// Its bytes.
    pub total: Option<u64>,
    /// In how many segments it is fetched.
    pub segments: Option<usize>,
}

/// What it means that something is known of a file.
pub struct ResumeMetadataV {
    /// The tag of its contents.
    pub etag: Option<Seq<char>>,
    /// When it was last changed.
    pub last_modified: Option<Seq<char>>,
    /// Its bytes.
    pub total: Option<u64>,
    /// In how many segments it is fetched.
    pub segments: Option<usize>,
}

impl View for ResumeMetadata {
    type V = ResumeMetadataV;

    open spec fn view(&self) -> ResumeMetadataV {
        ResumeMetadataV {
            etag: text_opt(self.etag),
            last_modified: text_opt(self.last_modified),
            total: self.total,
            segments: self.segments,
        }
    }
}

/// Nothing known of a file.
pub open spec fn nothing_known() -> ResumeMetadataV {
    ResumeMetadataV { etag: None, last_modified: None, total: None, segments: None }
}

impl Default for ResumeMetadata {
    fn default() -> (r: ResumeMetadata)
        ensures
            r@ == nothing_known(),
    {
        ResumeMetadata { etag: None, last_modified: None, total: None, segments: None }
    }
}

impl ResumeMetadataV {
    /// What tells whether the file has changed: the tag, or else the time of the change.
    pub open spec fn validator(self) -> Option<Seq<char>> {
        match self.etag {
            Some(s) => Some(s),
            None => self.last_modified,
        }
    }

    /// Whether what was known earlier is still true: the sizes agree, and so do the tags, or else the
    /// times of the change, where both are known.
    pub open spec fn agrees(self, current: ResumeMetadataV) -> bool {
        &&& self.total == current.total
        &&& self.segments == current.segments
        &&& if self.etag is Some && current.etag is Some {
            self.etag == current.etag
        } else if self.last_modified is Some && current.last_modified is Some {
            self.last_modified == current.last_modified
        } else {
            true
        }
    }
}

/// Whether what was known earlier is still true.
pub fn metadata_matches(previous: &ResumeMetadata, current: &ResumeMetadata) -> (r: bool)
    ensures
        r == previous@.agrees(current@),
{
    let sizes = match (previous.total, current.total) {
        (Some(a), Some(b)) => a == b,
        (None, None) => true,
        _ => false,
    };
    let counts = match (previous.segments, current.segments) {
        (Some(a), Some(b)) => a == b,
        (None, None) => true,
        _ => false,
    };
    let same = match (&previous.etag, &current.etag) {
        (Some(a), Some(b)) => same_text(a.as_str(), b.as_str()),
        _ => match (&previous.last_modified, &current.last_modified) {
            (Some(a), Some(b)) => same_text(a.as_str(), b.as_str()),
            _ => true,
        },
    };
    sizes && counts && same
}

/// What tells whether the file has changed.
pub fn validator_of(m: &ResumeMetadata) -> (r: Option<String>)
    ensures
        text_opt(r) == m@.validator(),
{
    match &m.etag {
        Some(s) => Some(copy_text(s.as_str())),
        None => copy_opt(&m.last_modified),
    }
}

// ---------------------------------------------------------------------------
// Content-Range
// ---------------------------------------------------------------------------

/// The first byte and the number of bytes of the file that a `Content-Range` gives, or the part of it
/// that cannot be read.
pub open spec fn content_range(v: Seq<char>) -> Result<(nat, Option<nat>), Seq<char>> {
    if !begins(v, "bytes "@) {
        Err(v)
    } else {
        let value = v.skip(6);
        let range = before(value, CharClass::Is('/'));
        if range.len() >= value.len() {
            Err(value)
        } else {
            let total = value.skip(range.len() as int + 1);
            let start = before(range, CharClass::Is('-'));
            if start.len() >= range.len() {
                Err(value)
            } else {
                match parse_nat(start, u64::MAX as nat) {
                    Some(a) => if total == "*"@ {
                        Ok((a, None))
                    } else {
                        match parse_nat(total, u64::MAX as nat) {
                            Some(n) => Ok((a, Some(n))),
                            None => Err(value),
                        }
                    },
                    None => Err(value),
                }
            }
        }
    }
}

/// What a `Content-Range` that was read means.
pub open spec fn range_read(r: (u64, Option<u64>)) -> (nat, Option<nat>) {
    (
        r.0 as nat,
        match r.1 {
            Some(n) => Some(n as nat),
            None => None,
        },
    )
}

/// The first byte and the number of bytes of the file that a `Content-Range` gives.
pub fn parse_content_range(value: &str) -> (r: Result<(u64, Option<u64>), DownloadError>)
    ensures
        match r {
            Ok(p) => content_range(value@) == Ok::<(nat, Option<nat>), Seq<char>>(range_read(p)),
            Err(e) => content_range(value@) matches Err(s) && e@ == DownloadErrorV::InvalidRange(s),
        },
{
    proof {
        reveal_strlit("bytes ");
    }
    let rest = match without_prefix(value, "bytes ") {
        Some(s) => s,
        None => {
            return Err(DownloadError::InvalidRange(copy_text(value)));
        },
    };
    let v = chars_of(rest.as_str());
    assert(v@.skip(0) =~= v@);
    let slash = class_from(v.as_slice(), CharClass::Is('/'), 0);
    assert(before(v@, CharClass::Is('/')) =~= v@.subrange(0, slash as int));
    if slash == v.len() {
        return Err(DownloadError::InvalidRange(rest));
    }
    let range = chars_of(text_range(v.as_slice(), 0, slash).as_str());
    let total = text_range(v.as_slice(), slash + 1, v.len());
    assert(range@.skip(0) =~= range@);
    let dash = class_from(range.as_slice(), CharClass::Is('-'), 0);
    assert(before(range@, CharClass::Is('-')) =~= range@.subrange(0, dash as int));
    if dash == range.len() {
        return Err(DownloadError::InvalidRange(rest));
    }
    let start = match read_number(text_range(range.as_slice(), 0, dash).as_str(), u64::MAX) {
        Some(n) => n,
        None => {
            return Err(DownloadError::InvalidRange(rest));
        },
    };
    if same_text(total.as_str(), "*") {
        return Ok((start, None));
    }
    match read_number(total.as_str(), u64::MAX) {
        Some(n) => Ok((start, Some(n))),
        None => Err(DownloadError::InvalidRange(rest)),
    }
}

/// A text of digits and a character that is none is cut before that character.
proof fn lemma_before_digits(n: nat, c: char, rest: Seq<char>)
    requires
        !is_digit(c),
    ensures
        before(decimal(n) + seq![c] + rest, CharClass::Is(c)) == decimal(n),
{
    lemma_decimal(n);
    let d = decimal(n);
    let s = d + seq![c] + rest;
    assert forall|j: int| 0 <= j < d.len() implies !CharClass::Is(c).holds(s[j]) by {
        assert(s[j] == d[j]);
        assert(is_digit(d[j]));
    }
    assert(s[d.len() as int] == c);
    lemma_before(s, CharClass::Is(c), d.len() as int);
    assert(s.take(d.len() as int) =~= d);
}

/// A range as a server writes it is read back: its first byte, and the size of the file, which a star
/// leaves open.
pub proof fn law_content_range_read_back(start: u64, end: u64, total: u64)
    ensures
        content_range(
            "bytes "@ + decimal(start as nat) + "-"@ + decimal(end as nat) + "/"@ + decimal(
                total as nat,
            ),
        ) == Ok::<(nat, Option<nat>), Seq<char>>((start as nat, Some(total as nat))),
        content_range(
            "bytes "@ + decimal(start as nat) + "-"@ + decimal(end as nat) + "/"@ + "*"@,
        ) == Ok::<(nat, Option<nat>), Seq<char>>((start as nat, None)),
{
    lemma_range_read(start, end, decimal(total as nat));
    lemma_range_read(start, end, "*"@);
    lemma_decimal_round_trip(total as nat, u64::MAX as nat);
    lemma_decimal(total as nat);
    reveal_strlit("*");
    assert(decimal(total as nat) != "*"@) by {
        assert(is_digit(decimal(total as nat)[0]));
    }
}

/// The parts of a range as a server writes it.
proof fn lemma_range_read(start: u64, end: u64, size: Seq<char>)
    ensures
        ({
            let v = "bytes "@ + decimal(start as nat) + "-"@ + decimal(end as nat) + "/"@ + size;
            content_range(v) == (if size == "*"@ {
                Ok::<(nat, Option<nat>), Seq<char>>((start as nat, None))
            } else {
                match parse_nat(size, u64::MAX as nat) {
                    Some(n) => Ok((start as nat, Some(n))),
                    None => Err(v.skip(6)),
                }
            })
        }),
{
    reveal_strlit("bytes ");
    reveal_strlit("-");
    reveal_strlit("/");
    let a = decimal(start as nat);
    let b = decimal(end as nat);
    let v = "bytes "@ + a + "-"@ + b + "/"@ + size;
    let value = v.skip(6);
    let range = a + "-"@ + b;
    lemma_decimal(start as nat);
    lemma_decimal(end as nat);
    assert(v.subrange(0, 6) =~= "bytes "@);
    assert(value =~= range + seq!['/'] + size);
    assert forall|j: int| 0 <= j < range.len() implies !CharClass::Is('/').holds(value[j]) by {
        assert(value[j] == range[j]);
        if j < a.len() {
            assert(range[j] == a[j]);
            assert(is_digit(a[j]));
        } else if j > a.len() {
            assert(range[j] == b[j - a.len() - 1]);
            assert(is_digit(b[j - a.len() - 1]));
        }
    }
    assert(value[range.len() as int] == '/');
    lemma_before(value, CharClass::Is('/'), range.len() as int);
    assert(value.take(range.len() as int) =~= range);
    assert(value.skip(range.len() as int + 1) =~= size);
    lemma_before_digits(start as nat, '-', b);
    assert(range =~= a + seq!['-'] + b);
    lemma_decimal_round_trip(start as nat, u64::MAX as nat);
}

/// What is reported is what has arrived, up to what is expected.
pub proof fn law_report_is_capped(downloaded: u64, total: u64)
    ensures
        downloaded <= total ==> capped(downloaded, Some(total)) == downloaded,
        downloaded >= total ==> capped(downloaded, Some(total)) == total,
        capped(downloaded, None) == downloaded,
{
}

/// A file has changed if its tag has; where there are not two tags to compare, if its date has; and in
/// any case if its size or the number of its segments has.
pub proof fn law_same_file(a: ResumeMetadataV, b: ResumeMetadataV)
    ensures
        a.agrees(a),
        a.agrees(b) <==> b.agrees(a),
        a.total != b.total ==> !a.agrees(b),
        a.segments != b.segments ==> !a.agrees(b),
        a.etag is Some && b.etag is Some && a.etag != b.etag ==> !a.agrees(b),
        (a.etag is None || b.etag is None) && a.last_modified is Some && b.last_modified is Some
            && a.last_modified != b.last_modified ==> !a.agrees(b),
        a.total == b.total && a.segments == b.segments && a.etag is Some && a.etag == b.etag
            ==> a.agrees(b),
        a.total == b.total && a.segments == b.segments && (a.etag is None || b.etag is None) && (
        a.last_modified is None || b.last_modified is None || a.last_modified == b.last_modified)
            ==> a.agrees(b),
        a.etag is Some ==> a.validator() == a.etag,
        a.etag is None ==> a.validator() == a.last_modified,
{
}

/// A title that can be the name of a file is its name, and in any other each character is kept or
/// gives way to an underscore.
pub proof fn law_good_titles_are_names(s: Seq<char>)
    requires
        0 < s.len() <= 120,
        forall|i: int| 0 <= i < s.len() ==> !is_forbidden(#[trigger] s[i]),
        s[0] != '.' && s[0] != '_',
        s.last() != '.' && s.last() != '_',
        !is_device(upper_text(s)),
    ensures
        stem_for(s) == s,
{
    assert(allowed(s) =~= s);
    assert(!is_forbidden(s[0]) && !is_forbidden(s[s.len() - 1]));
    lemma_nothing_to_trim(s, CharClass::StemEdge);
}

/// Every character that a path or a file system gives a meaning is forbidden in the name of a file,
/// and letters, digits and hyphens of ASCII are not.
pub proof fn law_forbidden_characters(c: char)
    ensures
        c == '/' || c == '\\' || c == ':' || c == '*' || c == '?' || c == '"' || c == '<' || c
            == '>' || c == '|' || c == ' ' || c <= '\u{1f}' ==> is_forbidden(c),
        'a' <= c <= 'z' || 'A' <= c <= 'Z' || '0' <= c <= '9' || c == '-' || c == '.' || c == '_'
            || c == '(' || c == ')' ==> !is_forbidden(c),
{
}

/// A file is fetched in two, four or eight segments, the more the larger it is.
pub proof fn law_number_of_segments(total: u64)
    ensures
        total < 268_435_456 ==> segments_for(total) == 2,
        268_435_456 <= total < 2_147_483_648 ==> segments_for(total) == 4,
        total >= 2_147_483_648 ==> segments_for(total) == 8,
{
}

/// Whether a file is still the same is asked by its tag, and by its date only where it has no tag.
pub proof fn law_validators(m: ResumeMetadataV, s: Seq<char>)
    ensures
        m.etag == Some(s) ==> m.validator() == Some(s),
        m.etag is None && m.last_modified == Some(s) ==> m.validator() == Some(s),
        m.etag is None && m.last_modified is None ==> m.validator() is None,
{
}

/// The words of errors.
pub proof fn law_words_of_errors(n: u16, s: Seq<char>, downloaded: u64, expected: u64)
    ensures
        DownloadErrorV::Http(n, s).words() == "server returned HTTP "@ + s,
        DownloadErrorV::Network(s).words() == "network error: "@ + s,
        DownloadErrorV::File(s).words() == "file error: "@ + s,
        DownloadErrorV::InvalidRange(s).words() == "invalid partial response: "@ + s,
        (DownloadErrorV::Incomplete { downloaded, expected }).words() == "download ended at "@ + decimal(
            downloaded as nat,
        ) + " of "@ + decimal(expected as nat) + " bytes"@,
        DownloadErrorV::Paused.words() == "download paused"@,
{
}

/// Only the first 120 characters of a title count for the name of its file.
pub proof fn law_long_titles(s: Seq<char>)
    requires
        s.len() > 120,
    ensures
        stem_for(s) == stem_for(s.subrange(0, 120)),
{
    assert(take_at_most(s, 120) =~= s.subrange(0, 120));
    assert(take_at_most(s.subrange(0, 120), 120) =~= s.subrange(0, 120));
}

/// A title that is the name of a device has an underscore behind it.
pub proof fn law_names_of_devices(s: Seq<char>)
    requires
        forall|i: int| 0 <= i < s.len() ==> !is_forbidden(#[trigger] s[i]),
        s.len() > 0 && s[0] != '.' && s[0] != '_',
        s.last() != '.' && s.last() != '_',
        upper_text(s) == "CON"@ || upper_text(s) == "PRN"@ || upper_text(s) == "AUX"@ || upper_text(s)
            == "NUL"@,
    ensures
        stem_for(s) == s.push('_'),
{
    reveal_strlit("CON");
    reveal_strlit("PRN");
    reveal_strlit("AUX");
    reveal_strlit("NUL");
    assert(upper_text(s).len() == s.len());
    assert(allowed(s) =~= s);
    assert(!is_forbidden(s[0]) && !is_forbidden(s[s.len() - 1]));
    lemma_nothing_to_trim(s, CharClass::StemEdge);
}

/// The ports too are devices, by their number from one to nine.
pub proof fn law_ports_are_devices(c: char)
    requires
        '1' <= c <= '9',
    ensures
        is_device("COM"@.push(c)),
        is_device("LPT"@.push(c)),
        !is_device("COM"@),
        !is_device("COM"@.push('0')),
{
    reveal_strlit("COM");
    reveal_strlit("LPT");
    reveal_strlit("CON");
    reveal_strlit("PRN");
    reveal_strlit("AUX");
    reveal_strlit("NUL");
    assert("COM"@.push(c).subrange(0, 3) =~= "COM"@);
    assert("LPT"@.push(c).subrange(0, 3) =~= "LPT"@);
    assert("COM"@[2] == 'M' && "CON"@[2] == 'N');
    assert("PRN"@[0] == 'P' && "AUX"@[0] == 'A' && "NUL"@[0] == 'N' && "COM"@[0] == 'C');
}

} // verus!
