//! Subtitles inside the file that a stream plays.
//!
//! Players load such subtitles by themselves. The user is only told that there may be some.
use vstd::prelude::*;
use crate::numbers::{decimal, decimal_text};
use crate::strings::{
    CharClass, after_last, before, cat3, cat4, chars_of, copy_opt, copy_text, eq_no_case, find_last,
    holds_entry, is_blank, join, join_texts, lower_text, rfind, same_no_case, same_text,
    text_after_last, text_before, text_opt, text_range, texts, to_lower,
};
use crate::tui::state::pairs;

verus! {

/// Whether files with an extension in lower case can hold subtitles.
pub open spec fn is_container(ext: Seq<char>) -> bool {
    ext == "mkv"@ || ext == "mk3d"@ || ext == "mka"@ || ext == "webm"@ || ext == "mp4"@ || ext
        == "m4v"@ || ext == "mov"@ || ext == "ts"@ || ext == "m2ts"@ || ext == "mts"@ || ext
        == "avi"@ || ext == "flv"@
}

/// The name of the file at an address, without query and fragment.
pub open spec fn file_at(url: Seq<char>) -> Seq<char> {
    after_last(before(url, CharClass::UrlTail), CharClass::Is('/'))
}

/// Whether the file at an address can hold subtitles, by its extension.
pub open spec fn may_embed(url: Seq<char>) -> bool {
    match rfind(file_at(url), "."@) {
        Some(i) => is_container(lower_text(file_at(url).skip(i + 1))),
        None => false,
    }
}

/// Whether files with an extension in lower case can hold subtitles.
fn holds_subtitles(ext: &str) -> (r: bool)
    ensures
        r == is_container(ext@),
{
    same_text(ext, "mkv") || same_text(ext, "mk3d") || same_text(ext, "mka") || same_text(
        ext,
        "webm",
    ) || same_text(ext, "mp4") || same_text(ext, "m4v") || same_text(ext, "mov") || same_text(
        ext,
        "ts",
    ) || same_text(ext, "m2ts") || same_text(ext, "mts") || same_text(ext, "avi") || same_text(
        ext,
        "flv",
    )
}

/// Whether the file at an address can hold subtitles, by its extension. Playlists of segments cannot.
pub fn container_supports_embedded_subs(url: &str) -> (r: bool)
    ensures
        r == may_embed(url@),
{
    proof {
        reveal_strlit(".");
    }
    let path = text_before(url, CharClass::UrlTail);
    let name = chars_of(text_after_last(path.as_str(), CharClass::Is('/')).as_str());
    let n: usize = name.len();
    match find_last(name.as_slice(), chars_of(".").as_slice()) {
        Some(i) => {
            let ext = text_range(name.as_slice(), i + 1, n);
            assert(ext@ =~= name@.skip(i + 1));
            holds_subtitles(to_lower(ext.as_str()).as_str())
        },
        None => false,
    }
}

/// Whether a setting of the environment asks for files to be probed.
pub fn probe_enabled(value: &Option<String>) -> (r: bool)
    ensures
        r == (match text_opt(*value) {
            Some(s) => eq_no_case(s, "true"@) || s == "1"@,
            None => false,
        }),
{
    match value {
        Some(s) => same_no_case(s.as_str(), "true") || same_text(s.as_str(), "1"),
        None => false,
    }
}

/// A subtitle track inside a file.
#[derive(Debug, Clone, PartialEq)]
pub struct ProbeTrack {
    /// Its number.
    pub index: i64,
    /// Its language.
    pub language: Option<String>,
    /// Its format.
    pub codec: Option<String>,
}

/// What a subtitle track means.
pub struct ProbeTrackV {
    /// Its number.
    pub index: i64,
    /// Its language.
    pub language: Option<Seq<char>>,
    /// Its format.
    pub codec: Option<Seq<char>>,
}

impl View for ProbeTrack {
    type V = ProbeTrackV;

    open spec fn view(&self) -> ProbeTrackV {
        ProbeTrackV {
            index: self.index,
            language: text_opt(self.language),
            codec: text_opt(self.codec),
        }
    }
}

/// What tracks mean.
pub open spec fn tracks(v: Seq<ProbeTrack>) -> Seq<ProbeTrackV> {
    Seq::new(v.len(), |i: int| v[i]@)
}

/// The subtitle tracks found in a file.
#[derive(Debug, Clone, PartialEq)]
pub struct ProbeReport {
    /// The tracks.
    pub tracks: Vec<ProbeTrack>,
}

/// A stream as `ffprobe` lists it.
pub struct FfprobeStream {
    /// Its number.
    pub index: i64,
    /// Its format.
    pub codec_name: Option<String>,
    /// Its kind.
    pub codec_type: Option<String>,
    /// Its language.
    pub language: Option<String>,
}

/// What a stream that `ffprobe` lists means.
pub struct FfprobeStreamV {
    /// Its number.
    pub index: i64,
    /// Its format.
    pub codec_name: Option<Seq<char>>,
    /// Its kind.
    pub codec_type: Option<Seq<char>>,
    /// Its language.
    pub language: Option<Seq<char>>,
}

impl View for FfprobeStream {
    type V = FfprobeStreamV;

    open spec fn view(&self) -> FfprobeStreamV {
        FfprobeStreamV {
            index: self.index,
            codec_name: text_opt(self.codec_name),
            codec_type: text_opt(self.codec_type),
            language: text_opt(self.language),
        }
    }
}

/// What streams mean.
pub open spec fn streams(v: Seq<FfprobeStream>) -> Seq<FfprobeStreamV> {
    Seq::new(v.len(), |i: int| v[i]@)
}

/// The subtitle tracks among streams: those of another kind are left out.
pub open spec fn subtitle_tracks(v: Seq<FfprobeStreamV>) -> Seq<ProbeTrackV>
    decreases v.len(),
{
    if v.len() == 0 {
        Seq::empty()
    } else {
        let s = v.last();
        let rest = subtitle_tracks(v.drop_last());
        if s.codec_type is None || s.codec_type == Some("subtitle"@) {
            rest.push(
                ProbeTrackV { index: s.index, language: s.language, codec: s.codec_name },
            )
        } else {
            rest
        }
    }
}

/// The subtitle tracks among the streams that `ffprobe` lists.
pub fn parse_probe_output(parsed: &Vec<FfprobeStream>) -> (r: ProbeReport)
    ensures
        tracks(r.tracks@) == subtitle_tracks(streams(parsed@)),
{
    let ghost list = streams(parsed@);
    let mut out: Vec<ProbeTrack> = Vec::new();
    let mut i: usize = 0;
    proof {
        assert(list.take(0) =~= Seq::empty());
        assert(tracks(out@) =~= Seq::empty());
    }
    while i < parsed.len()
        invariant
            i <= parsed@.len(),
            list == streams(parsed@),
            tracks(out@) == subtitle_tracks(list.take(i as int)),
        decreases parsed@.len() - i,
    {
        let s = &parsed[i];
        proof {
            assert(list.take(i + 1).drop_last() =~= list.take(i as int));
            assert(list.take(i + 1).last() == s@);
        }
        let subtitle = match &s.codec_type {
            Some(k) => same_text(k.as_str(), "subtitle"),
            None => true,
        };
        if subtitle {
            let ghost done = tracks(out@);
            let t = ProbeTrack {
                index: s.index,
                language: copy_opt(&s.language),
                codec: copy_opt(&s.codec_name),
            };
            out.push(t);
            assert(tracks(out@) =~= done.push(t@));
        }
        i = i + 1;
    }
    assert(list.take(list.len() as int) =~= list);
    ProbeReport { tracks: out }
}

/// The languages of tracks, each once, in the order in which they come.
pub open spec fn languages(v: Seq<ProbeTrackV>) -> Seq<Seq<char>>
    decreases v.len(),
{
    if v.len() == 0 {
        Seq::empty()
    } else {
        let rest = languages(v.drop_last());
        match v.last().language {
            Some(l) => if l.len() > 0 && !rest.contains(l) {
                rest.push(l)
            } else {
                rest
            },
            None => rest,
        }
    }
}

/// The languages of tracks, each once, in the order in which they come.
fn list_languages(v: &Vec<ProbeTrack>) -> (r: Vec<String>)
    ensures
        texts(r@) == languages(tracks(v@)),
{
    let ghost list = tracks(v@);
    let mut r: Vec<String> = Vec::new();
    let mut i: usize = 0;
    proof {
        assert(list.take(0) =~= Seq::empty());
        assert(texts(r@) =~= Seq::empty());
    }
    while i < v.len()
        invariant
            i <= v@.len(),
            list == tracks(v@),
            texts(r@) == languages(list.take(i as int)),
        decreases v@.len() - i,
    {
        proof {
            assert(list.take(i + 1).drop_last() =~= list.take(i as int));
            assert(list.take(i + 1).last() == v@[i as int]@);
        }
        match &v[i].language {
            Some(l) => {
                if !is_blank(l.as_str()) && !holds_entry(&r, l.as_str()) {
                    let ghost done = texts(r@);
                    let c = copy_text(l.as_str());
                    r.push(c);
                    assert(texts(r@) =~= done.push(c@));
                }
            },
            None => {},
        }
        i = i + 1;
    }
    assert(list.take(list.len() as int) =~= list);
    r
}

/// What the user is told: of the tracks that were found, or else that there may be some, or nothing.
pub open spec fn notice(likely: bool, report: Option<Seq<ProbeTrackV>>) -> Seq<char> {
    match report {
        Some(v) => if v.len() > 0 {
            "Found "@ + decimal(v.len()) + " embedded subtitle track(s)"@ + (if languages(v).len()
                == 0 {
                Seq::empty()
            } else {
                " (e.g. "@ + join(languages(v), ", "@) + ")"@
            }) + ". If the player doesn't show one, press 'j' (mpv) to cycle tracks."@
        } else {
            likely_notice(likely)
        },
        None => likely_notice(likely),
    }
}

/// What the user is told where nothing is known of the tracks.
pub open spec fn likely_notice(likely: bool) -> Seq<char> {
    if likely {
        "This stream is an MKV/MP4 and may contain embedded subtitles. If the player doesn't show one, press 'j' (mpv) to cycle tracks."@
    } else {
        Seq::empty()
    }
}

/// What the user is told of the subtitles inside a file.
pub fn format_embedded_notice(likely: bool, report: Option<&ProbeReport>) -> (r: String)
    ensures
        r@ == notice(
            likely,
            match report {
                Some(p) => Some(tracks(p.tracks@)),
                None => None,
            },
        ),
{
    match report {
        Some(p) => {
            if p.tracks.len() > 0 {
                let found = list_languages(&p.tracks);
                let example = if found.len() == 0 {
                    String::new()
                } else {
                    cat3(" (e.g. ", join_texts(&found, ", ").as_str(), ")")
                };
                let mut r = cat4(
                    "Found ",
                    decimal_text(p.tracks.len() as u64).as_str(),
                    " embedded subtitle track(s)",
                    example.as_str(),
                );
                r.append(". If the player doesn't show one, press 'j' (mpv) to cycle tracks.");
                return r;
            }
        },
        None => {},
    }
    if likely {
        copy_text(
            "This stream is an MKV/MP4 and may contain embedded subtitles. If the player doesn't show one, press 'j' (mpv) to cycle tracks.",
        )
    } else {
        String::new()
    }
}

/// Nothing is told where subtitles are neither found nor likely, and something is told otherwise.
pub proof fn law_notice_is_empty(likely: bool, report: Option<Seq<ProbeTrackV>>)
    ensures
        notice(likely, report).len() == 0 <==> !likely && (report is None || report->0.len() == 0),
{
    reveal_strlit("Found ");
    reveal_strlit(
        "This stream is an MKV/MP4 and may contain embedded subtitles. If the player doesn't show one, press 'j' (mpv) to cycle tracks.",
    );
}

/// Headers as `ffprobe` takes them.
pub open spec fn header_lines(v: Seq<(Seq<char>, Seq<char>)>) -> Seq<char>
    decreases v.len(),
{
    if v.len() == 0 {
        Seq::empty()
    } else {
        header_lines(v.drop_last()) + v.last().0 + ": "@ + v.last().1 + "\r\n"@
    }
}

/// The arguments that `ffprobe` is called with.
pub open spec fn probe_args(url: Seq<char>, headers: Seq<(Seq<char>, Seq<char>)>) -> Seq<Seq<char>> {
    seq![
        "-v"@,
        "error"@,
        "-print_format"@,
        "json"@,
        "-show_entries"@,
        "stream=index:stream_tags=language:codec_name"@,
        "-select_streams"@,
        "s"@,
    ] + (if headers.len() > 0 {
        seq!["-headers"@, header_lines(headers)]
    } else {
        Seq::empty()
    }) + seq![url]
}

/// Headers as `ffprobe` takes them.
fn join_headers(v: &Vec<(String, String)>) -> (r: String)
    ensures
        r@ == header_lines(pairs(v@)),
{
    let ghost list = pairs(v@);
    let mut r = String::new();
    let mut i: usize = 0;
    assert(list.take(0) =~= Seq::empty());
    while i < v.len()
        invariant
            i <= v@.len(),
            list == pairs(v@),
            r@ == header_lines(list.take(i as int)),
        decreases v@.len() - i,
    {
        proof {
            assert(list.take(i + 1).drop_last() =~= list.take(i as int));
            assert(list.take(i + 1).last() == (v@[i as int].0@, v@[i as int].1@));
        }
        r.append(v[i].0.as_str());
        r.append(": ");
        r.append(v[i].1.as_str());
        r.append("\r\n");
        i = i + 1;
    }
    assert(list.take(list.len() as int) =~= list);
    r
}

/// The arguments that `ffprobe` is called with.
pub fn ffprobe_args(url: &str, headers: &Vec<(String, String)>) -> (r: Vec<String>)
    ensures
        texts(r@) == probe_args(url@, pairs(headers@)),
{
    let mut v: Vec<String> = Vec::new();
    v.push(copy_text("-v"));
    v.push(copy_text("error"));
    v.push(copy_text("-print_format"));
    v.push(copy_text("json"));
    v.push(copy_text("-show_entries"));
    v.push(copy_text("stream=index:stream_tags=language:codec_name"));
    v.push(copy_text("-select_streams"));
    v.push(copy_text("s"));
    if headers.len() > 0 {
        v.push(copy_text("-headers"));
        v.push(join_headers(headers));
    }
    v.push(copy_text(url));
    assert(texts(v@) =~= probe_args(url@, pairs(headers@)));
    v
}

} // verus!
