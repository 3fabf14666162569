//! SubDL: which requests are made, what is made of the answers, and the archives that subtitles come
//! in.
use vstd::prelude::*;
use crate::numbers::{decimal, decimal_int, decimal_int_text, decimal_text};
use crate::outside::{
    append_pair, archive_entry_bytes, archive_entry_name, archive_len, with_pair, zip_entry_bytes,
    zip_entry_name, zip_len,
};
use crate::providers::subtitles::cache::{key_of, search_parts, search_query_key};
use crate::providers::subtitles::opensubtitles::{
    body_snippet, given, is_given, is_switched_on, languages_in, read_languages, snippet,
    switched_on,
};
use crate::providers::subtitles::{
    SubtitleContext, SubtitleContextV, is_indonesian, release_has_title, speaks_indonesian,
    title_in_release,
};
use crate::tui::state::pairs;
use crate::strings::{
    CharClass, after_last, before, begins, begins_with, cat2, cat3, cat4, chars_of, copy_opt, copy_text,
    first_chars, has, holds_text, is_blank, join, join_texts, lemma_after_last, lemma_before, lemma_before_prefix,
    lemma_nothing_to_trim, lower_text, occurs_at, same_text,
    take_at_most, text_after_last, text_before, text_of, text_opt, text_range, texts, to_lower, trim,
    trimmed,
};

verus! {

/// How many candidates are kept of a search.
pub const MAX_CANDIDATES: usize = 5;

// ---------------------------------------------------------------------------
// Settings
// ---------------------------------------------------------------------------

/// How SubDL is reached.
#[derive(Debug, Clone)]
pub struct SubdlConfig {
    /// The key of the program.
    pub api_key: Option<String>,
    /// The languages wanted.
    pub languages: Vec<String>,
    /// Whether it is used at all.
    pub enabled: bool,
    /// The address of the service, if it is another than usual.
    pub base_url: Option<String>,
}

/// The settings as the environment gives them, each where it is set.
pub struct SubdlEnv {
    /// `MOVIEBOX_SUBDL_ENABLED`.
    pub enabled: Option<String>,
    /// `MOVIEBOX_SUBDL_LANGUAGES`.
    pub languages: Option<String>,
    /// `MOVIEBOX_SUBDL_API_KEY`.
    pub api_key: Option<String>,
    /// `MOVIEBOX_SUBDL_BASE_URL`.
    pub base_url: Option<String>,
}

impl SubdlConfig {
    /// The settings that the environment gives.
    pub fn from_env(env: SubdlEnv) -> (r: SubdlConfig)
        ensures
            r.enabled == switched_on(text_opt(env.enabled)),
            texts(r.languages@) == languages_in(text_opt(env.languages)),
            r.api_key == env.api_key,
            r.base_url == env.base_url,
    {
        SubdlConfig {
            enabled: is_switched_on(&env.enabled),
            languages: read_languages(&env.languages),
            api_key: env.api_key,
            base_url: env.base_url,
        }
    }

    /// Whether SubDL can be used: it is switched on, and a key is given.
    pub open spec fn usable(self) -> bool {
        self.enabled && is_given(text_opt(self.api_key))
    }

    /// Whether SubDL can be used.
    pub fn enabled(&self) -> (r: bool)
        ensures
            r == self.usable(),
    {
        self.enabled && given(&self.api_key)
    }
}

impl Default for SubdlConfig {
    fn default() -> (r: SubdlConfig)
        ensures
            r.api_key is None,
            r.languages@.len() == 0,
            !r.enabled,
            r.base_url is None,
    {
        SubdlConfig { api_key: None, languages: Vec::new(), enabled: false, base_url: None }
    }
}

// ---------------------------------------------------------------------------
// Errors
// ---------------------------------------------------------------------------

/// Why SubDL has given nothing.
#[derive(Debug)]
pub enum SubdlError {
    /// The key of the program is missing.
    MissingCredentials,
    /// A request was refused.
    Http(u16, String),
    /// There is no such subtitle.
    NotFound,
    /// The archive holds no subtitle.
    NoSubtitleInZip,
    /// The archive cannot be read.
    Zip(String),
    /// An entry of the archive cannot be read.
    Io(String),
    /// The request could not be made.
    Reqwest(String),
    /// The answer could not be read.
    Json(String),
}

/// What it means that SubDL has given nothing.
pub enum SubdlErrorV {
    /// The key of the program is missing.
    MissingCredentials,
    /// A request was refused.
    Http(u16, Seq<char>),
    /// There is no such subtitle.
    NotFound,
    /// The archive holds no subtitle.
    NoSubtitleInZip,
    /// The archive cannot be read.
    Zip(Seq<char>),
    /// An entry of the archive cannot be read.
    Io(Seq<char>),
    /// The request could not be made.
    Reqwest(Seq<char>),
    /// The answer could not be read.
    Json(Seq<char>),
}

impl View for SubdlError {
    type V = SubdlErrorV;

    open spec fn view(&self) -> SubdlErrorV {
        match *self {
            SubdlError::MissingCredentials => SubdlErrorV::MissingCredentials,
            SubdlError::Http(n, s) => SubdlErrorV::Http(n, s@),
            SubdlError::NotFound => SubdlErrorV::NotFound,
            SubdlError::NoSubtitleInZip => SubdlErrorV::NoSubtitleInZip,
            SubdlError::Zip(s) => SubdlErrorV::Zip(s@),
            SubdlError::Io(s) => SubdlErrorV::Io(s@),
            SubdlError::Reqwest(s) => SubdlErrorV::Reqwest(s@),
            SubdlError::Json(s) => SubdlErrorV::Json(s@),
        }
    }
}

impl SubdlErrorV {
    /// The reason in words.
    pub open spec fn words(self) -> Seq<char> {
        match self {
            SubdlErrorV::MissingCredentials => "missing SubDL credential: api_key"@,
            SubdlErrorV::Http(n, s) => "SubDL API error: HTTP "@ + decimal(n as nat) + ": "@ + s,
            SubdlErrorV::NotFound => "subtitle not found"@,
            SubdlErrorV::NoSubtitleInZip => "subtitle archive contains no subtitle file"@,
            SubdlErrorV::Zip(s) => "ZIP error: "@ + s,
            SubdlErrorV::Io(s) => "IO error: "@ + s,
            SubdlErrorV::Reqwest(s) => "reqwest error: "@ + s,
            SubdlErrorV::Json(s) => "JSON error: "@ + s,
        }
    }
}

impl SubdlError {
    /// The reason in words.
    pub fn message(&self) -> (r: String)
        ensures
            r@ == self@.words(),
    {
        match self {
            SubdlError::MissingCredentials => copy_text("missing SubDL credential: api_key"),
            SubdlError::Http(n, s) => cat4(
                "SubDL API error: HTTP ",
                decimal_text(*n as u64).as_str(),
                ": ",
                s.as_str(),
            ),
            SubdlError::NotFound => copy_text("subtitle not found"),
            SubdlError::NoSubtitleInZip => copy_text("subtitle archive contains no subtitle file"),
            SubdlError::Zip(s) => cat2("ZIP error: ", s.as_str()),
            SubdlError::Io(s) => cat2("IO error: ", s.as_str()),
            SubdlError::Reqwest(s) => cat2("reqwest error: ", s.as_str()),
            SubdlError::Json(s) => cat2("JSON error: ", s.as_str()),
        }
    }
}

// ---------------------------------------------------------------------------
// What answers hold
// ---------------------------------------------------------------------------

/// A rating, as it counts and as it is shown.
#[derive(Debug, Clone, PartialEq, Eq)]
pub struct Rating {
    /// Twice the rating, without decimals.
    pub doubled: i32,
    /// The rating with one decimal.
    pub text: String,
}

/// The answer to a search.
#[derive(Debug, Clone)]
pub struct SubdlSearchResponse {
    /// Whether the search has succeeded.
    pub status: Option<bool>,
    /// The titles found.
    pub results: Vec<SubdlTitleResult>,
    /// The subtitles found.
    pub subtitles: Vec<SubdlSubtitleItem>,
}

/// A title in the answer to a search.
#[derive(Debug, Clone)]
pub struct SubdlTitleResult {
    /// The number at IMDb.
    pub imdb_id: Option<String>,
    /// The number at TMDB.
    pub tmdb_id: Option<i64>,
    /// The kind.
    pub item_type: Option<String>,
    /// The name.
    pub name: Option<String>,
    /// The number at SubDL.
    pub sd_id: Option<i64>,
    /// The year.
    pub year: Option<i64>,
}

/// A subtitle in the answer to a search.
#[derive(Debug, Clone)]
pub struct SubdlSubtitleItem {
    /// The release it was made for.
    pub release_name: Option<String>,
    /// The name.
    pub name: Option<String>,
    /// The path of the archive.
    pub url: Option<String>,
    /// The language.
    pub language: Option<String>,
    /// The season.
    pub season: Option<u32>,
    /// The episode.
    pub episode: Option<u32>,
    /// Whether it is for all of a season.
    pub full_season: Option<bool>,
    /// Whether it is for the hearing impaired.
    pub hi: Option<bool>,
    /// The frames per second.
    pub fps: Option<String>,
    /// How often it was downloaded.
    pub download_count: Option<u32>,
    /// How it is rated.
    pub rating: Option<Rating>,
    /// The identifier.
    pub id: Option<String>,
    /// The identifier of the archive.
    pub n_id: Option<String>,
}

/// What a subtitle in the answer to a search means.
pub struct SubdlItemV {
    /// The release it was made for.
    pub release_name: Option<Seq<char>>,
    /// The path of the archive.
    pub url: Option<Seq<char>>,
    /// The language.
    pub language: Option<Seq<char>>,
    /// How often it was downloaded.
    pub download_count: Option<u32>,
    /// How it is rated.
    pub rating: Option<(i32, Seq<char>)>,
    /// The identifier.
    pub id: Option<Seq<char>>,
    /// The identifier of the archive.
    pub n_id: Option<Seq<char>>,
}

/// What an optional rating means.
pub open spec fn rating_opt(r: Option<Rating>) -> Option<(i32, Seq<char>)> {
    match r {
        Some(r) => Some((r.doubled, r.text@)),
        None => None,
    }
}

impl View for SubdlSubtitleItem {
    type V = SubdlItemV;

    open spec fn view(&self) -> SubdlItemV {
        SubdlItemV {
            release_name: text_opt(self.release_name),
            url: text_opt(self.url),
            language: text_opt(self.language),
            download_count: self.download_count,
            rating: rating_opt(self.rating),
            id: text_opt(self.id),
            n_id: text_opt(self.n_id),
        }
    }
}

/// What a list of subtitles means.
pub open spec fn subdl_items(v: Seq<SubdlSubtitleItem>) -> Seq<SubdlItemV> {
    Seq::new(v.len(), |i: int| v[i]@)
}

/// A subtitle that SubDL has found.
#[derive(Debug, Clone, PartialEq, Eq)]
pub struct SubdlCandidate {
    /// The identifier of the archive.
    pub subtitle_id: String,
    /// The language.
    pub language: String,
    /// How well it fits.
    pub score: i32,
    /// The release it was made for.
    pub release_name: Option<String>,
    /// How it is rated.
    pub rating: Option<Rating>,
    /// How often it was downloaded.
    pub download_count: Option<u32>,
}

/// What a subtitle that SubDL has found means.
pub struct SubdlCandidateV {
    /// The identifier of the archive.
    pub subtitle_id: Seq<char>,
    /// The language.
    pub language: Seq<char>,
    /// How well it fits.
    pub score: i32,
    /// The release it was made for.
    pub release_name: Option<Seq<char>>,
    /// How it is rated.
    pub rating: Option<(i32, Seq<char>)>,
    /// How often it was downloaded.
    pub download_count: Option<u32>,
}

impl View for SubdlCandidate {
    type V = SubdlCandidateV;

    open spec fn view(&self) -> SubdlCandidateV {
        SubdlCandidateV {
            subtitle_id: self.subtitle_id@,
            language: self.language@,
            score: self.score,
            release_name: text_opt(self.release_name),
            rating: rating_opt(self.rating),
            download_count: self.download_count,
        }
    }
}

/// What a list of candidates means.
pub open spec fn subdl_candidates(v: Seq<SubdlCandidate>) -> Seq<SubdlCandidateV> {
    Seq::new(v.len(), |i: int| v[i]@)
}

/// The outcome of a search.
#[derive(Debug, Clone, PartialEq, Eq)]
pub struct SubdlSearchOutcome {
    /// The subtitles found.
    pub candidates: Vec<SubdlCandidate>,
    /// Whether they were found in the cache.
    pub from_cache: bool,
}

// ---------------------------------------------------------------------------
// Identifiers and names
// ---------------------------------------------------------------------------

/// The identifier in the path or the address of an archive, or the text itself if it is neither.
pub open spec fn id_in_url(url: Seq<char>) -> Option<Seq<char>> {
    let t = trim(url, CharClass::White);
    if t.len() == 0 {
        None
    } else if before(t, CharClass::SlashOrDot).len() == t.len() {
        Some(t)
    } else {
        let id = before(after_last(t, CharClass::Is('/')), CharClass::Is('.'));
        if id.len() == 0 {
            None
        } else {
            Some(id)
        }
    }
}

/// The identifier in the path or the address of an archive.
pub fn subtitle_id_from_url(url: &str) -> (r: Option<String>)
    ensures
        text_opt(r) == id_in_url(url@),
{
    let t = trimmed(url, CharClass::White);
    if is_blank(t.as_str()) {
        return None;
    }
    let head = text_before(t.as_str(), CharClass::SlashOrDot);
    let whole = chars_of(head.as_str()).len() == chars_of(t.as_str()).len();
    if whole {
        return Some(t);
    }
    let last = text_after_last(t.as_str(), CharClass::Is('/'));
    let id = text_before(last.as_str(), CharClass::Is('.'));
    if is_blank(id.as_str()) {
        None
    } else {
        Some(id)
    }
}

impl SubdlItemV {
    /// The identifier of the archive: the one that is given, or else the one in its path.
    pub open spec fn archive_id(self) -> Option<Seq<char>> {
        let explicit = match self.n_id {
            Some(s) => Some(s),
            None => self.id,
        };
        if explicit is Some && trim(explicit->0, CharClass::White).len() > 0 {
            Some(trim(explicit->0, CharClass::White))
        } else {
            match self.url {
                Some(u) => id_in_url(u),
                None => None,
            }
        }
    }
}

impl SubdlSubtitleItem {
    /// The identifier of the archive.
    pub fn subtitle_id(&self) -> (r: Option<String>)
        ensures
            text_opt(r) == self@.archive_id(),
    {
        let explicit = match &self.n_id {
            Some(s) => Some(copy_text(s.as_str())),
            None => copy_opt(&self.id),
        };
        match explicit {
            Some(s) => {
                let t = trimmed(s.as_str(), CharClass::White);
                if !is_blank(t.as_str()) {
                    return Some(t);
                }
            },
            None => {},
        }
        match &self.url {
            Some(u) => subtitle_id_from_url(u.as_str()),
            None => None,
        }
    }
}

/// The name of a subtitle on screen.
pub open spec fn subdl_label_of(c: SubdlCandidateV) -> Seq<char> {
    (if is_indonesian(c.language) {
        "Indonesian"@
    } else {
        c.language
    }) + " [SubDL]"@ + (match c.release_name {
        Some(name) => " \u{b7} "@ + take_at_most(name, 40),
        None => Seq::empty(),
    }) + (match c.download_count {
        Some(n) => " \u{b7} "@ + decimal(n as nat) + " dl"@,
        None => Seq::empty(),
    }) + (match c.rating {
        Some((_, text)) => " \u{b7} "@ + text + "\u{2605}"@,
        None => Seq::empty(),
    })
}

/// The name of a subtitle on screen.
pub fn build_subdl_label(c: &SubdlCandidate) -> (r: String)
    ensures
        r@ == subdl_label_of(c@),
{
    let language = if speaks_indonesian(c.language.as_str()) {
        copy_text("Indonesian")
    } else {
        copy_text(c.language.as_str())
    };
    let release = match &c.release_name {
        Some(name) => cat2(" \u{b7} ", first_chars(name.as_str(), 40).as_str()),
        None => String::new(),
    };
    let count = match c.download_count {
        Some(n) => cat3(" \u{b7} ", decimal_text(n as u64).as_str(), " dl"),
        None => String::new(),
    };
    let rating = match &c.rating {
        Some(x) => cat3(" \u{b7} ", x.text.as_str(), "\u{2605}"),
        None => String::new(),
    };
    let mut r = cat4(language.as_str(), " [SubDL]", release.as_str(), count.as_str());
    r.append(rating.as_str());
    r
}

/// The marker of a subtitle in the list of subtitles.
pub fn subdl_marker(c: &SubdlCandidate) -> (r: String)
    ensures
        r@ == "subdl:"@ + c@.subtitle_id + ":"@ + c@.language,
{
    cat4("subdl:", c.subtitle_id.as_str(), ":", c.language.as_str())
}

/// The identifier and the language in the marker of a subtitle of SubDL, if it is one. A marker
/// without a language stands for an Indonesian subtitle.
pub open spec fn subdl_parts(s: Seq<char>) -> Option<(Seq<char>, Seq<char>)> {
    if !begins(s, "subdl:"@) {
        None
    } else {
        let rest = s.skip(6);
        let id = before(rest, CharClass::Is(':'));
        if id.len() == 0 {
            None
        } else {
            Some(
                (
                    id,
                    if id.len() < rest.len() {
                        rest.skip(id.len() as int + 1)
                    } else {
                        "id"@
                    },
                ),
            )
        }
    }
}

/// The identifier and the language in the marker of a subtitle of SubDL, if it is one.
pub fn parse_subdl_marker(marker: &str) -> (r: Option<(String, String)>)
    ensures
        match r {
            Some((id, lang)) => subdl_parts(marker@) == Some((id@, lang@)),
            None => subdl_parts(marker@) is None,
        },
{
    proof {
        reveal_strlit("subdl:");
    }
    if !begins_with(marker, "subdl:") {
        return None;
    }
    let v = chars_of(marker);
    let n: usize = v.len();
    let rest = text_range(v.as_slice(), 6, n);
    assert(rest@ =~= marker@.skip(6));
    let w = chars_of(rest.as_str());
    let m: usize = w.len();
    let id = text_before(rest.as_str(), CharClass::Is(':'));
    let k: usize = chars_of(id.as_str()).len();
    proof {
        lemma_before_prefix(rest@, CharClass::Is(':'));
    }
    if k == 0 {
        return None;
    }
    if k < m {
        let lang = text_range(w.as_slice(), k + 1, m);
        assert(lang@ =~= rest@.skip(k + 1));
        Some((id, lang))
    } else {
        Some((id, copy_text("id")))
    }
}

/// The identifier and the language of a subtitle are read back from its marker, if there is an
/// identifier and no colon stands in it.
pub proof fn law_subdl_marker_read_back(id: Seq<char>, lang: Seq<char>)
    requires
        id.len() > 0,
        forall|i: int| 0 <= i < id.len() ==> (#[trigger] id[i]) != ':',
    ensures
        subdl_parts("subdl:"@ + id + ":"@ + lang) == Some((id, lang)),
{
    reveal_strlit("subdl:");
    reveal_strlit(":");
    let s = "subdl:"@ + id + ":"@ + lang;
    let rest = s.skip(6);
    assert(s.subrange(0, 6) =~= "subdl:"@);
    assert(rest =~= id + ":"@ + lang);
    assert forall|j: int| 0 <= j < id.len() implies !CharClass::Is(':').holds(rest[j]) by {
        assert(rest[j] == id[j]);
    }
    assert(rest[id.len() as int] == ':');
    lemma_before(rest, CharClass::Is(':'), id.len() as int);
    assert(rest.take(id.len() as int) =~= id);
    assert(rest.skip(id.len() as int + 1) =~= lang);
}

/// Candidates as they stand in the list of subtitles: each with its name and its marker.
pub open spec fn subdl_options(v: Seq<SubdlCandidateV>) -> Seq<(Seq<char>, Seq<char>)> {
    Seq::new(
        v.len(),
        |i: int| (subdl_label_of(v[i]), "subdl:"@ + v[i].subtitle_id + ":"@ + v[i].language),
    )
}

/// Candidates as they stand in the list of subtitles.
pub fn list_subdl_candidates(v: &[SubdlCandidate]) -> (r: Vec<(String, String)>)
    ensures
        pairs(r@) == subdl_options(subdl_candidates(v@)),
{
    let mut r: Vec<(String, String)> = Vec::new();
    let mut i: usize = 0;
    while i < v.len()
        invariant
            i <= v@.len(),
            pairs(r@) =~= subdl_options(subdl_candidates(v@)).take(i as int),
        decreases v@.len() - i,
    {
        let ghost done = pairs(r@);
        let label = build_subdl_label(&v[i]);
        let marker = subdl_marker(&v[i]);
        let ghost pair = (label@, marker@);
        r.push((label, marker));
        assert(pairs(r@) =~= done.push(pair));
        assert(subdl_candidates(v@)[i as int] == v@[i as int]@);
        i = i + 1;
    }
    assert(pairs(r@) =~= subdl_options(subdl_candidates(v@)));
    r
}

/// The place of the candidate that is taken unasked: the first in Indonesian, or else the first.
pub open spec fn best_place(v: Seq<SubdlCandidateV>, from: int) -> Option<int>
    decreases v.len() - from,
{
    if from < 0 || from >= v.len() {
        if v.len() > 0 {
            Some(0int)
        } else {
            None
        }
    } else if is_indonesian(v[from].language) {
        Some(from)
    } else {
        best_place(v, from + 1)
    }
}

/// The candidate that is taken unasked: the first in Indonesian, or else the first.
pub fn pick_best_subdl_candidate(v: &[SubdlCandidate]) -> (r: Option<&SubdlCandidate>)
    ensures
        match r {
            Some(c) => best_place(subdl_candidates(v@), 0) is Some && c@ == v@[best_place(
                subdl_candidates(v@),
                0,
            )->0]@,
            None => v@.len() == 0,
        },
{
    let ghost list = subdl_candidates(v@);
    let mut i: usize = 0;
    while i < v.len()
        invariant
            i <= v@.len(),
            list == subdl_candidates(v@),
            best_place(list, 0) == best_place(list, i as int),
        decreases v@.len() - i,
    {
        assert(list[i as int] == v@[i as int]@);
        if speaks_indonesian(v[i].language.as_str()) {
            return Some(&v[i]);
        }
        i = i + 1;
    }
    if v.len() > 0 {
        Some(&v[0])
    } else {
        None
    }
}

/// The address of an archive, at the host that asks for no key.
pub fn subdl_download_url(subtitle_id: &str) -> (r: String)
    ensures
        r@ == "https://dl.subdl.com/subtitle/"@ + subtitle_id@ + ".zip"@,
{
    cat3("https://dl.subdl.com/subtitle/", subtitle_id, ".zip")
}

/// The identifier of an archive is read back from its address, if it is one that can stand there: it
/// is not empty and holds neither slashes nor dots.
pub proof fn law_archive_id_read_back(id: Seq<char>)
    requires
        id.len() > 0,
        forall|i: int| 0 <= i < id.len() ==> (#[trigger] id[i]) != '/' && id[i] != '.',
    ensures
        id_in_url("https://dl.subdl.com/subtitle/"@ + id + ".zip"@) == Some(id),
{
    reveal_strlit("https://dl.subdl.com/subtitle/");
    reveal_strlit(".zip");
    let host = "https://dl.subdl.com/subtitle/"@;
    let file = id + ".zip"@;
    let url = host + id + ".zip"@;
    assert(url[0] == 'h');
    assert(url.last() == 'p');
    lemma_nothing_to_trim(url, CharClass::White);
    assert(url[6] == '/');
    lemma_before(url, CharClass::SlashOrDot, 6);
    assert(url[29] == '/');
    assert(url.skip(30) =~= file);
    assert forall|j: int| 30 <= j < url.len() implies !CharClass::Is('/').holds(url[j]) by {
        assert(url[j] == file[j - 30]);
        if j - 30 < id.len() {
            assert(file[j - 30] == id[j - 30]);
        }
    }
    lemma_after_last(url, CharClass::Is('/'), 30);
    assert forall|j: int| 0 <= j < id.len() implies !CharClass::Is('.').holds(file[j]) by {
        assert(file[j] == id[j]);
    }
    assert(file[id.len() as int] == '.');
    lemma_before(file, CharClass::Is('.'), id.len() as int);
    assert(file.take(id.len() as int) =~= id);
}

// ---------------------------------------------------------------------------
// Scores
// ---------------------------------------------------------------------------

/// The year that a release is held against: the one searched for, or else that of the title found.
pub open spec fn year_wanted(ctx: SubtitleContextV, title_year: Option<i64>) -> Option<Seq<char>> {
    match ctx.year {
        Some(y) => Some(y),
        None => match title_year {
            Some(n) => Some(decimal_int(n as int)),
            None => None,
        },
    }
}

/// How well a subtitle fits: 50 for Indonesian, 15 for the year and 20 for the title in the name of
/// the release, up to 10 for its downloads, and up to 20 for its rating.
pub open spec fn subdl_score(
    item: SubdlItemV,
    ctx: SubtitleContextV,
    title_year: Option<i64>,
) -> int {
    let language = match item.language {
        Some(l) => l,
        None => Seq::empty(),
    };
    let year = year_wanted(ctx, title_year);
    (if is_indonesian(language) {
        50int
    } else {
        0
    }) + (if year is Some && item.release_name is Some && has(item.release_name->0, year->0) {
        15int
    } else {
        0
    }) + (if item.release_name is Some && title_in_release(ctx.title, item.release_name->0) {
        20int
    } else {
        0
    }) + (match item.download_count {
        Some(n) => if n < 100_000 {
            n as int / 10_000
        } else {
            10int
        },
        None => 0,
    }) + (match item.rating {
        Some((doubled, _)) => if doubled < 0 {
            0int
        } else if doubled > 20 {
            20int
        } else {
            doubled as int
        },
        None => 0,
    })
}

/// How well a subtitle fits.
pub fn score_subdl_candidate(
    item: &SubdlSubtitleItem,
    ctx: &SubtitleContext,
    title_year: Option<i64>,
) -> (r: i32)
    ensures
        r == subdl_score(item@, ctx@, title_year),
        0 <= r <= 115,
{
    let mut score: i32 = 0;
    let indonesian = match &item.language {
        Some(l) => speaks_indonesian(l.as_str()),
        None => speaks_indonesian(""),
    };
    proof {
        reveal_strlit("");
        assert(""@ =~= Seq::empty());
    }
    if indonesian {
        score = score + 50;
    }
    let year = match &ctx.year {
        Some(y) => Some(copy_text(y.as_str())),
        None => match title_year {
            Some(n) => Some(decimal_int_text(n)),
            None => None,
        },
    };
    let in_year = match (&year, &item.release_name) {
        (Some(y), Some(r)) => holds_text(r.as_str(), y.as_str()),
        _ => false,
    };
    if in_year {
        score = score + 15;
    }
    let in_title = match &item.release_name {
        Some(r) => release_has_title(ctx.title.as_str(), r.as_str()),
        None => false,
    };
    if in_title {
        score = score + 20;
    }
    match item.download_count {
        Some(n) => {
            let bonus: u32 = if n < 100_000 {
                n / 10_000
            } else {
                10
            };
            score = score + bonus as i32;
        },
        None => {},
    }
    match &item.rating {
        Some(x) => {
            if x.doubled > 20 {
                score = score + 20;
            } else if x.doubled > 0 {
                score = score + x.doubled;
            }
        },
        None => {},
    }
    score
}

/// The candidate that a subtitle becomes, if its archive is known.
pub open spec fn subdl_candidate_of(
    item: SubdlItemV,
    ctx: SubtitleContextV,
    title_year: Option<i64>,
) -> Option<SubdlCandidateV> {
    match item.archive_id() {
        Some(subtitle_id) => Some(
            SubdlCandidateV {
                subtitle_id,
                language: match item.language {
                    Some(l) => l,
                    None => "id"@,
                },
                score: subdl_score(item, ctx, title_year) as i32,
                release_name: item.release_name,
                rating: item.rating,
                download_count: item.download_count,
            },
        ),
        None => None,
    }
}

/// The candidates that subtitles become.
pub open spec fn all_subdl_candidates(
    v: Seq<SubdlItemV>,
    ctx: SubtitleContextV,
    title_year: Option<i64>,
) -> Seq<SubdlCandidateV>
    decreases v.len(),
{
    if v.len() == 0 {
        Seq::empty()
    } else {
        let rest = all_subdl_candidates(v.drop_last(), ctx, title_year);
        match subdl_candidate_of(v.last(), ctx, title_year) {
            Some(c) => rest.push(c),
            None => rest,
        }
    }
}

/// Where a score is put among the first `n` candidates: behind all that are not lower.
pub open spec fn subdl_place(v: Seq<SubdlCandidateV>, score: i32, n: int) -> int
    decreases n,
{
    if n <= 0 {
        0
    } else if v[n - 1].score < score {
        subdl_place(v, score, n - 1)
    } else {
        n
    }
}

/// Candidates from the highest score down, those of the same in the order they had.
pub open spec fn subdl_by_score(v: Seq<SubdlCandidateV>) -> Seq<SubdlCandidateV>
    decreases v.len(),
{
    if v.len() == 0 {
        v
    } else {
        let s = subdl_by_score(v.drop_last());
        s.insert(subdl_place(s, v.last().score, s.len() as int), v.last())
    }
}

/// The five best candidates.
pub open spec fn subdl_best_five(v: Seq<SubdlCandidateV>) -> Seq<SubdlCandidateV> {
    if v.len() <= 5 {
        subdl_by_score(v)
    } else {
        subdl_by_score(v).take(5)
    }
}

/// What stands ahead of a score's place, and what stands behind it.
proof fn lemma_subdl_place(v: Seq<SubdlCandidateV>, score: i32, n: int)
    requires
        0 <= n <= v.len(),
    ensures
        ({
            let p = subdl_place(v, score, n);
            &&& 0 <= p <= n
            &&& forall|i: int| p <= i < n ==> (#[trigger] v[i]).score < score
            &&& p > 0 ==> v[p - 1].score >= score
        }),
    decreases n,
{
    if n > 0 && v[n - 1].score < score {
        lemma_subdl_place(v, score, n - 1);
    }
}

/// Ordered candidates are the same candidates, from the highest score down.
pub proof fn law_subdl_by_score(v: Seq<SubdlCandidateV>)
    ensures
        forall|i: int, j: int|
            0 <= i < j < subdl_by_score(v).len() ==> (#[trigger] subdl_by_score(v)[i]).score >= (
            #[trigger] subdl_by_score(v)[j]).score,
        subdl_by_score(v).len() == v.len(),
        subdl_by_score(v).to_multiset() == v.to_multiset(),
    decreases v.len(),
{
    if v.len() > 0 {
        law_subdl_by_score(v.drop_last());
        let s = subdl_by_score(v.drop_last());
        let x = v.last();
        lemma_subdl_place(s, x.score, s.len() as int);
        let p = subdl_place(s, x.score, s.len() as int);
        let out = s.insert(p, x);
        assert forall|i: int, j: int| 0 <= i < j < out.len() implies (#[trigger] out[i]).score >= (
        #[trigger] out[j]).score by {
            if i == p {
                assert(out[j] == s[j - 1]);
            } else if j == p {
                assert(out[i] == s[i]);
                if i < p - 1 {
                    assert(s[i].score >= s[p - 1].score);
                }
            } else {
                let a = if i < p { i } else { i - 1 };
                let b = if j < p { j } else { j - 1 };
                assert(out[i] == s[a] && out[j] == s[b]);
            }
        }
        vstd::seq_lib::to_multiset_insert(s, p, x);
        vstd::seq_lib::to_multiset_build(v.drop_last(), x);
        assert(v =~= v.drop_last().push(x));
    }
}

/// A copy of an optional rating.
fn copy_rating(r: &Option<Rating>) -> (c: Option<Rating>)
    ensures
        rating_opt(c) == rating_opt(*r),
{
    match r {
        Some(r) => Some(Rating { doubled: r.doubled, text: copy_text(r.text.as_str()) }),
        None => None,
    }
}

/// The candidate that a subtitle becomes, if its archive is known.
fn make_candidate(item: &SubdlSubtitleItem, ctx: &SubtitleContext, title_year: Option<i64>) -> (r:
    Option<SubdlCandidate>)
    ensures
        match r {
            Some(c) => subdl_candidate_of(item@, ctx@, title_year) == Some(c@),
            None => subdl_candidate_of(item@, ctx@, title_year) is None,
        },
{
    match item.subtitle_id() {
        Some(subtitle_id) => {
            let language = match &item.language {
                Some(l) => copy_text(l.as_str()),
                None => copy_text("id"),
            };
            let score = score_subdl_candidate(item, ctx, title_year);
            Some(
                SubdlCandidate {
                    subtitle_id,
                    language,
                    score,
                    release_name: copy_opt(&item.release_name),
                    rating: copy_rating(&item.rating),
                    download_count: item.download_count,
                },
            )
        },
        None => None,
    }
}

/// Puts a candidate among those in order, behind all that are not lower.
fn place_candidate(r: &mut Vec<SubdlCandidate>, x: SubdlCandidate)
    ensures
        ({
            let s = subdl_candidates(old(r)@);
            subdl_candidates(final(r)@) == s.insert(
                subdl_place(s, x@.score, s.len() as int),
                x@,
            )
        }),
{
    let ghost sorted = subdl_candidates(r@);
    let mut i: usize = r.len();
    while i > 0 && r[i - 1].score < x.score
        invariant
            i <= r@.len(),
            r@ == old(r)@,
            subdl_candidates(r@) == sorted,
            subdl_place(sorted, x.score, sorted.len() as int) == subdl_place(
                sorted,
                x.score,
                i as int,
            ),
        decreases i,
    {
        assert(sorted[i - 1] == r@[i - 1]@);
        i = i - 1;
    }
    proof {
        if i > 0 {
            assert(sorted[i - 1] == r@[i - 1]@);
        }
    }
    r.insert(i, x);
    assert(subdl_candidates(r@) =~= sorted.insert(i as int, x@));
}

/// The year of the first title found.
pub open spec fn first_year(v: Seq<SubdlTitleResult>) -> Option<i64> {
    if v.len() > 0 {
        v[0].year
    } else {
        None
    }
}

/// The five best candidates in the answer to a search.
pub fn parse_and_score_search(search_res: &SubdlSearchResponse, ctx: &SubtitleContext) -> (r: Vec<
    SubdlCandidate,
>)
    ensures
        subdl_candidates(r@) == subdl_best_five(
            all_subdl_candidates(
                subdl_items(search_res.subtitles@),
                ctx@,
                first_year(search_res.results@),
            ),
        ),
{
    let title_year: Option<i64> = if search_res.results.len() > 0 {
        search_res.results[0].year
    } else {
        None
    };
    let ghost list = subdl_items(search_res.subtitles@);
    let mut best: Vec<SubdlCandidate> = Vec::new();
    let mut i: usize = 0;
    proof {
        assert(list.take(0) =~= Seq::empty());
        assert(subdl_candidates(best@) =~= Seq::empty());
    }
    while i < search_res.subtitles.len()
        invariant
            i <= search_res.subtitles@.len(),
            list == subdl_items(search_res.subtitles@),
            subdl_candidates(best@) == subdl_by_score(
                all_subdl_candidates(list.take(i as int), ctx@, title_year),
            ),
        decreases search_res.subtitles@.len() - i,
    {
        let ghost all = all_subdl_candidates(list.take(i as int), ctx@, title_year);
        proof {
            assert(list.take(i + 1).drop_last() =~= list.take(i as int));
            assert(list.take(i + 1).last() == search_res.subtitles@[i as int]@);
        }
        match make_candidate(&search_res.subtitles[i], ctx, title_year) {
            Some(c) => {
                proof {
                    assert(all.push(c@).drop_last() =~= all);
                    assert(all.push(c@).last() == c@);
                }
                place_candidate(&mut best, c);
            },
            None => {},
        }
        i = i + 1;
    }
    proof {
        assert(list.take(list.len() as int) =~= list);
        law_subdl_by_score(all_subdl_candidates(list, ctx@, title_year));
    }
    let ghost sorted = subdl_candidates(best@);
    if best.len() > 5 {
        best.truncate(5);
    }
    assert(subdl_candidates(best@) =~= if sorted.len() <= 5 {
        sorted
    } else {
        sorted.take(5)
    });
    best
}

// ---------------------------------------------------------------------------
// Requests
// ---------------------------------------------------------------------------

/// A query with pairs put behind it one by one.
pub open spec fn with_pairs(query: Seq<char>, v: Seq<(Seq<char>, Seq<char>)>) -> Seq<char>
    decreases v.len(),
{
    if v.len() == 0 {
        query
    } else {
        with_pair(with_pairs(query, v.drop_last()), v.last().0, v.last().1)
    }
}

/// The parameters of a search.
pub open spec fn subdl_params(ctx: SubtitleContextV, languages: Seq<char>) -> Seq<
    (Seq<char>, Seq<char>),
> {
    seq![("languages"@, languages)] + (match ctx.imdb_id {
        Some(id) => seq![("imdb_id"@, id)],
        None => match ctx.year {
            Some(y) => seq![("film_name"@, ctx.title), ("year"@, y)],
            None => seq![("film_name"@, ctx.title)],
        },
    }) + (if ctx.is_episode {
        seq![("type"@, "tv"@)] + (match ctx.season {
            Some(n) => seq![("season"@, decimal(n as nat))],
            None => Seq::empty(),
        }) + (match ctx.episode {
            Some(n) => seq![("episode"@, decimal(n as nat))],
            None => Seq::empty(),
        })
    } else {
        seq![("type"@, "movie"@)]
    }) + seq![("subs_per_page"@, "30"@)]
}

/// The parameters of a search.
pub fn make_subdl_params(ctx: &SubtitleContext, languages: &str) -> (r: Vec<(String, String)>)
    ensures
        crate::tui::state::pairs(r@) == subdl_params(ctx@, languages@),
{
    let mut v: Vec<(String, String)> = Vec::new();
    v.push((copy_text("languages"), copy_text(languages)));
    match &ctx.imdb_id {
        Some(id) => v.push((copy_text("imdb_id"), copy_text(id.as_str()))),
        None => {
            v.push((copy_text("film_name"), copy_text(ctx.title.as_str())));
            match &ctx.year {
                Some(y) => v.push((copy_text("year"), copy_text(y.as_str()))),
                None => {},
            }
        },
    }
    if ctx.is_episode {
        v.push((copy_text("type"), copy_text("tv")));
        match ctx.season {
            Some(n) => v.push((copy_text("season"), decimal_text(n as u64))),
            None => {},
        }
        match ctx.episode {
            Some(n) => v.push((copy_text("episode"), decimal_text(n as u64))),
            None => {},
        }
    } else {
        v.push((copy_text("type"), copy_text("movie")));
    }
    v.push((copy_text("subs_per_page"), copy_text("30")));
    assert(crate::tui::state::pairs(v@) =~= subdl_params(ctx@, languages@));
    v
}

/// The query string of pairs.
pub fn form_query(v: &Vec<(String, String)>) -> (r: String)
    ensures
        r@ == with_pairs(Seq::empty(), crate::tui::state::pairs(v@)),
{
    let ghost list = crate::tui::state::pairs(v@);
    let mut query = String::new();
    let mut i: usize = 0;
    assert(list.take(0) =~= Seq::empty());
    while i < v.len()
        invariant
            i <= v@.len(),
            list == crate::tui::state::pairs(v@),
            query@ == with_pairs(Seq::empty(), list.take(i as int)),
        decreases v@.len() - i,
    {
        proof {
            assert(list.take(i + 1).drop_last() =~= list.take(i as int));
            assert(list.take(i + 1).last() == (v@[i as int].0@, v@[i as int].1@));
        }
        query = append_pair(query, v[i].0.as_str(), v[i].1.as_str());
        i = i + 1;
    }
    assert(list.take(list.len() as int) =~= list);
    query
}

/// A request: its address, and what it is authorised by.
pub struct SubdlRequest {
    /// The address.
    pub url: String,
    /// What it is authorised by.
    pub authorization: String,
}

/// A client of SubDL.
pub struct SubdlClient {
    /// How the service is reached.
    pub config: SubdlConfig,
}

impl SubdlClient {
    /// The address of the service.
    pub open spec fn address(self) -> Seq<char> {
        match self.config.base_url {
            Some(s) => s@,
            None => "https://api.subdl.com/api/v2"@,
        }
    }

    /// The languages wanted, as the service takes them.
    pub open spec fn languages(self) -> Seq<char> {
        join(texts(self.config.languages@), ","@)
    }

    /// A client.
    pub fn new(config: SubdlConfig) -> (r: SubdlClient)
        ensures
            r.config == config,
    {
        SubdlClient { config }
    }

    /// A client with the settings that the environment gives.
    pub fn from_env(env: SubdlEnv) -> (r: SubdlClient)
        ensures
            r.config.enabled == switched_on(text_opt(env.enabled)),
            texts(r.config.languages@) == languages_in(text_opt(env.languages)),
            r.config.api_key == env.api_key,
            r.config.base_url == env.base_url,
    {
        SubdlClient::new(SubdlConfig::from_env(env))
    }

    /// Whether SubDL can be used.
    pub fn enabled(&self) -> (r: bool)
        ensures
            r == self.config.usable(),
    {
        self.config.enabled()
    }

    /// The address of the service.
    fn base_url(&self) -> (r: String)
        ensures
            r@ == self.address(),
    {
        match &self.config.base_url {
            Some(s) => copy_text(s.as_str()),
            None => copy_text("https://api.subdl.com/api/v2"),
        }
    }

    /// The key that a search is cached under, apart from those of other services.
    pub fn query_key(&self, ctx: &SubtitleContext) -> (r: String)
        ensures
            r@ == "subdl:"@ + key_of(search_parts(ctx@, self.languages())),
    {
        let languages = join_texts(&self.config.languages, ",");
        cat2("subdl:", search_query_key(ctx, languages.as_str()).as_str())
    }

    /// The request that a search makes where the cache has no answer.
    pub fn search(&self, ctx: &SubtitleContext) -> (r: Result<SubdlRequest, SubdlError>)
        ensures
            match r {
                Ok(q) => self.config.api_key is Some && q.authorization@ == "Bearer "@
                    + self.config.api_key->0@ && q.url@ == self.address() + "/subtitles/search?"@
                    + with_pairs(Seq::empty(), subdl_params(ctx@, self.languages())),
                Err(e) => self.config.api_key is None && e@ == SubdlErrorV::MissingCredentials,
            },
    {
        let authorization = match &self.config.api_key {
            Some(s) => cat2("Bearer ", s.as_str()),
            None => {
                return Err(SubdlError::MissingCredentials);
            },
        };
        let languages = join_texts(&self.config.languages, ",");
        let params = make_subdl_params(ctx, languages.as_str());
        let url = cat3(
            self.base_url().as_str(),
            "/subtitles/search?",
            form_query(&params).as_str(),
        );
        Ok(SubdlRequest { url, authorization })
    }

    /// The outcome of a search, from the cache or from the service.
    pub fn search_outcome(
        search_res: &SubdlSearchResponse,
        ctx: &SubtitleContext,
        from_cache: bool,
    ) -> (r: SubdlSearchOutcome)
        ensures
            subdl_candidates(r.candidates@) == subdl_best_five(
                all_subdl_candidates(
                    subdl_items(search_res.subtitles@),
                    ctx@,
                    first_year(search_res.results@),
                ),
            ),
            r.from_cache == from_cache,
    {
        SubdlSearchOutcome { candidates: parse_and_score_search(search_res, ctx), from_cache }
    }

    /// Why the answer to a search is refused, if it is.
    pub fn refuse(status: u16, body: &str) -> (r: Option<SubdlError>)
        ensures
            match r {
                Some(e) => !(200 <= status <= 299) && e@ == SubdlErrorV::Http(
                    status,
                    snippet(body@),
                ),
                None => 200 <= status <= 299,
            },
    {
        if 200 <= status && status <= 299 {
            None
        } else {
            Some(SubdlError::Http(status, body_snippet(body)))
        }
    }

    /// What is made of an archive, or of the status that came in its place. The words are those of
    /// the error that the status stands for, if it does.
    pub fn download_bytes(status: u16, words: &str, bytes: &[u8]) -> (r: Result<
        (String, Vec<u8>),
        SubdlError,
    >)
        ensures
            status == 404 ==> r is Err && r->Err_0@ == SubdlErrorV::NotFound,
            400 <= status <= 599 && status != 404 ==> r is Err && r->Err_0@
                == SubdlErrorV::Reqwest(words@),
            !(400 <= status <= 599) ==> extracted(r) == first_in_archive(bytes@),
    {
        if status == 404 {
            return Err(SubdlError::NotFound);
        }
        if 400 <= status && status <= 599 {
            return Err(SubdlError::Reqwest(copy_text(words)));
        }
        extract_first_subtitle_from_zip(bytes)
    }
}

// ---------------------------------------------------------------------------
// Archives
// ---------------------------------------------------------------------------

/// A path with slashes for backslashes.
pub open spec fn slashed(s: Seq<char>) -> Seq<char> {
    s.map_values(
        |c: char|
            if c == '\\' {
                '/'
            } else {
                c
            },
    )
}

/// The name of the file that an entry of an archive stands for, unless its path is absolute or leads
/// upwards.
pub open spec fn basename_of(name: Seq<char>) -> Option<Seq<char>> {
    let path = slashed(name);
    if begins(path, "/"@) || has(path, ".."@) {
        None
    } else {
        let base = after_last(path, CharClass::Is('/'));
        if base.len() == 0 {
            None
        } else {
            Some(base)
        }
    }
}

/// The name of the file that an entry of an archive stands for, unless its path is absolute or leads
/// upwards.
pub fn safe_basename(name: &str) -> (r: Option<String>)
    ensures
        text_opt(r) == basename_of(name@),
{
    let v = chars_of(name);
    let mut path: Vec<char> = Vec::new();
    let mut i: usize = 0;
    while i < v.len()
        invariant
            i <= v@.len(),
            v@ == name@,
            path@ =~= slashed(name@).take(i as int),
        decreases v@.len() - i,
    {
        path.push(
            if v[i] == '\\' {
                '/'
            } else {
                v[i]
            },
        );
        i = i + 1;
    }
    assert(path@ =~= slashed(name@));
    let text = text_of(path.as_slice());
    if begins_with(text.as_str(), "/") || holds_text(text.as_str(), "..") {
        return None;
    }
    let base = text_after_last(text.as_str(), CharClass::Is('/'));
    if is_blank(base.as_str()) {
        None
    } else {
        Some(base)
    }
}

/// What stands behind the last character of a class is the end of the text, and has none of them.
proof fn lemma_after_last_free(s: Seq<char>, k: CharClass)
    ensures
        after_last(s, k).len() <= s.len(),
        after_last(s, k) == s.skip(s.len() - after_last(s, k).len()),
        forall|i: int| 0 <= i < after_last(s, k).len() ==> !k.holds(#[trigger] after_last(s, k)[i]),
    decreases s.len(),
{
    if s.len() == 0 || k.holds(s.last()) {
        assert(s.skip(s.len() as int) =~= Seq::empty());
    } else {
        lemma_after_last_free(s.drop_last(), k);
        let t = after_last(s.drop_last(), k);
        assert(t.push(s.last()) =~= s.skip(s.len() - t.len() - 1));
    }
}

/// The name of a file taken from an archive cannot lead out of a directory: it is not empty, has no
/// slash of either kind, and no two dots in a row.
pub proof fn law_basename_is_safe(name: Seq<char>)
    requires
        basename_of(name) is Some,
    ensures
        basename_of(name)->0.len() > 0,
        forall|i: int|
            0 <= i < basename_of(name)->0.len() ==> (#[trigger] basename_of(name)->0[i]) != '/'
                && basename_of(name)->0[i] != '\\',
        !(has(basename_of(name)->0, ".."@)),
{
    reveal_strlit("..");
    let path = slashed(name);
    let base = basename_of(name)->0;
    lemma_after_last_free(path, CharClass::Is('/'));
    let k = path.len() - base.len();
    assert forall|i: int| 0 <= i < base.len() implies (#[trigger] base[i]) != '/' && base[i]
        != '\\' by {
        assert(base[i] == path[k + i]);
    }
    if has(base, ".."@) {
        let i = choose|i: int| occurs_at(base, ".."@, i);
        assert(path.subrange(k + i, k + i + 2) =~= base.subrange(i, i + 2));
        assert(occurs_at(path, ".."@, k + i));
    }
}

/// The extension of a subtitle file, in lower case, if it is one.
pub open spec fn subtitle_ext(name: Seq<char>) -> Option<Seq<char>> {
    let ext = lower_text(after_last(name, CharClass::Is('.')));
    if ext == "srt"@ || ext == "vtt"@ || ext == "ass"@ || ext == "ssa"@ || ext == "sub"@ {
        Some(ext)
    } else {
        None
    }
}

/// The extension of a subtitle file, in lower case, if it is one.
pub fn subtitle_ext_of(name: &str) -> (r: Option<&'static str>)
    ensures
        match r {
            Some(s) => subtitle_ext(name@) == Some(s@),
            None => subtitle_ext(name@) is None,
        },
{
    let ext = to_lower(text_after_last(name, CharClass::Is('.')).as_str());
    if same_text(ext.as_str(), "srt") {
        Some("srt")
    } else if same_text(ext.as_str(), "vtt") {
        Some("vtt")
    } else if same_text(ext.as_str(), "ass") {
        Some("ass")
    } else if same_text(ext.as_str(), "ssa") {
        Some("ssa")
    } else if same_text(ext.as_str(), "sub") {
        Some("sub")
    } else {
        None
    }
}

/// Whether an entry of an archive is a directory: its name ends in a slash of either kind.
pub open spec fn is_dir(name: Seq<char>) -> bool {
    name.len() > 0 && (name.last() == '/' || name.last() == '\\')
}

/// The extension of the subtitle that an entry of an archive holds, if it holds one.
pub open spec fn usable_entry(name: Seq<char>) -> Option<Seq<char>> {
    if is_dir(name) {
        None
    } else {
        match basename_of(name) {
            Some(base) => subtitle_ext(base),
            None => None,
        }
    }
}

/// The extension of the subtitle that an entry of an archive holds, if it holds one.
pub fn entry_extension(name: &str) -> (r: Option<&'static str>)
    ensures
        match r {
            Some(s) => usable_entry(name@) == Some(s@),
            None => usable_entry(name@) is None,
        },
{
    let v = chars_of(name);
    if v.len() > 0 && (v[v.len() - 1] == '/' || v[v.len() - 1] == '\\') {
        return None;
    }
    match safe_basename(name) {
        Some(base) => subtitle_ext_of(base.as_str()),
        None => None,
    }
}

/// An entry of an archive: its name and its contents, or why they cannot be had.
pub struct Entry {
    /// The name.
    pub name: Result<String, String>,
    /// The contents.
    pub contents: Result<Vec<u8>, String>,
}

/// What an entry of an archive means.
pub struct EntryV {
    /// The name.
    pub name: Result<Seq<char>, Seq<char>>,
    /// The contents.
    pub contents: Result<Seq<u8>, Seq<char>>,
}

impl View for Entry {
    type V = EntryV;

    open spec fn view(&self) -> EntryV {
        EntryV {
            name: match self.name {
                Ok(s) => Ok(s@),
                Err(e) => Err(e@),
            },
            contents: match self.contents {
                Ok(v) => Ok(v@),
                Err(e) => Err(e@),
            },
        }
    }
}

/// What entries mean.
pub open spec fn entries(v: Seq<Entry>) -> Seq<EntryV> {
    Seq::new(v.len(), |i: int| v[i]@)
}

/// The extension and the contents of the first subtitle among entries. An entry that cannot be read
/// ends the search.
pub open spec fn first_subtitle(v: Seq<EntryV>) -> Result<(Seq<char>, Seq<u8>), SubdlErrorV>
    decreases v.len(),
{
    if v.len() == 0 {
        Err(SubdlErrorV::NoSubtitleInZip)
    } else {
        match v[0].name {
            Err(e) => Err(SubdlErrorV::Zip(e)),
            Ok(name) => match usable_entry(name) {
                Some(ext) => match v[0].contents {
                    Ok(b) => Ok((ext, b)),
                    Err(e) => Err(SubdlErrorV::Io(e)),
                },
                None => first_subtitle(v.skip(1)),
            },
        }
    }
}

/// The entries of an archive.
pub open spec fn archive_entries(bytes: Seq<u8>, n: usize) -> Seq<EntryV> {
    Seq::new(
        n as nat,
        |i: int|
            EntryV {
                name: archive_entry_name(bytes, i as usize),
                contents: archive_entry_bytes(bytes, i as usize),
            },
    )
}

/// The extension and the contents of the first subtitle in an archive.
pub open spec fn first_in_archive(bytes: Seq<u8>) -> Result<(Seq<char>, Seq<u8>), SubdlErrorV> {
    match archive_len(bytes) {
        Ok(n) => first_subtitle(archive_entries(bytes, n)),
        Err(e) => Err(SubdlErrorV::Zip(e)),
    }
}

/// What a subtitle taken from an archive means.
pub open spec fn extracted(r: Result<(String, Vec<u8>), SubdlError>) -> Result<
    (Seq<char>, Seq<u8>),
    SubdlErrorV,
> {
    match r {
        Ok(p) => Ok((p.0@, p.1@)),
        Err(e) => Err(e@),
    }
}

/// The extension and the contents of the first subtitle among entries.
#[verifier::loop_isolation(false)]
pub fn extract_from_entries(v: Vec<Entry>) -> (r: Result<(String, Vec<u8>), SubdlError>)
    ensures
        extracted(r) == first_subtitle(entries(v@)),
{
    let ghost list = entries(v@);
    let n: usize = v.len();
    let mut rest: Vec<Entry> = v;
    let mut i: usize = 0;
    assert(list.skip(0) =~= list);
    while i < n
        invariant
            i <= n == list.len(),
            entries(rest@) == list.skip(i as int),
            first_subtitle(list) == first_subtitle(list.skip(i as int)),
        decreases n - i,
    {
        let ghost tail = list.skip(i as int);
        let ghost whole = rest@;
        proof {
            assert(entries(rest@).len() == n - i);
            assert(tail[0] == rest@[0]@);
            assert(tail.skip(1) =~= list.skip(i + 1));
        }
        let e = rest.remove(0);
        proof {
            assert(rest@ =~= whole.skip(1));
            assert(entries(rest@) =~= tail.skip(1));
        }
        match e.name {
            Err(text) => {
                return Err(SubdlError::Zip(text));
            },
            Ok(name) => match entry_extension(name.as_str()) {
                Some(ext) => {
                    return match e.contents {
                        Ok(b) => Ok((copy_text(ext), b)),
                        Err(text) => Err(SubdlError::Io(text)),
                    };
                },
                None => {},
            },
        }
        i = i + 1;
    }
    assert(list.skip(i as int) =~= Seq::empty());
    Err(SubdlError::NoSubtitleInZip)
}

/// The extension and the contents of the first subtitle in an archive.
pub fn extract_first_subtitle_from_zip(bytes: &[u8]) -> (r: Result<(String, Vec<u8>), SubdlError>)
    ensures
        extracted(r) == first_in_archive(bytes@),
{
    let n: usize = match zip_len(bytes) {
        Ok(n) => n,
        Err(e) => {
            return Err(SubdlError::Zip(e));
        },
    };
    let ghost list = archive_entries(bytes@, n);
    let mut i: usize = 0;
    assert(list.skip(0) =~= list);
    while i < n
        invariant
            i <= n,
            archive_len(bytes@) == Ok::<usize, Seq<char>>(n),
            list == archive_entries(bytes@, n),
            first_subtitle(list) == first_subtitle(list.skip(i as int)),
        decreases n - i,
    {
        proof {
            assert(list.skip(i as int)[0] == list[i as int]);
            assert(list.skip(i as int).skip(1) =~= list.skip(i + 1));
        }
        match zip_entry_name(bytes, i) {
            Err(e) => {
                return Err(SubdlError::Zip(e));
            },
            Ok(name) => match entry_extension(name.as_str()) {
                Some(ext) => {
                    return match zip_entry_bytes(bytes, i) {
                        Ok(b) => Ok((copy_text(ext), b)),
                        Err(e) => Err(SubdlError::Io(e)),
                    };
                },
                None => {},
            },
        }
        i = i + 1;
    }
    assert(list.skip(i as int) =~= Seq::empty());
    Err(SubdlError::NoSubtitleInZip)
}

/// A candidate that comes last stands behind all with the same or a higher score, and before all others.
pub proof fn law_subdl_place(v: Seq<SubdlCandidateV>, x: SubdlCandidateV)
    ensures
        exists|p: int|
            0 <= p <= subdl_by_score(v).len() && #[trigger] subdl_by_score(v).insert(p, x) == subdl_by_score(v.push(x))
                && (forall|i: int| 0 <= i < p ==> (#[trigger] subdl_by_score(v)[i]).score >= x.score) && (forall|i: int|
                p <= i < subdl_by_score(v).len() ==> (#[trigger] subdl_by_score(v)[i]).score < x.score),
{
    assert(v.push(x).drop_last() =~= v);
    let s = subdl_by_score(v);
    lemma_subdl_place(s, x.score, s.len() as int);
    let p = subdl_place(s, x.score, s.len() as int);
    assert(s.insert(p, x) == subdl_by_score(v.push(x)));
    law_subdl_by_score(v);
    assert forall|i: int| 0 <= i < p implies (#[trigger] s[i]).score >= x.score by {
        if i < p - 1 {
            assert(s[i].score >= s[p - 1].score);
        }
    }
}

/// The five best candidates are the first five, or all where there are no more.
pub proof fn law_subdl_five_are_kept(v: Seq<SubdlCandidateV>)
    ensures
        v.len() <= 5 ==> subdl_best_five(v) == subdl_by_score(v),
        v.len() > 5 ==> subdl_best_five(v) == subdl_by_score(v).subrange(0, 5),
{
    law_subdl_by_score(v);
    if v.len() > 5 {
        assert(subdl_best_five(v) =~= subdl_by_score(v).subrange(0, 5));
    }
}

} // verus!
