//! Subtitles: what is searched for, what is found, how it is ranked and named.
use vstd::prelude::*;
use vstd::utf8::encode_utf8;
use crate::json::{Json, JsonV, text_in, text_of_json};
use crate::numbers::{all_digits, decimal, decimal_text};
use crate::outside::{lowercase, to_lowercase};
use crate::providers::models::ProviderKind;
use crate::providers::subtitles::opensubtitles::{
    OpenSubtitlesError, SubtitleItem, SubtitleItemV,
};
use crate::strings::{
    CharClass, begins, begins_with, cat2, cat3, cat4, chars_of, copy_text, digit, eq_no_case,
    first_chars, has, holds_text, lower_text, same_no_case, same_text, take_at_most, text_opt,
    texts, to_lower, trim, trimmed, words, words_of,
};
use crate::tui::state::pairs;
use crate::tui::titles::marker_of;

pub mod cache;
pub mod laws;
pub mod opensubtitles;
pub mod subdl;

verus! {

/// What subtitles are searched for.
#[derive(Debug, Clone)]
pub struct SubtitleContext {
    /// The provider of the title.
    pub provider: ProviderKind,
    /// The title's identifier.
    pub subject_id: String,
    /// The stream's identifier.
    pub resource_id: String,
    /// The title.
    pub title: String,
    /// The year of its release.
    pub year: Option<String>,
    /// Whether it is an episode of a series.
    pub is_episode: bool,
    /// The season.
    pub season: Option<usize>,
    /// The episode.
    pub episode: Option<usize>,
    /// The title's number at IMDb.
    pub imdb_id: Option<String>,
}

/// What it means that subtitles are searched for.
pub struct SubtitleContextV {
    /// The provider of the title.
    pub provider: ProviderKind,
    /// The title's identifier.
    pub subject_id: Seq<char>,
    /// The stream's identifier.
    pub resource_id: Seq<char>,
    /// The title.
    pub title: Seq<char>,
    /// The year of its release.
    pub year: Option<Seq<char>>,
    /// Whether it is an episode of a series.
    pub is_episode: bool,
    /// The season.
    pub season: Option<usize>,
    /// The episode.
    pub episode: Option<usize>,
    /// The title's number at IMDb.
    pub imdb_id: Option<Seq<char>>,
}

impl View for SubtitleContext {
    type V = SubtitleContextV;

    open spec fn view(&self) -> SubtitleContextV {
        SubtitleContextV {
            provider: self.provider,
            subject_id: self.subject_id@,
            resource_id: self.resource_id@,
            title: self.title@,
            year: text_opt(self.year),
            is_episode: self.is_episode,
            season: self.season,
            episode: self.episode,
            imdb_id: text_opt(self.imdb_id),
        }
    }
}

impl Default for SubtitleContext {
    fn default() -> (r: SubtitleContext)
        ensures
            r@ == (SubtitleContextV {
                provider: ProviderKind::MovieBox,
                subject_id: Seq::empty(),
                resource_id: Seq::empty(),
                title: Seq::empty(),
                year: None,
                is_episode: false,
                season: None,
                episode: None,
                imdb_id: None,
            }),
    {
        SubtitleContext {
            provider: ProviderKind::MovieBox,
            subject_id: String::new(),
            resource_id: String::new(),
            title: String::new(),
            year: None,
            is_episode: false,
            season: None,
            episode: None,
            imdb_id: None,
        }
    }
}

/// A subtitle that OpenSubtitles has found.
#[derive(Debug, Clone, PartialEq, Eq)]
pub struct OsCandidate {
    /// The subtitle's name on screen.
    pub label: String,
    /// The number of the file.
    pub file_id: u32,
    /// The language.
    pub language: String,
    /// How well it fits.
    pub score: i32,
    /// The release it was made for.
    pub release_name: Option<String>,
    /// How often it was downloaded.
    pub download_count: Option<u32>,
    /// Whether a machine has translated it.
    pub machine_translated: bool,
}

/// What a subtitle that OpenSubtitles has found means.
pub struct OsCandidateV {
    /// The subtitle's name on screen.
    pub label: Seq<char>,
    /// The number of the file.
    pub file_id: u32,
    /// The language.
    pub language: Seq<char>,
    /// How well it fits.
    pub score: i32,
    /// The release it was made for.
    pub release_name: Option<Seq<char>>,
    /// How often it was downloaded.
    pub download_count: Option<u32>,
    /// Whether a machine has translated it.
    pub machine_translated: bool,
}

impl View for OsCandidate {
    type V = OsCandidateV;

    open spec fn view(&self) -> OsCandidateV {
        OsCandidateV {
            label: self.label@,
            file_id: self.file_id,
            language: self.language@,
            score: self.score,
            release_name: text_opt(self.release_name),
            download_count: self.download_count,
            machine_translated: self.machine_translated,
        }
    }
}

/// What a list of subtitles means.
pub open spec fn candidates(v: Seq<OsCandidate>) -> Seq<OsCandidateV> {
    Seq::new(v.len(), |i: int| v[i]@)
}

/// The outcome of a search.
#[derive(Debug, Clone, PartialEq, Eq)]
pub struct OsSearchOutcome {
    /// The subtitles found.
    pub candidates: Vec<OsCandidate>,
    /// Whether they were found in the cache.
    pub from_cache: bool,
}

/// Why there are no subtitles.
pub enum SubtitleError {
    /// OpenSubtitles has failed.
    OpenSubtitles(OpenSubtitlesError),
    /// There is none.
    NotFound,
    /// They are not wanted.
    Disabled,
}

impl SubtitleError {
    /// The reason in words.
    pub open spec fn words(self) -> Seq<char> {
        match self {
            SubtitleError::OpenSubtitles(e) => "OpenSubtitles: "@ + e.words(),
            SubtitleError::NotFound => "Subtitle not found"@,
            SubtitleError::Disabled => "subtitle provider disabled"@,
        }
    }

    /// The reason in words.
    pub fn message(&self) -> (r: String)
        ensures
            r@ == self.words(),
    {
        match self {
            SubtitleError::OpenSubtitles(e) => cat2("OpenSubtitles: ", e.message().as_str()),
            SubtitleError::NotFound => copy_text("Subtitle not found"),
            SubtitleError::Disabled => copy_text("subtitle provider disabled"),
        }
    }
}

// ---------------------------------------------------------------------------
// Names
// ---------------------------------------------------------------------------

/// Whether a language is Indonesian.
pub open spec fn is_indonesian(language: Seq<char>) -> bool {
    eq_no_case(language, "id"@) || eq_no_case(language, "indonesian"@)
}

/// Whether a language is Indonesian.
pub fn speaks_indonesian(language: &str) -> (r: bool)
    ensures
        r == is_indonesian(language@),
{
    same_no_case(language, "id") || same_no_case(language, "indonesian")
}

/// The name of a subtitle on screen: its language, the beginning of the release it was made for,
/// how often it was downloaded, and whether a machine has translated it.
pub open spec fn label_of(c: OsCandidateV) -> Seq<char> {
    (if is_indonesian(c.language) {
        "Indonesian"@
    } else {
        c.language
    }) + " [OS]"@ + (match c.release_name {
        Some(name) => " \u{b7} "@ + take_at_most(name, 40),
        None => Seq::empty(),
    }) + (match c.download_count {
        Some(n) => " \u{b7} "@ + decimal(n as nat) + " dl"@,
        None => Seq::empty(),
    }) + (if c.machine_translated {
        " \u{b7} MT"@
    } else {
        Seq::empty()
    })
}

/// The name of a subtitle on screen.
pub fn build_label(c: &OsCandidate) -> (r: String)
    ensures
        r@ == label_of(c@),
{
    let language = if speaks_indonesian(c.language.as_str()) {
        copy_text("Indonesian")
    } else {
        copy_text(c.language.as_str())
    };
    let release = match &c.release_name {
        Some(name) => cat2(" \u{b7} ", first_chars(name.as_str(), 40).as_str()),
        None => String::new(),
    };
    let count = match c.download_count {
        Some(n) => cat3(" \u{b7} ", decimal_text(n as u64).as_str(), " dl"),
        None => String::new(),
    };
    let machine = if c.machine_translated {
        copy_text(" \u{b7} MT")
    } else {
        String::new()
    };
    let mut r = cat4(language.as_str(), " [OS]", release.as_str(), count.as_str());
    r.append(machine.as_str());
    r
}

/// Whether a name stands for Indonesian.
pub open spec fn names_indonesian(name: Seq<char>) -> bool {
    let low = lower_text(name);
    has(low, "indo"@) || has(low, "bahasa"@) || trim(low, CharClass::White) == "id"@
}

/// Whether a name stands for Indonesian.
pub fn is_indonesian_label(name: &str) -> (r: bool)
    ensures
        r == names_indonesian(name@),
{
    let low = to_lower(name);
    holds_text(low.as_str(), "indo") || holds_text(low.as_str(), "bahasa") || same_text(
        trimmed(low.as_str(), CharClass::White).as_str(),
        "id",
    )
}

/// A name with one of the longer names of the language in it has the shorter one in it.
pub proof fn law_long_names_are_names(name: Seq<char>)
    ensures
        has(lower_text(name), "indonesia"@) ==> names_indonesian(name),
        has(lower_text(name), "indonesian"@) ==> names_indonesian(name),
{
    reveal_strlit("indo");
    reveal_strlit("indonesia");
    reveal_strlit("indonesian");
    let low = lower_text(name);
    if has(low, "indonesia"@) {
        let i = choose|i: int| crate::strings::occurs_at(low, "indonesia"@, i);
        assert(low.subrange(i, i + 4) =~= low.subrange(i, i + 9).take(4));
        assert("indonesia"@.take(4) =~= "indo"@);
        assert(crate::strings::occurs_at(low, "indo"@, i));
    }
    if has(low, "indonesian"@) {
        let i = choose|i: int| crate::strings::occurs_at(low, "indonesian"@, i);
        assert(low.subrange(i, i + 4) =~= low.subrange(i, i + 10).take(4));
        assert("indonesian"@.take(4) =~= "indo"@);
        assert(crate::strings::occurs_at(low, "indo"@, i));
    }
}

// ---------------------------------------------------------------------------
// Merging
// ---------------------------------------------------------------------------

/// Whether a list has a name, up to case.
pub open spec fn has_label(v: Seq<(Seq<char>, Seq<char>)>, label: Seq<char>) -> bool {
    exists|i: int| 0 <= i < v.len() && lowercase(#[trigger] v[i].0) == lowercase(label)
}

/// The subtitles among candidates whose names a list does not have, each with its marker.
pub open spec fn fresh_candidates(
    base: Seq<(Seq<char>, Seq<char>)>,
    v: Seq<OsCandidateV>,
) -> Seq<(Seq<char>, Seq<char>)>
    decreases v.len(),
{
    if v.len() == 0 {
        Seq::empty()
    } else {
        let rest = fresh_candidates(base, v.drop_last());
        let c = v.last();
        if has_label(base, label_of(c)) {
            rest
        } else {
            rest.push((label_of(c), marker_of(c.file_id as nat, c.language)))
        }
    }
}

/// Whether one of the names in a list, given in lower case, equals another, up to case.
fn holds_label(lows: &Vec<String>, label: &str, Ghost(base): Ghost<Seq<(Seq<char>, Seq<char>)>>) -> (r:
    bool)
    requires
        lows@.len() == base.len(),
        forall|i: int| 0 <= i < base.len() ==> texts(lows@)[i] == lowercase(#[trigger] base[i].0),
    ensures
        r == has_label(base, label@),
{
    let low = to_lowercase(label);
    let mut i: usize = 0;
    while i < lows.len()
        invariant
            i <= lows@.len() == base.len(),
            low@ == lowercase(label@),
            forall|j: int|
                0 <= j < base.len() ==> texts(lows@)[j] == lowercase(#[trigger] base[j].0),
            forall|j: int| 0 <= j < i ==> lowercase(#[trigger] base[j].0) != lowercase(label@),
        decreases lows@.len() - i,
    {
        assert(texts(lows@)[i as int] == lowercase(base[i as int].0));
        if same_text(lows[i].as_str(), low.as_str()) {
            return true;
        }
        i = i + 1;
    }
    false
}

/// The names of a list in lower case.
fn lower_labels(base: &Vec<(String, String)>) -> (r: Vec<String>)
    ensures
        r@.len() == base@.len(),
        forall|i: int|
            0 <= i < base@.len() ==> texts(r@)[i] == lowercase(#[trigger] pairs(base@)[i].0),
{
    let mut r: Vec<String> = Vec::new();
    let mut i: usize = 0;
    while i < base.len()
        invariant
            i <= base@.len(),
            r@.len() == i,
            forall|j: int| 0 <= j < i ==> texts(r@)[j] == lowercase(#[trigger] pairs(base@)[j].0),
        decreases base@.len() - i,
    {
        let ghost done = texts(r@);
        let low = to_lowercase(base[i].0.as_str());
        r.push(low);
        proof {
            assert(texts(r@) =~= done.push(low@));
            assert forall|j: int| 0 <= j < i + 1 implies texts(r@)[j] == lowercase(
                #[trigger] pairs(base@)[j].0,
            ) by {
                if j < i {
                    assert(texts(r@)[j] == done[j]);
                }
            }
        }
        i = i + 1;
    }
    r
}

/// A list of subtitles with those of OpenSubtitles behind it whose names it does not have.
pub fn merge_os_candidates(base: Vec<(String, String)>, candidates: &[OsCandidate]) -> (r: Vec<
    (String, String),
>)
    ensures
        pairs(r@) == pairs(base@) + fresh_candidates(
            pairs(base@),
            self::candidates(candidates@),
        ),
{
    let ghost given = pairs(base@);
    let ghost list = self::candidates(candidates@);
    let lows = lower_labels(&base);
    let mut out = base;
    let mut i: usize = 0;
    proof {
        assert(list.take(0) =~= Seq::empty());
        assert(given + fresh_candidates(given, list.take(0)) =~= given);
    }
    while i < candidates.len()
        invariant
            i <= candidates@.len(),
            list == self::candidates(candidates@),
            lows@.len() == given.len(),
            forall|j: int|
                0 <= j < given.len() ==> texts(lows@)[j] == lowercase(#[trigger] given[j].0),
            pairs(out@) == given + fresh_candidates(given, list.take(i as int)),
        decreases candidates@.len() - i,
    {
        let c = &candidates[i];
        let ghost before = pairs(out@);
        let ghost done = fresh_candidates(given, list.take(i as int));
        proof {
            assert(list.take(i + 1).drop_last() =~= list.take(i as int));
            assert(list.take(i + 1).last() == c@);
        }
        let label = build_label(c);
        if !holds_label(&lows, label.as_str(), Ghost(given)) {
            let marker = cat4(
                "os:",
                decimal_text(c.file_id as u64).as_str(),
                ":",
                c.language.as_str(),
            );
            let ghost pair = (label@, marker@);
            out.push((label, marker));
            proof {
                assert(pairs(out@) =~= before.push(pair));
                assert(before.push(pair) =~= given + done.push(pair));
            }
        }
        i = i + 1;
    }
    assert(list.take(list.len() as int) =~= list);
    out
}

/// Every subtitle that is merged in carries a marker from which its number and language are read
/// back.
pub proof fn law_merged_markers(base: Seq<(Seq<char>, Seq<char>)>, v: Seq<OsCandidateV>)
    ensures
        forall|i: int|
            0 <= i < fresh_candidates(base, v).len() ==> exists|j: int|
                0 <= j < v.len() && #[trigger] fresh_candidates(base, v)[i].0 == label_of(v[j])
                    && crate::tui::titles::os_marker(fresh_candidates(base, v)[i].1) == Some(
                    (v[j].file_id as nat, v[j].language),
                ),
    decreases v.len(),
{
    if v.len() > 0 {
        let t = v.drop_last();
        law_merged_markers(base, t);
        let f = fresh_candidates(base, v);
        let c = v.last();
        crate::tui::titles::law_marker_round_trip(c.file_id, c.language);
        assert forall|i: int| 0 <= i < f.len() implies exists|j: int|
            0 <= j < v.len() && #[trigger] f[i].0 == label_of(v[j])
                && crate::tui::titles::os_marker(f[i].1) == Some(
                (v[j].file_id as nat, v[j].language),
            ) by {
            if i < fresh_candidates(base, t).len() {
                assert(f[i] == fresh_candidates(base, t)[i]);
                let j = choose|j: int|
                    0 <= j < t.len() && fresh_candidates(base, t)[i].0 == label_of(t[j])
                        && crate::tui::titles::os_marker(fresh_candidates(base, t)[i].1) == Some(
                        (t[j].file_id as nat, t[j].language),
                    );
                assert(v[j] == t[j]);
            } else {
                assert(v[v.len() - 1] == c);
            }
        }
    }
}

/// After merging, the name of every candidate stands in the list.
proof fn lemma_all_named(base: Seq<(Seq<char>, Seq<char>)>, v: Seq<OsCandidateV>)
    ensures
        forall|j: int|
            0 <= j < v.len() ==> has_label(
                base + fresh_candidates(base, v),
                label_of(#[trigger] v[j]),
            ),
    decreases v.len(),
{
    if v.len() > 0 {
        let t = v.drop_last();
        lemma_all_named(base, t);
        let old_list = base + fresh_candidates(base, t);
        let list = base + fresh_candidates(base, v);
        assert forall|j: int| 0 <= j < v.len() implies has_label(list, label_of(#[trigger] v[j])) by {
            let low = lowercase(label_of(v[j]));
            if j < t.len() {
                assert(v[j] == t[j]);
                let k = choose|k: int|
                    0 <= k < old_list.len() && lowercase(#[trigger] old_list[k].0) == low;
                assert(list[k] == old_list[k]);
            } else if has_label(base, label_of(v[j])) {
                let k = choose|k: int| 0 <= k < base.len() && lowercase(#[trigger] base[k].0) == low;
                assert(list[k] == base[k]);
            } else {
                assert(list[list.len() - 1].0 == label_of(v[j]));
            }
        }
    }
}

/// Where every name stands in a list, no candidate is new.
proof fn lemma_none_fresh(base: Seq<(Seq<char>, Seq<char>)>, v: Seq<OsCandidateV>)
    requires
        forall|j: int| 0 <= j < v.len() ==> has_label(base, label_of(#[trigger] v[j])),
    ensures
        fresh_candidates(base, v) == Seq::<(Seq<char>, Seq<char>)>::empty(),
    decreases v.len(),
{
    if v.len() > 0 {
        let t = v.drop_last();
        assert forall|j: int| 0 <= j < t.len() implies has_label(base, label_of(#[trigger] t[j])) by {
            assert(t[j] == v[j]);
        }
        lemma_none_fresh(base, t);
        assert(v[v.len() - 1] == v.last());
    }
}

/// Merging the same candidates again adds nothing.
pub proof fn law_merging_again_adds_nothing(
    base: Seq<(Seq<char>, Seq<char>)>,
    v: Seq<OsCandidateV>,
)
    ensures
        fresh_candidates(base + fresh_candidates(base, v), v) == Seq::<
            (Seq<char>, Seq<char>),
        >::empty(),
{
    lemma_all_named(base, v);
    lemma_none_fresh(base + fresh_candidates(base, v), v);
}

// ---------------------------------------------------------------------------
// Looking subtitles up unasked
// ---------------------------------------------------------------------------

/// From how few remaining downloads on the rest is left for subtitles that are picked by hand.
pub const LOW_QUOTA: u32 = 3;

/// Where a subtitle is looked up that nobody picks.
#[derive(Clone, Copy, PartialEq, Eq, Structural, Debug)]
pub enum Lookup {
    /// Nowhere.
    Nowhere,
    /// At SubDL, and at OpenSubtitles if SubDL has none and `fallback` holds.
    Subdl {
        /// Whether OpenSubtitles follows.
        fallback: bool,
    },
    /// At OpenSubtitles.
    OpenSubtitles,
}

/// Whether so many downloads remain that one is spent unasked. What is not known counts as enough.
pub open spec fn quota_suffices(remaining: Option<u32>) -> bool {
    remaining is None || remaining->0 > LOW_QUOTA
}

/// Where a subtitle is looked up unasked: nowhere for a title that is not known or with a subtitle
/// that was chosen, else first at SubDL and then at OpenSubtitles, as far as they can be used, and at
/// OpenSubtitles only while the quota suffices.
pub open spec fn lookup_for(
    subdl_enabled: bool,
    os_enabled: bool,
    remaining: Option<u32>,
    known: bool,
    chosen: bool,
) -> Lookup {
    let spends = os_enabled && quota_suffices(remaining);
    if !known || chosen {
        Lookup::Nowhere
    } else if subdl_enabled {
        Lookup::Subdl { fallback: spends }
    } else if spends {
        Lookup::OpenSubtitles
    } else {
        Lookup::Nowhere
    }
}

/// Where a subtitle is looked up unasked.
pub fn choose_lookup(
    subdl_enabled: bool,
    os_enabled: bool,
    remaining: Option<u32>,
    known: bool,
    chosen: bool,
) -> (r: Lookup)
    ensures
        r == lookup_for(subdl_enabled, os_enabled, remaining, known, chosen),
{
    let enough = match remaining {
        Some(n) => n > LOW_QUOTA,
        None => true,
    };
    if !known || chosen {
        Lookup::Nowhere
    } else if subdl_enabled {
        Lookup::Subdl { fallback: os_enabled && enough }
    } else if os_enabled && enough {
        Lookup::OpenSubtitles
    } else {
        Lookup::Nowhere
    }
}

impl Lookup {
    /// Where a subtitle is looked up once SubDL has given none.
    pub open spec fn next(self) -> Lookup {
        match self {
            Lookup::Subdl { fallback } => if fallback {
                Lookup::OpenSubtitles
            } else {
                Lookup::Nowhere
            },
            _ => Lookup::Nowhere,
        }
    }

    /// Where a subtitle is looked up once the place has given none.
    pub fn after(self) -> (r: Lookup)
        ensures
            r == self.next(),
    {
        match self {
            Lookup::Subdl { fallback } => if fallback {
                Lookup::OpenSubtitles
            } else {
                Lookup::Nowhere
            },
            _ => Lookup::Nowhere,
        }
    }
}

/// Where SubDL can be used, OpenSubtitles is never the first place that a subtitle is looked up at;
/// and while its quota is low it is none at all.
pub proof fn law_quota_is_spared(
    subdl_enabled: bool,
    os_enabled: bool,
    remaining: Option<u32>,
    known: bool,
    chosen: bool,
)
    ensures
        ({
            let first = lookup_for(subdl_enabled, os_enabled, remaining, known, chosen);
            &&& subdl_enabled ==> first != Lookup::OpenSubtitles
            &&& !quota_suffices(remaining) ==> first != Lookup::OpenSubtitles && first.next()
                != Lookup::OpenSubtitles
            &&& chosen ==> first == Lookup::Nowhere
        }),
{
}

// ---------------------------------------------------------------------------
// IMDb
// ---------------------------------------------------------------------------

/// The keys under which a title's number at IMDb is looked for.
pub open spec fn imdb_keys() -> Seq<Seq<char>> {
    seq!["imdbId"@, "imdb_id"@, "imdb"@, "doubanId"@, "tmdbId"@]
}

/// The first text under one of some keys.
pub open spec fn first_text(details: JsonV, keys: Seq<Seq<char>>) -> Option<Seq<char>>
    decreases keys.len(),
{
    if keys.len() == 0 {
        None
    } else {
        match text_in(details.get(keys[0])) {
            Some(s) => Some(s),
            None => first_text(details, keys.skip(1)),
        }
    }
}

/// Whether a text is a number at IMDb: `tt` and digits.
pub open spec fn is_imdb_id(s: Seq<char>) -> bool {
    begins(s, "tt"@) && s.len() > 2 && all_digits(s.skip(2))
}

/// The title's number at IMDb that details give.
pub open spec fn imdb_id_of(details: JsonV) -> Option<Seq<char>> {
    match first_text(details, imdb_keys()) {
        Some(s) => if is_imdb_id(s) {
            Some(s)
        } else {
            None
        },
        None => None,
    }
}

/// Whether the characters from a position on are digits.
fn digits_from(v: &[char], from: usize) -> (r: bool)
    requires
        from <= v@.len(),
    ensures
        r == all_digits(v@.skip(from as int)),
{
    let ghost s = v@.skip(from as int);
    let mut i: usize = from;
    while i < v.len()
        invariant
            from <= i <= v@.len(),
            s == v@.skip(from as int),
            forall|j: int| 0 <= j < i - from ==> crate::strings::is_digit(#[trigger] s[j]),
        decreases v@.len() - i,
    {
        assert(s[i - from] == v@[i as int]);
        if !digit(v[i]) {
            return false;
        }
        i = i + 1;
    }
    true
}

/// The title's number at IMDb that details give.
pub fn extract_imdb_id(details: &Json) -> (r: Option<String>)
    ensures
        text_opt(r) == imdb_id_of(details@),
{
    let mut keys: Vec<String> = Vec::new();
    keys.push(copy_text("imdbId"));
    keys.push(copy_text("imdb_id"));
    keys.push(copy_text("imdb"));
    keys.push(copy_text("doubanId"));
    keys.push(copy_text("tmdbId"));
    let ghost list = texts(keys@);
    assert(list =~= imdb_keys());
    let mut i: usize = 0;
    assert(list.skip(0) =~= list);
    while i < keys.len()
        invariant
            i <= keys@.len(),
            list == texts(keys@),
            list == imdb_keys(),
            first_text(details@, list) == first_text(details@, list.skip(i as int)),
        decreases keys@.len() - i,
    {
        proof {
            assert(list.skip(i as int)[0] == keys@[i as int]@);
            assert(list.skip(i as int).skip(1) =~= list.skip(i + 1));
        }
        match text_of_json(details.get(keys[i].as_str())) {
            Some(raw) => {
                let v = chars_of(raw.as_str());
                if begins_with(raw.as_str(), "tt") && v.len() > 2 && digits_from(v.as_slice(), 2) {
                    return Some(raw);
                }
                return None;
            },
            None => {},
        }
        i = i + 1;
    }
    None
}

// ---------------------------------------------------------------------------
// Scores
// ---------------------------------------------------------------------------

/// Whether one of the first words of a title, of at least four bytes, stands in a release.
pub open spec fn title_in_release(title: Seq<char>, release: Seq<char>) -> bool {
    exists|i: int|
        0 <= i < 3 && i < words(title).len() && token_in(#[trigger] words(title)[i], release)
}

/// Whether a word, without marks around it, has at least four bytes and stands in a release, up to
/// case.
pub open spec fn token_in(word: Seq<char>, release: Seq<char>) -> bool {
    let t = lowercase(trim(word, CharClass::NotAlphanumeric));
    encode_utf8(t).len() >= 4 && has(lowercase(release), t)
}

/// A truth value, false where there is none.
pub open spec fn is_set(b: Option<bool>) -> bool {
    b == Some(true)
}

/// How well a subtitle fits: 50 for Indonesian, 15 for the year and 20 for the title in the name of
/// the release, 10 if no machine has translated it, and up to 10 for its downloads.
pub open spec fn score_of(item: SubtitleItemV, ctx: SubtitleContextV) -> int {
    let language = match item.language {
        Some(l) => l,
        None => Seq::empty(),
    };
    (if is_indonesian(language) {
        50int
    } else {
        0
    }) + (if ctx.year is Some && item.release_name is Some && has(
        item.release_name->0,
        ctx.year->0,
    ) {
        15int
    } else {
        0
    }) + (if item.release_name is Some && title_in_release(ctx.title, item.release_name->0) {
        20int
    } else {
        0
    }) + (if !is_set(item.ai_translated) && !is_set(item.machine_translated) {
        10int
    } else {
        0
    }) + (match item.download_count {
        Some(n) => if n < 100_000 {
            n as int / 10_000
        } else {
            10int
        },
        None => 0,
    })
}

/// Whether one of the first words of a title stands in a release.
pub fn release_has_title(title: &str, release: &str) -> (r: bool)
    ensures
        r == title_in_release(title@, release@),
{
    let tokens = words_of(title);
    let low = to_lowercase(release);
    let n: usize = if tokens.len() < 3 {
        tokens.len()
    } else {
        3
    };
    let mut i: usize = 0;
    while i < n
        invariant
            i <= n <= tokens@.len(),
            n <= 3,
            n == 3 || n == tokens@.len(),
            texts(tokens@) == words(title@),
            low@ == lowercase(release@),
            forall|j: int| 0 <= j < i ==> !token_in(#[trigger] words(title@)[j], release@),
        decreases n - i,
    {
        let ghost w = words(title@)[i as int];
        assert(w == tokens@[i as int]@);
        let t = to_lowercase(trimmed(tokens[i].as_str(), CharClass::NotAlphanumeric).as_str());
        if t.as_str().as_bytes().len() >= 4 && holds_text(low.as_str(), t.as_str()) {
            assert(token_in(w, release@));
            return true;
        }
        i = i + 1;
    }
    false
}

/// A truth value, false where there is none.
pub fn is_true(b: Option<bool>) -> (r: bool)
    ensures
        r == is_set(b),
{
    match b {
        Some(b) => b,
        None => false,
    }
}

/// How well a subtitle fits.
pub fn score_candidate(item: &SubtitleItem, ctx: &SubtitleContext) -> (r: i32)
    ensures
        r == score_of(item@, ctx@),
        0 <= r <= 105,
{
    let attr = &item.attributes;
    let mut score: i32 = 0;
    let indonesian = match &attr.language {
        Some(l) => speaks_indonesian(l.as_str()),
        None => speaks_indonesian(""),
    };
    proof {
        reveal_strlit("");
        assert(""@ =~= Seq::empty());
    }
    if indonesian {
        score = score + 50;
    }
    let in_year = match (&ctx.year, &attr.release_name) {
        (Some(y), Some(r)) => holds_text(r.as_str(), y.as_str()),
        _ => false,
    };
    if in_year {
        score = score + 15;
    }
    let in_title = match &attr.release_name {
        Some(r) => release_has_title(ctx.title.as_str(), r.as_str()),
        None => false,
    };
    if in_title {
        score = score + 20;
    }
    if !is_true(attr.ai_translated) && !is_true(attr.machine_translated) {
        score = score + 10;
    }
    match attr.download_count {
        Some(n) => {
            let bonus: u32 = if n < 100_000 {
                n / 10_000
            } else {
                10
            };
            score = score + bonus as i32;
        },
        None => {},
    }
    score
}

/// Of two subtitles that differ in their language alone, the Indonesian one fits better.
pub proof fn law_indonesian_fits_better(a: SubtitleItemV, b: SubtitleItemV, ctx: SubtitleContextV)
    requires
        a.language is Some && is_indonesian(a.language->0),
        b.language is Some && !is_indonesian(b.language->0),
        b == (SubtitleItemV { language: b.language, ..a }),
    ensures
        score_of(a, ctx) == score_of(b, ctx) + 50,
{
}

} // verus!
