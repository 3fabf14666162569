//! Where subtitles, searches and quotas are cached, and for how long.
//!
//! Paths are relative to the user's cache directory.
use vstd::prelude::*;
use vstd::utf8::encode_utf8;
use crate::numbers::{decimal, decimal_text, hex, hex_text, is_hex_char, law_hex_digits};
use crate::outside::{md5_digest, md5_of};
use crate::providers::models::ProviderKind;
use crate::providers::subtitles::{SubtitleContext, SubtitleContextV};
use crate::strings::{
    CharClass, after_last, cat2, cat5, chars_of, copy_text, find_last, join, join_texts, lower_text,
    rfind, same_text, text_after_last, text_opt, text_range, texts, to_lower,
};

verus! {

/// For how many seconds a subtitle is kept: 30 days.
pub const SUBTITLE_FILE_TTL_SECS: u64 = 2_592_000;

/// For how many seconds a search is kept: 7 days.
pub const SEARCH_CACHE_TTL_SECS: u64 = 604_800;

/// For how many seconds a quota is known: a day.
pub const QUOTA_TTL_SECS: u64 = 86_400;

/// The contents of borrowed texts.
pub open spec fn borrowed_texts(v: Seq<&str>) -> Seq<Seq<char>> {
    Seq::new(v.len(), |i: int| v[i]@)
}

/// The directory of cached subtitles.
pub open spec fn root() -> Seq<char> {
    "moviebox-tui/subtitles"@
}

/// The directory of cached subtitles.
pub fn subtitle_root() -> (r: String)
    ensures
        r@ == root(),
{
    copy_text("moviebox-tui/subtitles")
}

/// The key for texts: the MD5 digest, in hexadecimal digits, of the texts joined by bars.
pub open spec fn key_of(parts: Seq<Seq<char>>) -> Seq<char> {
    hex(md5_of(encode_utf8(join(parts, "|"@))))
}

/// Whether a text is made of 32 hexadecimal digits in lower case.
pub open spec fn is_key(s: Seq<char>) -> bool {
    s.len() == 32 && forall|i: int| 0 <= i < s.len() ==> is_hex_char(#[trigger] s[i])
}

/// The key for texts.
pub fn hash_key(parts: &[&str]) -> (r: String)
    ensures
        r@ == key_of(borrowed_texts(parts@)),
        is_key(r@),
{
    let mut copies: Vec<String> = Vec::new();
    let mut i: usize = 0;
    while i < parts.len()
        invariant
            i <= parts@.len(),
            texts(copies@) =~= borrowed_texts(parts@).take(i as int),
        decreases parts@.len() - i,
    {
        let ghost done = texts(copies@);
        let s = copy_text(parts[i]);
        copies.push(s);
        assert(texts(copies@) =~= done.push(s@));
        i = i + 1;
    }
    assert(texts(copies@) =~= borrowed_texts(parts@));
    let joined = join_texts(&copies, "|");
    let digest = md5_digest(joined.as_str().as_bytes());
    proof {
        law_hex_digits(digest@);
    }
    hex_text(digest.as_slice())
}

/// The path of a cached file with a key and an extension.
pub open spec fn file_path(key: Seq<char>, ext: Seq<char>) -> Seq<char> {
    root() + "/"@ + key + "."@ + ext
}

/// What a subtitle is cached under.
pub open spec fn subtitle_parts(
    provider: ProviderKind,
    subject_id: Seq<char>,
    season: usize,
    episode: usize,
    file: Seq<char>,
    lang: Seq<char>,
) -> Seq<Seq<char>> {
    seq![
        provider.key(),
        subject_id,
        decimal(season as nat),
        decimal(episode as nat),
        file,
        lang,
        "0.1.7"@,
    ]
}

/// The path of a cached file with a key and an extension.
pub fn cached_file(key: &str, ext: &str) -> (r: String)
    ensures
        r@ == file_path(key@, ext@),
{
    cat5(subtitle_root().as_str(), "/", key, ".", ext)
}

/// The path of a cached subtitle.
fn path_for(
    provider: ProviderKind,
    subject_id: &str,
    season: usize,
    episode: usize,
    file: &str,
    lang: &str,
    ext: &str,
) -> (r: String)
    ensures
        r@ == file_path(
            key_of(subtitle_parts(provider, subject_id@, season, episode, file@, lang@)),
            ext@,
        ),
{
    let provider_key = provider.cache_key();
    let season_text = decimal_text(season as u64);
    let episode_text = decimal_text(episode as u64);
    let mut parts: Vec<&str> = Vec::new();
    parts.push(provider_key.as_str());
    parts.push(subject_id);
    parts.push(season_text.as_str());
    parts.push(episode_text.as_str());
    parts.push(file);
    parts.push(lang);
    parts.push("0.1.7");
    assert(borrowed_texts(parts@) =~= subtitle_parts(
        provider,
        subject_id@,
        season,
        episode,
        file@,
        lang@,
    ));
    let key = hash_key(parts.as_slice());
    cached_file(key.as_str(), ext)
}

/// The path of a cached subtitle of OpenSubtitles.
pub fn subtitle_path(
    provider: ProviderKind,
    subject_id: &str,
    season: usize,
    episode: usize,
    file_id: u32,
    lang: &str,
    ext: &str,
) -> (r: String)
    ensures
        r@ == file_path(
            key_of(
                subtitle_parts(
                    provider,
                    subject_id@,
                    season,
                    episode,
                    decimal(file_id as nat),
                    lang@,
                ),
            ),
            ext@,
        ),
{
    let file = decimal_text(file_id as u64);
    path_for(provider, subject_id, season, episode, file.as_str(), lang, ext)
}

/// The path of a cached subtitle of SubDL.
pub fn subdl_subtitle_path(
    provider: ProviderKind,
    subject_id: &str,
    season: usize,
    episode: usize,
    subtitle_id: &str,
    lang: &str,
    ext: &str,
) -> (r: String)
    ensures
        r@ == file_path(
            key_of(
                subtitle_parts(
                    provider,
                    subject_id@,
                    season,
                    episode,
                    "subdl:"@ + subtitle_id@,
                    lang@,
                ),
            ),
            ext@,
        ),
{
    let file = cat2("subdl:", subtitle_id);
    path_for(provider, subject_id, season, episode, file.as_str(), lang, ext)
}

/// The extension that a subtitle is cached with: that of its file if it is known, else `srt`.
pub open spec fn extension_of(file_name: Option<Seq<char>>) -> Seq<char> {
    match file_name {
        Some(name) => {
            let ext = lower_text(after_last(name, CharClass::Is('.')));
            if ext == "vtt"@ || ext == "ass"@ || ext == "ssa"@ || ext == "sub"@ {
                ext
            } else {
                "srt"@
            }
        },
        None => "srt"@,
    }
}

/// The extension that a subtitle is cached with.
pub fn subtitle_extension(file_name: Option<&str>) -> (r: &'static str)
    ensures
        r@ == extension_of(
            match file_name {
                Some(s) => Some(s@),
                None => None,
            },
        ),
{
    match file_name {
        Some(name) => {
            let last = text_after_last(name, CharClass::Is('.'));
            let ext = to_lower(last.as_str());
            if same_text(ext.as_str(), "vtt") {
                "vtt"
            } else if same_text(ext.as_str(), "ass") {
                "ass"
            } else if same_text(ext.as_str(), "ssa") {
                "ssa"
            } else if same_text(ext.as_str(), "sub") {
                "sub"
            } else {
                "srt"
            }
        },
        None => "srt",
    }
}

/// The name of a file without its extension.
pub open spec fn stem_of(name: Seq<char>) -> Seq<char> {
    match rfind(name, "."@) {
        Some(i) => if i > 0 {
            name.take(i)
        } else {
            name
        },
        None => name,
    }
}

/// The name of a file without its extension.
pub fn file_stem(name: &str) -> (r: String)
    ensures
        r@ == stem_of(name@),
{
    let v = chars_of(name);
    match find_last(v.as_slice(), chars_of(".").as_slice()) {
        Some(i) => if i > 0 {
            text_range(v.as_slice(), 0, i)
        } else {
            copy_text(name)
        },
        None => copy_text(name),
    }
}

/// The first of some files that has the name of another but for the extension.
pub open spec fn sibling(v: Seq<Seq<char>>, name: Seq<char>) -> Option<Seq<char>>
    decreases v.len(),
{
    if v.len() == 0 {
        None
    } else if stem_of(v[0]) == stem_of(name) {
        Some(v[0])
    } else {
        sibling(v.skip(1), name)
    }
}

/// The file in which a subtitle is cached: the one looked for, or one that was cached with another
/// extension.
pub fn find_sibling(files: &Vec<String>, name: &str) -> (r: Option<String>)
    ensures
        text_opt(r) == sibling(texts(files@), name@),
{
    let ghost list = texts(files@);
    let stem = file_stem(name);
    let mut i: usize = 0;
    assert(list.skip(0) =~= list);
    while i < files.len()
        invariant
            i <= files@.len(),
            list == texts(files@),
            stem@ == stem_of(name@),
            sibling(list, name@) == sibling(list.skip(i as int), name@),
        decreases files@.len() - i,
    {
        proof {
            assert(list.skip(i as int)[0] == files@[i as int]@);
            assert(list.skip(i as int).skip(1) =~= list.skip(i + 1));
        }
        if same_text(file_stem(files[i].as_str()).as_str(), stem.as_str()) {
            return Some(copy_text(files[i].as_str()));
        }
        i = i + 1;
    }
    None
}

/// Whether a subtitle of an age in seconds is still used; one of unknown age is not.
pub fn keeps_subtitle(age: Option<u64>) -> (r: bool)
    ensures
        r == (age is Some && age->0 <= SUBTITLE_FILE_TTL_SECS),
{
    match age {
        Some(a) => a <= SUBTITLE_FILE_TTL_SECS,
        None => false,
    }
}

/// Whether a search of an age in seconds is still used; one of unknown age is.
pub fn keeps_search(age: Option<u64>) -> (r: bool)
    ensures
        r == (age is None || age->0 <= SEARCH_CACHE_TTL_SECS),
{
    match age {
        Some(a) => a <= SEARCH_CACHE_TTL_SECS,
        None => true,
    }
}

/// The path of a cached search.
pub fn search_cache_path(query_key: &str) -> (r: String)
    ensures
        r@ == root() + "/search/"@ + query_key@ + ".json"@,
{
    crate::strings::cat4(subtitle_root().as_str(), "/search/", query_key, ".json")
}

/// What a search is cached under.
pub open spec fn search_parts(ctx: SubtitleContextV, languages: Seq<char>) -> Seq<Seq<char>> {
    seq![
        match ctx.imdb_id {
            Some(s) => s,
            None => ""@,
        },
        ctx.title,
        match ctx.year {
            Some(s) => s,
            None => ""@,
        },
        decimal(
            match ctx.season {
                Some(n) => n as nat,
                None => 0,
            },
        ),
        decimal(
            match ctx.episode {
                Some(n) => n as nat,
                None => 0,
            },
        ),
        languages,
    ]
}

/// Whether a text is missing or empty.
pub open spec fn is_empty_or_none(s: Option<Seq<char>>) -> bool {
    s is None || s->0.len() == 0
}

/// Whether a number is missing or zero.
pub open spec fn is_zero_or_none(n: Option<usize>) -> bool {
    n is None || n->0 == 0
}

/// Searches for the same title, number at IMDb, year, season and episode in the same languages are
/// cached under the same key, whatever else differs; what is missing counts as empty, or as zero.
pub proof fn law_search_key(a: SubtitleContextV, b: SubtitleContextV, languages: Seq<char>)
    requires
        a.title == b.title,
        a.imdb_id == b.imdb_id || (is_empty_or_none(a.imdb_id) && is_empty_or_none(b.imdb_id)),
        a.year == b.year || (is_empty_or_none(a.year) && is_empty_or_none(b.year)),
        a.season == b.season || (is_zero_or_none(a.season) && is_zero_or_none(b.season)),
        a.episode == b.episode || (is_zero_or_none(a.episode) && is_zero_or_none(b.episode)),
    ensures
        key_of(search_parts(a, languages)) == key_of(search_parts(b, languages)),
{
    reveal_strlit("");
    assert forall|s: Seq<char>| s.len() == 0 implies s == ""@ by {
        assert(s =~= ""@);
    }
    assert(search_parts(a, languages) =~= search_parts(b, languages));
}

/// The key that a search is cached under.
pub fn search_query_key(ctx: &SubtitleContext, languages: &str) -> (r: String)
    ensures
        r@ == key_of(search_parts(ctx@, languages@)),
        is_key(r@),
{
    let season: usize = match ctx.season {
        Some(n) => n,
        None => 0,
    };
    let episode: usize = match ctx.episode {
        Some(n) => n,
        None => 0,
    };
    let season_text = decimal_text(season as u64);
    let episode_text = decimal_text(episode as u64);
    let mut parts: Vec<&str> = Vec::new();
    match &ctx.imdb_id {
        Some(s) => parts.push(s.as_str()),
        None => parts.push(""),
    }
    parts.push(ctx.title.as_str());
    match &ctx.year {
        Some(s) => parts.push(s.as_str()),
        None => parts.push(""),
    }
    parts.push(season_text.as_str());
    parts.push(episode_text.as_str());
    parts.push(languages);
    assert(borrowed_texts(parts@) =~= search_parts(ctx@, languages@));
    hash_key(parts.as_slice())
}

/// What is left of the day's downloads.
#[derive(Debug, Clone, Copy, PartialEq, Eq, Structural)]
pub struct QuotaInfo {
    /// The downloads so far.
    pub requests: u32,
    /// The downloads left.
    pub remaining: u32,
    /// When this was learnt, in seconds.
    pub updated_at: u64,
}

/// The path of the cached quota.
pub fn quota_cache_path() -> (r: String)
    ensures
        r@ == root() + "/quota.json"@,
{
    crate::strings::cat2(subtitle_root().as_str(), "/quota.json")
}

/// The quota that was cached, unless more than a day has passed since.
pub fn current_quota(quota: QuotaInfo, now: u64) -> (r: Option<QuotaInfo>)
    ensures
        r == (if now - quota.updated_at > QUOTA_TTL_SECS {
            None
        } else {
            Some(quota)
        }),
{
    if now > quota.updated_at && now - quota.updated_at > QUOTA_TTL_SECS {
        None
    } else {
        Some(quota)
    }
}

} // verus!
