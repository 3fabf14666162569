//! OpenSubtitles: which requests are made, and what is made of the answers.
use vstd::prelude::*;
use vstd::utf8::encode_utf8;
use crate::numbers::{capital_hex, decimal, decimal_text, parse_nat, read_number};
use crate::providers::subtitles::cache::QuotaInfo;
use crate::providers::subtitles::{
    OsCandidate, OsCandidateV, OsSearchOutcome, SubtitleContext, SubtitleContextV, candidates, is_set,
    score_candidate, score_of, is_true,
};
use crate::strings::{
    CharClass, cat2, cat3, cat4, copy_opt, copy_text, eq_no_case, first_chars, has, holds_text, is_blank,
    join, join_texts, lower_text, same_no_case, same_text, split, split_text, take_at_most,
    text_opt, texts, to_lower, trim, trimmed, words, words_of,
};
use crate::tui::state::pairs;

verus! {

/// The bytes that a subtitle may have: 50 MB.
pub const MAX_SUBTITLE_BYTES: u64 = 52_428_800;

/// The seconds for which a token is used: 20 hours.
pub const TOKEN_TTL_SECS: u64 = 72_000;

/// The address of the service.
pub open spec fn default_url() -> Seq<char> {
    "https://api.opensubtitles.com/api/v1"@
}

/// What the program calls itself towards the service, which refuses what is no browser.
pub fn user_agent() -> (r: String)
    ensures
        r@
            == "Mozilla/5.0 (Windows NT 10.0; Win64; x64) AppleWebKit/537.36 (KHTML, like Gecko) Chrome/124.0 Safari/537.36 MovieBox-Tui/1.0"@,
{
    copy_text(
        "Mozilla/5.0 (Windows NT 10.0; Win64; x64) AppleWebKit/537.36 (KHTML, like Gecko) Chrome/124.0 Safari/537.36 MovieBox-Tui/1.0",
    )
}

// ---------------------------------------------------------------------------
// Query strings
// ---------------------------------------------------------------------------

/// Whether a byte stands for itself in a query.
pub open spec fn is_unreserved(b: u8) -> bool {
    (48 <= b <= 57) || (65 <= b <= 90) || (97 <= b <= 122) || b == 45 || b == 95 || b == 46 || b
        == 126
}

/// A byte in a query: itself, a plus sign for the blank, or its hexadecimal digits.
pub open spec fn encoded_byte(b: u8) -> Seq<char> {
    if is_unreserved(b) {
        seq![b as char]
    } else if b == 32 {
        seq!['+']
    } else {
        seq!['%', capital_hex(b as nat / 16), capital_hex(b as nat % 16)]
    }
}

/// Bytes in a query.
pub open spec fn encoded(b: Seq<u8>) -> Seq<char>
    decreases b.len(),
{
    if b.len() == 0 {
        Seq::empty()
    } else {
        encoded(b.drop_last()) + encoded_byte(b.last())
    }
}

/// The character of one hexadecimal digit, in upper case.
fn upper_digit(d: u8) -> (r: char)
    requires
        d < 16,
    ensures
        r == capital_hex(d as nat),
{
    if d < 10 {
        (48u8 + d) as char
    } else {
        (55u8 + d) as char
    }
}

/// A text in a query.
pub fn urlencoding_simple(s: &str) -> (r: String)
    ensures
        r@ == encoded(encode_utf8(s@)),
{
    let bytes = s.as_bytes();
    let mut out = String::new();
    let mut i: usize = 0;
    assert(bytes@.take(0) =~= Seq::empty());
    while i < bytes.len()
        invariant
            i <= bytes@.len(),
            out@ == encoded(bytes@.take(i as int)),
        decreases bytes@.len() - i,
    {
        let b = bytes[i];
        let ghost before = out@;
        proof {
            assert(bytes@.take(i + 1).drop_last() =~= bytes@.take(i as int));
            assert(bytes@.take(i + 1).last() == b);
        }
        if (48 <= b && b <= 57) || (65 <= b && b <= 90) || (97 <= b && b <= 122) || b == 45 || b
            == 95 || b == 46 || b == 126 {
            out.push(b as char);
        } else if b == 32 {
            out.push('+');
        } else {
            out.push('%');
            out.push(upper_digit(b / 16));
            out.push(upper_digit(b % 16));
        }
        assert(out@ =~= before + encoded_byte(b));
        i = i + 1;
    }
    assert(bytes@.take(bytes@.len() as int) =~= bytes@);
    out
}

/// Whether a character can stand in a query that was encoded.
pub open spec fn is_query_char(c: char) -> bool {
    ('0' <= c <= '9') || ('A' <= c <= 'Z') || ('a' <= c <= 'z') || c == '-' || c == '_' || c == '.'
        || c == '~' || c == '+' || c == '%'
}

/// An encoded text holds nothing that separates the parts of a query.
pub proof fn law_encoded_is_safe(b: Seq<u8>)
    ensures
        forall|i: int| 0 <= i < encoded(b).len() ==> is_query_char(#[trigger] encoded(b)[i]),
    decreases b.len(),
{
    if b.len() > 0 {
        law_encoded_is_safe(b.drop_last());
        let head = encoded(b.drop_last());
        let tail = encoded_byte(b.last());
        assert forall|i: int| 0 <= i < encoded(b).len() implies is_query_char(
            #[trigger] encoded(b)[i],
        ) by {
            if i < head.len() {
                assert(encoded(b)[i] == head[i]);
            } else {
                assert(encoded(b)[i] == tail[i - head.len()]);
            }
        }
    }
}

// ---------------------------------------------------------------------------
// Settings
// ---------------------------------------------------------------------------

/// How OpenSubtitles is reached.
#[derive(Debug, Clone)]
pub struct OpenSubtitlesConfig {
    /// The key of the program.
    pub api_key: Option<String>,
    /// The user's name.
    pub username: Option<String>,
    /// The user's password.
    pub password: Option<String>,
    /// The languages wanted.
    pub languages: Vec<String>,
    /// Whether it is used at all.
    pub enabled: bool,
    /// The address of the service, if it is another than usual.
    pub base_url: Option<String>,
}

/// The settings as the environment gives them, each where it is set.
pub struct OpenSubtitlesEnv {
    /// `MOVIEBOX_OPENSUBTITLES_ENABLED`.
    pub enabled: Option<String>,
    /// `MOVIEBOX_OPENSUBTITLES_LANGUAGES`.
    pub languages: Option<String>,
    /// `MOVIEBOX_OPENSUBTITLES_API_KEY`.
    pub api_key: Option<String>,
    /// `MOVIEBOX_OPENSUBTITLES_USERNAME`.
    pub username: Option<String>,
    /// `MOVIEBOX_OPENSUBTITLES_PASSWORD`.
    pub password: Option<String>,
    /// `MOVIEBOX_OPENSUBTITLES_BASE_URL`.
    pub base_url: Option<String>,
}

/// Whether a setting switches something on: it does unless it says `false` or `0`.
pub open spec fn switched_on(v: Option<Seq<char>>) -> bool {
    match v {
        Some(s) => !eq_no_case(s, "false"@) && s != "0"@,
        None => true,
    }
}

/// Whether a setting switches something on.
pub fn is_switched_on(v: &Option<String>) -> (r: bool)
    ensures
        r == switched_on(text_opt(*v)),
{
    match v {
        Some(s) => !same_no_case(s.as_str(), "false") && !same_text(s.as_str(), "0"),
        None => true,
    }
}

/// The parts of a list, trimmed, the empty ones left out.
pub open spec fn listed(v: Seq<Seq<char>>) -> Seq<Seq<char>>
    decreases v.len(),
{
    if v.len() == 0 {
        Seq::empty()
    } else {
        let s = trim(v.last(), CharClass::White);
        if s.len() > 0 {
            listed(v.drop_last()).push(s)
        } else {
            listed(v.drop_last())
        }
    }
}

/// The languages that a setting lists; Indonesian and English where it lists none.
pub open spec fn languages_in(v: Option<Seq<char>>) -> Seq<Seq<char>> {
    match v {
        Some(s) => if listed(split(s, CharClass::Is(','))).len() > 0 {
            listed(split(s, CharClass::Is(',')))
        } else {
            seq!["id"@, "en"@]
        },
        None => seq!["id"@, "en"@],
    }
}

/// The languages that a setting lists; Indonesian and English where it lists none.
pub fn read_languages(v: &Option<String>) -> (r: Vec<String>)
    ensures
        texts(r@) == languages_in(text_opt(*v)),
{
    let mut r: Vec<String> = Vec::new();
    assert(texts(r@) =~= Seq::empty());
    match v {
        Some(s) => {
            let parts = split_text(s.as_str(), CharClass::Is(','));
            let ghost list = texts(parts@);
            let mut i: usize = 0;
            assert(list.take(0) =~= Seq::empty());
            while i < parts.len()
                invariant
                    i <= parts@.len(),
                    list == texts(parts@),
                    texts(r@) == listed(list.take(i as int)),
                decreases parts@.len() - i,
            {
                let ghost done = texts(r@);
                proof {
                    assert(list.take(i + 1).drop_last() =~= list.take(i as int));
                    assert(list.take(i + 1).last() == parts@[i as int]@);
                }
                let t = trimmed(parts[i].as_str(), CharClass::White);
                if !is_blank(t.as_str()) {
                    r.push(t);
                    assert(texts(r@) =~= done.push(t@));
                }
                i = i + 1;
            }
            assert(list.take(list.len() as int) =~= list);
        },
        None => {},
    }
    if r.len() == 0 {
        r.push(copy_text("id"));
        r.push(copy_text("en"));
        assert(texts(r@) =~= seq!["id"@, "en"@]);
    }
    r
}

/// Whether an optional text is there and not empty.
pub open spec fn is_given(v: Option<Seq<char>>) -> bool {
    v is Some && v->0.len() > 0
}

/// Whether an optional text is there and not empty.
pub fn given(v: &Option<String>) -> (r: bool)
    ensures
        r == is_given(text_opt(*v)),
{
    match v {
        Some(s) => !is_blank(s.as_str()),
        None => false,
    }
}

impl OpenSubtitlesConfig {
    /// The settings that the environment gives.
    pub fn from_env(env: OpenSubtitlesEnv) -> (r: OpenSubtitlesConfig)
        ensures
            r.enabled == switched_on(text_opt(env.enabled)),
            texts(r.languages@) == languages_in(text_opt(env.languages)),
            r.api_key == env.api_key,
            r.username == env.username,
            r.password == env.password,
            r.base_url == env.base_url,
    {
        OpenSubtitlesConfig {
            enabled: is_switched_on(&env.enabled),
            languages: read_languages(&env.languages),
            api_key: env.api_key,
            username: env.username,
            password: env.password,
            base_url: env.base_url,
        }
    }

    /// Whether OpenSubtitles can be used: it is switched on, and key, name and password are given.
    pub open spec fn usable(self) -> bool {
        &&& self.enabled
        &&& is_given(text_opt(self.api_key))
        &&& is_given(text_opt(self.username))
        &&& is_given(text_opt(self.password))
    }

    /// Whether OpenSubtitles can be used.
    pub fn enabled(&self) -> (r: bool)
        ensures
            r == self.usable(),
    {
        self.enabled && given(&self.api_key) && given(&self.username) && given(&self.password)
    }
}

impl Default for OpenSubtitlesConfig {
    fn default() -> (r: OpenSubtitlesConfig)
        ensures
            r.api_key is None,
            r.username is None,
            r.password is None,
            r.languages@.len() == 0,
            !r.enabled,
            r.base_url is None,
    {
        OpenSubtitlesConfig {
            api_key: None,
            username: None,
            password: None,
            languages: Vec::new(),
            enabled: false,
            base_url: None,
        }
    }
}

// ---------------------------------------------------------------------------
// Errors
// ---------------------------------------------------------------------------

/// What is missing in the settings.
#[derive(Debug, Clone, Copy, PartialEq, Eq, Structural)]
pub enum Credential {
    /// The key of the program.
    ApiKey,
    /// The user's name.
    Username,
    /// The user's password.
    Password,
}

impl Credential {
    /// The name of the setting.
    pub open spec fn name(self) -> Seq<char> {
        match self {
            Credential::ApiKey => "api_key"@,
            Credential::Username => "username"@,
            Credential::Password => "password"@,
        }
    }

    /// The name of the setting.
    pub fn label(self) -> (r: String)
        ensures
            r@ == self.name(),
    {
        match self {
            Credential::ApiKey => copy_text("api_key"),
            Credential::Username => copy_text("username"),
            Credential::Password => copy_text("password"),
        }
    }
}

/// Why OpenSubtitles has given nothing.
#[derive(Debug)]
pub enum OpenSubtitlesError {
    /// A setting is missing.
    MissingCredentials(Credential),
    /// The login was refused.
    LoginHttp(u16, String),
    /// The login gave no token.
    MissingToken,
    /// A request was refused.
    Http(u16, String),
    /// Too many requests were made.
    RateLimited(u64),
    /// No downloads are left.
    Quota(String),
    /// The file has too many bytes.
    BodyTooLarge(u64),
    /// There is no such subtitle.
    NotFound,
    /// The request could not be made.
    Reqwest(String),
    /// The answer could not be read.
    Json(String),
}

impl OpenSubtitlesError {
    /// The reason in words.
    pub open spec fn words(self) -> Seq<char> {
        match self {
            OpenSubtitlesError::MissingCredentials(c) => "missing OpenSubtitles credential: "@
                + c.name(),
            OpenSubtitlesError::LoginHttp(n, s) => "login failed: HTTP "@ + decimal(n as nat) + ": "@
                + s@,
            OpenSubtitlesError::MissingToken => "login response has no token"@,
            OpenSubtitlesError::Http(n, s) => "OpenSubtitles API error: HTTP "@ + decimal(n as nat)
                + ": "@ + s@,
            OpenSubtitlesError::RateLimited(n) => "rate limited (retry after ~"@ + decimal(n as nat)
                + "s)"@,
            OpenSubtitlesError::Quota(s) => "download quota exhausted: "@ + s@,
            OpenSubtitlesError::BodyTooLarge(n) => "subtitle file too large (over "@ + decimal(
                n as nat,
            ) + " MB)"@,
            OpenSubtitlesError::NotFound => "subtitle not found"@,
            OpenSubtitlesError::Reqwest(s) => "reqwest error: "@ + s@,
            OpenSubtitlesError::Json(s) => "JSON error: "@ + s@,
        }
    }

    /// The reason in words.
    pub fn message(&self) -> (r: String)
        ensures
            r@ == self.words(),
    {
        match self {
            OpenSubtitlesError::MissingCredentials(c) => cat2(
                "missing OpenSubtitles credential: ",
                c.label().as_str(),
            ),
            OpenSubtitlesError::LoginHttp(n, s) => cat4(
                "login failed: HTTP ",
                decimal_text(*n as u64).as_str(),
                ": ",
                s.as_str(),
            ),
            OpenSubtitlesError::MissingToken => copy_text("login response has no token"),
            OpenSubtitlesError::Http(n, s) => cat4(
                "OpenSubtitles API error: HTTP ",
                decimal_text(*n as u64).as_str(),
                ": ",
                s.as_str(),
            ),
            OpenSubtitlesError::RateLimited(n) => cat3(
                "rate limited (retry after ~",
                decimal_text(*n).as_str(),
                "s)",
            ),
            OpenSubtitlesError::Quota(s) => cat2("download quota exhausted: ", s.as_str()),
            OpenSubtitlesError::BodyTooLarge(n) => cat3(
                "subtitle file too large (over ",
                decimal_text(*n).as_str(),
                " MB)",
            ),
            OpenSubtitlesError::NotFound => copy_text("subtitle not found"),
            OpenSubtitlesError::Reqwest(s) => cat2("reqwest error: ", s.as_str()),
            OpenSubtitlesError::Json(s) => cat2("JSON error: ", s.as_str()),
        }
    }
}

/// What is said of a refusal, by the body of the answer.
pub open spec fn friendly(body: Seq<char>) -> Seq<char> {
    let low = lower_text(body);
    if has(low, "kong-user-agent-block"@) {
        "User-Agent diblokir gateway OpenSubtitles (perlu User-Agent browser/valid)"@
    } else if has(low, "you cannot consume this service"@) {
        "API key tidak valid atau tidak terdaftar di OpenSubtitles"@
    } else if has(low, "missing username and password"@) {
        "Field username/password tidak terkirim dengan benar"@
    } else if has(low, "<html"@) || has(low, "<!doctype"@) {
        "Server mengembalikan halaman error (kemungkinan diblokir WAF/Cloudflare)"@
    } else {
        body
    }
}

/// What is said of a refusal, by the body of the answer. The status stays in the error.
pub fn friendly_http_error(_status: u16, body: &str) -> (r: String)
    ensures
        r@ == friendly(body@),
{
    let low = to_lower(body);
    if holds_text(low.as_str(), "kong-user-agent-block") {
        copy_text("User-Agent diblokir gateway OpenSubtitles (perlu User-Agent browser/valid)")
    } else if holds_text(low.as_str(), "you cannot consume this service") {
        copy_text("API key tidak valid atau tidak terdaftar di OpenSubtitles")
    } else if holds_text(low.as_str(), "missing username and password") {
        copy_text("Field username/password tidak terkirim dengan benar")
    } else if holds_text(low.as_str(), "<html") || holds_text(low.as_str(), "<!doctype") {
        copy_text("Server mengembalikan halaman error (kemungkinan diblokir WAF/Cloudflare)")
    } else {
        copy_text(body)
    }
}

/// The beginning of a body on one line, or that there is none.
pub open spec fn snippet(body: Seq<char>) -> Seq<char> {
    let line = take_at_most(join(words(body), " "@), 300);
    if line.len() == 0 {
        "(no response body)"@
    } else {
        line
    }
}

/// The beginning of a body on one line, or that there is none.
pub fn body_snippet(body: &str) -> (r: String)
    ensures
        r@ == snippet(body@),
{
    let line = join_texts(&words_of(body), " ");
    let short = first_chars(line.as_str(), 300);
    if is_blank(short.as_str()) {
        copy_text("(no response body)")
    } else {
        short
    }
}

// ---------------------------------------------------------------------------
// Answers
// ---------------------------------------------------------------------------

/// The seconds to wait that an answer gives, three where it gives none.
pub open spec fn wait_of(retry_after: Option<Seq<char>>) -> u64 {
    match retry_after {
        Some(s) => match parse_nat(s, u64::MAX as nat) {
            Some(n) => n as u64,
            None => 3,
        },
        None => 3,
    }
}

/// The seconds to wait that an answer gives, three where it gives none.
pub fn read_wait(retry_after: &Option<String>) -> (r: u64)
    ensures
        r == wait_of(text_opt(*retry_after)),
{
    match retry_after {
        Some(s) => match read_number(s.as_str(), u64::MAX) {
            Some(n) => n,
            None => 3,
        },
        None => 3,
    }
}

/// After how many seconds a request is made again: once, after it was limited, and within three
/// seconds.
pub fn retry_delay(status: u16, attempt: u32, retry_after: &Option<String>) -> (r: Option<u64>)
    ensures
        r == (if status == 429 && attempt == 0 {
            Some(
                if wait_of(text_opt(*retry_after)) < 3 {
                    wait_of(text_opt(*retry_after))
                } else {
                    3
                },
            )
        } else {
            None
        }),
{
    if status == 429 && attempt == 0 {
        let wait = read_wait(retry_after);
        Some(
            if wait < 3 {
                wait
            } else {
                3
            },
        )
    } else {
        None
    }
}

/// Why an answer is refused, if it is.
pub open spec fn refusal(
    login: bool,
    status: u16,
    retry_after: Option<Seq<char>>,
    body: Seq<char>,
    e: Option<OpenSubtitlesError>,
) -> bool {
    if status == 429 {
        e == Some(OpenSubtitlesError::RateLimited(wait_of(retry_after)))
    } else if 200 <= status <= 299 {
        e is None
    } else if login {
        e matches Some(OpenSubtitlesError::LoginHttp(n, s)) && n == status && s@ == friendly(
            snippet(body),
        )
    } else {
        e matches Some(OpenSubtitlesError::Http(n, s)) && n == status && s@ == friendly(
            snippet(body),
        )
    }
}

/// Why an answer is refused, if it is.
pub fn refuse(login: bool, status: u16, retry_after: &Option<String>, body: &str) -> (r: Option<
    OpenSubtitlesError,
>)
    ensures
        refusal(login, status, text_opt(*retry_after), body@, r),
{
    if status == 429 {
        return Some(OpenSubtitlesError::RateLimited(read_wait(retry_after)));
    }
    if 200 <= status && status <= 299 {
        return None;
    }
    let text = friendly_http_error(status, body_snippet(body).as_str());
    if login {
        Some(OpenSubtitlesError::LoginHttp(status, text))
    } else {
        Some(OpenSubtitlesError::Http(status, text))
    }
}

/// A body that is read piece by piece, up to a number of bytes.
pub struct BodyReader {
    /// What was read.
    pub bytes: Vec<u8>,
    /// The bytes allowed.
    pub cap: u64,
}

impl BodyReader {
    /// Whether no more was read than is allowed.
    pub open spec fn wf(self) -> bool {
        self.bytes@.len() <= self.cap
    }

    /// A reader, unless the length announced is over what is allowed.
    pub fn new(cap: u64, announced: Option<u64>) -> (r: Result<BodyReader, OpenSubtitlesError>)
        ensures
            match r {
                Ok(b) => !(announced is Some && announced->0 > cap) && b.wf() && b.bytes@.len() == 0
                    && b.cap == cap,
                Err(e) => announced is Some && announced->0 > cap && e
                    == OpenSubtitlesError::BodyTooLarge((cap / 1_048_576) as u64),
            },
    {
        match announced {
            Some(n) => {
                if n > cap {
                    return Err(OpenSubtitlesError::BodyTooLarge(cap / 1_048_576));
                }
            },
            None => {},
        }
        Ok(BodyReader { bytes: Vec::new(), cap })
    }

    /// Takes a piece, unless the body grows over what is allowed.
    pub fn push(&mut self, chunk: &[u8]) -> (r: Result<(), OpenSubtitlesError>)
        requires
            old(self).wf(),
        ensures
            final(self).wf(),
            final(self).cap == old(self).cap,
            match r {
                Ok(()) => old(self).bytes@.len() + chunk@.len() <= old(self).cap
                    && final(self).bytes@ == old(self).bytes@ + chunk@,
                Err(e) => old(self).bytes@.len() + chunk@.len() > old(self).cap && final(self).bytes@
                    == old(self).bytes@ && e == OpenSubtitlesError::BodyTooLarge(
                    (old(self).cap / 1_048_576) as u64,
                ),
            },
    {
        let room: u64 = self.cap - self.bytes.len() as u64;
        if chunk.len() as u64 > room {
            return Err(OpenSubtitlesError::BodyTooLarge(self.cap / 1_048_576));
        }
        self.bytes.extend_from_slice(chunk);
        assert(self.bytes@ =~= old(self).bytes@ + chunk@);
        Ok(())
    }
}

// ---------------------------------------------------------------------------
// What answers hold
// ---------------------------------------------------------------------------

/// The answer to a login.
#[derive(Debug, Clone)]
pub struct LoginResponse {
    /// The user.
    pub user: LoginUser,
    /// The status.
    pub status: Option<u16>,
}

/// The user in the answer to a login.
#[derive(Debug, Clone)]
pub struct LoginUser {
    /// The token.
    pub token: String,
}

/// The answer to a search.
#[derive(Debug, Clone)]
pub struct SearchResponse {
    /// How many subtitles there are.
    pub total_count: Option<u32>,
    /// The subtitles of the page.
    pub data: Vec<SubtitleItem>,
}

/// A subtitle in the answer to a search.
#[derive(Debug, Clone)]
pub struct SubtitleItem {
    /// The identifier.
    pub id: String,
    /// The kind.
    pub item_type: Option<String>,
    /// What is known of it.
    pub attributes: SubtitleAttributes,
}

/// What is known of a subtitle.
#[derive(Debug, Clone)]
pub struct SubtitleAttributes {
    /// The language.
    pub language: Option<String>,
    /// The release it was made for.
    pub release_name: Option<String>,
    /// The files.
    pub files: Vec<SubtitleFile>,
    /// How often it was downloaded.
    pub download_count: Option<u32>,
    /// Whether an artificial intelligence has translated it.
    pub ai_translated: Option<bool>,
    /// Whether a machine has translated it.
    pub machine_translated: Option<bool>,
}

/// A file of a subtitle.
#[derive(Debug, Clone)]
pub struct SubtitleFile {
    /// The number.
    pub file_id: u32,
    /// The name.
    pub file_name: Option<String>,
}

/// The answer to a request for a download.
#[derive(Debug, Clone)]
pub struct DownloadResponse {
    /// The address of the file.
    pub link: String,
    /// The name of the file.
    pub file_name: Option<String>,
    /// The downloads so far.
    pub requests: Option<u32>,
    /// The downloads left.
    pub remaining: Option<u32>,
}

/// What a subtitle in the answer to a search means.
pub struct SubtitleItemV {
    /// The language.
    pub language: Option<Seq<char>>,
    /// The release it was made for.
    pub release_name: Option<Seq<char>>,
    /// The numbers of the files.
    pub files: Seq<u32>,
    /// How often it was downloaded.
    pub download_count: Option<u32>,
    /// Whether an artificial intelligence has translated it.
    pub ai_translated: Option<bool>,
    /// Whether a machine has translated it.
    pub machine_translated: Option<bool>,
}

impl View for SubtitleItem {
    type V = SubtitleItemV;

    open spec fn view(&self) -> SubtitleItemV {
        SubtitleItemV {
            language: text_opt(self.attributes.language),
            release_name: text_opt(self.attributes.release_name),
            files: Seq::new(
                self.attributes.files@.len(),
                |i: int| self.attributes.files@[i].file_id,
            ),
            download_count: self.attributes.download_count,
            ai_translated: self.attributes.ai_translated,
            machine_translated: self.attributes.machine_translated,
        }
    }
}

/// What a list of subtitles means.
pub open spec fn items(v: Seq<SubtitleItem>) -> Seq<SubtitleItemV> {
    Seq::new(v.len(), |i: int| v[i]@)
}

// ---------------------------------------------------------------------------
// Ranking
// ---------------------------------------------------------------------------

/// The candidate that a file of a subtitle becomes.
pub open spec fn candidate_of(item: SubtitleItemV, file_id: u32, ctx: SubtitleContextV) -> OsCandidateV {
    OsCandidateV {
        label: Seq::empty(),
        file_id,
        language: match item.language {
            Some(l) => l,
            None => "und"@,
        },
        score: score_of(item, ctx) as i32,
        release_name: item.release_name,
        download_count: item.download_count,
        machine_translated: is_set(item.ai_translated) || is_set(item.machine_translated),
    }
}

/// The candidates that a subtitle gives, one for each file.
pub open spec fn item_candidates(item: SubtitleItemV, ctx: SubtitleContextV) -> Seq<OsCandidateV> {
    Seq::new(item.files.len(), |i: int| candidate_of(item, item.files[i], ctx))
}

/// The candidates that subtitles give.
pub open spec fn all_candidates(v: Seq<SubtitleItemV>, ctx: SubtitleContextV) -> Seq<OsCandidateV>
    decreases v.len(),
{
    if v.len() == 0 {
        Seq::empty()
    } else {
        all_candidates(v.drop_last(), ctx) + item_candidates(v.last(), ctx)
    }
}

/// Where a score is put among the first `n` candidates: behind all that are not lower.
pub open spec fn score_place(v: Seq<OsCandidateV>, score: i32, n: int) -> int
    decreases n,
{
    if n <= 0 {
        0
    } else if v[n - 1].score < score {
        score_place(v, score, n - 1)
    } else {
        n
    }
}

/// Candidates from the highest score down, those of the same in the order they had.
pub open spec fn by_score(v: Seq<OsCandidateV>) -> Seq<OsCandidateV>
    decreases v.len(),
{
    if v.len() == 0 {
        v
    } else {
        let s = by_score(v.drop_last());
        s.insert(score_place(s, v.last().score, s.len() as int), v.last())
    }
}

/// The five best candidates.
pub open spec fn best_five(v: Seq<OsCandidateV>) -> Seq<OsCandidateV> {
    if v.len() <= 5 {
        by_score(v)
    } else {
        by_score(v).take(5)
    }
}

/// What stands ahead of a score's place, and what stands behind it.
proof fn lemma_score_place(v: Seq<OsCandidateV>, score: i32, n: int)
    requires
        0 <= n <= v.len(),
    ensures
        ({
            let p = score_place(v, score, n);
            &&& 0 <= p <= n
            &&& forall|i: int| p <= i < n ==> (#[trigger] v[i]).score < score
            &&& p > 0 ==> v[p - 1].score >= score
        }),
    decreases n,
{
    if n > 0 && v[n - 1].score < score {
        lemma_score_place(v, score, n - 1);
    }
}

/// Whether candidates stand from the highest score down.
pub open spec fn best_first(v: Seq<OsCandidateV>) -> bool {
    forall|i: int, j: int|
        0 <= i < j < v.len() ==> (#[trigger] v[i]).score >= (#[trigger] v[j]).score
}

/// Ordered candidates are the same candidates, from the highest score down.
pub proof fn law_by_score(v: Seq<OsCandidateV>)
    ensures
        best_first(by_score(v)),
        by_score(v).len() == v.len(),
        by_score(v).to_multiset() == v.to_multiset(),
    decreases v.len(),
{
    if v.len() > 0 {
        law_by_score(v.drop_last());
        let s = by_score(v.drop_last());
        let x = v.last();
        lemma_score_place(s, x.score, s.len() as int);
        let p = score_place(s, x.score, s.len() as int);
        let out = s.insert(p, x);
        assert forall|i: int, j: int| 0 <= i < j < out.len() implies (#[trigger] out[i]).score >= (
        #[trigger] out[j]).score by {
            if i == p {
                assert(out[j] == s[j - 1]);
            } else if j == p {
                assert(out[i] == s[i]);
                if i < p - 1 {
                    assert(s[i].score >= s[p - 1].score);
                }
            } else {
                let a = if i < p { i } else { i - 1 };
                let b = if j < p { j } else { j - 1 };
                assert(out[i] == s[a] && out[j] == s[b]);
            }
        }
        vstd::seq_lib::to_multiset_insert(s, p, x);
        vstd::seq_lib::to_multiset_build(v.drop_last(), x);
        assert(v =~= v.drop_last().push(x));
    }
}

/// At most five candidates are offered, and none that is left out fits better.
pub proof fn law_best_five(v: Seq<OsCandidateV>, i: int, j: int)
    requires
        0 <= i < best_five(v).len() <= j < v.len(),
    ensures
        best_five(v).len() <= 5,
        best_five(v)[i].score >= by_score(v)[j].score,
{
    law_by_score(v);
}

/// Puts the candidates of a subtitle behind others.
fn push_candidates(out: &mut Vec<OsCandidate>, item: &SubtitleItem, ctx: &SubtitleContext)
    ensures
        candidates(final(out)@) == candidates(old(out)@) + item_candidates(item@, ctx@),
{
    let ghost given = candidates(out@);
    let ghost fresh = item_candidates(item@, ctx@);
    let score = score_candidate(item, ctx);
    let attr = &item.attributes;
    let mut i: usize = 0;
    assert(given + fresh.take(0) =~= given);
    while i < attr.files.len()
        invariant
            i <= attr.files@.len(),
            *attr == item.attributes,
            score == score_of(item@, ctx@),
            fresh == item_candidates(item@, ctx@),
            candidates(out@) == given + fresh.take(i as int),
        decreases attr.files@.len() - i,
    {
        let ghost before = candidates(out@);
        let language = match &attr.language {
            Some(l) => copy_text(l.as_str()),
            None => copy_text("und"),
        };
        let c = OsCandidate {
            label: String::new(),
            file_id: attr.files[i].file_id,
            language,
            score,
            release_name: copy_opt(&attr.release_name),
            download_count: attr.download_count,
            machine_translated: is_true(attr.ai_translated) || is_true(attr.machine_translated),
        };
        out.push(c);
        proof {
            assert(c@ == fresh[i as int]);
            assert(candidates(out@) =~= before.push(c@));
            assert(before.push(c@) =~= given + fresh.take(i + 1));
        }
        i = i + 1;
    }
    assert(fresh.take(fresh.len() as int) =~= fresh);
}

/// Candidates from the highest score down, those of the same in the order they had.
fn order_candidates(v: Vec<OsCandidate>) -> (r: Vec<OsCandidate>)
    ensures
        candidates(r@) == by_score(candidates(v@)),
{
    let ghost list = candidates(v@);
    let mut v = v;
    let n: usize = v.len();
    let mut r: Vec<OsCandidate> = Vec::new();
    let mut k: usize = 0;
    assert(list.take(0) =~= candidates(r@));
    while k < n
        invariant
            k <= n == list.len(),
            v@.len() == n - k,
            candidates(v@) == list.skip(k as int),
            candidates(r@) == by_score(list.take(k as int)),
        decreases n - k,
    {
        let ghost sorted = candidates(r@);
        let ghost rest = candidates(v@);
        proof {
            assert(list.take(k + 1).drop_last() =~= list.take(k as int));
            assert(rest[0] == list[k as int]);
        }
        let ghost whole = v@;
        let x = v.remove(0);
        proof {
            assert(rest[0] == x@);
            assert(v@ =~= whole.skip(1));
            assert(candidates(v@) =~= rest.skip(1));
            assert(rest.skip(1) =~= list.skip(k + 1));
        }
        let mut i: usize = r.len();
        while i > 0 && r[i - 1].score < x.score
            invariant
                i <= r@.len(),
                candidates(r@) == sorted,
                score_place(sorted, x.score, sorted.len() as int) == score_place(
                    sorted,
                    x.score,
                    i as int,
                ),
            decreases i,
        {
            assert(sorted[i - 1] == r@[i - 1]@);
            i = i - 1;
        }
        proof {
            if i > 0 {
                assert(sorted[i - 1] == r@[i - 1]@);
            }
        }
        r.insert(i, x);
        assert(candidates(r@) =~= sorted.insert(i as int, x@));
        k = k + 1;
    }
    assert(list.take(list.len() as int) =~= list);
    r
}

/// The five best candidates in the answer to a search.
pub fn parse_and_score_search(search_res: &SearchResponse, ctx: &SubtitleContext) -> (r: Vec<
    OsCandidate,
>)
    ensures
        candidates(r@) == best_five(all_candidates(items(search_res.data@), ctx@)),
{
    let ghost list = items(search_res.data@);
    let mut all: Vec<OsCandidate> = Vec::new();
    let mut i: usize = 0;
    proof {
        assert(list.take(0) =~= Seq::empty());
        assert(candidates(all@) =~= Seq::empty());
    }
    while i < search_res.data.len()
        invariant
            i <= search_res.data@.len(),
            list == items(search_res.data@),
            candidates(all@) == all_candidates(list.take(i as int), ctx@),
        decreases search_res.data@.len() - i,
    {
        proof {
            assert(list.take(i + 1).drop_last() =~= list.take(i as int));
            assert(list.take(i + 1).last() == search_res.data@[i as int]@);
        }
        push_candidates(&mut all, &search_res.data[i], ctx);
        i = i + 1;
    }
    proof {
        assert(list.take(list.len() as int) =~= list);
        law_by_score(candidates(all@));
    }
    let mut best = order_candidates(all);
    let ghost sorted = candidates(best@);
    if best.len() > 5 {
        best.truncate(5);
    }
    assert(candidates(best@) =~= if sorted.len() <= 5 {
        sorted
    } else {
        sorted.take(5)
    });
    best
}

// ---------------------------------------------------------------------------
// Requests
// ---------------------------------------------------------------------------

/// The parameters of a search.
pub open spec fn search_params(ctx: SubtitleContextV, languages: Seq<char>) -> Seq<
    (Seq<char>, Seq<char>),
> {
    seq![("languages"@, languages)] + (match ctx.imdb_id {
        Some(id) => seq![("imdb_id"@, id)],
        None => match ctx.year {
            Some(y) => seq![("query"@, ctx.title), ("year"@, y)],
            None => seq![("query"@, ctx.title)],
        },
    }) + (if ctx.is_episode {
        seq![("type"@, "episode"@)] + (match ctx.season {
            Some(n) => seq![("season_number"@, decimal(n as nat))],
            None => Seq::empty(),
        }) + (match ctx.episode {
            Some(n) => seq![("episode_number"@, decimal(n as nat))],
            None => Seq::empty(),
        })
    } else {
        seq![("type"@, "movie"@)]
    })
}

/// Parameters as they stand in a query.
pub open spec fn encoded_params(v: Seq<(Seq<char>, Seq<char>)>) -> Seq<Seq<char>> {
    Seq::new(v.len(), |i: int| v[i].0 + "="@ + encoded(encode_utf8(v[i].1)))
}

/// The query string of parameters.
pub open spec fn query_of(v: Seq<(Seq<char>, Seq<char>)>) -> Seq<char> {
    join(encoded_params(v), "&"@)
}

/// The parameters of a search.
pub fn make_params(ctx: &SubtitleContext, languages: &str) -> (r: Vec<(String, String)>)
    ensures
        pairs(r@) == search_params(ctx@, languages@),
{
    let mut v: Vec<(String, String)> = Vec::new();
    v.push((copy_text("languages"), copy_text(languages)));
    match &ctx.imdb_id {
        Some(id) => v.push((copy_text("imdb_id"), copy_text(id.as_str()))),
        None => {
            v.push((copy_text("query"), copy_text(ctx.title.as_str())));
            match &ctx.year {
                Some(y) => v.push((copy_text("year"), copy_text(y.as_str()))),
                None => {},
            }
        },
    }
    if ctx.is_episode {
        v.push((copy_text("type"), copy_text("episode")));
        match ctx.season {
            Some(n) => v.push((copy_text("season_number"), decimal_text(n as u64))),
            None => {},
        }
        match ctx.episode {
            Some(n) => v.push((copy_text("episode_number"), decimal_text(n as u64))),
            None => {},
        }
    } else {
        v.push((copy_text("type"), copy_text("movie")));
    }
    assert(pairs(v@) =~= search_params(ctx@, languages@));
    v
}

/// The query string of parameters.
pub fn query_text(v: &Vec<(String, String)>) -> (r: String)
    ensures
        r@ == query_of(pairs(v@)),
{
    let ghost list = pairs(v@);
    let mut parts: Vec<String> = Vec::new();
    let mut i: usize = 0;
    while i < v.len()
        invariant
            i <= v@.len(),
            list == pairs(v@),
            texts(parts@) =~= encoded_params(list).take(i as int),
        decreases v@.len() - i,
    {
        let ghost done = texts(parts@);
        let p = cat3(v[i].0.as_str(), "=", urlencoding_simple(v[i].1.as_str()).as_str());
        parts.push(p);
        assert(texts(parts@) =~= done.push(p@));
        i = i + 1;
    }
    assert(texts(parts@) =~= encoded_params(list));
    join_texts(&parts, "&")
}

/// A request: its address, the key of the program, and the token of the user where it is needed.
pub struct ApiRequest {
    /// The address.
    pub url: String,
    /// The key of the program.
    pub api_key: String,
    /// What the user is authorised by.
    pub authorization: Option<String>,
    /// The file asked for, sent as the number `file_id`.
    pub file_id: Option<u32>,
}

/// A request for a token.
pub struct LoginRequest {
    /// The address.
    pub url: String,
    /// The key of the program.
    pub api_key: String,
    /// The user's name.
    pub username: String,
    /// The user's password.
    pub password: String,
}

/// How a token is had.
pub enum TokenStep {
    /// There is one.
    Have(String),
    /// It is asked for.
    Login(LoginRequest),
}

/// A client of OpenSubtitles.
pub struct OpenSubtitlesClient {
    /// How the service is reached.
    pub config: OpenSubtitlesConfig,
    /// The token of the user.
    pub token: Option<String>,
    /// When the token was given, in seconds.
    pub last_login_at: Option<u64>,
}

impl OpenSubtitlesClient {
    /// The address of the service.
    pub open spec fn address(self) -> Seq<char> {
        match self.config.base_url {
            Some(s) => s@,
            None => default_url(),
        }
    }

    /// The languages wanted, as the service takes them.
    pub open spec fn languages(self) -> Seq<char> {
        join(texts(self.config.languages@), ","@)
    }

    /// Whether the token can still be used.
    pub open spec fn token_holds(self, now: u64) -> bool {
        self.token is Some && self.last_login_at is Some && now - self.last_login_at->0
            < TOKEN_TTL_SECS
    }

    /// A client without a token.
    pub fn new(config: OpenSubtitlesConfig) -> (r: OpenSubtitlesClient)
        ensures
            r.config == config,
            r.token is None,
            r.last_login_at is None,
    {
        OpenSubtitlesClient { config, token: None, last_login_at: None }
    }

    /// A client without a token, with the settings that the environment gives.
    pub fn from_env(env: OpenSubtitlesEnv) -> (r: OpenSubtitlesClient)
        ensures
            r.config.enabled == switched_on(text_opt(env.enabled)),
            texts(r.config.languages@) == languages_in(text_opt(env.languages)),
            r.config.api_key == env.api_key,
            r.config.username == env.username,
            r.config.password == env.password,
            r.config.base_url == env.base_url,
            r.token is None,
            r.last_login_at is None,
    {
        OpenSubtitlesClient::new(OpenSubtitlesConfig::from_env(env))
    }

    /// Whether OpenSubtitles can be used.
    pub fn enabled(&self) -> (r: bool)
        ensures
            r == self.config.usable(),
    {
        self.config.enabled()
    }

    /// The address of the service.
    fn base_url(&self) -> (r: String)
        ensures
            r@ == self.address(),
    {
        match &self.config.base_url {
            Some(s) => copy_text(s.as_str()),
            None => copy_text("https://api.opensubtitles.com/api/v1"),
        }
    }

    /// The languages wanted, as the service takes them.
    pub fn language_list(&self) -> (r: String)
        ensures
            r@ == self.languages(),
    {
        join_texts(&self.config.languages, ",")
    }

    /// How a token is had: the one there is while it holds, else by a login, for which key, name and
    /// password are needed in this order.
    pub fn ensure_token(&self, now: u64) -> (r: Result<TokenStep, OpenSubtitlesError>)
        ensures
            match r {
                Ok(TokenStep::Have(t)) => self.token_holds(now) && t@ == self.token->0@,
                Ok(TokenStep::Login(q)) => {
                    &&& !self.token_holds(now)
                    &&& self.config.api_key is Some && q.api_key@ == self.config.api_key->0@
                    &&& self.config.username is Some && q.username@ == self.config.username->0@
                    &&& self.config.password is Some && q.password@ == self.config.password->0@
                    &&& q.url@ == self.address() + "/login"@
                },
                Err(e) => !self.token_holds(now) && e == OpenSubtitlesError::MissingCredentials(
                    if self.config.api_key is None {
                        Credential::ApiKey
                    } else if self.config.username is None {
                        Credential::Username
                    } else {
                        Credential::Password
                    },
                ) && (self.config.api_key is None || self.config.username is None
                    || self.config.password is None),
            },
    {
        match (&self.token, self.last_login_at) {
            (Some(t), Some(last)) => {
                if now < last || now - last < TOKEN_TTL_SECS {
                    return Ok(TokenStep::Have(copy_text(t.as_str())));
                }
            },
            _ => {},
        }
        let api_key = match &self.config.api_key {
            Some(s) => copy_text(s.as_str()),
            None => {
                return Err(OpenSubtitlesError::MissingCredentials(Credential::ApiKey));
            },
        };
        let username = match &self.config.username {
            Some(s) => copy_text(s.as_str()),
            None => {
                return Err(OpenSubtitlesError::MissingCredentials(Credential::Username));
            },
        };
        let password = match &self.config.password {
            Some(s) => copy_text(s.as_str()),
            None => {
                return Err(OpenSubtitlesError::MissingCredentials(Credential::Password));
            },
        };
        let url = cat2(self.base_url().as_str(), "/login");
        Ok(TokenStep::Login(LoginRequest { url, api_key, username, password }))
    }

    /// Takes the answer to a login, and hands the token out. It holds for twenty hours, in which a
    /// token that is needed is this one.
    pub fn logged_in(&mut self, answer: LoginResponse, now: u64) -> (r: Result<
        String,
        OpenSubtitlesError,
    >)
        ensures
            match r {
                Ok(t) => answer.user.token@.len() > 0 && t@ == answer.user.token@
                    && final(self).config == old(self).config && text_opt(final(self).token) == Some(
                    t@,
                ) && final(self).last_login_at == Some(now) && forall|later: u64|
                    #[trigger] final(self).token_holds(later) <==> later - now < TOKEN_TTL_SECS,
                Err(e) => answer.user.token@.len() == 0 && e == OpenSubtitlesError::MissingToken
                    && *final(self) == *old(self),
            },
    {
        if is_blank(answer.user.token.as_str()) {
            return Err(OpenSubtitlesError::MissingToken);
        }
        self.token = Some(copy_text(answer.user.token.as_str()));
        self.last_login_at = Some(now);
        Ok(answer.user.token)
    }

    /// The request that a search makes where the cache has no answer.
    pub fn search(&self, ctx: &SubtitleContext) -> (r: Result<ApiRequest, OpenSubtitlesError>)
        ensures
            match r {
                Ok(q) => self.config.api_key is Some && q.api_key@ == self.config.api_key->0@
                    && q.authorization is None && q.file_id is None && q.url@ == self.address()
                    + "/subtitles?"@
                    + query_of(search_params(ctx@, self.languages())),
                Err(e) => self.config.api_key is None && e
                    == OpenSubtitlesError::MissingCredentials(Credential::ApiKey),
            },
    {
        let api_key = match &self.config.api_key {
            Some(s) => copy_text(s.as_str()),
            None => {
                return Err(OpenSubtitlesError::MissingCredentials(Credential::ApiKey));
            },
        };
        let params = make_params(ctx, self.language_list().as_str());
        let url = cat3(
            self.base_url().as_str(),
            "/subtitles?",
            query_text(&params).as_str(),
        );
        Ok(ApiRequest { url, api_key, authorization: None, file_id: None })
    }

    /// The outcome of a search, from the cache or from the service.
    pub fn search_outcome(search_res: &SearchResponse, ctx: &SubtitleContext, from_cache: bool) -> (r:
        OsSearchOutcome)
        ensures
            candidates(r.candidates@) == best_five(
                all_candidates(items(search_res.data@), ctx@),
            ),
            r.from_cache == from_cache,
    {
        OsSearchOutcome { candidates: parse_and_score_search(search_res, ctx), from_cache }
    }

    /// The request for the address of a file, made with a token.
    pub fn download_link(&self, file_id: u32, token: &str) -> (r: Result<
        ApiRequest,
        OpenSubtitlesError,
    >)
        ensures
            match r {
                Ok(q) => self.config.api_key is Some && q.api_key@ == self.config.api_key->0@
                    && text_opt(q.authorization) == Some("Bearer "@ + token@) && q.file_id
                    == Some(file_id) && q.url@ == self.address() + "/download"@,
                Err(e) => self.config.api_key is None && e
                    == OpenSubtitlesError::MissingCredentials(Credential::ApiKey),
            },
    {
        match &self.config.api_key {
            Some(s) => Ok(
                ApiRequest {
                    url: cat2(self.base_url().as_str(), "/download"),
                    api_key: copy_text(s.as_str()),
                    authorization: Some(cat2("Bearer ", token)),
                    file_id: Some(file_id),
                },
            ),
            None => Err(OpenSubtitlesError::MissingCredentials(Credential::ApiKey)),
        }
    }

    /// The request for a file.
    pub fn fetch_bytes(&self, link: &str) -> (r: Result<ApiRequest, OpenSubtitlesError>)
        ensures
            match r {
                Ok(q) => self.config.api_key is Some && q.api_key@ == self.config.api_key->0@
                    && q.authorization is None && q.file_id is None && q.url@ == link@,
                Err(e) => self.config.api_key is None && e
                    == OpenSubtitlesError::MissingCredentials(Credential::ApiKey),
            },
    {
        match &self.config.api_key {
            Some(s) => Ok(
                ApiRequest {
                    url: copy_text(link),
                    api_key: copy_text(s.as_str()),
                    authorization: None,
                    file_id: None,
                },
            ),
            None => Err(OpenSubtitlesError::MissingCredentials(Credential::ApiKey)),
        }
    }
}

/// The quota that an answer to a request for a download gives, if it gives both numbers.
pub fn quota_of(answer: &DownloadResponse, now: u64) -> (r: Option<QuotaInfo>)
    ensures
        r == (match (answer.requests, answer.remaining) {
            (Some(requests), Some(remaining)) => Some(
                QuotaInfo { requests, remaining, updated_at: now },
            ),
            _ => None,
        }),
{
    match (answer.requests, answer.remaining) {
        (Some(requests), Some(remaining)) => Some(
            QuotaInfo { requests, remaining, updated_at: now },
        ),
        _ => None,
    }
}

/// The Indonesian candidate that stands first, or else the first candidate.
pub open spec fn best_candidate(v: Seq<OsCandidateV>) -> Option<OsCandidateV> {
    match first_indonesian(v) {
        Some(c) => Some(c),
        None => if v.len() > 0 {
            Some(v[0])
        } else {
            None
        },
    }
}

/// The Indonesian candidate that stands first.
pub open spec fn first_indonesian(v: Seq<OsCandidateV>) -> Option<OsCandidateV>
    decreases v.len(),
{
    if v.len() == 0 {
        None
    } else if crate::providers::subtitles::is_indonesian(v[0].language) {
        Some(v[0])
    } else {
        first_indonesian(v.skip(1))
    }
}

/// The Indonesian candidate that stands first, or else the first candidate.
pub fn pick_best_os_candidate(v: &[OsCandidate]) -> (r: Option<&OsCandidate>)
    ensures
        match r {
            Some(c) => best_candidate(candidates(v@)) == Some(c@),
            None => best_candidate(candidates(v@)) is None,
        },
{
    let ghost list = candidates(v@);
    let mut i: usize = 0;
    assert(list.skip(0) =~= list);
    while i < v.len()
        invariant
            i <= v@.len(),
            list == candidates(v@),
            first_indonesian(list) == first_indonesian(list.skip(i as int)),
        decreases v@.len() - i,
    {
        proof {
            assert(list.skip(i as int)[0] == v@[i as int]@);
            assert(list.skip(i as int).skip(1) =~= list.skip(i + 1));
        }
        if crate::providers::subtitles::speaks_indonesian(v[i].language.as_str()) {
            return Some(&v[i]);
        }
        i = i + 1;
    }
    if v.len() > 0 {
        Some(&v[0])
    } else {
        None
    }
}

/// A candidate that comes last stands behind all with the same or a higher score, and before all others.
pub proof fn law_place_by_score(v: Seq<OsCandidateV>, x: OsCandidateV)
    ensures
        exists|p: int|
            0 <= p <= by_score(v).len() && #[trigger] by_score(v).insert(p, x) == by_score(v.push(x))
                && (forall|i: int| 0 <= i < p ==> (#[trigger] by_score(v)[i]).score >= x.score) && (forall|i: int|
                p <= i < by_score(v).len() ==> (#[trigger] by_score(v)[i]).score < x.score),
{
    assert(v.push(x).drop_last() =~= v);
    let s = by_score(v);
    lemma_score_place(s, x.score, s.len() as int);
    let p = score_place(s, x.score, s.len() as int);
    assert(s.insert(p, x) == by_score(v.push(x)));
    law_by_score(v);
    assert forall|i: int| 0 <= i < p implies (#[trigger] s[i]).score >= x.score by {
        if i < p - 1 {
            assert(s[i].score >= s[p - 1].score);
        }
    }
}

/// The five best candidates are the first five, or all where there are no more.
pub proof fn law_five_are_kept(v: Seq<OsCandidateV>)
    ensures
        v.len() <= 5 ==> best_five(v) == by_score(v),
        v.len() > 5 ==> best_five(v) == by_score(v).subrange(0, 5),
{
    law_by_score(v);
    if v.len() > 5 {
        assert(best_five(v) =~= by_score(v).subrange(0, 5));
    }
}

} // verus!
