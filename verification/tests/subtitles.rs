use moviebox_tui::json::Json;
use moviebox_tui::providers::models::ProviderKind;
use moviebox_tui::providers::subtitles::cache::{
    current_quota, find_sibling, hash_key, keeps_search, keeps_subtitle, quota_cache_path,
    search_cache_path, search_query_key, subtitle_extension, subtitle_path, QuotaInfo,
};
use moviebox_tui::providers::subtitles::opensubtitles::{
    body_snippet, friendly_http_error, parse_and_score_search, pick_best_os_candidate, quota_of,
    refuse, retry_delay, urlencoding_simple, BodyReader, Credential, DownloadResponse,
    LoginResponse, LoginUser, OpenSubtitlesClient, OpenSubtitlesConfig, OpenSubtitlesEnv,
    OpenSubtitlesError, SearchResponse, SubtitleAttributes, SubtitleFile, SubtitleItem, TokenStep,
    MAX_SUBTITLE_BYTES,
};
use moviebox_tui::providers::subtitles::{
    build_label, extract_imdb_id, is_indonesian_label, merge_os_candidates, score_candidate,
    OsCandidate, SubtitleContext, SubtitleError,
};
use moviebox_tui::tui::titles::parse_os_marker;

fn object(members: Vec<(&str, Json)>) -> Json {
    Json::Object(members.into_iter().map(|(k, v)| (k.to_string(), v)).collect())
}

fn text(s: &str) -> Json {
    Json::Text(s.to_string())
}

fn item(language: Option<&str>, release: Option<&str>, files: Vec<u32>) -> SubtitleItem {
    SubtitleItem {
        id: "1".to_string(),
        item_type: None,
        attributes: SubtitleAttributes {
            language: language.map(|s| s.to_string()),
            release_name: release.map(|s| s.to_string()),
            files: files
                .into_iter()
                .map(|file_id| SubtitleFile { file_id, file_name: None })
                .collect(),
            download_count: None,
            ai_translated: None,
            machine_translated: None,
        },
    }
}

fn candidate(file_id: u32, language: &str, release: Option<&str>, count: Option<u32>) -> OsCandidate {
    OsCandidate {
        label: String::new(),
        file_id,
        language: language.to_string(),
        score: 0,
        release_name: release.map(|s| s.to_string()),
        download_count: count,
        machine_translated: false,
    }
}

#[test]
fn test_hash_key() {
    let h1 = hash_key(&["a", "b"]);
    let h2 = hash_key(&["a", "b"]);
    let h3 = hash_key(&["a", "c"]);
    assert_eq!(h1, h2);
    assert_ne!(h1, h3);
}

#[test]
fn hash_key_is_the_md5_of_the_joined_parts() {
    assert_eq!(hash_key(&["a", "b"]), "d0726241020676b14aa6298ce6a18b21");
    assert_eq!(hash_key(&[]), "d41d8cd98f00b204e9800998ecf8427e");
}

#[test]
fn test_subtitle_path_shape() {
    let path = subtitle_path(ProviderKind::MovieBox, "subj", 1, 2, 123, "id", "srt");
    let s = path.to_string();
    assert!(s.contains("moviebox-tui"), "path: {s}");
    assert!(s.contains("subtitles"), "path: {s}");
    assert!(s.ends_with(".srt"), "path: {s}");
    assert_eq!(s, "moviebox-tui/subtitles/d5d3f0b2b66bd5273016dc66c92a4f90.srt");
}

#[test]
fn test_subtitle_path_differs_by_file_id() {
    let a = subtitle_path(ProviderKind::MovieBox, "subj", 1, 2, 100, "id", "srt");
    let b = subtitle_path(ProviderKind::MovieBox, "subj", 1, 2, 200, "id", "srt");
    assert_ne!(a, b, "different file_id must produce different cache keys");
}

#[test]
fn test_subtitle_path_differs_by_lang() {
    let a = subtitle_path(ProviderKind::MovieBox, "subj", 1, 2, 100, "id", "srt");
    let b = subtitle_path(ProviderKind::MovieBox, "subj", 1, 2, 100, "en", "srt");
    assert_ne!(a, b, "different languages must produce different cache keys");
}

#[test]
fn test_search_query_key_languages() {
    let ctx = SubtitleContext {
        imdb_id: Some("tt0848228".into()),
        title: "Avengers".into(),
        year: Some("2012".into()),
        season: None,
        episode: None,
        ..Default::default()
    };
    let key_id_en = search_query_key(&ctx, "id,en");
    let key_fr = search_query_key(&ctx, "fr");
    assert_ne!(key_id_en, key_fr, "languages must be part of the search cache key");
    assert_eq!(key_id_en, search_query_key(&ctx, "id,en"), "key must be stable");
    assert_eq!(key_id_en, "7c65aefc03f405d433be117d1161bcda");
}

#[test]
fn search_keys_depend_on_what_is_searched_for() {
    let a = SubtitleContext {
        title: "Dark".into(),
        year: Some(String::new()),
        season: Some(0),
        ..Default::default()
    };
    let b = SubtitleContext {
        title: "Dark".into(),
        provider: ProviderKind::FourKHdHub,
        subject_id: "9".into(),
        resource_id: "8".into(),
        is_episode: true,
        imdb_id: Some(String::new()),
        ..Default::default()
    };
    let key = search_query_key(&a, "id");
    assert_eq!(key, search_query_key(&b, "id"));
    assert_eq!(key.len(), 32);
    assert!(key.chars().all(|c| c.is_ascii_digit() || ('a'..='f').contains(&c)));
}

#[test]
fn test_subtitle_extension() {
    assert_eq!(subtitle_extension(Some("sub.srt")), "srt");
    assert_eq!(subtitle_extension(Some("sub.vtt")), "vtt");
    assert_eq!(subtitle_extension(Some("sub.SRT")), "srt");
    assert_eq!(subtitle_extension(Some("sub.ass")), "ass");
    assert_eq!(subtitle_extension(Some("sub.unknown")), "srt");
    assert_eq!(subtitle_extension(Some("noext")), "srt");
    assert_eq!(subtitle_extension(None), "srt");
}

#[test]
fn cache_paths_lie_below_the_root() {
    assert_eq!(search_cache_path("abc"), "moviebox-tui/subtitles/search/abc.json");
    assert_eq!(quota_cache_path(), "moviebox-tui/subtitles/quota.json");
}

#[test]
fn cached_files_grow_old() {
    assert!(keeps_subtitle(Some(30 * 24 * 60 * 60)));
    assert!(!keeps_subtitle(Some(30 * 24 * 60 * 60 + 1)));
    assert!(!keeps_subtitle(None));
    assert!(keeps_search(Some(7 * 24 * 60 * 60)));
    assert!(!keeps_search(Some(7 * 24 * 60 * 60 + 1)));
    assert!(keeps_search(None));
    let quota = QuotaInfo { requests: 5, remaining: 15, updated_at: 1_700_000_000 };
    assert_eq!(current_quota(quota, 1_700_000_000 + 86_400), Some(quota));
    assert_eq!(current_quota(quota, 1_700_000_000 + 86_401), None);
    assert_eq!(current_quota(quota, 0), Some(quota));
}

#[test]
fn sibling_with_another_extension_is_found() {
    let files = vec!["x.srt".to_string(), "abc.vtt".to_string(), "abc.ass".to_string()];
    assert_eq!(find_sibling(&files, "abc.srt"), Some("abc.vtt".to_string()));
    assert_eq!(find_sibling(&files, "none.srt"), None);
}

#[test]
fn test_is_indonesian_label() {
    assert!(is_indonesian_label("Indonesian"));
    assert!(is_indonesian_label("Bahasa Indonesia"));
    assert!(is_indonesian_label("Indo"));
    assert!(is_indonesian_label("id"));
    assert!(!is_indonesian_label("English"));
}

#[test]
fn test_extract_imdb_id() {
    let valid = object(vec![("imdbId", text("tt0848228"))]);
    assert_eq!(extract_imdb_id(&valid), Some("tt0848228".to_string()));

    let invalid = object(vec![("imdbId", text("12345"))]);
    assert_eq!(extract_imdb_id(&invalid), None);
}

#[test]
fn imdb_id_is_read_from_the_first_text() {
    let second = object(vec![("imdbId", Json::Null), ("imdb_id", text("tt1"))]);
    assert_eq!(extract_imdb_id(&second), Some("tt1".to_string()));
    let first = object(vec![("imdbId", text("null")), ("imdb_id", text("tt1"))]);
    assert_eq!(extract_imdb_id(&first), None);
    assert_eq!(extract_imdb_id(&object(vec![("imdb", text("tt"))])), None);
    assert_eq!(extract_imdb_id(&Json::Null), None);
}

#[test]
fn test_merge_os_candidates_dedup() {
    let base = vec![("Indonesian [OS] · test · 10 dl".to_string(), "os:1:id".to_string())];
    let cands = vec![
        OsCandidate {
            label: "".into(),
            file_id: 1,
            language: "id".into(),
            score: 100,
            release_name: Some("test".into()),
            download_count: Some(10),
            machine_translated: false,
        },
        OsCandidate {
            label: "".into(),
            file_id: 2,
            language: "id".into(),
            score: 90,
            release_name: Some("other".into()),
            download_count: Some(5),
            machine_translated: false,
        },
    ];
    let merged = merge_os_candidates(base, &cands);
    assert_eq!(merged.len(), 2);
    assert_eq!(merged[1].1, "os:2:id");
}

#[test]
fn merging_compares_names_without_case() {
    let base = vec![("INDONESIAN [os] · TEST".to_string(), String::new())];
    let merged = merge_os_candidates(base, &[candidate(1, "id", Some("test"), None)]);
    assert_eq!(merged.len(), 1);
}

#[test]
fn merged_markers_are_read_back() {
    let merged = merge_os_candidates(Vec::new(), &[candidate(4_294_967_295, "pt:br", None, None)]);
    assert_eq!(merged[0].0, "pt:br [OS]");
    assert_eq!(parse_os_marker(&merged[0].1), Some((4_294_967_295, "pt:br".to_string())));
}

#[test]
fn merging_again_adds_nothing() {
    let found = vec![
        candidate(1, "id", Some("A"), Some(5)),
        candidate(2, "en", None, None),
        candidate(3, "EN", None, None),
    ];
    let base = vec![("Indonesian [OS] \u{b7} A \u{b7} 5 dl".to_string(), "http://x".to_string())];
    let once = merge_os_candidates(base, &found);
    assert_eq!(once.len(), 3);
    assert_eq!(once[1], ("en [OS]".to_string(), "os:2:en".to_string()));
    assert_eq!(once[2], ("EN [OS]".to_string(), "os:3:EN".to_string()));
    let twice = merge_os_candidates(once.clone(), &found);
    assert_eq!(once, twice);
}

#[test]
fn test_score_candidate_prioritizes_id() {
    let mut id_item = item(Some("id"), None, vec![1]);
    id_item.attributes.download_count = Some(0);
    let mut en_item = item(Some("en"), None, vec![2]);
    en_item.attributes.download_count = Some(0);
    let ctx = SubtitleContext::default();
    let id_score = score_candidate(&id_item, &ctx);
    let en_score = score_candidate(&en_item, &ctx);
    assert!(id_score > en_score, "expected {id_score} > {en_score}");
    assert_eq!(id_score, 60);
    assert_eq!(en_score, 10);
}

#[test]
fn test_score_candidate_year_and_title_bonus() {
    let with_bonus = item(Some("en"), Some("Dilan 1990 1080p BluRay x264"), vec![1]);
    let without_bonus = item(Some("en"), Some("Some Other Movie"), vec![2]);
    let ctx = SubtitleContext {
        provider: ProviderKind::MovieBox,
        subject_id: "1".into(),
        resource_id: "1".into(),
        title: "Dilan 1990".into(),
        year: Some("1990".into()),
        is_episode: false,
        season: None,
        episode: None,
        imdb_id: None,
    };
    let a = score_candidate(&with_bonus, &ctx);
    let b = score_candidate(&without_bonus, &ctx);
    assert!(a > b, "expected year+title bonus, got {a} <= {b}");
    assert_eq!(a, 45);
    assert_eq!(b, 10);
}

#[test]
fn score_counts_downloads_up_to_ten() {
    let ctx = SubtitleContext::default();
    let mut it = item(Some("en"), None, vec![]);
    it.attributes.machine_translated = Some(true);
    assert_eq!(score_candidate(&it, &ctx), 0);
    it.attributes.download_count = Some(99_999);
    assert_eq!(score_candidate(&it, &ctx), 9);
    it.attributes.download_count = Some(2_000_000);
    assert_eq!(score_candidate(&it, &ctx), 10);
}

#[test]
fn title_words_count_in_any_case_and_without_marks() {
    let ctx = SubtitleContext { title: "A (DÜNE) x".into(), ..Default::default() };
    // "düne" has four characters and five bytes.
    let it = item(Some("en"), Some("the.Düne.1080p"), vec![]);
    assert_eq!(score_candidate(&it, &ctx), 30);
}

#[test]
fn test_merge_os_candidates_marker_format() {
    let cands = vec![OsCandidate {
        label: String::new(),
        file_id: 987,
        language: "id".into(),
        score: 60,
        release_name: Some("Dilan 1990".into()),
        download_count: Some(5),
        machine_translated: false,
    }];
    let merged = merge_os_candidates(vec![("None".to_string(), String::new())], &cands);
    assert_eq!(merged.len(), 2);
    let marker = &merged[1].1;
    assert_eq!(marker, "os:987:id");
    assert!(marker.starts_with("os:"));
    let (fid, lang) = marker[3..].split_once(':').unwrap();
    assert_eq!(fid, "987");
    assert_eq!(lang, "id");
}

#[test]
fn test_build_label_contains_os() {
    let c = OsCandidate {
        label: String::new(),
        file_id: 1,
        language: "id".into(),
        score: 0,
        release_name: Some("long_release_name_that_is_way_more_than_forty_characters_long".into()),
        download_count: Some(12),
        machine_translated: false,
    };
    let label = build_label(&c);
    assert!(label.starts_with("Indonesian [OS]"));
    assert!(label.contains("[OS]"));
    assert!(label.contains("12 dl"));

    let parts: Vec<&str> = label.split(" · ").collect();
    assert_eq!(parts.len(), 3, "unexpected label shape: {label}");
    assert!(parts[1].chars().count() <= 40, "release name not truncated: {label}");
}

#[test]
fn label_says_that_a_machine_has_translated() {
    let mut c = candidate(1, "INDONESIAN", None, None);
    c.machine_translated = true;
    assert_eq!(build_label(&c), "Indonesian [OS] · MT");
}

#[test]
fn test_parse_language_as_name() {
    let it = item(Some("Indonesian"), None, vec![9]);
    let ctx = SubtitleContext::default();
    let score = score_candidate(&it, &ctx);
    assert!(score >= 50, "expected language bonus >= 50, got {score}");
}

#[test]
fn test_missing_language_defaults_to_und_not_indonesian() {
    let mut it = item(None, Some("Movie"), vec![1]);
    it.attributes.download_count = Some(0);
    let search_res = SearchResponse { total_count: Some(1), data: vec![it] };
    let cands = parse_and_score_search(&search_res, &SubtitleContext::default());
    assert_eq!(cands.len(), 1);
    assert_eq!(cands[0].language, "und");
    assert!(
        cands[0].score < 50,
        "missing language must not get the +50 Indonesian bonus, got {}",
        cands[0].score
    );
    let label = build_label(&cands[0]);
    assert!(!label.starts_with("Indonesian"), "label: {label}");
    let mut id_item = item(Some("id"), None, vec![2]);
    id_item.attributes.download_count = Some(0);
    assert!(score_candidate(&id_item, &SubtitleContext::default()) >= 50);
}

#[test]
fn five_best_candidates_are_kept_in_order() {
    let data = vec![
        item(Some("en"), None, vec![1, 2, 3]),
        item(Some("id"), None, vec![4]),
        item(Some("fr"), None, vec![5, 6]),
    ];
    let search_res = SearchResponse { total_count: None, data };
    let cands = parse_and_score_search(&search_res, &SubtitleContext::default());
    let ids: Vec<u32> = cands.iter().map(|c| c.file_id).collect();
    assert_eq!(ids, vec![4, 1, 2, 3, 5]);
}

#[test]
fn search_outcome_says_where_it_came_from() {
    let search_res = SearchResponse { total_count: None, data: vec![item(Some("id"), None, vec![7])] };
    let outcome = OpenSubtitlesClient::search_outcome(&search_res, &SubtitleContext::default(), true);
    assert!(outcome.from_cache);
    assert_eq!(outcome.candidates[0].file_id, 7);
}

fn env(key: Option<&str>, user: Option<&str>, pass: Option<&str>, on: Option<&str>) -> OpenSubtitlesEnv {
    OpenSubtitlesEnv {
        enabled: on.map(|s| s.to_string()),
        languages: None,
        api_key: key.map(|s| s.to_string()),
        username: user.map(|s| s.to_string()),
        password: pass.map(|s| s.to_string()),
        base_url: None,
    }
}

#[test]
fn opensubtitles_test_config_from_env_enabled() {
    let cfg = OpenSubtitlesConfig::from_env(env(Some("key"), Some("user"), Some("pass"), None));
    assert!(cfg.enabled());
    assert_eq!(cfg.languages, vec!["id".to_string(), "en".to_string()]);

    let cfg = OpenSubtitlesConfig::from_env(env(Some("key"), Some("user"), None, None));
    assert!(!cfg.enabled());

    let cfg = OpenSubtitlesConfig::from_env(env(Some("key"), Some("user"), Some("pass"), Some("false")));
    assert!(!cfg.enabled());
}

#[test]
fn switches_accept_false_and_zero_only() {
    let on = |v: &str| {
        OpenSubtitlesConfig::from_env(env(Some("k"), Some("u"), Some("p"), Some(v))).enabled()
    };
    assert!(!on("FALSE"));
    assert!(!on("0"));
    assert!(on("no"));
    assert!(on(""));
    assert!(!OpenSubtitlesConfig::from_env(env(Some(""), Some("u"), Some("p"), None)).enabled());
}

#[test]
fn test_config_default_languages() {
    let cfg = OpenSubtitlesConfig::from_env(env(None, None, None, None));
    assert_eq!(cfg.languages, vec!["id".to_string(), "en".to_string()]);
    let mut e = env(None, None, None, None);
    e.languages = Some("fr,de".to_string());
    let cfg = OpenSubtitlesConfig::from_env(e);
    assert_eq!(cfg.languages, vec!["fr".to_string(), "de".to_string()]);
}

#[test]
fn blank_languages_fall_back() {
    let mut e = env(None, None, None, None);
    e.languages = Some(" , ,".to_string());
    assert_eq!(OpenSubtitlesConfig::from_env(e).languages, vec!["id".to_string(), "en".to_string()]);
}

#[test]
fn test_urlencoding_simple() {
    assert_eq!(urlencoding_simple("hello world"), "hello+world");
    assert_eq!(urlencoding_simple("a&b"), "a%26b");
    assert_eq!(urlencoding_simple("café com açúcar"), "caf%C3%A9+com+a%C3%A7%C3%BAcar");
    assert_eq!(urlencoding_simple("abc123-_.~"), "abc123-_.~");
}

#[test]
fn test_friendly_http_error_kong_user_agent_block() {
    let body =
        r#"{"message":"Not allowed - blocked by Kong","kong-user-agent-block":"not_allowed"}"#;
    let msg = friendly_http_error(403, body);
    assert_eq!(
        msg,
        "User-Agent diblokir gateway OpenSubtitles (perlu User-Agent browser/valid)"
    );
}

#[test]
fn test_friendly_http_error_invalid_api_key() {
    let body = r#"{"message":"You cannot consume this service. Your API key is invalid or deactivated."}"#;
    let msg = friendly_http_error(401, body);
    assert_eq!(msg, "API key tidak valid atau tidak terdaftar di OpenSubtitles");
}

#[test]
fn test_friendly_http_error_missing_credentials() {
    let body = r#"{"message":"Missing username and password in the request"}"#;
    let msg = friendly_http_error(401, body);
    assert_eq!(msg, "Field username/password tidak terkirim dengan benar");
}

#[test]
fn test_friendly_http_error_html_waf_page() {
    let body = "<!DOCTYPE html><html><head><title>Attention Required! | Cloudflare</title></head><body>Request blocked</body></html>";
    let msg = friendly_http_error(403, body);
    assert_eq!(
        msg,
        "Server mengembalikan halaman error (kemungkinan diblokir WAF/Cloudflare)"
    );
}

#[test]
fn test_friendly_http_error_falls_back_to_snippet() {
    let body = "some unknown error text";
    let msg = friendly_http_error(500, body);
    assert_eq!(msg, body);
}

#[test]
fn test_friendly_http_error_matching_is_case_insensitive() {
    let body = r#"{"message":"Kong-User-Agent-Block"}"#;
    let msg = friendly_http_error(403, body);
    assert_eq!(
        msg,
        "User-Agent diblokir gateway OpenSubtitles (perlu User-Agent browser/valid)"
    );
}

#[test]
fn snippets_are_one_short_line() {
    assert_eq!(body_snippet("  a\n\t b  "), "a b");
    assert_eq!(body_snippet(" \n "), "(no response body)");
    assert_eq!(body_snippet(&"x".repeat(400)).chars().count(), 300);
}

fn full_client() -> OpenSubtitlesClient {
    OpenSubtitlesClient::new(OpenSubtitlesConfig {
        api_key: Some("test_api_key".into()),
        username: Some("test_user".into()),
        password: Some("test_pass".into()),
        languages: vec!["id".into()],
        enabled: true,
        base_url: Some("http://localhost".into()),
    })
}

#[test]
fn test_login_flow_http() {
    let mut client = full_client();
    match client.ensure_token(1_000) {
        Ok(TokenStep::Login(q)) => {
            assert_eq!(q.url, "http://localhost/login");
            assert_eq!(q.api_key, "test_api_key");
            assert_eq!(q.username, "test_user");
        }
        _ => panic!("expected a login"),
    }
    assert_eq!(retry_delay(200, 0, &None), None);
    assert!(refuse(true, 200, &None, "").is_none());
    let answer = LoginResponse { user: LoginUser { token: "tok_123".into() }, status: None };
    assert_eq!(client.logged_in(answer, 1_000).unwrap(), "tok_123");
    match client.ensure_token(1_001) {
        Ok(TokenStep::Have(token)) => assert_eq!(token, "tok_123"),
        _ => panic!("expected the token"),
    }
}

#[test]
fn test_fetch_bytes_retries_on_429() {
    // The first answer is limited and is tried again at once; the second brings the file.
    let q = full_client().fetch_bytes("http://localhost/file.srt").unwrap();
    assert_eq!(q.url, "http://localhost/file.srt");
    assert_eq!(retry_delay(429, 0, &Some("0".to_string())), Some(0));
    assert_eq!(retry_delay(200, 1, &None), None);
    assert!(refuse(false, 200, &None, "").is_none());
    let text = b"1\n00:00:01,000 --> 00:00:02,000\nTest\n";
    let mut body = BodyReader::new(MAX_SUBTITLE_BYTES, Some(text.len() as u64)).unwrap();
    body.push(text).unwrap();
    assert!(body.bytes.starts_with(b"1\n00:00:01,000"));
}

#[test]
fn test_login_flow_retries_on_429() {
    // The first answer is limited and is tried again at once; the second is taken.
    assert_eq!(retry_delay(429, 0, &Some("0".to_string())), Some(0));
    assert!(refuse(true, 200, &None, "").is_none());
    let mut client = full_client();
    match client.ensure_token(1_000) {
        Ok(TokenStep::Login(q)) => {
            assert_eq!(q.url, "http://localhost/login");
            assert_eq!(q.api_key, "test_api_key");
            assert_eq!(q.username, "test_user");
            assert_eq!(q.password, "test_pass");
        }
        _ => panic!("expected a login"),
    }
    let answer = LoginResponse { user: LoginUser { token: "tok_retry".into() }, status: None };
    assert_eq!(client.logged_in(answer, 1_000).unwrap(), "tok_retry");
}

#[test]
fn test_login_flow_returns_rate_limited_after_retry() {
    assert_eq!(retry_delay(429, 1, &Some("0".to_string())), None);
    match refuse(true, 429, &Some("0".to_string()), "") {
        Some(OpenSubtitlesError::RateLimited(retry_after)) => assert_eq!(retry_after, 0),
        _ => panic!("expected RateLimited"),
    }
}

#[test]
fn waits_are_capped_and_default_to_three() {
    assert_eq!(retry_delay(429, 0, &Some("60".to_string())), Some(3));
    assert_eq!(retry_delay(429, 0, &Some("soon".to_string())), Some(3));
    assert_eq!(retry_delay(429, 0, &None), Some(3));
    assert_eq!(retry_delay(503, 0, &None), None);
}

#[test]
fn tokens_hold_for_twenty_hours() {
    let mut client = full_client();
    let answer = LoginResponse { user: LoginUser { token: "t".into() }, status: Some(200) };
    client.logged_in(answer, 1_000).unwrap();
    assert!(matches!(client.ensure_token(1_000 + 71_999), Ok(TokenStep::Have(_))));
    assert!(matches!(client.ensure_token(1_000 + 72_000), Ok(TokenStep::Login(_))));
    assert!(matches!(client.ensure_token(0), Ok(TokenStep::Have(_))));
}

#[test]
fn empty_tokens_are_refused() {
    let mut client = full_client();
    let answer = LoginResponse { user: LoginUser { token: String::new() }, status: None };
    assert!(matches!(client.logged_in(answer, 1), Err(OpenSubtitlesError::MissingToken)));
    assert!(client.token.is_none());
}

#[test]
fn missing_settings_are_named_in_order() {
    let mut client = OpenSubtitlesClient::new(OpenSubtitlesConfig::default());
    assert!(!client.enabled());
    assert!(matches!(
        client.ensure_token(0),
        Err(OpenSubtitlesError::MissingCredentials(Credential::ApiKey))
    ));
    assert!(matches!(
        client.search(&SubtitleContext::default()),
        Err(OpenSubtitlesError::MissingCredentials(Credential::ApiKey))
    ));
    assert!(client.fetch_bytes("http://x").is_err());
    assert!(client.download_link(1, "t").is_err());
    client.config.api_key = Some("k".into());
    assert!(matches!(
        client.ensure_token(0),
        Err(OpenSubtitlesError::MissingCredentials(Credential::Username))
    ));
    client.config.username = Some("u".into());
    let e = client.ensure_token(0).err().unwrap();
    assert!(matches!(e, OpenSubtitlesError::MissingCredentials(Credential::Password)));
    assert_eq!(e.message(), "missing OpenSubtitles credential: password");
}

#[test]
fn searches_ask_for_the_title() {
    let client = full_client();
    let ctx = SubtitleContext {
        title: "The Office".into(),
        year: Some("2005".into()),
        is_episode: true,
        season: Some(3),
        episode: Some(12),
        ..Default::default()
    };
    let q = client.search(&ctx).unwrap();
    assert_eq!(
        q.url,
        "http://localhost/subtitles?languages=id&query=The+Office&year=2005&type=episode&season_number=3&episode_number=12"
    );
    assert_eq!(q.api_key, "test_api_key");
    let film = SubtitleContext { imdb_id: Some("tt1".into()), ..Default::default() };
    assert_eq!(
        client.search(&film).unwrap().url,
        "http://localhost/subtitles?languages=id&imdb_id=tt1&type=movie"
    );
    let mut plain = full_client();
    plain.config.base_url = None;
    assert_eq!(
        plain.search(&film).unwrap().url,
        "https://api.opensubtitles.com/api/v1/subtitles?languages=id&imdb_id=tt1&type=movie"
    );
}

#[test]
fn downloads_are_authorised() {
    let q = full_client().download_link(555, "tok").unwrap();
    assert_eq!(q.url, "http://localhost/download");
    assert_eq!(q.authorization, Some("Bearer tok".to_string()));
    assert_eq!(q.file_id, Some(555));
    let f = full_client().fetch_bytes("http://file").unwrap();
    assert_eq!(f.url, "http://file");
    assert_eq!(f.api_key, "test_api_key");
}

#[test]
fn test_fetch_bytes_rejects_oversized_response() {
    let err = BodyReader::new(MAX_SUBTITLE_BYTES, Some(62_914_560)).err().unwrap();
    assert!(matches!(err, OpenSubtitlesError::BodyTooLarge(_)));
    assert_eq!(err.message(), "subtitle file too large (over 50 MB)");
}

#[test]
fn bodies_stop_at_the_cap() {
    let mut body = BodyReader::new(5, None).unwrap();
    body.push(b"abc").unwrap();
    assert!(matches!(body.push(b"def"), Err(OpenSubtitlesError::BodyTooLarge(0))));
    body.push(b"de").unwrap();
    assert_eq!(body.bytes, b"abcde".to_vec());
}

#[test]
fn refusals_name_their_status() {
    let e = refuse(true, 401, &None, "Missing username and password").unwrap();
    assert_eq!(
        e.message(),
        "login failed: HTTP 401: Field username/password tidak terkirim dengan benar"
    );
    let e = refuse(false, 500, &None, "").unwrap();
    assert_eq!(e.message(), "OpenSubtitles API error: HTTP 500: (no response body)");
    let e = refuse(false, 429, &None, "").unwrap();
    assert_eq!(e.message(), "rate limited (retry after ~3s)");
}

#[test]
fn errors_have_words() {
    assert_eq!(OpenSubtitlesError::MissingToken.message(), "login response has no token");
    assert_eq!(OpenSubtitlesError::NotFound.message(), "subtitle not found");
    assert_eq!(OpenSubtitlesError::Quota("0 left".into()).message(), "download quota exhausted: 0 left");
    assert_eq!(OpenSubtitlesError::Reqwest("x".into()).message(), "reqwest error: x");
    assert_eq!(OpenSubtitlesError::Json("x".into()).message(), "JSON error: x");
    assert_eq!(SubtitleError::NotFound.message(), "Subtitle not found");
    assert_eq!(SubtitleError::Disabled.message(), "subtitle provider disabled");
    assert_eq!(
        SubtitleError::OpenSubtitles(OpenSubtitlesError::MissingToken).message(),
        "OpenSubtitles: login response has no token"
    );
}

#[test]
fn quotas_need_both_numbers() {
    let mut answer = DownloadResponse {
        link: "https://dl.opensubtitles.org/en/file/abc.srt".into(),
        file_name: Some("movie.id.srt".into()),
        requests: Some(5),
        remaining: Some(15),
    };
    assert_eq!(
        quota_of(&answer, 9),
        Some(QuotaInfo { requests: 5, remaining: 15, updated_at: 9 })
    );
    answer.remaining = None;
    assert_eq!(quota_of(&answer, 9), None);
}

#[test]
fn test_parse_os_marker() {
    assert_eq!(parse_os_marker("os:5091684:id"), Some((5091684, "id".to_string())));
    // Missing language part defaults to "id".
    assert_eq!(parse_os_marker("os:123"), Some((123, "id".to_string())));
    assert_eq!(parse_os_marker("os:abc"), None);
    assert_eq!(parse_os_marker("http://example.com/sub.srt"), None);
    assert_eq!(parse_os_marker(""), None);
}

#[test]
fn markers_hold_numbers_of_32_bits() {
    assert_eq!(parse_os_marker("os:4294967296:id"), None);
    assert_eq!(parse_os_marker("os:+7:en"), Some((7, "en".to_string())));
    assert_eq!(parse_os_marker("os:7:"), Some((7, String::new())));
}

#[test]
fn test_pick_best_os_candidate_prefers_id() {
    let mut en = candidate(1, "en", None, None);
    en.score = 100;
    let mut id = candidate(2, "id", None, None);
    id.score = 60;

    // Indonesian candidate wins even when it is not first in the list.
    let mixed = vec![en.clone(), id.clone()];
    assert_eq!(pick_best_os_candidate(&mixed).map(|c| c.file_id), Some(2));

    // Without an Indonesian candidate, the first one is picked.
    let no_id = vec![en.clone()];
    assert_eq!(pick_best_os_candidate(&no_id).map(|c| c.file_id), Some(1));

    // Empty list -> None.
    assert_eq!(pick_best_os_candidate(&[]), None);
}

#[test]
fn clients_are_set_up_from_the_environment() {
    let client = OpenSubtitlesClient::from_env(OpenSubtitlesEnv {
        enabled: Some("1".into()),
        languages: Some("id, en".into()),
        api_key: Some("k".into()),
        username: Some("u".into()),
        password: Some("p".into()),
        base_url: None,
    });
    assert!(client.enabled());
    assert_eq!(client.language_list(), "id,en");
    assert!(client.token.is_none());
}
