use moviebox_tui::providers::models::ProviderKind;
use moviebox_tui::providers::subtitles::subdl::{
    build_subdl_label, extract_first_subtitle_from_zip, extract_from_entries,
    list_subdl_candidates, parse_and_score_search, parse_subdl_marker, pick_best_subdl_candidate,
    safe_basename, score_subdl_candidate, subdl_download_url, subdl_marker, subtitle_ext_of,
    subtitle_id_from_url, Entry, Rating, SubdlCandidate, SubdlClient, SubdlConfig, SubdlEnv,
    SubdlError, SubdlSearchResponse, SubdlSubtitleItem, SubdlTitleResult,
};
use moviebox_tui::providers::subtitles::cache::{subdl_subtitle_path, subtitle_path};
use moviebox_tui::providers::subtitles::SubtitleContext;
use std::io::Write;

fn sample_context() -> SubtitleContext {
    SubtitleContext {
        provider: ProviderKind::MovieBox,
        subject_id: "1".into(),
        resource_id: "1".into(),
        title: "Oppenheimer".into(),
        year: Some("2023".into()),
        is_episode: false,
        season: None,
        episode: None,
        imdb_id: Some("tt15398776".into()),
    }
}

fn subtitle(language: Option<&str>, release: Option<&str>, url: Option<&str>) -> SubdlSubtitleItem {
    SubdlSubtitleItem {
        release_name: release.map(|s| s.to_string()),
        name: None,
        url: url.map(|s| s.to_string()),
        language: language.map(|s| s.to_string()),
        season: None,
        episode: None,
        full_season: None,
        hi: None,
        fps: None,
        download_count: None,
        rating: None,
        id: None,
        n_id: None,
    }
}

#[test]
fn test_parse_search_response_fixture() {
    let first = subtitle(None, Some("Season Pack"), Some("/subtitle/3197651-3213944.zip"));
    let mut second = subtitle(
        Some("ID"),
        Some("Oppenheimer.2023.1080p.WEB-DL"),
        Some("/subtitle/3197652-3213945.zip"),
    );
    second.download_count = Some(123);
    second.rating = Some(Rating { doubled: 17, text: "8.5".into() });
    let parsed = SubdlSearchResponse {
        status: Some(true),
        results: vec![SubdlTitleResult {
            imdb_id: Some("tt1375666".into()),
            tmdb_id: Some(27205),
            item_type: Some("movie".into()),
            name: Some("Inception".into()),
            sd_id: Some(123456),
            year: Some(2010),
        }],
        subtitles: vec![first, second],
    };
    assert_eq!(parsed.results.len(), 1);
    assert_eq!(parsed.results[0].imdb_id.as_deref(), Some("tt1375666"));
    assert_eq!(parsed.results[0].year, Some(2010));
    assert_eq!(parsed.subtitles.len(), 2);

    // subtitle_id is parsed from the relative download URL.
    let first = parsed.subtitles[0].subtitle_id().unwrap();
    assert_eq!(first, "3197651-3213944");

    // Language code, download count and rating are parsed.
    let second = &parsed.subtitles[1];
    assert_eq!(second.language.as_deref(), Some("ID"));
    assert_eq!(second.download_count, Some(123));
    assert_eq!(second.rating, Some(Rating { doubled: 17, text: "8.5".into() }));

    let ranked = parse_and_score_search(&parsed, &sample_context());
    assert_eq!(ranked[0].subtitle_id, "3197652-3213945");
    assert_eq!(ranked[0].score, 50 + 15 + 20 + 17);
    assert_eq!(ranked[1].language, "id");
    assert_eq!(ranked[1].score, 0);
}

#[test]
fn test_subtitle_id_from_url_variants() {
    assert_eq!(
        subtitle_id_from_url("/subtitle/3197651-3213944.zip"),
        Some("3197651-3213944".to_string())
    );
    assert_eq!(
        subtitle_id_from_url("https://dl.subdl.com/subtitle/3197651-3213944.zip"),
        Some("3197651-3213944".to_string())
    );
    assert_eq!(subtitle_id_from_url("3197651-3213944"), Some("3197651-3213944".to_string()));
    assert_eq!(subtitle_id_from_url(""), None);
    assert_eq!(subtitle_id_from_url("   "), None);
}

#[test]
fn explicit_ids_go_before_paths() {
    let mut it = subtitle(None, None, Some("/subtitle/1.zip"));
    it.n_id = Some("  7-8 ".into());
    assert_eq!(it.subtitle_id(), Some("7-8".to_string()));
    it.n_id = Some("  ".into());
    it.id = Some("9".into());
    assert_eq!(it.subtitle_id(), Some("1".to_string()));
    assert_eq!(subtitle(None, None, Some("/subtitle/.zip")).subtitle_id(), None);
}

#[test]
fn test_subdl_download_url() {
    assert_eq!(
        subdl_download_url("3197651-3213944"),
        "https://dl.subdl.com/subtitle/3197651-3213944.zip"
    );
}

#[test]
fn test_build_subdl_label_and_marker() {
    let c = SubdlCandidate {
        subtitle_id: "3197651-3213944".into(),
        language: "ID".into(),
        score: 60,
        release_name: Some("Oppenheimer.2023.1080p.WEB-DL".into()),
        rating: Some(Rating { doubled: 17, text: "8.5".into() }),
        download_count: Some(123),
    };
    let label = build_subdl_label(&c);
    assert!(label.starts_with("Indonesian [SubDL]"), "label: {label}");
    assert!(label.contains("[SubDL]"), "label: {label}");
    assert!(label.contains("123 dl"), "label: {label}");
    assert!(label.contains("8.5"), "label: {label}");
    // Release name is truncated to 40 chars.
    let short = label.split(" · ").nth(1).unwrap();
    assert!(short.chars().count() <= 40, "label: {label}");
    assert_eq!(label, "Indonesian [SubDL] · Oppenheimer.2023.1080p.WEB-DL · 123 dl · 8.5★");

    let marker = subdl_marker(&c);
    assert_eq!(marker, "subdl:3197651-3213944:ID");
    assert!(marker.starts_with("subdl:"));
}

#[test]
fn test_score_subdl_candidate_prioritizes_id() {
    let id_item = subtitle(Some("ID"), None, Some("/subtitle/1.zip"));
    let en_item = subtitle(Some("EN"), None, Some("/subtitle/2.zip"));
    let ctx = sample_context();
    let id_score = score_subdl_candidate(&id_item, &ctx, None);
    let en_score = score_subdl_candidate(&en_item, &ctx, None);
    assert!(id_score > en_score, "expected {id_score} > {en_score}");
}

#[test]
fn test_score_subdl_candidate_year_and_title_bonus() {
    let with_bonus =
        subtitle(Some("EN"), Some("Oppenheimer.2023.1080p.BluRay.x264"), Some("/subtitle/1.zip"));
    let without_bonus = subtitle(Some("EN"), Some("Some Other Movie"), Some("/subtitle/2.zip"));
    let ctx = sample_context();
    let a = score_subdl_candidate(&with_bonus, &ctx, None);
    let b = score_subdl_candidate(&without_bonus, &ctx, None);
    assert!(a > b, "expected year+title bonus, got {a} <= {b}");
    assert_eq!((a, b), (35, 0));
}

#[test]
fn year_of_the_title_stands_in() {
    let ctx = SubtitleContext::default();
    let it = subtitle(Some("EN"), Some("Film.1999"), None);
    assert_eq!(score_subdl_candidate(&it, &ctx, Some(1999)), 15);
    assert_eq!(score_subdl_candidate(&it, &ctx, Some(-1)), 0);
}

fn env(key: Option<&str>, on: Option<&str>, languages: Option<&str>, base: Option<&str>) -> SubdlEnv {
    SubdlEnv {
        enabled: on.map(|s| s.to_string()),
        languages: languages.map(|s| s.to_string()),
        api_key: key.map(|s| s.to_string()),
        base_url: base.map(|s| s.to_string()),
    }
}

#[test]
fn subdl_test_config_from_env_enabled() {
    // Key present -> enabled with default languages.
    let cfg = SubdlConfig::from_env(env(Some("key"), None, None, None));
    assert!(cfg.enabled());
    assert_eq!(cfg.languages, vec!["id".to_string(), "en".to_string()]);

    // No key -> disabled even when the flag defaults to true.
    let cfg = SubdlConfig::from_env(env(None, None, None, None));
    assert!(!cfg.enabled());

    // Explicitly disabled wins even with a key present.
    let cfg = SubdlConfig::from_env(env(Some("key"), Some("false"), None, None));
    assert!(!cfg.enabled());

    // Custom languages + base url are read.
    let cfg = SubdlConfig::from_env(env(
        Some("key"),
        None,
        Some("fr,de"),
        Some("https://mirror.example"),
    ));
    assert!(cfg.enabled());
    assert_eq!(cfg.languages, vec!["fr".to_string(), "de".to_string()]);
    assert_eq!(cfg.base_url.as_deref(), Some("https://mirror.example"));
}

#[test]
fn searches_are_encoded_as_forms() {
    let client = SubdlClient::new(SubdlConfig::from_env(env(Some("k"), None, None, None)));
    assert!(client.enabled());
    let ctx = SubtitleContext {
        title: "Amélie & Co~".into(),
        is_episode: true,
        season: Some(1),
        episode: Some(2),
        ..Default::default()
    };
    let q = client.search(&ctx).unwrap();
    assert_eq!(
        q.url,
        "https://api.subdl.com/api/v2/subtitles/search?languages=id%2Cen&film_name=Am%C3%A9lie+%26+Co%7E&type=tv&season=1&episode=2&subs_per_page=30"
    );
    assert_eq!(q.authorization, "Bearer k");
    let q = client.search(&sample_context()).unwrap();
    assert_eq!(
        q.url,
        "https://api.subdl.com/api/v2/subtitles/search?languages=id%2Cen&imdb_id=tt15398776&type=movie&subs_per_page=30"
    );
    assert!(client.query_key(&ctx).starts_with("subdl:"));
}

#[test]
fn searches_need_a_key() {
    let client = SubdlClient::new(SubdlConfig::default());
    let e = client.search(&sample_context()).err().unwrap();
    assert!(matches!(e, SubdlError::MissingCredentials));
    assert_eq!(e.message(), "missing SubDL credential: api_key");
}

#[test]
fn subdl_refusals_name_their_status() {
    assert!(SubdlClient::refuse(204, "x").is_none());
    let e = SubdlClient::refuse(500, "a\nb").unwrap();
    assert_eq!(e.message(), "SubDL API error: HTTP 500: a b");
    assert!(matches!(SubdlClient::download_bytes(404, "x", &[]), Err(SubdlError::NotFound)));
}

#[test]
fn subdl_errors_have_words() {
    assert_eq!(SubdlError::NotFound.message(), "subtitle not found");
    assert_eq!(
        SubdlError::NoSubtitleInZip.message(),
        "subtitle archive contains no subtitle file"
    );
    assert_eq!(SubdlError::Zip("z".into()).message(), "ZIP error: z");
    assert_eq!(SubdlError::Io("i".into()).message(), "IO error: i");
    assert_eq!(SubdlError::Reqwest("r".into()).message(), "reqwest error: r");
    assert_eq!(SubdlError::Json("j".into()).message(), "JSON error: j");
}

/// Build an in-memory zip archive from `(name, content)` entries.
fn build_zip(entries: &[(&str, &[u8])]) -> Vec<u8> {
    let mut buf = Vec::new();
    {
        let mut writer = zip::ZipWriter::new(std::io::Cursor::new(&mut buf));
        let options = zip::write::SimpleFileOptions::default();
        for (name, data) in entries {
            writer.start_file(*name, options).unwrap();
            writer.write_all(data).unwrap();
        }
        writer.finish().unwrap();
    }
    buf
}

#[test]
fn test_extract_srt_from_zip() {
    let zip_bytes = build_zip(&[(
        "Oppenheimer.2023.WEB-DL[@AirenTeam].srt",
        b"1\n00:00:01,000 --> 00:00:02,000\nTest\n",
    )]);
    let (ext, bytes) = extract_first_subtitle_from_zip(&zip_bytes).unwrap();
    assert_eq!(ext, "srt");
    assert!(bytes.starts_with(b"1\n00:00:01,000"));
}

#[test]
fn test_extract_skips_folder_and_other_files() {
    let zip_bytes = build_zip(&[
        ("readme.txt", b"hello"),
        ("folder/movie.id.srt", b"1\n00:00:01,000 --> 00:00:02,000\nTest\n"),
    ]);
    let (ext, bytes) = extract_first_subtitle_from_zip(&zip_bytes).unwrap();
    assert_eq!(ext, "srt");
    assert!(bytes.starts_with(b"1\n00:00:01,000"));
}

#[test]
fn test_extract_prefers_vtt_extension() {
    let zip_bytes =
        build_zip(&[("movie.id.vtt", b"WEBVTT\n\n00:00:01.000 --> 00:00:02.000\nTest\n")]);
    let (ext, _) = extract_first_subtitle_from_zip(&zip_bytes).unwrap();
    assert_eq!(ext, "vtt");
}

#[test]
fn test_extract_empty_or_without_subtitle_errors() {
    // Empty archive.
    assert!(matches!(extract_first_subtitle_from_zip(&[]), Err(SubdlError::Zip(_))));
    // Archive with only non-subtitle files.
    let zip_bytes = build_zip(&[("notes.txt", b"no subtitle here")]);
    assert!(matches!(
        extract_first_subtitle_from_zip(&zip_bytes),
        Err(SubdlError::NoSubtitleInZip)
    ));
}

#[test]
fn extraction_gives_the_whole_file() {
    let body = "x".repeat(100_000);
    let zip_bytes = build_zip(&[("a/b.nfo", b""), ("a/S.SUB", body.as_bytes()), ("z.srt", b"later")]);
    let (ext, bytes) = SubdlClient::download_bytes(200, "", &zip_bytes).unwrap();
    assert!(matches!(
        SubdlClient::download_bytes(500, "server error", &zip_bytes),
        Err(SubdlError::Reqwest(words)) if words == "server error"
    ));
    assert_eq!(ext, "sub");
    assert_eq!(bytes, body.as_bytes());
}

#[test]
fn broken_entries_end_the_search() {
    let ok = |name: &str| Entry { name: Ok(name.to_string()), contents: Ok(b"1".to_vec()) };
    let bad = Entry { name: Err("password".into()), contents: Ok(Vec::new()) };
    assert!(matches!(
        extract_from_entries(vec![ok("a.txt"), bad, ok("b.srt")]),
        Err(SubdlError::Zip(_))
    ));
    let unread = Entry { name: Ok("b.srt".into()), contents: Err("crc".into()) };
    assert!(matches!(extract_from_entries(vec![ok("d.srt/"), unread]), Err(SubdlError::Io(_))));
    let (ext, bytes) = extract_from_entries(vec![ok("../e.srt"), ok("dir\\f.ass")]).unwrap();
    assert_eq!((ext.as_str(), bytes), ("ass", b"1".to_vec()));
}

#[test]
fn test_safe_basename_rejects_traversal() {
    assert_eq!(safe_basename("../evil.srt"), None);
    assert_eq!(safe_basename("../../etc/passwd"), None);
    assert_eq!(safe_basename("/absolute/path.srt"), None);
    assert_eq!(safe_basename("a/b/../c.srt"), None);
    assert_eq!(safe_basename(""), None);
    assert_eq!(safe_basename("folder/sub.srt"), Some("sub.srt".to_string()));
    assert_eq!(safe_basename("plain.srt"), Some("plain.srt".to_string()));
    // Windows-style separators are normalized.
    assert_eq!(safe_basename("folder\\sub.srt"), Some("sub.srt".to_string()));
}

#[test]
fn test_zip_slip_traversal_rejected() {
    let mut buf = Vec::new();
    let wrote = {
        let mut writer = zip::ZipWriter::new(std::io::Cursor::new(&mut buf));
        let options = zip::write::SimpleFileOptions::default();
        match writer.start_file("../evil.srt", options) {
            Ok(()) => {
                let _ = writer.write_all(b"evil");
                let _ = writer.finish();
                true
            }
            Err(_) => false,
        }
    };
    if wrote {
        // If the writer accepted the traversal name, our extractor must
        // refuse it (never yields the entry content).
        assert!(matches!(
            extract_first_subtitle_from_zip(&buf),
            Err(SubdlError::NoSubtitleInZip)
        ));
    }
    // The guard itself is exercised deterministically above.
    assert_eq!(safe_basename("../evil.srt"), None);
}

#[test]
fn subtitle_extensions_are_known() {
    assert_eq!(subtitle_ext_of("a.SRT"), Some("srt"));
    assert_eq!(subtitle_ext_of("a.ssa"), Some("ssa"));
    assert_eq!(subtitle_ext_of("vtt"), Some("vtt"));
    assert_eq!(subtitle_ext_of("a.srt.txt"), None);
}

fn found(subtitle_id: &str, language: &str) -> SubdlCandidate {
    SubdlCandidate {
        subtitle_id: subtitle_id.to_string(),
        language: language.to_string(),
        score: 0,
        release_name: None,
        rating: None,
        download_count: None,
    }
}

#[test]
fn markers_and_addresses_are_read_back() {
    let c = found("12-34", "EN");
    assert_eq!(parse_subdl_marker(&subdl_marker(&c)), Some(("12-34".into(), "EN".into())));
    assert_eq!(parse_subdl_marker("subdl:9"), Some(("9".into(), "id".into())));
    assert_eq!(parse_subdl_marker("subdl::en"), None);
    assert_eq!(parse_subdl_marker("os:9:id"), None);
    let url = subdl_download_url("12-34");
    assert_eq!(subtitle_id_from_url(&url), Some("12-34".to_string()));
    let listed = list_subdl_candidates(&[c]);
    assert_eq!(listed, vec![("EN [SubDL]".to_string(), "subdl:12-34:EN".to_string())]);
}

#[test]
fn the_best_candidate_is_indonesian() {
    let v = vec![found("1", "EN"), found("2", "ID"), found("3", "indonesian")];
    assert_eq!(pick_best_subdl_candidate(&v).unwrap().subtitle_id, "2");
    assert_eq!(pick_best_subdl_candidate(&v[..1]).unwrap().subtitle_id, "1");
    assert!(pick_best_subdl_candidate(&[]).is_none());
}

#[test]
fn ratings_add_at_most_twenty() {
    let score = |doubled: i32| {
        let mut item = subtitle(
            Some("id"),
            Some("Oppenheimer.2023.1080p.WEB-DL"),
            Some("/subtitle/1.zip"),
        );
        item.download_count = Some(500_000);
        item.rating = Some(Rating { doubled, text: String::new() });
        score_subdl_candidate(&item, &sample_context(), None)
    };
    assert_eq!(score(20), 115);
    assert_eq!(score(i32::MAX), 115);
    assert_eq!(score(17), 112);
    assert_eq!(score(-4), 95);
}

#[test]
fn archives_are_cached_apart_from_files_of_opensubtitles() {
    let p = ProviderKind::MovieBox;
    let path = subdl_subtitle_path(p, "s", 1, 2, "7", "id", "srt");
    assert!(path.starts_with("moviebox-tui/subtitles/") && path.ends_with(".srt"));
    assert_ne!(path, subtitle_path(p, "s", 1, 2, 7, "id", "srt"));
    assert_ne!(path, subdl_subtitle_path(p, "s", 1, 2, "8", "id", "srt"));
}
