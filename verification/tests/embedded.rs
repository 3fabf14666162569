use moviebox_tui::tui::embedded::{
    container_supports_embedded_subs, ffprobe_args, format_embedded_notice, parse_probe_output,
    probe_enabled, FfprobeStream, ProbeReport, ProbeTrack,
};

#[test]
fn container_supports_common_containers() {
    assert!(container_supports_embedded_subs("https://cdn.example.com/movie.mkv"));
    assert!(container_supports_embedded_subs("https://cdn.example.com/movie.mp4"));
    assert!(container_supports_embedded_subs("https://cdn.example.com/live.ts"));
    assert!(container_supports_embedded_subs("https://cdn.example.com/movie.webm"));
    assert!(container_supports_embedded_subs("movie.mkv"));
}

#[test]
fn container_rejects_non_subtitle_files() {
    assert!(!container_supports_embedded_subs("https://cdn.example.com/poster.jpg"));
    assert!(!container_supports_embedded_subs("https://cdn.example.com/stream.m3u8"));
    assert!(!container_supports_embedded_subs("https://cdn.example.com/noextension"));
    assert!(!container_supports_embedded_subs(""));
    assert!(!container_supports_embedded_subs("https://cdn.example.com/trailing/"));
}

#[test]
fn container_ignores_query_and_fragment() {
    assert!(container_supports_embedded_subs("https://cdn.example.com/movie.mkv?token=abc123"));
    assert!(container_supports_embedded_subs("https://cdn.example.com/movie.mkv#fragment"));
    assert!(!container_supports_embedded_subs("https://cdn.example.com/poster.jpg?token=abc123"));
    assert!(!container_supports_embedded_subs("https://cdn.example.com/stream.m3u8?token=abc123"));
}

#[test]
fn container_is_case_insensitive() {
    assert!(container_supports_embedded_subs("https://cdn.example.com/movie.MKV"));
    assert!(container_supports_embedded_subs("https://cdn.example.com/movie.Mp4"));
    assert!(!container_supports_embedded_subs("https://cdn.example.com/poster.JPG"));
    assert!(!container_supports_embedded_subs("https://cdn.example.com/stream.M3U8"));
}

fn stream(index: i64, codec: Option<&str>, kind: Option<&str>, language: Option<&str>) -> FfprobeStream {
    FfprobeStream {
        index,
        codec_name: codec.map(|s| s.to_string()),
        codec_type: kind.map(|s| s.to_string()),
        language: language.map(|s| s.to_string()),
    }
}

#[test]
fn parse_probe_output_keeps_only_subtitle_streams() {
    let streams = vec![
        stream(0, Some("subrip"), Some("subtitle"), Some("id")),
        stream(1, Some("mov_text"), None, Some("en")),
        stream(2, Some("h264"), Some("video"), None),
    ];
    let report = parse_probe_output(&streams);
    assert_eq!(report.tracks.len(), 2);
    assert_eq!(report.tracks[0].index, 0);
    assert_eq!(report.tracks[0].language.as_deref(), Some("id"));
    assert_eq!(report.tracks[0].codec.as_deref(), Some("subrip"));
    assert_eq!(report.tracks[1].index, 1);
    assert_eq!(report.tracks[1].language.as_deref(), Some("en"));
    assert_eq!(report.tracks[1].codec.as_deref(), Some("mov_text"));
}

#[test]
fn parse_probe_output_handles_missing_fields() {
    let report = parse_probe_output(&vec![stream(0, None, None, None), stream(3, None, None, None)]);
    assert_eq!(report.tracks.len(), 2);
    assert_eq!(report.tracks[0].language, None);
    assert_eq!(report.tracks[0].codec, None);
    assert_eq!(report.tracks[1].language, None);
    assert_eq!(report.tracks[1].index, 3);
}

#[test]
fn notice_reports_probe_tracks() {
    let report = ProbeReport {
        tracks: vec![
            ProbeTrack {
                index: 0,
                language: Some("id".to_string()),
                codec: Some("subrip".to_string()),
            },
            ProbeTrack {
                index: 1,
                language: Some("en".to_string()),
                codec: Some("subrip".to_string()),
            },
            ProbeTrack {
                index: 2,
                language: Some("id".to_string()),
                codec: Some("subrip".to_string()),
            },
        ],
    };
    let message = format_embedded_notice(true, Some(&report));
    assert_eq!(
        message,
        "Found 3 embedded subtitle track(s) (e.g. id, en). If the player doesn't show one, press 'j' (mpv) to cycle tracks."
    );
}

#[test]
fn notice_reports_probe_tracks_without_languages() {
    let report = ProbeReport {
        tracks: vec![ProbeTrack {
            index: 0,
            language: None,
            codec: Some("subrip".to_string()),
        }],
    };
    let message = format_embedded_notice(true, Some(&report));
    assert_eq!(
        message,
        "Found 1 embedded subtitle track(s). If the player doesn't show one, press 'j' (mpv) to cycle tracks."
    );
}

#[test]
fn notice_falls_back_to_likely_hint() {
    assert_eq!(
        format_embedded_notice(true, None),
        "This stream is an MKV/MP4 and may contain embedded subtitles. If the player doesn't show one, press 'j' (mpv) to cycle tracks."
    );
    // Empty report (no tracks) also falls back to the likely hint.
    let empty = ProbeReport { tracks: Vec::new() };
    assert_eq!(
        format_embedded_notice(true, Some(&empty)),
        "This stream is an MKV/MP4 and may contain embedded subtitles. If the player doesn't show one, press 'j' (mpv) to cycle tracks."
    );
}

#[test]
fn notice_is_empty_when_neither() {
    assert_eq!(format_embedded_notice(false, None), "");
    let empty = ProbeReport { tracks: Vec::new() };
    assert_eq!(format_embedded_notice(false, Some(&empty)), "");
}

#[test]
fn probing_has_to_be_asked_for() {
    assert!(probe_enabled(&Some("TRUE".to_string())));
    assert!(probe_enabled(&Some("1".to_string())));
    assert!(!probe_enabled(&Some("yes".to_string())));
    assert!(!probe_enabled(&None));
}

#[test]
fn headers_are_handed_on() {
    let headers = vec![("A".to_string(), "1".to_string()), ("B".to_string(), "2".to_string())];
    let args = ffprobe_args("http://x", &headers);
    assert_eq!(args[args.len() - 3], "-headers");
    assert_eq!(args[args.len() - 2], "A: 1\r\nB: 2\r\n");
    assert_eq!(args[args.len() - 1], "http://x");
    assert_eq!(ffprobe_args("u", &Vec::new()).len(), 9);
}
