use moviebox_tui::providers::iptv_org::m3u::{
    keep_urls, listed_urls, saved_urls, Channel, M3UParser,
};

#[test]
fn utf8_bom_is_stripped_before_parsing() {
    let parser = M3UParser::new();
    let content = "\u{feff}#EXTM3U\n#EXTINF:-1 tvg-id=\"cnn\" tvg-logo=\"http://logo/x.png\" group-title=\"News\",CNN International\nhttp://stream.example/cnn.m3u8\n";
    let channels = parser.parse_m3u(content);
    assert_eq!(channels.len(), 1, "BOM must not produce a bogus channel");
    assert_eq!(channels[0].name, "CNN International");
    assert_eq!(channels[0].id, "cnn");
    assert_eq!(channels[0].stream_url, "http://stream.example/cnn.m3u8");
}

#[test]
fn attributes_and_names_are_read() {
    let content = "#EXTM3U\r\n#EXTINF:-1 tvg-id=\"\" tvg-logo=\"http://l/y.png\" group-title=\"News;World\", BBC, One \r\n#EXTVLCOPT:x\r\n\r\n  http://s/bbc  \r\nhttp://s/bare\r\n";
    let v = M3UParser::default().parse_m3u(content);
    assert_eq!(v.len(), 2);
    // The name follows the last comma, and stands for a missing identifier.
    assert_eq!(v[0].name, "One");
    assert_eq!(v[0].id, "One");
    assert_eq!(v[0].logo, "http://l/y.png");
    assert_eq!(v[0].group, "News;World");
    assert_eq!(v[0].stream_url, "http://s/bbc");
    // Nothing is carried over to the next channel.
    assert_eq!(v[1].name, "");
    assert_eq!(v[1].id, "");
    assert_eq!(v[1].group, "");
    assert_eq!(v[1].stream_url, "http://s/bare");
}

#[test]
fn unclosed_attributes_are_empty() {
    let v = M3UParser::new().parse_m3u("#EXTINF:-1 tvg-id=\"abc,Name\nhttp://s\n");
    assert_eq!(v[0].id, "Name");
    assert_eq!(v[0].name, "Name");
    assert!(M3UParser::new().parse_m3u("").is_empty());
}

#[test]
fn playlists_are_kept_for_a_day() {
    assert!(M3UParser::needs_download(None));
    assert!(!M3UParser::needs_download(Some(86_399)));
    assert!(M3UParser::needs_download(Some(86_400)));
    let p = M3UParser::new();
    let name = M3UParser::file_name("https://iptv-org.github.io/iptv/categories/news.m3u");
    assert_eq!(name, "news.m3u");
    assert_eq!(p.cached_path(&name), "moviebox-tui/tv_playlists/news.m3u");
}

#[test]
fn chosen_playlists_are_read_back() {
    let urls = vec!["http://a/\"q\"".to_string(), "http://b\n".to_string()];
    let kept = keep_urls(&urls);
    assert_eq!(kept, "[\"http://a/\\\"q\\\"\",\"http://b\\n\"]");
    assert_eq!(saved_urls(&Some(kept)), urls);
    assert_eq!(keep_urls(&vec![]), "[]");
    assert!(saved_urls(&None).is_empty());
    assert!(saved_urls(&Some("not json".into())).is_empty());
    assert!(saved_urls(&Some("[\"a\", 1]".into())).is_empty());
    assert_eq!(saved_urls(&Some(" [\"a\"] ".into())), vec!["a".to_string()]);
    assert!(listed_urls(None).is_empty());
    assert_eq!(listed_urls(Some(urls.clone())), urls);
}

#[test]
fn playlists_behind_one_another_are_read_as_alone() {
    let a = "#EXTM3U\n#EXTINF:-1 tvg-id=\"a\",A\nhttp://a\n# end";
    let b = "#EXTINF:-1,B\nhttp://b\nhttp://c";
    let parser = M3UParser::new();
    let joined = parser.parse_m3u(&format!("{a}\n{b}"));
    let mut apart = parser.parse_m3u(a);
    apart.extend(parser.parse_m3u(b));
    let all = |v: Vec<Channel>| {
        v.into_iter().map(|c| (c.id, c.name, c.logo, c.group, c.stream_url)).collect::<Vec<_>>()
    };
    assert_eq!(all(joined), all(apart));
}
