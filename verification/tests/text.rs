use moviebox_tui::tui::text::{
    remove_last_grapheme, sanitize_terminal_text, shorten_end, shorten_middle,
    truncate_middle_width, truncate_width, width, without_last_cluster,
};
use moviebox_tui::tui::titles::{clean_moviebox_title, normalized};

#[test]
fn sanitize_strips_esc_and_control_bytes() {
    // ESC (0x1b), BEL (0x07), CSI (0x9b), OSC (0x9d), other C0 and C1.
    assert_eq!(sanitize_terminal_text("a\x1bb"), "ab");
    assert_eq!(sanitize_terminal_text("a\x07b"), "ab");
    assert_eq!(sanitize_terminal_text("a\u{9b}b"), "ab");
    assert_eq!(sanitize_terminal_text("a\u{9d}b"), "ab");
    assert_eq!(sanitize_terminal_text("a\x00b\x08c\x0cd\x1fe"), "abcde");
    assert_eq!(sanitize_terminal_text("a\u{80}b\u{9f}c"), "abc");
    assert_eq!(sanitize_terminal_text("\x1b[2J\x1b]52;c;test\x07"), "[2J]52;c;test");
}

#[test]
fn sanitize_keeps_newline_tab_cr_and_unicode() {
    assert_eq!(sanitize_terminal_text("a\nb\tc\rd"), "a\nb\tc\rd");
    assert_eq!(sanitize_terminal_text("ドラゴン (2024)"), "ドラゴン (2024)");
}

#[test]
fn sanitizing_twice_changes_nothing() {
    let once = sanitize_terminal_text("x\x1b\u{85}y\x7f");
    assert_eq!(once, "xy\x7f");
    assert_eq!(sanitize_terminal_text(&once), once);
}

#[test]
fn widths_count_columns() {
    assert_eq!(width("abc"), 3);
    assert_eq!(width("日本"), 4);
    assert_eq!(width("e\u{301}"), 1);
    assert_eq!(width(""), 0);
}

#[test]
fn last_cluster_goes_as_a_whole() {
    let mut s = "ae\u{301}".to_string();
    remove_last_grapheme(&mut s);
    assert_eq!(s, "a");
    remove_last_grapheme(&mut s);
    assert_eq!(s, "");
    remove_last_grapheme(&mut s);
    assert_eq!(s, "");
    let mut family = "x👨\u{200d}👩\u{200d}👧".to_string();
    remove_last_grapheme(&mut family);
    assert_eq!(family, "x");
    assert_eq!(without_last_cluster(&vec!["a".to_string(), "bc".to_string()]), "a");
}

#[test]
fn long_texts_end_in_dots() {
    assert_eq!(truncate_width("hello", 5), "hello");
    assert_eq!(truncate_width("hello world", 8), "hello...");
    assert_eq!(truncate_width("hello", 3), "...");
    assert_eq!(truncate_width("hello", 0), "");
    assert_eq!(truncate_width("日本語版", 7), "日本...");
    assert_eq!(truncate_width("日本語版", 6), "日...");
}

#[test]
fn long_texts_lose_their_middle() {
    assert_eq!(truncate_middle_width("hello", 5), "hello");
    assert_eq!(truncate_middle_width("abcdefghij", 6), "abc…ij");
    assert_eq!(truncate_middle_width("abcdefghij", 5), "ab…ij");
    assert_eq!(truncate_middle_width("hello", 2), "..");
    assert_eq!(truncate_middle_width("hello", 0), "");
}

#[test]
fn cutting_goes_by_given_widths() {
    let parts = vec!["a".to_string(), "bb".to_string(), "c".to_string()];
    let widths: Vec<usize> = vec![1, 9, 1];
    assert_eq!(shorten_end("abbc", 11, &parts, &widths, 10), "a...");
    assert_eq!(shorten_middle("abbc", 11, &parts, &widths, 10), "a…c");
    assert_eq!(shorten_end("abbc", 11, &parts, &widths, 11), "abbc");
}

#[test]
fn titles_lose_their_remarks() {
    assert_eq!(clean_moviebox_title("Dune [Hindi]"), "Dune");
    assert_eq!(clean_moviebox_title("Dune (Hindi Dubbed) S1"), "Dune");
    assert_eq!(clean_moviebox_title("Dune (2021)"), "Dune (2021)");
    assert_eq!(clean_moviebox_title("Dark S1-S3"), "Dark");
    assert_eq!(clean_moviebox_title("Dark S1 S2"), "Dark S1");
    assert_eq!(clean_moviebox_title("The Sopranos"), "The Sopranos");
    assert_eq!(clean_moviebox_title("A  [x]"), "A");
    assert_eq!(clean_moviebox_title(""), "");
}

#[test]
fn normal_forms_keep_letters_and_numbers() {
    assert_eq!(normalized("The Office: ÜS 2"), "theofficeüs2");
}
