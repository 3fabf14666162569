use moviebox_tui::json::Json;
use moviebox_tui::numbers::{
    decimal2_text, decimal_int_text, decimal_text, hex_text, read_int, read_number,
};
use moviebox_tui::tui::pool::{order_streams, StreamPool};

fn object(members: Vec<(&str, Json)>) -> Json {
    Json::Object(members.into_iter().map(|(k, v)| (k.to_string(), v)).collect())
}

#[test]
fn numbers_are_written_and_read_back() {
    assert_eq!(decimal_text(0), "0");
    assert_eq!(decimal_text(u64::MAX), "18446744073709551615");
    assert_eq!(decimal2_text(7), "07");
    assert_eq!(decimal2_text(123), "123");
    assert_eq!(decimal_int_text(i64::MIN), "-9223372036854775808");
    assert_eq!(read_int("-9223372036854775808"), Some(i64::MIN));
    assert_eq!(read_int("9223372036854775808"), None);
    assert_eq!(read_number("+42", u64::MAX), Some(42));
    assert_eq!(read_number("256", 255), None);
    assert_eq!(read_number("", 255), None);
    assert_eq!(read_number("+", 255), None);
    assert_eq!(read_number("-1", 255), None);
    assert_eq!(read_number("1 ", 255), None);
    assert_eq!(hex_text(&[0, 255, 16]), "00ff10");
}

#[test]
fn json_values_are_read() {
    let j = object(vec![("a", Json::Unsigned(5)), ("b", Json::Null)]);
    assert_eq!(j.get("a").and_then(|v| v.as_int()), Some(5));
    assert!(j.get("b").is_some());
    assert!(j.get("c").is_none());
    assert!(Json::Null.get("a").is_none());
    assert_eq!(Json::Unsigned(u64::MAX).as_int(), None);
    assert_eq!(Json::Unsigned(u64::MAX).as_unsigned(), Some(u64::MAX));
    assert_eq!(Json::Negative(-3).as_int(), Some(-3));
    assert_eq!(Json::Negative(-3).as_unsigned(), None);
    assert_eq!(Json::Decimal("1.0".into()).as_int(), None);
    assert_eq!(Json::Bool(true).as_truth(), Some(true));
    assert!(Json::Text("x".into()).as_list().is_none());
    let copy = j.copy();
    assert_eq!(copy.get("a").and_then(|v| v.as_int()), Some(5));
}

#[test]
fn streams_are_pooled_once() {
    let stream = |link: &str, resolution: u64, episode: Json| {
        object(vec![
            ("resourceLink", Json::Text(link.to_string())),
            ("resolution", Json::Unsigned(resolution)),
            ("se", Json::Unsigned(1)),
            ("ep", episode),
        ])
    };
    let mut pool = StreamPool::new();
    pool.start("s".into(), vec![480]);
    let items = vec![
        stream("a", 720, Json::Unsigned(2)),
        stream("a", 720, Json::Text("2".into())),
        stream("b", 1080, Json::Text("2".into())),
        stream("b", 1080, Json::Text("x".into())),
    ];
    pool.add("s", &items, false);
    assert_eq!(pool.streams("s", 1, 2).map(|v| v.len()), Some(2));
    assert_eq!(pool.streams("s", 1, 0).map(|v| v.len()), Some(1));
    assert!(pool.streams("s", 0, 0).is_none());
    assert!(pool.streams("t", 1, 2).is_none());
    pool.drop_streams("s", 1, 2);
    assert!(pool.streams("s", 1, 2).is_none());
    let ordered = order_streams(&items);
    assert_eq!(
        ordered.iter().map(|j| j.get("resolution").and_then(|r| r.as_int())).collect::<Vec<_>>(),
        vec![Some(1080), Some(1080), Some(720), Some(720)]
    );
}
