use hyprconnect_core::field::stands_before;
use hyprconnect_core::numeral::Number;
use hyprconnect_core::value::{is_one_of, same_text, Json};
use hyprconnect_core::wire::{read_text, write_text};

fn number(text: &str) -> Json {
    Json::Number(Number { text: text.to_string() })
}

#[test]
fn text_is_read_in_wire_order() {
    let j = read_text(b"{\"b\": 1, \"a\": [true, null, \"x\", 2.5e3]}").unwrap();
    assert_eq!(
        j,
        Json::Object(vec![
            ("b".to_string(), number("1")),
            (
                "a".to_string(),
                Json::Array(vec![
                    Json::Bool(true),
                    Json::Null,
                    Json::Text("x".to_string()),
                    number("2.5e+3"),
                ])
            ),
        ])
    );
}

#[test]
fn a_repeated_key_on_the_wire_is_read_once() {
    let j = read_text(b"{\"a\": 1, \"b\": 2, \"a\": 3}").unwrap();
    assert_eq!(
        j,
        Json::Object(vec![("a".to_string(), number("3")), ("b".to_string(), number("2"))])
    );
}

#[test]
fn value_is_written_as_compact_text() {
    let j = Json::Object(vec![
        ("id".to_string(), Json::from_u128(340282366920938463463374607431768211455)),
        ("ok".to_string(), Json::Bool(false)),
        ("list".to_string(), Json::Array(vec![Json::Null, Json::Text("a\"b".to_string())])),
        ("inner".to_string(), Json::Object(vec![])),
    ]);
    let bytes = write_text(&j).unwrap();
    assert_eq!(
        String::from_utf8(bytes).unwrap(),
        "{\"id\":340282366920938463463374607431768211455,\"ok\":false,\"list\":[null,\"a\\\"b\"],\"inner\":{}}"
    );
}

#[test]
fn written_text_is_read_back() {
    let j = Json::Object(vec![
        ("z".to_string(), number("-12.5e-3")),
        ("a".to_string(), Json::Array(vec![Json::Object(vec![("k".to_string(), Json::Null)])])),
        ("text".to_string(), Json::Text("line\nfeed \u{1F600}".to_string())),
    ]);
    let bytes = write_text(&j).unwrap();
    assert_eq!(read_text(&bytes), Some(j));
}

#[test]
fn a_repeated_key_is_not_written() {
    let j = Json::Object(vec![
        ("a".to_string(), Json::Null),
        ("a".to_string(), Json::Bool(true)),
    ]);
    assert!(!j.is_well_formed());
    assert!(write_text(&j).is_none());
    let nested = Json::Array(vec![Json::Object(vec![("x".to_string(), j)])]);
    assert!(!nested.is_well_formed());
    assert!(write_text(&nested).is_none());
}

#[test]
fn a_number_that_is_no_literal_is_not_written() {
    for text in ["1E5", "1e5", "01", "", "-", "1.", "one"] {
        assert!(write_text(&number(text)).is_none(), "{}", text);
    }
    assert_eq!(write_text(&number("-0.5e-7")).unwrap(), b"-0.5e-7".to_vec());
    assert_eq!(write_text(&number("0")).unwrap(), b"0".to_vec());
}

#[test]
fn what_is_no_json_is_not_read() {
    assert!(read_text(b"{\"a\": ").is_none());
    assert!(read_text(b"").is_none());
    assert!(read_text(b"[1] x").is_none());
    assert!(read_text(b"{'a': 1}").is_none());
    assert!(read_text(&[0xff, 0xfe]).is_none());
}

#[test]
fn numbers_are_read_letter_for_letter() {
    assert_eq!(read_text(b"18446744073709551616"), Some(number("18446744073709551616")));
    assert_eq!(read_text(b"0.10"), Some(number("0.10")));
    assert_eq!(read_text(b"-0"), Some(number("-0")));
    assert_eq!(read_text(b"1E3"), Some(number("1e+3")));
}

#[test]
fn get_finds_the_last_member_with_the_key() {
    let j = Json::Object(vec![
        ("a".to_string(), Json::Bool(false)),
        ("b".to_string(), Json::Null),
        ("a".to_string(), Json::Bool(true)),
    ]);
    assert_eq!(j.get("a"), Some(&Json::Bool(true)));
    assert_eq!(j.get("b"), Some(&Json::Null));
    assert_eq!(j.get("c"), None);
    assert_eq!(Json::Null.get("a"), None);
    assert_eq!(Json::Array(vec![]).get("a"), None);
}

#[test]
fn members_besides_keeps_the_order_of_the_rest() {
    let j = Json::Object(vec![
        ("x".to_string(), Json::Bool(false)),
        ("uids".to_string(), Json::Null),
        ("y".to_string(), Json::Bool(true)),
    ]);
    let names = vec!["uids".to_string(), "other".to_string()];
    assert_eq!(
        j.members_besides(&names),
        vec![("x".to_string(), Json::Bool(false)), ("y".to_string(), Json::Bool(true))]
    );
    assert_eq!(Json::Null.members_besides(&names), vec![]);
    assert!(is_one_of("other", &names));
    assert!(!is_one_of("othe", &names));
}

#[test]
fn as_u128_reads_plain_integers_only() {
    assert_eq!(Json::from_u128(8).as_u128(), Some(8));
    assert_eq!(number("8.0").as_u128(), None);
    assert_eq!(number("-8").as_u128(), None);
    assert_eq!(Json::Text("8".to_string()).as_u128(), None);
    assert_eq!(Json::Bool(true).as_u128(), None);
}

#[test]
fn clone_gives_an_equal_value() {
    let j = Json::Object(vec![(
        "a".to_string(),
        Json::Array(vec![number("1"), Json::Text("t".to_string()), Json::Null]),
    )]);
    assert_eq!(j.clone(), j);
}

#[test]
fn same_text_compares_characters() {
    assert!(same_text("", ""));
    assert!(same_text("tcpPort", "tcpPort"));
    assert!(!same_text("tcpPort", "tcpport"));
    assert!(!same_text("a", "ab"));
    assert!(same_text("é", "é"));
}

#[test]
fn stands_before_looks_at_the_earlier_places() {
    let list = vec!["a".to_string(), "b".to_string(), "a".to_string()];
    assert!(!stands_before(&list, 0));
    assert!(!stands_before(&list, 1));
    assert!(stands_before(&list, 2));
    assert!(!stands_before(&list, 3));
}
