use vk_executive::value::position;
use vk_executive::Value;

fn text(s: &str) -> Value {
    Value::String(String::from(s))
}

fn number(s: &str) -> Value {
    Value::Number(String::from(s))
}

fn object(members: Vec<(&str, Value)>) -> Value {
    Value::Object(members.into_iter().map(|(k, v)| (String::from(k), v)).collect())
}

#[test]
fn is_false_holds_of_the_literal_alone() {
    assert!(Value::Boolean(false).is_false());
    assert!(!Value::Boolean(true).is_false());
    assert!(!Value::Null.is_false());
    assert!(!number("0").is_false());
    assert!(!text("false").is_false());
    assert!(!text("").is_false());
    assert!(!Value::Array(vec![]).is_false());
    assert!(!Value::Array(vec![Value::Boolean(false)]).is_false());
    assert!(!object(vec![]).is_false());
}

#[test]
fn get_finds_the_first_member_of_a_name() {
    let value = object(vec![("a", number("1")), ("b", text("x")), ("a", number("2"))]);
    assert_eq!(value.get("a"), Some(&number("1")));
    assert_eq!(value.get("b"), Some(&text("x")));
    assert_eq!(value.get("c"), None);
    assert_eq!(value.get(""), None);
    assert_eq!(number("1").get("a"), None);
    assert_eq!(Value::Array(vec![object(vec![("a", Value::Null)])]).get("a"), None);
}

#[test]
fn position_is_the_place_of_the_first_match() {
    let members = vec![
        (String::from("response"), Value::Null),
        (String::from("execute_errors"), Value::Null),
        (String::from("response"), Value::Null),
    ];
    assert_eq!(position(&members, "response"), Some(0));
    assert_eq!(position(&members, "execute_errors"), Some(1));
    assert_eq!(position(&members, "execute_error"), None);
    assert_eq!(position(&Vec::new(), "response"), None);
}

#[test]
fn as_text_gives_the_text_of_a_string() {
    assert_eq!(text("abc").as_text(), Some(&String::from("abc")));
    assert_eq!(number("1").as_text(), None);
    assert_eq!(Value::Null.as_text(), None);
}

#[test]
fn clone_copies_the_whole_value() {
    let value = object(vec![
        ("id", number("1")),
        ("names", Value::Array(vec![text("Pavel"), Value::Null, Value::Boolean(true)])),
        ("inner", object(vec![("deep", Value::Array(vec![object(vec![("x", number("-2.5e3"))])]))])),
    ]);
    let copy = value.clone();
    assert_eq!(copy, value);
}

#[test]
fn to_json_is_compact_and_keeps_the_order_of_members() {
    let value = object(vec![
        ("b", number("1")),
        ("a", Value::Array(vec![text("x"), Value::Null, Value::Boolean(true), Value::Boolean(false)])),
        ("b", object(vec![])),
        ("c", Value::Array(vec![])),
        ("d", number("-2.5e3")),
    ]);
    assert_eq!(
        value.to_json(),
        "{\"b\":1,\"a\":[\"x\",null,true,false],\"b\":{},\"c\":[],\"d\":-2.5e3}"
    );
}

#[test]
fn to_json_escapes_strings() {
    assert_eq!(text("plain").to_json(), "\"plain\"");
    assert_eq!(text("").to_json(), "\"\"");
    assert_eq!(text("say \"hi\"").to_json(), "\"say \\\"hi\\\"\"");
    assert_eq!(text("back\\slash").to_json(), "\"back\\\\slash\"");
    assert_eq!(text("line\nbreak\ttab\r").to_json(), "\"line\\nbreak\\ttab\\r\"");
    assert_eq!(text("\u{1}").to_json(), "\"\\u0001\"");
    assert_eq!(text("Дуров").to_json(), "\"Дуров\"");
    assert_eq!(object(vec![("a\"b", Value::Null)]).to_json(), "{\"a\\\"b\":null}");
}

#[test]
fn from_json_reads_every_kind_of_value() {
    assert_eq!(Value::from_json(b"null"), Some(Value::Null));
    assert_eq!(Value::from_json(b"true"), Some(Value::Boolean(true)));
    assert_eq!(Value::from_json(b" false "), Some(Value::Boolean(false)));
    assert_eq!(Value::from_json(b"0"), Some(number("0")));
    assert_eq!(Value::from_json(b"-17"), Some(number("-17")));
    assert_eq!(Value::from_json(b"18446744073709551615"), Some(number("18446744073709551615")));
    assert_eq!(Value::from_json(b"1.5"), Some(number("1.5")));
    assert_eq!(Value::from_json(b"\"a\\nb\""), Some(text("a\nb")));
    assert_eq!(
        Value::from_json(b"[1, \"x\", [], {}]"),
        Some(Value::Array(vec![number("1"), text("x"), Value::Array(vec![]), object(vec![])]))
    );
    assert_eq!(
        Value::from_json("{\"id\": 1, \"name\": \"Павел\"}".as_bytes()),
        Some(object(vec![("id", number("1")), ("name", text("Павел"))]))
    );
}

#[test]
fn from_json_refuses_what_is_no_json() {
    assert_eq!(Value::from_json(b""), None);
    assert_eq!(Value::from_json(b"{"), None);
    assert_eq!(Value::from_json(b"{\"a\": 1,}"), None);
    assert_eq!(Value::from_json(b"[1] 2"), None);
    assert_eq!(Value::from_json(b"<html></html>"), None);
    assert_eq!(Value::from_json(b"nul"), None);
    assert_eq!(Value::from_json(&[0xff, 0xfe]), None);
}

#[test]
fn to_json_can_be_read_back() {
    let value = object(vec![
        ("a", Value::Array(vec![text("x\"y"), Value::Null, Value::Boolean(true)])),
        ("b", number("-2.5")),
        ("c", object(vec![("d", text("\u{1}\n"))])),
    ]);
    assert_eq!(Value::from_json(value.to_json().as_bytes()), Some(value));
}

#[test]
fn numbers_from_integers() {
    assert_eq!(Value::from_u64(0), number("0"));
    assert_eq!(Value::from_u64(103), number("103"));
    assert_eq!(Value::from_u64(u64::MAX), number("18446744073709551615"));
    assert_eq!(Value::from_i64(0), number("0"));
    assert_eq!(Value::from_i64(42), number("42"));
    assert_eq!(Value::from_i64(-1), number("-1"));
    assert_eq!(Value::from_i64(-1905), number("-1905"));
    assert_eq!(Value::from_i64(i64::MAX), number("9223372036854775807"));
    assert_eq!(Value::from_i64(i64::MIN), number("-9223372036854775808"));
    assert_eq!(Value::from_json(b"-9223372036854775808"), Some(Value::from_i64(i64::MIN)));
    assert_eq!(Value::from_i64(-7).to_json(), "-7");
}

fn escape(c: char) -> String {
    match c {
        '"' => String::from("\\\""),
        '\\' => String::from("\\\\"),
        '\u{8}' => String::from("\\b"),
        '\t' => String::from("\\t"),
        '\n' => String::from("\\n"),
        '\u{c}' => String::from("\\f"),
        '\r' => String::from("\\r"),
        c if (c as u32) < 0x20 => format!("\\u00{:02x}", c as u32),
        c => c.to_string(),
    }
}

#[test]
fn to_json_escapes_every_character_by_the_table() {
    let mut all = String::new();
    let mut expected = String::from("\"");
    for code in (0u32..0x100).chain([0x7ff, 0x2028, 0x2029, 0xfffd, 0x1f600]) {
        let c = char::from_u32(code).unwrap();
        assert_eq!(text(&c.to_string()).to_json(), format!("\"{}\"", escape(c)), "U+{:04X}", code);
        all.push(c);
        expected.push_str(&escape(c));
    }
    expected.push('"');
    assert_eq!(text(&all).to_json(), expected);
    assert_eq!(text("\u{1f}").to_json(), "\"\\u001f\"");
    assert_eq!(text("\u{b}").to_json(), "\"\\u000b\"");
    assert_eq!(text("\u{7f}/").to_json(), "\"\u{7f}/\"");
}
