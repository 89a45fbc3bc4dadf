use mangadex::ident::Uuid;
use mangadex::json::{parse_decimal, quote, Json};
use mangadex::location::set_query;
use mangadex::text::{join_text, same_text};

#[test]
fn parse_reads_every_kind_of_value() {
    let document = Json::parse(
        r#"{"s":"a\u00e9\n","n":-12,"f":1.5,"e":1e3,"t":true,"z":null,"a":[1,"x",[]],"o":{"k":{}}}"#,
    )
    .unwrap();
    assert_eq!(document.get("s").unwrap().as_str(), Some("a\u{e9}\n"));
    assert_eq!(document.get("n").unwrap().as_i64(), Some(-12));
    assert_eq!(document.get("n").unwrap().as_i32(), Some(-12));
    assert_eq!(document.get("f").unwrap().as_i64(), None);
    assert_eq!(document.get("e").unwrap().as_i64(), None);
    assert_eq!(document.get("t").unwrap().as_bool(), Some(true));
    assert!(document.get("z").unwrap().is_null());
    assert!(!document.get("t").unwrap().is_null());
    let items = document.get("a").unwrap().as_array().unwrap();
    assert_eq!(items.len(), 3);
    assert_eq!(items[0].as_i32(), Some(1));
    assert_eq!(items[1].as_str(), Some("x"));
    assert_eq!(items[2].as_array().unwrap().len(), 0);
    assert!(document.get("o").unwrap().get("k").unwrap().get("x").is_none());
    assert!(document.get("missing").is_none());
    assert!(document.get("a").unwrap().get("0").is_none());
    assert!(matches!(document.get("f"), Some(Json::Number(text)) if text == "1.5"));
}

#[test]
fn parse_rejects_what_is_no_document() {
    for text in ["", " ", "{", "}", "[1,]", "{\"a\":}", "nul", "01", "'a'", "1 2"] {
        assert!(Json::parse(text).is_none(), "{}", text);
    }
    assert!(matches!(Json::parse("null"), Some(Json::Null)));
    assert!(matches!(Json::parse(" false "), Some(Json::Bool(false))));
    assert!(matches!(Json::parse("\"\""), Some(Json::Text(text)) if text.is_empty()));
}

#[test]
fn get_takes_the_first_member_with_the_key() {
    let document = Json::Object(vec![
        ("a".to_string(), Json::Number("1".to_string())),
        ("b".to_string(), Json::Bool(true)),
        ("a".to_string(), Json::Number("2".to_string())),
    ]);
    assert_eq!(document.get("a").unwrap().as_i32(), Some(1));
    assert_eq!(document.get("b").unwrap().as_bool(), Some(true));
    assert!(document.get("c").is_none());
    assert!(Json::Null.get("a").is_none());
    assert!(Json::Array(vec![]).get("a").is_none());
}

#[test]
fn integers_are_read_exactly() {
    assert_eq!(parse_decimal("0"), Some(0));
    assert_eq!(parse_decimal("-0"), Some(0));
    assert_eq!(parse_decimal("007"), Some(7));
    assert_eq!(parse_decimal("503"), Some(503));
    assert_eq!(parse_decimal("-503"), Some(-503));
    assert_eq!(parse_decimal("9223372036854775807"), Some(i64::MAX));
    assert_eq!(parse_decimal("-9223372036854775808"), Some(i64::MIN));
    assert_eq!(parse_decimal("9223372036854775808"), None);
    assert_eq!(parse_decimal("-9223372036854775809"), None);
    assert_eq!(parse_decimal("99999999999999999999999999999999999999999"), None);
    for text in ["", "-", "+1", "1.0", "1e3", " 1", "1 ", "--1", "1-", "١", "1\u{e9}"] {
        assert_eq!(parse_decimal(text), None, "{:?}", text);
    }
    let number = |text: &str| Json::Number(text.to_string());
    assert_eq!(number("2147483647").as_i32(), Some(i32::MAX));
    assert_eq!(number("2147483648").as_i32(), None);
    assert_eq!(number("-2147483648").as_i32(), Some(i32::MIN));
    assert_eq!(number("-2147483649").as_i32(), None);
    assert_eq!(Json::Text("1".to_string()).as_i32(), None);
    assert_eq!(Json::Bool(true).as_i64(), None);
}

#[test]
fn optional_text_members() {
    let document = Json::parse(r#"{"a":"x","b":null,"c":1}"#).unwrap();
    assert_eq!(document.optional_text("a"), Some(Some("x".to_string())));
    assert_eq!(document.optional_text("b"), Some(None));
    assert_eq!(document.optional_text("d"), Some(None));
    assert_eq!(document.optional_text("c"), None);
}

#[test]
fn texts_of_an_array() {
    let list = Json::parse(r#"["a","","c"]"#).unwrap();
    assert_eq!(
        list.as_texts(),
        Some(vec!["a".to_string(), String::new(), "c".to_string()])
    );
    assert_eq!(Json::parse("[]").unwrap().as_texts(), Some(vec![]));
    assert_eq!(Json::parse(r#"["a",1]"#).unwrap().as_texts(), None);
    assert_eq!(Json::parse(r#""a""#).unwrap().as_texts(), None);
}

#[test]
fn quote_writes_a_json_string() {
    assert_eq!(quote("plain").as_deref(), Some("\"plain\""));
    assert_eq!(quote("").as_deref(), Some("\"\""));
    assert_eq!(quote("a\"b\\c").as_deref(), Some(r#""a\"b\\c""#));
    assert_eq!(quote("line\nbreak\t").as_deref(), Some(r#""line\nbreak\t""#));
    assert_eq!(quote("\u{1}").as_deref(), Some("\"\\u0001\""));
    assert_eq!(quote("é").as_deref(), Some("\"é\""));
    let written = quote("a\"b").unwrap();
    assert_eq!(Json::parse(&written).unwrap().as_str(), Some("a\"b"));
}

#[test]
fn uuid_forms() {
    let id = Uuid::parse_str("32d76d19-8a05-4db0-9fc2-e0b0648fe9d0").unwrap();
    assert_eq!(id.as_u128(), 0x32d76d19_8a05_4db0_9fc2_e0b0648fe9d0);
    assert_eq!(id.to_hyphenated(), "32d76d19-8a05-4db0-9fc2-e0b0648fe9d0");
    assert_eq!(Uuid::parse_str("32D76D198A054DB09FC2E0B0648FE9D0"), Some(id));
    assert_eq!(
        Uuid::parse_str("urn:uuid:32d76d19-8a05-4db0-9fc2-e0b0648fe9d0"),
        Some(id)
    );
    assert_eq!(Uuid::from_u128(0).to_hyphenated(), "00000000-0000-0000-0000-000000000000");
    assert_eq!(
        Uuid::from_u128(u128::MAX).to_hyphenated(),
        "ffffffff-ffff-ffff-ffff-ffffffffffff"
    );
    assert_eq!(
        Uuid::from_u128(0x0123456789abcdef_0123456789abcdef).to_hyphenated(),
        "01234567-89ab-cdef-0123-456789abcdef"
    );
    assert_eq!(Uuid::from_u128(5), Uuid { value: 5 });
    for text in [
        "",
        "32d76d19",
        "32d76d19-8a05-4db0-9fc2-e0b0648fe9d",
        "32d76d19-8a05-4db0-9fc2-e0b0648fe9d0a",
        "32d76d19-8a05-4db0-9fc2-e0b0648fe9dg",
        "32d76d198-a05-4db0-9fc2-e0b0648fe9d0",
        "{32d76d19-8a05-4db0-9fc2-e0b0648fe9d0}",
    ] {
        assert_eq!(Uuid::parse_str(text), None, "{:?}", text);
    }
}

#[test]
fn set_query_replaces_the_query() {
    assert_eq!(
        set_query("https://example.com/products", "page=2").unwrap(),
        "https://example.com/products?page=2"
    );
    assert_eq!(
        set_query("https://example.com/products?old=1#frag", "ids[0]=a&ids[1]=b c").unwrap(),
        "https://example.com/products?ids[0]=a&ids[1]=b%20c#frag"
    );
    assert_eq!(
        set_query("https://example.com/", "").unwrap(),
        "https://example.com/?"
    );
    assert!(set_query("not a url", "a=b").is_err());
    assert!(set_query("/relative", "a=b").is_err());
}

#[test]
fn text_helpers() {
    assert!(same_text("", ""));
    assert!(same_text("abc", "abc"));
    assert!(!same_text("abc", "abd"));
    assert!(!same_text("abc", "ab"));
    assert!(!same_text("é", "e"));
    assert!(same_text("日本語", "日本語"));
    assert_eq!(join_text("ab", "cd"), "abcd");
    assert_eq!(join_text("", ""), "");
    assert_eq!(join_text("é", "ß"), "éß");
}

#[test]
fn set_query_refuses_what_is_too_long() {
    let long = "a".repeat(mangadex::location::MAX_BYTES + 1);
    assert!(matches!(
        set_query("https://example.com/", &long),
        Err(url::ParseError::Overflow)
    ));
    assert!(matches!(
        set_query(&long, "a=b"),
        Err(url::ParseError::Overflow)
    ));
}
