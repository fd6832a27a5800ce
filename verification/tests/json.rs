use wick::codec::Model;
use wick::json::{Json, Member};

#[test]
fn parse_reads_an_object_with_an_integer() {
    let j = Json::parse(b"{\"a\": 5, \"b\": \"x\"}").unwrap();
    assert_eq!(j.get("a"), Some(&Json::Int(5)));
    assert_eq!(j.get("b"), Some(&Json::Str("x".to_string())));
    assert!(j.get("c").is_none());
}

#[test]
fn parse_keeps_the_order_of_members() {
    let j = Json::parse(b"{\"b\":1,\"a\":2}").unwrap();
    match &j {
        Json::Object(members) => {
            assert_eq!(members.len(), 2);
            assert_eq!(members[0].name, "b");
            assert_eq!(members[1].name, "a");
        }
        other => panic!("unexpected value: {:?}", other),
    }
    assert_eq!(j.to_text().unwrap(), "{\"b\":1,\"a\":2}");
}

#[test]
fn parse_rejects_text_that_is_not_json() {
    assert!(Json::parse(b"internal error").is_err());
    assert!(Json::parse(b"").is_err());
    assert!(Json::parse(b"{} {}").is_err());
    assert!(Json::parse(b"{\"a\":}").is_err());
    assert!(Json::parse(&[0x22, 0xff, 0x22]).is_err());
}

#[test]
fn parse_reads_every_kind_of_value() {
    assert_eq!(Json::parse(b"null").unwrap(), Json::Null);
    assert_eq!(Json::parse(b"true").unwrap(), Json::Bool(true));
    assert_eq!(Json::parse(b"-12").unwrap(), Json::Int(-12));
    assert_eq!(Json::parse(b"9223372036854775807").unwrap(), Json::Int(i64::MAX));
    assert_eq!(Json::parse(b"\"a\\u00e9\"").unwrap(), Json::Str("aé".to_string()));
    assert_eq!(
        Json::parse(b"[1,[2]]").unwrap(),
        Json::Array(vec![Json::Int(1), Json::Array(vec![Json::Int(2)])])
    );
    assert_eq!(
        Json::parse(b"{\"k\":{}}").unwrap(),
        Json::Object(vec![Member { name: "k".to_string(), value: Json::Object(vec![]) }])
    );
}

#[test]
fn numbers_that_are_no_i64_are_carried_along() {
    let cases = [
        ("1.5", "1.5"),
        ("18446744073709551615", "18446744073709551615"),
        ("-0.0", "-0.0"),
        ("1e300", "1e+300"),
    ];
    for (text, printed) in cases {
        let j = Json::parse(text.as_bytes()).unwrap();
        assert!(matches!(j, Json::Number(_)), "{}", text);
        assert_eq!(j.to_text().unwrap(), printed);
        assert_eq!(i64::from_json(&j), None);
    }
}

#[test]
fn to_text_prints_compact_json() {
    let j = Json::parse(b" { \"b\" : [1, true, null] } ").unwrap();
    assert_eq!(j.to_text().unwrap(), "{\"b\":[1,true,null]}");
    assert_eq!(Json::Str("a\"b\\".to_string()).to_text().unwrap(), "\"a\\\"b\\\\\"");
    assert_eq!(Json::Int(i64::MIN).to_text().unwrap(), "-9223372036854775808");
}

#[test]
fn get_returns_the_last_member_of_a_name() {
    let j = Json::Object(vec![
        Member { name: "a".to_string(), value: Json::Int(1) },
        Member { name: "b".to_string(), value: Json::Int(2) },
        Member { name: "a".to_string(), value: Json::Int(3) },
    ]);
    assert_eq!(j.get("a"), Some(&Json::Int(3)));
    assert_eq!(j.get("b"), Some(&Json::Int(2)));
    assert_eq!(j.get(""), None);
    assert_eq!(Json::Array(vec![]).get("a"), None);
    assert_eq!(Json::Null.get("a"), None);
}

#[test]
fn duplicate_and_clone_copy_the_whole_value() {
    let j = Json::parse(b"{\"a\":[1,2.5,{\"b\":null}],\"c\":\"d\"}").unwrap();
    assert_eq!(j.duplicate(), j);
    assert_eq!(j.clone(), j);
    assert_eq!(j.duplicate().to_text().unwrap(), "{\"a\":[1,2.5,{\"b\":null}],\"c\":\"d\"}");
}

#[test]
fn values_differ_where_their_contents_differ() {
    assert_ne!(Json::Int(1), Json::Int(2));
    assert_ne!(Json::Null, Json::Bool(false));
    assert_ne!(Json::parse(b"[1]").unwrap(), Json::parse(b"[1,1]").unwrap());
    assert_ne!(Json::parse(b"1.5").unwrap(), Json::parse(b"2.5").unwrap());
}

#[test]
fn same_compares_shape_and_contents() {
    let parse = |text: &str| Json::parse(text.as_bytes()).unwrap();
    assert!(parse("{\"a\":[1,2.5,\"x\",null,true]}").same(&parse("{ \"a\" : [1, 2.5, \"x\", null, true] }")));
    assert!(parse("0.0").same(&parse("-0.0")));
    assert!(!parse("1").same(&parse("1.0")));
    assert!(!parse("1.5").same(&parse("1.25")));
    assert!(!parse("[1,2]").same(&parse("[2,1]")));
    assert!(!parse("[1]").same(&parse("[1,1]")));
    assert!(!parse("{\"a\":1,\"b\":2}").same(&parse("{\"b\":2,\"a\":1}")));
    assert!(!parse("{\"a\":1}").same(&parse("{\"b\":1}")));
    assert!(!parse("{\"a\":1}").same(&parse("{\"a\":2}")));
    assert!(!parse("\"a\"").same(&parse("\"b\"")));
    assert!(!parse("true").same(&parse("false")));
    assert!(!parse("null").same(&parse("false")));
    assert!(!parse("[]").same(&parse("{}")));
    assert!(parse("[]").same(&parse("[]")));
    assert!(parse("{}").same(&parse("{}")));
}
