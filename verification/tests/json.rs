use stock_monitor::json::{strings, Fields, Json, Num};

#[test]
fn text_is_parsed() {
    let j = Json::parse(" {\"a\": [1, -2, 2.5, true, null, \"股\"], \"b\": {}} ").unwrap();
    assert_eq!(
        j,
        Json::Obj(vec![
            (
                "a".to_string(),
                Json::Arr(vec![
                    Json::Num(Num::Unsigned(1)),
                    Json::Num(Num::Negative(-2)),
                    Json::Num(Num::Decimal("2.5".to_string())),
                    Json::Bool(true),
                    Json::Null,
                    Json::Str("股".to_string()),
                ])
            ),
            ("b".to_string(), Json::Obj(vec![])),
        ])
    );
}

#[test]
fn what_is_not_json_is_refused() {
    assert_eq!(Json::parse(""), None);
    assert_eq!(Json::parse("{"), None);
    assert_eq!(Json::parse("{} x"), None);
    assert_eq!(Json::parse("nul"), None);
}

#[test]
fn values_of_serde_json_are_taken_over() {
    let v: serde_json::Value = serde_json::from_str("{\"k\": [{\"n\": 7}]}").unwrap();
    let j = Json::from_value(v);
    let inner = &j.array_at("k").unwrap()[0];
    assert_eq!(inner.u64_at("n"), Some(7));
}

#[test]
fn fields_are_looked_up() {
    let j = Json::parse("{\"s\":\"x\",\"n\":5,\"a\":[1],\"z\":null}").unwrap();
    assert_eq!(j.str_at("s"), Some("x"));
    assert_eq!(j.str_at("n"), None);
    assert_eq!(j.str_at("missing"), None);
    assert_eq!(j.u64_at("n"), Some(5));
    assert_eq!(j.array_at("a").unwrap().len(), 1);
    assert_eq!(j.array_at("s"), None);
    assert_eq!(j.get("z"), Some(&Json::Null));
    assert_eq!(Json::Null.get("s"), None);
    assert_eq!(Json::Arr(vec![]).get("s"), None);
}

#[test]
fn integers_within_their_range() {
    let j = Json::parse("[18446744073709551615, 9223372036854775807, -9223372036854775808, 1.0, \"5\"]").unwrap();
    let a = j.as_array().unwrap();
    assert_eq!(a[0].as_u64(), Some(u64::MAX));
    assert_eq!(a[0].as_i64(), None);
    assert_eq!(a[1].as_i64(), Some(i64::MAX));
    assert_eq!(a[2].as_i64(), Some(i64::MIN));
    assert_eq!(a[2].as_u64(), None);
    assert_eq!(a[3].as_i64(), None);
    assert_eq!(a[3].as_u64(), None);
    assert_eq!(a[4].as_u64(), None);
}

#[test]
fn numbers_are_handed_on_as_text() {
    let j = Json::parse("{\"a\":12,\"b\":-3,\"c\":1.25,\"d\":\"7\",\"e\":-9223372036854775808}").unwrap();
    assert_eq!(j.number_at("a"), "12");
    assert_eq!(j.number_at("b"), "-3");
    assert_eq!(j.number_at("c"), "1.25");
    assert_eq!(j.number_at("d"), "0");
    assert_eq!(j.number_at("e"), "-9223372036854775808");
    assert_eq!(j.number_at("f"), "0");
}

#[test]
fn objects_are_put_together_in_order() {
    let j = Fields::new().with_str("a", "x").with("b", Json::Bool(true)).object();
    assert_eq!(
        j,
        Json::Obj(vec![
            ("a".to_string(), Json::Str("x".to_string())),
            ("b".to_string(), Json::Bool(true)),
        ])
    );
    assert_eq!(
        strings(&vec!["p".to_string(), "q".to_string()]),
        Json::Arr(vec![Json::Str("p".to_string()), Json::Str("q".to_string())])
    );
}
