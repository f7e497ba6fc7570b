use lapce_acp::json::Json;

#[test]
fn text_is_read_into_plain_data() {
    let j = Json::from_text(
        r#" {"a": [1, -2, 2.5, true, null], "b": "x\ny", "a2": 18446744073709551615} "#,
    )
    .unwrap();
    let Some(Json::Array(items)) = j.get("a") else {
        panic!("expected a list")
    };
    assert_eq!(items[0].as_u64(), Some(1));
    assert_eq!(items[0].as_i64(), Some(1));
    assert_eq!(items[1].as_i64(), Some(-2));
    assert_eq!(items[1].as_u64(), None);
    assert_eq!(items[2].as_i64(), None);
    assert_eq!(items[3], Json::Bool(true));
    assert!(items[4].is_null());
    assert_eq!(j.get("b").unwrap().as_str(), Some("x\ny"));
    assert_eq!(j.get("a2").unwrap().as_u64(), Some(u64::MAX));
    assert_eq!(j.get("a2").unwrap().as_i64(), None);
    assert!(j.get("c").is_none());
    assert!(Json::Null.get("a").is_none());
}

#[test]
fn text_that_is_no_value_is_refused() {
    for text in ["", "{", "nope", "{} {}", "[1,]"] {
        assert!(Json::from_text(text).is_none(), "{text}");
    }
}

#[test]
fn a_message_is_one_line() {
    let j = Json::object()
        .with("text", Json::text("two\nlines\r\n\u{2028}"))
        .with("n", Json::signed(-7));
    let line = j.into_line();
    assert_eq!(line.matches('\n').count(), 1);
    assert!(line.ends_with('\n'));
    assert_eq!(line, "{\"n\":-7,\"text\":\"two\\nlines\\r\\n\u{2028}\"}\n");
    let back = Json::from_text(&line).unwrap();
    assert_eq!(back.get("text").unwrap().as_str(), Some("two\nlines\r\n\u{2028}"));
}

#[test]
fn a_later_member_replaces_an_earlier_one() {
    let j = Json::object()
        .with("k", Json::unsigned(1))
        .with("k", Json::unsigned(2));
    assert_eq!(j.get("k").unwrap().as_u64(), Some(2));
    assert_eq!(j.clone().into_line(), "{\"k\":2}\n");
    assert_eq!(j.into_value()["k"], 2);
}

#[test]
fn plain_data_goes_to_and_from_values() {
    let value: serde_json::Value =
        serde_json::from_str(r#"{"x":[{"y":null},1.5,"z"],"w":false}"#).unwrap();
    let j = Json::from_value(value.clone());
    assert_eq!(j.clone().into_value(), value);
    assert_eq!(j.into_value(), value);
}

#[test]
fn a_value_that_is_no_object_becomes_one() {
    let j = Json::text("x").with("k", Json::Null);
    assert_eq!(j.into_line(), "{\"k\":null}\n");
}

#[test]
fn deep_values_are_read_back_up_to_a_depth() {
    let nested = |levels: usize| {
        let mut j = Json::Null;
        for _ in 0..levels {
            j = Json::Array(vec![j]);
        }
        j
    };
    let line = nested(127).into_line();
    assert_eq!(Json::from_text(&line), Some(nested(127)));
    assert!(Json::from_text(&nested(128).into_line()).is_none());
}
