use docker_relay::json::{duplicate_members, find, get, parse, to_text, JsonValue};

fn member(name: &str, value: JsonValue) -> (String, JsonValue) {
    (name.to_string(), value)
}

#[test]
fn text_is_read_as_a_tree() {
    assert_eq!(
        parse(" {\"a\": [1, -2, 2.5, true, null, \"x\"], \"b\": {}} "),
        Some(JsonValue::Object(vec![
            member(
                "a",
                JsonValue::Array(vec![
                    JsonValue::Int(1),
                    JsonValue::Int(-2),
                    JsonValue::Number("2.5".to_string()),
                    JsonValue::Bool(true),
                    JsonValue::Null,
                    JsonValue::Text("x".to_string()),
                ]),
            ),
            member("b", JsonValue::Object(vec![])),
        ]))
    );
}

#[test]
fn members_keep_the_order_of_the_text() {
    assert_eq!(
        parse("{\"z\":1,\"a\":2,\"m\":3}"),
        Some(JsonValue::Object(vec![
            member("z", JsonValue::Int(1)),
            member("a", JsonValue::Int(2)),
            member("m", JsonValue::Int(3)),
        ]))
    );
}

#[test]
fn text_that_is_not_json_is_not_read() {
    assert_eq!(parse(""), None);
    assert_eq!(parse("{"), None);
    assert_eq!(parse("{\"a\":}"), None);
    assert_eq!(parse("[1,]"), None);
    assert_eq!(parse("1 2"), None);
    assert_eq!(parse("01"), None);
    assert_eq!(parse("'a'"), None);
}

#[test]
fn integers_at_the_ends_of_the_range_are_whole_numbers() {
    assert_eq!(parse("9223372036854775807"), Some(JsonValue::Int(i64::MAX)));
    assert_eq!(parse("-9223372036854775808"), Some(JsonValue::Int(i64::MIN)));
    assert_eq!(
        parse("9223372036854775808"),
        Some(JsonValue::Number("9223372036854775808".to_string()))
    );
}

#[test]
fn a_tree_is_written_as_compact_text() {
    let tree = JsonValue::Object(vec![
        member("name", JsonValue::Text("a \"b\"\n".to_string())),
        member("n", JsonValue::Int(-7)),
        member("x", JsonValue::Number("1e-3".to_string())),
        member("list", JsonValue::Array(vec![JsonValue::Bool(false), JsonValue::Null])),
    ]);
    assert_eq!(
        to_text(&tree),
        Some("{\"name\":\"a \\\"b\\\"\\n\",\"n\":-7,\"x\":0.001,\"list\":[false,null]}".to_string())
    );
}

#[test]
fn a_tree_with_a_bad_number_is_not_written() {
    for literal in ["", "abc", "1,5", "--1", "1e", "0x10", " 1", "1 ", "NaN", "1e999"] {
        let tree = JsonValue::Array(vec![
            JsonValue::Int(1),
            JsonValue::Object(vec![member("n", JsonValue::Number(literal.to_string()))]),
        ]);
        assert_eq!(to_text(&tree), None, "{:?}", literal);
        assert!(!tree.is_well_formed());
    }
}

#[test]
fn a_tree_with_good_numbers_is_well_formed() {
    for literal in ["0", "-0", "1.5", "1e3", "-2.5E-7", "18446744073709551615"] {
        let tree = JsonValue::Array(vec![JsonValue::Number(literal.to_string())]);
        assert!(tree.is_well_formed(), "{:?}", literal);
    }
    assert!(JsonValue::Null.is_well_formed());
    assert!(JsonValue::Text("not a number".to_string()).is_well_formed());
}

#[test]
fn what_is_written_is_read_back() {
    let tree = JsonValue::Object(vec![
        member("a", JsonValue::Array(vec![JsonValue::Int(1), JsonValue::Number("0.5".to_string())])),
        member("b", JsonValue::Object(vec![member("c", JsonValue::Text("é😀".to_string()))])),
    ]);
    let text = to_text(&tree).unwrap();
    assert_eq!(parse(&text), Some(tree));
}

#[test]
fn a_copy_is_equal_to_its_tree() {
    let tree = JsonValue::Object(vec![
        member("a", JsonValue::Array(vec![JsonValue::Int(1), JsonValue::Null])),
        member("b", JsonValue::Object(vec![member("c", JsonValue::Text("x".to_string()))])),
        member("n", JsonValue::Number("nonsense".to_string())),
    ]);
    assert_eq!(tree.duplicate(), tree);
    let members = vec![member("k", JsonValue::Bool(true)), member("k", JsonValue::Bool(false))];
    assert_eq!(duplicate_members(&members), members);
}

#[test]
fn members_are_found_by_name() {
    let members = vec![
        member("a", JsonValue::Int(1)),
        member("b", JsonValue::Int(2)),
        member("a", JsonValue::Int(3)),
        member("", JsonValue::Int(4)),
    ];
    assert_eq!(find(&members, "a"), Some(0));
    assert_eq!(find(&members, "b"), Some(1));
    assert_eq!(find(&members, ""), Some(3));
    assert_eq!(find(&members, "A"), None);
    assert_eq!(find(&members, "ab"), None);
    assert_eq!(get(&members, "a"), Some(&JsonValue::Int(1)));
    assert_eq!(get(&members, "c"), None);
    assert_eq!(find(&vec![], "a"), None);
}
