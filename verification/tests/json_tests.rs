use cdp_html_shot::json::{
    array_elements, field_at, member, nested_at, object_members, render_field, render_object,
    text_at, unsigned_at, Field,
};

fn text(s: &str) -> Field {
    Field::Text(s.to_string())
}

#[test]
fn renders_a_flat_object() {
    let members = vec![
        ("id".to_string(), Field::Unsigned(7)),
        ("method".to_string(), text("Page.enable")),
        ("params".to_string(), Field::Nested("{}".to_string())),
    ];
    assert_eq!(render_object(&members), r#"{"id":7,"method":"Page.enable","params":{}}"#);
}

#[test]
fn renders_the_empty_object() {
    assert_eq!(render_object(&Vec::new()), "{}");
}

#[test]
fn renders_an_object_of_one_member() {
    let members = vec![("url".to_string(), text("about:blank"))];
    assert_eq!(render_object(&members), r#"{"url":"about:blank"}"#);
}

#[test]
fn renders_every_kind_of_field() {
    assert_eq!(render_field(&Field::Null), "null");
    assert_eq!(render_field(&Field::Bool(true)), "true");
    assert_eq!(render_field(&Field::Bool(false)), "false");
    assert_eq!(render_field(&Field::Unsigned(0)), "0");
    assert_eq!(render_field(&Field::Unsigned(u64::MAX)), "18446744073709551615");
    assert_eq!(render_field(&Field::Number("-1.5e3".to_string())), "-1.5e3");
    assert_eq!(render_field(&text("plain")), "\"plain\"");
    assert_eq!(render_field(&Field::Nested("[1,2]".to_string())), "[1,2]");
}

#[test]
fn quotes_strings_with_their_escapes() {
    assert_eq!(render_field(&text("a\"b")), r#""a\"b""#);
    assert_eq!(render_field(&text("back\\slash")), r#""back\\slash""#);
    assert_eq!(render_field(&text("line\nbreak\ttab")), r#""line\nbreak\ttab""#);
    assert_eq!(render_field(&text("\u{1}")), r#""\u0001""#);
    assert_eq!(render_field(&text("")), "\"\"");
    assert_eq!(render_field(&text("<h1 id=\"x\">hi</h1>")), r#""<h1 id=\"x\">hi</h1>""#);
    assert_eq!(render_field(&text("h\u{e9}llo \u{4e16}")), "\"h\u{e9}llo \u{4e16}\"");
}

#[test]
fn quoted_keys_are_escaped_too() {
    let members = vec![("a\"b".to_string(), Field::Null)];
    assert_eq!(render_object(&members), r#"{"a\"b":null}"#);
}

#[test]
fn decodes_the_members_of_an_object() {
    let members = object_members(
        r#"{"id":1,"result":{"a":[1,2]},"s":"x","n":-1.5,"b":true,"z":null}"#,
    )
    .unwrap();
    assert_eq!(
        members,
        vec![
            ("b".to_string(), Field::Bool(true)),
            ("id".to_string(), Field::Number("1".to_string())),
            ("n".to_string(), Field::Number("-1.5".to_string())),
            ("result".to_string(), Field::Nested(r#"{"a":[1,2]}"#.to_string())),
            ("s".to_string(), text("x")),
            ("z".to_string(), Field::Null),
        ]
    );
}

#[test]
fn decodes_the_elements_of_an_array() {
    let elements = array_elements(r#"[1, "a", {"k": 1}, [2], false, null, 0.5]"#).unwrap();
    assert_eq!(
        elements,
        vec![
            Field::Number("1".to_string()),
            text("a"),
            Field::Nested(r#"{"k":1}"#.to_string()),
            Field::Nested("[2]".to_string()),
            Field::Bool(false),
            Field::Null,
            Field::Number("0.5".to_string()),
        ]
    );
}

#[test]
fn decodes_nothing_from_what_is_no_document() {
    assert_eq!(object_members("not json"), None);
    assert_eq!(object_members(""), None);
    assert_eq!(object_members("{\"a\":"), None);
    assert_eq!(array_elements("[1,"), None);
}

#[test]
fn an_object_is_no_array_and_an_array_no_object() {
    assert_eq!(object_members("[1,2]"), None);
    assert_eq!(array_elements("{\"a\":1}"), None);
}

#[test]
fn a_scalar_document_has_no_members() {
    assert_eq!(object_members("5"), None);
    assert_eq!(array_elements("\"text\""), None);
    assert_eq!(object_members("null"), None);
}

#[test]
fn integers_beyond_64_bits_are_numbers() {
    let elements = array_elements("[18446744073709551615, 18446744073709551616, -5, 1.0]").unwrap();
    assert_eq!(elements[0], Field::Number("18446744073709551615".to_string()));
    assert_eq!(elements[0].as_unsigned(), Some(u64::MAX));
    assert!(matches!(&elements[1], Field::Number(_)));
    assert_eq!(elements[1].as_unsigned(), None);
    assert_eq!(elements[2], Field::Number("-5".to_string()));
    assert_eq!(elements[2].as_unsigned(), None);
    assert_eq!(elements[3], Field::Number("1.0".to_string()));
    assert_eq!(elements[3].as_unsigned(), None);
}

#[test]
fn member_finds_the_first_of_a_name() {
    let members = vec![
        ("a".to_string(), Field::Unsigned(1)),
        ("b".to_string(), Field::Unsigned(2)),
        ("a".to_string(), Field::Unsigned(3)),
    ];
    assert_eq!(member(&members, "a"), Some(Field::Unsigned(1)));
    assert_eq!(member(&members, "b"), Some(Field::Unsigned(2)));
    assert_eq!(member(&members, "c"), None);
    assert_eq!(member(&Vec::new(), "a"), None);
}

#[test]
fn reads_members_by_name_and_kind() {
    let doc = r#"{"id":12,"name":"tab","inner":{"x":1},"list":[1],"neg":-1}"#;
    assert_eq!(field_at(doc, "id"), Some(Field::Number("12".to_string())));
    assert_eq!(unsigned_at(doc, "id"), Some(12));
    assert_eq!(unsigned_at(doc, "name"), None);
    assert_eq!(unsigned_at(doc, "neg"), None);
    assert_eq!(unsigned_at(doc, "missing"), None);
    assert_eq!(text_at(doc, "name"), Some("tab".to_string()));
    assert_eq!(text_at(doc, "id"), None);
    assert_eq!(nested_at(doc, "inner"), Some(r#"{"x":1}"#.to_string()));
    assert_eq!(nested_at(doc, "list"), Some("[1]".to_string()));
    assert_eq!(nested_at(doc, "name"), None);
    assert_eq!(field_at("nonsense", "id"), None);
}

#[test]
fn field_accessors_tell_the_kinds_apart() {
    assert_eq!(Field::Unsigned(3).as_unsigned(), Some(3));
    assert_eq!(Field::Number("3".to_string()).as_unsigned(), Some(3));
    assert_eq!(Field::Number("3.0".to_string()).as_unsigned(), None);
    assert_eq!(Field::Number("03".to_string()).as_unsigned(), None);
    assert_eq!(text("3").as_unsigned(), None);
    assert_eq!(text("3").as_text(), Some("3".to_string()));
    assert_eq!(Field::Nested("{}".to_string()).as_text(), None);
    assert_eq!(Field::Nested("{}".to_string()).as_nested(), Some("{}".to_string()));
    assert_eq!(Field::Null.as_nested(), None);
}

#[test]
fn what_is_rendered_decodes_to_itself() {
    let members = vec![
        ("a".to_string(), Field::Number("1".to_string())),
        ("b".to_string(), text("two \"quoted\"")),
        ("c".to_string(), Field::Nested(r#"{"d":[true,null]}"#.to_string())),
        ("e".to_string(), Field::Number("2.5".to_string())),
    ];
    assert_eq!(object_members(&render_object(&members)), Some(members));
}

#[test]
fn a_clone_of_a_field_equals_it() {
    let fields = vec![Field::Null, Field::Unsigned(4), text("x"), Field::Nested("[]".to_string())];
    for f in &fields {
        assert_eq!(&f.clone(), f);
    }
}

#[test]
fn an_integer_written_here_reads_back_the_same() {
    for n in [0u64, 1, 9, 10, 4096, u64::MAX - 1, u64::MAX] {
        let written = render_object(&vec![("id".to_string(), Field::Unsigned(n))]);
        assert_eq!(unsigned_at(&written, "id"), Some(n));
        assert_eq!(field_at(&written, "id").unwrap().as_unsigned(), Field::Unsigned(n).as_unsigned());
    }
}
