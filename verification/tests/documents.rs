use expense_bot::json::{Document, Field};
use expense_bot::llm::{envelope_content, LLMContent, LLMError};

fn text(s: &str) -> Field {
    Field::Text(s.to_string())
}

fn number(s: &str) -> Field {
    Field::Number(s.to_string())
}

#[test]
fn members_read_as_fields() {
    let doc = Document::parse(
        r#"{"a":null,"b":"x","c":5,"d":1.5,"e":true,"f":[1],"g":{"h":"i"},"":"empty key"}"#,
    )
    .unwrap();
    assert!(doc.is_object());
    assert_eq!(doc.field("a"), Field::Null);
    assert_eq!(doc.field("b"), text("x"));
    assert_eq!(doc.field("c"), number("5.0"));
    assert_eq!(doc.field("d"), number("1.5"));
    assert_eq!(doc.field("e"), Field::Other);
    assert_eq!(doc.field("f"), Field::Other);
    assert_eq!(doc.field("g"), Field::Other);
    assert_eq!(doc.field(""), text("empty key"));
    assert_eq!(doc.field("z"), Field::Absent);
    assert_eq!(doc.field("A"), Field::Absent);
}

#[test]
fn string_members_keep_their_text() {
    let doc = Document::parse(r#"{"s":"line\nbreak \"q\" é \\"}"#).unwrap();
    assert_eq!(doc.field("s"), text("line\nbreak \"q\" é \\"));
}

#[test]
fn numbers_read_as_the_float_they_are() {
    let doc = Document::parse(
        r#"{"i":-7,"z":0,"big":18446744073709551615,"f":0.1,"e":1e-7,"h":2.50}"#,
    )
    .unwrap();
    assert_eq!(doc.field("i"), number("-7.0"));
    assert_eq!(doc.field("z"), number("0.0"));
    assert_eq!(doc.field("big"), number("1.8446744073709552e19"));
    assert_eq!(doc.field("f"), number("0.1"));
    assert_eq!(doc.field("e"), number("1e-7"));
    assert_eq!(doc.field("h"), number("2.5"));
}

#[test]
fn nested_members_are_found_through_objects_only() {
    let doc = Document::parse(r#"{"m":{"c":"x","n":null},"s":"text","l":[{"c":"y"}]}"#).unwrap();
    assert_eq!(doc.nested_field("m", "c"), text("x"));
    assert_eq!(doc.nested_field("m", "n"), Field::Null);
    assert_eq!(doc.nested_field("m", "z"), Field::Absent);
    assert_eq!(doc.nested_field("s", "c"), Field::Absent);
    assert_eq!(doc.nested_field("l", "c"), Field::Absent);
    assert_eq!(doc.nested_field("z", "c"), Field::Absent);
}

#[test]
fn values_that_are_no_objects_have_no_members() {
    for raw in ["null", "true", "5", "\"a\"", "[\"a\"]"] {
        let doc = Document::parse(raw).unwrap();
        assert!(!doc.is_object());
        assert_eq!(doc.field("a"), Field::Absent);
        assert_eq!(doc.field("0"), Field::Absent);
        assert_eq!(doc.nested_field("a", "b"), Field::Absent);
    }
    assert!(Document::parse("{}").unwrap().is_object());
}

#[test]
fn parse_fails_with_the_parser_message() {
    assert_eq!(
        Document::parse("").err(),
        Some("EOF while parsing a value at line 1 column 0".to_string())
    );
    assert_eq!(
        Document::parse("{\"a\":}").err(),
        Some("expected value at line 1 column 6".to_string())
    );
    assert_eq!(
        Document::parse("{} {}").err(),
        Some("trailing characters at line 1 column 4".to_string())
    );
    assert!(Document::parse(" \n {\"a\": 1} \n").is_ok());
}

#[test]
fn later_member_wins_among_equal_keys() {
    let doc = Document::parse(r#"{"a":"first","a":"second"}"#).unwrap();
    assert_eq!(doc.field("a"), text("second"));
}

#[test]
fn envelope_content_is_picked_from_message_then_response() {
    let pick = |raw: &str| envelope_content(&Document::parse(raw).unwrap());
    assert_eq!(pick(r#"{"message":{"content":"a"}}"#), Some("a".to_string()));
    assert_eq!(pick(r#"{"response":"b"}"#), Some("b".to_string()));
    assert_eq!(pick(r#"{"message":{"content":"a"},"response":"b"}"#), Some("a".to_string()));
    assert_eq!(pick(r#"{"message":{"content":null},"response":"b"}"#), Some("b".to_string()));
    assert_eq!(pick(r#"{"message":{"role":"assistant"},"response":"b"}"#), Some("b".to_string()));
    assert_eq!(pick(r#"{"message":{"content":""}}"#), Some(String::new()));
    assert_eq!(pick(r#"{"message":{"content":1},"response":2}"#), None);
    assert_eq!(pick(r#"{"content":"a"}"#), None);
    assert_eq!(pick(r#""a""#), None);
}

#[test]
fn record_is_made_from_a_parsed_document() {
    let raw = r#"{"type":"income","amount":100,"person":null}"#;
    let doc = Document::parse(raw).unwrap();
    let c = LLMContent::from_document(&doc, raw).unwrap();
    assert_eq!(c.type_ctx, Some("income".to_string()));
    assert_eq!(c.amount, Some("100.0".to_string()));
    assert_eq!(c.person, None);
    assert_eq!(c.category, None);

    let doc = Document::parse("[1]").unwrap();
    assert_eq!(
        LLMContent::from_document(&doc, "[1]"),
        Err(LLMError::SchemaDecode {
            error: "expected a JSON object".to_string(),
            content: "[1]".to_string(),
        })
    );
}
