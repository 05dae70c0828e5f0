use auto_commit::commit::{Commit, Field, ParseError};
use auto_commit::json::{lookup, JsonValue, Member};

fn member(key: &str, value: JsonValue) -> Member {
    Member { key: key.to_string(), value }
}

#[test]
fn message_is_title_blank_line_description() {
    let commit = Commit {
        title: "Add hello print".to_string(),
        description: "Adds a print statement.".to_string(),
    };
    assert_eq!(commit.to_string(), "Add hello print\n\nAdds a print statement.");
}

#[test]
fn message_of_empty_fields_is_the_blank_line() {
    let commit = Commit { title: String::new(), description: String::new() };
    assert_eq!(commit.to_string(), "\n\n");
}

#[test]
fn message_keeps_line_breaks_of_the_description() {
    let commit = Commit { title: "修复".to_string(), description: "a\nb\n".to_string() };
    assert_eq!(commit.to_string(), "修复\n\na\nb\n");
}

#[test]
fn model_arguments_become_the_message() {
    let raw = "{\"title\":\"Add hello print\",\"description\":\"Adds a print statement.\"}";
    let commit = Commit::parse(raw).unwrap();
    assert_eq!(commit.title, "Add hello print");
    assert_eq!(commit.description, "Adds a print statement.");
    assert_eq!(commit.to_string(), "Add hello print\n\nAdds a print statement.");
}

#[test]
fn parse_reads_escapes_and_ignores_other_members() {
    let raw = " { \"extra\" : [1, {\"title\": 3}], \"description\" : \"line\\nnext \\u4f60\", \"title\" : \"t\\\"q\\\"\" } ";
    let commit = Commit::parse(raw).unwrap();
    assert_eq!(commit.title, "t\"q\"");
    assert_eq!(commit.description, "line\nnext 你");
}

#[test]
fn parse_is_not_the_identity_on_its_input() {
    let raw = "{\"title\":\"a\",\"description\":\"b\"}";
    let commit = Commit::parse(raw).unwrap();
    assert_ne!(commit.title, raw);
    assert_ne!(commit.description, raw);
    assert_eq!(commit, Commit { title: "a".to_string(), description: "b".to_string() });
}

#[test]
fn missing_title_is_rejected() {
    assert_eq!(
        Commit::parse("{\"description\":\"x\"}"),
        Err(ParseError::MissingField(Field::Title))
    );
    assert_eq!(Commit::parse("{}"), Err(ParseError::MissingField(Field::Title)));
}

#[test]
fn missing_description_is_rejected() {
    assert_eq!(
        Commit::parse("{\"title\":\"x\"}"),
        Err(ParseError::MissingField(Field::Description))
    );
}

#[test]
fn title_that_is_no_string_is_rejected() {
    assert_eq!(
        Commit::parse("{\"title\":7,\"description\":\"x\"}"),
        Err(ParseError::NotText(Field::Title))
    );
    assert_eq!(
        Commit::parse("{\"title\":null,\"description\":\"x\"}"),
        Err(ParseError::NotText(Field::Title))
    );
}

#[test]
fn description_that_is_no_string_is_rejected() {
    assert_eq!(
        Commit::parse("{\"title\":\"x\",\"description\":[\"y\"]}"),
        Err(ParseError::NotText(Field::Description))
    );
    assert_eq!(
        Commit::parse("{\"title\":\"x\",\"description\":{\"text\":\"y\"}}"),
        Err(ParseError::NotText(Field::Description))
    );
    assert_eq!(
        Commit::parse("{\"title\":\"x\",\"description\":true}"),
        Err(ParseError::NotText(Field::Description))
    );
}

#[test]
fn title_is_looked_at_first() {
    assert_eq!(
        Commit::parse("{\"description\":5}"),
        Err(ParseError::MissingField(Field::Title))
    );
    assert_eq!(
        Commit::parse("{\"description\":5,\"title\":6}"),
        Err(ParseError::NotText(Field::Title))
    );
}

#[test]
fn text_that_is_no_json_object_is_rejected() {
    for raw in [
        "",
        "   ",
        "not json",
        "{",
        "{\"title\":\"a\",\"description\":\"b\"",
        "{\"title\":\"a\",\"description\":\"b\"} trailing",
        "{\"title\":\"a\",}",
        "{'title':'a','description':'b'}",
        "[\"a\",\"b\"]",
        "\"title\"",
        "null",
        "42",
        "true",
    ] {
        assert_eq!(Commit::parse(raw), Err(ParseError::NotAnObject), "{:?}", raw);
    }
}

#[test]
fn response_without_function_call_is_rejected() {
    assert_eq!(Commit::from_response(None), Err(ParseError::MissingFunctionCall));
}

#[test]
fn response_with_function_call_is_parsed() {
    let raw = "{\"title\":\"a\",\"description\":\"b\"}";
    assert_eq!(
        Commit::from_response(Some(raw)),
        Ok(Commit { title: "a".to_string(), description: "b".to_string() })
    );
    assert_eq!(Commit::from_response(Some("oops")), Err(ParseError::NotAnObject));
}

#[test]
fn from_members_takes_both_texts() {
    let members = vec![
        member("description", JsonValue::Text("d".to_string())),
        member("other", JsonValue::Number),
        member("title", JsonValue::Text("t".to_string())),
    ];
    assert_eq!(
        Commit::from_members(&members),
        Ok(Commit { title: "t".to_string(), description: "d".to_string() })
    );
}

#[test]
fn from_members_reports_what_is_wrong() {
    assert_eq!(Commit::from_members(&vec![]), Err(ParseError::MissingField(Field::Title)));
    let no_description = vec![member("title", JsonValue::Text("t".to_string()))];
    assert_eq!(
        Commit::from_members(&no_description),
        Err(ParseError::MissingField(Field::Description))
    );
    let wrong_title = vec![
        member("title", JsonValue::Bool(true)),
        member("description", JsonValue::Text("d".to_string())),
    ];
    assert_eq!(Commit::from_members(&wrong_title), Err(ParseError::NotText(Field::Title)));
    let wrong_description = vec![
        member("title", JsonValue::Text("t".to_string())),
        member("description", JsonValue::Null),
    ];
    assert_eq!(
        Commit::from_members(&wrong_description),
        Err(ParseError::NotText(Field::Description))
    );
}

#[test]
fn lookup_finds_the_first_member_with_the_key() {
    let members = vec![
        member("a", JsonValue::Null),
        member("b", JsonValue::Text("first".to_string())),
        member("b", JsonValue::Text("second".to_string())),
    ];
    assert_eq!(lookup(&members, "b"), Some(&JsonValue::Text("first".to_string())));
    assert_eq!(lookup(&members, "a"), Some(&JsonValue::Null));
    assert_eq!(lookup(&members, "c"), None);
    assert_eq!(lookup(&vec![], "a"), None);
}

#[test]
fn field_names_are_the_keys_of_the_arguments() {
    assert_eq!(Field::Title.name(), "title");
    assert_eq!(Field::Description.name(), "description");
}
