use responses_proxy::content::{
    convert_response_content, extract_tool_message_body, image_part, render_inline_file_part, text_part,
};
use responses_proxy::models::{ContentPart, ImageUrl, ResponseContent};
use serde_json::Value;

fn parse(text: &str) -> Value {
    serde_json::from_str(text).unwrap()
}

fn string(text: &str) -> Value {
    Value::String(text.to_string())
}

fn input_text(text: &str) -> ContentPart {
    ContentPart::InputText { text: text.to_string() }
}

fn output_text(text: &str) -> ContentPart {
    ContentPart::OutputText { text: text.to_string() }
}

fn tool_output(body: &str) -> ContentPart {
    ContentPart::ToolOutput { body: body.to_string() }
}

fn image(url: &str) -> ContentPart {
    ContentPart::InputImage { image_url: ImageUrl { url: url.to_string() } }
}

fn reasoning(text: &str) -> ContentPart {
    ContentPart::Reasoning { text: text.to_string() }
}

fn file(file_id: Option<&str>, filename: Option<&str>, file_url: Option<&str>, file_data: Option<&str>) -> ContentPart {
    ContentPart::InputFile {
        file_id: file_id.map(|s| s.to_string()),
        filename: filename.map(|s| s.to_string()),
        file_url: file_url.map(|s| s.to_string()),
        file_data: file_data.map(|s| s.to_string()),
    }
}

#[test]
fn inline_file_data_is_preserved_as_text() {
    let content = ResponseContent::Array(vec![ContentPart::InputFile {
        file_id: None,
        filename: Some("notes.txt".to_string()),
        file_url: None,
        file_data: Some("hello world".to_string()),
    }]);

    let (converted, reasoning) = convert_response_content(&content).unwrap();
    assert!(reasoning.is_none());
    assert_eq!(converted, Value::String("[input_file:notes.txt]\nhello world".to_string()));
}

#[test]
fn file_id_only_is_still_rejected() {
    let content = ResponseContent::Array(vec![ContentPart::InputFile {
        file_id: Some("file_123".to_string()),
        filename: None,
        file_url: None,
        file_data: None,
    }]);

    let err = convert_response_content(&content).unwrap_err();
    assert_eq!(err, "input_file_content_not_supported");
}

#[test]
fn plain_text_content_stays_text() {
    let (converted, reasoning) = convert_response_content(&ResponseContent::String("hi".to_string())).unwrap();
    assert_eq!(converted, string("hi"));
    assert_eq!(reasoning, None);
}

#[test]
fn text_parts_are_joined_line_by_line() {
    let content = ResponseContent::Array(vec![input_text("a"), input_text(""), output_text("b"), tool_output("c")]);
    let (converted, reasoning) = convert_response_content(&content).unwrap();
    assert_eq!(converted, string("a\n\nb\nc"));
    assert_eq!(reasoning, None);
    let content = ResponseContent::Array(vec![input_text(""), input_text("a")]);
    assert_eq!(convert_response_content(&content).unwrap().0, string("\na"));
}

#[test]
fn an_image_keeps_the_parts_a_list() {
    let content = ResponseContent::Array(vec![
        input_text("look"),
        image("http://x/y.png"),
        file(None, None, Some("http://x/f"), None),
    ]);
    let (converted, _) = convert_response_content(&content).unwrap();
    assert_eq!(
        converted,
        parse(
            r#"[{"type":"text","text":"look"},
                {"type":"image_url","image_url":{"url":"http://x/y.png"}},
                {"type":"text","text":"[input_file:input_file]\nhttp://x/f"}]"#
        )
    );
}

#[test]
fn content_without_shown_parts_is_an_empty_list() {
    assert_eq!(convert_response_content(&ResponseContent::Array(vec![])).unwrap(), (parse("[]"), None));
    let content = ResponseContent::Array(vec![reasoning("hm"), reasoning("so")]);
    assert_eq!(convert_response_content(&content).unwrap(), (parse("[]"), Some("hm\nso".to_string())));
}

#[test]
fn reasoning_is_taken_out_of_the_content() {
    let content = ResponseContent::Array(vec![reasoning(""), reasoning("first"), input_text("say"), reasoning("then")]);
    let (converted, taken) = convert_response_content(&content).unwrap();
    assert_eq!(converted, string("say"));
    assert_eq!(taken, Some("first\nthen".to_string()));
    let content = ResponseContent::Array(vec![reasoning(""), input_text("say")]);
    assert_eq!(convert_response_content(&content).unwrap().1, None);
}

#[test]
fn a_file_is_shown_by_its_data_before_its_place() {
    let both = file(Some("id"), Some("name"), Some("url"), Some("data"));
    assert_eq!(render_inline_file_part(&both).unwrap(), "[input_file:name]\ndata");
    let blank_data = file(Some("id"), None, Some("url"), Some(" \t\n"));
    assert_eq!(render_inline_file_part(&blank_data).unwrap(), "[input_file:id]\nurl");
    let padded = file(None, None, None, Some("  x  "));
    assert_eq!(render_inline_file_part(&padded).unwrap(), "[input_file:input_file]\n  x  ");
}

#[test]
fn a_file_with_nothing_to_show_and_other_parts_are_not_rendered() {
    for part in [file(Some("id"), Some("n"), Some("  "), Some("")), input_text("t"), image("u"), reasoning("r")] {
        assert_eq!(render_inline_file_part(&part).unwrap_err(), "input_file_content_not_supported");
    }
}

#[test]
fn an_empty_file_rejects_the_whole_content() {
    let content = ResponseContent::Array(vec![input_text("a"), file(None, Some("n"), None, Some("\u{a0}")), image("u")]);
    assert_eq!(convert_response_content(&content).unwrap_err(), "input_file_content_not_supported");
}

#[test]
fn tool_bodies_are_read_as_text() {
    assert_eq!(extract_tool_message_body(&ResponseContent::String(String::new())).unwrap(), "");
    let content = ResponseContent::Array(vec![input_text(""), output_text("a"), tool_output(""), input_text("b")]);
    assert_eq!(extract_tool_message_body(&content).unwrap(), "a\n\nb");
}

#[test]
fn tool_bodies_that_say_nothing_are_rejected() {
    assert_eq!(extract_tool_message_body(&ResponseContent::Array(vec![])).unwrap_err(), "tool_output_empty");
    let content = ResponseContent::Array(vec![input_text(""), tool_output("")]);
    assert_eq!(extract_tool_message_body(&content).unwrap_err(), "tool_output_empty");
}

#[test]
fn tool_bodies_hold_texts_only() {
    for part in [image("u"), reasoning("r"), file(None, None, None, Some("d"))] {
        let content = ResponseContent::Array(vec![input_text("a"), part]);
        assert_eq!(extract_tool_message_body(&content).unwrap_err(), "tool_output_content_not_supported");
    }
}

#[test]
fn parts_have_the_form_of_chat_messages() {
    assert_eq!(text_part("t".to_string()), parse(r#"{"type":"text","text":"t"}"#));
    assert_eq!(image_part("u".to_string()), parse(r#"{"type":"image_url","image_url":{"url":"u"}}"#));
}

#[test]
fn reasoning_parts_are_not_shown() {
    let with = ResponseContent::Array(vec![reasoning("r"), input_text("a"), image("u"), reasoning("s"), input_text("b")]);
    let without = ResponseContent::Array(vec![input_text("a"), image("u"), input_text("b")]);
    assert_eq!(convert_response_content(&with).unwrap().0, convert_response_content(&without).unwrap().0);
}

#[test]
fn tool_bodies_read_as_contents_do() {
    let content = ResponseContent::Array(vec![input_text("a"), tool_output(""), output_text("b")]);
    let body = extract_tool_message_body(&content).unwrap();
    assert_eq!(convert_response_content(&content).unwrap().0, string(body.as_str()));
    let content = ResponseContent::Array(vec![input_text(""), output_text("b")]);
    assert_eq!(extract_tool_message_body(&content).unwrap(), "b");
    assert_eq!(convert_response_content(&content).unwrap().0, string("\nb"));
}
