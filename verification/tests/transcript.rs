use responses_proxy::models::{Attachment, ChatMessage, ContentPart, ImageUrl, ResponseContent, ResponseInputItem};
use responses_proxy::transcript::{
    convert_input_items, flush_pending_tool_calls, normalize_chat_message_role, normalize_chat_role, output_text,
    tool_call, unwrap_output,
};
use serde_json::Value;

fn parse(text: &str) -> Value {
    serde_json::from_str(text).unwrap()
}

fn string(text: &str) -> Option<Value> {
    Some(Value::String(text.to_string()))
}

fn message(role: &str, text: &str) -> ResponseInputItem {
    message_with(role, ResponseContent::String(text.to_string()))
}

fn message_with(role: &str, content: ResponseContent) -> ResponseInputItem {
    ResponseInputItem::Message { role: role.to_string(), content, tool_call_id: None, attachments: None }
}

fn tool_result(call_id: Option<&str>, content: ResponseContent) -> ResponseInputItem {
    ResponseInputItem::Message {
        role: "tool".to_string(),
        content,
        tool_call_id: call_id.map(|id| id.to_string()),
        attachments: None,
    }
}

fn attached(role: &str, files: &[&str]) -> ResponseInputItem {
    ResponseInputItem::Message {
        role: role.to_string(),
        content: ResponseContent::String("see".to_string()),
        tool_call_id: None,
        attachments: Some(files.iter().map(|f| Attachment { file_id: f.to_string() }).collect()),
    }
}

fn call(call_id: &str, name: &str, arguments: &str) -> ResponseInputItem {
    ResponseInputItem::FunctionCall {
        call_id: call_id.to_string(),
        name: name.to_string(),
        arguments: arguments.to_string(),
    }
}

fn output(call_id: &str, output: &str) -> ResponseInputItem {
    ResponseInputItem::FunctionCallOutput { call_id: call_id.to_string(), output: output.to_string() }
}

fn reasoning(text: &str) -> ResponseInputItem {
    ResponseInputItem::Reasoning { text: Some(text.to_string()), encrypted_content: None }
}

fn said(role: &str, text: &str) -> ChatMessage {
    ChatMessage { role: role.to_string(), content: string(text), tool_calls: None, tool_call_id: None }
}

fn answer(id: &str, text: &str) -> ChatMessage {
    ChatMessage {
        role: "tool".to_string(),
        content: string(text),
        tool_calls: None,
        tool_call_id: Some(id.to_string()),
    }
}

fn calling(calls: Vec<Value>) -> ChatMessage {
    ChatMessage { role: "assistant".to_string(), content: None, tool_calls: Some(calls), tool_call_id: None }
}

fn called(id: &str, name: &str, arguments: &str) -> Value {
    tool_call(id.to_string(), name.to_string(), arguments.to_string())
}

#[test]
fn developers_become_system() {
    assert_eq!(normalize_chat_role("developer"), "system");
    for role in ["system", "user", "assistant", "tool", "Developer", "", "developer "] {
        assert_eq!(normalize_chat_role(role), role);
    }
    let mut told = answer("id", "t");
    told.role = "developer".to_string();
    let mut expected = answer("id", "t");
    expected.role = "system".to_string();
    assert_eq!(normalize_chat_message_role(told), expected);
}

#[test]
fn no_message_is_a_developers() {
    let items = vec![message("developer", "a"), message("user", "b"), call("1", "f", ""), message("developer", "c")];
    let messages = convert_input_items(&items).unwrap();
    assert_eq!(
        messages,
        vec![said("system", "a"), said("user", "b"), said("system", "c"), calling(vec![called("1", "f", "")])]
    );
}

#[test]
fn a_tool_call_has_its_form() {
    assert_eq!(
        called("id", "f", "{\"x\":1}"),
        parse(r#"{"id":"id","type":"function","function":{"name":"f","arguments":"{\"x\":1}"}}"#)
    );
}

#[test]
fn flushing_nothing_adds_nothing() {
    let mut messages = vec![said("user", "a")];
    let mut calls = vec![];
    flush_pending_tool_calls(&mut messages, &mut calls);
    assert_eq!(messages, vec![said("user", "a")]);
    calls.push(called("1", "f", ""));
    flush_pending_tool_calls(&mut messages, &mut calls);
    assert_eq!(messages, vec![said("user", "a"), calling(vec![called("1", "f", "")])]);
    assert!(calls.is_empty());
}

#[test]
fn calls_come_before_their_outputs() {
    let items = vec![
        message("user", "go"),
        call("1", "f", "a"),
        call("2", "g", "b"),
        output("1", "one"),
        output("2", "two"),
        call("3", "h", "c"),
        tool_result(Some("3"), ResponseContent::String("three".to_string())),
    ];
    assert_eq!(
        convert_input_items(&items).unwrap(),
        vec![
            said("user", "go"),
            calling(vec![called("1", "f", "a"), called("2", "g", "b")]),
            answer("1", "one"),
            answer("2", "two"),
            calling(vec![called("3", "h", "c")]),
            answer("3", "three"),
        ]
    );
}

#[test]
fn the_assistant_takes_up_calls_that_wait() {
    let items = vec![call("1", "f", "a"), message("user", "wait"), message("assistant", "calling"), output("1", "x")];
    let mut assistant = said("assistant", "calling");
    assistant.tool_calls = Some(vec![called("1", "f", "a")]);
    assert_eq!(convert_input_items(&items).unwrap(), vec![said("user", "wait"), assistant, answer("1", "x")]);
}

#[test]
fn every_call_is_told_once() {
    let items = vec![
        call("1", "f", ""),
        message("assistant", "x"),
        call("2", "g", ""),
        output("1", "o"),
        call("3", "h", ""),
        message("user", "y"),
    ];
    let told: Vec<Value> =
        convert_input_items(&items).unwrap().into_iter().flat_map(|m| m.tool_calls.unwrap_or_default()).collect();
    assert_eq!(told, vec![called("1", "f", ""), called("2", "g", ""), called("3", "h", "")]);
}

#[test]
fn blank_ids_find_each_other() {
    let items = vec![
        call("", "f", ""),
        call("own", "g", ""),
        call(" ", "h", ""),
        output("", "first"),
        output("own", "second"),
        tool_result(Some("\t"), ResponseContent::String("third".to_string())),
        output("", "nobody asked"),
    ];
    assert_eq!(
        convert_input_items(&items).unwrap(),
        vec![
            calling(vec![called("call_proxy_0", "f", ""), called("own", "g", ""), called("call_proxy_1", "h", "")]),
            answer("call_proxy_0", "first"),
            answer("own", "second"),
            answer("call_proxy_1", "third"),
            answer("call_proxy_2", "nobody asked"),
        ]
    );
}

#[test]
fn outputs_are_unwrapped() {
    assert_eq!(unwrap_output(r#"{"output":"inner","metadata":{"exit_code":0}}"#), "inner");
    assert_eq!(unwrap_output(r#" { "output" : "a\nb" } "#), "a\nb");
    for raw in ["plain", "", "{", r#"{"output":1}"#, r#"{"result":"x"}"#, r#"["output"]"#, r#""output""#, r#"{"output":null}"#] {
        assert_eq!(unwrap_output(raw), raw);
    }
}

#[test]
fn an_output_that_was_read_gives_its_inner_text() {
    assert_eq!(output_text("raw", Some(&parse(r#"{"output":"inner"}"#))), "inner");
    assert_eq!(output_text("raw", Some(&parse(r#"{"output":["inner"]}"#))), "raw");
    assert_eq!(output_text("raw", Some(&parse("[]"))), "raw");
    assert_eq!(output_text("raw", None), "raw");
}

#[test]
fn outputs_of_items_are_unwrapped() {
    let items = vec![output("1", r#"{"output":"done","metadata":{}}"#), output("2", "done")];
    assert_eq!(convert_input_items(&items).unwrap(), vec![answer("1", "done"), answer("2", "done")]);
}

#[test]
fn reasoning_goes_before_the_assistant() {
    let content = ResponseContent::Array(vec![
        ContentPart::Reasoning { text: "c".to_string() },
        ContentPart::OutputText { text: "said".to_string() },
    ]);
    let items = vec![
        reasoning("a"),
        message("user", "u"),
        reasoning("b"),
        message_with("assistant", content),
        message("assistant", "again"),
    ];
    assert_eq!(
        convert_input_items(&items).unwrap(),
        vec![
            said("user", "u"),
            said("assistant", "<think>a\nb\nc</think>\nsaid"),
            said("assistant", "again"),
        ]
    );
}

#[test]
fn reasoning_in_a_users_message_waits_for_the_assistant() {
    let content = ResponseContent::Array(vec![
        ContentPart::InputText { text: "q".to_string() },
        ContentPart::Reasoning { text: "hm".to_string() },
    ]);
    let items = vec![message_with("user", content), message("assistant", "a")];
    assert_eq!(
        convert_input_items(&items).unwrap(),
        vec![said("user", "q"), said("assistant", "<think>hm</think>\na")]
    );
}

#[test]
fn reasoning_takes_the_place_of_a_list() {
    let content = ResponseContent::Array(vec![
        ContentPart::OutputText { text: "t".to_string() },
        ContentPart::InputImage { image_url: ImageUrl { url: "u".to_string() } },
    ]);
    let items = vec![reasoning("r"), message_with("assistant", content)];
    assert_eq!(convert_input_items(&items).unwrap(), vec![said("assistant", "<think>r</think>\n")]);
}

#[test]
fn reasoning_that_nobody_takes_up_is_left_out() {
    let items = vec![reasoning("a"), message("user", "u"), reasoning("b"), call("1", "f", "")];
    let without = vec![message("user", "u"), call("1", "f", "")];
    assert_eq!(convert_input_items(&items).unwrap(), convert_input_items(&without).unwrap());
}

#[test]
fn encrypted_reasoning_and_references_are_skipped() {
    let items = vec![
        ResponseInputItem::Reasoning { text: None, encrypted_content: Some("x".to_string()) },
        ResponseInputItem::ItemReference { id: "i".to_string() },
        message("assistant", "a"),
    ];
    assert_eq!(convert_input_items(&items).unwrap(), vec![said("assistant", "a")]);
}

#[test]
fn nothing_becomes_nothing() {
    assert_eq!(convert_input_items(&vec![]).unwrap(), vec![]);
}

#[test]
fn attachments_are_refused() {
    for role in ["user", "tool", "assistant"] {
        assert_eq!(convert_input_items(&vec![attached(role, &["f"])]).unwrap_err(), "attachments_not_supported");
    }
    assert_eq!(convert_input_items(&vec![attached("user", &[])]).unwrap(), vec![said("user", "see")]);
}

#[test]
fn tool_messages_need_an_id() {
    let items = vec![tool_result(None, ResponseContent::Array(vec![]))];
    assert_eq!(convert_input_items(&items).unwrap_err(), "tool_message_missing_tool_call_id");
    let items = vec![tool_result(Some("1"), ResponseContent::Array(vec![]))];
    assert_eq!(convert_input_items(&items).unwrap_err(), "tool_output_empty");
    let content = ResponseContent::Array(vec![ContentPart::Reasoning { text: "r".to_string() }]);
    let items = vec![tool_result(Some("1"), content)];
    assert_eq!(convert_input_items(&items).unwrap_err(), "tool_output_content_not_supported");
}

#[test]
fn the_first_error_counts() {
    let empty_file = ContentPart::InputFile { file_id: None, filename: None, file_url: None, file_data: None };
    let items = vec![
        message("user", "fine"),
        message_with("user", ResponseContent::Array(vec![empty_file])),
        attached("user", &["f"]),
    ];
    assert_eq!(convert_input_items(&items).unwrap_err(), "input_file_content_not_supported");
}

#[test]
fn reasoning_after_the_last_assistant_is_left_out() {
    let items = vec![
        reasoning("told"),
        message("assistant", "a"),
        reasoning("b"),
        message("user", "u"),
        reasoning("c"),
        call("1", "f", ""),
    ];
    let without = vec![reasoning("told"), message("assistant", "a"), message("user", "u"), call("1", "f", "")];
    let messages = convert_input_items(&items).unwrap();
    assert_eq!(messages, convert_input_items(&without).unwrap());
    assert_eq!(messages[0], said("assistant", "<think>told</think>\na"));
}

#[test]
fn each_assistant_message_tells_the_reasoning_since_the_last() {
    let with_own = |text: &str, own: &str| {
        ResponseContent::Array(vec![
            ContentPart::OutputText { text: text.to_string() },
            ContentPart::Reasoning { text: own.to_string() },
        ])
    };
    let items = vec![
        reasoning("a"),
        message("assistant", "1"),
        message_with("user", with_own("u", "b")),
        output("x", "out"),
        reasoning("c"),
        message_with("assistant", with_own("2", "d")),
        message("assistant", "3"),
    ];
    assert_eq!(
        convert_input_items(&items).unwrap(),
        vec![
            said("assistant", "<think>a</think>\n1"),
            said("user", "u"),
            answer("x", "out"),
            said("assistant", "<think>b\nc\nd</think>\n2"),
            said("assistant", "3"),
        ]
    );
}

#[test]
fn skipped_items_change_nothing() {
    let skips = || {
        vec![
            ResponseInputItem::ItemReference { id: "i".to_string() },
            ResponseInputItem::Reasoning { text: None, encrypted_content: None },
        ]
    };
    let items = || vec![reasoning("r"), call("", "f", ""), message("assistant", "a"), output("", "o")];
    let expected = convert_input_items(&items()).unwrap();
    for place in 0..=4usize {
        let mut more = items();
        for skip in skips() {
            more.insert(place, skip);
        }
        assert_eq!(convert_input_items(&more).unwrap(), expected);
    }
}

#[test]
fn only_the_assistant_calls_tools() {
    let items = vec![
        message("assistant", "no calls"),
        call("1", "f", ""),
        message("user", "u"),
        message("developer", "d"),
        output("1", "o"),
        call("2", "g", ""),
    ];
    for message in convert_input_items(&items).unwrap() {
        if let Some(calls) = message.tool_calls {
            assert_eq!(message.role, "assistant");
            assert!(!calls.is_empty());
        }
    }
}
