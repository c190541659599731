use responses_proxy::converter::{chat_stream_options, convert_to_chat_completions, translate_finish_reason};
use responses_proxy::models::{
    ChatFunction, ChatMessage, ChatTool, FunctionDef, ResponseContent, ResponseInput, ResponseInputItem,
    ResponseRequest, ResponseTool, TextConfig, ToolChoice,
};
use serde_json::Value;

fn parse(text: &str) -> Value {
    serde_json::from_str(text).unwrap()
}

fn request() -> ResponseRequest {
    ResponseRequest {
        model: Some("m".to_string()),
        instructions: None,
        input: None,
        messages: None,
        tools: None,
        tool_choice: None,
        text: None,
        response_format: None,
        max_output_tokens: None,
        max_tokens: None,
        max_completion_tokens: None,
        temperature: None,
        top_p: None,
        frequency_penalty: None,
        presence_penalty: None,
        logprobs: None,
        top_logprobs: None,
        stream: None,
        stream_options: None,
        parallel_tool_calls: None,
        user: None,
        stop: None,
        seed: None,
        logit_bias: None,
        metadata: None,
        service_tier: None,
        store: None,
        n: None,
        modalities: None,
        prediction: None,
        reasoning_effort: None,
        verbosity: None,
        safety_identifier: None,
        prompt_cache_key: None,
        web_search_options: None,
        function_call: None,
        functions: None,
    }
}

fn said(role: &str, text: &str) -> ChatMessage {
    ChatMessage {
        role: role.to_string(),
        content: Some(Value::String(text.to_string())),
        tool_calls: None,
        tool_call_id: None,
    }
}

fn tool(type_: &str, name: &str) -> ResponseTool {
    ResponseTool {
        type_: type_.to_string(),
        function: FunctionDef {
            name: name.to_string(),
            description: Some("d".to_string()),
            parameters: Some(parse(r#"{"type":"object"}"#)),
        },
    }
}

fn text_of(message: &ChatMessage) -> &str {
    message.content.as_ref().unwrap().as_str().unwrap()
}

const NATIVE: &str = "\n\n---\n\nIMPORTANT: Tool Calling Format Override\nWhen calling functions/tools, you MUST use the standard OpenAI Chat Completions JSON format, NOT any XML or custom syntax. The system will automatically handle tool execution. Never output tool calls as text - use the native function calling mechanism.";
const XML: &str = "\n\n---\n\nIMPORTANT: Tool Calling Format Override\nTo call a function, you MUST use the following XML format:\n<function=function_name>\n<parameter=param_name>value</parameter>\n...\n</function>\n\nDo not use JSON tool calls. Use the XML format above.";
const FILES: &str = "\n\nFile Operation Best Practices:\n- Use relative paths (e.g. 'test.py', 'src/main.rs') for files in the workspace\n- Read each file ONCE before editing - do not re-read files you've already successfully read\n- After receiving file contents from read_file, proceed directly to editing without redundant reads\n- For apply_patch, include 3-5 lines of surrounding context for reliable matching\n- Never announce \"I will read the file\" after you've already read it - just use the content you received";

#[test]
fn each_finish_reason_has_its_status() {
    assert_eq!(translate_finish_reason(Some("stop")), "completed");
    assert_eq!(translate_finish_reason(Some("length")), "incomplete");
    assert_eq!(translate_finish_reason(Some("content_filter")), "failed");
    assert_eq!(translate_finish_reason(Some("tool_calls")), "completed");
    assert_eq!(translate_finish_reason(Some("something_new")), "completed");
    assert_eq!(translate_finish_reason(Some("")), "completed");
    assert_eq!(translate_finish_reason(None), "in_progress");
}

#[test]
fn a_request_needs_a_model() {
    let mut req = request();
    req.model = None;
    req.input = Some(ResponseInput::Array(vec![ResponseInputItem::Message {
        role: "tool".to_string(),
        content: ResponseContent::String("x".to_string()),
        tool_call_id: None,
        attachments: None,
    }]));
    assert_eq!(convert_to_chat_completions(&req, true).unwrap_err(), "Model is required");
    req.model = Some(String::new());
    assert_eq!(convert_to_chat_completions(&req, true).unwrap_err(), "tool_message_missing_tool_call_id");
}

#[test]
fn an_empty_request_has_no_messages() {
    let chat = convert_to_chat_completions(&request(), false).unwrap();
    assert_eq!(chat.model, "m");
    assert_eq!(chat.messages, vec![]);
    assert!(!chat.stream);
    assert_eq!(chat.stream_options, None);
    assert_eq!(chat.tools, None);
    let mut req = request();
    req.instructions = Some(String::new());
    assert_eq!(convert_to_chat_completions(&req, true).unwrap().messages, vec![]);
}

#[test]
fn messages_stand_in_their_order() {
    let mut req = request();
    req.instructions = Some("be kind".to_string());
    req.messages = Some(vec![Some(said("developer", "d")), None, Some(said("user", "u"))]);
    req.input = Some(ResponseInput::String("hello".to_string()));
    let chat = convert_to_chat_completions(&req, true).unwrap();
    assert_eq!(
        chat.messages,
        vec![said("system", "be kind"), said("system", "d"), said("user", "u"), said("user", "hello")]
    );
}

#[test]
fn passed_messages_keep_all_but_their_role() {
    let message = ChatMessage {
        role: "developer".to_string(),
        content: Some(parse(r#"[{"type":"text","text":"x"}, 1.5, null]"#)),
        tool_calls: Some(vec![parse(r#"{"id":"1"}"#), parse("2")]),
        tool_call_id: Some("  ".to_string()),
    };
    let mut req = request();
    req.messages = Some(vec![Some(message.clone())]);
    let mut expected = message;
    expected.role = "system".to_string();
    assert_eq!(convert_to_chat_completions(&req, true).unwrap().messages, vec![expected]);
}

#[test]
fn tools_come_with_guidance() {
    let mut req = request();
    req.instructions = Some("i".to_string());
    req.tools = Some(vec![tool("function", "f")]);
    let native = convert_to_chat_completions(&req, true).unwrap();
    assert_eq!(text_of(&native.messages[0]), format!("i{}{}", NATIVE, FILES));
    let xml = convert_to_chat_completions(&req, false).unwrap();
    assert_eq!(text_of(&xml.messages[0]), format!("i{}{}", XML, FILES));
    req.instructions = None;
    req.tools = Some(vec![]);
    let chat = convert_to_chat_completions(&req, true).unwrap();
    assert_eq!(chat.messages, vec![said("system", format!("{}{}", NATIVE, FILES).as_str())]);
    assert_eq!(chat.tools, None);
}

#[test]
fn how_tools_are_called_matters_with_tools_only() {
    let mut req = request();
    req.instructions = Some("i".to_string());
    assert_eq!(convert_to_chat_completions(&req, true), convert_to_chat_completions(&req, false));
}

#[test]
fn function_tools_are_kept() {
    let mut req = request();
    req.tools = Some(vec![tool("web_search", "w"), tool("function", "f"), tool("Function", "x"), tool("function", "g")]);
    let expected = |name: &str| ChatTool::Function {
        type_: "function".to_string(),
        function: ChatFunction {
            name: name.to_string(),
            description: Some("d".to_string()),
            parameters: Some(parse(r#"{"type":"object"}"#)),
        },
    };
    assert_eq!(convert_to_chat_completions(&req, true).unwrap().tools, Some(vec![expected("f"), expected("g")]));
    req.tools = Some(vec![tool("web_search", "w")]);
    assert_eq!(convert_to_chat_completions(&req, true).unwrap().tools, None);
}

#[test]
fn tool_choices_become_json() {
    let mut req = request();
    req.tool_choice = Some(ToolChoice::String("auto".to_string()));
    assert_eq!(convert_to_chat_completions(&req, true).unwrap().tool_choice, Some(parse(r#""auto""#)));
    req.tool_choice = Some(ToolChoice::Specific(parse(r#"{"type":"function","name":"f"}"#)));
    assert_eq!(
        convert_to_chat_completions(&req, true).unwrap().tool_choice,
        Some(parse(r#"{"name":"f","type":"function"}"#))
    );
}

#[test]
fn logprobs_go_together() {
    let convert = |logprobs: Option<bool>, top_logprobs: Option<u32>| {
        let mut req = request();
        req.logprobs = logprobs;
        req.top_logprobs = top_logprobs;
        let chat = convert_to_chat_completions(&req, true).unwrap();
        (chat.logprobs, chat.top_logprobs)
    };
    for logprobs in [None, Some(false), Some(true)] {
        assert_eq!(convert(logprobs, Some(0)), (None, None));
        assert_eq!(convert(logprobs, Some(3)), (Some(true), Some(3)));
    }
    assert_eq!(convert(Some(true), None), (Some(true), Some(5)));
    assert_eq!(convert(Some(false), None), (None, None));
    assert_eq!(convert(None, None), (None, None));
}

#[test]
fn the_format_of_the_text_comes_first() {
    let mut req = request();
    req.response_format = Some(parse("1"));
    assert_eq!(convert_to_chat_completions(&req, true).unwrap().response_format, Some(parse("1")));
    req.text = Some(TextConfig { format: None });
    assert_eq!(convert_to_chat_completions(&req, true).unwrap().response_format, Some(parse("1")));
    req.text = Some(TextConfig { format: Some(parse("2")) });
    assert_eq!(convert_to_chat_completions(&req, true).unwrap().response_format, Some(parse("2")));
}

#[test]
fn max_output_tokens_come_first() {
    let mut req = request();
    req.max_tokens = Some(7);
    assert_eq!(convert_to_chat_completions(&req, true).unwrap().max_tokens, Some(7));
    req.max_output_tokens = Some(9);
    assert_eq!(convert_to_chat_completions(&req, true).unwrap().max_tokens, Some(9));
}

#[test]
fn a_stream_tells_its_usage() {
    let usage = Some(parse(r#"{"include_usage":true}"#));
    assert_eq!(chat_stream_options(None, true), usage);
    assert_eq!(chat_stream_options(Some(parse("null")), true), usage);
    assert_eq!(chat_stream_options(Some(parse("[1]")), true), usage);
    assert_eq!(
        chat_stream_options(Some(parse(r#"{"include_usage":false,"x":{"y":1}}"#)), true),
        Some(parse(r#"{"include_usage":true,"x":{"y":1}}"#))
    );
    assert_eq!(chat_stream_options(None, false), None);
    let options = parse(r#"{"include_usage":false}"#);
    assert_eq!(chat_stream_options(Some(options.clone()), false), Some(options));
}

#[test]
fn a_request_that_streams_tells_its_usage() {
    let mut req = request();
    req.stream = Some(true);
    let chat = convert_to_chat_completions(&req, true).unwrap();
    assert!(chat.stream);
    assert_eq!(chat.stream_options, Some(parse(r#"{"include_usage":true}"#)));
    req.stream = Some(false);
    req.stream_options = Some(parse(r#"{"a":1}"#));
    let chat = convert_to_chat_completions(&req, true).unwrap();
    assert!(!chat.stream);
    assert_eq!(chat.stream_options, Some(parse(r#"{"a":1}"#)));
}

#[test]
fn other_settings_are_handed_on() {
    let text = |s: &str| Some(s.to_string());
    let mut req = request();
    req.temperature = Some(parse("0.5"));
    req.top_p = Some(parse("0.25"));
    req.frequency_penalty = Some(parse("-1.5"));
    req.presence_penalty = Some(parse("2"));
    req.parallel_tool_calls = Some(false);
    req.user = text("u");
    req.stop = Some(parse(r#"["a","b"]"#));
    req.seed = Some(-4);
    req.logit_bias = Some(parse(r#"{"50256":-100}"#));
    req.metadata = Some(parse(r#"{"k":"v"}"#));
    req.service_tier = text("flex");
    req.store = Some(true);
    req.n = Some(2);
    req.max_completion_tokens = Some(11);
    req.modalities = Some(vec!["text".to_string(), "audio".to_string()]);
    req.prediction = Some(parse("{}"));
    req.reasoning_effort = text("low");
    req.verbosity = text("high");
    req.safety_identifier = text("s");
    req.prompt_cache_key = text("p");
    req.web_search_options = Some(parse("[]"));
    req.function_call = Some(parse(r#""none""#));
    req.functions = Some(vec![parse(r#"{"name":"f"}"#), parse("null")]);
    let chat = convert_to_chat_completions(&req, true).unwrap();
    assert_eq!(chat.temperature, req.temperature);
    assert_eq!(chat.top_p, req.top_p);
    assert_eq!(chat.frequency_penalty, req.frequency_penalty);
    assert_eq!(chat.presence_penalty, req.presence_penalty);
    assert_eq!(chat.parallel_tool_calls, Some(false));
    assert_eq!(chat.user, req.user);
    assert_eq!(chat.stop, req.stop);
    assert_eq!(chat.seed, Some(-4));
    assert_eq!(chat.logit_bias, req.logit_bias);
    assert_eq!(chat.metadata, req.metadata);
    assert_eq!(chat.service_tier, req.service_tier);
    assert_eq!(chat.store, Some(true));
    assert_eq!(chat.n, Some(2));
    assert_eq!(chat.max_completion_tokens, Some(11));
    assert_eq!(chat.modalities, req.modalities);
    assert_eq!(chat.prediction, req.prediction);
    assert_eq!(chat.reasoning_effort, req.reasoning_effort);
    assert_eq!(chat.verbosity, req.verbosity);
    assert_eq!(chat.safety_identifier, req.safety_identifier);
    assert_eq!(chat.prompt_cache_key, req.prompt_cache_key);
    assert_eq!(chat.web_search_options, req.web_search_options);
    assert_eq!(chat.function_call, req.function_call);
    assert_eq!(chat.functions, req.functions);
}
