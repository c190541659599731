//! Requests to the Responses API as requests to the Chat Completions API.
use vstd::prelude::*;

use crate::json::{bool_value, json, json_of, jsons, jsons_of, object_value, text_value, JsonView};
use crate::models::{
    chat_messages, chat_tools, text_of, texts_of, tools_of, ChatCompletionRequest, ChatCompletionRequestView, ChatFunction,
    ChatFunctionView, ChatMessage, ChatMessageView, ChatTool, ChatToolView, ResponseInput, ResponseRequest,
    ResponseTool, ToolChoice,
};
use crate::text::{same_text, texts};
use crate::transcript::{
    convert_input_items, items_error, items_messages, normalize_chat_message_role, plain_message, with_chat_role,
};

verus! {

/// How what a model is told about calling tools starts.
pub const TOOL_OVERRIDE_HEADING: &'static str = "\n\n---\n\nIMPORTANT: Tool Calling Format Override\n";

/// What a model is told that calls tools by the means of the API.
pub const NATIVE_TOOL_OVERRIDE: &'static str = "\
When calling functions/tools, you MUST use the standard OpenAI Chat Completions JSON format, NOT any XML or custom syntax. \
The system will automatically handle tool execution. Never output tool calls as text - use the native function calling mechanism.";

/// What a model is told that calls tools in its text.
pub const XML_TOOL_OVERRIDE: &'static str = "\
To call a function, you MUST use the following XML format:\n\
<function=function_name>\n\
<parameter=param_name>value</parameter>\n\
...\n\
</function>\n\
\n\
Do not use JSON tool calls. Use the XML format above.";

/// What a model is told about files, whenever there are tools.
pub const FILE_OPS_GUIDANCE: &'static str = "\n\nFile Operation Best Practices:\n\
- Use relative paths (e.g. 'test.py', 'src/main.rs') for files in the workspace\n\
- Read each file ONCE before editing - do not re-read files you've already successfully read\n\
- After receiving file contents from read_file, proceed directly to editing without redundant reads\n\
- For apply_patch, include 3-5 lines of surrounding context for reliable matching\n\
- Never announce \"I will read the file\" after you've already read it - just use the content you received";

/// How many alternatives are asked for where probabilities are wanted and no number is given.
pub const DEFAULT_TOP_LOGPROBS: u32 = 5;

/// What a model is told about the tools of a request.
pub open spec fn tool_guidance(supports_native_tools: bool) -> Seq<char> {
    if supports_native_tools {
        TOOL_OVERRIDE_HEADING@ + NATIVE_TOOL_OVERRIDE@ + FILE_OPS_GUIDANCE@
    } else {
        TOOL_OVERRIDE_HEADING@ + XML_TOOL_OVERRIDE@ + FILE_OPS_GUIDANCE@
    }
}

/// The instructions of a request, and, where it speaks of tools at all, what is to be said of them.
pub open spec fn system_instructions(req: ResponseRequest, supports_native_tools: bool) -> Seq<char> {
    let instructions = match req.instructions {
        Some(instructions) => instructions@,
        None => Seq::empty(),
    };
    if req.tools is Some {
        instructions + tool_guidance(supports_native_tools)
    } else {
        instructions
    }
}

/// The message with the instructions, if there are any.
pub open spec fn system_messages(req: ResponseRequest, supports_native_tools: bool) -> Seq<ChatMessageView> {
    let instructions = system_instructions(req, supports_native_tools);
    if instructions.len() == 0 {
        Seq::empty()
    } else {
        seq![plain_message("system"@, JsonView::Text(instructions))]
    }
}

/// The messages that a request brings along, as far as they could be read.
pub open spec fn passed_messages(messages: Seq<Option<ChatMessage>>) -> Seq<ChatMessageView> {
    messages.filter_map(
        |message: Option<ChatMessage>|
            match message {
                Some(message) => Some(with_chat_role(message@)),
                None => None,
            },
    )
}

/// The messages that a request brings along, if it does.
pub open spec fn passthrough_messages(req: ResponseRequest) -> Seq<ChatMessageView> {
    match req.messages {
        Some(messages) => passed_messages(messages@),
        None => Seq::empty(),
    }
}

/// The messages that the input of a request becomes.
pub open spec fn input_messages(req: ResponseRequest) -> Seq<ChatMessageView> {
    match req.input {
        Some(ResponseInput::String(text)) => seq![plain_message("user"@, JsonView::Text(text@))],
        Some(ResponseInput::Array(items)) => items_messages(items@),
        None => Seq::empty(),
    }
}

/// The messages of a request: the instructions, the messages that it brings along, and its input.
pub open spec fn request_messages(req: ResponseRequest, supports_native_tools: bool) -> Seq<ChatMessageView> {
    system_messages(req, supports_native_tools) + passthrough_messages(req) + input_messages(req)
}

/// Why the input of a request cannot be converted, if it cannot.
pub open spec fn input_error(req: ResponseRequest) -> Option<Seq<char>> {
    match req.input {
        Some(ResponseInput::Array(items)) => items_error(items@),
        _ => None,
    }
}

/// Why a request cannot be converted, if it cannot.
pub open spec fn request_error(req: ResponseRequest) -> Option<Seq<char>> {
    if req.model is None {
        Some("Model is required"@)
    } else {
        input_error(req)
    }
}

/// The form that the answer is to have.
pub open spec fn response_format_json(req: ResponseRequest) -> Option<JsonView> {
    if req.text is Some && req.text->0.format is Some {
        Some(json(req.text->0.format->0))
    } else {
        json_of(req.response_format)
    }
}

/// Whether probabilities are asked for, and of how many alternatives. A number of alternatives asks
/// for them too, unless it is zero: then none are asked for.
pub open spec fn logprob_settings(logprobs: Option<bool>, top_logprobs: Option<u32>) -> (Option<bool>, Option<u32>) {
    if top_logprobs == Some(0u32) {
        (None, None)
    } else if top_logprobs is Some {
        (Some(true), top_logprobs)
    } else if logprobs == Some(true) {
        (Some(true), Some(DEFAULT_TOP_LOGPROBS))
    } else {
        (None, None)
    }
}

/// A function tool as a tool of a chat; `None` of any other tool.
pub open spec fn chat_tool(tool: ResponseTool) -> Option<ChatToolView> {
    if tool.type_@ == "function"@ {
        Some(
            ChatToolView::Function {
                type_: "function"@,
                function: ChatFunctionView {
                    name: tool.function.name@,
                    description: text_of(tool.function.description),
                    parameters: json_of(tool.function.parameters),
                },
            },
        )
    } else {
        None
    }
}

/// The function tools among tools, in their order.
pub open spec fn function_tools(tools: Seq<ResponseTool>) -> Seq<ChatToolView> {
    tools.filter_map(|tool: ResponseTool| chat_tool(tool))
}

/// The tools of a chat; none at all where there is no function tool.
pub open spec fn request_tools(req: ResponseRequest) -> Option<Seq<ChatToolView>> {
    if req.tools is Some && function_tools(req.tools->0@).len() > 0 {
        Some(function_tools(req.tools->0@))
    } else {
        None
    }
}

/// Which tool is to be called, as JSON.
pub open spec fn tool_choice_json(choice: Option<ToolChoice>) -> Option<JsonView> {
    match choice {
        Some(ToolChoice::String(word)) => Some(JsonView::Text(word@)),
        Some(ToolChoice::Specific(value)) => Some(json(value)),
        None => None,
    }
}

/// The options of a stream. A stream always tells what was used, next to the other options; what is
/// no object has no other options.
pub open spec fn stream_options_json(options: Option<JsonView>, stream: bool) -> Option<JsonView> {
    if !stream {
        options
    } else {
        match options {
            Some(JsonView::Object(members)) => Some(
                JsonView::Object(members.insert("include_usage"@, JsonView::Bool(true))),
            ),
            _ => Some(JsonView::Object(map!["include_usage"@ => JsonView::Bool(true)])),
        }
    }
}

/// Whether the answer is to be streamed: only where a request says so.
pub open spec fn streams(req: ResponseRequest) -> bool {
    req.stream == Some(true)
}

/// The request to the Chat Completions API that a request becomes, if it can be converted.
pub open spec fn chat_request(req: ResponseRequest, supports_native_tools: bool) -> ChatCompletionRequestView {
    ChatCompletionRequestView {
        model: req.model->0@,
        messages: request_messages(req, supports_native_tools),
        max_tokens: if req.max_output_tokens is Some {
            req.max_output_tokens
        } else {
            req.max_tokens
        },
        temperature: json_of(req.temperature),
        top_p: json_of(req.top_p),
        response_format: response_format_json(req),
        tools: request_tools(req),
        tool_choice: tool_choice_json(req.tool_choice),
        parallel_tool_calls: req.parallel_tool_calls,
        user: text_of(req.user),
        logprobs: logprob_settings(req.logprobs, req.top_logprobs).0,
        top_logprobs: logprob_settings(req.logprobs, req.top_logprobs).1,
        stream: streams(req),
        stop: json_of(req.stop),
        frequency_penalty: json_of(req.frequency_penalty),
        presence_penalty: json_of(req.presence_penalty),
        seed: req.seed,
        logit_bias: json_of(req.logit_bias),
        metadata: json_of(req.metadata),
        service_tier: text_of(req.service_tier),
        store: req.store,
        n: req.n,
        stream_options: stream_options_json(json_of(req.stream_options), streams(req)),
        max_completion_tokens: req.max_completion_tokens,
        modalities: texts_of(req.modalities),
        prediction: json_of(req.prediction),
        reasoning_effort: text_of(req.reasoning_effort),
        verbosity: text_of(req.verbosity),
        safety_identifier: text_of(req.safety_identifier),
        prompt_cache_key: text_of(req.prompt_cache_key),
        web_search_options: json_of(req.web_search_options),
        function_call: json_of(req.function_call),
        functions: jsons_of(req.functions),
    }
}

/// Writes the instructions of a request.
fn instruct(req: &ResponseRequest, supports_native_tools: bool) -> (instructions: String)
    ensures
        instructions@ == system_instructions(*req, supports_native_tools),
        req.tools is None && req.instructions is Some ==> instructions@ == req.instructions->0@,
        req.tools is None && req.instructions is None ==> instructions@.len() == 0,
{
    let mut instructions = match &req.instructions {
        Some(instructions) => instructions.clone(),
        None => String::new(),
    };
    if req.tools.is_some() {
        instructions.append(TOOL_OVERRIDE_HEADING);
        if supports_native_tools {
            instructions.append(NATIVE_TOOL_OVERRIDE);
        } else {
            instructions.append(XML_TOOL_OVERRIDE);
        }
        instructions.append(FILE_OPS_GUIDANCE);
    }
    proof {
        assert(instructions@ =~= system_instructions(*req, supports_native_tools));
    }
    instructions
}

/// Takes over the messages that a request brings along, as far as they could be read.
fn pass_messages(messages: &Vec<Option<ChatMessage>>) -> (passed: Vec<ChatMessage>)
    ensures
        chat_messages(passed@) == passed_messages(messages@),
{
    let mut passed: Vec<ChatMessage> = Vec::new();
    let mut i: usize = 0;
    while i < messages.len()
        invariant
            i <= messages.len(),
            chat_messages(passed@) == passed_messages(messages@.take(i as int)),
        decreases messages.len() - i,
    {
        let ghost before = chat_messages(passed@);
        proof {
            lemma_take_message(messages@, i as int);
        }
        if let Some(message) = &messages[i] {
            passed.push(normalize_chat_message_role(message.clone()));
            proof {
                assert(chat_messages(passed@) =~= before.push(with_chat_role(message@)));
            }
        }
        i = i + 1;
    }
    proof {
        assert(messages@.take(messages@.len() as int) =~= messages@);
    }
    passed
}

proof fn lemma_take_message(messages: Seq<Option<ChatMessage>>, i: int)
    requires
        0 <= i < messages.len(),
    ensures
        passed_messages(messages.take(i + 1)) == (match messages[i] {
            Some(message) => passed_messages(messages.take(i)).push(with_chat_role(message@)),
            None => passed_messages(messages.take(i)),
        }),
{
    messages.lemma_filter_map_take_succ(
        |message: Option<ChatMessage>|
            match message {
                Some(message) => Some(with_chat_role(message@)),
                None => None,
            },
        i,
    );
}

/// Makes a message that says something and calls no tool.
fn say(role: &str, text: String) -> (message: ChatMessage)
    ensures
        message@ == plain_message(role@, JsonView::Text(text@)),
{
    ChatMessage { role: role.to_string(), content: Some(text_value(text)), tool_calls: None, tool_call_id: None }
}

/// Takes over the function tools among tools.
fn pick_function_tools(tools: &Vec<ResponseTool>) -> (picked: Vec<ChatTool>)
    ensures
        chat_tools(picked@) == function_tools(tools@),
{
    let mut picked: Vec<ChatTool> = Vec::new();
    let mut i: usize = 0;
    while i < tools.len()
        invariant
            i <= tools.len(),
            chat_tools(picked@) == function_tools(tools@.take(i as int)),
        decreases tools.len() - i,
    {
        let ghost before = chat_tools(picked@);
        proof {
            tools@.lemma_filter_map_take_succ(|tool: ResponseTool| chat_tool(tool), i as int);
        }
        if same_text(tools[i].type_(), "function") {
            let function = tools[i].function_def();
            let tool = ChatTool::Function {
                type_: "function".to_string(),
                function: ChatFunction {
                    name: function.name.clone(),
                    description: function.description.clone(),
                    parameters: function.parameters.clone(),
                },
            };
            picked.push(tool);
            proof {
                assert(chat_tool(tools@[i as int]) == Some(tool@));
                assert(chat_tools(picked@) =~= before.push(tool@));
            }
        }
        i = i + 1;
    }
    proof {
        assert(tools@.take(tools@.len() as int) =~= tools@);
    }
    picked
}

/// The options of a stream, of those that a request gave.
pub fn chat_stream_options(stream_options: Option<serde_json::Value>, stream: bool) -> (options: Option<serde_json::Value>)
    ensures
        json_of(options) == stream_options_json(json_of(stream_options), stream),
{
    if !stream {
        return stream_options;
    }
    let mut value = match stream_options {
        Some(value) => value,
        None => object_value(serde_json::Map::new()),
    };
    match value.as_object_mut() {
        Some(map) => {
            let _ = map.insert("include_usage".to_string(), bool_value(true));
            Some(value)
        },
        None => {
            let mut map = serde_json::Map::new();
            let _ = map.insert("include_usage".to_string(), bool_value(true));
            Some(object_value(map))
        },
    }
}

/// Whether probabilities are asked for, and of how many alternatives.
fn choose_logprobs(logprobs: Option<bool>, top_logprobs: Option<u32>) -> (chosen: (Option<bool>, Option<u32>))
    ensures
        chosen == logprob_settings(logprobs, top_logprobs),
{
    match (logprobs, top_logprobs) {
        (_, Some(0)) => (None, None),
        (_, Some(value)) => (Some(true), Some(value)),
        (Some(true), None) => (Some(true), Some(DEFAULT_TOP_LOGPROBS)),
        (Some(false), None) => (None, None),
        (None, None) => (None, None),
    }
}

/// Copies a JSON value, where there is one.
fn copy_json(value: &Option<serde_json::Value>) -> (copy: Option<serde_json::Value>)
    ensures
        json_of(copy) == json_of(*value),
{
    value.clone()
}

/// Copies JSON values, where there are any to speak of.
fn copy_jsons(values: &Option<Vec<serde_json::Value>>) -> (copy: Option<Vec<serde_json::Value>>)
    ensures
        jsons_of(copy) == jsons_of(*values),
{
    let copy = values.clone();
    proof {
        if values is Some {
            assert(jsons(copy->0@) =~= jsons(values->0@));
        }
    }
    copy
}

/// Copies a text, where there is one.
fn copy_text(text: &Option<String>) -> (copy: Option<String>)
    ensures
        text_of(copy) == text_of(*text),
{
    text.clone()
}

/// Copies texts, where there are any to speak of.
fn copy_texts(values: &Option<Vec<String>>) -> (copy: Option<Vec<String>>)
    ensures
        texts_of(copy) == texts_of(*values),
{
    let copy = values.clone();
    proof {
        if values is Some {
            assert(texts(copy->0@) =~= texts(values->0@));
        }
    }
    copy
}

/// Gathers the messages of a request: the instructions, the messages that it brings along, and its
/// input.
fn gather_messages(req: &ResponseRequest, supports_native_tools: bool) -> (gathered: Result<Vec<ChatMessage>, String>)
    ensures
        match gathered {
            Ok(messages) => input_error(*req) is None && chat_messages(messages@) == request_messages(
                *req,
                supports_native_tools,
            ),
            Err(error) => input_error(*req) == Some(error@),
        },
{
    let mut messages: Vec<ChatMessage> = Vec::new();
    let instructions = instruct(req, supports_native_tools);
    if !instructions.as_str().is_empty() {
        messages.push(say("system", instructions));
    }
    proof {
        assert(chat_messages(messages@) =~= system_messages(*req, supports_native_tools));
    }
    if let Some(req_messages) = &req.messages {
        let mut passed = pass_messages(req_messages);
        add_messages(&mut messages, &mut passed);
    }
    proof {
        assert(chat_messages(messages@) =~= system_messages(*req, supports_native_tools) + passthrough_messages(*req));
    }
    match &req.input {
        Some(ResponseInput::String(text)) => {
            let mut said = vec![say("user", text.clone())];
            proof {
                assert(chat_messages(said@) =~= input_messages(*req));
            }
            add_messages(&mut messages, &mut said);
        },
        Some(ResponseInput::Array(items)) => match convert_input_items(items) {
            Ok(mut converted) => add_messages(&mut messages, &mut converted),
            Err(error) => return Err(error),
        },
        None => {},
    }
    proof {
        assert(chat_messages(messages@) =~= request_messages(*req, supports_native_tools));
    }
    Ok(messages)
}

/// Moves messages to the end of others.
fn add_messages(messages: &mut Vec<ChatMessage>, more: &mut Vec<ChatMessage>)
    ensures
        chat_messages(final(messages)@) == chat_messages(old(messages)@) + chat_messages(old(more)@),
{
    messages.append(more);
    proof {
        assert(chat_messages(messages@) =~= chat_messages(old(messages)@) + chat_messages(old(more)@));
    }
}

/// The form that the answer is to have.
fn choose_format(req: &ResponseRequest) -> (format: Option<serde_json::Value>)
    ensures
        json_of(format) == response_format_json(*req),
{
    if let Some(text) = &req.text {
        if text.format.is_some() {
            return copy_json(&text.format);
        }
    }
    copy_json(&req.response_format)
}

/// The tools of a chat.
fn choose_tools(req: &ResponseRequest) -> (tools: Option<Vec<ChatTool>>)
    ensures
        tools_of(tools) == request_tools(*req),
{
    match &req.tools {
        Some(offered) => {
            let picked = pick_function_tools(offered);
            proof {
                assert(picked@.len() == chat_tools(picked@).len());
            }
            if picked.is_empty() {
                None
            } else {
                Some(picked)
            }
        },
        None => None,
    }
}

/// Which tool is to be called, as JSON.
fn choose_tool_choice(choice: &Option<ToolChoice>) -> (value: Option<serde_json::Value>)
    ensures
        json_of(value) == tool_choice_json(*choice),
{
    match choice {
        Some(ToolChoice::String(word)) => Some(text_value(word.clone())),
        Some(ToolChoice::Specific(value)) => Some(value.clone()),
        None => None,
    }
}

/// Converts a request to the Responses API to one to the Chat Completions API.
pub fn convert_to_chat_completions(
    req: &ResponseRequest,
    supports_native_tools: bool,
) -> (converted: Result<ChatCompletionRequest, String>)
    ensures
        match converted {
            Ok(chat) => request_error(*req) is None && chat@ == chat_request(*req, supports_native_tools),
            Err(error) => request_error(*req) == Some(error@),
        },
        converted is Ok && req.max_output_tokens is Some ==> converted->Ok_0.max_tokens == req.max_output_tokens,
        converted is Ok && req.max_output_tokens is None ==> converted->Ok_0.max_tokens == req.max_tokens,
{
    let model = match &req.model {
        Some(model) => model.clone(),
        None => return Err("Model is required".to_string()),
    };
    let messages = match gather_messages(req, supports_native_tools) {
        Ok(messages) => messages,
        Err(error) => return Err(error),
    };
    let (logprobs, top_logprobs) = choose_logprobs(req.logprobs, req.top_logprobs);
    let stream = req.stream.unwrap_or(false);
    Ok(
        ChatCompletionRequest {
            model,
            messages,
            max_tokens: if req.max_output_tokens.is_some() {
                req.max_output_tokens
            } else {
                req.max_tokens
            },
            temperature: copy_json(&req.temperature),
            top_p: copy_json(&req.top_p),
            response_format: choose_format(req),
            tools: choose_tools(req),
            tool_choice: choose_tool_choice(&req.tool_choice),
            parallel_tool_calls: req.parallel_tool_calls,
            user: copy_text(&req.user),
            logprobs,
            top_logprobs,
            stream,
            stop: copy_json(&req.stop),
            frequency_penalty: copy_json(&req.frequency_penalty),
            presence_penalty: copy_json(&req.presence_penalty),
            seed: req.seed,
            logit_bias: copy_json(&req.logit_bias),
            metadata: copy_json(&req.metadata),
            service_tier: copy_text(&req.service_tier),
            store: req.store,
            n: req.n,
            stream_options: chat_stream_options(copy_json(&req.stream_options), stream),
            max_completion_tokens: req.max_completion_tokens,
            modalities: copy_texts(&req.modalities),
            prediction: copy_json(&req.prediction),
            reasoning_effort: copy_text(&req.reasoning_effort),
            verbosity: copy_text(&req.verbosity),
            safety_identifier: copy_text(&req.safety_identifier),
            prompt_cache_key: copy_text(&req.prompt_cache_key),
            web_search_options: copy_json(&req.web_search_options),
            function_call: copy_json(&req.function_call),
            functions: copy_jsons(&req.functions),
        },
    )
}

/// The status of a response whose chat gave a reason for its end, or none yet.
pub open spec fn status_of(finish_reason: Option<Seq<char>>) -> Seq<char> {
    match finish_reason {
        Some(reason) => if reason == "length"@ {
            "incomplete"@
        } else if reason == "content_filter"@ {
            "failed"@
        } else {
            "completed"@
        },
        None => "in_progress"@,
    }
}

/// Translates the reason for which a chat ended to the status of a response.
pub fn translate_finish_reason(finish_reason: Option<&str>) -> (status: &'static str)
    ensures
        status@ == status_of(
            match finish_reason {
                Some(reason) => Some(reason@),
                None => None,
            },
        ),
{
    match finish_reason {
        Some(reason) => {
            if same_text(reason, "length") {
                "incomplete"
            } else if same_text(reason, "content_filter") {
                "failed"
            } else {
                // "stop", "tool_calls" and every other reason.
                "completed"
            }
        },
        None => "in_progress",
    }
}

} // verus!
