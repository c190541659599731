//! What is promised of a whole request, said of its fields and of those of the chat that it becomes, and
//! of the settings of the proxy.
use vstd::prelude::*;

use crate::converter::{
    chat_request, chat_tool, function_tools, passed_messages, request_error, status_of, stream_options_json, streams,
    system_instructions, DEFAULT_TOP_LOGPROBS, FILE_OPS_GUIDANCE, NATIVE_TOOL_OVERRIDE, TOOL_OVERRIDE_HEADING,
    XML_TOOL_OVERRIDE,
};
use crate::json::{json, json_of, jsons_of, JsonView};
use crate::laws::law_first_error_counts;
use crate::models::{
    chat_messages, text_of, texts_of, tools_of, ChatCompletionRequest, ChatMessage, ChatMessageView, ResponseInput,
    ResponseInputItem, ResponseRequest, ResponseTool,
};
use crate::promises::{law_decimal_value, lemma_keep_then_change};
use crate::settings::{
    digits_value, is_digit, number_or, read_as, truth, unsigned, Settings, DEFAULT_BACKEND_TIMEOUT_SECS,
    DEFAULT_BACKEND_URL, DEFAULT_PORT,
};
use crate::text::decimal;
use crate::transcript::{item_error, items_error, items_messages, with_chat_role};

verus! {

// Messages.

/// The instructions that a request gives, or none.
pub open spec fn given_instructions(req: ResponseRequest) -> Seq<char> {
    if req.instructions is Some {
        req.instructions->0@
    } else {
        Seq::empty()
    }
}

/// How many messages stand before those that a request brings along: one, where there are tools or
/// instructions.
pub open spec fn instructing(req: ResponseRequest) -> int {
    if req.tools is Some || given_instructions(req).len() > 0 {
        1
    } else {
        0
    }
}

/// The messages that a request brings along and that could be read.
pub open spec fn readable(req: ResponseRequest) -> Seq<Option<ChatMessage>> {
    if req.messages is Some {
        req.messages->0@.filter(|message: Option<ChatMessage>| message is Some)
    } else {
        Seq::empty()
    }
}

proof fn lemma_heading()
    ensures
        TOOL_OVERRIDE_HEADING@.len() > 0,
{
    reveal_strlit("\n\n---\n\nIMPORTANT: Tool Calling Format Override\n");
}

proof fn lemma_passed(messages: Seq<Option<ChatMessage>>)
    ensures
        ({
            let read = messages.filter(|message: Option<ChatMessage>| message is Some);
            &&& passed_messages(messages).len() == read.len()
            &&& forall|k: int|
                0 <= k < read.len() ==> #[trigger] read[k] is Some && passed_messages(messages)[k] == with_chat_role(
                    read[k]->0@,
                )
        }),
{
    let there = |message: Option<ChatMessage>| message is Some;
    let named = |message: Option<ChatMessage>| with_chat_role(message->0@);
    let both = |message: Option<ChatMessage>|
        match message {
            Some(message) => Some(with_chat_role(message@)),
            None => None,
        };
    lemma_keep_then_change(messages, both, there, named);
    assert(passed_messages(messages) == messages.filter_map(both));
    let read = messages.filter(there);
    assert forall|k: int| 0 <= k < read.len() implies #[trigger] read[k] is Some by {
        messages.lemma_filter_pred(there, k);
    }
}

/// Where a request has instructions and speaks of no tools, the chat starts with a system message whose
/// text is just those instructions, whatever else the request has or lacks.
pub proof fn law_instructions_first(req: ResponseRequest, supports_native_tools: bool)
    requires
        req.tools is None,
        req.instructions is Some,
        req.instructions->0@.len() > 0,
    ensures
        ({
            let messages = chat_request(req, supports_native_tools).messages;
            &&& messages.len() > 0
            &&& messages[0].role == "system"@
            &&& messages[0].content == Some(JsonView::Text(req.instructions->0@))
            &&& messages[0].tool_calls is None
            &&& messages[0].tool_call_id is None
        }),
{
}

/// Where a request speaks of tools, the chat starts with a system message: the instructions, if there are
/// any, then how tools are called, then how files are handled.
pub proof fn law_guidance_first(req: ResponseRequest, supports_native_tools: bool)
    requires
        req.tools is Some,
    ensures
        ({
            let messages = chat_request(req, supports_native_tools).messages;
            let start = given_instructions(req) + TOOL_OVERRIDE_HEADING@;
            &&& messages.len() > 0
            &&& messages[0].role == "system"@
            &&& supports_native_tools ==> messages[0].content == Some(
                JsonView::Text(start + NATIVE_TOOL_OVERRIDE@ + FILE_OPS_GUIDANCE@),
            )
            &&& !supports_native_tools ==> messages[0].content == Some(
                JsonView::Text(start + XML_TOOL_OVERRIDE@ + FILE_OPS_GUIDANCE@),
            )
            &&& messages[0].tool_calls is None
            &&& messages[0].tool_call_id is None
        }),
{
    lemma_heading();
    let start = given_instructions(req) + TOOL_OVERRIDE_HEADING@;
    let told = system_instructions(req, supports_native_tools);
    if supports_native_tools {
        assert(told =~= start + NATIVE_TOOL_OVERRIDE@ + FILE_OPS_GUIDANCE@);
    } else {
        assert(told =~= start + XML_TOOL_OVERRIDE@ + FILE_OPS_GUIDANCE@);
    }
}

/// Each message that a request brings along and that could be read stands in the chat, in its order, right
/// behind the instructions: with its content, its tool calls and its id, and, unless it is a developer's,
/// with its role; a developer's is the system's.
pub proof fn law_messages_passed_on(req: ResponseRequest, supports_native_tools: bool, k: int)
    requires
        0 <= k < readable(req).len(),
    ensures
        ({
            let messages = chat_request(req, supports_native_tools).messages;
            let given = readable(req)[k]->0;
            let passed = messages[instructing(req) + k];
            &&& readable(req)[k] is Some
            &&& instructing(req) + k < messages.len()
            &&& given.role@ == "developer"@ ==> passed.role == "system"@
            &&& given.role@ != "developer"@ ==> passed.role == given.role@
            &&& passed.content == json_of(given.content)
            &&& passed.tool_calls == jsons_of(given.tool_calls)
            &&& passed.tool_call_id == text_of(given.tool_call_id)
        }),
{
    lemma_heading();
    lemma_passed(req.messages->0@);
    assert(readable(req)[k] is Some);
}

/// Behind the instructions and the messages that were brought along comes the input, and nothing else: a
/// text as a message of the user, items as what they become.
pub proof fn law_input_last(req: ResponseRequest, supports_native_tools: bool)
    ensures
        ({
            let messages = chat_request(req, supports_native_tools).messages;
            let start = instructing(req) + readable(req).len();
            let said = messages.skip(start);
            &&& start <= messages.len()
            &&& req.input is None ==> said.len() == 0
            &&& req.input is Some && req.input->0 is String ==> said == seq![
                ChatMessageView {
                    role: "user"@,
                    content: Some(JsonView::Text(req.input->0->String_0@)),
                    tool_calls: None,
                    tool_call_id: None,
                },
            ]
            &&& req.input is Some && req.input->0 is Array ==> said == items_messages(req.input->0->Array_0@)
        }),
{
    lemma_heading();
    if req.messages is Some {
        lemma_passed(req.messages->0@);
    }
    let messages = chat_request(req, supports_native_tools).messages;
    let start = instructing(req) + readable(req).len();
    match req.input {
        Some(ResponseInput::String(text)) => {
            assert(messages.skip(start) =~= seq![
                ChatMessageView {
                    role: "user"@,
                    content: Some(JsonView::Text(text@)),
                    tool_calls: None,
                    tool_call_id: None,
                },
            ]);
        },
        Some(ResponseInput::Array(items)) => {
            assert(messages.skip(start) =~= items_messages(items@));
        },
        None => {},
    }
}

// Fields.

/// Where a request gives `max_output_tokens`, that is the limit of the chat, whether or not it gives
/// `max_tokens` too; else `max_tokens` is. `max_completion_tokens` is left as it is.
pub proof fn law_token_limit(req: ResponseRequest, supports_native_tools: bool, chat: ChatCompletionRequest)
    requires
        chat@ == chat_request(req, supports_native_tools),
    ensures
        req.max_output_tokens is Some ==> chat.max_tokens == req.max_output_tokens,
        req.max_output_tokens is None ==> chat.max_tokens == req.max_tokens,
        chat.max_completion_tokens == req.max_completion_tokens,
{
    assert(chat@.max_tokens == chat.max_tokens);
    assert(chat@.max_completion_tokens == chat.max_completion_tokens);
}

/// What the two APIs have in common is handed on as it is, also where it is missing.
pub proof fn law_settings_handed_on(req: ResponseRequest, supports_native_tools: bool, chat: ChatCompletionRequest)
    requires
        chat@ == chat_request(req, supports_native_tools),
    ensures
        req.model is Some ==> chat.model@ == req.model->0@,
        json_of(chat.temperature) == json_of(req.temperature),
        json_of(chat.top_p) == json_of(req.top_p),
        json_of(chat.frequency_penalty) == json_of(req.frequency_penalty),
        json_of(chat.presence_penalty) == json_of(req.presence_penalty),
        json_of(chat.stop) == json_of(req.stop),
        json_of(chat.logit_bias) == json_of(req.logit_bias),
        json_of(chat.metadata) == json_of(req.metadata),
        json_of(chat.prediction) == json_of(req.prediction),
        json_of(chat.web_search_options) == json_of(req.web_search_options),
        json_of(chat.function_call) == json_of(req.function_call),
        jsons_of(chat.functions) == jsons_of(req.functions),
        text_of(chat.user) == text_of(req.user),
        text_of(chat.service_tier) == text_of(req.service_tier),
        text_of(chat.reasoning_effort) == text_of(req.reasoning_effort),
        text_of(chat.verbosity) == text_of(req.verbosity),
        text_of(chat.safety_identifier) == text_of(req.safety_identifier),
        text_of(chat.prompt_cache_key) == text_of(req.prompt_cache_key),
        texts_of(chat.modalities) == texts_of(req.modalities),
        chat.parallel_tool_calls == req.parallel_tool_calls,
        chat.seed == req.seed,
        chat.store == req.store,
        chat.n == req.n,
{
    let view = chat@;
    assert(view.model == chat.model@);
    assert(view.parallel_tool_calls == chat.parallel_tool_calls);
    assert(view.seed == chat.seed);
    assert(view.store == chat.store);
    assert(view.n == chat.n);
    assert(view.temperature == json_of(chat.temperature));
    assert(view.top_p == json_of(chat.top_p));
}

/// The messages of a chat are those that it holds, one by one.
pub proof fn law_chat_holds_messages(chat: ChatCompletionRequest)
    ensures
        chat@.messages == chat_messages(chat.messages@),
        chat@.tools == tools_of(chat.tools),
{
}

/// The form of the answer is the one that is given with the text, or else the one that is given by
/// itself.
pub proof fn law_answer_form(req: ResponseRequest, supports_native_tools: bool, chat: ChatCompletionRequest)
    requires
        chat@ == chat_request(req, supports_native_tools),
    ensures
        req.text is Some && req.text->0.format is Some ==> json_of(chat.response_format) == Some(
            json(req.text->0.format->0),
        ),
        req.text is None ==> json_of(chat.response_format) == json_of(req.response_format),
        req.text is Some && req.text->0.format is None ==> json_of(chat.response_format) == json_of(
            req.response_format,
        ),
{
    assert(chat@.response_format == json_of(chat.response_format));
}

/// Probabilities are asked for with a number of alternatives: the one that is given, or five; zero
/// alternatives, and none without a wish for probabilities, ask for nothing.
pub proof fn law_probabilities(req: ResponseRequest, supports_native_tools: bool, chat: ChatCompletionRequest)
    requires
        chat@ == chat_request(req, supports_native_tools),
    ensures
        req.top_logprobs is Some && req.top_logprobs->0 > 0 ==> chat.logprobs == Some(true) && chat.top_logprobs
            == req.top_logprobs,
        req.top_logprobs is Some && req.top_logprobs->0 == 0 ==> chat.logprobs is None && chat.top_logprobs is None,
        req.top_logprobs is None && req.logprobs == Some(true) ==> chat.logprobs == Some(true) && chat.top_logprobs
            == Some(5u32),
        req.top_logprobs is None && req.logprobs != Some(true) ==> chat.logprobs is None && chat.top_logprobs is None,
        DEFAULT_TOP_LOGPROBS == 5,
{
    assert(chat@.logprobs == chat.logprobs);
    assert(chat@.top_logprobs == chat.top_logprobs);
}

/// Options of a stream: a stream has all that were given, whatever they were called, and tells what was
/// used; without a stream they are as they were given.
pub proof fn law_stream_options(options: Option<JsonView>, key: Seq<char>)
    ensures
        stream_options_json(options, false) == options,
        ({
            let told = stream_options_json(options, true);
            let given = options is Some && options->0 is Object && options->0->Object_0.contains_key(key);
            &&& told is Some
            &&& told->0 is Object
            &&& told->0->Object_0.contains_key("include_usage"@)
            &&& told->0->Object_0["include_usage"@] == JsonView::Bool(true)
            &&& key != "include_usage"@ ==> {
                &&& told->0->Object_0.contains_key(key) <==> given
                &&& given ==> told->0->Object_0[key] == options->0->Object_0[key]
            }
        }),
{
}

/// A chat is streamed just when the request says so, and its options are those of a stream just then.
pub proof fn law_streaming(req: ResponseRequest, supports_native_tools: bool, chat: ChatCompletionRequest)
    requires
        chat@ == chat_request(req, supports_native_tools),
    ensures
        chat.stream <==> req.stream is Some && req.stream->0,
        streams(req) <==> req.stream is Some && req.stream->0,
        !chat.stream ==> json_of(chat.stream_options) == json_of(req.stream_options),
        chat.stream ==> json_of(chat.stream_options) == stream_options_json(json_of(req.stream_options), true),
{
    assert(chat@.stream == chat.stream);
    assert(chat@.stream_options == json_of(chat.stream_options));
}

/// The tools of a chat are the function tools of the request, one by one and in their order, each with its
/// name, what it is for and what it takes; there is no list of tools where there is none of them.
pub proof fn law_tools_handed_on(req: ResponseRequest, supports_native_tools: bool, k: int)
    ensures
        ({
            let tools = chat_request(req, supports_native_tools).tools;
            let offered = req.tools->0@.filter(|tool: ResponseTool| tool.type_@ == "function"@);
            &&& tools is Some <==> req.tools is Some && offered.len() > 0
            &&& tools is Some ==> tools->0.len() == offered.len()
            &&& tools is Some && 0 <= k < offered.len() ==> {
                let function = tools->0[k]->function;
                &&& tools->0[k]->type_ == "function"@
                &&& function.name == offered[k].function.name@
                &&& function.description == text_of(offered[k].function.description)
                &&& function.parameters == json_of(offered[k].function.parameters)
            }
        }),
{
    if req.tools is Some {
        let tools = req.tools->0@;
        let is_function = |tool: ResponseTool| tool.type_@ == "function"@;
        let both = |tool: ResponseTool| chat_tool(tool);
        let change = |tool: ResponseTool| chat_tool(tool)->0;
        lemma_keep_then_change(tools, both, is_function, change);
        assert(function_tools(tools) == tools.filter(is_function).map_values(change));
        if 0 <= k < tools.filter(is_function).len() {
            tools.lemma_filter_pred(is_function, k);
        }
    }
}

/// The choice of a tool is handed on: a word as a text, anything else as it is, and none as none.
pub proof fn law_tool_choice_handed_on(req: ResponseRequest, supports_native_tools: bool, chat: ChatCompletionRequest)
    requires
        chat@ == chat_request(req, supports_native_tools),
    ensures
        req.tool_choice is None ==> chat.tool_choice is None,
        req.tool_choice is Some ==> chat.tool_choice is Some,
        req.tool_choice is Some && req.tool_choice->0 is String ==> json(chat.tool_choice->0) == JsonView::Text(
            req.tool_choice->0->String_0@,
        ),
        req.tool_choice is Some && req.tool_choice->0 is Specific ==> json(chat.tool_choice->0) == json(
            req.tool_choice->0->Specific_0,
        ),
{
    assert(chat@.tool_choice == json_of(chat.tool_choice));
}

// Refusals.

/// A request that names no model is refused for that, whatever its input is. One that names a model and
/// has no items is not refused.
pub proof fn law_model_required(req: ResponseRequest)
    ensures
        req.model is None ==> request_error(req) == Some("Model is required"@),
        req.model is Some && req.input is None ==> request_error(req) is None,
        req.model is Some && req.input is Some && req.input->0 is String ==> request_error(req) is None,
{
}

/// A request that names a model is refused where an item of its input is, for the reason of the first that
/// is.
pub proof fn law_first_refusal_counts(req: ResponseRequest, items: Vec<ResponseInputItem>, i: int)
    requires
        req.model is Some,
        req.input == Some(ResponseInput::Array(items)),
        0 <= i < items@.len(),
        item_error(items@[i]) is Some,
        forall|j: int| 0 <= j < i ==> item_error(#[trigger] items@[j]) is None,
    ensures
        request_error(req) == item_error(items@[i]),
{
    law_first_error_counts(items@);
    let first = choose|k: int|
        0 <= k < items@.len() && items_error(items@) == item_error(#[trigger] items@[k]) && forall|j: int|
            0 <= j < k ==> item_error(#[trigger] items@[j]) is None;
    assert(items_error(items@) is Some);
    assert(item_error(items@[first]) is Some);
    assert(first == i);
}

/// A request that names a model and of whose items none is refused is not refused.
pub proof fn law_nothing_else_refused(req: ResponseRequest, items: Vec<ResponseInputItem>)
    requires
        req.model is Some,
        req.input == Some(ResponseInput::Array(items)),
        forall|i: int| 0 <= i < items@.len() ==> item_error(#[trigger] items@[i]) is None,
    ensures
        request_error(req) is None,
{
    law_first_error_counts(items@);
}

// The end of a chat.

/// A chat that was cut off for its length is incomplete, one that was stopped for its content failed, one
/// that ended for any other reason is complete, and one without a reason goes on.
pub proof fn law_status(reason: Seq<char>)
    ensures
        status_of(None) == "in_progress"@,
        status_of(Some("length"@)) == "incomplete"@,
        status_of(Some("content_filter"@)) == "failed"@,
        reason != "length"@ && reason != "content_filter"@ ==> status_of(Some(reason)) == "completed"@,
{
    reveal_strlit("length");
    reveal_strlit("content_filter");
    assert("length"@.len() != "content_filter"@.len());
}

// Settings.

/// Whether a text is made of digits, and of at least one.
pub open spec fn all_digits(text: Seq<char>) -> bool {
    text.len() > 0 && forall|i: int| 0 <= i < text.len() ==> '0' <= #[trigger] text[i] <= '9'
}

/// Digits are read as their number, with or without a plus sign before them, as long as it is not too
/// large; nothing else is a number.
pub proof fn law_number_read(text: Seq<char>, max: nat)
    ensures
        all_digits(text) && digits_value(text) <= max ==> unsigned(text, max) == Some(digits_value(text)) && unsigned(
            seq!['+'] + text,
            max,
        ) == Some(digits_value(text)),
        all_digits(text) && digits_value(text) > max ==> unsigned(text, max) is None && unsigned(seq!['+'] + text, max)
            is None,
        !all_digits(text) ==> unsigned(seq!['+'] + text, max) is None,
        !all_digits(text) && !(text.len() > 0 && text[0] == '+') ==> unsigned(text, max) is None,
{
    let signed = seq!['+'] + text;
    assert(signed.drop_first() =~= text);
    assert(signed.first() == '+');
    if all_digits(text) {
        assert('0' <= text[0] <= '9');
        assert forall|i: int| 0 <= i < text.len() implies is_digit(#[trigger] text[i]) by {
            assert('0' <= text[i] <= '9');
        }
    } else if text.len() > 0 {
        let i = choose|i: int| 0 <= i < text.len() && !('0' <= #[trigger] text[i] <= '9');
        assert(!is_digit(text[i]));
    }
}

/// A number that is written in decimal is read back, unless it is too large.
pub proof fn law_number_read_back(n: nat, max: nat)
    ensures
        n <= max ==> unsigned(decimal(n), max) == Some(n),
        n > max ==> unsigned(decimal(n), max) is None,
{
    law_decimal_value(n);
    assert forall|i: int| 0 <= i < decimal(n).len() implies '0' <= #[trigger] decimal(n)[i] <= '9' by {}
    assert(all_digits(decimal(n)));
    law_number_read(decimal(n), max);
}

/// A setting that is a number is that number; one that is missing or no number is what it is by default.
pub proof fn law_number_setting(text: Option<String>, max: nat, default: nat)
    ensures
        text is None ==> number_or(text, max, default) == default,
        text is Some && unsigned(text->0@, max) is None ==> number_or(text, max, default) == default,
        text is Some && unsigned(text->0@, max) is Some ==> number_or(text, max, default) == unsigned(
            text->0@,
            max,
        )->0,
{
}

/// Two words name truth values, and no other text does.
pub proof fn law_truth_named(text: Seq<char>)
    ensures
        truth(text) == Some(true) <==> text == "true"@,
        truth(text) == Some(false) <==> text == "false"@,
        truth(text) is None <==> text != "true"@ && text != "false"@,
{
    reveal_strlit("true");
    reveal_strlit("false");
    assert("true"@.len() != "false"@.len());
}

/// Each setting is read from its own text, and from no other: the place of the backend as it stands, even
/// an empty one; a number where the text is one; and the log is written just when its text says `true`.
pub proof fn law_settings_read(
    settings: Settings,
    backend_url: Option<String>,
    backend_timeout_secs: Option<String>,
    enable_log_volume: Option<String>,
    host_port: Option<String>,
)
    requires
        read_as(settings, backend_url, backend_timeout_secs, enable_log_volume, host_port),
    ensures
        backend_url is Some ==> settings.backend_url@ == backend_url->0@,
        backend_url is None ==> settings.backend_url@ == "https://llm.chutes.ai/v1/chat/completions"@,
        backend_timeout_secs is Some && unsigned(backend_timeout_secs->0@, u64::MAX as nat) is Some ==> Some(
            settings.backend_timeout_secs as nat,
        ) == unsigned(backend_timeout_secs->0@, u64::MAX as nat),
        backend_timeout_secs is Some && unsigned(backend_timeout_secs->0@, u64::MAX as nat) is None
            ==> settings.backend_timeout_secs == 600,
        backend_timeout_secs is None ==> settings.backend_timeout_secs == 600,
        enable_log_volume is Some ==> (settings.log_volume_enabled <==> enable_log_volume->0@ == "true"@),
        enable_log_volume is None ==> !settings.log_volume_enabled,
        host_port is Some && unsigned(host_port->0@, u16::MAX as nat) is Some ==> Some(settings.port as nat)
            == unsigned(host_port->0@, u16::MAX as nat),
        host_port is Some && unsigned(host_port->0@, u16::MAX as nat) is None ==> settings.port == 8282,
        host_port is None ==> settings.port == 8282,
{
    if enable_log_volume is Some {
        law_truth_named(enable_log_volume->0@);
    }
}

/// What the settings are by default.
pub proof fn law_defaults()
    ensures
        DEFAULT_BACKEND_URL@ == "https://llm.chutes.ai/v1/chat/completions"@,
        DEFAULT_BACKEND_TIMEOUT_SECS == 600,
        DEFAULT_PORT == 8282,
{
}

} // verus!
