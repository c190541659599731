//! What the Responses API asks, and what the Chat Completions API is asked.
use vstd::prelude::*;

use crate::json::{json_of, jsons, jsons_of, JsonView};
use crate::text::texts;

verus! {

/// A request to the Responses API. Settings that are handed on as they are, and those that the API
/// leaves without a fixed form, are kept as JSON values.
#[derive(Debug, PartialEq)]
pub struct ResponseRequest {
    pub model: Option<String>,
    pub instructions: Option<String>,
    pub input: Option<ResponseInput>,
    /// Messages in the form of Chat Completions. `None` stands for one that could not be read.
    pub messages: Option<Vec<Option<ChatMessage>>>,
    pub tools: Option<Vec<ResponseTool>>,
    pub tool_choice: Option<ToolChoice>,
    pub text: Option<TextConfig>,
    pub response_format: Option<serde_json::Value>,
    pub max_output_tokens: Option<u32>,
    pub max_tokens: Option<u32>,
    pub max_completion_tokens: Option<u32>,
    pub temperature: Option<serde_json::Value>,
    pub top_p: Option<serde_json::Value>,
    pub frequency_penalty: Option<serde_json::Value>,
    pub presence_penalty: Option<serde_json::Value>,
    pub logprobs: Option<bool>,
    pub top_logprobs: Option<u32>,
    pub stream: Option<bool>,
    /// The stream options as JSON; `None` also where they could not be written as JSON.
    pub stream_options: Option<serde_json::Value>,
    pub parallel_tool_calls: Option<bool>,
    pub user: Option<String>,
    pub stop: Option<serde_json::Value>,
    pub seed: Option<i64>,
    pub logit_bias: Option<serde_json::Value>,
    pub metadata: Option<serde_json::Value>,
    pub service_tier: Option<String>,
    pub store: Option<bool>,
    pub n: Option<u32>,
    pub modalities: Option<Vec<String>>,
    pub prediction: Option<serde_json::Value>,
    pub reasoning_effort: Option<String>,
    pub verbosity: Option<String>,
    pub safety_identifier: Option<String>,
    pub prompt_cache_key: Option<String>,
    pub web_search_options: Option<serde_json::Value>,
    pub function_call: Option<serde_json::Value>,
    pub functions: Option<Vec<serde_json::Value>>,
}

/// The input of a request: one text, or a list of items.
#[derive(Debug, PartialEq)]
pub enum ResponseInput {
    String(String),
    Array(Vec<ResponseInputItem>),
}

/// One item of an input.
#[derive(Debug, PartialEq)]
pub enum ResponseInputItem {
    Message {
        role: String,
        content: ResponseContent,
        tool_call_id: Option<String>,
        attachments: Option<Vec<Attachment>>,
    },
    FunctionCall { call_id: String, name: String, arguments: String },
    FunctionCallOutput { call_id: String, output: String },
    Reasoning { text: Option<String>, encrypted_content: Option<String> },
    ItemReference { id: String },
}

/// The content of a message: one text, or a list of parts.
#[derive(Debug, PartialEq)]
pub enum ResponseContent {
    String(String),
    Array(Vec<ContentPart>),
}

/// One part of a content.
#[derive(Debug, PartialEq)]
pub enum ContentPart {
    InputText { text: String },
    OutputText { text: String },
    ToolOutput { body: String },
    InputImage { image_url: ImageUrl },
    InputFile {
        file_id: Option<String>,
        filename: Option<String>,
        file_url: Option<String>,
        file_data: Option<String>,
    },
    Reasoning { text: String },
}

/// Where an image is.
#[derive(Debug, PartialEq)]
pub struct ImageUrl {
    pub url: String,
}

/// A file that is attached to a message.
#[derive(Debug, PartialEq)]
pub struct Attachment {
    pub file_id: String,
}

/// How the answer is to be written.
#[derive(Debug, PartialEq)]
pub struct TextConfig {
    pub format: Option<serde_json::Value>,
}

/// A tool that a request offers. `function` is read of function tools only.
#[derive(Debug, PartialEq)]
pub struct ResponseTool {
    pub type_: String,
    pub function: FunctionDef,
}

/// What a function tool is.
#[derive(Debug, PartialEq)]
pub struct FunctionDef {
    pub name: String,
    pub description: Option<String>,
    pub parameters: Option<serde_json::Value>,
}

impl ResponseTool {
    /// The kind of the tool.
    pub fn type_(&self) -> (type_: &str)
        ensures
            type_@ == self.type_@,
    {
        self.type_.as_str()
    }

    /// The function that the tool is.
    pub fn function_def(&self) -> (function: &FunctionDef)
        ensures
            *function == self.function,
    {
        &self.function
    }
}

/// Which tool is to be called: by a word, or by a description, which is kept as JSON.
#[derive(Debug, PartialEq)]
pub enum ToolChoice {
    String(String),
    Specific(serde_json::Value),
}

/// A message of a chat.
#[derive(Debug, PartialEq)]
pub struct ChatMessage {
    pub role: String,
    pub content: Option<serde_json::Value>,
    pub tool_calls: Option<Vec<serde_json::Value>>,
    pub tool_call_id: Option<String>,
}

/// What a `ChatMessage` holds.
#[verifier::ext_equal]
pub struct ChatMessageView {
    pub role: Seq<char>,
    pub content: Option<JsonView>,
    pub tool_calls: Option<Seq<JsonView>>,
    pub tool_call_id: Option<Seq<char>>,
}

impl Clone for ChatMessage {
    fn clone(&self) -> (copy: Self)
        ensures
            copy@ == self@,
    {
        let copy = ChatMessage {
            role: self.role.clone(),
            content: self.content.clone(),
            tool_calls: self.tool_calls.clone(),
            tool_call_id: self.tool_call_id.clone(),
        };
        proof {
            assert(copy@ =~= self@) by {
                if self.tool_calls is Some {
                    assert(jsons(copy.tool_calls->0@) =~= jsons(self.tool_calls->0@));
                }
            }
        }
        copy
    }
}

impl View for ChatMessage {
    type V = ChatMessageView;

    open spec fn view(&self) -> ChatMessageView {
        ChatMessageView {
            role: self.role@,
            content: json_of(self.content),
            tool_calls: jsons_of(self.tool_calls),
            tool_call_id: text_of(self.tool_call_id),
        }
    }
}

/// A tool of a chat: there are function tools only.
#[derive(Debug, PartialEq)]
pub enum ChatTool {
    Function { type_: String, function: ChatFunction },
}

/// What a `ChatTool` holds.
#[verifier::ext_equal]
pub enum ChatToolView {
    Function { type_: Seq<char>, function: ChatFunctionView },
}

impl View for ChatTool {
    type V = ChatToolView;

    open spec fn view(&self) -> ChatToolView {
        match *self {
            ChatTool::Function { type_, function } => ChatToolView::Function { type_: type_@, function: function@ },
        }
    }
}

/// A function that a chat may call.
#[derive(Debug, PartialEq)]
pub struct ChatFunction {
    pub name: String,
    pub description: Option<String>,
    pub parameters: Option<serde_json::Value>,
}

/// What a `ChatFunction` holds.
#[verifier::ext_equal]
pub struct ChatFunctionView {
    pub name: Seq<char>,
    pub description: Option<Seq<char>>,
    pub parameters: Option<JsonView>,
}

impl View for ChatFunction {
    type V = ChatFunctionView;

    open spec fn view(&self) -> ChatFunctionView {
        ChatFunctionView {
            name: self.name@,
            description: text_of(self.description),
            parameters: json_of(self.parameters),
        }
    }
}

/// A request to the Chat Completions API.
#[derive(Debug, PartialEq)]
pub struct ChatCompletionRequest {
    pub model: String,
    pub messages: Vec<ChatMessage>,
    pub max_tokens: Option<u32>,
    pub temperature: Option<serde_json::Value>,
    pub top_p: Option<serde_json::Value>,
    pub response_format: Option<serde_json::Value>,
    pub tools: Option<Vec<ChatTool>>,
    pub tool_choice: Option<serde_json::Value>,
    pub parallel_tool_calls: Option<bool>,
    pub user: Option<String>,
    pub logprobs: Option<bool>,
    pub top_logprobs: Option<u32>,
    pub stream: bool,
    pub stop: Option<serde_json::Value>,
    pub frequency_penalty: Option<serde_json::Value>,
    pub presence_penalty: Option<serde_json::Value>,
    pub seed: Option<i64>,
    pub logit_bias: Option<serde_json::Value>,
    pub metadata: Option<serde_json::Value>,
    pub service_tier: Option<String>,
    pub store: Option<bool>,
    pub n: Option<u32>,
    pub stream_options: Option<serde_json::Value>,
    pub max_completion_tokens: Option<u32>,
    pub modalities: Option<Vec<String>>,
    pub prediction: Option<serde_json::Value>,
    pub reasoning_effort: Option<String>,
    pub verbosity: Option<String>,
    pub safety_identifier: Option<String>,
    pub prompt_cache_key: Option<String>,
    pub web_search_options: Option<serde_json::Value>,
    pub function_call: Option<serde_json::Value>,
    pub functions: Option<Vec<serde_json::Value>>,
}

/// What a `ChatCompletionRequest` holds.
#[verifier::ext_equal]
pub struct ChatCompletionRequestView {
    pub model: Seq<char>,
    pub messages: Seq<ChatMessageView>,
    pub max_tokens: Option<u32>,
    pub temperature: Option<JsonView>,
    pub top_p: Option<JsonView>,
    pub response_format: Option<JsonView>,
    pub tools: Option<Seq<ChatToolView>>,
    pub tool_choice: Option<JsonView>,
    pub parallel_tool_calls: Option<bool>,
    pub user: Option<Seq<char>>,
    pub logprobs: Option<bool>,
    pub top_logprobs: Option<u32>,
    pub stream: bool,
    pub stop: Option<JsonView>,
    pub frequency_penalty: Option<JsonView>,
    pub presence_penalty: Option<JsonView>,
    pub seed: Option<i64>,
    pub logit_bias: Option<JsonView>,
    pub metadata: Option<JsonView>,
    pub service_tier: Option<Seq<char>>,
    pub store: Option<bool>,
    pub n: Option<u32>,
    pub stream_options: Option<JsonView>,
    pub max_completion_tokens: Option<u32>,
    pub modalities: Option<Seq<Seq<char>>>,
    pub prediction: Option<JsonView>,
    pub reasoning_effort: Option<Seq<char>>,
    pub verbosity: Option<Seq<char>>,
    pub safety_identifier: Option<Seq<char>>,
    pub prompt_cache_key: Option<Seq<char>>,
    pub web_search_options: Option<JsonView>,
    pub function_call: Option<JsonView>,
    pub functions: Option<Seq<JsonView>>,
}

impl View for ChatCompletionRequest {
    type V = ChatCompletionRequestView;

    open spec fn view(&self) -> ChatCompletionRequestView {
        ChatCompletionRequestView {
            model: self.model@,
            messages: chat_messages(self.messages@),
            max_tokens: self.max_tokens,
            temperature: json_of(self.temperature),
            top_p: json_of(self.top_p),
            response_format: json_of(self.response_format),
            tools: tools_of(self.tools),
            tool_choice: json_of(self.tool_choice),
            parallel_tool_calls: self.parallel_tool_calls,
            user: text_of(self.user),
            logprobs: self.logprobs,
            top_logprobs: self.top_logprobs,
            stream: self.stream,
            stop: json_of(self.stop),
            frequency_penalty: json_of(self.frequency_penalty),
            presence_penalty: json_of(self.presence_penalty),
            seed: self.seed,
            logit_bias: json_of(self.logit_bias),
            metadata: json_of(self.metadata),
            service_tier: text_of(self.service_tier),
            store: self.store,
            n: self.n,
            stream_options: json_of(self.stream_options),
            max_completion_tokens: self.max_completion_tokens,
            modalities: texts_of(self.modalities),
            prediction: json_of(self.prediction),
            reasoning_effort: text_of(self.reasoning_effort),
            verbosity: text_of(self.verbosity),
            safety_identifier: text_of(self.safety_identifier),
            prompt_cache_key: text_of(self.prompt_cache_key),
            web_search_options: json_of(self.web_search_options),
            function_call: json_of(self.function_call),
            functions: jsons_of(self.functions),
        }
    }
}

/// What a string holds, where there is one.
pub open spec fn text_of(string: Option<String>) -> Option<Seq<char>> {
    match string {
        Some(string) => Some(string@),
        None => None,
    }
}

/// What each of several strings holds, where there are any to speak of.
pub open spec fn texts_of(strings: Option<Vec<String>>) -> Option<Seq<Seq<char>>> {
    match strings {
        Some(strings) => Some(texts(strings@)),
        None => None,
    }
}

/// What each of several messages holds.
pub open spec fn chat_messages(messages: Seq<ChatMessage>) -> Seq<ChatMessageView> {
    messages.map_values(|message: ChatMessage| message@)
}

/// What each of several tools holds.
pub open spec fn chat_tools(tools: Seq<ChatTool>) -> Seq<ChatToolView> {
    tools.map_values(|tool: ChatTool| tool@)
}

/// What each of several tools holds, where there are any to speak of.
pub open spec fn tools_of(tools: Option<Vec<ChatTool>>) -> Option<Seq<ChatToolView>> {
    match tools {
        Some(tools) => Some(chat_tools(tools@)),
        None => None,
    }
}

} // verus!
