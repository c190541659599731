//! The messages of a chat, made of the items of an input one after the other.
use std::collections::VecDeque;
use vstd::prelude::*;

use crate::call_ids::{
    after_call, after_output, call_id_for, call_ids, makes_call_id, makes_output_id, no_ids, normalize_tool_call_id,
    normalize_tool_output_call_id, output_id_for, CallIdsView,
};
use crate::content::{
    content_error, content_json, content_reasoning, convert_response_content, extract_tool_message_body, tool_body,
    tool_body_error,
};
use crate::json::{
    json, jsons, member, member_in, object_value, parse_json, parsed_json, text_in, text_value, JsonView,
};
use crate::models::{chat_messages, Attachment, ChatMessage, ChatMessageView, ResponseContent, ResponseInputItem};
use crate::text::{join_lines, joined, same_text, texts};

verus! {

/// The role that a chat knows a role by.
pub open spec fn chat_role(role: Seq<char>) -> Seq<char> {
    if role == "developer"@ {
        "system"@
    } else {
        role
    }
}

/// Gives a role the name that a chat knows it by.
pub fn normalize_chat_role(role: &str) -> (normalized: String)
    ensures
        normalized@ == chat_role(role@),
        role@ == "developer"@ ==> normalized@ == "system"@,
        role@ != "developer"@ ==> normalized@ == role@,
{
    if same_text(role, "developer") {
        // The Responses API has developers; not every Chat Completions API takes them.
        "system".to_string()
    } else {
        role.to_string()
    }
}

/// A message under the role that a chat knows it by.
pub open spec fn with_chat_role(message: ChatMessageView) -> ChatMessageView {
    ChatMessageView { role: chat_role(message.role), ..message }
}

/// Gives the role of a message the name that a chat knows it by.
pub fn normalize_chat_message_role(message: ChatMessage) -> (normalized: ChatMessage)
    ensures
        normalized@ == with_chat_role(message@),
        normalized.content == message.content,
        normalized.tool_calls == message.tool_calls,
        normalized.tool_call_id == message.tool_call_id,
        message.role@ == "developer"@ ==> normalized.role@ == "system"@,
        message.role@ != "developer"@ ==> normalized.role@ == message.role@,
{
    let mut normalized = message;
    normalized.role = normalize_chat_role(normalized.role.as_str());
    normalized
}

/// A message that says something and calls no tool.
pub open spec fn plain_message(role: Seq<char>, content: JsonView) -> ChatMessageView {
    ChatMessageView { role, content: Some(content), tool_calls: None, tool_call_id: None }
}

/// A message with the output of a tool call.
pub open spec fn tool_message(id: Seq<char>, text: Seq<char>) -> ChatMessageView {
    ChatMessageView {
        role: "tool"@,
        content: Some(JsonView::Text(text)),
        tool_calls: None,
        tool_call_id: Some(id),
    }
}

/// A message of the assistant that only calls tools.
pub open spec fn calling_message(tool_calls: Seq<JsonView>) -> ChatMessageView {
    ChatMessageView { role: "assistant"@, content: None, tool_calls: Some(tool_calls), tool_call_id: None }
}

/// The function of a tool call.
pub open spec fn called_function_json(name: Seq<char>, arguments: Seq<char>) -> JsonView {
    JsonView::Object(map!["name"@ => JsonView::Text(name), "arguments"@ => JsonView::Text(arguments)])
}

/// A tool call.
pub open spec fn tool_call_json(id: Seq<char>, name: Seq<char>, arguments: Seq<char>) -> JsonView {
    JsonView::Object(
        map![
            "id"@ => JsonView::Text(id),
            "type"@ => JsonView::Text("function"@),
            "function"@ => called_function_json(name, arguments),
        ],
    )
}

/// Whether JSON is an object with a text under `output`.
pub open spec fn wraps_output(value: JsonView) -> bool {
    value is Object && value->Object_0.contains_key("output"@) && value->Object_0["output"@] is Text
}

/// What a tool gave out. Where its output is a JSON object with a text under `output`, it is that
/// text, else the output as it stands.
pub open spec fn unwrapped_output(output: Seq<char>, parsed: Option<JsonView>) -> Seq<char> {
    match parsed {
        Some(value) => match member_in(value, "output"@) {
            Some(inner) => match text_in(inner) {
                Some(text) => text,
                None => output,
            },
            None => output,
        },
        None => output,
    }
}

/// Where the making of a chat has got to.
#[verifier::ext_equal]
pub struct TranscriptView {
    /// The messages so far.
    pub messages: Seq<ChatMessageView>,
    /// The reasoning that waits for a message of the assistant.
    pub reasoning: Seq<Seq<char>>,
    /// The tool calls that wait for a message to stand in.
    pub tool_calls: Seq<JsonView>,
    /// The ids of the tool calls.
    pub ids: CallIdsView,
}

/// A chat of which nothing was made yet.
pub open spec fn empty_transcript() -> TranscriptView {
    TranscriptView { messages: Seq::empty(), reasoning: Seq::empty(), tool_calls: Seq::empty(), ids: no_ids() }
}

/// A chat in which the tool calls that waited stand in a message.
pub open spec fn flushed(chat: TranscriptView) -> TranscriptView {
    if chat.tool_calls.len() == 0 {
        chat
    } else {
        TranscriptView {
            messages: chat.messages.push(calling_message(chat.tool_calls)),
            tool_calls: Seq::empty(),
            ..chat
        }
    }
}

/// A chat after the output of a tool. The calls that waited come before it.
pub open spec fn after_tool_output(chat: TranscriptView, id: Seq<char>, text: Seq<char>) -> TranscriptView {
    let told = flushed(chat);
    TranscriptView {
        messages: told.messages.push(tool_message(output_id_for(id, chat.ids), text)),
        ids: after_output(id, chat.ids),
        ..told
    }
}

/// The reasoning that waits once a message was read: that in its content comes last.
pub open spec fn gathered_reasoning(chat: TranscriptView, content: ResponseContent) -> Seq<Seq<char>> {
    match content_reasoning(content) {
        Some(reasoning) => chat.reasoning.push(reasoning),
        None => chat.reasoning,
    }
}

/// What the assistant said, with its reasoning before it in a `think` element. With reasoning, a
/// content that is no text is left out.
pub open spec fn with_reasoning(value: JsonView, reasoning: Seq<Seq<char>>) -> JsonView {
    if reasoning.len() == 0 {
        value
    } else {
        JsonView::Text(
            "<think>"@ + joined(reasoning) + "</think>\n"@ + match text_in(value) {
                Some(text) => text,
                None => ""@,
            },
        )
    }
}

/// A chat after a message that is not a tool's. One of the assistant takes up the reasoning and the
/// tool calls that wait.
pub open spec fn after_message(chat: TranscriptView, role: Seq<char>, content: ResponseContent) -> TranscriptView {
    let reasoning = gathered_reasoning(chat, content);
    if role == "assistant"@ {
        TranscriptView {
            messages: chat.messages.push(
                ChatMessageView {
                    role: chat_role(role),
                    content: Some(with_reasoning(content_json(content), reasoning)),
                    tool_calls: if chat.tool_calls.len() == 0 {
                        None
                    } else {
                        Some(chat.tool_calls)
                    },
                    tool_call_id: None,
                },
            ),
            reasoning: Seq::empty(),
            tool_calls: Seq::empty(),
            ids: chat.ids,
        }
    } else {
        TranscriptView {
            messages: chat.messages.push(plain_message(chat_role(role), content_json(content))),
            reasoning,
            ..chat
        }
    }
}

/// A chat after a tool call.
pub open spec fn after_function_call(
    chat: TranscriptView,
    id: Seq<char>,
    name: Seq<char>,
    arguments: Seq<char>,
) -> TranscriptView {
    TranscriptView {
        tool_calls: chat.tool_calls.push(tool_call_json(call_id_for(id, chat.ids), name, arguments)),
        ids: after_call(id, chat.ids),
        ..chat
    }
}

/// Whether files are attached.
pub open spec fn has_attachments(attachments: Option<Vec<Attachment>>) -> bool {
    attachments is Some && attachments->0.len() > 0
}

/// Why an item cannot be converted, if it cannot.
pub open spec fn item_error(item: ResponseInputItem) -> Option<Seq<char>> {
    match item {
        ResponseInputItem::Message { role, content, tool_call_id, attachments } => if has_attachments(attachments) {
            Some("attachments_not_supported"@)
        } else if role@ != "tool"@ {
            content_error(content)
        } else if tool_call_id is None {
            Some("tool_message_missing_tool_call_id"@)
        } else {
            tool_body_error(content)
        },
        _ => None,
    }
}

/// Whether an id is made for an item.
pub open spec fn makes_id(item: ResponseInputItem, pending: Seq<Seq<char>>) -> bool {
    match item {
        ResponseInputItem::Message { role, content, tool_call_id, attachments } => {
            &&& !has_attachments(attachments)
            &&& role@ == "tool"@
            &&& tool_call_id is Some
            &&& makes_output_id(tool_call_id->0@, pending)
        },
        ResponseInputItem::FunctionCall { call_id, name, arguments } => makes_call_id(call_id@),
        ResponseInputItem::FunctionCallOutput { call_id, output } => makes_output_id(call_id@, pending),
        _ => false,
    }
}

/// A chat after an item that can be converted.
pub open spec fn after_item(chat: TranscriptView, item: ResponseInputItem) -> TranscriptView {
    match item {
        ResponseInputItem::Message { role, content, tool_call_id, attachments } => if role@ == "tool"@ {
            after_tool_output(chat, tool_call_id->0@, tool_body(content))
        } else {
            after_message(chat, role@, content)
        },
        ResponseInputItem::FunctionCall { call_id, name, arguments } => after_function_call(
            chat,
            call_id@,
            name@,
            arguments@,
        ),
        ResponseInputItem::FunctionCallOutput { call_id, output } => after_tool_output(
            chat,
            call_id@,
            unwrapped_output(output@, parsed_json(output@)),
        ),
        ResponseInputItem::Reasoning { text, encrypted_content } => match text {
            Some(text) => TranscriptView { reasoning: chat.reasoning.push(text@), ..chat },
            None => chat,
        },
        ResponseInputItem::ItemReference { id } => chat,
    }
}

/// A chat after a number of items.
pub open spec fn after_items(chat: TranscriptView, items: Seq<ResponseInputItem>) -> TranscriptView
    decreases items.len(),
{
    if items.len() == 0 {
        chat
    } else {
        after_item(after_items(chat, items.drop_last()), items.last())
    }
}

/// Why items cannot be converted, if they cannot: the error of the first that has one.
pub open spec fn items_error(items: Seq<ResponseInputItem>) -> Option<Seq<char>>
    decreases items.len(),
{
    if items.len() == 0 {
        None
    } else {
        match items_error(items.drop_last()) {
            Some(error) => Some(error),
            None => item_error(items.last()),
        }
    }
}

/// The messages that items become. Tool calls that still wait in the end stand in a last message;
/// reasoning that still waits is left out.
pub open spec fn items_messages(items: Seq<ResponseInputItem>) -> Seq<ChatMessageView> {
    flushed(after_items(empty_transcript(), items)).messages
}

/// The making of a chat.
pub struct Transcript {
    pub messages: Vec<ChatMessage>,
    pub reasoning: Vec<String>,
    pub tool_calls: Vec<serde_json::Value>,
    pub pending_call_ids: VecDeque<String>,
    pub next_call_id: usize,
}

impl View for Transcript {
    type V = TranscriptView;

    open spec fn view(&self) -> TranscriptView {
        TranscriptView {
            messages: chat_messages(self.messages@),
            reasoning: texts(self.reasoning@),
            tool_calls: jsons(self.tool_calls@),
            ids: call_ids(self.pending_call_ids, self.next_call_id),
        }
    }
}

/// Adds a message to a list of them.
fn add_message(messages: &mut Vec<ChatMessage>, message: ChatMessage)
    ensures
        chat_messages(final(messages)@) == chat_messages(old(messages)@).push(message@),
{
    messages.push(message);
    proof {
        assert(chat_messages(messages@) =~= chat_messages(old(messages)@).push(message@));
    }
}

/// Puts the tool calls that wait into a message of the assistant.
pub fn flush_pending_tool_calls(messages: &mut Vec<ChatMessage>, pending_tool_calls: &mut Vec<serde_json::Value>)
    ensures
        final(pending_tool_calls)@.len() == 0,
        chat_messages(final(messages)@) == if old(pending_tool_calls)@.len() == 0 {
            chat_messages(old(messages)@)
        } else {
            chat_messages(old(messages)@).push(calling_message(jsons(old(pending_tool_calls)@)))
        },
{
    if pending_tool_calls.is_empty() {
        return;
    }
    let mut tool_calls: Vec<serde_json::Value> = Vec::new();
    std::mem::swap(&mut tool_calls, pending_tool_calls);
    add_message(
        messages,
        ChatMessage {
            role: "assistant".to_string(),
            content: None,
            tool_calls: Some(tool_calls),
            tool_call_id: None,
        },
    );
}

/// Makes a tool call.
pub fn tool_call(id: String, name: String, arguments: String) -> (value: serde_json::Value)
    ensures
        json(value) == tool_call_json(id@, name@, arguments@),
{
    let mut function = serde_json::Map::new();
    let _ = function.insert("name".to_string(), text_value(name));
    let _ = function.insert("arguments".to_string(), text_value(arguments));
    let mut call = serde_json::Map::new();
    let _ = call.insert("id".to_string(), text_value(id));
    let _ = call.insert("type".to_string(), text_value("function".to_string()));
    let _ = call.insert("function".to_string(), object_value(function));
    object_value(call)
}

/// What a tool gave out, of an output that was read as JSON, or could not be.
pub fn output_text(output: &str, parsed: Option<&serde_json::Value>) -> (text: String)
    ensures
        text@ == unwrapped_output(
            output@,
            match parsed {
                Some(value) => Some(json(*value)),
                None => None,
            },
        ),
        parsed is Some && wraps_output(json(*parsed->0)) ==> json(*parsed->0)->Object_0["output"@] == JsonView::Text(
            text@,
        ),
        parsed is Some && !wraps_output(json(*parsed->0)) ==> text@ == output@,
        parsed is None ==> text@ == output@,
{
    if let Some(value) = parsed {
        if let Some(inner) = member(value, "output") {
            if let Some(text) = inner.as_str() {
                return text.to_string();
            }
        }
    }
    output.to_string()
}

/// What a tool gave out.
pub fn unwrap_output(output: &str) -> (text: String)
    ensures
        text@ == unwrapped_output(output@, parsed_json(output@)),
        parsed_json(output@) is Some && wraps_output(parsed_json(output@)->0) ==> parsed_json(
            output@,
        )->0->Object_0["output"@] == JsonView::Text(text@),
        parsed_json(output@) is Some && !wraps_output(parsed_json(output@)->0) ==> text@ == output@,
        parsed_json(output@) is None ==> text@ == output@,
{
    match parse_json(output) {
        Ok(value) => output_text(output, Some(&value)),
        Err(_) => output_text(output, None),
    }
}

impl Transcript {
    /// Starts a chat.
    pub fn new() -> (chat: Self)
        ensures
            chat@ == empty_transcript(),
            chat.next_call_id == 0,
    {
        let chat = Transcript {
            messages: Vec::new(),
            reasoning: Vec::new(),
            tool_calls: Vec::new(),
            pending_call_ids: VecDeque::new(),
            next_call_id: 0,
        };
        proof {
            assert(chat@ =~= empty_transcript());
        }
        chat
    }

    /// Adds the output of a tool.
    pub fn push_tool_output(self, call_id: &str, text: String) -> (chat: Self)
        requires
            makes_output_id(call_id@, self@.ids.pending) ==> self.next_call_id < usize::MAX,
        ensures
            chat@ == after_tool_output(self@, call_id@, text@),
    {
        let mut chat = self;
        flush_pending_tool_calls(&mut chat.messages, &mut chat.tool_calls);
        let id = normalize_tool_output_call_id(call_id, &mut chat.pending_call_ids, &mut chat.next_call_id);
        add_message(
            &mut chat.messages,
            ChatMessage {
                role: "tool".to_string(),
                content: Some(text_value(text)),
                tool_calls: None,
                tool_call_id: Some(id),
            },
        );
        proof {
            assert(chat@ =~= after_tool_output(self@, call_id@, text@));
        }
        chat
    }

    /// Adds a tool call.
    pub fn push_function_call(self, call_id: &str, name: &String, arguments: &String) -> (chat: Self)
        requires
            makes_call_id(call_id@) ==> self.next_call_id < usize::MAX,
        ensures
            chat@ == after_function_call(self@, call_id@, name@, arguments@),
    {
        let mut chat = self;
        let id = normalize_tool_call_id(call_id, &mut chat.pending_call_ids, &mut chat.next_call_id);
        chat.tool_calls.push(tool_call(id, name.clone(), arguments.clone()));
        proof {
            assert(chat@ =~= after_function_call(self@, call_id@, name@, arguments@));
        }
        chat
    }

    /// Adds a reasoning, which waits for a message of the assistant.
    pub fn push_reasoning(self, text: String) -> (chat: Self)
        ensures
            chat@ == (TranscriptView { reasoning: self@.reasoning.push(text@), ..self@ }),
    {
        let mut chat = self;
        chat.reasoning.push(text);
        proof {
            assert(texts(chat.reasoning@) =~= texts(self.reasoning@).push(text@));
        }
        chat
    }

    /// Adds a message that is not a tool's.
    pub fn push_message(self, role: &str, content: &ResponseContent) -> (pushed: Result<Self, String>)
        ensures
            match pushed {
                Ok(chat) => content_error(*content) is None && chat@ == after_message(self@, role@, *content),
                Err(error) => content_error(*content) == Some(error@),
            },
    {
        match convert_response_content(content) {
            Ok((value, reasoning)) => {
                let chat = match reasoning {
                    Some(text) => self.push_reasoning(text),
                    None => self,
                };
                Ok(chat.push_converted(role, value))
            },
            Err(error) => Err(error),
        }
    }

    /// Adds a message whose content was converted.
    fn push_converted(self, role: &str, value: serde_json::Value) -> (chat: Self)
        ensures
            chat@ == if role@ == "assistant"@ {
                TranscriptView {
                    messages: self@.messages.push(
                        ChatMessageView {
                            role: chat_role(role@),
                            content: Some(with_reasoning(json(value), self@.reasoning)),
                            tool_calls: if self@.tool_calls.len() == 0 {
                                None
                            } else {
                                Some(self@.tool_calls)
                            },
                            tool_call_id: None,
                        },
                    ),
                    reasoning: Seq::empty(),
                    tool_calls: Seq::empty(),
                    ids: self@.ids,
                }
            } else {
                TranscriptView { messages: self@.messages.push(plain_message(chat_role(role@), json(value))), ..self@ }
            },
    {
        let mut chat = self;
        let mut value = value;
        let mut tool_calls: Option<Vec<serde_json::Value>> = None;
        if same_text(role, "assistant") {
            if !chat.reasoning.is_empty() {
                let mut combined = "<think>".to_string();
                combined.append(join_lines(&chat.reasoning).as_str());
                combined.append("</think>\n");
                combined.append(value.as_str().unwrap_or(""));
                value = text_value(combined);
                chat.reasoning.clear();
            }
            if !chat.tool_calls.is_empty() {
                let mut calls: Vec<serde_json::Value> = Vec::new();
                std::mem::swap(&mut calls, &mut chat.tool_calls);
                tool_calls = Some(calls);
            }
        }
        add_message(
            &mut chat.messages,
            ChatMessage { role: normalize_chat_role(role), content: Some(value), tool_calls, tool_call_id: None },
        );
        proof {
            if role@ == "assistant"@ {
                assert(chat@.reasoning =~= Seq::empty());
                assert(chat@.tool_calls =~= Seq::empty());
            }
        }
        chat
    }

    /// Adds an item.
    pub fn push_item(self, item: &ResponseInputItem) -> (pushed: Result<Self, String>)
        requires
            makes_id(*item, self@.ids.pending) ==> self.next_call_id < usize::MAX,
        ensures
            match pushed {
                Ok(chat) => {
                    &&& item_error(*item) is None
                    &&& chat@ == after_item(self@, *item)
                    &&& chat.next_call_id <= self.next_call_id + 1
                },
                Err(error) => item_error(*item) == Some(error@),
            },
    {
        match item {
            ResponseInputItem::Message { role, content, tool_call_id, attachments } => {
                if let Some(attached) = attachments {
                    if !attached.is_empty() {
                        return Err("attachments_not_supported".to_string());
                    }
                }
                if !same_text(role.as_str(), "tool") {
                    return self.push_message(role.as_str(), content);
                }
                match tool_call_id {
                    Some(call_id) => match extract_tool_message_body(content) {
                        Ok(text) => Ok(self.push_tool_output(call_id.as_str(), text)),
                        Err(error) => Err(error),
                    },
                    None => Err("tool_message_missing_tool_call_id".to_string()),
                }
            },
            ResponseInputItem::FunctionCall { call_id, name, arguments } => Ok(
                self.push_function_call(call_id.as_str(), name, arguments),
            ),
            ResponseInputItem::FunctionCallOutput { call_id, output } => {
                let text = unwrap_output(output.as_str());
                Ok(self.push_tool_output(call_id.as_str(), text))
            },
            ResponseInputItem::Reasoning { text, encrypted_content } => match text {
                Some(text) => Ok(self.push_reasoning(text.clone())),
                // Reasoning that only its maker can read is of no use here.
                None => Ok(self),
            },
            // Nothing is kept between requests that an item could refer to.
            ResponseInputItem::ItemReference { id } => Ok(self),
        }
    }

    /// Ends a chat.
    pub fn finish(self) -> (messages: Vec<ChatMessage>)
        ensures
            chat_messages(messages@) == flushed(self@).messages,
    {
        let mut chat = self;
        flush_pending_tool_calls(&mut chat.messages, &mut chat.tool_calls);
        chat.messages
    }
}

/// Converts the items of an input to the messages of a chat.
pub fn convert_input_items(items: &Vec<ResponseInputItem>) -> (converted: Result<Vec<ChatMessage>, String>)
    ensures
        match converted {
            Ok(messages) => items_error(items@) is None && chat_messages(messages@) == items_messages(items@),
            Err(error) => items_error(items@) == Some(error@),
        },
{
    let mut chat = Transcript::new();
    let mut i: usize = 0;
    proof {
        assert(items@.take(0) =~= Seq::empty());
    }
    while i < items.len()
        invariant
            i <= items.len(),
            chat.next_call_id <= i,
            items_error(items@.take(i as int)) is None,
            chat@ == after_items(empty_transcript(), items@.take(i as int)),
        decreases items.len() - i,
    {
        proof {
            assert(items@.take(i + 1).drop_last() =~= items@.take(i as int));
        }
        match chat.push_item(&items[i]) {
            Ok(next) => {
                chat = next;
            },
            Err(error) => {
                proof {
                    lemma_first_error(items@, i as int);
                }
                return Err(error);
            },
        }
        i = i + 1;
    }
    proof {
        assert(items@.take(items@.len() as int) =~= items@);
    }
    Ok(chat.finish())
}

/// Once an item has an error, the error of more items is that of those up to it.
proof fn lemma_first_error(items: Seq<ResponseInputItem>, i: int)
    requires
        0 <= i < items.len(),
        items_error(items.take(i + 1)) is Some,
    ensures
        items_error(items) == items_error(items.take(i + 1)),
    decreases items.len(),
{
    if i + 1 == items.len() {
        assert(items.take(i + 1) =~= items);
    } else {
        assert(items.drop_last().take(i + 1) =~= items.take(i + 1));
        lemma_first_error(items.drop_last(), i);
    }
}

} // verus!
