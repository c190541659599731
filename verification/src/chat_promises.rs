//! What is promised of the messages of a chat, said of the items that they are made of.
use vstd::prelude::*;

use crate::call_ids::{after_call, after_output, call_id_for, no_ids, output_id_for};
use crate::content::{content_error, content_json, content_reasoning, tool_body_error};
use crate::json::{parsed_json, JsonView};
use crate::laws::law_messages_only_added;
use crate::models::{ChatMessage, ChatMessageView, ResponseInputItem};
use crate::promises::{all_said, law_tool_parts};
use crate::text::{joined, stacked};
use crate::transcript::{
    after_item, after_items, chat_role, empty_transcript, flushed, gathered_reasoning, item_error, items_messages,
    with_chat_role, TranscriptView,
};

verus! {

/// The messages up to those of an item are the first of all messages.
proof fn lemma_first_messages(items: Seq<ResponseInputItem>, i: int)
    requires
        0 <= i < items.len(),
    ensures
        after_items(empty_transcript(), items.take(i + 1)).messages.is_prefix_of(items_messages(items)),
        after_items(empty_transcript(), items.take(i + 1)) == after_item(
            after_items(empty_transcript(), items.take(i)),
            items[i],
        ),
{
    assert(items.take(i + 1).drop_last() =~= items.take(i));
    law_messages_only_added(empty_transcript(), items, i + 1);
}

/// A developer is a system to a chat, and anyone else is who they are.
pub proof fn law_roles_named(role: Seq<char>, message: ChatMessageView)
    ensures
        role == "developer"@ ==> chat_role(role) == "system"@,
        role != "developer"@ ==> chat_role(role) == role,
        with_chat_role(message).content == message.content,
        with_chat_role(message).tool_calls == message.tool_calls,
        with_chat_role(message).tool_call_id == message.tool_call_id,
        message.role == "developer"@ ==> with_chat_role(message).role == "system"@,
        message.role != "developer"@ ==> with_chat_role(message).role == message.role,
{
}

/// A message that is given its role anew keeps its content, its tool calls and its id, whatever its
/// role is.
pub proof fn law_message_kept(message: ChatMessage, normalized: ChatMessage)
    requires
        normalized@ == with_chat_role(message@),
    ensures
        normalized@.content == message@.content,
        normalized@.tool_calls == message@.tool_calls,
        normalized@.tool_call_id == message@.tool_call_id,
        message.role@ == "developer"@ ==> normalized.role@ == "system"@,
        message.role@ != "developer"@ ==> normalized.role@ == message.role@,
{
    assert(message@.role == message.role@);
    assert(normalized@.role == normalized.role@);
}

// Where a chat starts and ends.

/// A chat starts with nothing, takes one item after the other, and in the end tells the calls that
/// still wait, if there are any, in a message of their own.
pub proof fn law_items_one_by_one(chat: TranscriptView, items: Seq<ResponseInputItem>, item: ResponseInputItem)
    ensures
        after_items(chat, Seq::empty()) == chat,
        after_items(chat, items.push(item)) == after_item(after_items(chat, items), item),
        empty_transcript().messages.len() == 0,
        empty_transcript().reasoning.len() == 0,
        empty_transcript().tool_calls.len() == 0,
        empty_transcript().ids == no_ids(),
        ({
            let end = after_items(empty_transcript(), items);
            &&& end.tool_calls.len() == 0 ==> items_messages(items) == end.messages
            &&& end.tool_calls.len() > 0 ==> items_messages(items) == end.messages + seq![
                ChatMessageView {
                    role: "assistant"@,
                    content: None,
                    tool_calls: Some(end.tool_calls),
                    tool_call_id: None,
                },
            ]
        }),
{
    assert(items.push(item).drop_last() =~= items);
    let end = after_items(empty_transcript(), items);
    if end.tool_calls.len() > 0 {
        assert(items_messages(items) =~= end.messages + seq![
            ChatMessageView {
                role: "assistant"@,
                content: None,
                tool_calls: Some(end.tool_calls),
                tool_call_id: None,
            },
        ]);
    }
}

/// The calls that wait are told in a message of the assistant that says nothing; where none waits, there
/// is no such message. Nothing else changes.
pub proof fn law_waiting_calls_told(chat: TranscriptView)
    ensures
        chat.tool_calls.len() == 0 ==> flushed(chat) == chat,
        chat.tool_calls.len() > 0 ==> {
            let message = flushed(chat).messages.last();
            &&& flushed(chat).messages.drop_last() == chat.messages
            &&& message.role == "assistant"@
            &&& message.content is None
            &&& message.tool_calls == Some(chat.tool_calls)
            &&& message.tool_call_id is None
        },
        flushed(chat).tool_calls.len() == 0,
        flushed(chat).reasoning == chat.reasoning,
        flushed(chat).ids == chat.ids,
{
    if chat.tool_calls.len() > 0 {
        assert(flushed(chat).messages.drop_last() =~= chat.messages);
    }
}

// Outputs.

/// Whether an item is the output of a tool with an id, which may be blank.
pub open spec fn is_output(item: ResponseInputItem) -> bool {
    ||| item is FunctionCallOutput
    ||| item is Message && item->role@ == "tool"@ && item->tool_call_id is Some
}

/// The id that an output came with.
pub open spec fn output_came_with(item: ResponseInputItem) -> Seq<char> {
    match item {
        ResponseInputItem::FunctionCallOutput { call_id, output } => call_id@,
        ResponseInputItem::Message { role, content, tool_call_id, attachments } => tool_call_id->0@,
        _ => Seq::empty(),
    }
}

/// An output tells first the calls that wait, if there are any, in a message that only calls, and then
/// itself, under its id; the reasoning that waits goes on waiting.
pub proof fn law_output_step(chat: TranscriptView, item: ResponseInputItem)
    requires
        is_output(item),
    ensures
        ({
            let after = after_item(chat, item);
            let told = after.messages.drop_last();
            let message = after.messages.last();
            &&& chat.tool_calls.len() == 0 ==> told == chat.messages
            &&& chat.tool_calls.len() > 0 ==> told == chat.messages + seq![
                ChatMessageView {
                    role: "assistant"@,
                    content: None,
                    tool_calls: Some(chat.tool_calls),
                    tool_call_id: None,
                },
            ]
            &&& message.role == "tool"@
            &&& message.tool_calls is None
            &&& message.tool_call_id == Some(output_id_for(output_came_with(item), chat.ids))
            &&& after.tool_calls.len() == 0
            &&& after.reasoning == chat.reasoning
            &&& after.ids == after_output(output_came_with(item), chat.ids)
        }),
{
    let told = after_item(chat, item).messages.drop_last();
    assert(told =~= flushed(chat).messages);
    if chat.tool_calls.len() > 0 {
        assert(told =~= chat.messages + seq![
            ChatMessageView {
                role: "assistant"@,
                content: None,
                tool_calls: Some(chat.tool_calls),
                tool_call_id: None,
            },
        ]);
    }
}

/// An output that reads as a JSON object with a text under `output` is told as that text, all of it; any
/// other output is told as it stands, all of it.
pub proof fn law_function_output_told(items: Seq<ResponseInputItem>, i: int)
    requires
        0 <= i < items.len(),
        items[i] is FunctionCallOutput,
    ensures
        ({
            let output = items[i]->output@;
            let read = parsed_json(output);
            let wraps = read is Some && read->0 is Object && read->0->Object_0.contains_key("output"@)
                && read->0->Object_0["output"@] is Text;
            let upto = after_items(empty_transcript(), items.take(i + 1)).messages;
            &&& upto.len() > 0
            &&& upto.is_prefix_of(items_messages(items))
            &&& upto.last().role == "tool"@
            &&& wraps ==> upto.last().content == Some(read->0->Object_0["output"@])
            &&& !wraps ==> upto.last().content == Some(JsonView::Text(output))
        }),
{
    lemma_first_messages(items, i);
}

/// The message of a tool is told as the text that it is, or as what all its parts say.
pub proof fn law_tool_message_told(items: Seq<ResponseInputItem>, i: int)
    requires
        0 <= i < items.len(),
        items[i] is Message,
        items[i]->role@ == "tool"@,
        item_error(items[i]) is None,
    ensures
        ({
            let content = items[i]->content;
            let upto = after_items(empty_transcript(), items.take(i + 1)).messages;
            &&& upto.len() > 0
            &&& upto.is_prefix_of(items_messages(items))
            &&& upto.last().role == "tool"@
            &&& content is String ==> upto.last().content == Some(JsonView::Text(content->String_0@))
            &&& content is Array ==> upto.last().content == Some(
                JsonView::Text(stacked(all_said(content->Array_0@))),
            )
        }),
{
    lemma_first_messages(items, i);
    if items[i]->content is Array {
        law_tool_parts(items[i]->content->Array_0);
    }
}

// Messages.

/// The reasoning that waits once a message was read.
pub open spec fn reasoning_with(waiting: Seq<Seq<char>>, own: Option<Seq<char>>) -> Seq<Seq<char>> {
    if own is Some {
        waiting + seq![own->0]
    } else {
        waiting
    }
}

/// A message of the assistant is told as it was written where there is no reasoning; else all reasoning
/// stands before its text. The calls that wait stand in it. No reasoning and no call waits after it.
pub proof fn law_assistant_step(chat: TranscriptView, item: ResponseInputItem)
    requires
        item is Message,
        item->role@ == "assistant"@,
    ensures
        ({
            let after = after_item(chat, item);
            let message = after.messages.last();
            let value = content_json(item->content);
            let reasoning = reasoning_with(chat.reasoning, content_reasoning(item->content));
            &&& after.messages.drop_last() == chat.messages
            &&& message.role == "assistant"@
            &&& reasoning.len() == 0 ==> message.content == Some(value)
            &&& reasoning.len() > 0 && value is Text ==> message.content == Some(
                JsonView::Text("<think>"@ + joined(reasoning) + "</think>\n"@ + value->Text_0),
            )
            &&& reasoning.len() > 0 && !(value is Text) ==> message.content == Some(
                JsonView::Text("<think>"@ + joined(reasoning) + "</think>\n"@),
            )
            &&& chat.tool_calls.len() == 0 ==> message.tool_calls is None
            &&& chat.tool_calls.len() > 0 ==> message.tool_calls == Some(chat.tool_calls)
            &&& message.tool_call_id is None
            &&& after.reasoning.len() == 0
            &&& after.tool_calls.len() == 0
            &&& after.ids == chat.ids
        }),
{
    reveal_strlit("assistant");
    reveal_strlit("tool");
    reveal_strlit("developer");
    reveal_strlit("");
    assert("assistant"@.len() != "tool"@.len());
    assert("assistant"@[0] != "developer"@[0]);
    let after = after_item(chat, item);
    let reasoning = reasoning_with(chat.reasoning, content_reasoning(item->content));
    assert(after.messages.drop_last() =~= chat.messages);
    assert(reasoning =~= gathered_reasoning(chat, item->content));
    assert("<think>"@ + joined(reasoning) + "</think>\n"@ + ""@ =~= "<think>"@ + joined(reasoning) + "</think>\n"@);
}

/// A message of anyone else but a tool is told as it was written, under its role. The calls that wait go
/// on waiting, and so does the reasoning, with that of the message behind it.
pub proof fn law_message_step(chat: TranscriptView, item: ResponseInputItem)
    requires
        item is Message,
        item->role@ != "assistant"@,
        item->role@ != "tool"@,
    ensures
        ({
            let after = after_item(chat, item);
            let message = after.messages.last();
            &&& after.messages.drop_last() == chat.messages
            &&& item->role@ == "developer"@ ==> message.role == "system"@
            &&& item->role@ != "developer"@ ==> message.role == item->role@
            &&& message.content == Some(content_json(item->content))
            &&& message.tool_calls is None
            &&& message.tool_call_id is None
            &&& after.reasoning == reasoning_with(chat.reasoning, content_reasoning(item->content))
            &&& after.tool_calls == chat.tool_calls
            &&& after.ids == chat.ids
        }),
{
    let after = after_item(chat, item);
    assert(after.messages.drop_last() =~= chat.messages);
    assert(after.reasoning =~= reasoning_with(chat.reasoning, content_reasoning(item->content)));
}

// Other items.

/// A call waits behind the calls before it, with its id, its name and its arguments, all of them as they
/// came; nothing is told of it yet.
pub proof fn law_call_step(chat: TranscriptView, item: ResponseInputItem)
    requires
        item is FunctionCall,
    ensures
        ({
            let after = after_item(chat, item);
            let id = item->FunctionCall_call_id@;
            &&& after.messages == chat.messages
            &&& after.reasoning == chat.reasoning
            &&& after.tool_calls == chat.tool_calls + seq![
                JsonView::Object(
                    map![
                        "id"@ => JsonView::Text(call_id_for(id, chat.ids)),
                        "type"@ => JsonView::Text("function"@),
                        "function"@ => JsonView::Object(
                            map!["name"@ => JsonView::Text(item->name@), "arguments"@ => JsonView::Text(item->arguments@)],
                        ),
                    ],
                ),
            ]
            &&& after.ids == after_call(id, chat.ids)
        }),
{
    let after = after_item(chat, item);
    let id = item->FunctionCall_call_id@;
    assert(after.tool_calls =~= chat.tool_calls + seq![
        JsonView::Object(
            map![
                "id"@ => JsonView::Text(call_id_for(id, chat.ids)),
                "type"@ => JsonView::Text("function"@),
                "function"@ => JsonView::Object(
                    map!["name"@ => JsonView::Text(item->name@), "arguments"@ => JsonView::Text(item->arguments@)],
                ),
            ],
        ),
    ]);
}

/// Reasoning that can be read waits behind the reasoning before it; reasoning that cannot be read, and a
/// reference, change nothing.
pub proof fn law_reasoning_step(chat: TranscriptView, item: ResponseInputItem)
    requires
        item is Reasoning || item is ItemReference,
    ensures
        ({
            let after = after_item(chat, item);
            &&& after.messages == chat.messages
            &&& after.tool_calls == chat.tool_calls
            &&& after.ids == chat.ids
            &&& item is Reasoning && item->Reasoning_text is Some ==> after.reasoning == chat.reasoning + seq![
                item->Reasoning_text->0@,
            ]
            &&& !(item is Reasoning && item->Reasoning_text is Some) ==> after.reasoning == chat.reasoning
        }),
{
    let after = after_item(chat, item);
    if item is Reasoning && item->Reasoning_text is Some {
        assert(after.reasoning =~= chat.reasoning + seq![item->Reasoning_text->0@]);
    }
}

// Refusals.

/// Only messages are refused: one with a file attached, a tool's without an id or with parts that do not
/// make a text, and any other with a file of which there is nothing to show.
pub proof fn law_item_refused(item: ResponseInputItem)
    ensures
        !(item is Message) ==> item_error(item) is None,
        item is Message ==> {
            let attached = item->attachments is Some && item->attachments->0@.len() > 0;
            let tool = item->role@ == "tool"@;
            &&& attached ==> item_error(item) == Some("attachments_not_supported"@)
            &&& !attached && tool && item->tool_call_id is None ==> item_error(item) == Some(
                "tool_message_missing_tool_call_id"@,
            )
            &&& !attached && tool && item->tool_call_id is Some ==> item_error(item) == tool_body_error(item->content)
            &&& !attached && !tool ==> item_error(item) == content_error(item->content)
        },
{
}

} // verus!
