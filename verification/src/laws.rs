//! What holds of the conversion as a whole.
use vstd::prelude::*;

use crate::call_ids::{
    after_event, after_events, call_id_for, ids_in_order, ids_taken, law_ids_not_blank, law_output_answers_call,
    output_id_for, CallIdsView, IdEvent,
};
use crate::content::{
    content_error, content_json, content_reasoning, empty_file, file_label, has_empty_file, has_image,
    lemma_take_parts, part_json, part_jsons, part_reasoning, part_text, part_texts, tool_body, tool_body_error, tool_part,
    tool_parts_only,
};
use crate::converter::{
    chat_request, function_tools, input_messages, logprob_settings, passed_messages, passthrough_messages,
    request_error, request_tools, stream_options_json, system_instructions, system_messages, tool_guidance,
    TOOL_OVERRIDE_HEADING,
};
use crate::json::{member_in, parsed_json, text_in, JsonView};
use crate::models::{
    ChatMessage, ChatMessageView, ContentPart, ResponseContent, ResponseInput, ResponseInputItem, ResponseRequest,
    ResponseTool,
};
use crate::text::{blank, joined, law_stacked_is_joined};
use crate::transcript::{
    after_item, after_items, after_message, calling_message, chat_role, empty_transcript, flushed, gathered_reasoning,
    has_attachments, item_error, items_error, items_messages, plain_message, tool_call_json, tool_message,
    unwrapped_output, with_reasoning, TranscriptView,
};

verus! {

// Roles.

/// A chat has no role that chats do not know, and a role that they know is kept.
pub proof fn law_chat_role_known(role: Seq<char>)
    ensures
        chat_role(role) != "developer"@,
        chat_role(chat_role(role)) == chat_role(role),
        role != "developer"@ ==> chat_role(role) == role,
{
    reveal_strlit("developer");
    reveal_strlit("system");
    assert("system"@.len() != "developer"@.len());
}

/// Whether no message is a developer's.
pub open spec fn no_developer(messages: Seq<ChatMessageView>) -> bool {
    forall|i: int| 0 <= i < messages.len() ==> (#[trigger] messages[i]).role != "developer"@
}

proof fn lemma_item_no_developer(chat: TranscriptView, item: ResponseInputItem)
    requires
        no_developer(chat.messages),
    ensures
        no_developer(after_item(chat, item).messages),
        no_developer(flushed(chat).messages),
{
    reveal_strlit("developer");
    reveal_strlit("tool");
    reveal_strlit("assistant");
    assert("assistant"@[0] != "developer"@[0]);
    assert("tool"@.len() != "developer"@.len());
    if item is Message {
        law_chat_role_known(item->role@);
    }
}

proof fn lemma_items_no_developer(items: Seq<ResponseInputItem>)
    ensures
        no_developer(after_items(empty_transcript(), items).messages),
    decreases items.len(),
{
    if items.len() > 0 {
        lemma_items_no_developer(items.drop_last());
        lemma_item_no_developer(after_items(empty_transcript(), items.drop_last()), items.last());
    }
}

proof fn lemma_passed_no_developer(messages: Seq<Option<ChatMessage>>)
    ensures
        no_developer(passed_messages(messages)),
    decreases messages.len(),
{
    if messages.len() > 0 {
        lemma_passed_no_developer(messages.drop_last());
        if messages.last() is Some {
            law_chat_role_known(messages.last()->0@.role);
        }
    }
}

/// Whatever a request holds, no message that it becomes is a developer's.
pub proof fn law_no_developer_messages(req: ResponseRequest, supports_native_tools: bool)
    ensures
        no_developer(chat_request(req, supports_native_tools).messages),
{
    reveal_strlit("developer");
    reveal_strlit("system");
    reveal_strlit("user");
    assert("system"@.len() != "developer"@.len());
    assert("user"@.len() != "developer"@.len());
    if req.messages is Some {
        lemma_passed_no_developer(req.messages->0@);
    }
    if req.input is Some && req.input->0 is Array {
        let items = req.input->0->Array_0@;
        lemma_items_no_developer(items);
        lemma_item_no_developer(
            after_items(empty_transcript(), items),
            ResponseInputItem::Reasoning { text: None, encrypted_content: None },
        );
    }
    assert(no_developer(system_messages(req, supports_native_tools)));
    assert(no_developer(passthrough_messages(req)));
    assert(no_developer(input_messages(req)));
}

// Messages are only added.

proof fn lemma_item_adds(chat: TranscriptView, item: ResponseInputItem)
    ensures
        chat.messages.is_prefix_of(after_item(chat, item).messages),
        chat.messages.is_prefix_of(flushed(chat).messages),
{
}

/// What an item adds to a chat stays: the messages of more items start with those of fewer.
pub proof fn law_messages_only_added(chat: TranscriptView, items: Seq<ResponseInputItem>, i: int)
    requires
        0 <= i <= items.len(),
    ensures
        after_items(chat, items.take(i)).messages.is_prefix_of(after_items(chat, items).messages),
    decreases items.len(),
{
    if i == items.len() {
        assert(items.take(i) =~= items);
    } else {
        law_messages_only_added(chat, items.drop_last(), i);
        assert(items.drop_last().take(i) =~= items.take(i));
        lemma_item_adds(after_items(chat, items.drop_last()), items.last());
    }
}

// Tool calls.

/// The tool calls in a message.
pub open spec fn calls_in(message: ChatMessageView) -> Seq<JsonView> {
    match message.tool_calls {
        Some(calls) => calls,
        None => Seq::empty(),
    }
}

/// The tool calls in messages, in their order.
pub open spec fn told_calls(messages: Seq<ChatMessageView>) -> Seq<JsonView>
    decreases messages.len(),
{
    if messages.len() == 0 {
        Seq::empty()
    } else {
        told_calls(messages.drop_last()) + calls_in(messages.last())
    }
}

/// The tool calls that items ask for, in their order, each with the name and the arguments that it
/// came with, and with its id, or the one that was made for it.
pub open spec fn asked_calls(items: Seq<ResponseInputItem>) -> Seq<JsonView>
    decreases items.len(),
{
    if items.len() == 0 {
        Seq::empty()
    } else {
        let before = items.drop_last();
        match items.last() {
            ResponseInputItem::FunctionCall { call_id, name, arguments } => asked_calls(before).push(
                tool_call_json(
                    call_id_for(call_id@, after_items(empty_transcript(), before).ids),
                    name@,
                    arguments@,
                ),
            ),
            _ => asked_calls(before),
        }
    }
}

proof fn lemma_told_push(messages: Seq<ChatMessageView>, message: ChatMessageView)
    ensures
        told_calls(messages.push(message)) == told_calls(messages) + calls_in(message),
{
    assert(messages.push(message).drop_last() =~= messages);
}

/// Putting the calls that wait into a message loses none and makes none.
proof fn lemma_flush_keeps_calls(chat: TranscriptView)
    ensures
        told_calls(flushed(chat).messages) == told_calls(chat.messages) + chat.tool_calls,
        flushed(chat).tool_calls.len() == 0,
{
    lemma_told_push(chat.messages, calling_message(chat.tool_calls));
    assert(told_calls(flushed(chat).messages) =~= told_calls(chat.messages) + chat.tool_calls);
}

proof fn lemma_items_keep_calls(items: Seq<ResponseInputItem>)
    ensures
        ({
            let chat = after_items(empty_transcript(), items);
            told_calls(chat.messages) + chat.tool_calls == asked_calls(items)
        }),
    decreases items.len(),
{
    let after = after_items(empty_transcript(), items);
    if items.len() == 0 {
        assert(told_calls(after.messages) + after.tool_calls =~= asked_calls(items));
    } else {
        let before = after_items(empty_transcript(), items.drop_last());
        lemma_items_keep_calls(items.drop_last());
        lemma_flush_keeps_calls(before);
        match items.last() {
            ResponseInputItem::Message { role, content, tool_call_id, attachments } => {
                if role@ == "tool"@ {
                    lemma_told_push(flushed(before).messages, after.messages.last());
                } else {
                    lemma_told_push(before.messages, after.messages.last());
                }
            },
            ResponseInputItem::FunctionCallOutput { call_id, output } => {
                lemma_told_push(flushed(before).messages, after.messages.last());
            },
            _ => {},
        }
        assert(told_calls(after.messages) + after.tool_calls =~= asked_calls(items));
    }
}

/// Every tool call of the items stands in the messages, once, and in the order of the items; and no
/// other does.
pub proof fn law_tool_calls_kept(items: Seq<ResponseInputItem>)
    ensures
        told_calls(items_messages(items)) == asked_calls(items),
{
    lemma_items_keep_calls(items);
    lemma_flush_keeps_calls(after_items(empty_transcript(), items));
}

/// Whether only the assistant calls tools, and never none.
pub open spec fn assistant_calls(messages: Seq<ChatMessageView>) -> bool {
    forall|i: int|
        0 <= i < messages.len() && (#[trigger] messages[i]).tool_calls is Some ==> messages[i].role == "assistant"@
            && messages[i].tool_calls->0.len() > 0
}

proof fn lemma_items_assistant_calls(items: Seq<ResponseInputItem>)
    ensures
        assistant_calls(after_items(empty_transcript(), items).messages),
        assistant_calls(items_messages(items)),
    decreases items.len(),
{
    reveal_strlit("assistant");
    reveal_strlit("developer");
    assert("assistant"@[0] != "developer"@[0]);
    if items.len() > 0 {
        lemma_items_assistant_calls(items.drop_last());
        assert(assistant_calls(flushed(after_items(empty_transcript(), items.drop_last())).messages));
    }
}

/// Tool calls stand in messages of the assistant only, and no message has an empty list of them.
pub proof fn law_only_assistant_calls(items: Seq<ResponseInputItem>)
    ensures
        assistant_calls(items_messages(items)),
{
    lemma_items_assistant_calls(items);
}

/// Whether an item is the output of a tool.
pub open spec fn gives_output(item: ResponseInputItem) -> bool {
    item is FunctionCallOutput || (item is Message && item->role@ == "tool"@)
}

/// The calls come before the outputs: the messages up to the one with the output of an item hold
/// every tool call of the items before it, and that message is the last of them.
pub proof fn law_calls_before_outputs(items: Seq<ResponseInputItem>, i: int)
    requires
        0 <= i < items.len(),
        gives_output(items[i]),
    ensures
        ({
            let upto = after_items(empty_transcript(), items.take(i + 1)).messages;
            &&& upto.is_prefix_of(items_messages(items))
            &&& upto.len() > 0
            &&& upto.last().role == "tool"@
            &&& told_calls(upto.drop_last()) == asked_calls(items.take(i))
        }),
{
    let before = after_items(empty_transcript(), items.take(i));
    let after = after_items(empty_transcript(), items.take(i + 1));
    assert(items.take(i + 1).drop_last() =~= items.take(i));
    law_messages_only_added(empty_transcript(), items, i + 1);
    lemma_item_adds(after_items(empty_transcript(), items), items[i]);
    lemma_items_keep_calls(items.take(i));
    lemma_flush_keeps_calls(before);
    assert(after.messages.drop_last() =~= flushed(before).messages);
}

// Tool outputs.

/// The output that an item gives: the id that it came with, and its text.
pub open spec fn given_output(item: ResponseInputItem) -> (Seq<char>, Seq<char>) {
    match item {
        ResponseInputItem::Message { role, content, tool_call_id, attachments } => (
            tool_call_id->0@,
            tool_body(content),
        ),
        ResponseInputItem::FunctionCallOutput { call_id, output } => (
            call_id@,
            unwrapped_output(output@, parsed_json(output@)),
        ),
        _ => (Seq::empty(), Seq::empty()),
    }
}

/// The messages of tools that items ask for, in their order.
pub open spec fn asked_outputs(items: Seq<ResponseInputItem>) -> Seq<ChatMessageView>
    decreases items.len(),
{
    if items.len() == 0 {
        Seq::empty()
    } else {
        let before = items.drop_last();
        if gives_output(items.last()) {
            let (id, text) = given_output(items.last());
            asked_outputs(before).push(
                tool_message(output_id_for(id, after_items(empty_transcript(), before).ids), text),
            )
        } else {
            asked_outputs(before)
        }
    }
}

/// The messages of tools among messages, in their order.
pub open spec fn told_outputs(messages: Seq<ChatMessageView>) -> Seq<ChatMessageView>
    decreases messages.len(),
{
    if messages.len() == 0 {
        Seq::empty()
    } else if messages.last().role == "tool"@ {
        told_outputs(messages.drop_last()).push(messages.last())
    } else {
        told_outputs(messages.drop_last())
    }
}

proof fn lemma_told_outputs_push(messages: Seq<ChatMessageView>, message: ChatMessageView)
    ensures
        told_outputs(messages.push(message)) == if message.role == "tool"@ {
            told_outputs(messages).push(message)
        } else {
            told_outputs(messages)
        },
{
    assert(messages.push(message).drop_last() =~= messages);
}

proof fn lemma_flush_keeps_outputs(chat: TranscriptView)
    ensures
        told_outputs(flushed(chat).messages) == told_outputs(chat.messages),
{
    reveal_strlit("assistant");
    reveal_strlit("tool");
    assert("assistant"@.len() != "tool"@.len());
    lemma_told_outputs_push(chat.messages, calling_message(chat.tool_calls));
}

proof fn lemma_role_not_tool(role: Seq<char>)
    requires
        role != "tool"@,
    ensures
        chat_role(role) != "tool"@,
{
    reveal_strlit("system");
    reveal_strlit("tool");
    assert("system"@.len() != "tool"@.len());
}

proof fn lemma_items_keep_outputs(items: Seq<ResponseInputItem>)
    ensures
        told_outputs(after_items(empty_transcript(), items).messages) == asked_outputs(items),
    decreases items.len(),
{
    if items.len() > 0 {
        let before = after_items(empty_transcript(), items.drop_last());
        let after = after_items(empty_transcript(), items);
        lemma_items_keep_outputs(items.drop_last());
        lemma_flush_keeps_outputs(before);
        if gives_output(items.last()) {
            lemma_told_outputs_push(flushed(before).messages, after.messages.last());
        } else if items.last() is Message {
            lemma_role_not_tool(items.last()->role@);
            lemma_told_outputs_push(before.messages, after.messages.last());
        }
    }
}

/// Every output of a tool among the items becomes one message of a tool, in the order of the items;
/// and there is no other message of a tool.
pub proof fn law_tool_outputs_kept(items: Seq<ResponseInputItem>)
    ensures
        told_outputs(items_messages(items)) == asked_outputs(items),
{
    lemma_items_keep_outputs(items);
    lemma_flush_keeps_outputs(after_items(empty_transcript(), items));
}

proof fn lemma_items_ids_in_order(items: Seq<ResponseInputItem>)
    ensures
        ids_in_order(after_items(empty_transcript(), items).ids),
    decreases items.len(),
{
    if items.len() > 0 {
        lemma_items_ids_in_order(items.drop_last());
    }
}

/// Whether a message of a tool says which call it answers, and with what text.
pub open spec fn answers_call(message: ChatMessageView) -> bool {
    &&& message.tool_call_id is Some
    &&& !blank(message.tool_call_id->0)
    &&& message.content is Some
    &&& message.content->0 is Text
}

/// No message of a tool comes without an id, or with a blank one, whatever ids the items have.
pub proof fn law_tool_messages_answer(items: Seq<ResponseInputItem>, i: int)
    requires
        0 <= i < items_messages(items).len(),
        items_messages(items)[i].role == "tool"@,
    ensures
        answers_call(items_messages(items)[i]),
{
    lemma_items_answer(items);
    let chat = after_items(empty_transcript(), items);
    if i >= chat.messages.len() {
        reveal_strlit("assistant");
        reveal_strlit("tool");
        assert("assistant"@.len() != "tool"@.len());
    }
}

proof fn lemma_items_answer(items: Seq<ResponseInputItem>)
    ensures
        forall|i: int|
            0 <= i < after_items(empty_transcript(), items).messages.len() && (#[trigger] after_items(
                empty_transcript(),
                items,
            ).messages[i]).role == "tool"@ ==> answers_call(after_items(empty_transcript(), items).messages[i]),
    decreases items.len(),
{
    if items.len() > 0 {
        let before = after_items(empty_transcript(), items.drop_last());
        lemma_items_answer(items.drop_last());
        lemma_items_ids_in_order(items.drop_last());
        reveal_strlit("assistant");
        reveal_strlit("tool");
        assert("assistant"@.len() != "tool"@.len());
        if gives_output(items.last()) {
            law_ids_not_blank(given_output(items.last()).0, before.ids);
        } else if items.last() is Message {
            lemma_role_not_tool(items.last()->role@);
        }
    }
}

// Ids.

/// What an item is to the ids of calls and outputs, if it is anything to them.
pub open spec fn id_event(item: ResponseInputItem) -> Option<IdEvent> {
    match item {
        ResponseInputItem::FunctionCall { call_id, name, arguments } => Some(IdEvent::Call(call_id@)),
        _ => if gives_output(item) {
            Some(IdEvent::Output(given_output(item).0))
        } else {
            None
        },
    }
}

/// The calls and outputs among items, in their order.
pub open spec fn id_events(items: Seq<ResponseInputItem>) -> Seq<IdEvent> {
    items.filter_map(|item: ResponseInputItem| id_event(item))
}

proof fn lemma_after_events_push(events: Seq<IdEvent>, event: IdEvent, ids: CallIdsView)
    ensures
        after_events(events.push(event), ids) == after_event(event, after_events(events, ids)),
    decreases events.len(),
{
    let more = events.push(event);
    if events.len() == 0 {
        assert(more.drop_first() =~= Seq::empty());
        assert(after_events(more.drop_first(), after_event(event, ids)) == after_event(event, ids));
    } else {
        assert(more.drop_first() =~= events.drop_first().push(event));
        lemma_after_events_push(events.drop_first(), event, after_event(events.first(), ids));
    }
}

/// The ids of a chat are made and taken as the calls and outputs among its items say.
pub proof fn law_ids_follow_items(chat: TranscriptView, items: Seq<ResponseInputItem>)
    ensures
        after_items(chat, items).ids == after_events(id_events(items), chat.ids),
    decreases items.len(),
{
    if items.len() > 0 {
        let before = items.drop_last();
        law_ids_follow_items(chat, before);
        if id_event(items.last()) is Some {
            let event = id_event(items.last())->0;
            assert(id_events(items) =~= id_events(before).push(event));
            lemma_after_events_push(id_events(before), event, chat.ids);
        }
    }
}

proof fn lemma_after_items_add(chat: TranscriptView, first: Seq<ResponseInputItem>, then: Seq<ResponseInputItem>)
    ensures
        after_items(chat, first + then) == after_items(after_items(chat, first), then),
    decreases then.len(),
{
    if then.len() == 0 {
        assert(first + then =~= first);
    } else {
        assert((first + then).drop_last() =~= first + then.drop_last());
        lemma_after_items_add(chat, first, then.drop_last());
    }
}

/// A call without an id and the output without an id whose turn it is find each other: where, after
/// the call, as many outputs have taken an id as had been waiting before it, the next output is given
/// the id that the call was given.
pub proof fn law_blank_ids_pair(items: Seq<ResponseInputItem>, i: int, j: int)
    requires
        0 <= i < j < items.len(),
        items[i] is FunctionCall,
        blank(items[i]->FunctionCall_call_id@),
        gives_output(items[j]),
        blank(given_output(items[j]).0),
        ids_taken(id_events(items.subrange(i + 1, j))) == after_items(empty_transcript(), items.take(i)).ids.pending.len(),
    ensures
        output_id_for(given_output(items[j]).0, after_items(empty_transcript(), items.take(j)).ids) == call_id_for(
            items[i]->FunctionCall_call_id@,
            after_items(empty_transcript(), items.take(i)).ids,
        ),
{
    let before = after_items(empty_transcript(), items.take(i));
    let called = after_items(empty_transcript(), items.take(i + 1));
    let between = items.subrange(i + 1, j);
    assert(items.take(i + 1).drop_last() =~= items.take(i));
    assert(items.take(j) =~= items.take(i + 1) + between);
    lemma_after_items_add(empty_transcript(), items.take(i + 1), between);
    law_ids_follow_items(called, between);
    law_output_answers_call(
        items[i]->FunctionCall_call_id@,
        id_events(between),
        given_output(items[j]).0,
        before.ids,
    );
}

// Other messages.

/// Whether a message says something and is not a tool's.
pub open spec fn spoken(message: ChatMessageView) -> bool {
    message.content is Some && message.role != "tool"@
}

/// The messages that say something and are not a tool's, in their order.
pub open spec fn told_speech(messages: Seq<ChatMessageView>) -> Seq<ChatMessageView>
    decreases messages.len(),
{
    if messages.len() == 0 {
        Seq::empty()
    } else if spoken(messages.last()) {
        told_speech(messages.drop_last()).push(messages.last())
    } else {
        told_speech(messages.drop_last())
    }
}

/// The messages that those among items become which are not a tool's, in their order.
pub open spec fn asked_speech(items: Seq<ResponseInputItem>) -> Seq<ChatMessageView>
    decreases items.len(),
{
    if items.len() == 0 {
        Seq::empty()
    } else {
        let before = items.drop_last();
        match items.last() {
            ResponseInputItem::Message { role, content, tool_call_id, attachments } => if role@ == "tool"@ {
                asked_speech(before)
            } else {
                asked_speech(before).push(
                    after_message(after_items(empty_transcript(), before), role@, content).messages.last(),
                )
            },
            _ => asked_speech(before),
        }
    }
}

proof fn lemma_told_speech_push(messages: Seq<ChatMessageView>, message: ChatMessageView)
    ensures
        told_speech(messages.push(message)) == if spoken(message) {
            told_speech(messages).push(message)
        } else {
            told_speech(messages)
        },
{
    assert(messages.push(message).drop_last() =~= messages);
}

proof fn lemma_items_keep_speech(items: Seq<ResponseInputItem>)
    ensures
        told_speech(after_items(empty_transcript(), items).messages) == asked_speech(items),
    decreases items.len(),
{
    if items.len() > 0 {
        let before = after_items(empty_transcript(), items.drop_last());
        let after = after_items(empty_transcript(), items);
        lemma_items_keep_speech(items.drop_last());
        lemma_told_speech_push(before.messages, calling_message(before.tool_calls));
        if gives_output(items.last()) {
            lemma_told_speech_push(flushed(before).messages, after.messages.last());
        } else if items.last() is Message {
            lemma_role_not_tool(items.last()->role@);
            lemma_told_speech_push(before.messages, after.messages.last());
        }
    }
}

/// Every message among the items that is not a tool's becomes one message, in the order of the items;
/// besides these there are only messages of tools and messages that only call tools.
pub proof fn law_messages_kept(items: Seq<ResponseInputItem>)
    ensures
        told_speech(items_messages(items)) == asked_speech(items),
{
    let chat = after_items(empty_transcript(), items);
    lemma_items_keep_speech(items);
    lemma_told_speech_push(chat.messages, calling_message(chat.tool_calls));
}

/// A message of anyone but a tool or the assistant is told as it was written, under the role that
/// chats know.
pub proof fn law_others_told_as_written(chat: TranscriptView, role: Seq<char>, content: ResponseContent)
    requires
        role != "assistant"@,
    ensures
        after_message(chat, role, content).messages == chat.messages.push(
            plain_message(chat_role(role), content_json(content)),
        ),
{
}

// Reasoning.

/// Whether an item is a message of the assistant.
pub open spec fn assistant_speaks(item: ResponseInputItem) -> bool {
    item is Message && item->role@ == "assistant"@
}

/// The assistant takes up all reasoning that waits, its own last, and none of it is told again.
pub proof fn law_assistant_takes_reasoning(chat: TranscriptView, content: ResponseContent)
    requires
        gathered_reasoning(chat, content).len() > 0,
    ensures
        ({
            let after = after_message(chat, "assistant"@, content);
            let said = match text_in(content_json(content)) {
                Some(text) => text,
                None => ""@,
            };
            &&& after.reasoning.len() == 0
            &&& after.messages.last().content == Some(
                JsonView::Text("<think>"@ + joined(gathered_reasoning(chat, content)) + "</think>\n"@ + said),
            )
        }),
{
}

/// The items after the last message of the assistant.
pub open spec fn since_assistant(items: Seq<ResponseInputItem>) -> Seq<ResponseInputItem>
    decreases items.len(),
{
    if items.len() == 0 || assistant_speaks(items.last()) {
        Seq::empty()
    } else {
        since_assistant(items.drop_last()).push(items.last())
    }
}

/// The reasoning that an item brings: its text, or what there is in the content of a message that is
/// not a tool's.
pub open spec fn item_reasoning(item: ResponseInputItem) -> Option<Seq<char>> {
    match item {
        ResponseInputItem::Message { role, content, tool_call_id, attachments } => if role@ == "tool"@ {
            None
        } else {
            content_reasoning(content)
        },
        ResponseInputItem::Reasoning { text, encrypted_content } => match text {
            Some(text) => Some(text@),
            None => None,
        },
        _ => None,
    }
}

/// The reasoning that items bring, in their order.
pub open spec fn items_reasoning(items: Seq<ResponseInputItem>) -> Seq<Seq<char>> {
    items.filter_map(|item: ResponseInputItem| item_reasoning(item))
}

proof fn lemma_items_reasoning_push(items: Seq<ResponseInputItem>, item: ResponseInputItem)
    ensures
        items_reasoning(items.push(item)) == match item_reasoning(item) {
            Some(reasoning) => items_reasoning(items).push(reasoning),
            None => items_reasoning(items),
        },
{
    assert(items.push(item).drop_last() =~= items);
    if item_reasoning(item) is Some {
        let reasoning = item_reasoning(item)->0;
        assert(items_reasoning(items) + seq![reasoning] =~= items_reasoning(items).push(reasoning));
    }
}

/// The reasoning that waits is, after any items, that which came since the last message of the
/// assistant: all of it, in its order, and nothing that was told.
pub proof fn law_waiting_reasoning(items: Seq<ResponseInputItem>)
    ensures
        after_items(empty_transcript(), items).reasoning == items_reasoning(since_assistant(items)),
    decreases items.len(),
{
    reveal_strlit("assistant");
    reveal_strlit("tool");
    assert("assistant"@.len() != "tool"@.len());
    if items.len() > 0 {
        law_waiting_reasoning(items.drop_last());
        lemma_items_reasoning_push(since_assistant(items.drop_last()), items.last());
    }
    assert(after_items(empty_transcript(), items).reasoning =~= items_reasoning(since_assistant(items)));
}

/// Reasoning is told once: each message of the assistant among the items is told with the reasoning
/// that came since the one before it, its own last, and with no other.
pub proof fn law_reasoning_told_once(items: Seq<ResponseInputItem>, i: int)
    requires
        0 <= i < items.len(),
        assistant_speaks(items[i]),
    ensures
        ({
            let upto = after_items(empty_transcript(), items.take(i + 1)).messages;
            let reasoning = items_reasoning(since_assistant(items.take(i)).push(items[i]));
            &&& upto.is_prefix_of(items_messages(items))
            &&& upto.len() == after_items(empty_transcript(), items.take(i)).messages.len() + 1
            &&& upto.last().role == "assistant"@
            &&& upto.last().content == Some(with_reasoning(content_json(items[i]->content), reasoning))
        }),
{
    reveal_strlit("assistant");
    reveal_strlit("tool");
    reveal_strlit("developer");
    assert("assistant"@.len() != "tool"@.len());
    assert("assistant"@[0] != "developer"@[0]);
    assert(items.take(i + 1).drop_last() =~= items.take(i));
    law_waiting_reasoning(items.take(i));
    lemma_items_reasoning_push(since_assistant(items.take(i)), items[i]);
    law_messages_only_added(empty_transcript(), items, i + 1);
    lemma_item_adds(after_items(empty_transcript(), items), items[i]);
}

/// Whether two chats differ in nothing but the reasoning that waits.
pub open spec fn same_but_reasoning(left: TranscriptView, right: TranscriptView) -> bool {
    left == TranscriptView { reasoning: left.reasoning, ..right }
}

/// The items that are not reasoning.
pub open spec fn without_reasoning(items: Seq<ResponseInputItem>) -> Seq<ResponseInputItem> {
    items.filter(|item: ResponseInputItem| !(item is Reasoning))
}

proof fn lemma_reasoning_waits(chat: TranscriptView, items: Seq<ResponseInputItem>)
    requires
        forall|i: int| 0 <= i < items.len() ==> !assistant_speaks(#[trigger] items[i]),
    ensures
        same_but_reasoning(after_items(chat, items), after_items(chat, without_reasoning(items))),
    decreases items.len(),
{
    reveal(Seq::filter);
    if items.len() > 0 {
        let before = items.drop_last();
        lemma_reasoning_waits(chat, before);
        assert(!assistant_speaks(items[items.len() - 1]));
        if !(items.last() is Reasoning) {
            let kept = without_reasoning(items);
            assert(kept.drop_last() =~= without_reasoning(before));
            assert(kept.last() == items.last());
        }
    }
}

/// Reasoning after which no message of the assistant comes changes nothing.
pub proof fn law_reasoning_left_out(items: Seq<ResponseInputItem>, k: int)
    requires
        0 <= k <= items.len(),
        forall|i: int| k <= i < items.len() ==> !assistant_speaks(#[trigger] items[i]),
    ensures
        items_messages(items) == items_messages(items.take(k) + without_reasoning(items.skip(k))),
{
    let first = items.take(k);
    let then = items.skip(k);
    assert(items =~= first + then);
    assert forall|i: int| 0 <= i < then.len() implies !assistant_speaks(#[trigger] then[i]) by {
        assert(!assistant_speaks(items[k + i]));
    }
    lemma_after_items_add(empty_transcript(), first, then);
    lemma_after_items_add(empty_transcript(), first, without_reasoning(then));
    lemma_reasoning_waits(after_items(empty_transcript(), first), then);
}

/// The parts of a content that are not reasoning.
pub open spec fn shown_parts(parts: Seq<ContentPart>) -> Seq<ContentPart> {
    parts.filter(|part: ContentPart| !(part is Reasoning))
}

proof fn lemma_shown_parts(parts: Seq<ContentPart>)
    ensures
        part_jsons(shown_parts(parts)) == part_jsons(parts),
        part_texts(shown_parts(parts)) == part_texts(parts),
        has_image(shown_parts(parts)) == has_image(parts),
        has_empty_file(shown_parts(parts)) == has_empty_file(parts),
    decreases parts.len(),
{
    reveal(Seq::filter);
    if parts.len() > 0 {
        let before = parts.drop_last();
        let kept = shown_parts(before);
        let last = parts.last();
        lemma_shown_parts(before);
        lemma_part_added(before, last);
        assert(before.push(last) =~= parts);
        if !(last is Reasoning) {
            lemma_part_added(kept, last);
            assert(shown_parts(parts) =~= kept.push(last));
        }
    }
}

proof fn lemma_part_added(parts: Seq<ContentPart>, part: ContentPart)
    ensures
        has_image(parts.push(part)) == (has_image(parts) || part is InputImage),
        has_empty_file(parts.push(part)) == (has_empty_file(parts) || empty_file(part)),
        part_jsons(parts.push(part)) == match part_json(part) {
            Some(value) => part_jsons(parts).push(value),
            None => part_jsons(parts),
        },
        part_texts(parts.push(part)) == match part_text(part) {
            Some(text) => part_texts(parts).push(text),
            None => part_texts(parts),
        },
{
    let more = parts.push(part);
    assert(more.take(parts.len() as int) =~= parts);
    assert(more.take(more.len() as int) =~= more);
    lemma_take_parts(more, parts.len() as int);
}

/// Reasoning among the parts of a content leaves what is said as it is.
pub proof fn law_reasoning_parts_not_shown(parts: Vec<ContentPart>, shown: Vec<ContentPart>)
    requires
        shown@ == shown_parts(parts@),
    ensures
        content_json(ResponseContent::Array(parts)) == content_json(ResponseContent::Array(shown)),
        content_error(ResponseContent::Array(parts)) == content_error(ResponseContent::Array(shown)),
{
    lemma_shown_parts(parts@);
}

// Items that are skipped.

/// Whether an item is skipped: a reference, or reasoning that cannot be read.
pub open spec fn skipped(item: ResponseInputItem) -> bool {
    item is ItemReference || (item is Reasoning && item->Reasoning_text is None)
}

proof fn lemma_items_error_add(first: Seq<ResponseInputItem>, then: Seq<ResponseInputItem>)
    ensures
        items_error(first + then) == match items_error(first) {
            Some(error) => Some(error),
            None => items_error(then),
        },
    decreases then.len(),
{
    if then.len() == 0 {
        assert(first + then =~= first);
    } else {
        assert((first + then).drop_last() =~= first + then.drop_last());
        lemma_items_error_add(first, then.drop_last());
    }
}

/// An item that is skipped changes nothing, wherever it stands.
pub proof fn law_skipped_items_change_nothing(items: Seq<ResponseInputItem>, i: int)
    requires
        0 <= i < items.len(),
        skipped(items[i]),
    ensures
        items_messages(items) == items_messages(items.remove(i)),
        items_error(items) == items_error(items.remove(i)),
{
    let first = items.take(i);
    let upto = items.take(i + 1);
    let then = items.skip(i + 1);
    assert(upto.drop_last() =~= first);
    assert(items =~= upto + then);
    assert(items.remove(i) =~= first + then);
    lemma_after_items_add(empty_transcript(), upto, then);
    lemma_after_items_add(empty_transcript(), first, then);
    lemma_items_error_add(upto, then);
    lemma_items_error_add(first, then);
}

// Errors.

/// The first item that cannot be converted decides: there is an error just when an item has one, and
/// it is that of an item before which none has one.
pub proof fn law_first_error_counts(items: Seq<ResponseInputItem>)
    ensures
        items_error(items) is None <==> forall|i: int| 0 <= i < items.len() ==> item_error(#[trigger] items[i]) is None,
        items_error(items) is Some ==> exists|i: int|
            0 <= i < items.len() && items_error(items) == item_error(#[trigger] items[i]) && forall|k: int|
                0 <= k < i ==> item_error(#[trigger] items[k]) is None,
    decreases items.len(),
{
    if items.len() > 0 {
        let before = items.drop_last();
        law_first_error_counts(before);
        if items_error(before) is Some {
            let i = choose|i: int|
                0 <= i < before.len() && items_error(before) == item_error(#[trigger] before[i]) && forall|k: int|
                    0 <= k < i ==> item_error(#[trigger] before[k]) is None;
            assert(items[i] == before[i]);
            assert forall|k: int| 0 <= k < i implies item_error(#[trigger] items[k]) is None by {
                assert(items[k] == before[k]);
            }
            assert(item_error(items[i]) is Some);
        } else {
            assert forall|k: int| 0 <= k < items.len() - 1 implies item_error(#[trigger] items[k]) is None by {
                assert(items[k] == before[k]);
            }
            assert(items[items.len() - 1] == items.last());
        }
    }
}

/// A request with a file attached to any message is refused.
pub proof fn law_attachments_refused(req: ResponseRequest, items: Vec<ResponseInputItem>, i: int)
    requires
        req.input == Some(ResponseInput::Array(items)),
        0 <= i < items@.len(),
        items@[i] is Message,
        has_attachments(items@[i]->attachments),
    ensures
        request_error(req) is Some,
{
    law_first_error_counts(items@);
    assert(item_error(items@[i]) is Some);
}

// Texts.

/// The content of a tool message reads as that of any other message with the same texts, where the
/// first of them is not empty.
pub proof fn law_tool_body_reads_alike(parts: Vec<ContentPart>)
    requires
        parts@.len() > 0,
        tool_parts_only(parts@),
        part_text(parts@[0])->0.len() > 0,
    ensures
        ({
            let content = ResponseContent::Array(parts);
            &&& tool_body_error(content) is None
            &&& content_error(content) is None
            &&& content_json(content) == JsonView::Text(tool_body(content))
        }),
{
    lemma_tool_parts(parts@);
    law_stacked_is_joined(part_texts(parts@));
}

proof fn lemma_tool_parts(parts: Seq<ContentPart>)
    requires
        parts.len() > 0,
        tool_parts_only(parts),
    ensures
        part_texts(parts).len() == parts.len(),
        part_jsons(parts).len() == parts.len(),
        part_texts(parts).first() == part_text(parts[0])->0,
        !has_image(parts),
        !has_empty_file(parts),
    decreases parts.len(),
{
    let before = parts.drop_last();
    let last = parts.last();
    assert(tool_part(parts[parts.len() - 1]));
    lemma_part_added(before, last);
    assert(before.push(last) =~= parts);
    if before.len() > 0 {
        assert forall|i: int| 0 <= i < before.len() implies tool_part(#[trigger] before[i]) by {
            assert(tool_part(parts[i]));
        }
        lemma_tool_parts(before);
    }
}

// Files.

/// The data of a file is told as it is, below a line with the name of the file.
pub proof fn law_file_data_preserved(parts: Vec<ContentPart>)
    requires
        parts@.len() == 1,
        parts@[0] is InputFile,
        parts@[0]->file_data is Some,
        !blank(parts@[0]->file_data->0@),
    ensures
        ({
            let content = ResponseContent::Array(parts);
            let label = file_label(parts@[0]->file_id, parts@[0]->filename);
            &&& content_error(content) is None
            &&& content_json(content) == JsonView::Text(
                "[input_file:"@ + label + "]\n"@ + parts@[0]->file_data->0@,
            )
            &&& content_reasoning(content) is None
        }),
{
    let part = parts@[0];
    assert(parts@ =~= seq![part]);
    Seq::lemma_filter_map_singleton(part, |part: ContentPart| part_text(part));
    Seq::lemma_filter_map_singleton(part, |part: ContentPart| part_json(part));
    Seq::lemma_filter_map_singleton(part, |part: ContentPart| part_reasoning(part));
}

/// A file that is known by its id only is rejected, whatever stands beside it.
pub proof fn law_file_id_only_rejected(parts: Vec<ContentPart>, i: int)
    requires
        0 <= i < parts@.len(),
        parts@[i] is InputFile,
        parts@[i]->file_url is None,
        parts@[i]->file_data is None,
    ensures
        content_error(ResponseContent::Array(parts)) == Some("input_file_content_not_supported"@),
{
    assert(empty_file(parts@[i]));
}

// Settings.

/// A stream tells what was used, and keeps every other option that it was given. Without a stream
/// the options stay as they are.
pub proof fn law_stream_tells_usage(options: Option<JsonView>, key: Seq<char>)
    ensures
        stream_options_json(options, false) == options,
        stream_options_json(options, true) is Some,
        member_in(stream_options_json(options, true)->0, "include_usage"@) == Some(JsonView::Bool(true)),
        key != "include_usage"@ && options is Some ==> member_in(stream_options_json(options, true)->0, key)
            == member_in(options->0, key),
{
}

/// Probabilities are asked for together with a number of alternatives, which is not zero, or not at
/// all.
pub proof fn law_logprobs_go_together(logprobs: Option<bool>, top_logprobs: Option<u32>)
    ensures
        ({
            let (wanted, number) = logprob_settings(logprobs, top_logprobs);
            ||| wanted is None && number is None
            ||| wanted == Some(true) && number is Some && number->0 > 0
        }),
{
}

proof fn lemma_function_tools(tools: Seq<ResponseTool>)
    ensures
        function_tools(tools).len() <= tools.len(),
        function_tools(tools).len() > 0 <==> exists|i: int|
            0 <= i < tools.len() && (#[trigger] tools[i]).type_@ == "function"@,
        forall|i: int|
            0 <= i < function_tools(tools).len() ==> (#[trigger] function_tools(tools)[i])->type_ == "function"@,
    decreases tools.len(),
{
    if tools.len() > 0 {
        let before = tools.drop_last();
        lemma_function_tools(before);
        assert forall|i: int| 0 <= i < before.len() implies #[trigger] before[i] == tools[i] by {}
        assert(tools[tools.len() - 1] == tools.last());
        if function_tools(before).len() > 0 {
            let i = choose|i: int| 0 <= i < before.len() && (#[trigger] before[i]).type_@ == "function"@;
            assert(tools[i].type_@ == "function"@);
        }
        if exists|i: int| 0 <= i < tools.len() && (#[trigger] tools[i]).type_@ == "function"@ {
            let i = choose|i: int| 0 <= i < tools.len() && (#[trigger] tools[i]).type_@ == "function"@;
            if i < before.len() {
                assert(before[i].type_@ == "function"@);
            }
        }
    }
}

/// A chat has tools just when a request has a function tool, and then it has function tools only.
pub proof fn law_function_tools_only(req: ResponseRequest)
    ensures
        request_tools(req) is Some <==> req.tools is Some && exists|i: int|
            0 <= i < req.tools->0@.len() && (#[trigger] req.tools->0@[i]).type_@ == "function"@,
        request_tools(req) matches Some(tools) ==> tools.len() > 0 && forall|i: int|
            0 <= i < tools.len() ==> (#[trigger] tools[i])->type_ == "function"@,
{
    if req.tools is Some {
        lemma_function_tools(req.tools->0@);
    }
}

/// Where a request speaks of tools, the chat starts with its instructions and what is to be said of
/// tools.
pub proof fn law_tools_come_with_guidance(req: ResponseRequest, supports_native_tools: bool)
    requires
        req.tools is Some,
    ensures
        ({
            let instructions = system_instructions(req, supports_native_tools);
            let messages = chat_request(req, supports_native_tools).messages;
            &&& tool_guidance(supports_native_tools).is_suffix_of(instructions)
            &&& req.instructions is Some ==> req.instructions->0@.is_prefix_of(instructions)
            &&& messages.len() > 0
            &&& messages.first() == plain_message("system"@, JsonView::Text(instructions))
        }),
{
    reveal_strlit("\n\n---\n\nIMPORTANT: Tool Calling Format Override\n");
    assert(TOOL_OVERRIDE_HEADING@.len() > 0);
}

/// How a model calls tools makes no difference to a request that does not speak of tools.
pub proof fn law_native_tools_matter_with_tools_only(req: ResponseRequest)
    requires
        req.tools is None,
    ensures
        chat_request(req, true) == chat_request(req, false),
{
}

} // verus!
