//! What is promised of texts, ids and contents, said of what goes in and what comes out.
use vstd::prelude::*;

use crate::call_ids::{
    after_call, after_output, call_id_for, call_ids, generated_id, no_ids, output_id_for, CallIdsView,
};
use crate::content::{
    content_error, content_json, content_reasoning, empty_file, file_text, has_image, part_json, part_jsons, part_reasoning,
    part_text, part_texts, tool_body, tool_body_error, tool_part,
};
use crate::json::{json, json_of, jsons, jsons_of, JsonView};
use crate::laws::shown_parts;
use crate::models::{
    chat_messages, chat_tools, text_of, texts_of, tools_of, ChatFunction, ChatMessage, ChatTool, ChatToolView,
    ContentPart, ResponseContent,
};
use crate::settings::digits_value;
use crate::text::{blank, decimal, joined, law_stacked_is_joined, stacked, texts, white_space, with_line};
use crate::transcript::Transcript;
use std::collections::VecDeque;

verus! {

// Sequences.

/// Keeping some of a sequence while changing them is keeping them and then changing them.
pub(crate) proof fn lemma_keep_then_change<A, B>(
    s: Seq<A>,
    both: spec_fn(A) -> Option<B>,
    keep: spec_fn(A) -> bool,
    change: spec_fn(A) -> B,
)
    requires
        forall|i: int|
            0 <= i < s.len() ==> both(#[trigger] s[i]) == if keep(s[i]) {
                Some(change(s[i]))
            } else {
                None
            },
    ensures
        s.filter_map(both) == s.filter(keep).map_values(change),
    decreases s.len(),
{
    reveal(Seq::filter);
    if s.len() > 0 {
        let before = s.drop_last();
        assert forall|i: int| 0 <= i < before.len() implies both(#[trigger] before[i]) == if keep(before[i]) {
            Some(change(before[i]))
        } else {
            None
        } by {
            assert(before[i] == s[i]);
        }
        lemma_keep_then_change(before, both, keep, change);
        assert(s[s.len() - 1] == s.last());
    }
    assert(s.filter_map(both) =~= s.filter(keep).map_values(change));
}

// Texts.

/// Of the characters of ASCII, the space and those from the tab to the carriage return are white space,
/// and no others are. Nothing is blank, a character is blank just when it is white space, and two texts
/// one behind the other are blank just when both are.
pub proof fn law_white_space(c: char, first: Seq<char>, then: Seq<char>)
    ensures
        (c as u32) < 128 ==> (white_space(c) <==> c == ' ' || '\t' <= c <= '\r'),
        blank(Seq::empty()),
        blank(seq![c]) <==> white_space(c),
        blank(first + then) <==> blank(first) && blank(then),
{
    assert(seq![c][0] == c);
    if blank(first + then) {
        assert forall|i: int| 0 <= i < first.len() implies white_space(#[trigger] first[i]) by {
            assert((first + then)[i] == first[i]);
        }
        assert forall|i: int| 0 <= i < then.len() implies white_space(#[trigger] then[i]) by {
            assert((first + then)[first.len() + i] == then[i]);
        }
    }
}

/// Joining: one line is itself, and two groups of lines have one line feed between them.
pub proof fn law_joined_lines(line: Seq<char>, first: Seq<Seq<char>>, then: Seq<Seq<char>>)
    ensures
        joined(Seq::empty()) == Seq::<char>::empty(),
        joined(seq![line]) == line,
        first.len() > 0 && then.len() > 0 ==> joined(first + then) == joined(first) + seq!['\n'] + joined(then),
    decreases then.len(),
{
    reveal_strlit("\n");
    assert("\n"@ =~= seq!['\n']);
    if first.len() > 0 && then.len() > 0 {
        assert((first + then).drop_last() =~= first + then.drop_last());
        if then.len() > 1 {
            law_joined_lines(line, first, then.drop_last());
        } else {
            assert(first + then.drop_last() =~= first);
        }
        assert(joined(first + then) =~= joined(first) + seq!['\n'] + joined(then));
    }
}

/// Stacking: empty lines in front are left out, and what then remains is joined.
pub proof fn law_stacked_lines(lines: Seq<Seq<char>>)
    ensures
        stacked(Seq::empty()) == Seq::<char>::empty(),
        lines.len() > 0 && lines.first().len() == 0 ==> stacked(lines) == stacked(lines.drop_first()),
        lines.len() > 0 && lines.first().len() > 0 ==> stacked(lines) == joined(lines),
    decreases lines.len(),
{
    if lines.len() > 0 && lines.first().len() > 0 {
        law_stacked_is_joined(lines);
    }
    if lines.len() > 0 && lines.first().len() == 0 {
        if lines.len() == 1 {
            assert(lines.drop_first() =~= Seq::empty());
            assert(stacked(lines.drop_last()).len() == 0);
            assert(stacked(lines) =~= stacked(lines.drop_first()));
        } else {
            assert(lines.drop_last().drop_first() =~= lines.drop_first().drop_last());
            law_stacked_lines(lines.drop_last());
        }
    }
}

/// A line below a text: with a line feed between them, unless the text is empty.
pub proof fn law_line_below(text: Seq<char>, line: Seq<char>)
    ensures
        text.len() == 0 ==> with_line(text, line) == line,
        text.len() > 0 ==> with_line(text, line) == text + seq!['\n'] + line,
{
    reveal_strlit("\n");
    assert("\n"@ =~= seq!['\n']);
}

/// A number in decimal is made of digits, has the value of the number, and does not start with a
/// zero unless it is zero.
pub proof fn law_decimal_value(n: nat)
    ensures
        decimal(n).len() > 0,
        forall|i: int| 0 <= i < decimal(n).len() ==> '0' <= #[trigger] decimal(n)[i] <= '9',
        digits_value(decimal(n)) == n,
        decimal(n).first() == '0' ==> n == 0 && decimal(n).len() == 1,
    decreases n,
{
    if n >= 10 {
        law_decimal_value(n / 10);
        assert(decimal(n).drop_last() =~= decimal(n / 10));
        assert(decimal(n).first() == decimal(n / 10).first());
    } else {
        assert(decimal(n).drop_last() =~= Seq::empty());
        assert(digits_value(decimal(n).drop_last()) == 0);
    }
}

/// A digit behind digits makes ten times their number, and its own.
pub proof fn law_digit_behind(digits: Seq<char>, digit: char)
    requires
        '0' <= digit <= '9',
    ensures
        digits_value(Seq::empty()) == 0,
        digits_value(digits.push(digit)) == 10 * digits_value(digits) + (digit as int - '0' as int),
{
    assert(digits.push(digit).drop_last() =~= digits);
}

// Views.

/// Each view of something that may be missing is missing with it, and else holds all of it.
pub proof fn law_views_of_options(
    string: Option<String>,
    value: Option<serde_json::Value>,
    strings: Option<Vec<String>>,
    values: Option<Vec<serde_json::Value>>,
    tools: Option<Vec<ChatTool>>,
)
    ensures
        string is None <==> text_of(string) is None,
        string is Some ==> text_of(string)->0 == string->0@,
        value is None <==> json_of(value) is None,
        value is Some ==> json_of(value)->0 == json(value->0),
        strings is None <==> texts_of(strings) is None,
        strings is Some ==> texts_of(strings)->0 == texts(strings->0@),
        values is None <==> jsons_of(values) is None,
        values is Some ==> jsons_of(values)->0 == jsons(values->0@),
        tools is None <==> tools_of(tools) is None,
        tools is Some ==> tools_of(tools)->0 == chat_tools(tools->0@),
{
}

/// Each view of several things holds what each of them holds, in its place.
pub proof fn law_views_of_several(
    strings: Seq<String>,
    values: Seq<serde_json::Value>,
    messages: Seq<ChatMessage>,
    tools: Seq<ChatTool>,
)
    ensures
        texts(strings).len() == strings.len(),
        forall|i: int| 0 <= i < strings.len() ==> texts(strings)[i] == (#[trigger] strings[i])@,
        jsons(values).len() == values.len(),
        forall|i: int| 0 <= i < values.len() ==> jsons(values)[i] == json(#[trigger] values[i]),
        chat_messages(messages).len() == messages.len(),
        forall|i: int| 0 <= i < messages.len() ==> chat_messages(messages)[i] == (#[trigger] messages[i])@,
        chat_tools(tools).len() == tools.len(),
        forall|i: int| 0 <= i < tools.len() ==> chat_tools(tools)[i] == (#[trigger] tools[i])@,
{
}

/// The views of a message, a tool and a function hold each of their fields.
pub proof fn law_views_hold_fields(message: ChatMessage, tool: ChatTool, function: ChatFunction)
    ensures
        message@.role == message.role@,
        message@.content == json_of(message.content),
        message@.tool_calls == jsons_of(message.tool_calls),
        message@.tool_call_id == text_of(message.tool_call_id),
        tool@ == (ChatToolView::Function { type_: tool->type_@, function: tool->function@ }),
        function@.name == function.name@,
        function@.description == text_of(function.description),
        function@.parameters == json_of(function.parameters),
{
}

/// The view of the making of a chat holds each of its fields.
pub proof fn law_transcript_view(chat: Transcript, pending: VecDeque<String>, next: usize)
    ensures
        chat@.messages == chat_messages(chat.messages@),
        chat@.reasoning == texts(chat.reasoning@),
        chat@.tool_calls == jsons(chat.tool_calls@),
        chat@.ids == call_ids(chat.pending_call_ids, chat.next_call_id),
        call_ids(pending, next).pending == texts(pending@),
        call_ids(pending, next).next == next,
{
}

// Ids.

/// An id that says something is the id, of a call and of an output, and changes nothing for others.
pub proof fn law_own_ids_kept(id: Seq<char>, ids: CallIdsView)
    requires
        !blank(id),
    ensures
        call_id_for(id, ids) == id,
        after_call(id, ids) == ids,
        output_id_for(id, ids) == id,
        after_output(id, ids) == ids,
{
}

/// A call without an id is given the next one, which then waits behind all others.
pub proof fn law_blank_call(id: Seq<char>, ids: CallIdsView)
    requires
        blank(id),
    ensures
        call_id_for(id, ids) == "call_proxy_"@ + decimal(ids.next),
        after_call(id, ids).pending.len() == ids.pending.len() + 1,
        after_call(id, ids).pending.drop_last() == ids.pending,
        after_call(id, ids).pending.last() == call_id_for(id, ids),
        after_call(id, ids).next == ids.next + 1,
        generated_id(ids.next) == "call_proxy_"@ + decimal(ids.next),
        no_ids().pending.len() == 0,
        no_ids().next == 0,
{
    assert(after_call(id, ids).pending.drop_last() =~= ids.pending);
}

/// An output without an id takes the one that has waited longest, or, where none waits, the next one.
pub proof fn law_blank_output(id: Seq<char>, ids: CallIdsView)
    requires
        blank(id),
    ensures
        ids.pending.len() > 0 ==> {
            &&& seq![output_id_for(id, ids)] + after_output(id, ids).pending == ids.pending
            &&& after_output(id, ids).next == ids.next
        },
        ids.pending.len() == 0 ==> {
            &&& output_id_for(id, ids) == "call_proxy_"@ + decimal(ids.next)
            &&& after_output(id, ids).pending.len() == 0
            &&& after_output(id, ids).next == ids.next + 1
        },
{
    if ids.pending.len() > 0 {
        assert(seq![output_id_for(id, ids)] + after_output(id, ids).pending =~= ids.pending);
    }
}

// Content.

/// Whether there is something to read in a text that may be missing.
pub open spec fn says_something(text: Option<String>) -> bool {
    text is Some && !blank(text->0@)
}

/// What a part says, of one that is neither an image nor reasoning.
pub open spec fn said(part: ContentPart) -> Seq<char> {
    match part {
        ContentPart::InputText { text } => text@,
        ContentPart::OutputText { text } => text@,
        ContentPart::ToolOutput { body } => body@,
        ContentPart::InputFile { file_id, filename, file_url, file_data } => {
            let name = if filename is Some {
                filename->0@
            } else if file_id is Some {
                file_id->0@
            } else {
                "input_file"@
            };
            let body = if says_something(file_data) {
                file_data->0@
            } else {
                file_url->0@
            };
            "[input_file:"@ + name + "]\n"@ + body
        },
        _ => Seq::empty(),
    }
}

/// Whether a JSON value is a part of a chat message that shows a part: an image by its place, anything
/// else by what it says.
pub open spec fn shows(value: JsonView, part: ContentPart) -> bool {
    match part {
        ContentPart::InputImage { image_url } => value == JsonView::Object(
            map![
                "type"@ => JsonView::Text("image_url"@),
                "image_url"@ => JsonView::Object(map!["url"@ => JsonView::Text(image_url.url@)]),
            ],
        ),
        _ => value == JsonView::Object(
            map!["type"@ => JsonView::Text("text"@), "text"@ => JsonView::Text(said(part))],
        ),
    }
}

/// A file is shown as a line with its name, or its id where it has no name, above its data, or above its
/// place where its data says nothing. One of which neither says anything cannot be shown, nor can a part
/// that is no file.
pub proof fn law_file_shown(part: ContentPart)
    ensures
        !(part is InputFile) ==> file_text(part) is None,
        part is InputFile ==> {
            let name = if part->filename is Some {
                part->filename->0@
            } else if part->file_id is Some {
                part->file_id->0@
            } else {
                "input_file"@
            };
            let line = "[input_file:"@ + name + "]\n"@;
            &&& says_something(part->file_data) ==> file_text(part) == Some(line + part->file_data->0@)
            &&& !says_something(part->file_data) && says_something(part->file_url) ==> file_text(part) == Some(
                line + part->file_url->0@,
            )
            &&& !says_something(part->file_data) && !says_something(part->file_url) ==> file_text(part) is None
        },
{
}

/// Whether a part is a file with neither data nor a place that say something.
pub open spec fn hollow(part: ContentPart) -> bool {
    part is InputFile && !says_something(part->file_data) && !says_something(part->file_url)
}

/// What parts say, in their order.
pub open spec fn all_said(parts: Seq<ContentPart>) -> Seq<Seq<char>> {
    parts.map_values(|part: ContentPart| said(part))
}

/// The texts of the parts that are reasoning, in their order.
pub open spec fn reasoned(parts: Seq<ContentPart>) -> Seq<Seq<char>> {
    parts.filter(|part: ContentPart| part is Reasoning).map_values(|part: ContentPart| part->Reasoning_text@)
}

proof fn lemma_parts_shown(parts: Seq<ContentPart>)
    requires
        forall|i: int| 0 <= i < parts.len() ==> !hollow(#[trigger] parts[i]),
    ensures
        part_jsons(parts).len() == shown_parts(parts).len(),
        forall|i: int| 0 <= i < shown_parts(parts).len() ==> shows(part_jsons(parts)[i], #[trigger] shown_parts(parts)[i]),
        (forall|i: int| 0 <= i < parts.len() ==> !(#[trigger] parts[i] is InputImage)) ==> part_texts(parts)
            == all_said(shown_parts(parts)),
{
    let value = |part: ContentPart| part_json(part)->0;
    let shown = |part: ContentPart| !(part is Reasoning);
    assert forall|i: int| 0 <= i < parts.len() && !(parts[i] is Reasoning) implies part_json(#[trigger] parts[i])
        is Some && shows(part_json(parts[i])->0, parts[i]) by {
        assert(!hollow(parts[i]));
    }
    lemma_keep_then_change(parts, |part: ContentPart| part_json(part), shown, value);
    assert(part_jsons(parts) == parts.filter(shown).map_values(value));
    assert forall|i: int| 0 <= i < shown_parts(parts).len() implies shows(
        part_jsons(parts)[i],
        #[trigger] shown_parts(parts)[i],
    ) by {
        parts.lemma_filter_contains_rev(shown, shown_parts(parts)[i]);
        let k = choose|k: int| 0 <= k < parts.len() && parts[k] == shown_parts(parts)[i];
        parts.lemma_filter_pred(shown, i);
        assert(shown(shown_parts(parts)[i]));
        assert(part_json(parts[k]) is Some);
    }
    if forall|i: int| 0 <= i < parts.len() ==> !(#[trigger] parts[i] is InputImage) {
        assert forall|i: int| 0 <= i < parts.len() implies part_text(#[trigger] parts[i]) == if shown(parts[i]) {
            Some(said(parts[i]))
        } else {
            None
        } by {
            assert(!hollow(parts[i]));
            assert(!(parts[i] is InputImage));
        }
        lemma_keep_then_change(
            parts,
            |part: ContentPart| part_text(part),
            shown,
            |part: ContentPart| said(part),
        );
    }
}

/// A content that is a text is told as it is.
pub proof fn law_text_content(content: ResponseContent)
    requires
        content is String,
    ensures
        content_error(content) is None,
        content_json(content) == JsonView::Text(content->String_0@),
        content_reasoning(content) is None,
        tool_body_error(content) is None,
        tool_body(content) == content->String_0@,
{
}

/// Parts are refused just when there is a file among them of which there is nothing to show.
pub proof fn law_parts_refused(parts: Vec<ContentPart>)
    ensures
        content_error(ResponseContent::Array(parts)) is Some <==> exists|i: int|
            0 <= i < parts@.len() && hollow(#[trigger] parts@[i]),
        content_error(ResponseContent::Array(parts)) is Some ==> content_error(ResponseContent::Array(parts))->0
            == "input_file_content_not_supported"@,
{
    assert forall|i: int| 0 <= i < parts@.len() implies empty_file(#[trigger] parts@[i]) == hollow(
        parts@[i],
    ) by {}
    if exists|i: int| 0 <= i < parts@.len() && hollow(#[trigger] parts@[i]) {
        let i = choose|i: int| 0 <= i < parts@.len() && hollow(#[trigger] parts@[i]);
        assert(empty_file(parts@[i]));
    }
}

/// Where there is an image among the parts, they stay a list: one element for each part that is not
/// reasoning, in their order, each of which shows its part. No text is needed for that.
pub proof fn law_images_keep_parts_apart(parts: Vec<ContentPart>, image: int)
    requires
        0 <= image < parts@.len(),
        parts@[image] is InputImage,
        forall|i: int| 0 <= i < parts@.len() ==> !hollow(#[trigger] parts@[i]),
    ensures
        ({
            let shown = shown_parts(parts@);
            let value = content_json(ResponseContent::Array(parts));
            &&& value is Array
            &&& value->Array_0.len() == shown.len()
            &&& forall|i: int| 0 <= i < shown.len() ==> shows(value->Array_0[i], #[trigger] shown[i])
            &&& shown.contains(parts@[image])
        }),
{
    lemma_parts_shown(parts@);
    parts@.lemma_filter_contains(|part: ContentPart| !(part is Reasoning), image);
    assert(has_image(parts@));
}

/// Without images, what the parts say that are not reasoning is one text, a line feed between each and
/// the next; where there is no such part, it is an empty list.
pub proof fn law_texts_become_one(parts: Vec<ContentPart>)
    requires
        forall|i: int| 0 <= i < parts@.len() ==> !hollow(#[trigger] parts@[i]),
        forall|i: int| 0 <= i < parts@.len() ==> !(#[trigger] parts@[i] is InputImage),
    ensures
        ({
            let shown = shown_parts(parts@);
            let value = content_json(ResponseContent::Array(parts));
            &&& shown.len() > 0 ==> value == JsonView::Text(joined(all_said(shown)))
            &&& shown.len() == 0 ==> value is Array && value->Array_0.len() == 0
        }),
{
    lemma_parts_shown(parts@);
}

/// The reasoning in a content is that of all its parts that are reasoning, in their order; it is missing
/// just when it is empty.
pub proof fn law_reasoning_taken_out(parts: Vec<ContentPart>)
    ensures
        ({
            let reasoning = stacked(reasoned(parts@));
            let taken = content_reasoning(ResponseContent::Array(parts));
            &&& taken is None <==> reasoning.len() == 0
            &&& taken is Some ==> taken->0 == reasoning
        }),
{
    lemma_keep_then_change(
        parts@,
        |part: ContentPart| part_reasoning(part),
        |part: ContentPart| part is Reasoning,
        |part: ContentPart| part->Reasoning_text@,
    );
}

/// Whether a part is a text, read or written, or the output of a tool.
pub open spec fn plain(part: ContentPart) -> bool {
    part is InputText || part is OutputText || part is ToolOutput
}

/// The parts of a tool message are refused just when one of them is something else than a text or an
/// output, or when all they say is nothing; else what all of them say is its text.
pub proof fn law_tool_parts(parts: Vec<ContentPart>)
    ensures
        ({
            let content = ResponseContent::Array(parts);
            let all_plain = forall|i: int| 0 <= i < parts@.len() ==> plain(#[trigger] parts@[i]);
            let text = stacked(all_said(parts@));
            &&& !all_plain ==> tool_body_error(content) == Some("tool_output_content_not_supported"@)
            &&& all_plain && text.len() == 0 ==> tool_body_error(content) == Some("tool_output_empty"@)
            &&& all_plain && text.len() > 0 ==> tool_body_error(content) is None && tool_body(content) == text
        }),
{
    if forall|i: int| 0 <= i < parts@.len() ==> plain(#[trigger] parts@[i]) {
        assert forall|i: int| 0 <= i < parts@.len() implies tool_part(#[trigger] parts@[i]) by {
            assert(plain(parts@[i]));
        }
        let always = |part: ContentPart| true;
        assert forall|i: int| 0 <= i < parts@.len() implies part_text(#[trigger] parts@[i]) == Some(said(parts@[i])) by {
            assert(plain(parts@[i]));
        }
        lemma_keep_then_change(parts@, |part: ContentPart| part_text(part), always, |part: ContentPart| said(part));
        lemma_keep_all(parts@, always);
    } else {
        let i = choose|i: int| 0 <= i < parts@.len() && !plain(#[trigger] parts@[i]);
        assert(!tool_part(parts@[i]));
    }
}

proof fn lemma_keep_all<A>(s: Seq<A>, keep: spec_fn(A) -> bool)
    requires
        forall|a: A| #[trigger] keep(a),
    ensures
        s.filter(keep) == s,
    decreases s.len(),
{
    reveal(Seq::filter);
    if s.len() > 0 {
        lemma_keep_all(s.drop_last(), keep);
    }
    assert(s.filter(keep) =~= s);
}

} // verus!
