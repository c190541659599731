//! The content of a message.
use vstd::prelude::*;

use crate::json::{array_value, json, jsons, object_value, text_value, JsonView};
use crate::models::{text_of, ContentPart, ResponseContent};
use crate::text::{add_line, blank, is_blank, join_lines, joined, stacked, texts, with_line};

verus! {

/// The name that a file is shown under: its file name, else its id.
pub open spec fn file_label(file_id: Option<String>, filename: Option<String>) -> Seq<char> {
    match (filename, file_id) {
        (Some(name), _) => name@,
        (None, Some(id)) => id@,
        (None, None) => "input_file"@,
    }
}

/// What is shown of a file: its data, else where it is; nothing where both are blank or missing.
pub open spec fn file_body(file_url: Option<String>, file_data: Option<String>) -> Option<Seq<char>> {
    if file_data is Some && !blank(file_data->0@) {
        Some(file_data->0@)
    } else if file_url is Some && !blank(file_url->0@) {
        Some(file_url->0@)
    } else {
        None
    }
}

/// A file as a text; `None` where there is nothing to show of it, and of what is no file.
pub open spec fn file_text(part: ContentPart) -> Option<Seq<char>> {
    match part {
        ContentPart::InputFile { file_id, filename, file_url, file_data } => match file_body(file_url, file_data) {
            Some(body) => Some("[input_file:"@ + file_label(file_id, filename) + "]\n"@ + body),
            None => None,
        },
        _ => None,
    }
}

/// Whether a part is a file of which there is nothing to show.
pub open spec fn empty_file(part: ContentPart) -> bool {
    part is InputFile && file_text(part) is None
}

/// The text of a part that is shown as one.
pub open spec fn part_text(part: ContentPart) -> Option<Seq<char>> {
    match part {
        ContentPart::InputText { text } => Some(text@),
        ContentPart::OutputText { text } => Some(text@),
        ContentPart::ToolOutput { body } => Some(body@),
        ContentPart::InputFile { .. } => file_text(part),
        ContentPart::InputImage { .. } => None,
        ContentPart::Reasoning { .. } => None,
    }
}

/// A text as a part of a chat message.
pub open spec fn text_part_json(text: Seq<char>) -> JsonView {
    JsonView::Object(map!["type"@ => JsonView::Text("text"@), "text"@ => JsonView::Text(text)])
}

/// An image as a part of a chat message.
pub open spec fn image_part_json(url: Seq<char>) -> JsonView {
    JsonView::Object(
        map![
            "type"@ => JsonView::Text("image_url"@),
            "image_url"@ => JsonView::Object(map!["url"@ => JsonView::Text(url)]),
        ],
    )
}

/// A part as a part of a chat message; `None` of reasoning, and of a file with nothing to show.
pub open spec fn part_json(part: ContentPart) -> Option<JsonView> {
    match part {
        ContentPart::InputImage { image_url } => Some(image_part_json(image_url.url@)),
        _ => match part_text(part) {
            Some(text) => Some(text_part_json(text)),
            None => None,
        },
    }
}

/// The reasoning that a part is.
pub open spec fn part_reasoning(part: ContentPart) -> Option<Seq<char>> {
    match part {
        ContentPart::Reasoning { text } => Some(text@),
        _ => None,
    }
}

/// The texts of the parts that are shown as texts, in their order.
pub open spec fn part_texts(parts: Seq<ContentPart>) -> Seq<Seq<char>> {
    parts.filter_map(|part: ContentPart| part_text(part))
}

/// The parts that are shown, in their order.
pub open spec fn part_jsons(parts: Seq<ContentPart>) -> Seq<JsonView> {
    parts.filter_map(|part: ContentPart| part_json(part))
}

/// The reasoning among the parts, in its order.
pub open spec fn part_reasonings(parts: Seq<ContentPart>) -> Seq<Seq<char>> {
    parts.filter_map(|part: ContentPart| part_reasoning(part))
}

/// Whether there is an image among the parts.
pub open spec fn has_image(parts: Seq<ContentPart>) -> bool {
    exists|i: int| 0 <= i < parts.len() && #[trigger] parts[i] is InputImage
}

/// Whether there is a file with nothing to show among the parts.
pub open spec fn has_empty_file(parts: Seq<ContentPart>) -> bool {
    exists|i: int| 0 <= i < parts.len() && empty_file(#[trigger] parts[i])
}

/// Why a content cannot be converted, if it cannot: a file in it has neither data nor a place.
pub open spec fn content_error(content: ResponseContent) -> Option<Seq<char>> {
    match content {
        ResponseContent::String(_) => None,
        ResponseContent::Array(parts) => if has_empty_file(parts@) {
            Some("input_file_content_not_supported"@)
        } else {
            None
        },
    }
}

/// A content in the form of a chat message. Parts become one text, a line each, unless there is an
/// image among them or none of them is shown: then they stay a list.
pub open spec fn content_json(content: ResponseContent) -> JsonView {
    match content {
        ResponseContent::String(text) => JsonView::Text(text@),
        ResponseContent::Array(parts) => if has_image(parts@) || part_jsons(parts@).len() == 0 {
            JsonView::Array(part_jsons(parts@))
        } else {
            JsonView::Text(joined(part_texts(parts@)))
        },
    }
}

/// The reasoning in a content, where it is not empty.
pub open spec fn content_reasoning(content: ResponseContent) -> Option<Seq<char>> {
    match content {
        ResponseContent::String(_) => None,
        ResponseContent::Array(parts) => {
            let reasoning = stacked(part_reasonings(parts@));
            if reasoning.len() == 0 {
                None
            } else {
                Some(reasoning)
            }
        },
    }
}

pub(crate) proof fn lemma_take_parts(parts: Seq<ContentPart>, i: int)
    requires
        0 <= i < parts.len(),
    ensures
        part_texts(parts.take(i + 1)) == (match part_text(parts[i]) {
            Some(text) => part_texts(parts.take(i)).push(text),
            None => part_texts(parts.take(i)),
        }),
        part_jsons(parts.take(i + 1)) == (match part_json(parts[i]) {
            Some(value) => part_jsons(parts.take(i)).push(value),
            None => part_jsons(parts.take(i)),
        }),
        part_reasonings(parts.take(i + 1)) == (match part_reasoning(parts[i]) {
            Some(text) => part_reasonings(parts.take(i)).push(text),
            None => part_reasonings(parts.take(i)),
        }),
        has_image(parts.take(i + 1)) == (has_image(parts.take(i)) || parts[i] is InputImage),
        has_empty_file(parts.take(i + 1)) == (has_empty_file(parts.take(i)) || empty_file(parts[i])),
{
    let before = parts.take(i);
    let after = parts.take(i + 1);
    assert(after =~= before.push(parts[i]));
    assert(after[i] == parts[i]);
    assert forall|k: int| 0 <= k < i implies #[trigger] before[k] == after[k] by {}
    if has_image(before) {
        let k = choose|k: int| 0 <= k < before.len() && #[trigger] before[k] is InputImage;
        assert(after[k] is InputImage);
    }
    if has_image(after) {
        let k = choose|k: int| 0 <= k < after.len() && #[trigger] after[k] is InputImage;
        assert(k == i || before[k] is InputImage);
    }
    if has_empty_file(before) {
        let k = choose|k: int| 0 <= k < before.len() && empty_file(#[trigger] before[k]);
        assert(empty_file(after[k]));
    }
    if has_empty_file(after) {
        let k = choose|k: int| 0 <= k < after.len() && empty_file(#[trigger] after[k]);
        assert(k == i || empty_file(before[k]));
    }
    parts.lemma_filter_map_take_succ(|part: ContentPart| part_text(part), i);
    parts.lemma_filter_map_take_succ(|part: ContentPart| part_json(part), i);
    parts.lemma_filter_map_take_succ(|part: ContentPart| part_reasoning(part), i);
}

proof fn lemma_stacked_push(lines: Seq<Seq<char>>, line: Seq<char>)
    ensures
        stacked(lines.push(line)) == with_line(stacked(lines), line),
{
    assert(lines.push(line).drop_last() =~= lines);
}

/// Makes a text a part of a chat message.
pub fn text_part(text: String) -> (value: serde_json::Value)
    ensures
        json(value) == text_part_json(text@),
{
    let mut map = serde_json::Map::new();
    let _ = map.insert("type".to_string(), text_value("text".to_string()));
    let _ = map.insert("text".to_string(), text_value(text));
    object_value(map)
}

/// Makes an image a part of a chat message.
pub fn image_part(url: String) -> (value: serde_json::Value)
    ensures
        json(value) == image_part_json(url@),
{
    let mut place = serde_json::Map::new();
    let _ = place.insert("url".to_string(), text_value(url));
    let mut map = serde_json::Map::new();
    let _ = map.insert("type".to_string(), text_value("image_url".to_string()));
    let _ = map.insert("image_url".to_string(), object_value(place));
    object_value(map)
}

/// Shows a file as a text: a line with its name, then its data, else where it is.
pub fn render_inline_file_part(part: &ContentPart) -> (rendered: Result<String, String>)
    ensures
        match rendered {
            Ok(text) => file_text(*part) == Some(text@),
            Err(error) => file_text(*part) is None && error@ == "input_file_content_not_supported"@,
        },
{
    if let ContentPart::InputFile { file_id, filename, file_url, file_data } = part {
        let label: &str = if let Some(name) = filename {
            name.as_str()
        } else if let Some(id) = file_id {
            id.as_str()
        } else {
            "input_file"
        };
        let mut rendered = "[input_file:".to_string();
        rendered.append(label);
        rendered.append("]\n");
        if let Some(data) = file_data {
            if !is_blank(data.as_str()) {
                rendered.append(data.as_str());
                return Ok(rendered);
            }
        }
        if let Some(url) = file_url {
            if !is_blank(url.as_str()) {
                rendered.append(url.as_str());
                return Ok(rendered);
            }
        }
    }
    Err("input_file_content_not_supported".to_string())
}

/// Converts the content of a message to the form of a chat message, and hands out the reasoning in
/// it.
pub fn convert_response_content(content: &ResponseContent) -> (converted: Result<(serde_json::Value, Option<String>), String>)
    ensures
        match converted {
            Ok((value, reasoning)) => {
                &&& content_error(*content) is None
                &&& json(value) == content_json(*content)
                &&& text_of(reasoning) == content_reasoning(*content)
            },
            Err(error) => content_error(*content) == Some(error@),
        },
{
    match content {
        ResponseContent::String(text) => Ok((text_value(text.clone()), None)),
        ResponseContent::Array(parts) => {
            let mut reasoning_text = String::new();
            let mut text_parts: Vec<String> = Vec::new();
            let mut converted: Vec<serde_json::Value> = Vec::new();
            let mut images = false;
            let mut i: usize = 0;
            while i < parts.len()
                invariant
                    *content == ResponseContent::Array(*parts),
                    i <= parts.len(),
                    !has_empty_file(parts@.take(i as int)),
                    images == has_image(parts@.take(i as int)),
                    reasoning_text@ == stacked(part_reasonings(parts@.take(i as int))),
                    texts(text_parts@) == part_texts(parts@.take(i as int)),
                    jsons(converted@) == part_jsons(parts@.take(i as int)),
                decreases parts.len() - i,
            {
                let ghost before = parts@.take(i as int);
                proof {
                    lemma_take_parts(parts@, i as int);
                }
                let ghost texts_before = texts(text_parts@);
                let ghost jsons_before = jsons(converted@);
                match &parts[i] {
                    ContentPart::InputText { text } => {
                        text_parts.push(text.clone());
                        converted.push(text_part(text.clone()));
                    },
                    ContentPart::OutputText { text } => {
                        text_parts.push(text.clone());
                        converted.push(text_part(text.clone()));
                    },
                    ContentPart::ToolOutput { body } => {
                        text_parts.push(body.clone());
                        converted.push(text_part(body.clone()));
                    },
                    ContentPart::InputImage { image_url } => {
                        images = true;
                        converted.push(image_part(image_url.url.clone()));
                    },
                    ContentPart::InputFile { .. } => {
                        match render_inline_file_part(&parts[i]) {
                            Ok(rendered) => {
                                text_parts.push(rendered.clone());
                                converted.push(text_part(rendered));
                            },
                            Err(error) => {
                                proof {
                                    assert(empty_file(parts@[i as int]));
                                }
                                return Err(error);
                            },
                        }
                    },
                    ContentPart::Reasoning { text } => {
                        proof {
                            lemma_stacked_push(part_reasonings(before), text@);
                        }
                        add_line(&mut reasoning_text, text.as_str());
                    },
                }
                proof {
                    if part_text(parts@[i as int]) is Some {
                        assert(texts(text_parts@) =~= texts_before.push(part_text(parts@[i as int])->0));
                    }
                    if part_json(parts@[i as int]) is Some {
                        assert(jsons(converted@) =~= jsons_before.push(part_json(parts@[i as int])->0));
                    }
                }
                i = i + 1;
            }
            proof {
                assert(parts@.take(parts@.len() as int) =~= parts@);
                assert(converted@.len() == jsons(converted@).len());
            }
            let reasoning = if reasoning_text.as_str().is_empty() {
                None
            } else {
                Some(reasoning_text)
            };
            if !images && !converted.is_empty() {
                Ok((text_value(join_lines(&text_parts)), reasoning))
            } else {
                Ok((array_value(converted), reasoning))
            }
        },
    }
}

/// Whether a part may stand in the content of a tool message.
pub open spec fn tool_part(part: ContentPart) -> bool {
    part is InputText || part is OutputText || part is ToolOutput
}

/// Whether every part may stand in the content of a tool message.
pub open spec fn tool_parts_only(parts: Seq<ContentPart>) -> bool {
    forall|i: int| 0 <= i < parts.len() ==> tool_part(#[trigger] parts[i])
}

/// Why a content cannot be that of a tool message, if it cannot: there is something other than
/// texts in it, or a list of parts says nothing.
pub open spec fn tool_body_error(content: ResponseContent) -> Option<Seq<char>> {
    match content {
        ResponseContent::String(_) => None,
        ResponseContent::Array(parts) => if !tool_parts_only(parts@) {
            Some("tool_output_content_not_supported"@)
        } else if stacked(part_texts(parts@)).len() == 0 {
            Some("tool_output_empty"@)
        } else {
            None
        },
    }
}

/// The content of a tool message as a text.
pub open spec fn tool_body(content: ResponseContent) -> Seq<char> {
    match content {
        ResponseContent::String(text) => text@,
        ResponseContent::Array(parts) => stacked(part_texts(parts@)),
    }
}

/// Reads the content of a tool message as a text.
pub fn extract_tool_message_body(content: &ResponseContent) -> (body: Result<String, String>)
    ensures
        match body {
            Ok(text) => tool_body_error(*content) is None && text@ == tool_body(*content),
            Err(error) => tool_body_error(*content) == Some(error@),
        },
{
    match content {
        ResponseContent::String(text) => Ok(text.clone()),
        ResponseContent::Array(parts) => {
            let mut combined = String::new();
            let mut i: usize = 0;
            while i < parts.len()
                invariant
                    *content == ResponseContent::Array(*parts),
                    i <= parts.len(),
                    forall|k: int| 0 <= k < i ==> tool_part(#[trigger] parts@[k]),
                    combined@ == stacked(part_texts(parts@.take(i as int))),
                decreases parts.len() - i,
            {
                proof {
                    lemma_take_parts(parts@, i as int);
                    if part_text(parts@[i as int]) is Some {
                        lemma_stacked_push(part_texts(parts@.take(i as int)), part_text(parts@[i as int])->0);
                    }
                }
                match &parts[i] {
                    ContentPart::InputText { text } => add_line(&mut combined, text.as_str()),
                    ContentPart::OutputText { text } => add_line(&mut combined, text.as_str()),
                    ContentPart::ToolOutput { body } => add_line(&mut combined, body.as_str()),
                    _ => {
                        proof {
                            assert(!tool_part(parts@[i as int]));
                        }
                        return Err("tool_output_content_not_supported".to_string());
                    },
                }
                i = i + 1;
            }
            proof {
                assert(parts@.take(parts@.len() as int) =~= parts@);
            }
            if combined.as_str().is_empty() {
                Err("tool_output_empty".to_string())
            } else {
                Ok(combined)
            }
        },
    }
}

} // verus!
