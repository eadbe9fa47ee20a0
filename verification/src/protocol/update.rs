//! What an agent streams while it works on a prompt: pieces of its message
//! and of its thinking, the tools it calls, and its plan.

use crate::json;
use crate::json::{json_of, optional_json, Json};
use crate::model::{optional_view, optional_views, views};
use crate::protocol::codec::{json_survives, lemma_list_survives, decode_optional, decode_optional_list, decode_required, decode_required_list, encode_list, encode_optional, encode_optional_list, list_to_json, optional, optional_list, optional_value, required, required_list, required_value, set_optional, set_optional_list, set_optional_value, Wire};
use crate::protocol::prompt::{lemma_prompt_names, ContentBlock, ContentBlockView};
use crate::text;
use serde_json::Value;
use vstd::prelude::*;

verus! {

/// A place a tool works on.
#[derive(Debug)]
pub struct Location {
    pub path: String,
}

/// `Location` as a mathematical value.
pub struct LocationView {
    pub path: Seq<char>,
}

impl View for Location {
    type V = LocationView;

    open spec fn view(&self) -> LocationView {
        LocationView { path: self.path@ }
    }
}

impl Wire for Location {
    open spec fn encode(model: LocationView) -> Json {
        Json::empty_object().with("path"@, Json::Str(model.path))
    }

    open spec fn decode(json: Json) -> Option<LocationView> {
        match decode_required::<String>(json, "path"@) {
            Some(path) => Some(LocationView { path }),
            None => None,
        }
    }


    open spec fn survives(model: LocationView) -> bool {
        true
    }

    proof fn lemma_survives(model: LocationView) {
        lemma_update_names();
        lemma_prompt_names();
    }
    fn to_json(&self) -> (result: Value) {
        let mut object = json::object();
        json::set_member(&mut object, "path", self.path.to_json());
        object
    }

    fn from_json(value: &Value) -> (result: Option<Location>) {
        match required::<String>(value, "path") {
            Some(path) => Some(Location { path }),
            None => None,
        }
    }
}

/// One entry of an agent's plan.
#[derive(Debug)]
pub struct PlanEntry {
    pub priority: String,
    pub status: String,
    pub content: String,
}

/// `PlanEntry` as a mathematical value.
pub struct PlanEntryView {
    pub priority: Seq<char>,
    pub status: Seq<char>,
    pub content: Seq<char>,
}

impl View for PlanEntry {
    type V = PlanEntryView;

    open spec fn view(&self) -> PlanEntryView {
        PlanEntryView { priority: self.priority@, status: self.status@, content: self.content@ }
    }
}

impl Wire for PlanEntry {
    open spec fn encode(model: PlanEntryView) -> Json {
        Json::empty_object().with("priority"@, Json::Str(model.priority)).with(
            "status"@,
            Json::Str(model.status),
        ).with("content"@, Json::Str(model.content))
    }

    open spec fn decode(json: Json) -> Option<PlanEntryView> {
        match (
            decode_required::<String>(json, "priority"@),
            decode_required::<String>(json, "status"@),
            decode_required::<String>(json, "content"@),
        ) {
            (Some(priority), Some(status), Some(content)) => Some(
                PlanEntryView { priority, status, content },
            ),
            _ => None,
        }
    }


    open spec fn survives(model: PlanEntryView) -> bool {
        true
    }

    proof fn lemma_survives(model: PlanEntryView) {
        lemma_update_names();
        lemma_prompt_names();
    }
    fn to_json(&self) -> (result: Value) {
        let mut object = json::object();
        json::set_member(&mut object, "priority", self.priority.to_json());
        json::set_member(&mut object, "status", self.status.to_json());
        json::set_member(&mut object, "content", self.content.to_json());
        object
    }

    fn from_json(value: &Value) -> (result: Option<PlanEntry>) {
        let priority = match required::<String>(value, "priority") {
            Some(priority) => priority,
            None => return None,
        };
        let status = match required::<String>(value, "status") {
            Some(status) => status,
            None => return None,
        };
        let content = match required::<String>(value, "content") {
            Some(content) => content,
            None => return None,
        };
        Some(PlanEntry { priority, status, content })
    }
}

/// What a tool call produced: a block of content, or a change to a file.
#[derive(Debug)]
pub enum ToolCallContent {
    Content { content: ContentBlock },
    Diff { path: String, old_text: String, new_text: String },
}

/// `ToolCallContent` as a mathematical value.
pub enum ToolCallContentView {
    Content { content: ContentBlockView },
    Diff { path: Seq<char>, old_text: Seq<char>, new_text: Seq<char> },
}

impl View for ToolCallContent {
    type V = ToolCallContentView;

    open spec fn view(&self) -> ToolCallContentView {
        match self {
            ToolCallContent::Content { content } => ToolCallContentView::Content {
                content: content@,
            },
            ToolCallContent::Diff { path, old_text, new_text } => ToolCallContentView::Diff {
                path: path@,
                old_text: old_text@,
                new_text: new_text@,
            },
        }
    }
}

impl Wire for ToolCallContent {
    open spec fn encode(model: ToolCallContentView) -> Json {
        match model {
            ToolCallContentView::Content { content } => Json::empty_object().with(
                "content"@,
                ContentBlock::encode(content),
            ),
            ToolCallContentView::Diff { path, old_text, new_text } => Json::empty_object().with(
                "path"@,
                Json::Str(path),
            ).with("old_text"@, Json::Str(old_text)).with("new_text"@, Json::Str(new_text)),
        }
    }

    /// A document with a block of content under `content` is content; any
    /// other is a change if it has the strings `path`, `old_text` and
    /// `new_text`.
    open spec fn decode(json: Json) -> Option<ToolCallContentView> {
        match decode_required::<ContentBlock>(json, "content"@) {
            Some(content) => Some(ToolCallContentView::Content { content }),
            None => match (
                decode_required::<String>(json, "path"@),
                decode_required::<String>(json, "old_text"@),
                decode_required::<String>(json, "new_text"@),
            ) {
                (Some(path), Some(old_text), Some(new_text)) => Some(
                    ToolCallContentView::Diff { path, old_text, new_text },
                ),
                _ => None,
            },
        }
    }


    open spec fn survives(model: ToolCallContentView) -> bool {
        true
    }

    proof fn lemma_survives(model: ToolCallContentView) {
        lemma_update_names();
        lemma_prompt_names();
        if let ToolCallContentView::Content { content } = model {
            ContentBlock::lemma_survives(content);
        }
    }
    fn to_json(&self) -> (result: Value) {
        let mut object = json::object();
        match self {
            ToolCallContent::Content { content } => {
                json::set_member(&mut object, "content", content.to_json());
            },
            ToolCallContent::Diff { path, old_text, new_text } => {
                json::set_member(&mut object, "path", path.to_json());
                json::set_member(&mut object, "old_text", old_text.to_json());
                json::set_member(&mut object, "new_text", new_text.to_json());
            },
        }
        object
    }

    fn from_json(value: &Value) -> (result: Option<ToolCallContent>) {
        match required::<ContentBlock>(value, "content") {
            Some(content) => Some(ToolCallContent::Content { content }),
            None => {
                let path = match required::<String>(value, "path") {
                    Some(path) => path,
                    None => return None,
                };
                let old_text = match required::<String>(value, "old_text") {
                    Some(old_text) => old_text,
                    None => return None,
                };
                let new_text = match required::<String>(value, "new_text") {
                    Some(new_text) => new_text,
                    None => return None,
                };
                Some(ToolCallContent::Diff { path, old_text, new_text })
            },
        }
    }
}

/// One update of a session. On the wire the member `session_update` names
/// the kind: `agent_message_chunk`, `agent_thought_chunk`, `tool_call`,
/// `tool_call_update` or `plan`.
#[allow(inconsistent_fields)]
#[derive(Debug)]
pub enum SessionUpdate {
    AgentMessageChunk { content: ContentBlock },
    AgentThoughtChunk { content: ContentBlock },
    ToolCall {
        tool_call_id: String,
        title: String,
        kind: String,
        status: String,
        locations: Vec<Location>,
        raw_input: Value,
    },
    ToolCallUpdate {
        tool_call_id: String,
        status: String,
        kind: Option<String>,
        content: Option<Vec<ToolCallContent>>,
        title: Option<String>,
        raw_output: Option<Value>,
    },
    Plan { entries: Vec<PlanEntry> },
}

/// `SessionUpdate` as a mathematical value.
#[allow(inconsistent_fields)]
pub enum SessionUpdateView {
    AgentMessageChunk { content: ContentBlockView },
    AgentThoughtChunk { content: ContentBlockView },
    ToolCall {
        tool_call_id: Seq<char>,
        title: Seq<char>,
        kind: Seq<char>,
        status: Seq<char>,
        locations: Seq<LocationView>,
        raw_input: Json,
    },
    ToolCallUpdate {
        tool_call_id: Seq<char>,
        status: Seq<char>,
        kind: Option<Seq<char>>,
        content: Option<Seq<ToolCallContentView>>,
        title: Option<Seq<char>>,
        raw_output: Option<Json>,
    },
    Plan { entries: Seq<PlanEntryView> },
}

impl View for SessionUpdate {
    type V = SessionUpdateView;

    open spec fn view(&self) -> SessionUpdateView {
        match self {
            SessionUpdate::AgentMessageChunk { content } => SessionUpdateView::AgentMessageChunk {
                content: content@,
            },
            SessionUpdate::AgentThoughtChunk { content } => SessionUpdateView::AgentThoughtChunk {
                content: content@,
            },
            SessionUpdate::ToolCall {
                tool_call_id,
                title,
                kind,
                status,
                locations,
                raw_input,
            } => SessionUpdateView::ToolCall {
                tool_call_id: tool_call_id@,
                title: title@,
                kind: kind@,
                status: status@,
                locations: views(locations@),
                raw_input: json_of(*raw_input),
            },
            SessionUpdate::ToolCallUpdate {
                tool_call_id,
                status,
                kind,
                content,
                title,
                raw_output,
            } => SessionUpdateView::ToolCallUpdate {
                tool_call_id: tool_call_id@,
                status: status@,
                kind: optional_view(*kind),
                content: optional_views(*content),
                title: optional_view(*title),
                raw_output: optional_json(*raw_output),
            },
            SessionUpdate::Plan { entries } => SessionUpdateView::Plan { entries: views(entries@) },
        }
    }
}

impl SessionUpdateView {
    /// A piece of the agent's message has a block of content under `content`.
    pub open spec fn decode_message_chunk(json: Json) -> Option<SessionUpdateView> {
        match decode_required::<ContentBlock>(json, "content"@) {
            Some(content) => Some(SessionUpdateView::AgentMessageChunk { content }),
            None => None,
        }
    }

    /// A piece of the agent's thinking has a block of content under `content`.
    pub open spec fn decode_thought_chunk(json: Json) -> Option<SessionUpdateView> {
        match decode_required::<ContentBlock>(json, "content"@) {
            Some(content) => Some(SessionUpdateView::AgentThoughtChunk { content }),
            None => None,
        }
    }

    /// A tool call has its identifier, title, kind and status, the places it
    /// works on, and its input, whatever that is.
    pub open spec fn decode_tool_call(json: Json) -> Option<SessionUpdateView> {
        match (
            decode_required::<String>(json, "tool_call_id"@),
            decode_required::<String>(json, "title"@),
            decode_required::<String>(json, "kind"@),
            decode_required::<String>(json, "status"@),
            decode_required_list::<Location>(json, "locations"@),
            json.member("raw_input"@),
        ) {
            (
                Some(tool_call_id),
                Some(title),
                Some(kind),
                Some(status),
                Some(locations),
                Some(raw_input),
            ) => Some(
                SessionUpdateView::ToolCall {
                    tool_call_id,
                    title,
                    kind,
                    status,
                    locations,
                    raw_input,
                },
            ),
            _ => None,
        }
    }

    /// An update of a tool call has the call's identifier and status; all else
    /// may be left out.
    pub open spec fn decode_tool_call_update(json: Json) -> Option<SessionUpdateView> {
        match (
            decode_required::<String>(json, "tool_call_id"@),
            decode_required::<String>(json, "status"@),
            decode_optional::<String>(json, "kind"@),
            decode_optional_list::<ToolCallContent>(json, "content"@),
            decode_optional::<String>(json, "title"@),
        ) {
            (Some(tool_call_id), Some(status), Some(kind), Some(content), Some(title)) => Some(
                SessionUpdateView::ToolCallUpdate {
                    tool_call_id,
                    status,
                    kind,
                    content,
                    title,
                    raw_output: json.present("raw_output"@),
                },
            ),
            _ => None,
        }
    }

    /// The text an update adds to the agent's message: the text of a piece
    /// of the message that is a block of text, and nothing for any other
    /// update.
    pub open spec fn message_text(self) -> Seq<char> {
        match self {
            SessionUpdateView::AgentMessageChunk { content: ContentBlockView::Text { text } } => text,
            _ => Seq::empty(),
        }
    }

    /// A plan has its entries under `entries`.
    pub open spec fn decode_plan(json: Json) -> Option<SessionUpdateView> {
        match decode_required_list::<PlanEntry>(json, "entries"@) {
            Some(entries) => Some(SessionUpdateView::Plan { entries }),
            None => None,
        }
    }
}

impl SessionUpdate {
    fn tool_call_from_json(value: &Value) -> (result: Option<SessionUpdate>)
        ensures
            match result {
                Some(read) => SessionUpdateView::decode_tool_call(json_of(*value)) == Some(read@),
                None => SessionUpdateView::decode_tool_call(json_of(*value)) is None,
            },
    {
        let tool_call_id = match required::<String>(value, "tool_call_id") {
            Some(tool_call_id) => tool_call_id,
            None => return None,
        };
        let title = match required::<String>(value, "title") {
            Some(title) => title,
            None => return None,
        };
        let kind = match required::<String>(value, "kind") {
            Some(kind) => kind,
            None => return None,
        };
        let status = match required::<String>(value, "status") {
            Some(status) => status,
            None => return None,
        };
        let locations = match required_list::<Location>(value, "locations") {
            Some(locations) => locations,
            None => return None,
        };
        let raw_input = match required_value(value, "raw_input") {
            Some(raw_input) => raw_input,
            None => return None,
        };
        Some(SessionUpdate::ToolCall { tool_call_id, title, kind, status, locations, raw_input })
    }

    fn tool_call_update_from_json(value: &Value) -> (result: Option<SessionUpdate>)
        ensures
            match result {
                Some(read) => SessionUpdateView::decode_tool_call_update(json_of(*value)) == Some(
                    read@,
                ),
                None => SessionUpdateView::decode_tool_call_update(json_of(*value)) is None,
            },
    {
        let tool_call_id = match required::<String>(value, "tool_call_id") {
            Some(tool_call_id) => tool_call_id,
            None => return None,
        };
        let status = match required::<String>(value, "status") {
            Some(status) => status,
            None => return None,
        };
        let kind = match optional::<String>(value, "kind") {
            Some(kind) => kind,
            None => return None,
        };
        let content = match optional_list::<ToolCallContent>(value, "content") {
            Some(content) => content,
            None => return None,
        };
        let title = match optional::<String>(value, "title") {
            Some(title) => title,
            None => return None,
        };
        let raw_output = optional_value(value, "raw_output");
        Some(
            SessionUpdate::ToolCallUpdate { tool_call_id, status, kind, content, title, raw_output },
        )
    }

    /// The text the update adds to the agent's message.
    pub fn message_text(&self) -> (result: &str)
        ensures
            result@ == self@.message_text(),
    {
        match self {
            SessionUpdate::AgentMessageChunk { content: ContentBlock::Text { text } } => text.as_str(),
            _ => {
                let nothing = "";
                proof {
                    reveal_strlit("");
                }
                assert(nothing@ =~= Seq::<char>::empty());
                nothing
            },
        }
    }
}

impl Wire for SessionUpdate {
    open spec fn encode(model: SessionUpdateView) -> Json {
        match model {
            SessionUpdateView::AgentMessageChunk { content } => Json::empty_object().with(
                "session_update"@,
                Json::Str("agent_message_chunk"@),
            ).with("content"@, ContentBlock::encode(content)),
            SessionUpdateView::AgentThoughtChunk { content } => Json::empty_object().with(
                "session_update"@,
                Json::Str("agent_thought_chunk"@),
            ).with("content"@, ContentBlock::encode(content)),
            SessionUpdateView::ToolCall {
                tool_call_id,
                title,
                kind,
                status,
                locations,
                raw_input,
            } => Json::empty_object().with("session_update"@, Json::Str("tool_call"@)).with(
                "tool_call_id"@,
                Json::Str(tool_call_id),
            ).with("title"@, Json::Str(title)).with("kind"@, Json::Str(kind)).with(
                "status"@,
                Json::Str(status),
            ).with("locations"@, encode_list::<Location>(locations)).with("raw_input"@, raw_input),
            SessionUpdateView::ToolCallUpdate {
                tool_call_id,
                status,
                kind,
                content,
                title,
                raw_output,
            } => Json::empty_object().with(
                "session_update"@,
                Json::Str("tool_call_update"@),
            ).with("tool_call_id"@, Json::Str(tool_call_id)).with(
                "status"@,
                Json::Str(status),
            ).with_some("kind"@, encode_optional::<String>(kind)).with_some(
                "content"@,
                encode_optional_list::<ToolCallContent>(content),
            ).with_some("title"@, encode_optional::<String>(title)).with_some(
                "raw_output"@,
                raw_output,
            ),
            SessionUpdateView::Plan { entries } => Json::empty_object().with(
                "session_update"@,
                Json::Str("plan"@),
            ).with("entries"@, encode_list::<PlanEntry>(entries)),
        }
    }

    open spec fn decode(json: Json) -> Option<SessionUpdateView> {
        match decode_required::<String>(json, "session_update"@) {
            Some(kind) => if kind == "agent_message_chunk"@ {
                SessionUpdateView::decode_message_chunk(json)
            } else if kind == "agent_thought_chunk"@ {
                SessionUpdateView::decode_thought_chunk(json)
            } else if kind == "tool_call"@ {
                SessionUpdateView::decode_tool_call(json)
            } else if kind == "tool_call_update"@ {
                SessionUpdateView::decode_tool_call_update(json)
            } else if kind == "plan"@ {
                SessionUpdateView::decode_plan(json)
            } else {
                None
            },
            None => None,
        }
    }


    open spec fn survives(model: SessionUpdateView) -> bool {
        match model {
            SessionUpdateView::ToolCallUpdate { raw_output, .. } => json_survives(raw_output),
            _ => true,
        }
    }

    proof fn lemma_survives(model: SessionUpdateView) {
        lemma_update_names();
        lemma_prompt_names();
        match model {
            SessionUpdateView::AgentMessageChunk { content } => {
                ContentBlock::lemma_survives(content);
            },
            SessionUpdateView::AgentThoughtChunk { content } => {
                ContentBlock::lemma_survives(content);
            },
            SessionUpdateView::ToolCall { locations, .. } => {
                lemma_list_survives::<Location>(locations);
            },
            SessionUpdateView::ToolCallUpdate { content, .. } => {
                if let Some(content) = content {
                    lemma_list_survives::<ToolCallContent>(content);
                }
            },
            SessionUpdateView::Plan { entries } => {
                lemma_list_survives::<PlanEntry>(entries);
            },
        }
    }
    fn to_json(&self) -> (result: Value) {
        let mut object = json::object();
        match self {
            SessionUpdate::AgentMessageChunk { content } => {
                json::set_member(&mut object, "session_update", json::string("agent_message_chunk"));
                json::set_member(&mut object, "content", content.to_json());
            },
            SessionUpdate::AgentThoughtChunk { content } => {
                json::set_member(&mut object, "session_update", json::string("agent_thought_chunk"));
                json::set_member(&mut object, "content", content.to_json());
            },
            SessionUpdate::ToolCall { tool_call_id, title, kind, status, locations, raw_input } => {
                json::set_member(&mut object, "session_update", json::string("tool_call"));
                json::set_member(&mut object, "tool_call_id", tool_call_id.to_json());
                json::set_member(&mut object, "title", title.to_json());
                json::set_member(&mut object, "kind", kind.to_json());
                json::set_member(&mut object, "status", status.to_json());
                json::set_member(&mut object, "locations", list_to_json::<Location>(locations));
                json::set_member(&mut object, "raw_input", json::copy(raw_input));
            },
            SessionUpdate::ToolCallUpdate {
                tool_call_id,
                status,
                kind,
                content,
                title,
                raw_output,
            } => {
                json::set_member(&mut object, "session_update", json::string("tool_call_update"));
                json::set_member(&mut object, "tool_call_id", tool_call_id.to_json());
                json::set_member(&mut object, "status", status.to_json());
                set_optional(&mut object, "kind", kind);
                set_optional_list::<ToolCallContent>(&mut object, "content", content);
                set_optional(&mut object, "title", title);
                set_optional_value(&mut object, "raw_output", raw_output);
            },
            SessionUpdate::Plan { entries } => {
                json::set_member(&mut object, "session_update", json::string("plan"));
                json::set_member(&mut object, "entries", list_to_json::<PlanEntry>(entries));
            },
        }
        object
    }

    fn from_json(value: &Value) -> (result: Option<SessionUpdate>) {
        let kind = match required::<String>(value, "session_update") {
            Some(kind) => kind,
            None => return None,
        };
        if text::same(kind.as_str(), "agent_message_chunk") {
            match required::<ContentBlock>(value, "content") {
                Some(content) => Some(SessionUpdate::AgentMessageChunk { content }),
                None => None,
            }
        } else if text::same(kind.as_str(), "agent_thought_chunk") {
            match required::<ContentBlock>(value, "content") {
                Some(content) => Some(SessionUpdate::AgentThoughtChunk { content }),
                None => None,
            }
        } else if text::same(kind.as_str(), "tool_call") {
            Self::tool_call_from_json(value)
        } else if text::same(kind.as_str(), "tool_call_update") {
            Self::tool_call_update_from_json(value)
        } else if text::same(kind.as_str(), "plan") {
            match required_list::<PlanEntry>(value, "entries") {
                Some(entries) => Some(SessionUpdate::Plan { entries }),
                None => None,
            }
        } else {
            None
        }
    }
}

/// An update together with the session that it belongs to: the parameters
/// of the notification `session/update`.
#[derive(Debug)]
pub struct SessionNotification {
    pub session_id: String,
    pub update: SessionUpdate,
}

/// `SessionNotification` as a mathematical value.
pub struct SessionNotificationView {
    pub session_id: Seq<char>,
    pub update: SessionUpdateView,
}

impl View for SessionNotification {
    type V = SessionNotificationView;

    open spec fn view(&self) -> SessionNotificationView {
        SessionNotificationView { session_id: self.session_id@, update: self.update@ }
    }
}

impl SessionNotificationView {
    /// The update that a notification carries: the notification must have
    /// the method `session/update`, and its parameters must name a session
    /// and hold an update.
    pub open spec fn routed(method: Seq<char>, params: Json) -> Option<SessionNotificationView> {
        if method == "session/update"@ {
            SessionNotification::decode(params)
        } else {
            None
        }
    }
}

impl Wire for SessionNotification {
    open spec fn encode(model: SessionNotificationView) -> Json {
        Json::empty_object().with("session_id"@, Json::Str(model.session_id)).with(
            "update"@,
            SessionUpdate::encode(model.update),
        )
    }

    open spec fn decode(json: Json) -> Option<SessionNotificationView> {
        match (
            decode_required::<String>(json, "session_id"@),
            decode_required::<SessionUpdate>(json, "update"@),
        ) {
            (Some(session_id), Some(update)) => Some(SessionNotificationView { session_id, update }),
            _ => None,
        }
    }


    open spec fn survives(model: SessionNotificationView) -> bool {
        SessionUpdate::survives(model.update)
    }

    proof fn lemma_survives(model: SessionNotificationView) {
        lemma_update_names();
        lemma_prompt_names();
        SessionUpdate::lemma_survives(model.update);
    }
    fn to_json(&self) -> (result: Value) {
        let mut object = json::object();
        json::set_member(&mut object, "session_id", self.session_id.to_json());
        json::set_member(&mut object, "update", self.update.to_json());
        object
    }

    fn from_json(value: &Value) -> (result: Option<SessionNotification>) {
        let session_id = match required::<String>(value, "session_id") {
            Some(session_id) => session_id,
            None => return None,
        };
        let update = match required::<SessionUpdate>(value, "update") {
            Some(update) => update,
            None => return None,
        };
        Some(SessionNotification { session_id, update })
    }
}

impl SessionNotification {
    /// The update that a notification carries, if it carries one.
    pub fn route(method: &str, params: &Value) -> (result: Option<SessionNotification>)
        ensures
            match result {
                Some(read) => SessionNotificationView::routed(method@, json_of(*params)) == Some(
                    read@,
                ),
                None => SessionNotificationView::routed(method@, json_of(*params)) is None,
            },
    {
        if text::same(method, "session/update") {
            SessionNotification::from_json(params)
        } else {
            None
        }
    }
}

/// The length and the first characters of each name used in this file: enough
/// to tell any two of them apart.
pub proof fn lemma_update_names()
    ensures
        "path"@.len() == 4 && "path"@[0] == 'p' && "path"@[1] == 'a',
        "priority"@.len() == 8 && "priority"@[0] == 'p' && "priority"@[1] == 'r',
        "status"@.len() == 6 && "status"@[0] == 's' && "status"@[1] == 't',
        "content"@.len() == 7 && "content"@[0] == 'c' && "content"@[1] == 'o',
        "old_text"@.len() == 8 && "old_text"@[0] == 'o' && "old_text"@[1] == 'l',
        "new_text"@.len() == 8 && "new_text"@[0] == 'n' && "new_text"@[1] == 'e',
        "session_update"@.len() == 14 && "session_update"@[0] == 's' && "session_update"@[1] == 'e',
        "tool_call_id"@.len() == 12 && "tool_call_id"@[0] == 't' && "tool_call_id"@[1] == 'o',
        "title"@.len() == 5 && "title"@[0] == 't' && "title"@[1] == 'i',
        "kind"@.len() == 4 && "kind"@[0] == 'k' && "kind"@[1] == 'i',
        "locations"@.len() == 9 && "locations"@[0] == 'l' && "locations"@[1] == 'o',
        "raw_input"@.len() == 9 && "raw_input"@[0] == 'r' && "raw_input"@[1] == 'a',
        "raw_output"@.len() == 10 && "raw_output"@[0] == 'r' && "raw_output"@[1] == 'a',
        "entries"@.len() == 7 && "entries"@[0] == 'e' && "entries"@[1] == 'n',
        "update"@.len() == 6 && "update"@[0] == 'u' && "update"@[1] == 'p',
        "session_id"@.len() == 10 && "session_id"@[0] == 's' && "session_id"@[1] == 'e',
        "agent_message_chunk"@.len() == 19 && "agent_message_chunk"@[0] == 'a' && "agent_message_chunk"@[1] == 'g' && "agent_message_chunk"@[6] == 'm',
        "agent_thought_chunk"@.len() == 19 && "agent_thought_chunk"@[0] == 'a' && "agent_thought_chunk"@[1] == 'g' && "agent_thought_chunk"@[6] == 't',
        "tool_call"@.len() == 9 && "tool_call"@[0] == 't' && "tool_call"@[1] == 'o',
        "tool_call_update"@.len() == 16 && "tool_call_update"@[0] == 't' && "tool_call_update"@[1] == 'o',
        "plan"@.len() == 4 && "plan"@[0] == 'p' && "plan"@[1] == 'l',
{
    reveal_strlit("path");
    reveal_strlit("priority");
    reveal_strlit("status");
    reveal_strlit("content");
    reveal_strlit("old_text");
    reveal_strlit("new_text");
    reveal_strlit("session_update");
    reveal_strlit("tool_call_id");
    reveal_strlit("title");
    reveal_strlit("kind");
    reveal_strlit("locations");
    reveal_strlit("raw_input");
    reveal_strlit("raw_output");
    reveal_strlit("entries");
    reveal_strlit("update");
    reveal_strlit("session_id");
    reveal_strlit("agent_message_chunk");
    reveal_strlit("agent_thought_chunk");
    reveal_strlit("tool_call");
    reveal_strlit("tool_call_update");
    reveal_strlit("plan");
}

} // verus!
