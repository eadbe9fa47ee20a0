//! Prompts: the blocks of content a prompt is made of, the request that
//! carries them, and the agent's answer.

use crate::json;
use crate::json::{json_of, optional_json, Json};
use crate::model::{optional_view, optional_views, views};
use crate::protocol::codec::{lemma_list_survives, decode_optional, decode_optional_list, decode_required, decode_required_list, encode_list, encode_optional, encode_optional_list, list_to_json, optional, optional_list, present, required, required_list, set_optional, set_optional_list, set_optional_value, Wire};
use crate::text;
use serde_json::Value;
use vstd::prelude::*;

verus! {

/// What an inline resource holds: text, or binary data as text with its
/// media type.
#[derive(Debug)]
pub enum ResourceContent {
    Text { text: String },
    Blob { blob: String, mime_type: String },
}

/// `ResourceContent` as a mathematical value.
pub enum ResourceContentView {
    Text { text: Seq<char> },
    Blob { blob: Seq<char>, mime_type: Seq<char> },
}

impl View for ResourceContent {
    type V = ResourceContentView;

    open spec fn view(&self) -> ResourceContentView {
        match self {
            ResourceContent::Text { text } => ResourceContentView::Text { text: text@ },
            ResourceContent::Blob { blob, mime_type } => ResourceContentView::Blob {
                blob: blob@,
                mime_type: mime_type@,
            },
        }
    }
}

impl Wire for ResourceContent {
    open spec fn encode(model: ResourceContentView) -> Json {
        match model {
            ResourceContentView::Text { text } => Json::empty_object().with(
                "text"@,
                Json::Str(text),
            ),
            ResourceContentView::Blob { blob, mime_type } => Json::empty_object().with(
                "blob"@,
                Json::Str(blob),
            ).with("mime_type"@, Json::Str(mime_type)),
        }
    }

    /// A document with a string `text` is text; any other is a blob if it
    /// has the strings `blob` and `mime_type`.
    open spec fn decode(json: Json) -> Option<ResourceContentView> {
        match decode_required::<String>(json, "text"@) {
            Some(text) => Some(ResourceContentView::Text { text }),
            None => match (
                decode_required::<String>(json, "blob"@),
                decode_required::<String>(json, "mime_type"@),
            ) {
                (Some(blob), Some(mime_type)) => Some(
                    ResourceContentView::Blob { blob, mime_type },
                ),
                _ => None,
            },
        }
    }


    open spec fn survives(model: ResourceContentView) -> bool {
        true
    }

    proof fn lemma_survives(model: ResourceContentView) {
        lemma_prompt_names();
    }
    fn to_json(&self) -> (result: Value) {
        let mut object = json::object();
        match self {
            ResourceContent::Text { text } => {
                json::set_member(&mut object, "text", text.to_json());
            },
            ResourceContent::Blob { blob, mime_type } => {
                json::set_member(&mut object, "blob", blob.to_json());
                json::set_member(&mut object, "mime_type", mime_type.to_json());
            },
        }
        object
    }

    fn from_json(value: &Value) -> (result: Option<ResourceContent>) {
        match required::<String>(value, "text") {
            Some(text) => Some(ResourceContent::Text { text }),
            None => {
                let blob = match required::<String>(value, "blob") {
                    Some(blob) => blob,
                    None => return None,
                };
                let mime_type = match required::<String>(value, "mime_type") {
                    Some(mime_type) => mime_type,
                    None => return None,
                };
                Some(ResourceContent::Blob { blob, mime_type })
            },
        }
    }
}

/// One block of content. On the wire the member `type` names the kind:
/// `text`, `image`, `resource_link` or `resource`.
#[allow(inconsistent_fields)]
#[derive(Debug)]
pub enum ContentBlock {
    Text { text: String },
    Image { mime_type: String, data: Option<String>, uri: Option<String> },
    ResourceLink { uri: String },
    Resource { resource: ResourceContent },
}

/// `ContentBlock` as a mathematical value.
#[allow(inconsistent_fields)]
pub enum ContentBlockView {
    Text { text: Seq<char> },
    Image { mime_type: Seq<char>, data: Option<Seq<char>>, uri: Option<Seq<char>> },
    ResourceLink { uri: Seq<char> },
    Resource { resource: ResourceContentView },
}

impl View for ContentBlock {
    type V = ContentBlockView;

    open spec fn view(&self) -> ContentBlockView {
        match self {
            ContentBlock::Text { text } => ContentBlockView::Text { text: text@ },
            ContentBlock::Image { mime_type, data, uri } => ContentBlockView::Image {
                mime_type: mime_type@,
                data: optional_view(*data),
                uri: optional_view(*uri),
            },
            ContentBlock::ResourceLink { uri } => ContentBlockView::ResourceLink { uri: uri@ },
            ContentBlock::Resource { resource } => ContentBlockView::Resource {
                resource: resource@,
            },
        }
    }
}

impl ContentBlockView {
    /// A block of text has a string `text`.
    pub open spec fn decode_text(json: Json) -> Option<ContentBlockView> {
        match decode_required::<String>(json, "text"@) {
            Some(text) => Some(ContentBlockView::Text { text }),
            None => None,
        }
    }

    /// An image has a string `mime_type`, and may have the strings `data` and
    /// `uri`.
    pub open spec fn decode_image(json: Json) -> Option<ContentBlockView> {
        match (
            decode_required::<String>(json, "mime_type"@),
            decode_optional::<String>(json, "data"@),
            decode_optional::<String>(json, "uri"@),
        ) {
            (Some(mime_type), Some(data), Some(uri)) => Some(
                ContentBlockView::Image { mime_type, data, uri },
            ),
            _ => None,
        }
    }

    /// A link to a resource has a string `uri`.
    pub open spec fn decode_resource_link(json: Json) -> Option<ContentBlockView> {
        match decode_required::<String>(json, "uri"@) {
            Some(uri) => Some(ContentBlockView::ResourceLink { uri }),
            None => None,
        }
    }

    /// An inline resource has its content under `resource`.
    pub open spec fn decode_resource(json: Json) -> Option<ContentBlockView> {
        match decode_required::<ResourceContent>(json, "resource"@) {
            Some(resource) => Some(ContentBlockView::Resource { resource }),
            None => None,
        }
    }
}

impl ContentBlock {
    /// A block of text.
    pub fn text(text: &str) -> (result: ContentBlock)
        ensures
            result@ == (ContentBlockView::Text { text: text@ }),
    {
        ContentBlock::Text { text: text.to_owned() }
    }

    fn image_from_json(value: &Value) -> (result: Option<ContentBlock>)
        ensures
            match result {
                Some(read) => ContentBlockView::decode_image(json_of(*value)) == Some(read@),
                None => ContentBlockView::decode_image(json_of(*value)) is None,
            },
    {
        let mime_type = match required::<String>(value, "mime_type") {
            Some(mime_type) => mime_type,
            None => return None,
        };
        let data = match optional::<String>(value, "data") {
            Some(data) => data,
            None => return None,
        };
        let uri = match optional::<String>(value, "uri") {
            Some(uri) => uri,
            None => return None,
        };
        Some(ContentBlock::Image { mime_type, data, uri })
    }
}

impl Wire for ContentBlock {
    open spec fn encode(model: ContentBlockView) -> Json {
        match model {
            ContentBlockView::Text { text } => Json::empty_object().with(
                "type"@,
                Json::Str("text"@),
            ).with("text"@, Json::Str(text)),
            ContentBlockView::Image { mime_type, data, uri } => Json::empty_object().with(
                "type"@,
                Json::Str("image"@),
            ).with("mime_type"@, Json::Str(mime_type)).with_some(
                "data"@,
                encode_optional::<String>(data),
            ).with_some("uri"@, encode_optional::<String>(uri)),
            ContentBlockView::ResourceLink { uri } => Json::empty_object().with(
                "type"@,
                Json::Str("resource_link"@),
            ).with("uri"@, Json::Str(uri)),
            ContentBlockView::Resource { resource } => Json::empty_object().with(
                "type"@,
                Json::Str("resource"@),
            ).with("resource"@, ResourceContent::encode(resource)),
        }
    }

    open spec fn decode(json: Json) -> Option<ContentBlockView> {
        match decode_required::<String>(json, "type"@) {
            Some(kind) => if kind == "text"@ {
                ContentBlockView::decode_text(json)
            } else if kind == "image"@ {
                ContentBlockView::decode_image(json)
            } else if kind == "resource_link"@ {
                ContentBlockView::decode_resource_link(json)
            } else if kind == "resource"@ {
                ContentBlockView::decode_resource(json)
            } else {
                None
            },
            None => None,
        }
    }


    open spec fn survives(model: ContentBlockView) -> bool {
        true
    }

    proof fn lemma_survives(model: ContentBlockView) {
        lemma_prompt_names();
        if let ContentBlockView::Resource { resource } = model {
            ResourceContent::lemma_survives(resource);
        }
    }
    fn to_json(&self) -> (result: Value) {
        let mut object = json::object();
        match self {
            ContentBlock::Text { text } => {
                json::set_member(&mut object, "type", json::string("text"));
                json::set_member(&mut object, "text", text.to_json());
            },
            ContentBlock::Image { mime_type, data, uri } => {
                json::set_member(&mut object, "type", json::string("image"));
                json::set_member(&mut object, "mime_type", mime_type.to_json());
                set_optional(&mut object, "data", data);
                set_optional(&mut object, "uri", uri);
            },
            ContentBlock::ResourceLink { uri } => {
                json::set_member(&mut object, "type", json::string("resource_link"));
                json::set_member(&mut object, "uri", uri.to_json());
            },
            ContentBlock::Resource { resource } => {
                json::set_member(&mut object, "type", json::string("resource"));
                json::set_member(&mut object, "resource", resource.to_json());
            },
        }
        object
    }

    fn from_json(value: &Value) -> (result: Option<ContentBlock>) {
        let kind = match required::<String>(value, "type") {
            Some(kind) => kind,
            None => return None,
        };
        if text::same(kind.as_str(), "text") {
            match required::<String>(value, "text") {
                Some(text) => Some(ContentBlock::Text { text }),
                None => None,
            }
        } else if text::same(kind.as_str(), "image") {
            Self::image_from_json(value)
        } else if text::same(kind.as_str(), "resource_link") {
            match required::<String>(value, "uri") {
                Some(uri) => Some(ContentBlock::ResourceLink { uri }),
                None => None,
            }
        } else if text::same(kind.as_str(), "resource") {
            match required::<ResourceContent>(value, "resource") {
                Some(resource) => Some(ContentBlock::Resource { resource }),
                None => None,
            }
        } else {
            None
        }
    }
}

/// The parameters of `session/prompt`.
#[derive(Debug)]
pub struct PromptRequest {
    pub session_id: String,
    pub prompt: Vec<ContentBlock>,
    pub system: Option<Vec<ContentBlock>>,
}

/// `PromptRequest` as a mathematical value.
pub struct PromptRequestView {
    pub session_id: Seq<char>,
    pub prompt: Seq<ContentBlockView>,
    pub system: Option<Seq<ContentBlockView>>,
}

impl View for PromptRequest {
    type V = PromptRequestView;

    open spec fn view(&self) -> PromptRequestView {
        PromptRequestView {
            session_id: self.session_id@,
            prompt: views(self.prompt@),
            system: optional_views(self.system),
        }
    }
}

impl PromptRequestView {
    /// The request that submits one text to a session.
    pub open spec fn of_text(session_id: Seq<char>, text: Seq<char>) -> PromptRequestView {
        PromptRequestView {
            session_id,
            prompt: seq![ContentBlockView::Text { text }],
            system: None,
        }
    }
}

impl PromptRequest {
    /// The request that submits one text to a session: the text is its one
    /// block of content.
    pub fn of_text(session_id: &str, text: &str) -> (result: PromptRequest)
        ensures
            result@ == PromptRequestView::of_text(session_id@, text@),
    {
        let mut prompt: Vec<ContentBlock> = Vec::new();
        prompt.push(ContentBlock::text(text));
        let result = PromptRequest { session_id: session_id.to_owned(), prompt, system: None };
        assert(views(result.prompt@) =~= seq![ContentBlockView::Text { text: text@ }]);
        result
    }
}

impl Wire for PromptRequest {
    open spec fn encode(model: PromptRequestView) -> Json {
        Json::empty_object().with("session_id"@, Json::Str(model.session_id)).with(
            "prompt"@,
            encode_list::<ContentBlock>(model.prompt),
        ).with_some("system"@, encode_optional_list::<ContentBlock>(model.system))
    }

    open spec fn decode(json: Json) -> Option<PromptRequestView> {
        match (
            decode_required::<String>(json, "session_id"@),
            decode_required_list::<ContentBlock>(json, "prompt"@),
            decode_optional_list::<ContentBlock>(json, "system"@),
        ) {
            (Some(session_id), Some(prompt), Some(system)) => Some(
                PromptRequestView { session_id, prompt, system },
            ),
            _ => None,
        }
    }


    open spec fn survives(model: PromptRequestView) -> bool {
        true
    }

    proof fn lemma_survives(model: PromptRequestView) {
        lemma_prompt_names();
        lemma_list_survives::<ContentBlock>(model.prompt);
        if let Some(system) = model.system {
            lemma_list_survives::<ContentBlock>(system);
        }
    }
    fn to_json(&self) -> (result: Value) {
        let mut object = json::object();
        json::set_member(&mut object, "session_id", self.session_id.to_json());
        json::set_member(&mut object, "prompt", list_to_json::<ContentBlock>(&self.prompt));
        set_optional_list::<ContentBlock>(&mut object, "system", &self.system);
        object
    }

    fn from_json(value: &Value) -> (result: Option<PromptRequest>) {
        let session_id = match required::<String>(value, "session_id") {
            Some(session_id) => session_id,
            None => return None,
        };
        let prompt = match required_list::<ContentBlock>(value, "prompt") {
            Some(prompt) => prompt,
            None => return None,
        };
        let system = match optional_list::<ContentBlock>(value, "system") {
            Some(system) => system,
            None => return None,
        };
        Some(PromptRequest { session_id, prompt, system })
    }
}

/// The result of `session/prompt`. `meta`, where there is any, is a JSON
/// object.
#[derive(Debug)]
pub struct PromptResponse {
    pub stop_reason: Option<String>,
    pub meta: Option<Value>,
}

/// `PromptResponse` as a mathematical value.
pub struct PromptResponseView {
    pub stop_reason: Option<Seq<char>>,
    pub meta: Option<Json>,
}

impl View for PromptResponse {
    type V = PromptResponseView;

    open spec fn view(&self) -> PromptResponseView {
        PromptResponseView {
            stop_reason: optional_view(self.stop_reason),
            meta: optional_json(self.meta),
        }
    }
}

impl PromptResponseView {
    /// `meta` may be left out; where it is there, it must be an object.
    pub open spec fn decode_meta(json: Json) -> Option<Option<Json>> {
        match json.present("meta"@) {
            Some(meta) => if meta is Object {
                Some(Some(meta))
            } else {
                None
            },
            None => Some(None),
        }
    }
}

impl Wire for PromptResponse {
    open spec fn encode(model: PromptResponseView) -> Json {
        Json::empty_object().with_some(
            "stop_reason"@,
            encode_optional::<String>(model.stop_reason),
        ).with_some("meta"@, model.meta)
    }

    open spec fn decode(json: Json) -> Option<PromptResponseView> {
        if json is Object {
            match (
                decode_optional::<String>(json, "stop_reason"@),
                PromptResponseView::decode_meta(json),
            ) {
                (Some(stop_reason), Some(meta)) => Some(PromptResponseView { stop_reason, meta }),
                _ => None,
            }
        } else {
            None
        }
    }


    open spec fn survives(model: PromptResponseView) -> bool {
        model.meta matches Some(meta) ==> meta is Object
    }

    proof fn lemma_survives(model: PromptResponseView) {
        lemma_prompt_names();
    }
    fn to_json(&self) -> (result: Value) {
        let mut object = json::object();
        set_optional(&mut object, "stop_reason", &self.stop_reason);
        set_optional_value(&mut object, "meta", &self.meta);
        object
    }

    fn from_json(value: &Value) -> (result: Option<PromptResponse>) {
        if !json::is_object(value) {
            return None;
        }
        let stop_reason = match optional::<String>(value, "stop_reason") {
            Some(stop_reason) => stop_reason,
            None => return None,
        };
        let meta = match present(value, "meta") {
            Some(meta) => if json::is_object(meta) {
                Some(json::copy(meta))
            } else {
                return None;
            },
            None => None,
        };
        Some(PromptResponse { stop_reason, meta })
    }
}

/// The length and the first characters of each name used in this file: enough
/// to tell any two of them apart.
pub proof fn lemma_prompt_names()
    ensures
        "text"@.len() == 4 && "text"@[0] == 't' && "text"@[1] == 'e',
        "blob"@.len() == 4 && "blob"@[0] == 'b' && "blob"@[1] == 'l',
        "mime_type"@.len() == 9 && "mime_type"@[0] == 'm' && "mime_type"@[1] == 'i',
        "type"@.len() == 4 && "type"@[0] == 't' && "type"@[1] == 'y',
        "data"@.len() == 4 && "data"@[0] == 'd' && "data"@[1] == 'a',
        "uri"@.len() == 3 && "uri"@[0] == 'u' && "uri"@[1] == 'r',
        "resource"@.len() == 8 && "resource"@[0] == 'r' && "resource"@[1] == 'e',
        "session_id"@.len() == 10 && "session_id"@[0] == 's' && "session_id"@[1] == 'e',
        "prompt"@.len() == 6 && "prompt"@[0] == 'p' && "prompt"@[1] == 'r',
        "system"@.len() == 6 && "system"@[0] == 's' && "system"@[1] == 'y',
        "stop_reason"@.len() == 11 && "stop_reason"@[0] == 's' && "stop_reason"@[1] == 't',
        "meta"@.len() == 4 && "meta"@[0] == 'm' && "meta"@[1] == 'e',
        "image"@.len() == 5 && "image"@[0] == 'i' && "image"@[1] == 'm',
        "resource_link"@.len() == 13 && "resource_link"@[0] == 'r' && "resource_link"@[1] == 'e',
{
    reveal_strlit("text");
    reveal_strlit("blob");
    reveal_strlit("mime_type");
    reveal_strlit("type");
    reveal_strlit("data");
    reveal_strlit("uri");
    reveal_strlit("resource");
    reveal_strlit("session_id");
    reveal_strlit("prompt");
    reveal_strlit("system");
    reveal_strlit("stop_reason");
    reveal_strlit("meta");
    reveal_strlit("image");
    reveal_strlit("resource_link");
}

} // verus!
