//! Opening and loading a session: the request, the auxiliary tool servers it
//! may name, and the models and modes the agent offers in its answer.

use crate::json;
use crate::json::{json_of, Json};
use crate::named::optional_named_map;
use crate::model::{optional_view, optional_views, views};
use crate::protocol::codec::{lemma_list_survives, lemma_object_survives, decode_optional, decode_optional_list, decode_optional_object, decode_required, decode_required_list, encode_list, encode_nullable, encode_optional, encode_optional_list, encode_optional_object, list_to_json, nullable_to_json, optional, optional_list, optional_object, required, required_list, set_optional, set_optional_list, set_optional_object, Wire};
use serde_json::Value;
use vstd::prelude::*;

verus! {

/// How an auxiliary tool server is reached: a command to run here, or an
/// address to call.
#[derive(Debug)]
pub enum McpServerConfig {
    Local { command: Vec<String>, env: Option<Vec<(String, String)>> },
    Remote { url: String, headers: Option<Vec<(String, String)>> },
}

/// `McpServerConfig` as a mathematical value.
pub enum McpServerConfigView {
    Local { command: Seq<Seq<char>>, env: Option<Map<Seq<char>, Seq<char>>> },
    Remote { url: Seq<char>, headers: Option<Map<Seq<char>, Seq<char>>> },
}

impl View for McpServerConfig {
    type V = McpServerConfigView;

    open spec fn view(&self) -> McpServerConfigView {
        match self {
            McpServerConfig::Local { command, env } => McpServerConfigView::Local {
                command: views(command@),
                env: optional_named_map(*env),
            },
            McpServerConfig::Remote { url, headers } => McpServerConfigView::Remote {
                url: url@,
                headers: optional_named_map(*headers),
            },
        }
    }
}

impl McpServerConfigView {
    /// A local server has a member `command`, a list of strings.
    pub open spec fn decode_local(json: Json) -> Option<McpServerConfigView> {
        match (
            decode_required_list::<String>(json, "command"@),
            decode_optional_object::<String>(json, "env"@),
        ) {
            (Some(command), Some(env)) => Some(McpServerConfigView::Local { command, env }),
            _ => None,
        }
    }

    /// A remote server has a member `url`, a string.
    pub open spec fn decode_remote(json: Json) -> Option<McpServerConfigView> {
        match (
            decode_required::<String>(json, "url"@),
            decode_optional_object::<String>(json, "headers"@),
        ) {
            (Some(url), Some(headers)) => Some(McpServerConfigView::Remote { url, headers }),
            _ => None,
        }
    }
}

impl McpServerConfig {
    fn local_from_json(value: &Value) -> (result: Option<McpServerConfig>)
        ensures
            match result {
                Some(read) => McpServerConfigView::decode_local(json_of(*value)) == Some(read@),
                None => McpServerConfigView::decode_local(json_of(*value)) is None,
            },
    {
        let command = match required_list::<String>(value, "command") {
            Some(command) => command,
            None => return None,
        };
        let env = match optional_object::<String>(value, "env") {
            Some(env) => env,
            None => return None,
        };
        Some(McpServerConfig::Local { command, env })
    }

    fn remote_from_json(value: &Value) -> (result: Option<McpServerConfig>)
        ensures
            match result {
                Some(read) => McpServerConfigView::decode_remote(json_of(*value)) == Some(read@),
                None => McpServerConfigView::decode_remote(json_of(*value)) is None,
            },
    {
        let url = match required::<String>(value, "url") {
            Some(url) => url,
            None => return None,
        };
        let headers = match optional_object::<String>(value, "headers") {
            Some(headers) => headers,
            None => return None,
        };
        Some(McpServerConfig::Remote { url, headers })
    }
}

impl Wire for McpServerConfig {
    open spec fn encode(model: McpServerConfigView) -> Json {
        match model {
            McpServerConfigView::Local { command, env } => Json::empty_object().with(
                "command"@,
                encode_list::<String>(command),
            ).with_some("env"@, encode_optional_object::<String>(env)),
            McpServerConfigView::Remote { url, headers } => Json::empty_object().with(
                "url"@,
                Json::Str(url),
            ).with_some("headers"@, encode_optional_object::<String>(headers)),
        }
    }

    /// A document that can be read as a local server is one; any other is
    /// read as a remote server.
    open spec fn decode(json: Json) -> Option<McpServerConfigView> {
        match McpServerConfigView::decode_local(json) {
            Some(local) => Some(local),
            None => McpServerConfigView::decode_remote(json),
        }
    }


    open spec fn survives(model: McpServerConfigView) -> bool {
        true
    }

    proof fn lemma_survives(model: McpServerConfigView) {
        lemma_session_names();
        match model {
            McpServerConfigView::Local { command, env } => {
                lemma_list_survives::<String>(command);
                if let Some(env) = env {
                    lemma_object_survives::<String>(env);
                }
            },
            McpServerConfigView::Remote { url, headers } => {
                if let Some(headers) = headers {
                    lemma_object_survives::<String>(headers);
                }
            },
        }
    }
    fn to_json(&self) -> (result: Value) {
        let mut object = json::object();
        match self {
            McpServerConfig::Local { command, env } => {
                json::set_member(&mut object, "command", list_to_json::<String>(command));
                set_optional_object::<String>(&mut object, "env", env);
            },
            McpServerConfig::Remote { url, headers } => {
                json::set_member(&mut object, "url", url.to_json());
                set_optional_object::<String>(&mut object, "headers", headers);
            },
        }
        object
    }

    fn from_json(value: &Value) -> (result: Option<McpServerConfig>) {
        match Self::local_from_json(value) {
            Some(local) => Some(local),
            None => Self::remote_from_json(value),
        }
    }
}

/// An auxiliary tool server: its name, and how it is reached. On the wire
/// the name stands beside the members that say how.
#[derive(Debug)]
pub struct McpServer {
    pub name: String,
    pub config: McpServerConfig,
}

/// `McpServer` as a mathematical value.
pub struct McpServerView {
    pub name: Seq<char>,
    pub config: McpServerConfigView,
}

impl View for McpServer {
    type V = McpServerView;

    open spec fn view(&self) -> McpServerView {
        McpServerView { name: self.name@, config: self.config@ }
    }
}

impl Wire for McpServer {
    open spec fn encode(model: McpServerView) -> Json {
        McpServerConfig::encode(model.config).with("name"@, Json::Str(model.name))
    }

    open spec fn decode(json: Json) -> Option<McpServerView> {
        match (decode_required::<String>(json, "name"@), McpServerConfig::decode(json)) {
            (Some(name), Some(config)) => Some(McpServerView { name, config }),
            _ => None,
        }
    }


    open spec fn survives(model: McpServerView) -> bool {
        true
    }

    proof fn lemma_survives(model: McpServerView) {
        lemma_session_names();
        McpServerConfig::lemma_survives(model.config);
        let inner = McpServerConfig::encode(model.config);
        let outer = McpServer::encode(model);
        assert(McpServerConfigView::decode_local(outer) == McpServerConfigView::decode_local(inner));
        assert(McpServerConfigView::decode_remote(outer) == McpServerConfigView::decode_remote(
            inner,
        ));
    }
    fn to_json(&self) -> (result: Value) {
        let mut object = self.config.to_json();
        json::set_member(&mut object, "name", self.name.to_json());
        object
    }

    fn from_json(value: &Value) -> (result: Option<McpServer>) {
        let name = match required::<String>(value, "name") {
            Some(name) => name,
            None => return None,
        };
        let config = match McpServerConfig::from_json(value) {
            Some(config) => config,
            None => return None,
        };
        Some(McpServer { name, config })
    }
}

/// One model an agent offers.
#[derive(Debug)]
pub struct ModelInfo {
    pub model_id: String,
    pub name: String,
}

/// `ModelInfo` as a mathematical value.
pub struct ModelInfoView {
    pub model_id: Seq<char>,
    pub name: Seq<char>,
}

impl View for ModelInfo {
    type V = ModelInfoView;

    open spec fn view(&self) -> ModelInfoView {
        ModelInfoView { model_id: self.model_id@, name: self.name@ }
    }
}

impl Wire for ModelInfo {
    open spec fn encode(model: ModelInfoView) -> Json {
        Json::empty_object().with("model_id"@, Json::Str(model.model_id)).with(
            "name"@,
            Json::Str(model.name),
        )
    }

    open spec fn decode(json: Json) -> Option<ModelInfoView> {
        match (
            decode_required::<String>(json, "model_id"@),
            decode_required::<String>(json, "name"@),
        ) {
            (Some(model_id), Some(name)) => Some(ModelInfoView { model_id, name }),
            _ => None,
        }
    }


    open spec fn survives(model: ModelInfoView) -> bool {
        true
    }

    proof fn lemma_survives(model: ModelInfoView) {
        lemma_session_names();
    }
    fn to_json(&self) -> (result: Value) {
        let mut object = json::object();
        json::set_member(&mut object, "model_id", self.model_id.to_json());
        json::set_member(&mut object, "name", self.name.to_json());
        object
    }

    fn from_json(value: &Value) -> (result: Option<ModelInfo>) {
        let model_id = match required::<String>(value, "model_id") {
            Some(model_id) => model_id,
            None => return None,
        };
        let name = match required::<String>(value, "name") {
            Some(name) => name,
            None => return None,
        };
        Some(ModelInfo { model_id, name })
    }
}

/// The models an agent offers, and the one in use. A missing current model
/// is written as null.
#[derive(Debug)]
pub struct ModelsInfo {
    pub current_model_id: Option<String>,
    pub available_models: Vec<ModelInfo>,
}

/// `ModelsInfo` as a mathematical value.
pub struct ModelsInfoView {
    pub current_model_id: Option<Seq<char>>,
    pub available_models: Seq<ModelInfoView>,
}

impl View for ModelsInfo {
    type V = ModelsInfoView;

    open spec fn view(&self) -> ModelsInfoView {
        ModelsInfoView {
            current_model_id: optional_view(self.current_model_id),
            available_models: views(self.available_models@),
        }
    }
}

impl Wire for ModelsInfo {
    open spec fn encode(model: ModelsInfoView) -> Json {
        Json::empty_object().with(
            "current_model_id"@,
            encode_nullable::<String>(model.current_model_id),
        ).with("available_models"@, encode_list::<ModelInfo>(model.available_models))
    }

    open spec fn decode(json: Json) -> Option<ModelsInfoView> {
        match (
            decode_optional::<String>(json, "current_model_id"@),
            decode_required_list::<ModelInfo>(json, "available_models"@),
        ) {
            (Some(current_model_id), Some(available_models)) => Some(
                ModelsInfoView { current_model_id, available_models },
            ),
            _ => None,
        }
    }


    open spec fn survives(model: ModelsInfoView) -> bool {
        true
    }

    proof fn lemma_survives(model: ModelsInfoView) {
        lemma_session_names();
        lemma_list_survives::<ModelInfo>(model.available_models);
    }
    fn to_json(&self) -> (result: Value) {
        let mut object = json::object();
        json::set_member(
            &mut object,
            "current_model_id",
            nullable_to_json::<String>(&self.current_model_id),
        );
        json::set_member(
            &mut object,
            "available_models",
            list_to_json::<ModelInfo>(&self.available_models),
        );
        object
    }

    fn from_json(value: &Value) -> (result: Option<ModelsInfo>) {
        let current_model_id = match optional::<String>(value, "current_model_id") {
            Some(current_model_id) => current_model_id,
            None => return None,
        };
        let available_models = match required_list::<ModelInfo>(value, "available_models") {
            Some(available_models) => available_models,
            None => return None,
        };
        Some(ModelsInfo { current_model_id, available_models })
    }
}

/// One mode an agent offers.
#[derive(Debug)]
pub struct ModeInfo {
    pub id: String,
    pub name: String,
    pub description: Option<String>,
}

/// `ModeInfo` as a mathematical value.
pub struct ModeInfoView {
    pub id: Seq<char>,
    pub name: Seq<char>,
    pub description: Option<Seq<char>>,
}

impl View for ModeInfo {
    type V = ModeInfoView;

    open spec fn view(&self) -> ModeInfoView {
        ModeInfoView { id: self.id@, name: self.name@, description: optional_view(self.description) }
    }
}

impl Wire for ModeInfo {
    open spec fn encode(model: ModeInfoView) -> Json {
        Json::empty_object().with("id"@, Json::Str(model.id)).with(
            "name"@,
            Json::Str(model.name),
        ).with_some("description"@, encode_optional::<String>(model.description))
    }

    open spec fn decode(json: Json) -> Option<ModeInfoView> {
        match (
            decode_required::<String>(json, "id"@),
            decode_required::<String>(json, "name"@),
            decode_optional::<String>(json, "description"@),
        ) {
            (Some(id), Some(name), Some(description)) => Some(
                ModeInfoView { id, name, description },
            ),
            _ => None,
        }
    }


    open spec fn survives(model: ModeInfoView) -> bool {
        true
    }

    proof fn lemma_survives(model: ModeInfoView) {
        lemma_session_names();
    }
    fn to_json(&self) -> (result: Value) {
        let mut object = json::object();
        json::set_member(&mut object, "id", self.id.to_json());
        json::set_member(&mut object, "name", self.name.to_json());
        set_optional(&mut object, "description", &self.description);
        object
    }

    fn from_json(value: &Value) -> (result: Option<ModeInfo>) {
        let id = match required::<String>(value, "id") {
            Some(id) => id,
            None => return None,
        };
        let name = match required::<String>(value, "name") {
            Some(name) => name,
            None => return None,
        };
        let description = match optional::<String>(value, "description") {
            Some(description) => description,
            None => return None,
        };
        Some(ModeInfo { id, name, description })
    }
}

/// The modes an agent offers, and the one in use. A missing current mode is
/// written as null.
#[derive(Debug)]
pub struct ModesInfo {
    pub available_modes: Vec<ModeInfo>,
    pub current_mode_id: Option<String>,
}

/// `ModesInfo` as a mathematical value.
pub struct ModesInfoView {
    pub available_modes: Seq<ModeInfoView>,
    pub current_mode_id: Option<Seq<char>>,
}

impl View for ModesInfo {
    type V = ModesInfoView;

    open spec fn view(&self) -> ModesInfoView {
        ModesInfoView {
            available_modes: views(self.available_modes@),
            current_mode_id: optional_view(self.current_mode_id),
        }
    }
}

impl Wire for ModesInfo {
    open spec fn encode(model: ModesInfoView) -> Json {
        Json::empty_object().with(
            "available_modes"@,
            encode_list::<ModeInfo>(model.available_modes),
        ).with("current_mode_id"@, encode_nullable::<String>(model.current_mode_id))
    }

    open spec fn decode(json: Json) -> Option<ModesInfoView> {
        match (
            decode_required_list::<ModeInfo>(json, "available_modes"@),
            decode_optional::<String>(json, "current_mode_id"@),
        ) {
            (Some(available_modes), Some(current_mode_id)) => Some(
                ModesInfoView { available_modes, current_mode_id },
            ),
            _ => None,
        }
    }


    open spec fn survives(model: ModesInfoView) -> bool {
        true
    }

    proof fn lemma_survives(model: ModesInfoView) {
        lemma_session_names();
        lemma_list_survives::<ModeInfo>(model.available_modes);
    }
    fn to_json(&self) -> (result: Value) {
        let mut object = json::object();
        json::set_member(
            &mut object,
            "available_modes",
            list_to_json::<ModeInfo>(&self.available_modes),
        );
        json::set_member(
            &mut object,
            "current_mode_id",
            nullable_to_json::<String>(&self.current_mode_id),
        );
        object
    }

    fn from_json(value: &Value) -> (result: Option<ModesInfo>) {
        let available_modes = match required_list::<ModeInfo>(value, "available_modes") {
            Some(available_modes) => available_modes,
            None => return None,
        };
        let current_mode_id = match optional::<String>(value, "current_mode_id") {
            Some(current_mode_id) => current_mode_id,
            None => return None,
        };
        Some(ModesInfo { available_modes, current_mode_id })
    }
}

/// The parameters of `session/new`.
#[derive(Debug)]
pub struct NewSessionRequest {
    pub cwd: Option<String>,
    pub mcp_servers: Option<Vec<McpServer>>,
}

/// `NewSessionRequest` as a mathematical value.
pub struct NewSessionRequestView {
    pub cwd: Option<Seq<char>>,
    pub mcp_servers: Option<Seq<McpServerView>>,
}

impl View for NewSessionRequest {
    type V = NewSessionRequestView;

    open spec fn view(&self) -> NewSessionRequestView {
        NewSessionRequestView {
            cwd: optional_view(self.cwd),
            mcp_servers: optional_views(self.mcp_servers),
        }
    }
}

impl Wire for NewSessionRequest {
    open spec fn encode(model: NewSessionRequestView) -> Json {
        Json::empty_object().with_some("cwd"@, encode_optional::<String>(model.cwd)).with_some(
            "mcp_servers"@,
            encode_optional_list::<McpServer>(model.mcp_servers),
        )
    }

    open spec fn decode(json: Json) -> Option<NewSessionRequestView> {
        if json is Object {
            match (
                decode_optional::<String>(json, "cwd"@),
                decode_optional_list::<McpServer>(json, "mcp_servers"@),
            ) {
                (Some(cwd), Some(mcp_servers)) => Some(NewSessionRequestView { cwd, mcp_servers }),
                _ => None,
            }
        } else {
            None
        }
    }


    open spec fn survives(model: NewSessionRequestView) -> bool {
        true
    }

    proof fn lemma_survives(model: NewSessionRequestView) {
        lemma_session_names();
        if let Some(servers) = model.mcp_servers {
            lemma_list_survives::<McpServer>(servers);
        }
    }
    fn to_json(&self) -> (result: Value) {
        let mut object = json::object();
        set_optional(&mut object, "cwd", &self.cwd);
        set_optional_list::<McpServer>(&mut object, "mcp_servers", &self.mcp_servers);
        object
    }

    fn from_json(value: &Value) -> (result: Option<NewSessionRequest>) {
        if !json::is_object(value) {
            return None;
        }
        let cwd = match optional::<String>(value, "cwd") {
            Some(cwd) => cwd,
            None => return None,
        };
        let mcp_servers = match optional_list::<McpServer>(value, "mcp_servers") {
            Some(mcp_servers) => mcp_servers,
            None => return None,
        };
        Some(NewSessionRequest { cwd, mcp_servers })
    }
}

/// The result of `session/new`: the identifier the agent gave the session.
#[derive(Debug)]
pub struct NewSessionResponse {
    pub session_id: String,
    pub models: Option<ModelsInfo>,
    pub modes: Option<ModesInfo>,
}

/// `NewSessionResponse` as a mathematical value.
pub struct NewSessionResponseView {
    pub session_id: Seq<char>,
    pub models: Option<ModelsInfoView>,
    pub modes: Option<ModesInfoView>,
}

impl View for NewSessionResponse {
    type V = NewSessionResponseView;

    open spec fn view(&self) -> NewSessionResponseView {
        NewSessionResponseView {
            session_id: self.session_id@,
            models: optional_view(self.models),
            modes: optional_view(self.modes),
        }
    }
}

impl Wire for NewSessionResponse {
    open spec fn encode(model: NewSessionResponseView) -> Json {
        Json::empty_object().with("session_id"@, Json::Str(model.session_id)).with_some(
            "models"@,
            encode_optional::<ModelsInfo>(model.models),
        ).with_some("modes"@, encode_optional::<ModesInfo>(model.modes))
    }

    open spec fn decode(json: Json) -> Option<NewSessionResponseView> {
        match (
            decode_required::<String>(json, "session_id"@),
            decode_optional::<ModelsInfo>(json, "models"@),
            decode_optional::<ModesInfo>(json, "modes"@),
        ) {
            (Some(session_id), Some(models), Some(modes)) => Some(
                NewSessionResponseView { session_id, models, modes },
            ),
            _ => None,
        }
    }


    open spec fn survives(model: NewSessionResponseView) -> bool {
        true
    }

    proof fn lemma_survives(model: NewSessionResponseView) {
        lemma_session_names();
        if let Some(inner) = model.models {
            ModelsInfo::lemma_survives(inner);
        }
        if let Some(inner) = model.modes {
            ModesInfo::lemma_survives(inner);
        }
    }
    fn to_json(&self) -> (result: Value) {
        let mut object = json::object();
        json::set_member(&mut object, "session_id", self.session_id.to_json());
        set_optional(&mut object, "models", &self.models);
        set_optional(&mut object, "modes", &self.modes);
        object
    }

    fn from_json(value: &Value) -> (result: Option<NewSessionResponse>) {
        let session_id = match required::<String>(value, "session_id") {
            Some(session_id) => session_id,
            None => return None,
        };
        let models = match optional::<ModelsInfo>(value, "models") {
            Some(models) => models,
            None => return None,
        };
        let modes = match optional::<ModesInfo>(value, "modes") {
            Some(modes) => modes,
            None => return None,
        };
        Some(NewSessionResponse { session_id, models, modes })
    }
}

/// The parameters of a request to load a session that exists.
#[derive(Debug)]
pub struct LoadSessionRequest {
    pub cwd: Option<String>,
    pub mcp_servers: Option<Vec<McpServer>>,
    pub session_id: String,
}

/// `LoadSessionRequest` as a mathematical value.
pub struct LoadSessionRequestView {
    pub cwd: Option<Seq<char>>,
    pub mcp_servers: Option<Seq<McpServerView>>,
    pub session_id: Seq<char>,
}

impl View for LoadSessionRequest {
    type V = LoadSessionRequestView;

    open spec fn view(&self) -> LoadSessionRequestView {
        LoadSessionRequestView {
            cwd: optional_view(self.cwd),
            mcp_servers: optional_views(self.mcp_servers),
            session_id: self.session_id@,
        }
    }
}

impl Wire for LoadSessionRequest {
    open spec fn encode(model: LoadSessionRequestView) -> Json {
        Json::empty_object().with_some("cwd"@, encode_optional::<String>(model.cwd)).with_some(
            "mcp_servers"@,
            encode_optional_list::<McpServer>(model.mcp_servers),
        ).with("session_id"@, Json::Str(model.session_id))
    }

    open spec fn decode(json: Json) -> Option<LoadSessionRequestView> {
        match (
            decode_optional::<String>(json, "cwd"@),
            decode_optional_list::<McpServer>(json, "mcp_servers"@),
            decode_required::<String>(json, "session_id"@),
        ) {
            (Some(cwd), Some(mcp_servers), Some(session_id)) => Some(
                LoadSessionRequestView { cwd, mcp_servers, session_id },
            ),
            _ => None,
        }
    }


    open spec fn survives(model: LoadSessionRequestView) -> bool {
        true
    }

    proof fn lemma_survives(model: LoadSessionRequestView) {
        lemma_session_names();
        if let Some(servers) = model.mcp_servers {
            lemma_list_survives::<McpServer>(servers);
        }
    }
    fn to_json(&self) -> (result: Value) {
        let mut object = json::object();
        set_optional(&mut object, "cwd", &self.cwd);
        set_optional_list::<McpServer>(&mut object, "mcp_servers", &self.mcp_servers);
        json::set_member(&mut object, "session_id", self.session_id.to_json());
        object
    }

    fn from_json(value: &Value) -> (result: Option<LoadSessionRequest>) {
        let cwd = match optional::<String>(value, "cwd") {
            Some(cwd) => cwd,
            None => return None,
        };
        let mcp_servers = match optional_list::<McpServer>(value, "mcp_servers") {
            Some(mcp_servers) => mcp_servers,
            None => return None,
        };
        let session_id = match required::<String>(value, "session_id") {
            Some(session_id) => session_id,
            None => return None,
        };
        Some(LoadSessionRequest { cwd, mcp_servers, session_id })
    }
}

/// The result of a request to load a session.
#[derive(Debug)]
pub struct LoadSessionResponse {
    pub session_id: String,
    pub models: Option<ModelsInfo>,
    pub modes: Option<ModesInfo>,
}

/// `LoadSessionResponse` as a mathematical value.
pub struct LoadSessionResponseView {
    pub session_id: Seq<char>,
    pub models: Option<ModelsInfoView>,
    pub modes: Option<ModesInfoView>,
}

impl View for LoadSessionResponse {
    type V = LoadSessionResponseView;

    open spec fn view(&self) -> LoadSessionResponseView {
        LoadSessionResponseView {
            session_id: self.session_id@,
            models: optional_view(self.models),
            modes: optional_view(self.modes),
        }
    }
}

impl Wire for LoadSessionResponse {
    open spec fn encode(model: LoadSessionResponseView) -> Json {
        Json::empty_object().with("session_id"@, Json::Str(model.session_id)).with_some(
            "models"@,
            encode_optional::<ModelsInfo>(model.models),
        ).with_some("modes"@, encode_optional::<ModesInfo>(model.modes))
    }

    open spec fn decode(json: Json) -> Option<LoadSessionResponseView> {
        match (
            decode_required::<String>(json, "session_id"@),
            decode_optional::<ModelsInfo>(json, "models"@),
            decode_optional::<ModesInfo>(json, "modes"@),
        ) {
            (Some(session_id), Some(models), Some(modes)) => Some(
                LoadSessionResponseView { session_id, models, modes },
            ),
            _ => None,
        }
    }


    open spec fn survives(model: LoadSessionResponseView) -> bool {
        true
    }

    proof fn lemma_survives(model: LoadSessionResponseView) {
        lemma_session_names();
        if let Some(inner) = model.models {
            ModelsInfo::lemma_survives(inner);
        }
        if let Some(inner) = model.modes {
            ModesInfo::lemma_survives(inner);
        }
    }
    fn to_json(&self) -> (result: Value) {
        let mut object = json::object();
        json::set_member(&mut object, "session_id", self.session_id.to_json());
        set_optional(&mut object, "models", &self.models);
        set_optional(&mut object, "modes", &self.modes);
        object
    }

    fn from_json(value: &Value) -> (result: Option<LoadSessionResponse>) {
        let session_id = match required::<String>(value, "session_id") {
            Some(session_id) => session_id,
            None => return None,
        };
        let models = match optional::<ModelsInfo>(value, "models") {
            Some(models) => models,
            None => return None,
        };
        let modes = match optional::<ModesInfo>(value, "modes") {
            Some(modes) => modes,
            None => return None,
        };
        Some(LoadSessionResponse { session_id, models, modes })
    }
}

/// The length and the first characters of each name used in this file: enough
/// to tell any two of them apart.
pub proof fn lemma_session_names()
    ensures
        "command"@.len() == 7 && "command"@[0] == 'c' && "command"@[1] == 'o',
        "env"@.len() == 3 && "env"@[0] == 'e' && "env"@[1] == 'n',
        "url"@.len() == 3 && "url"@[0] == 'u' && "url"@[1] == 'r',
        "headers"@.len() == 7 && "headers"@[0] == 'h' && "headers"@[1] == 'e',
        "name"@.len() == 4 && "name"@[0] == 'n' && "name"@[1] == 'a',
        "model_id"@.len() == 8 && "model_id"@[0] == 'm' && "model_id"@[1] == 'o',
        "current_model_id"@.len() == 16 && "current_model_id"@[0] == 'c' && "current_model_id"@[1] == 'u',
        "available_models"@.len() == 16 && "available_models"@[0] == 'a' && "available_models"@[1] == 'v',
        "id"@.len() == 2 && "id"@[0] == 'i' && "id"@[1] == 'd',
        "description"@.len() == 11 && "description"@[0] == 'd' && "description"@[1] == 'e',
        "available_modes"@.len() == 15 && "available_modes"@[0] == 'a' && "available_modes"@[1] == 'v',
        "current_mode_id"@.len() == 15 && "current_mode_id"@[0] == 'c' && "current_mode_id"@[1] == 'u',
        "cwd"@.len() == 3 && "cwd"@[0] == 'c' && "cwd"@[1] == 'w',
        "mcp_servers"@.len() == 11 && "mcp_servers"@[0] == 'm' && "mcp_servers"@[1] == 'c',
        "session_id"@.len() == 10 && "session_id"@[0] == 's' && "session_id"@[1] == 'e',
        "models"@.len() == 6 && "models"@[0] == 'm' && "models"@[1] == 'o',
        "modes"@.len() == 5 && "modes"@[0] == 'm' && "modes"@[1] == 'o',
{
    reveal_strlit("command");
    reveal_strlit("env");
    reveal_strlit("url");
    reveal_strlit("headers");
    reveal_strlit("name");
    reveal_strlit("model_id");
    reveal_strlit("current_model_id");
    reveal_strlit("available_models");
    reveal_strlit("id");
    reveal_strlit("description");
    reveal_strlit("available_modes");
    reveal_strlit("current_mode_id");
    reveal_strlit("cwd");
    reveal_strlit("mcp_servers");
    reveal_strlit("session_id");
    reveal_strlit("models");
    reveal_strlit("modes");
}

} // verus!
