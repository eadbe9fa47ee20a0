//! The handshake: what the client says of itself, and what the agent
//! answers.

use crate::json;
use crate::json::{optional_json, Json};
use crate::model::{optional_view};
use crate::protocol::codec::{json_survives, optional_survives, decode_optional, decode_required, encode_optional, optional, optional_value, required, set_optional, set_optional_value, Wire};
use serde_json::Value;
use vstd::prelude::*;

verus! {

/// The name and the version of a client.
#[derive(Debug)]
pub struct ClientInfo {
    pub name: String,
    pub version: String,
}

/// `ClientInfo` as a mathematical value.
pub struct ClientInfoView {
    pub name: Seq<char>,
    pub version: Seq<char>,
}

impl View for ClientInfo {
    type V = ClientInfoView;

    open spec fn view(&self) -> ClientInfoView {
        ClientInfoView { name: self.name@, version: self.version@ }
    }
}

impl Wire for ClientInfo {
    open spec fn encode(model: ClientInfoView) -> Json {
        Json::empty_object().with("name"@, Json::Str(model.name)).with(
            "version"@,
            Json::Str(model.version),
        )
    }

    open spec fn decode(json: Json) -> Option<ClientInfoView> {
        match (
            decode_required::<String>(json, "name"@),
            decode_required::<String>(json, "version"@),
        ) {
            (Some(name), Some(version)) => Some(ClientInfoView { name, version }),
            _ => None,
        }
    }


    open spec fn survives(model: ClientInfoView) -> bool {
        true
    }

    proof fn lemma_survives(model: ClientInfoView) {
        lemma_initialize_names();
    }
    fn to_json(&self) -> (result: Value) {
        let mut object = json::object();
        json::set_member(&mut object, "name", self.name.to_json());
        json::set_member(&mut object, "version", self.version.to_json());
        object
    }

    fn from_json(value: &Value) -> (result: Option<ClientInfo>) {
        let name = match required::<String>(value, "name") {
            Some(name) => name,
            None => return None,
        };
        let version = match required::<String>(value, "version") {
            Some(version) => version,
            None => return None,
        };
        Some(ClientInfo { name, version })
    }
}

/// The name and the version of an agent.
#[derive(Debug)]
pub struct ServerInfo {
    pub name: String,
    pub version: String,
}

/// `ServerInfo` as a mathematical value.
pub struct ServerInfoView {
    pub name: Seq<char>,
    pub version: Seq<char>,
}

impl View for ServerInfo {
    type V = ServerInfoView;

    open spec fn view(&self) -> ServerInfoView {
        ServerInfoView { name: self.name@, version: self.version@ }
    }
}

impl Wire for ServerInfo {
    open spec fn encode(model: ServerInfoView) -> Json {
        Json::empty_object().with("name"@, Json::Str(model.name)).with(
            "version"@,
            Json::Str(model.version),
        )
    }

    open spec fn decode(json: Json) -> Option<ServerInfoView> {
        match (
            decode_required::<String>(json, "name"@),
            decode_required::<String>(json, "version"@),
        ) {
            (Some(name), Some(version)) => Some(ServerInfoView { name, version }),
            _ => None,
        }
    }


    open spec fn survives(model: ServerInfoView) -> bool {
        true
    }

    proof fn lemma_survives(model: ServerInfoView) {
        lemma_initialize_names();
    }
    fn to_json(&self) -> (result: Value) {
        let mut object = json::object();
        json::set_member(&mut object, "name", self.name.to_json());
        json::set_member(&mut object, "version", self.version.to_json());
        object
    }

    fn from_json(value: &Value) -> (result: Option<ServerInfo>) {
        let name = match required::<String>(value, "name") {
            Some(name) => name,
            None => return None,
        };
        let version = match required::<String>(value, "version") {
            Some(version) => version,
            None => return None,
        };
        Some(ServerInfo { name, version })
    }
}

/// What a client can do.
#[derive(Debug)]
pub struct ClientCapabilities {
    pub sampling: Option<Value>,
}

/// `ClientCapabilities` as a mathematical value.
pub struct ClientCapabilitiesView {
    pub sampling: Option<Json>,
}

impl View for ClientCapabilities {
    type V = ClientCapabilitiesView;

    open spec fn view(&self) -> ClientCapabilitiesView {
        ClientCapabilitiesView { sampling: optional_json(self.sampling) }
    }
}

impl Wire for ClientCapabilities {
    open spec fn encode(model: ClientCapabilitiesView) -> Json {
        Json::empty_object().with_some("sampling"@, model.sampling)
    }

    open spec fn decode(json: Json) -> Option<ClientCapabilitiesView> {
        if json is Object {
            Some(ClientCapabilitiesView { sampling: json.present("sampling"@) })
        } else {
            None
        }
    }


    open spec fn survives(model: ClientCapabilitiesView) -> bool {
        json_survives(model.sampling)
    }

    proof fn lemma_survives(model: ClientCapabilitiesView) {
        lemma_initialize_names();
    }
    fn to_json(&self) -> (result: Value) {
        let mut object = json::object();
        set_optional_value(&mut object, "sampling", &self.sampling);
        object
    }

    fn from_json(value: &Value) -> (result: Option<ClientCapabilities>) {
        if !json::is_object(value) {
            return None;
        }
        Some(ClientCapabilities { sampling: optional_value(value, "sampling") })
    }
}

/// What an agent can do.
#[derive(Debug)]
pub struct ServerCapabilities {
    pub experimental: Option<Value>,
    pub logging: Option<Value>,
}

/// `ServerCapabilities` as a mathematical value.
pub struct ServerCapabilitiesView {
    pub experimental: Option<Json>,
    pub logging: Option<Json>,
}

impl View for ServerCapabilities {
    type V = ServerCapabilitiesView;

    open spec fn view(&self) -> ServerCapabilitiesView {
        ServerCapabilitiesView {
            experimental: optional_json(self.experimental),
            logging: optional_json(self.logging),
        }
    }
}

impl Wire for ServerCapabilities {
    open spec fn encode(model: ServerCapabilitiesView) -> Json {
        Json::empty_object().with_some("experimental"@, model.experimental).with_some(
            "logging"@,
            model.logging,
        )
    }

    open spec fn decode(json: Json) -> Option<ServerCapabilitiesView> {
        if json is Object {
            Some(
                ServerCapabilitiesView {
                    experimental: json.present("experimental"@),
                    logging: json.present("logging"@),
                },
            )
        } else {
            None
        }
    }


    open spec fn survives(model: ServerCapabilitiesView) -> bool {
        json_survives(model.experimental) && json_survives(model.logging)
    }

    proof fn lemma_survives(model: ServerCapabilitiesView) {
        lemma_initialize_names();
    }
    fn to_json(&self) -> (result: Value) {
        let mut object = json::object();
        set_optional_value(&mut object, "experimental", &self.experimental);
        set_optional_value(&mut object, "logging", &self.logging);
        object
    }

    fn from_json(value: &Value) -> (result: Option<ServerCapabilities>) {
        if !json::is_object(value) {
            return None;
        }
        Some(
            ServerCapabilities {
                experimental: optional_value(value, "experimental"),
                logging: optional_value(value, "logging"),
            },
        )
    }
}

/// The parameters of `initialize`.
#[derive(Debug)]
pub struct InitializeRequest {
    pub protocol_version: u32,
    pub capabilities: Option<ClientCapabilities>,
    pub client_info: Option<ClientInfo>,
}

/// `InitializeRequest` as a mathematical value.
pub struct InitializeRequestView {
    pub protocol_version: u32,
    pub capabilities: Option<ClientCapabilitiesView>,
    pub client_info: Option<ClientInfoView>,
}

impl View for InitializeRequest {
    type V = InitializeRequestView;

    open spec fn view(&self) -> InitializeRequestView {
        InitializeRequestView {
            protocol_version: self.protocol_version,
            capabilities: optional_view(self.capabilities),
            client_info: optional_view(self.client_info),
        }
    }
}

impl Wire for InitializeRequest {
    open spec fn encode(model: InitializeRequestView) -> Json {
        Json::empty_object().with(
            "protocol_version"@,
            Json::Int(model.protocol_version as int),
        ).with_some(
            "capabilities"@,
            encode_optional::<ClientCapabilities>(model.capabilities),
        ).with_some("client_info"@, encode_optional::<ClientInfo>(model.client_info))
    }

    open spec fn decode(json: Json) -> Option<InitializeRequestView> {
        match (
            decode_required::<u32>(json, "protocol_version"@),
            decode_optional::<ClientCapabilities>(json, "capabilities"@),
            decode_optional::<ClientInfo>(json, "client_info"@),
        ) {
            (Some(protocol_version), Some(capabilities), Some(client_info)) => Some(
                InitializeRequestView { protocol_version, capabilities, client_info },
            ),
            _ => None,
        }
    }


    open spec fn survives(model: InitializeRequestView) -> bool {
        optional_survives::<ClientCapabilities>(model.capabilities) && optional_survives::<
            ClientInfo,
        >(model.client_info)
    }

    proof fn lemma_survives(model: InitializeRequestView) {
        lemma_initialize_names();
        if let Some(inner) = model.capabilities {
            ClientCapabilities::lemma_survives(inner);
        }
        if let Some(inner) = model.client_info {
            ClientInfo::lemma_survives(inner);
        }
    }
    fn to_json(&self) -> (result: Value) {
        let mut object = json::object();
        json::set_member(&mut object, "protocol_version", self.protocol_version.to_json());
        set_optional(&mut object, "capabilities", &self.capabilities);
        set_optional(&mut object, "client_info", &self.client_info);
        object
    }

    fn from_json(value: &Value) -> (result: Option<InitializeRequest>) {
        let protocol_version = match required::<u32>(value, "protocol_version") {
            Some(protocol_version) => protocol_version,
            None => return None,
        };
        let capabilities = match optional::<ClientCapabilities>(value, "capabilities") {
            Some(capabilities) => capabilities,
            None => return None,
        };
        let client_info = match optional::<ClientInfo>(value, "client_info") {
            Some(client_info) => client_info,
            None => return None,
        };
        Some(InitializeRequest { protocol_version, capabilities, client_info })
    }
}

/// The result of `initialize`.
#[derive(Debug)]
pub struct InitializeResponse {
    pub protocol_version: u32,
    pub capabilities: ServerCapabilities,
    pub server_info: Option<ServerInfo>,
    pub instructions: Option<String>,
}

/// `InitializeResponse` as a mathematical value.
pub struct InitializeResponseView {
    pub protocol_version: u32,
    pub capabilities: ServerCapabilitiesView,
    pub server_info: Option<ServerInfoView>,
    pub instructions: Option<Seq<char>>,
}

impl View for InitializeResponse {
    type V = InitializeResponseView;

    open spec fn view(&self) -> InitializeResponseView {
        InitializeResponseView {
            protocol_version: self.protocol_version,
            capabilities: self.capabilities@,
            server_info: optional_view(self.server_info),
            instructions: optional_view(self.instructions),
        }
    }
}

impl Wire for InitializeResponse {
    open spec fn encode(model: InitializeResponseView) -> Json {
        Json::empty_object().with(
            "protocol_version"@,
            Json::Int(model.protocol_version as int),
        ).with("capabilities"@, ServerCapabilities::encode(model.capabilities)).with_some(
            "server_info"@,
            encode_optional::<ServerInfo>(model.server_info),
        ).with_some("instructions"@, encode_optional::<String>(model.instructions))
    }

    open spec fn decode(json: Json) -> Option<InitializeResponseView> {
        match (
            decode_required::<u32>(json, "protocol_version"@),
            decode_required::<ServerCapabilities>(json, "capabilities"@),
            decode_optional::<ServerInfo>(json, "server_info"@),
            decode_optional::<String>(json, "instructions"@),
        ) {
            (Some(protocol_version), Some(capabilities), Some(server_info), Some(instructions)) => Some(
                InitializeResponseView { protocol_version, capabilities, server_info, instructions },
            ),
            _ => None,
        }
    }


    open spec fn survives(model: InitializeResponseView) -> bool {
        ServerCapabilities::survives(model.capabilities) && optional_survives::<ServerInfo>(
            model.server_info,
        )
    }

    proof fn lemma_survives(model: InitializeResponseView) {
        lemma_initialize_names();
        ServerCapabilities::lemma_survives(model.capabilities);
        if let Some(inner) = model.server_info {
            ServerInfo::lemma_survives(inner);
        }
    }
    fn to_json(&self) -> (result: Value) {
        let mut object = json::object();
        json::set_member(&mut object, "protocol_version", self.protocol_version.to_json());
        json::set_member(&mut object, "capabilities", self.capabilities.to_json());
        set_optional(&mut object, "server_info", &self.server_info);
        set_optional(&mut object, "instructions", &self.instructions);
        object
    }

    fn from_json(value: &Value) -> (result: Option<InitializeResponse>) {
        let protocol_version = match required::<u32>(value, "protocol_version") {
            Some(protocol_version) => protocol_version,
            None => return None,
        };
        let capabilities = match required::<ServerCapabilities>(value, "capabilities") {
            Some(capabilities) => capabilities,
            None => return None,
        };
        let server_info = match optional::<ServerInfo>(value, "server_info") {
            Some(server_info) => server_info,
            None => return None,
        };
        let instructions = match optional::<String>(value, "instructions") {
            Some(instructions) => instructions,
            None => return None,
        };
        Some(InitializeResponse { protocol_version, capabilities, server_info, instructions })
    }
}

/// The length and the first characters of each name used in this file: enough
/// to tell any two of them apart.
pub proof fn lemma_initialize_names()
    ensures
        "name"@.len() == 4 && "name"@[0] == 'n' && "name"@[1] == 'a',
        "version"@.len() == 7 && "version"@[0] == 'v' && "version"@[1] == 'e',
        "sampling"@.len() == 8 && "sampling"@[0] == 's' && "sampling"@[1] == 'a',
        "experimental"@.len() == 12 && "experimental"@[0] == 'e' && "experimental"@[1] == 'x',
        "logging"@.len() == 7 && "logging"@[0] == 'l' && "logging"@[1] == 'o',
        "protocol_version"@.len() == 16 && "protocol_version"@[0] == 'p' && "protocol_version"@[1] == 'r',
        "capabilities"@.len() == 12 && "capabilities"@[0] == 'c' && "capabilities"@[1] == 'a',
        "client_info"@.len() == 11 && "client_info"@[0] == 'c' && "client_info"@[1] == 'l',
        "server_info"@.len() == 11 && "server_info"@[0] == 's' && "server_info"@[1] == 'e',
        "instructions"@.len() == 12 && "instructions"@[0] == 'i' && "instructions"@[1] == 'n',
{
    reveal_strlit("name");
    reveal_strlit("version");
    reveal_strlit("sampling");
    reveal_strlit("experimental");
    reveal_strlit("logging");
    reveal_strlit("protocol_version");
    reveal_strlit("capabilities");
    reveal_strlit("client_info");
    reveal_strlit("server_info");
    reveal_strlit("instructions");
}

} // verus!
