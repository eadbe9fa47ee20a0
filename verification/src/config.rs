//! The configuration the client is built from: the agent servers that can
//! be launched, which of them is the default, and the limits that apply.

use crate::json;
use crate::json::{json_of, Json};
use crate::model::{copy_optional, copy_pairs, copy_strings, optional_view, views};
use crate::named::{distinct_names, entries_map, named_map, named_views};
use crate::protocol::codec::{lemma_list_survives, lemma_object_survives, 
    decode_object, decode_optional, decode_required, decode_required_list,
    encode_list, encode_nullable, encode_object, list_to_json, nullable_to_json, object_from_json,
    object_to_json, optional, required, required_list, Wire,
};
use crate::text;
use serde_json::Value;
use vstd::prelude::*;

verus! {

/// How to launch one agent server: the command, its arguments and the
/// environment variables to set.
#[derive(Debug)]
pub struct AgentServerConfig {
    pub command: String,
    pub args: Vec<String>,
    pub env: Vec<(String, String)>,
}

/// `AgentServerConfig` as a mathematical value.
pub struct AgentServerConfigView {
    pub command: Seq<char>,
    pub args: Seq<Seq<char>>,
    pub env: Map<Seq<char>, Seq<char>>,
}

impl View for AgentServerConfig {
    type V = AgentServerConfigView;

    open spec fn view(&self) -> AgentServerConfigView {
        AgentServerConfigView {
            command: self.command@,
            args: views(self.args@),
            env: named_map(self.env@),
        }
    }
}

impl AgentServerConfigView {
    /// The environment must be there, an object of strings.
    pub open spec fn decode_env(json: Json) -> Option<Map<Seq<char>, Seq<char>>> {
        match json.member("env"@) {
            Some(env) => decode_object::<String>(env),
            None => None,
        }
    }
}

impl Clone for AgentServerConfig {
    fn clone(&self) -> (result: Self)
        ensures
            result@ == self@,
    {
        AgentServerConfig {
            command: self.command.clone(),
            args: copy_strings(&self.args),
            env: copy_pairs(&self.env),
        }
    }
}

impl Wire for AgentServerConfig {
    open spec fn encode(model: AgentServerConfigView) -> Json {
        Json::empty_object().with("command"@, Json::Str(model.command)).with(
            "args"@,
            encode_list::<String>(model.args),
        ).with("env"@, encode_object::<String>(model.env))
    }

    open spec fn decode(json: Json) -> Option<AgentServerConfigView> {
        match (
            decode_required::<String>(json, "command"@),
            decode_required_list::<String>(json, "args"@),
            AgentServerConfigView::decode_env(json),
        ) {
            (Some(command), Some(args), Some(env)) => Some(
                AgentServerConfigView { command, args, env },
            ),
            _ => None,
        }
    }


    open spec fn survives(model: AgentServerConfigView) -> bool {
        true
    }

    proof fn lemma_survives(model: AgentServerConfigView) {
        lemma_config_names();
        lemma_list_survives::<String>(model.args);
        lemma_object_survives::<String>(model.env);
    }
    fn to_json(&self) -> (result: Value) {
        let mut object = json::object();
        json::set_member(&mut object, "command", self.command.to_json());
        json::set_member(&mut object, "args", list_to_json::<String>(&self.args));
        json::set_member(&mut object, "env", object_to_json::<String>(&self.env));
        object
    }

    fn from_json(value: &Value) -> (result: Option<AgentServerConfig>) {
        let command = match required::<String>(value, "command") {
            Some(command) => command,
            None => return None,
        };
        let args = match required_list::<String>(value, "args") {
            Some(args) => args,
            None => return None,
        };
        let env = match json::member(value, "env") {
            Some(env) => match object_from_json::<String>(env) {
                Some(env) => env,
                None => return None,
            },
            None => return None,
        };
        Some(AgentServerConfig { command, args, env })
    }
}

/// The number of turns a session keeps unless configured otherwise.
pub const DEFAULT_MAX_HISTORY: usize = 100;

/// The time a request may stay unanswered unless configured otherwise, in
/// milliseconds.
pub const DEFAULT_REQUEST_TIMEOUT: u64 = 30000;

/// How the agent is used.
#[derive(Debug)]
pub struct AgentConfig {
    pub enabled: bool,
    pub default_server: Option<String>,
    pub auto_start: bool,
    pub streaming: bool,
    pub max_history: usize,
}

/// `AgentConfig` as a mathematical value.
pub struct AgentConfigView {
    pub enabled: bool,
    pub default_server: Option<Seq<char>>,
    pub auto_start: bool,
    pub streaming: bool,
    pub max_history: usize,
}

impl AgentConfigView {
    /// Enabled, no default server, no automatic start, streaming, and a
    /// history of 100 turns.
    pub open spec fn initial() -> AgentConfigView {
        AgentConfigView {
            enabled: true,
            default_server: None,
            auto_start: false,
            streaming: true,
            max_history: 100,
        }
    }
}

impl View for AgentConfig {
    type V = AgentConfigView;

    open spec fn view(&self) -> AgentConfigView {
        AgentConfigView {
            enabled: self.enabled,
            default_server: optional_view(self.default_server),
            auto_start: self.auto_start,
            streaming: self.streaming,
            max_history: self.max_history,
        }
    }
}

impl Clone for AgentConfig {
    fn clone(&self) -> (result: Self)
        ensures
            result@ == self@,
    {
        AgentConfig {
            enabled: self.enabled,
            default_server: copy_optional(&self.default_server),
            auto_start: self.auto_start,
            streaming: self.streaming,
            max_history: self.max_history,
        }
    }
}

impl Default for AgentConfig {
    fn default() -> (result: Self)
        ensures
            result@ == AgentConfigView::initial(),
    {
        AgentConfig {
            enabled: true,
            default_server: None,
            auto_start: false,
            streaming: true,
            max_history: DEFAULT_MAX_HISTORY,
        }
    }
}

impl Wire for AgentConfig {
    open spec fn encode(model: AgentConfigView) -> Json {
        Json::empty_object().with("enabled"@, Json::Bool(model.enabled)).with(
            "default_server"@,
            encode_nullable::<String>(model.default_server),
        ).with("auto_start"@, Json::Bool(model.auto_start)).with(
            "streaming"@,
            Json::Bool(model.streaming),
        ).with("max_history"@, Json::Int(model.max_history as int))
    }

    /// Every setting but the default server must be there.
    open spec fn decode(json: Json) -> Option<AgentConfigView> {
        match (
            decode_required::<bool>(json, "enabled"@),
            decode_optional::<String>(json, "default_server"@),
            decode_required::<bool>(json, "auto_start"@),
            decode_required::<bool>(json, "streaming"@),
            decode_required::<usize>(json, "max_history"@),
        ) {
            (
                Some(enabled),
                Some(default_server),
                Some(auto_start),
                Some(streaming),
                Some(max_history),
            ) => Some(
                AgentConfigView { enabled, default_server, auto_start, streaming, max_history },
            ),
            _ => None,
        }
    }


    open spec fn survives(model: AgentConfigView) -> bool {
        true
    }

    proof fn lemma_survives(model: AgentConfigView) {
        lemma_config_names();
    }
    fn to_json(&self) -> (result: Value) {
        let mut object = json::object();
        json::set_member(&mut object, "enabled", self.enabled.to_json());
        json::set_member(
            &mut object,
            "default_server",
            nullable_to_json::<String>(&self.default_server),
        );
        json::set_member(&mut object, "auto_start", self.auto_start.to_json());
        json::set_member(&mut object, "streaming", self.streaming.to_json());
        json::set_member(&mut object, "max_history", self.max_history.to_json());
        object
    }

    fn from_json(value: &Value) -> (result: Option<AgentConfig>) {
        let enabled = match required::<bool>(value, "enabled") {
            Some(enabled) => enabled,
            None => return None,
        };
        let default_server = match optional::<String>(value, "default_server") {
            Some(default_server) => default_server,
            None => return None,
        };
        let auto_start = match required::<bool>(value, "auto_start") {
            Some(auto_start) => auto_start,
            None => return None,
        };
        let streaming = match required::<bool>(value, "streaming") {
            Some(streaming) => streaming,
            None => return None,
        };
        let max_history = match required::<usize>(value, "max_history") {
            Some(max_history) => max_history,
            None => return None,
        };
        Some(AgentConfig { enabled, default_server, auto_start, streaming, max_history })
    }
}

/// Limits on the client's work. `request_timeout` is in milliseconds.
#[derive(Clone, Copy, Debug, PartialEq, Eq, Structural)]
pub struct PerformanceConfig {
    pub max_concurrent_requests: usize,
    pub request_timeout: u64,
    pub cache_size: usize,
}

impl View for PerformanceConfig {
    type V = PerformanceConfig;

    open spec fn view(&self) -> PerformanceConfig {
        *self
    }
}

impl PerformanceConfig {
    /// Three requests at a time, thirty seconds for each, a cache of fifty.
    pub open spec fn initial() -> PerformanceConfig {
        PerformanceConfig { max_concurrent_requests: 3, request_timeout: 30000, cache_size: 50 }
    }
}

impl Default for PerformanceConfig {
    fn default() -> (result: Self)
        ensures
            result == PerformanceConfig::initial(),
    {
        PerformanceConfig {
            max_concurrent_requests: 3,
            request_timeout: DEFAULT_REQUEST_TIMEOUT,
            cache_size: 50,
        }
    }
}

impl Wire for PerformanceConfig {
    open spec fn encode(model: PerformanceConfig) -> Json {
        Json::empty_object().with(
            "max_concurrent_requests"@,
            Json::Int(model.max_concurrent_requests as int),
        ).with("request_timeout"@, Json::Int(model.request_timeout as int)).with(
            "cache_size"@,
            Json::Int(model.cache_size as int),
        )
    }

    open spec fn decode(json: Json) -> Option<PerformanceConfig> {
        match (
            decode_required::<usize>(json, "max_concurrent_requests"@),
            decode_required::<u64>(json, "request_timeout"@),
            decode_required::<usize>(json, "cache_size"@),
        ) {
            (Some(max_concurrent_requests), Some(request_timeout), Some(cache_size)) => Some(
                PerformanceConfig { max_concurrent_requests, request_timeout, cache_size },
            ),
            _ => None,
        }
    }


    open spec fn survives(model: PerformanceConfig) -> bool {
        true
    }

    proof fn lemma_survives(model: PerformanceConfig) {
        lemma_config_names();
    }
    fn to_json(&self) -> (result: Value) {
        let mut object = json::object();
        json::set_member(
            &mut object,
            "max_concurrent_requests",
            self.max_concurrent_requests.to_json(),
        );
        json::set_member(&mut object, "request_timeout", self.request_timeout.to_json());
        json::set_member(&mut object, "cache_size", self.cache_size.to_json());
        object
    }

    fn from_json(value: &Value) -> (result: Option<PerformanceConfig>) {
        let max_concurrent_requests = match required::<usize>(value, "max_concurrent_requests") {
            Some(max_concurrent_requests) => max_concurrent_requests,
            None => return None,
        };
        let request_timeout = match required::<u64>(value, "request_timeout") {
            Some(request_timeout) => request_timeout,
            None => return None,
        };
        let cache_size = match required::<usize>(value, "cache_size") {
            Some(cache_size) => cache_size,
            None => return None,
        };
        Some(PerformanceConfig { max_concurrent_requests, request_timeout, cache_size })
    }
}

/// The whole configuration. `agent_servers` pairs each server's name with
/// its definition.
#[derive(Debug)]
pub struct ACPConfig {
    pub agent_servers: Vec<(String, AgentServerConfig)>,
    pub agent: AgentConfig,
    pub performance: PerformanceConfig,
}

/// `ACPConfig` as a mathematical value.
pub struct ACPConfigView {
    pub agent_servers: Seq<(Seq<char>, AgentServerConfigView)>,
    pub agent: AgentConfigView,
    pub performance: PerformanceConfig,
}

impl View for ACPConfig {
    type V = ACPConfigView;

    open spec fn view(&self) -> ACPConfigView {
        ACPConfigView {
            agent_servers: named_views(self.agent_servers@),
            agent: self.agent@,
            performance: self.performance,
        }
    }
}

impl ACPConfigView {
    /// No servers, and the initial settings.
    pub open spec fn initial() -> ACPConfigView {
        ACPConfigView {
            agent_servers: Seq::empty(),
            agent: AgentConfigView::initial(),
            performance: PerformanceConfig::initial(),
        }
    }

    /// The first server at or after `start` that has the name `name`.
    pub open spec fn named_from(self, name: Seq<char>, start: int) -> Option<AgentServerConfigView>
        decreases self.agent_servers.len() - start,
    {
        if start < 0 || start >= self.agent_servers.len() {
            None
        } else if self.agent_servers[start].0 == name {
            Some(self.agent_servers[start].1)
        } else {
            self.named_from(name, start + 1)
        }
    }

    /// The first server that has the name `name`.
    pub open spec fn named(self, name: Seq<char>) -> Option<AgentServerConfigView> {
        self.named_from(name, 0)
    }

    /// The first server listed, if any is.
    pub open spec fn first(self) -> Option<AgentServerConfigView> {
        if self.agent_servers.len() > 0 {
            Some(self.agent_servers[0].1)
        } else {
            None
        }
    }

    /// The server to launch: the one that the default name names; where no
    /// default is set or no server has that name, the first server listed;
    /// `None` where no server is defined at all.
    pub open spec fn server_to_launch(self) -> Option<AgentServerConfigView> {
        match self.agent.default_server {
            Some(name) => match self.named(name) {
                Some(server) => Some(server),
                None => self.first(),
            },
            None => self.first(),
        }
    }

    /// The servers that a setting defines: those of an object all of whose
    /// members define a server, each once; none where the setting is
    /// missing or is no such object.
    pub open spec fn servers_read(self, setting: Option<Json>) -> bool {
        match setting {
            Some(json) => match decode_object::<AgentServerConfig>(json) {
                Some(servers) => distinct_names(self.agent_servers) && entries_map(
                    self.agent_servers,
                ) == servers,
                None => self.agent_servers.len() == 0,
            },
            None => self.agent_servers.len() == 0,
        }
    }

    /// How the agent is used, as a setting says: what the setting holds
    /// where it can be read, the initial settings where it is missing or
    /// cannot be read.
    pub open spec fn agent_read(setting: Option<Json>) -> AgentConfigView {
        match setting {
            Some(json) => match AgentConfig::decode(json) {
                Some(agent) => agent,
                None => AgentConfigView::initial(),
            },
            None => AgentConfigView::initial(),
        }
    }

    /// The limits, as a setting says: what the setting holds where it can
    /// be read, the initial limits where it is missing or cannot be read.
    pub open spec fn performance_read(setting: Option<Json>) -> PerformanceConfig {
        match setting {
            Some(json) => match PerformanceConfig::decode(json) {
                Some(performance) => performance,
                None => PerformanceConfig::initial(),
            },
            None => PerformanceConfig::initial(),
        }
    }
}

/// The content of a setting that may be missing.
pub open spec fn setting_json(setting: Option<&Value>) -> Option<Json> {
    match setting {
        Some(value) => Some(json_of(*value)),
        None => None,
    }
}

impl Clone for ACPConfig {
    fn clone(&self) -> (result: Self)
        ensures
            result@ == self@,
    {
        let mut servers: Vec<(String, AgentServerConfig)> = Vec::new();
        let mut i: usize = 0;
        while i < self.agent_servers.len()
            invariant
                i <= self.agent_servers.len(),
                servers@.len() == i,
                forall|k: int|
                    0 <= k < i ==> servers@[k].0@ == self.agent_servers@[k].0@ && servers@[k].1@
                        == self.agent_servers@[k].1@,
            decreases self.agent_servers.len() - i,
        {
            let entry = &self.agent_servers[i];
            servers.push((entry.0.clone(), entry.1.clone()));
            i += 1;
        }
        assert(named_views(servers@) =~= named_views(self.agent_servers@));
        ACPConfig {
            agent_servers: servers,
            agent: self.agent.clone(),
            performance: self.performance,
        }
    }
}

impl Default for ACPConfig {
    fn default() -> (result: Self)
        ensures
            result@ == ACPConfigView::initial(),
    {
        let result = ACPConfig {
            agent_servers: Vec::new(),
            agent: AgentConfig::default(),
            performance: PerformanceConfig::default(),
        };
        assert(named_views(result.agent_servers@) =~= Seq::empty());
        result
    }
}

impl ACPConfig {
    /// The configuration that the host's settings hold. Each argument is
    /// the setting of that name, if the host has one. A setting that is
    /// missing or cannot be read leaves its part of the configuration as it
    /// is initially; the call never fails.
    pub fn from_settings(
        agent_servers: Option<&Value>,
        agent: Option<&Value>,
        performance: Option<&Value>,
    ) -> (result: Result<ACPConfig, String>)
        ensures
            result matches Ok(config) && {
                &&& config@.servers_read(setting_json(agent_servers))
                &&& config@.agent == ACPConfigView::agent_read(setting_json(agent))
                &&& config@.performance == ACPConfigView::performance_read(
                    setting_json(performance),
                )
            },
    {
        let servers: Vec<(String, AgentServerConfig)> = match agent_servers {
            Some(value) => match object_from_json::<AgentServerConfig>(value) {
                Some(servers) => servers,
                None => Vec::new(),
            },
            None => Vec::new(),
        };
        let agent = match agent {
            Some(value) => match AgentConfig::from_json(value) {
                Some(agent) => agent,
                None => AgentConfig::default(),
            },
            None => AgentConfig::default(),
        };
        let performance = match performance {
            Some(value) => match PerformanceConfig::from_json(value) {
                Some(performance) => performance,
                None => PerformanceConfig::default(),
            },
            None => PerformanceConfig::default(),
        };
        Ok(ACPConfig { agent_servers: servers, agent, performance })
    }

    /// The server that has the name `name`, the first of them if several do.
    pub fn server_named(&self, name: &str) -> (result: Option<&AgentServerConfig>)
        ensures
            match result {
                Some(server) => self@.named(name@) == Some(server@),
                None => self@.named(name@) is None,
            },
    {
        let mut i: usize = 0;
        while i < self.agent_servers.len()
            invariant
                i <= self.agent_servers.len(),
                self@.named(name@) == self@.named_from(name@, i as int),
            decreases self.agent_servers.len() - i,
        {
            if text::same(self.agent_servers[i].0.as_str(), name) {
                return Some(&self.agent_servers[i].1);
            }
            i += 1;
        }
        None
    }

    /// The server to launch, as `server_to_launch` says.
    pub fn server_config(&self) -> (result: Option<&AgentServerConfig>)
        ensures
            match result {
                Some(server) => self@.server_to_launch() == Some(server@),
                None => self@.server_to_launch() is None,
            },
    {
        if let Some(name) = &self.agent.default_server {
            if let Some(server) = self.server_named(name.as_str()) {
                return Some(server);
            }
        }
        if self.agent_servers.len() > 0 {
            Some(&self.agent_servers[0].1)
        } else {
            None
        }
    }
}

/// The length and the first characters of each name used in this file: enough
/// to tell any two of them apart.
pub proof fn lemma_config_names()
    ensures
        "command"@.len() == 7 && "command"@[0] == 'c' && "command"@[1] == 'o',
        "args"@.len() == 4 && "args"@[0] == 'a' && "args"@[1] == 'r',
        "env"@.len() == 3 && "env"@[0] == 'e' && "env"@[1] == 'n',
        "enabled"@.len() == 7 && "enabled"@[0] == 'e' && "enabled"@[1] == 'n',
        "default_server"@.len() == 14 && "default_server"@[0] == 'd' && "default_server"@[1] == 'e',
        "auto_start"@.len() == 10 && "auto_start"@[0] == 'a' && "auto_start"@[1] == 'u',
        "streaming"@.len() == 9 && "streaming"@[0] == 's' && "streaming"@[1] == 't',
        "max_history"@.len() == 11 && "max_history"@[0] == 'm' && "max_history"@[1] == 'a',
        "max_concurrent_requests"@.len() == 23 && "max_concurrent_requests"@[0] == 'm' && "max_concurrent_requests"@[1] == 'a',
        "request_timeout"@.len() == 15 && "request_timeout"@[0] == 'r' && "request_timeout"@[1] == 'e',
        "cache_size"@.len() == 10 && "cache_size"@[0] == 'c' && "cache_size"@[1] == 'a',
{
    reveal_strlit("command");
    reveal_strlit("args");
    reveal_strlit("env");
    reveal_strlit("enabled");
    reveal_strlit("default_server");
    reveal_strlit("auto_start");
    reveal_strlit("streaming");
    reveal_strlit("max_history");
    reveal_strlit("max_concurrent_requests");
    reveal_strlit("request_timeout");
    reveal_strlit("cache_size");
}

} // verus!
