//! The layer between the host and the client: it takes the host's commands,
//! keeps the client and the store of sessions together, and says what the
//! host is to do. It performs nothing itself.

use crate::client::{
    ACPClient, ACPClientError, ACPClientErrorView, ClientView, ConnectionState, Outbound,
};
use crate::config::{setting_json, ACPConfig, ACPConfigView};
use crate::json::Json;
use crate::model::{optional_view, views};
use crate::protocol::codec::Wire;
use crate::protocol::{PromptRequest, PromptRequestView};
use crate::session::{SessionManager, SessionManagerView, SessionView};
use crate::text;
use serde_json::Value;
use vstd::prelude::*;
use vstd::string::*;

verus! {

/// Something for the host to do.
#[derive(Debug)]
pub enum HostAction {
    /// Show the text to the user.
    Notify(String),
    /// Write the line to the agent, followed by a line's end.
    Send(String),
    /// Terminate the agent process.
    Terminate,
}

/// `HostAction` as a mathematical value.
pub enum HostActionView {
    Notify(Seq<char>),
    Send(Seq<char>),
    Terminate,
}

impl View for HostAction {
    type V = HostActionView;

    open spec fn view(&self) -> HostActionView {
        match self {
            HostAction::Notify(text) => HostActionView::Notify(text@),
            HostAction::Send(line) => HostActionView::Send(line@),
            HostAction::Terminate => HostActionView::Terminate,
        }
    }
}

/// A command of the host.
#[derive(Clone, Copy, Debug, PartialEq, Eq, Structural)]
pub enum Command {
    TogglePanel,
    NewSession,
    SubmitPrompt,
    CancelPrompt,
    ClearHistory,
    ExportSession,
}

impl Command {
    /// The command that a name names.
    pub open spec fn named(name: Seq<char>) -> Option<Command> {
        if name == "agent:toggle-panel"@ {
            Some(Command::TogglePanel)
        } else if name == "agent:new-session"@ {
            Some(Command::NewSession)
        } else if name == "agent:submit-prompt"@ {
            Some(Command::SubmitPrompt)
        } else if name == "agent:cancel-prompt"@ {
            Some(Command::CancelPrompt)
        } else if name == "agent:clear-history"@ {
            Some(Command::ClearHistory)
        } else if name == "agent:export-session"@ {
            Some(Command::ExportSession)
        } else {
            None
        }
    }

    /// The command that a name names.
    pub fn parse(name: &str) -> (result: Option<Command>)
        ensures
            result == Command::named(name@),
    {
        if text::same(name, "agent:toggle-panel") {
            Some(Command::TogglePanel)
        } else if text::same(name, "agent:new-session") {
            Some(Command::NewSession)
        } else if text::same(name, "agent:submit-prompt") {
            Some(Command::SubmitPrompt)
        } else if text::same(name, "agent:cancel-prompt") {
            Some(Command::CancelPrompt)
        } else if text::same(name, "agent:clear-history") {
            Some(Command::ClearHistory)
        } else if text::same(name, "agent:export-session") {
            Some(Command::ExportSession)
        } else {
            None
        }
    }
}

/// Words joined by single spaces.
pub open spec fn joined(words: Seq<Seq<char>>) -> Seq<char>
    decreases words.len(),
{
    if words.len() == 0 {
        Seq::empty()
    } else if words.len() == 1 {
        words[0]
    } else {
        joined(words.drop_last()) + " "@ + words.last()
    }
}

/// Joins words by single spaces.
pub fn join(words: &Vec<String>) -> (result: String)
    ensures
        result@ == joined(views(words@)),
{
    let mut result = String::new();
    let mut i: usize = 0;
    while i < words.len()
        invariant
            i <= words.len(),
            result@ == joined(views(words@).take(i as int)),
        decreases words.len() - i,
    {
        if i > 0 {
            result.append(" ");
        }
        result.append(words[i].as_str());
        proof {
            let next = views(words@).take(i + 1);
            assert(next.drop_last() =~= views(words@).take(i as int));
            assert(next.last() == words@[i as int]@);
            if i == 0 {
                assert(result@ =~= next[0]);
            }
        }
        i += 1;
    }
    assert(views(words@).take(i as int) =~= views(words@));
    result
}

/// A text behind a label.
pub fn labelled(label: &str, text: &str) -> (result: String)
    ensures
        result@ == label@ + text@,
{
    let mut result = label.to_owned();
    result.append(text);
    result
}

/// The one action of showing a text.
pub fn notify(text: &str) -> (result: Vec<HostAction>)
    ensures
        views(result@) == seq![HostActionView::Notify(text@)],
{
    let mut result: Vec<HostAction> = Vec::new();
    result.push(HostAction::Notify(text.to_owned()));
    assert(views(result@) =~= seq![HostActionView::Notify(text@)]);
    result
}

/// The layer as a mathematical value.
pub struct ZedACPView {
    pub client: Option<ClientView>,
    pub sessions: SessionManagerView,
    pub config: ACPConfigView,
}

/// The layer between the host and the client.
pub struct ZedACP {
    client: Option<ACPClient>,
    session_manager: SessionManager,
    config: ACPConfig,
}

impl View for ZedACP {
    type V = ZedACPView;

    closed spec fn view(&self) -> ZedACPView {
        ZedACPView {
            client: optional_view(self.client),
            sessions: self.session_manager@,
            config: self.config@,
        }
    }
}

impl ZedACPView {
    /// Whether there is a client and an agent process runs for it.
    pub open spec fn connected(self) -> bool {
        self.client matches Some(client) && client.running()
    }

    /// The layer with a client: the one it has, or a new one built from the
    /// configuration.
    pub open spec fn with_client(self) -> ZedACPView {
        ZedACPView {
            client: match self.client {
                Some(client) => Some(client),
                None => Some(ClientView::initial(self.config)),
            },
            ..self
        }
    }

    /// Whether `after` is the layer after a new session for the working
    /// directory `cwd` has been created under `id`: the session is empty,
    /// it is held under `id`, and it is the current session.
    pub open spec fn creates_session(
        self,
        after: ZedACPView,
        id: Seq<char>,
        cwd: Option<Seq<char>>,
    ) -> bool {
        &&& after.sessions.current == Some(id)
        &&& after.sessions.get(id) matches Some(session) && session == SessionView::initial(
            id,
            cwd,
            session.created_at,
            self.sessions.max_history,
        ) && after.sessions == self.sessions.created(session)
        &&& after.client == self.client
        &&& after.config == self.config
    }

    /// Whether `id` names the session that a prompt goes to, and `after` is
    /// the layer once that is settled: the current session where there is
    /// one, and else a session created for `cwd`.
    pub open spec fn resolves_session(
        self,
        after: ZedACPView,
        id: Seq<char>,
        cwd: Option<Seq<char>>,
    ) -> bool {
        match self.sessions.current {
            Some(current) => id == current && after == self,
            None => self.creates_session(after, id, cwd),
        }
    }

    /// Whether `actions` are what the host is to do when a session has been
    /// created on command: tell the user its identifier.
    pub open spec fn tells_new_session(self, actions: Seq<HostActionView>) -> bool {
        self.sessions.current matches Some(id) && actions == seq![
            HostActionView::Notify("New session created: "@ + id),
        ]
    }

    /// The line to send to the agent to cancel a prompt: the notification
    /// `session/cancel`, where a client is connected and the notification
    /// can be written.
    pub open spec fn cancel_line(self) -> Option<Seq<char>> {
        if self.connected() {
            ClientView::notification_line("session/cancel"@, Json::Null)
        } else {
            None
        }
    }

    /// Whether `actions` are what the host is to do to cancel a prompt:
    /// send the line that cancels, where there is one, and then tell the
    /// user.
    pub open spec fn cancels_prompt(self, actions: Seq<HostActionView>) -> bool {
        match self.cancel_line() {
            Some(line) => actions == seq![
                HostActionView::Send(line),
                HostActionView::Notify("Prompt cancelled"@),
            ],
            None => actions == seq![HostActionView::Notify("Prompt cancelled"@)],
        }
    }

    /// Whether `after` and `actions` are what clearing the history on
    /// command gives: with a current session, its history is dropped, if it
    /// is held, and the user is told; without one, nothing happens.
    pub open spec fn clears_history(self, after: ZedACPView, actions: Seq<HostActionView>) -> bool {
        &&& after.client == self.client
        &&& after.config == self.config
        &&& match self.sessions.current {
            Some(current) => actions == seq![HostActionView::Notify("History cleared"@)]
                && match self.sessions.get(current) {
                Some(session) => after.sessions.get(current) matches Some(cleared) && cleared
                    == session.cleared(cleared.updated_at) && after.sessions
                    == self.sessions.with_session(current, cleared),
                None => after.sessions == self.sessions,
            },
            None => actions.len() == 0 && after.sessions == self.sessions,
        }
    }

    /// Whether `after` and `actions` are what running `command` gives.
    pub open spec fn runs(
        self,
        command: Command,
        after: ZedACPView,
        actions: Seq<HostActionView>,
    ) -> bool {
        match command {
            Command::TogglePanel => after == self && actions == seq![
                HostActionView::Notify("Agent panel toggled"@),
            ],
            Command::NewSession => after.sessions.current matches Some(id) && self.creates_session(
                after,
                id,
                None,
            ) && after.tells_new_session(actions),
            Command::SubmitPrompt => after == self && actions == seq![
                HostActionView::Notify("Prompt submitted"@),
            ],
            Command::CancelPrompt => after == self && self.cancels_prompt(actions),
            Command::ClearHistory => self.clears_history(after, actions),
            Command::ExportSession => after == self && actions == seq![
                HostActionView::Notify("Session exported"@),
            ],
        }
    }

    /// The text shown where a command's name names no command.
    pub open spec fn unknown_command(name: Seq<char>) -> Seq<char> {
        "Unknown command: "@ + name
    }

    /// The text shown where a slash command's name is not `agent`.
    pub open spec fn unknown_slash_command(name: Seq<char>) -> Seq<char> {
        "Unknown slash command: "@ + name
    }

    /// What the host is told of a client's error.
    pub open spec fn agent_error(error: ACPClientErrorView) -> Seq<char> {
        "Agent error: "@ + error.message()
    }

    /// Whether `text` is what the host is told where a client in the state
    /// `client` does not send a prompt: before the handshake is done, that
    /// no server is connected; with no identifier left, that; and else the
    /// request has no line, and the text is that of a JSON error.
    pub open spec fn refuses_prompt(
        client: ClientView,
        text: Seq<char>,
        session_id: Seq<char>,
        prompt: Seq<char>,
    ) -> bool {
        if client.state != ConnectionState::Initialized {
            text == Self::agent_error(ACPClientErrorView::ServerNotConfigured)
        } else if !client.can_issue() {
            text == Self::agent_error(ACPClientErrorView::exhausted())
        } else {
            &&& client.request_line(
                "session/prompt"@,
                PromptRequest::encode(PromptRequestView::of_text(session_id, prompt)),
            ) is None
            &&& exists|detail: Seq<char>|
                text == #[trigger] Self::agent_error(ACPClientErrorView::Json(detail))
        }
    }
}

impl ZedACP {
    /// A layer without a client, with an empty store and the initial
    /// configuration.
    pub fn new() -> (result: ZedACP)
        ensures
            result@.client is None,
            result@.sessions.entries.len() == 0,
            result@.sessions.current is None,
            result@.sessions.max_history == 100,
            result@.sessions.wf(),
            result@.config == ACPConfigView::initial(),
    {
        ZedACP { client: None, session_manager: SessionManager::new(), config: ACPConfig::default() }
    }

    /// The store of sessions.
    pub fn sessions(&self) -> (result: &SessionManager)
        ensures
            result@ == self@.sessions,
    {
        &self.session_manager
    }

    /// The store of sessions, to be changed in place.
    pub fn sessions_mut(&mut self) -> (result: &mut SessionManager)
        ensures
            (*result)@ == old(self)@.sessions,
            final(self)@.sessions == (*final(result))@,
            final(self)@.client == old(self)@.client,
            final(self)@.config == old(self)@.config,
    {
        &mut self.session_manager
    }

    /// The client, if there is one, to be driven in place.
    pub fn client_mut(&mut self) -> (result: Option<&mut ACPClient>)
        ensures
            final(self)@.sessions == old(self)@.sessions,
            final(self)@.config == old(self)@.config,
            match result {
                Some(client) => old(self)@.client == Some((*client)@) && final(self)@.client
                    == Some((*final(client))@),
                None => old(self)@.client is None && final(self)@.client is None,
            },
    {
        match &mut self.client {
            Some(client) => Some(client),
            None => None,
        }
    }

    /// Whether a client's connection must be made before a prompt can be
    /// sent.
    pub fn needs_connection(&self) -> (result: bool)
        ensures
            result == (self@.client is Some && !self@.connected()),
    {
        match &self.client {
            Some(client) => client.needs_connection(),
            None => false,
        }
    }

    /// Makes sure that there is a client, built from the configuration.
    pub fn ensure_client(&mut self) -> (result: Result<(), String>)
        ensures
            result is Ok,
            final(self)@ == old(self)@.with_client(),
    {
        if self.client.is_none() {
            match ACPClient::new(&self.config) {
                Ok(client) => {
                    self.client = Some(client);
                    Ok(())
                },
                Err(error) => Err(
                    labelled("Failed to create agent client: ", error.message().as_str()),
                ),
            }
        } else {
            Ok(())
        }
    }

    /// The session that a prompt goes to: the current session, or a new one
    /// for the given working directory where there is no current session.
    pub fn resolve_session(&mut self, cwd: Option<String>) -> (result: String)
        ensures
            old(self)@.resolves_session(final(self)@, result@, optional_view(cwd)),
    {
        match self.session_manager.current_session() {
            Some(current) => current,
            None => self.session_manager.create_session(cwd),
        }
    }

    /// Begins the slash command `name`, which must be `agent`: the words
    /// are the prompt, there is a client afterwards, and the result names
    /// the session that the prompt goes to and holds the prompt.
    pub fn run_slash_command(&mut self, name: &str, args: &Vec<String>, cwd: Option<String>) -> (result:
        Result<(String, String), String>)
        ensures
            match result {
                Ok((session_id, prompt)) => {
                    &&& name@ == "agent"@
                    &&& prompt@ == joined(views(args@))
                    &&& old(self)@.with_client().resolves_session(
                        final(self)@,
                        session_id@,
                        optional_view(cwd),
                    )
                },
                Err(text) => {
                    &&& name@ != "agent"@
                    &&& text@ == ZedACPView::unknown_slash_command(name@)
                    &&& final(self)@ == old(self)@
                },
            },
    {
        if !text::same(name, "agent") {
            return Err(labelled("Unknown slash command: ", name));
        }
        let prompt = join(args);
        match self.ensure_client() {
            Ok(()) => {},
            Err(text) => return Err(text),
        }
        let session_id = self.resolve_session(cwd);
        Ok((session_id, prompt))
    }

    /// Sends a prompt through the client. Fails where there is no client;
    /// where the client's handshake is not done, no identifier is left, or
    /// the request cannot be written, it fails with the client's error.
    pub fn prompt(&mut self, session_id: &str, prompt: &str, now: u64) -> (result: Result<
        Outbound,
        String,
    >)
        ensures
            final(self)@.sessions == old(self)@.sessions,
            final(self)@.config == old(self)@.config,
            match old(self)@.client {
                Some(client) => final(self)@.client matches Some(after) && match result {
                    Ok(outbound) => client.state == ConnectionState::Initialized && client.sends(
                        after,
                        outbound,
                        "session/prompt"@,
                        PromptRequest::encode(PromptRequestView::of_text(session_id@, prompt@)),
                        now,
                    ),
                    Err(text) => after == client && ZedACPView::refuses_prompt(
                        client,
                        text@,
                        session_id@,
                        prompt@,
                    ),
                },
                None => {
                    &&& final(self)@.client is None
                    &&& result matches Err(text) && text@ == "No agent client available"@
                },
            },
    {
        match &mut self.client {
            Some(client) => match client.prompt(session_id, prompt, now) {
                Ok(outbound) => Ok(outbound),
                Err(error) => {
                    let text = labelled("Agent error: ", error.message().as_str());
                    proof {
                        if let ACPClientErrorView::Json(detail) = error@ {
                            assert(text@ == ZedACPView::agent_error(
                                ACPClientErrorView::Json(detail),
                            ));
                        }
                    }
                    Err(text)
                },
            },
            None => Err("No agent client available".to_owned()),
        }
    }

    /// What the host is told of a prompt's outcome: the agent's text, or
    /// the error's text behind `Agent error: `.
    pub fn agent_output(outcome: Result<String, ACPClientError>) -> (result: Result<String, String>)
        ensures
            match result {
                Ok(text) => outcome matches Ok(given) && text@ == given@,
                Err(text) => outcome matches Err(error) && text@ == ZedACPView::agent_error(
                    error@,
                ),
            },
    {
        match outcome {
            Ok(text) => Ok(text),
            Err(error) => Err(labelled("Agent error: ", error.message().as_str())),
        }
    }

    /// Creates a session and tells the user its identifier.
    pub fn new_session(&mut self) -> (result: Vec<HostAction>)
        ensures
            old(self)@.runs(Command::NewSession, final(self)@, views(result@)),
    {
        let session_id = self.session_manager.create_session(None);
        let text = labelled("New session created: ", session_id.as_str());
        notify(text.as_str())
    }

    /// Asks the agent to give up its prompt, where a client is connected,
    /// and tells the user.
    pub fn cancel_prompt(&self) -> (result: Vec<HostAction>)
        ensures
            self@.cancels_prompt(views(result@)),
            !self@.connected() ==> result@.len() == 1,
    {
        let mut result: Vec<HostAction> = Vec::new();
        match &self.client {
            Some(client) => match client.cancel() {
                Ok(line) => {
                    result.push(HostAction::Send(line));
                },
                Err(_) => {},
            },
            None => {},
        }
        result.push(HostAction::Notify("Prompt cancelled".to_owned()));
        proof {
            match self@.cancel_line() {
                Some(line) => {
                    assert(views(result@) =~= seq![
                        HostActionView::Send(line),
                        HostActionView::Notify("Prompt cancelled"@),
                    ]);
                },
                None => {
                    assert(views(result@) =~= seq![HostActionView::Notify("Prompt cancelled"@)]);
                },
            }
        }
        result
    }

    /// Drops the history of the current session, if there is one, and tells
    /// the user.
    pub fn clear_history(&mut self) -> (result: Vec<HostAction>)
        ensures
            old(self)@.clears_history(final(self)@, views(result@)),
    {
        match self.session_manager.current_session() {
            Some(current) => {
                self.session_manager.clear_history(current.as_str());
                notify("History cleared")
            },
            None => Vec::new(),
        }
    }

    /// Runs the command `name` and says what the host is to do. Fails
    /// exactly where the name names no command.
    pub fn run_command(&mut self, name: &str) -> (result: Result<Vec<HostAction>, String>)
        ensures
            match Command::named(name@) {
                Some(command) => result matches Ok(actions) && old(self)@.runs(
                    command,
                    final(self)@,
                    views(actions@),
                ),
                None => {
                    &&& result matches Err(text) && text@ == ZedACPView::unknown_command(name@)
                    &&& final(self)@ == old(self)@
                },
            },
    {
        match Command::parse(name) {
            Some(Command::TogglePanel) => Ok(notify("Agent panel toggled")),
            Some(Command::NewSession) => Ok(self.new_session()),
            Some(Command::SubmitPrompt) => Ok(notify("Prompt submitted")),
            Some(Command::CancelPrompt) => Ok(self.cancel_prompt()),
            Some(Command::ClearHistory) => Ok(self.clear_history()),
            Some(Command::ExportSession) => Ok(notify("Session exported")),
            None => Err(labelled("Unknown command: ", name)),
        }
    }

    /// Takes the host's settings as the configuration. The cap on the
    /// histories becomes the one configured; a client that exists takes the
    /// configuration and gives its connection up, and the host is to
    /// terminate the process that runs for it.
    pub fn settings_updated(
        &mut self,
        agent_servers: Option<&Value>,
        agent: Option<&Value>,
        performance: Option<&Value>,
    ) -> (result: Vec<HostAction>)
        ensures
            final(self)@.sessions == old(self)@.sessions.limited(
                final(self)@.config.agent.max_history,
            ),
            final(self)@.config.servers_read(setting_json(agent_servers)),
            final(self)@.config.agent == ACPConfigView::agent_read(setting_json(agent)),
            final(self)@.config.performance == ACPConfigView::performance_read(
                setting_json(performance),
            ),
            match old(self)@.client {
                Some(client) => final(self)@.client == Some(
                    client.reconfigured(final(self)@.config),
                ),
                None => final(self)@.client is None,
            },
            views(result@) == if old(self)@.connected() {
                seq![HostActionView::Terminate]
            } else {
                Seq::empty()
            },
    {
        let mut result: Vec<HostAction> = Vec::new();
        match ACPConfig::from_settings(agent_servers, agent, performance) {
            Ok(config) => {
                self.session_manager.set_max_history(config.agent.max_history);
                match &mut self.client {
                    Some(client) => {
                        if client.reconfigure(&config) {
                            result.push(HostAction::Terminate);
                        }
                    },
                    None => {},
                }
                self.config = config;
            },
            Err(_) => {},
        }
        assert(views(result@) =~= if old(self)@.connected() {
            seq![HostActionView::Terminate]
        } else {
            Seq::empty()
        });
        result
    }
}

} // verus!
