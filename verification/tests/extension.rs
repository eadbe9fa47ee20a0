use serde_json::Value;
use zed_acp::client::{ACPClientError, ConnectionState, ReaderAction};
use zed_acp::extension::{join, labelled, notify, Command, HostAction, ZedACP};
use zed_acp::protocol::MessageId;
use zed_acp::session::MessageRole;

fn parsed(text: &str) -> Value {
    serde_json::from_str::<Value>(text).unwrap()
}

fn shown(actions: &Vec<HostAction>) -> Vec<String> {
    actions.iter().map(|action| format!("{:?}", action)).collect()
}

fn notice(text: &str) -> Vec<String> {
    vec![format!("{:?}", HostAction::Notify(text.to_string()))]
}

#[test]
fn commands_are_named() {
    assert_eq!(Command::parse("agent:toggle-panel"), Some(Command::TogglePanel));
    assert_eq!(Command::parse("agent:new-session"), Some(Command::NewSession));
    assert_eq!(Command::parse("agent:submit-prompt"), Some(Command::SubmitPrompt));
    assert_eq!(Command::parse("agent:cancel-prompt"), Some(Command::CancelPrompt));
    assert_eq!(Command::parse("agent:clear-history"), Some(Command::ClearHistory));
    assert_eq!(Command::parse("agent:export-session"), Some(Command::ExportSession));
    assert_eq!(Command::parse("agent:toggle-panel "), None);
    assert_eq!(Command::parse("agent"), None);
    assert_eq!(Command::parse(""), None);
}

#[test]
fn unknown_command_is_refused() {
    let mut layer = ZedACP::new();
    assert_eq!(layer.run_command("agent:fly").unwrap_err(), "Unknown command: agent:fly");
    assert_eq!(layer.run_command("").unwrap_err(), "Unknown command: ");
    assert!(layer.sessions().list_sessions().is_empty());
}

#[test]
fn commands_without_effect_tell_the_user() {
    let mut layer = ZedACP::new();
    assert_eq!(shown(&layer.run_command("agent:toggle-panel").unwrap()), notice("Agent panel toggled"));
    assert_eq!(shown(&layer.run_command("agent:submit-prompt").unwrap()), notice("Prompt submitted"));
    assert_eq!(shown(&layer.run_command("agent:export-session").unwrap()), notice("Session exported"));
    assert!(layer.sessions().list_sessions().is_empty());
    assert_eq!(layer.sessions().current_session(), None);
}

#[test]
fn new_session_command_creates_the_current_session() {
    let mut layer = ZedACP::new();
    let actions = layer.run_command("agent:new-session").unwrap();
    let id = layer.sessions().current_session().unwrap();
    assert_eq!(shown(&actions), notice(&format!("New session created: {}", id)));
    assert_eq!(layer.sessions().list_sessions().len(), 1);
    assert!(layer.sessions().get_session(&id).unwrap().cwd.is_none());
    layer.run_command("agent:new-session").unwrap();
    assert_ne!(layer.sessions().current_session().unwrap(), id);
    assert_eq!(layer.sessions().list_sessions().len(), 2);
}

#[test]
fn clear_history_command_needs_a_current_session() {
    let mut layer = ZedACP::new();
    assert!(layer.run_command("agent:clear-history").unwrap().is_empty());
    let (id, _) = layer.run_slash_command("agent", &vec!["x".to_string()], None).unwrap();
    assert_eq!(shown(&layer.run_command("agent:clear-history").unwrap()), notice("History cleared"));
    assert!(layer.sessions().get_session(&id).unwrap().messages.is_empty());
}

#[test]
fn cancel_command_without_connection_only_tells_the_user() {
    let mut layer = ZedACP::new();
    assert_eq!(shown(&layer.run_command("agent:cancel-prompt").unwrap()), notice("Prompt cancelled"));
    layer.ensure_client().unwrap();
    assert_eq!(shown(&layer.cancel_prompt()), notice("Prompt cancelled"));
}

#[test]
fn slash_command_resolves_the_session_and_joins_the_words() {
    let mut layer = ZedACP::new();
    let words = vec!["explain".to_string(), "this".to_string(), "function".to_string()];
    let (session_id, prompt) = layer.run_slash_command("agent", &words, Some("/repo".to_string())).unwrap();
    assert_eq!(prompt, "explain this function");
    assert_eq!(layer.sessions().current_session(), Some(session_id.clone()));
    assert_eq!(layer.sessions().get_session(&session_id).unwrap().cwd.as_deref(), Some("/repo"));
    assert!(layer.needs_connection());
    let (again, empty) = layer.run_slash_command("agent", &vec![], Some("/other".to_string())).unwrap();
    assert_eq!(again, session_id);
    assert_eq!(empty, "");
    assert_eq!(layer.sessions().list_sessions().len(), 1);
}

#[test]
fn unknown_slash_command_is_refused() {
    let mut layer = ZedACP::new();
    let error = layer.run_slash_command("agents", &vec!["x".to_string()], None).unwrap_err();
    assert_eq!(error, "Unknown slash command: agents");
    assert!(!layer.needs_connection());
    assert_eq!(layer.sessions().current_session(), None);
}

#[test]
fn prompt_needs_a_client_and_a_connection() {
    let mut layer = ZedACP::new();
    assert_eq!(layer.prompt("s", "p", 0).unwrap_err(), "No agent client available");
    layer.ensure_client().unwrap();
    assert_eq!(layer.prompt("s", "p", 0).unwrap_err(), "Agent error: Server not configured");
}

#[test]
fn outcome_of_a_prompt_is_told_to_the_host() {
    assert_eq!(ZedACP::agent_output(Ok("answer".to_string())).unwrap(), "answer");
    assert_eq!(ZedACP::agent_output(Err(ACPClientError::Timeout)).unwrap_err(), "Agent error: Timeout error");
    assert_eq!(
        ZedACP::agent_output(Err(ACPClientError::Protocol { code: Some(4), message: "refused".to_string() }))
            .unwrap_err(),
        "Agent error: Protocol error: refused"
    );
    assert_eq!(
        ZedACP::agent_output(Err(ACPClientError::ServerNotConfigured)).unwrap_err(),
        "Agent error: Server not configured"
    );
}

#[test]
fn settings_update_without_a_client_asks_nothing_of_the_host() {
    let mut layer = ZedACP::new();
    let servers = parsed(r#"{"a":{"command":"agent","args":[],"env":{}}}"#);
    assert!(layer.settings_updated(Some(&servers), None, None).is_empty());
    layer.ensure_client().unwrap();
    assert!(layer.settings_updated(Some(&servers), None, None).is_empty());
    assert!(layer.needs_connection());
}

#[test]
fn words_are_joined_by_single_spaces() {
    assert_eq!(join(&vec![]), "");
    assert_eq!(join(&vec!["one".to_string()]), "one");
    assert_eq!(join(&vec!["a".to_string(), "".to_string(), "b c".to_string()]), "a  b c");
    assert_eq!(labelled("Label: ", "text"), "Label: text");
    assert_eq!(shown(&notify("n")), notice("n"));
}

fn with_server() -> ZedACP {
    let mut layer = ZedACP::new();
    let servers = parsed(r#"{"a":{"command":"agent","args":[],"env":{}}}"#);
    assert!(layer.settings_updated(Some(&servers), None, None).is_empty());
    layer.ensure_client().unwrap();
    layer
}

#[test]
fn cancel_command_with_connection_sends_the_notification() {
    let mut layer = with_server();
    layer.client_mut().unwrap().connect().unwrap();
    assert!(!layer.needs_connection());
    let actions = layer.run_command("agent:cancel-prompt").unwrap();
    let expected = vec![
        format!(
            "{:?}",
            HostAction::Send(r#"{"jsonrpc":"notification","method":"session/cancel","params":null}"#.to_string())
        ),
        format!("{:?}", HostAction::Notify("Prompt cancelled".to_string())),
    ];
    assert_eq!(shown(&actions), expected);
}

#[test]
fn settings_update_gives_up_a_running_connection() {
    let mut layer = with_server();
    layer.client_mut().unwrap().connect().unwrap();
    let actions = layer.settings_updated(None, None, None);
    assert_eq!(shown(&actions), vec![format!("{:?}", HostAction::Terminate)]);
    assert!(layer.needs_connection());
    assert_eq!(layer.client_mut().unwrap().state(), ConnectionState::Disconnected);
    assert!(layer.settings_updated(None, None, None).is_empty());
}

#[test]
fn prompt_through_the_layer_goes_out_once_the_handshake_is_done() {
    let mut layer = with_server();
    {
        let client = layer.client_mut().unwrap();
        client.recall_well_formed();
        client.connect().unwrap();
        client.initialize(0).unwrap();
    }
    assert_eq!(layer.prompt("s", "early", 0).unwrap_err(), "Agent error: Server not configured");
    {
        let client = layer.client_mut().unwrap();
        let line = r#"{"jsonrpc":"response","id":1,"result":{"protocol_version":1,"capabilities":{}}}"#;
        match client.handle_line(line) {
            ReaderAction::Deliver { message, .. } => {
                client.finish_initialize(message).unwrap();
            }
            other => panic!("unexpected: {:?}", other),
        }
    }
    let (session_id, prompt) = layer.run_slash_command("agent", &vec!["hi".to_string()], None).unwrap();
    let outbound = layer.prompt(&session_id, &prompt, 10).unwrap();
    assert!(outbound.id.same(&MessageId::Number(2)));
    assert_eq!(outbound.deadline, 30_010);
    assert_eq!(
        outbound.line,
        format!(
            r#"{{"id":2,"jsonrpc":"request","method":"session/prompt","params":{{"prompt":[{{"text":"hi","type":"text"}}],"session_id":"{}"}}}}"#,
            session_id
        )
    );
    assert!(layer.client_mut().unwrap().is_pending(&outbound.id));
}

#[test]
fn sessions_can_be_changed_through_the_layer() {
    let mut layer = ZedACP::new();
    let id = layer.sessions_mut().create_session(Some("/x".to_string()));
    layer.sessions_mut().add_message(&id, MessageRole::User, "hi".to_string());
    assert_eq!(layer.sessions().get_session(&id).unwrap().messages.len(), 1);
    assert_eq!(layer.sessions().current_session(), Some(id.clone()));
    assert!(layer.sessions_mut().rekey_session(&id, "agent-id".to_string()));
    let (resolved, _) = layer.run_slash_command("agent", &vec![], None).unwrap();
    assert_eq!(resolved, "agent-id");
    assert!(layer.client_mut().is_some());
}

#[test]
fn settings_update_applies_the_configured_history_cap() {
    let mut layer = ZedACP::new();
    let id = layer.sessions_mut().create_session(None);
    for i in 0..5 {
        layer.sessions_mut().add_message(&id, MessageRole::User, format!("{}", i));
    }
    let before = layer.sessions().get_session(&id).unwrap().updated_at;
    let agent = parsed(r#"{"enabled":true,"default_server":null,"auto_start":false,"streaming":true,"max_history":3}"#);
    layer.settings_updated(None, Some(&agent), None);
    {
        let session = layer.sessions().get_session(&id).unwrap();
        assert_eq!(session.max_history, 3);
        let contents: Vec<&str> = session.messages.iter().map(|message| message.content.as_str()).collect();
        assert_eq!(contents, vec!["2", "3", "4"]);
        assert_eq!(session.updated_at, before);
    }
    assert_eq!(layer.sessions().current_session(), Some(id.clone()));
    layer.sessions_mut().add_message(&id, MessageRole::User, "5".to_string());
    assert_eq!(layer.sessions().get_session(&id).unwrap().messages.len(), 3);
    assert_eq!(layer.sessions().get_session(&id).unwrap().messages[0].content, "3");
    let created = layer.run_command("agent:new-session").unwrap();
    assert_eq!(created.len(), 1);
    let newer = layer.sessions().current_session().unwrap();
    assert_eq!(layer.sessions().get_session(&newer).unwrap().max_history, 3);
    layer.settings_updated(None, None, None);
    assert_eq!(layer.sessions().get_session(&id).unwrap().max_history, 100);
    assert_eq!(layer.sessions().get_session(&id).unwrap().messages.len(), 3);
}

#[test]
fn settings_update_reaches_a_client_that_exists() {
    let mut layer = with_server();
    layer.client_mut().unwrap().connect().unwrap();
    let servers = parsed(r#"{"b":{"command":"second","args":[],"env":{}}}"#);
    let limits = parsed(r#"{"max_concurrent_requests":1,"request_timeout":250,"cache_size":1}"#);
    let actions = layer.settings_updated(Some(&servers), None, Some(&limits));
    assert_eq!(shown(&actions), vec![format!("{:?}", HostAction::Terminate)]);
    let client = layer.client_mut().unwrap();
    assert_eq!(client.request_timeout(), 250);
    assert_eq!(client.connect().unwrap().server.command, "second");
}
