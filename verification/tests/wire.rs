use serde_json::Value;
use zed_acp::protocol::{
    ACPError, ACPMessage, ClientCapabilities, ClientInfo, ContentBlock, InitializeRequest,
    InitializeResponse, LoadSessionRequest, LoadSessionResponse, Location, McpServer,
    McpServerConfig, MessageId, ModeInfo, ModelInfo, ModelsInfo, ModesInfo, NewSessionRequest,
    NewSessionResponse, PlanEntry, PromptRequest, PromptResponse, ResourceContent, ResponseResult,
    ServerCapabilities, ServerInfo, SessionUpdate, ToolCallContent, Wire,
};

fn parsed(text: &str) -> Value {
    serde_json::from_str::<Value>(text).unwrap()
}

fn shown(message: &ACPMessage) -> String {
    format!("{:?}", message)
}

#[test]
fn request_is_written_as_one_object() {
    let message = ACPMessage::Request {
        id: MessageId::Number(1),
        method: "initialize".to_string(),
        params: Value::Null,
    };
    let line = message.to_line().unwrap();
    assert_eq!(line, r#"{"id":1,"jsonrpc":"request","method":"initialize","params":null}"#);
}

#[test]
fn response_with_result_is_written_as_one_object() {
    let message = ACPMessage::Response {
        id: MessageId::String("a-7".to_string()),
        result: ResponseResult::Success { result: parsed(r#"{"session_id":"s"}"#) },
    };
    let line = message.to_line().unwrap();
    assert_eq!(line, r#"{"id":"a-7","jsonrpc":"response","result":{"session_id":"s"}}"#);
}

#[test]
fn response_with_error_is_written_as_one_object() {
    let message = ACPMessage::Response {
        id: MessageId::Number(-3),
        result: ResponseResult::Error {
            error: ACPError { code: -32601, message: "no such method".to_string(), data: None },
        },
    };
    let line = message.to_line().unwrap();
    assert_eq!(
        line,
        r#"{"error":{"code":-32601,"message":"no such method"},"id":-3,"jsonrpc":"response"}"#
    );
}

#[test]
fn error_data_is_written_where_there_is_any() {
    let error = ACPError { code: 1, message: "m".to_string(), data: Some(parsed("[1,2]")) };
    assert_eq!(serde_json::to_string(&error.to_json()).unwrap(), r#"{"code":1,"data":[1,2],"message":"m"}"#);
}

#[test]
fn notification_is_written_as_one_object() {
    let message = ACPMessage::Notification {
        method: "session/cancel".to_string(),
        params: Value::Null,
    };
    let line = message.to_line().unwrap();
    assert_eq!(line, r#"{"jsonrpc":"notification","method":"session/cancel","params":null}"#);
}

#[test]
fn written_line_holds_no_line_end() {
    let message = ACPMessage::Notification {
        method: "note".to_string(),
        params: Value::String("first\nsecond\r\n".to_string()),
    };
    let line = message.to_line().unwrap();
    assert!(!line.contains('\n'));
    assert!(!line.contains('\r'));
    let back = ACPMessage::from_line(&line).unwrap();
    assert_eq!(shown(&back), shown(&message));
}

#[test]
fn request_is_read_from_a_line() {
    let line = r#"{"jsonrpc":"request","id":12,"method":"session/new","params":{"cwd":"/repo"}}"#;
    match ACPMessage::from_line(line) {
        Some(ACPMessage::Request { id, method, params }) => {
            assert!(id.same(&MessageId::Number(12)));
            assert_eq!(method, "session/new");
            assert_eq!(params, parsed(r#"{"cwd":"/repo"}"#));
        }
        other => panic!("unexpected: {:?}", other),
    }
}

#[test]
fn response_with_result_is_read_from_a_line() {
    let line = r#"{"jsonrpc":"response","id":"x","result":null}"#;
    match ACPMessage::from_line(line) {
        Some(ACPMessage::Response { id, result: ResponseResult::Success { result } }) => {
            assert!(id.same(&MessageId::String("x".to_string())));
            assert_eq!(result, Value::Null);
        }
        other => panic!("unexpected: {:?}", other),
    }
}

#[test]
fn response_with_error_is_read_from_a_line() {
    let line = r#"{"jsonrpc":"response","id":4,"error":{"code":-1,"message":"bad","data":{"k":true}}}"#;
    match ACPMessage::from_line(line) {
        Some(ACPMessage::Response { id, result: ResponseResult::Error { error } }) => {
            assert!(id.same(&MessageId::Number(4)));
            assert_eq!(error.code, -1);
            assert_eq!(error.message, "bad");
            assert_eq!(error.data, Some(parsed(r#"{"k":true}"#)));
        }
        other => panic!("unexpected: {:?}", other),
    }
}

#[test]
fn notification_is_read_from_a_line() {
    let line = r#"{"jsonrpc":"notification","method":"session/update","params":[1]}"#;
    match ACPMessage::from_line(line) {
        Some(ACPMessage::Notification { method, params }) => {
            assert_eq!(method, "session/update");
            assert_eq!(params, parsed("[1]"));
        }
        other => panic!("unexpected: {:?}", other),
    }
}

#[test]
fn response_with_neither_result_nor_error_is_rejected() {
    assert!(ACPMessage::from_line(r#"{"jsonrpc":"response","id":1}"#).is_none());
}

#[test]
fn response_with_both_result_and_error_is_rejected() {
    let line = r#"{"jsonrpc":"response","id":1,"result":1,"error":{"code":1,"message":"m"}}"#;
    assert!(ACPMessage::from_line(line).is_none());
}

#[test]
fn response_with_null_error_beside_result_is_rejected() {
    let line = r#"{"jsonrpc":"response","id":1,"result":1,"error":null}"#;
    assert!(ACPMessage::from_line(line).is_none());
}

#[test]
fn response_with_unreadable_error_is_rejected() {
    assert!(ACPMessage::from_line(r#"{"jsonrpc":"response","id":1,"error":{"code":"x","message":"m"}}"#).is_none());
    assert!(ACPMessage::from_line(r#"{"jsonrpc":"response","id":1,"error":{"code":1}}"#).is_none());
    assert!(ACPMessage::from_line(r#"{"jsonrpc":"response","id":1,"error":7}"#).is_none());
}

#[test]
fn message_without_kind_is_rejected() {
    assert!(ACPMessage::from_line(r#"{"id":1,"method":"m","params":null}"#).is_none());
    assert!(ACPMessage::from_line(r#"{"jsonrpc":"2.0","id":1,"method":"m","params":null}"#).is_none());
    assert!(ACPMessage::from_line(r#"{"jsonrpc":7,"id":1,"method":"m","params":null}"#).is_none());
}

#[test]
fn request_with_missing_member_is_rejected() {
    assert!(ACPMessage::from_line(r#"{"jsonrpc":"request","method":"m","params":null}"#).is_none());
    assert!(ACPMessage::from_line(r#"{"jsonrpc":"request","id":1,"params":null}"#).is_none());
    assert!(ACPMessage::from_line(r#"{"jsonrpc":"request","id":1,"method":"m"}"#).is_none());
    assert!(ACPMessage::from_line(r#"{"jsonrpc":"request","id":1,"method":5,"params":null}"#).is_none());
}

#[test]
fn notification_with_missing_member_is_rejected() {
    assert!(ACPMessage::from_line(r#"{"jsonrpc":"notification","params":null}"#).is_none());
    assert!(ACPMessage::from_line(r#"{"jsonrpc":"notification","method":"m"}"#).is_none());
}

#[test]
fn identifier_must_be_an_integer_or_a_string() {
    assert!(ACPMessage::from_line(r#"{"jsonrpc":"response","id":1.5,"result":1}"#).is_none());
    assert!(ACPMessage::from_line(r#"{"jsonrpc":"response","id":null,"result":1}"#).is_none());
    assert!(ACPMessage::from_line(r#"{"jsonrpc":"response","id":[1],"result":1}"#).is_none());
    assert!(ACPMessage::from_line(r#"{"jsonrpc":"response","id":9223372036854775808,"result":1}"#).is_none());
    assert!(ACPMessage::from_line(r#"{"jsonrpc":"response","id":9223372036854775807,"result":1}"#).is_some());
    assert!(ACPMessage::from_line(r#"{"jsonrpc":"response","id":-9223372036854775808,"result":1}"#).is_some());
}

#[test]
fn identifier_is_read_as_number_or_string() {
    let number = MessageId::from_json(&parsed("17")).unwrap();
    assert!(number.same(&MessageId::Number(17)));
    let text = MessageId::from_json(&parsed(r#""17""#)).unwrap();
    assert!(text.same(&MessageId::String("17".to_string())));
    assert!(!number.same(&text));
    assert!(!MessageId::Number(1).same(&MessageId::Number(2)));
    assert!(!MessageId::String("a".to_string()).same(&MessageId::String("b".to_string())));
    assert_eq!(MessageId::Number(-4).to_json(), parsed("-4"));
    assert_eq!(MessageId::String("q".to_string()).to_json(), parsed(r#""q""#));
}

#[test]
fn text_that_is_no_json_is_rejected() {
    assert!(ACPMessage::from_line("").is_none());
    assert!(ACPMessage::from_line("\n").is_none());
    assert!(ACPMessage::from_line("not json").is_none());
    assert!(ACPMessage::from_line(r#"{"jsonrpc":"request","id":1,"method":"m","params":null"#).is_none());
    assert!(ACPMessage::from_line("[]").is_none());
    assert!(ACPMessage::from_line("5").is_none());
}

#[test]
fn whitespace_around_a_line_is_dropped() {
    let inner = r#"{"jsonrpc":"notification","method":"m","params":null}"#;
    let line = format!("\u{a0}\u{2003} \t{}\u{3000}\u{85}\r\n", inner);
    assert!(serde_json::from_str::<Value>(&line).is_err());
    let message = ACPMessage::from_line(&line).unwrap();
    assert_eq!(shown(&message), shown(&ACPMessage::from_line(inner).unwrap()));
}

#[test]
fn unknown_members_are_passed_over() {
    let line = r#"{"jsonrpc":"notification","method":"m","params":null,"extra":1,"id":9}"#;
    assert!(matches!(ACPMessage::from_line(line), Some(ACPMessage::Notification { .. })));
}

#[test]
fn null_error_data_reads_as_no_data() {
    let line = r#"{"jsonrpc":"response","id":1,"error":{"code":1,"message":"m","data":null}}"#;
    match ACPMessage::from_line(line) {
        Some(ACPMessage::Response { result: ResponseResult::Error { error }, .. }) => {
            assert_eq!(error.data, None);
        }
        other => panic!("unexpected: {:?}", other),
    }
}

#[test]
fn messages_survive_the_wire() {
    let messages = vec![
        ACPMessage::Request {
            id: MessageId::Number(i64::MAX),
            method: "session/prompt".to_string(),
            params: parsed(r#"{"a":[1,"two",null,{"b":false}]}"#),
        },
        ACPMessage::Request {
            id: MessageId::String(String::new()),
            method: String::new(),
            params: Value::Null,
        },
        ACPMessage::Response {
            id: MessageId::Number(i64::MIN),
            result: ResponseResult::Success { result: parsed(r#""text with \"quotes\" and \\""#) },
        },
        ACPMessage::Response {
            id: MessageId::String("id".to_string()),
            result: ResponseResult::Error {
                error: ACPError {
                    code: 0,
                    message: "m\u{e9}".to_string(),
                    data: Some(parsed("0")),
                },
            },
        },
        ACPMessage::Notification { method: "n".to_string(), params: parsed("{}") },
    ];
    for message in messages.iter() {
        let back = ACPMessage::from_json(&message.to_json()).unwrap();
        assert_eq!(shown(&back), shown(message));
        let again = ACPMessage::from_line(&message.to_line().unwrap()).unwrap();
        assert_eq!(shown(&again), shown(message));
    }
}

#[test]
fn copies_of_messages_are_equal_to_them() {
    let message = ACPMessage::Response {
        id: MessageId::String("k".to_string()),
        result: ResponseResult::Error {
            error: ACPError { code: 5, message: "e".to_string(), data: Some(parsed("[true]")) },
        },
    };
    assert_eq!(shown(&message.clone()), shown(&message));
}

#[test]
fn initialize_request_is_written() {
    let request = InitializeRequest {
        protocol_version: 1,
        capabilities: None,
        client_info: Some(ClientInfo { name: "n".to_string(), version: "v".to_string() }),
    };
    assert_eq!(
        serde_json::to_string(&request.to_json()).unwrap(),
        r#"{"client_info":{"name":"n","version":"v"},"protocol_version":1}"#
    );
    let with_capabilities = InitializeRequest {
        protocol_version: u32::MAX,
        capabilities: Some(ClientCapabilities { sampling: Some(parsed("{}")) }),
        client_info: None,
    };
    assert_eq!(
        serde_json::to_string(&with_capabilities.to_json()).unwrap(),
        r#"{"capabilities":{"sampling":{}},"protocol_version":4294967295}"#
    );
}

#[test]
fn initialize_request_is_read() {
    let read = InitializeRequest::from_json(&parsed(
        r#"{"protocol_version":3,"capabilities":{},"client_info":{"name":"a","version":"b"}}"#,
    ))
    .unwrap();
    assert_eq!(read.protocol_version, 3);
    assert!(read.capabilities.unwrap().sampling.is_none());
    let info = read.client_info.unwrap();
    assert_eq!(info.name, "a");
    assert_eq!(info.version, "b");
    assert!(InitializeRequest::from_json(&parsed(r#"{"protocol_version":-1}"#)).is_none());
    assert!(InitializeRequest::from_json(&parsed(r#"{"protocol_version":4294967296}"#)).is_none());
    assert!(InitializeRequest::from_json(&parsed(r#"{"protocol_version":1.0}"#)).is_none());
    assert!(InitializeRequest::from_json(&parsed(r#"{}"#)).is_none());
    assert!(InitializeRequest::from_json(&parsed(r#"{"protocol_version":1,"client_info":{"name":"a"}}"#)).is_none());
    assert!(InitializeRequest::from_json(&parsed(r#"{"protocol_version":1,"capabilities":5}"#)).is_none());
}

#[test]
fn initialize_response_is_read_and_written() {
    let text = r#"{"capabilities":{"logging":{"level":"info"}},"instructions":"be kind","protocol_version":1,"server_info":{"name":"agent","version":"0.3"}}"#;
    let read = InitializeResponse::from_json(&parsed(text)).unwrap();
    assert_eq!(read.protocol_version, 1);
    assert!(read.capabilities.experimental.is_none());
    assert_eq!(read.capabilities.logging, Some(parsed(r#"{"level":"info"}"#)));
    assert_eq!(read.instructions.as_deref(), Some("be kind"));
    assert_eq!(read.server_info.as_ref().unwrap().name, "agent");
    assert_eq!(serde_json::to_string(&read.to_json()).unwrap(), text);
    let least = InitializeResponse::from_json(&parsed(r#"{"protocol_version":2,"capabilities":{}}"#)).unwrap();
    assert!(least.server_info.is_none());
    assert!(least.instructions.is_none());
    assert!(InitializeResponse::from_json(&parsed(r#"{"protocol_version":2}"#)).is_none());
    assert!(InitializeResponse::from_json(&parsed(r#"{"protocol_version":2,"capabilities":[]}"#)).is_none());
    assert!(ServerCapabilities::from_json(&parsed("3")).is_none());
    assert!(ClientCapabilities::from_json(&parsed("null")).is_none());
    assert!(ServerInfo::from_json(&parsed(r#"{"name":"a","version":1}"#)).is_none());
    assert_eq!(
        serde_json::to_string(&ServerInfo { name: "a".to_string(), version: "1".to_string() }.to_json()).unwrap(),
        r#"{"name":"a","version":"1"}"#
    );
}

#[test]
fn new_session_request_is_written_and_read() {
    let empty = NewSessionRequest { cwd: None, mcp_servers: None };
    assert_eq!(serde_json::to_string(&empty.to_json()).unwrap(), "{}");
    let request = NewSessionRequest {
        cwd: Some("/repo".to_string()),
        mcp_servers: Some(vec![
            McpServer {
                name: "files".to_string(),
                config: McpServerConfig::Local {
                    command: vec!["fs".to_string(), "--root".to_string()],
                    env: Some(vec![("B".to_string(), "2".to_string()), ("A".to_string(), "1".to_string())]),
                },
            },
            McpServer {
                name: "web".to_string(),
                config: McpServerConfig::Remote { url: "https://x".to_string(), headers: None },
            },
        ]),
    };
    let text = r#"{"cwd":"/repo","mcp_servers":[{"command":["fs","--root"],"env":{"A":"1","B":"2"},"name":"files"},{"name":"web","url":"https://x"}]}"#;
    assert_eq!(serde_json::to_string(&request.to_json()).unwrap(), text);
    let read = NewSessionRequest::from_json(&parsed(text)).unwrap();
    assert_eq!(read.cwd.as_deref(), Some("/repo"));
    let servers = read.mcp_servers.unwrap();
    assert_eq!(servers.len(), 2);
    assert_eq!(servers[0].name, "files");
    match &servers[0].config {
        McpServerConfig::Local { command, env } => {
            assert_eq!(command, &vec!["fs".to_string(), "--root".to_string()]);
            let mut env = env.clone().unwrap();
            env.sort();
            assert_eq!(env, vec![("A".to_string(), "1".to_string()), ("B".to_string(), "2".to_string())]);
        }
        other => panic!("unexpected: {:?}", other),
    }
    match &servers[1].config {
        McpServerConfig::Remote { url, headers } => {
            assert_eq!(url, "https://x");
            assert!(headers.is_none());
        }
        other => panic!("unexpected: {:?}", other),
    }
    assert!(NewSessionRequest::from_json(&parsed("[]")).is_none());
    assert!(NewSessionRequest::from_json(&parsed(r#"{"cwd":5}"#)).is_none());
    assert!(NewSessionRequest::from_json(&parsed(r#"{"mcp_servers":[{"name":"x"}]}"#)).is_none());
    assert!(NewSessionRequest::from_json(&parsed(r#"{"cwd":null,"mcp_servers":null}"#)).is_some());
}

#[test]
fn tool_server_is_local_where_it_has_a_command() {
    let both = McpServerConfig::from_json(&parsed(r#"{"command":["a"],"url":"u"}"#)).unwrap();
    assert!(matches!(both, McpServerConfig::Local { .. }));
    let fallback = McpServerConfig::from_json(&parsed(r#"{"command":"a","url":"u","headers":{"h":"1"}}"#)).unwrap();
    match fallback {
        McpServerConfig::Remote { url, headers } => {
            assert_eq!(url, "u");
            assert_eq!(headers, Some(vec![("h".to_string(), "1".to_string())]));
        }
        other => panic!("unexpected: {:?}", other),
    }
    assert!(McpServerConfig::from_json(&parsed(r#"{"command":["a"],"env":{"k":1}}"#)).is_none());
    assert!(McpServerConfig::from_json(&parsed(r#"{"url":"u","headers":[]}"#)).is_none());
    assert!(McpServerConfig::from_json(&parsed(r#"{}"#)).is_none());
}

#[test]
fn repeated_name_in_written_map_keeps_the_last_value() {
    let config = McpServerConfig::Local {
        command: vec![],
        env: Some(vec![("K".to_string(), "first".to_string()), ("K".to_string(), "last".to_string())]),
    };
    assert_eq!(serde_json::to_string(&config.to_json()).unwrap(), r#"{"command":[],"env":{"K":"last"}}"#);
}

#[test]
fn new_session_response_is_read_and_written() {
    let text = r#"{"models":{"available_models":[{"model_id":"m1","name":"One"}],"current_model_id":null},"modes":{"available_modes":[{"description":"d","id":"a","name":"A"},{"id":"b","name":"B"}],"current_mode_id":"a"},"session_id":"sess-1"}"#;
    let read = NewSessionResponse::from_json(&parsed(text)).unwrap();
    assert_eq!(read.session_id, "sess-1");
    let models = read.models.as_ref().unwrap();
    assert!(models.current_model_id.is_none());
    assert_eq!(models.available_models[0].model_id, "m1");
    let modes = read.modes.as_ref().unwrap();
    assert_eq!(modes.current_mode_id.as_deref(), Some("a"));
    assert_eq!(modes.available_modes[0].description.as_deref(), Some("d"));
    assert!(modes.available_modes[1].description.is_none());
    assert_eq!(serde_json::to_string(&read.to_json()).unwrap(), text);
    assert!(NewSessionResponse::from_json(&parsed(r#"{}"#)).is_none());
    assert!(NewSessionResponse::from_json(&parsed(r#"{"session_id":1}"#)).is_none());
    assert!(NewSessionResponse::from_json(&parsed(r#"{"session_id":"s","models":{}}"#)).is_none());
    assert!(NewSessionResponse::from_json(&parsed(r#"{"session_id":"s","modes":{"available_modes":[{"id":"a"}]}}"#)).is_none());
    let least = NewSessionResponse::from_json(&parsed(r#"{"session_id":"s"}"#)).unwrap();
    assert!(least.models.is_none() && least.modes.is_none());
    assert!(ModelInfo::from_json(&parsed(r#"{"model_id":"m"}"#)).is_none());
    assert!(ModeInfo::from_json(&parsed(r#"{"id":"m","name":"n","description":4}"#)).is_none());
    assert!(ModelsInfo::from_json(&parsed(r#"{"available_models":[]}"#)).is_some());
    assert!(ModesInfo::from_json(&parsed(r#"{"available_modes":{}}"#)).is_none());
}

#[test]
fn load_session_messages_are_read_and_written() {
    let request = LoadSessionRequest { cwd: None, mcp_servers: None, session_id: "s9".to_string() };
    assert_eq!(serde_json::to_string(&request.to_json()).unwrap(), r#"{"session_id":"s9"}"#);
    let read = LoadSessionRequest::from_json(&parsed(r#"{"session_id":"s9","cwd":"/w"}"#)).unwrap();
    assert_eq!(read.session_id, "s9");
    assert_eq!(read.cwd.as_deref(), Some("/w"));
    assert!(LoadSessionRequest::from_json(&parsed(r#"{"cwd":"/w"}"#)).is_none());
    let response = LoadSessionResponse::from_json(&parsed(r#"{"session_id":"s9"}"#)).unwrap();
    assert_eq!(serde_json::to_string(&response.to_json()).unwrap(), r#"{"session_id":"s9"}"#);
    assert!(LoadSessionResponse::from_json(&parsed(r#"{"session_id":null}"#)).is_none());
}

#[test]
fn prompt_of_one_text_is_written() {
    let request = PromptRequest::of_text("sess", "hello there");
    assert_eq!(
        serde_json::to_string(&request.to_json()).unwrap(),
        r#"{"prompt":[{"text":"hello there","type":"text"}],"session_id":"sess"}"#
    );
    assert!(request.system.is_none());
    assert_eq!(request.prompt.len(), 1);
}

#[test]
fn prompt_request_is_read() {
    let text = r#"{"session_id":"s","prompt":[{"type":"text","text":"a"},{"type":"image","mime_type":"image/png","data":"AAAA"},{"type":"resource_link","uri":"file:///x"},{"type":"resource","resource":{"text":"body"}},{"type":"resource","resource":{"blob":"QQ==","mime_type":"x/y"}}],"system":[{"type":"image","mime_type":"m","uri":"u"}]}"#;
    let read = PromptRequest::from_json(&parsed(text)).unwrap();
    assert_eq!(read.prompt.len(), 5);
    assert!(matches!(&read.prompt[0], ContentBlock::Text { text } if text == "a"));
    assert!(matches!(&read.prompt[1], ContentBlock::Image { mime_type, data: Some(data), uri: None } if mime_type == "image/png" && data == "AAAA"));
    assert!(matches!(&read.prompt[2], ContentBlock::ResourceLink { uri } if uri == "file:///x"));
    assert!(matches!(&read.prompt[3], ContentBlock::Resource { resource: ResourceContent::Text { text } } if text == "body"));
    assert!(matches!(&read.prompt[4], ContentBlock::Resource { resource: ResourceContent::Blob { blob, mime_type } } if blob == "QQ==" && mime_type == "x/y"));
    assert_eq!(read.system.as_ref().unwrap().len(), 1);
    assert_eq!(parsed(&serde_json::to_string(&read.to_json()).unwrap()), parsed(text));
    assert!(PromptRequest::from_json(&parsed(r#"{"session_id":"s"}"#)).is_none());
    assert!(PromptRequest::from_json(&parsed(r#"{"session_id":"s","prompt":[{"type":"text"}]}"#)).is_none());
    assert!(PromptRequest::from_json(&parsed(r#"{"session_id":"s","prompt":{}}"#)).is_none());
    assert!(PromptRequest::from_json(&parsed(r#"{"session_id":"s","prompt":[],"system":[3]}"#)).is_none());
}

#[test]
fn content_block_kind_is_named_by_type() {
    assert!(ContentBlock::from_json(&parsed(r#"{"text":"a"}"#)).is_none());
    assert!(ContentBlock::from_json(&parsed(r#"{"type":"video","text":"a"}"#)).is_none());
    assert!(ContentBlock::from_json(&parsed(r#"{"type":1,"text":"a"}"#)).is_none());
    assert!(ContentBlock::from_json(&parsed(r#"{"type":"image"}"#)).is_none());
    assert!(ContentBlock::from_json(&parsed(r#"{"type":"image","mime_type":"m","data":5}"#)).is_none());
    assert!(ContentBlock::from_json(&parsed(r#"{"type":"resource_link"}"#)).is_none());
    assert!(ContentBlock::from_json(&parsed(r#"{"type":"resource","resource":{"blob":"b"}}"#)).is_none());
    assert!(ContentBlock::from_json(&parsed(r#"{"type":"resource","resource":{"text":1,"blob":"b","mime_type":"m"}}"#)).is_some());
    let image = ContentBlock::Image { mime_type: "m".to_string(), data: None, uri: Some("u".to_string()) };
    assert_eq!(serde_json::to_string(&image.to_json()).unwrap(), r#"{"mime_type":"m","type":"image","uri":"u"}"#);
    let link = ContentBlock::ResourceLink { uri: "u".to_string() };
    assert_eq!(serde_json::to_string(&link.to_json()).unwrap(), r#"{"type":"resource_link","uri":"u"}"#);
    let blob = ContentBlock::Resource {
        resource: ResourceContent::Blob { blob: "b".to_string(), mime_type: "m".to_string() },
    };
    assert_eq!(
        serde_json::to_string(&blob.to_json()).unwrap(),
        r#"{"resource":{"blob":"b","mime_type":"m"},"type":"resource"}"#
    );
    let text = ContentBlock::text("plain");
    assert!(matches!(&text, ContentBlock::Text { text } if text == "plain"));
}

#[test]
fn prompt_response_is_read_and_written() {
    let read = PromptResponse::from_json(&parsed(r#"{"stop_reason":"end_turn","meta":{"tokens":12}}"#)).unwrap();
    assert_eq!(read.stop_reason.as_deref(), Some("end_turn"));
    assert_eq!(read.meta, Some(parsed(r#"{"tokens":12}"#)));
    assert_eq!(serde_json::to_string(&read.to_json()).unwrap(), r#"{"meta":{"tokens":12},"stop_reason":"end_turn"}"#);
    let empty = PromptResponse::from_json(&parsed("{}")).unwrap();
    assert!(empty.stop_reason.is_none() && empty.meta.is_none());
    assert_eq!(serde_json::to_string(&empty.to_json()).unwrap(), "{}");
    assert!(PromptResponse::from_json(&parsed("null")).is_none());
    assert!(PromptResponse::from_json(&parsed(r#""x""#)).is_none());
    assert!(PromptResponse::from_json(&parsed(r#"{"meta":[1]}"#)).is_none());
    assert!(PromptResponse::from_json(&parsed(r#"{"stop_reason":1}"#)).is_none());
    assert!(PromptResponse::from_json(&parsed(r#"{"meta":null,"stop_reason":null}"#)).is_some());
}

#[test]
fn session_updates_are_read() {
    let chunk = SessionUpdate::from_json(&parsed(
        r#"{"session_update":"agent_message_chunk","content":{"type":"text","text":"Hel"}}"#,
    ))
    .unwrap();
    assert!(matches!(&chunk, SessionUpdate::AgentMessageChunk { content: ContentBlock::Text { text } } if text == "Hel"));
    assert_eq!(chunk.message_text(), "Hel");
    let thought = SessionUpdate::from_json(&parsed(
        r#"{"session_update":"agent_thought_chunk","content":{"type":"text","text":"hm"}}"#,
    ))
    .unwrap();
    assert!(matches!(&thought, SessionUpdate::AgentThoughtChunk { .. }));
    assert_eq!(thought.message_text(), "");
    let call = SessionUpdate::from_json(&parsed(
        r#"{"session_update":"tool_call","tool_call_id":"t1","title":"Read","kind":"read","status":"pending","locations":[{"path":"/a"},{"path":"/b"}],"raw_input":null}"#,
    ))
    .unwrap();
    match &call {
        SessionUpdate::ToolCall { tool_call_id, title, kind, status, locations, raw_input } => {
            assert_eq!(tool_call_id, "t1");
            assert_eq!(title, "Read");
            assert_eq!(kind, "read");
            assert_eq!(status, "pending");
            assert_eq!(locations.len(), 2);
            assert_eq!(locations[1].path, "/b");
            assert_eq!(raw_input, &Value::Null);
        }
        other => panic!("unexpected: {:?}", other),
    }
    let update = SessionUpdate::from_json(&parsed(
        r#"{"session_update":"tool_call_update","tool_call_id":"t1","status":"done","content":[{"content":{"type":"text","text":"ok"}},{"path":"/a","old_text":"x","new_text":"y"}],"raw_output":{"n":1}}"#,
    ))
    .unwrap();
    match &update {
        SessionUpdate::ToolCallUpdate { tool_call_id, status, kind, content, title, raw_output } => {
            assert_eq!(tool_call_id, "t1");
            assert_eq!(status, "done");
            assert!(kind.is_none() && title.is_none());
            let content = content.as_ref().unwrap();
            assert!(matches!(&content[0], ToolCallContent::Content { content: ContentBlock::Text { text } } if text == "ok"));
            assert!(matches!(&content[1], ToolCallContent::Diff { path, old_text, new_text } if path == "/a" && old_text == "x" && new_text == "y"));
            assert_eq!(raw_output, &Some(parsed(r#"{"n":1}"#)));
        }
        other => panic!("unexpected: {:?}", other),
    }
    let plan = SessionUpdate::from_json(&parsed(
        r#"{"session_update":"plan","entries":[{"priority":"high","status":"open","content":"c"}]}"#,
    ))
    .unwrap();
    assert!(matches!(&plan, SessionUpdate::Plan { entries } if entries.len() == 1 && entries[0].priority == "high"));
    assert!(SessionUpdate::from_json(&parsed(r#"{"session_update":"other"}"#)).is_none());
    assert!(SessionUpdate::from_json(&parsed(r#"{"content":{"type":"text","text":"x"}}"#)).is_none());
    assert!(SessionUpdate::from_json(&parsed(r#"{"session_update":"tool_call","tool_call_id":"t","title":"T","kind":"k","status":"s","locations":[]}"#)).is_none());
    assert!(SessionUpdate::from_json(&parsed(r#"{"session_update":"plan","entries":[{"priority":"p"}]}"#)).is_none());
}

#[test]
fn session_updates_are_written() {
    let call = SessionUpdate::ToolCall {
        tool_call_id: "t".to_string(),
        title: "T".to_string(),
        kind: "k".to_string(),
        status: "s".to_string(),
        locations: vec![Location { path: "/p".to_string() }],
        raw_input: parsed("[1]"),
    };
    assert_eq!(
        serde_json::to_string(&call.to_json()).unwrap(),
        r#"{"kind":"k","locations":[{"path":"/p"}],"raw_input":[1],"session_update":"tool_call","status":"s","title":"T","tool_call_id":"t"}"#
    );
    let update = SessionUpdate::ToolCallUpdate {
        tool_call_id: "t".to_string(),
        status: "s".to_string(),
        kind: None,
        content: None,
        title: Some("new".to_string()),
        raw_output: None,
    };
    assert_eq!(
        serde_json::to_string(&update.to_json()).unwrap(),
        r#"{"session_update":"tool_call_update","status":"s","title":"new","tool_call_id":"t"}"#
    );
    let plan = SessionUpdate::Plan {
        entries: vec![PlanEntry { priority: "p".to_string(), status: "s".to_string(), content: "c".to_string() }],
    };
    assert_eq!(
        serde_json::to_string(&plan.to_json()).unwrap(),
        r#"{"entries":[{"content":"c","priority":"p","status":"s"}],"session_update":"plan"}"#
    );
    let chunk = SessionUpdate::AgentThoughtChunk { content: ContentBlock::text("t") };
    assert_eq!(
        serde_json::to_string(&chunk.to_json()).unwrap(),
        r#"{"content":{"text":"t","type":"text"},"session_update":"agent_thought_chunk"}"#
    );
    let diff = ToolCallContent::Diff { path: "p".to_string(), old_text: "o".to_string(), new_text: "n".to_string() };
    assert_eq!(serde_json::to_string(&diff.to_json()).unwrap(), r#"{"new_text":"n","old_text":"o","path":"p"}"#);
}

#[test]
fn plain_values_are_read_within_their_range() {
    assert_eq!(u64::from_json(&parsed("18446744073709551615")), Some(u64::MAX));
    assert_eq!(u64::from_json(&parsed("-1")), None);
    assert_eq!(i64::from_json(&parsed("-9223372036854775808")), Some(i64::MIN));
    assert_eq!(i64::from_json(&parsed("9223372036854775808")), None);
    assert_eq!(i64::from_json(&parsed("1e3")), None);
    assert_eq!(u32::from_json(&parsed("4294967295")), Some(u32::MAX));
    assert_eq!(u32::from_json(&parsed("4294967296")), None);
    assert_eq!(usize::from_json(&parsed("7")), Some(7));
    assert_eq!(usize::from_json(&parsed("\"7\"")), None);
    assert_eq!(bool::from_json(&parsed("true")), Some(true));
    assert_eq!(bool::from_json(&parsed("0")), None);
    assert_eq!(String::from_json(&parsed("\"s\"")), Some("s".to_string()));
    assert_eq!(String::from_json(&parsed("null")), None);
    assert_eq!(true.to_json(), parsed("true"));
    assert_eq!((-5i64).to_json(), parsed("-5"));
    assert_eq!(u64::MAX.to_json(), parsed("18446744073709551615"));
    assert_eq!(9u32.to_json(), parsed("9"));
    assert_eq!(3usize.to_json(), parsed("3"));
    assert_eq!("t".to_string().to_json(), parsed("\"t\""));
}
