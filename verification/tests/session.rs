use serde_json::Value;
use zed_acp::session::{Message, MessageRole, Session, SessionManager, Timestamp};

fn parsed(text: &str) -> Value {
    serde_json::from_str::<Value>(text).unwrap()
}

fn epoch() -> Timestamp {
    Timestamp { secs: 0, nanos: 0 }
}

fn turn(id: &str, content: &str) -> Message {
    Message::at(id.to_string(), MessageRole::User, content.to_string(), epoch())
}

#[test]
fn created_session_is_empty_and_current() {
    let mut manager = SessionManager::new();
    assert_eq!(manager.current_session(), None);
    let first = manager.create_session(Some("/repo".to_string()));
    assert!(!first.is_empty());
    assert_eq!(first.len(), 36);
    {
        let session = manager.get_session(&first).unwrap();
        assert_eq!(session.id, first);
        assert_eq!(session.cwd.as_deref(), Some("/repo"));
        assert_eq!(session.messages.len(), 0);
        assert_eq!(session.created_at, session.updated_at);
        assert_eq!(session.metadata, parsed("{}"));
        assert_eq!(session.max_history, 100);
    }
    assert_eq!(manager.current_session(), Some(first.clone()));
    let second = manager.create_session(Some("/repo".to_string()));
    assert_ne!(first, second);
    assert_eq!(manager.current_session(), Some(second.clone()));
    assert!(manager.get_session(&first).is_some());
    assert!(manager.get_session(&second).is_some());
    assert_eq!(manager.list_sessions().len(), 2);
}

#[test]
fn history_of_one_hundred_and_one_turns_keeps_the_last_hundred() {
    let mut session = Session::new(None);
    for i in 1..=101 {
        session.add_message(MessageRole::User, format!("message {}", i));
    }
    assert_eq!(session.messages.len(), 100);
    assert_eq!(session.messages[0].content, "message 2");
    assert_eq!(session.messages[99].content, "message 101");
    assert!(session.messages.iter().all(|message| message.content != "message 1"));
    for (i, message) in session.messages.iter().enumerate() {
        assert_eq!(message.content, format!("message {}", i + 2));
    }
}

#[test]
fn history_never_exceeds_its_cap() {
    for cap in [0usize, 1, 2, 5] {
        let mut session = Session::with_max_history(None, cap);
        for i in 0..12 {
            session.add_message(MessageRole::Assistant, format!("{}", i));
            assert!(session.messages.len() <= cap);
            assert_eq!(session.messages.len(), cap.min(i + 1));
            if cap > 0 {
                assert_eq!(session.messages.last().unwrap().content, format!("{}", i));
                let oldest = (i + 1).saturating_sub(cap);
                assert_eq!(session.messages[0].content, format!("{}", oldest));
            }
        }
    }
}

#[test]
fn history_through_the_store_is_capped_as_configured() {
    let mut manager = SessionManager::with_max_history(3);
    let id = manager.create_session(None);
    for i in 0..5 {
        manager.add_message(&id, MessageRole::User, format!("{}", i));
    }
    let session = manager.get_session(&id).unwrap();
    assert_eq!(session.max_history, 3);
    let contents: Vec<&str> = session.messages.iter().map(|message| message.content.as_str()).collect();
    assert_eq!(contents, vec!["2", "3", "4"]);
}

#[test]
fn new_turn_has_role_content_and_identifier() {
    let mut session = Session::new(Some("/w".to_string()));
    session.add_message(MessageRole::Tool, "output".to_string());
    session.add_message(MessageRole::System, "rules".to_string());
    assert_eq!(session.messages.len(), 2);
    assert_eq!(session.messages[0].role, MessageRole::Tool);
    assert_eq!(session.messages[0].content, "output");
    assert_eq!(session.messages[0].id.len(), 36);
    assert_eq!(session.messages[0].metadata, parsed("{}"));
    assert_eq!(session.messages[1].role, MessageRole::System);
    assert_ne!(session.messages[0].id, session.messages[1].id);
    assert_ne!(session.messages[0].id, session.id);
    assert!(session.updated_at.secs >= session.created_at.secs);
    assert!(session.messages[0].timestamp.secs >= session.created_at.secs);
}

#[test]
fn timestamps_come_from_the_clock() {
    let session = Session::new(None);
    assert!(session.created_at.secs > 1_600_000_000);
    assert!(session.created_at.nanos < 2_000_000_000);
}

#[test]
fn pushed_turn_is_kept_as_given() {
    let mut session = Session::at("s".to_string(), None, epoch(), 2);
    session.push_message(turn("m1", "one"), Timestamp { secs: 10, nanos: 1 });
    session.push_message(turn("m2", "two"), Timestamp { secs: 11, nanos: 2 });
    assert_eq!(session.updated_at, Timestamp { secs: 11, nanos: 2 });
    assert_eq!(session.created_at, epoch());
    session.push_message(turn("m3", "three"), Timestamp { secs: 12, nanos: 3 });
    let ids: Vec<&str> = session.messages.iter().map(|message| message.id.as_str()).collect();
    assert_eq!(ids, vec!["m2", "m3"]);
    assert_eq!(session.updated_at, Timestamp { secs: 12, nanos: 3 });
}

#[test]
fn clearing_keeps_the_session_and_drops_its_turns() {
    let mut manager = SessionManager::new();
    let id = manager.create_session(Some("/repo".to_string()));
    manager.add_message(&id, MessageRole::User, "a".to_string());
    manager.add_message(&id, MessageRole::Assistant, "b".to_string());
    assert_eq!(manager.get_session(&id).unwrap().messages.len(), 2);
    manager.clear_history(&id);
    let session = manager.get_session(&id).unwrap();
    assert!(session.messages.is_empty());
    assert_eq!(session.cwd.as_deref(), Some("/repo"));
    assert_eq!(session.id, id);
    assert_eq!(manager.current_session(), Some(id.clone()));
    manager.clear_history("no such session");
    manager.add_message("no such session", MessageRole::User, "x".to_string());
    assert_eq!(manager.list_sessions().len(), 1);
    let mut session = Session::at("s".to_string(), None, epoch(), 5);
    session.push_message(turn("m", "x"), epoch());
    session.clear_history_at(Timestamp { secs: 5, nanos: 0 });
    assert!(session.messages.is_empty());
    assert_eq!(session.updated_at, Timestamp { secs: 5, nanos: 0 });
    assert_eq!(session.created_at, epoch());
}

#[test]
fn deleting_the_current_session_clears_the_pointer() {
    let mut manager = SessionManager::new();
    let first = manager.create_session(None);
    let second = manager.create_session(None);
    assert_eq!(manager.current_session(), Some(second.clone()));
    assert!(manager.delete_session(&second));
    assert_eq!(manager.current_session(), None);
    assert!(manager.get_session(&second).is_none());
    assert!(manager.get_session(&first).is_some());
    assert!(!manager.delete_session(&second));
}

#[test]
fn deleting_another_session_leaves_the_pointer() {
    let mut manager = SessionManager::new();
    let first = manager.create_session(None);
    let second = manager.create_session(None);
    assert!(manager.delete_session(&first));
    assert_eq!(manager.current_session(), Some(second.clone()));
    assert!(manager.get_session(&first).is_none());
    assert_eq!(manager.list_sessions().len(), 1);
    assert!(!manager.delete_session("unknown"));
    assert_eq!(manager.current_session(), Some(second));
}

#[test]
fn pointer_to_a_missing_session_is_cleared_by_deleting_it() {
    let mut manager = SessionManager::new();
    manager.set_current_session("ghost".to_string());
    assert_eq!(manager.current_session(), Some("ghost".to_string()));
    assert!(manager.get_session("ghost").is_none());
    assert!(!manager.delete_session("ghost"));
    assert_eq!(manager.current_session(), None);
}

#[test]
fn current_session_can_be_set() {
    let mut manager = SessionManager::new();
    let first = manager.create_session(None);
    let second = manager.create_session(None);
    manager.set_current_session(first.clone());
    assert_eq!(manager.current_session(), Some(first));
    assert!(manager.get_session(&second).is_some());
}

#[test]
fn sessions_are_listed_in_the_order_of_creation() {
    let mut manager = SessionManager::new();
    assert!(manager.list_sessions().is_empty());
    let ids: Vec<String> = (0..4).map(|i| manager.create_session(Some(format!("/{}", i)))).collect();
    let listed: Vec<String> = manager.list_sessions().iter().map(|session| session.id.clone()).collect();
    assert_eq!(listed, ids);
    manager.delete_session(&ids[1]);
    let listed: Vec<String> = manager.list_sessions().iter().map(|session| session.id.clone()).collect();
    assert_eq!(listed, vec![ids[0].clone(), ids[2].clone(), ids[3].clone()]);
}

#[test]
fn inserted_session_replaces_the_one_under_its_identifier() {
    let mut manager = SessionManager::new();
    let id = manager.insert_session(Session::at("fixed".to_string(), Some("/a".to_string()), epoch(), 10));
    assert_eq!(id, "fixed");
    manager.insert_session(Session::at("other".to_string(), None, epoch(), 10));
    manager.insert_session(Session::at("fixed".to_string(), Some("/b".to_string()), epoch(), 10));
    assert_eq!(manager.list_sessions().len(), 2);
    assert_eq!(manager.get_session("fixed").unwrap().cwd.as_deref(), Some("/b"));
    assert_eq!(manager.list_sessions()[0].id, "fixed");
    assert_eq!(manager.current_session(), Some("fixed".to_string()));
}

#[test]
fn session_can_be_changed_in_place() {
    let mut manager = SessionManager::new();
    let id = manager.create_session(None);
    let other = manager.create_session(None);
    {
        let session = manager.get_session_mut(&id).unwrap();
        session.cwd = Some("/changed".to_string());
        session.add_message(MessageRole::User, "direct".to_string());
    }
    assert!(manager.get_session_mut("missing").is_none());
    assert_eq!(manager.get_session(&id).unwrap().cwd.as_deref(), Some("/changed"));
    assert_eq!(manager.get_session(&id).unwrap().messages.len(), 1);
    assert!(manager.get_session(&other).unwrap().messages.is_empty());
}

#[test]
fn session_moves_to_the_agents_identifier() {
    let mut manager = SessionManager::new();
    let local = manager.create_session(Some("/repo".to_string()));
    manager.add_message(&local, MessageRole::User, "kept".to_string());
    let other = manager.create_session(None);
    manager.set_current_session(local.clone());
    let before = manager.get_session(&local).unwrap().updated_at;
    assert!(manager.rekey_session(&local, "agent-1".to_string()));
    assert!(manager.get_session("agent-1").unwrap().updated_at.secs >= before.secs);
    assert!(manager.get_session(&local).is_none());
    let moved = manager.get_session("agent-1").unwrap();
    assert_eq!(moved.id, "agent-1");
    assert_eq!(moved.messages[0].content, "kept");
    assert_eq!(manager.current_session(), Some("agent-1".to_string()));
    assert!(!manager.rekey_session(&local, "agent-2".to_string()));
    assert!(!manager.rekey_session(&other, "agent-1".to_string()));
    assert!(manager.get_session(&other).is_some());
    assert!(manager.rekey_session(&other, "agent-2".to_string()));
    assert_eq!(manager.current_session(), Some("agent-1".to_string()));
    assert_eq!(manager.list_sessions().len(), 2);
    assert!(!manager.rekey_session("agent-1", "agent-1".to_string()));
}

#[test]
fn snapshot_of_an_empty_session_is_exact() {
    let session = Session::at("s1".to_string(), Some("/repo".to_string()), epoch(), 100);
    let expected = "{\n  \"created_at\": \"1970-01-01T00:00:00Z\",\n  \"cwd\": \"/repo\",\n  \"id\": \"s1\",\n  \"messages\": [],\n  \"metadata\": {},\n  \"updated_at\": \"1970-01-01T00:00:00Z\"\n}";
    assert_eq!(session.export(), expected);
}

#[test]
fn snapshot_holds_the_turns_in_order() {
    let mut session = Session::at("s2".to_string(), None, Timestamp { secs: 1_700_000_000, nanos: 0 }, 100);
    let roles = [MessageRole::User, MessageRole::Assistant, MessageRole::System, MessageRole::Tool];
    for (i, role) in roles.iter().enumerate() {
        let message = Message::at(
            format!("m{}", i),
            *role,
            format!("text {}", i),
            Timestamp { secs: 1_700_000_000 + i as i64, nanos: 123_000_000 },
        );
        session.push_message(message, Timestamp { secs: 1_700_000_100, nanos: 500 });
    }
    let snapshot = parsed(&session.export());
    assert_eq!(snapshot["id"], "s2");
    assert_eq!(snapshot["cwd"], Value::Null);
    assert_eq!(snapshot["created_at"], "2023-11-14T22:13:20Z");
    assert_eq!(snapshot["updated_at"], "2023-11-14T22:15:00.000000500Z");
    assert_eq!(snapshot["metadata"], parsed("{}"));
    let messages = snapshot["messages"].as_array().unwrap();
    assert_eq!(messages.len(), 4);
    let names = ["user", "assistant", "system", "tool"];
    for (i, message) in messages.iter().enumerate() {
        assert_eq!(message["id"], format!("m{}", i));
        assert_eq!(message["role"], names[i]);
        assert_eq!(message["content"], format!("text {}", i));
        assert_eq!(message["metadata"], parsed("{}"));
    }
    assert_eq!(messages[0]["timestamp"], "2023-11-14T22:13:20.123Z");
    assert_eq!(messages[3]["timestamp"], "2023-11-14T22:13:23.123Z");
    assert_eq!(snapshot.as_object().unwrap().len(), 6);
    assert_eq!(session.to_json().unwrap(), snapshot);
}

#[test]
fn snapshot_carries_metadata_that_was_set() {
    let mut session = Session::at("s3".to_string(), None, epoch(), 100);
    session.metadata = parsed(r#"{"title":"Review","tags":["a","b"]}"#);
    let mut message = turn("m", "c");
    message.metadata = parsed(r#"{"tokens":3}"#);
    session.push_message(message.clone(), epoch());
    let snapshot = session.to_json().unwrap();
    assert_eq!(snapshot["metadata"], parsed(r#"{"title":"Review","tags":["a","b"]}"#));
    assert_eq!(snapshot["messages"][0]["metadata"], parsed(r#"{"tokens":3}"#));
    assert_eq!(message.to_json().unwrap(), snapshot["messages"][0]);
    assert_eq!(format!("{:?}", message.clone()), format!("{:?}", message));
}

#[test]
fn snapshot_of_a_time_that_cannot_be_written_is_empty() {
    let beyond = Timestamp { secs: i64::MAX, nanos: 0 };
    let session = Session::at("s4".to_string(), None, beyond, 100);
    assert!(session.to_json().is_none());
    assert_eq!(session.export(), "");
    let mut session = Session::at("s5".to_string(), None, epoch(), 100);
    session.push_message(Message::at("m".to_string(), MessageRole::User, "c".to_string(), Timestamp { secs: 0, nanos: 2_000_000_000 }), epoch());
    assert!(session.to_json().is_none());
    assert_eq!(session.export(), "");
    assert!(session.messages[0].to_json().is_none());
}

#[test]
fn snapshot_text_is_empty_where_writing_failed() {
    let failure = serde_json::from_str::<Value>("]").unwrap_err();
    assert_eq!(Session::snapshot_text(Err(failure)), "");
    assert_eq!(Session::snapshot_text(Ok("{}".to_string())), "{}");
}

#[test]
fn store_exports_the_session_it_holds() {
    let mut manager = SessionManager::new();
    assert_eq!(manager.export_session("none"), None);
    manager.insert_session(Session::at("e1".to_string(), Some("/x".to_string()), epoch(), 100));
    manager.add_message("e1", MessageRole::User, "hello".to_string());
    let text = manager.export_session("e1").unwrap();
    let snapshot = parsed(&text);
    assert_eq!(snapshot["id"], "e1");
    assert_eq!(snapshot["cwd"], "/x");
    assert_eq!(snapshot["messages"][0]["content"], "hello");
    assert_eq!(snapshot["messages"][0]["role"], "user");
    assert!(text.starts_with("{\n  \"created_at\": \"1970-01-01T00:00:00Z\","));
    assert_eq!(text, manager.get_session("e1").unwrap().export());
}

#[test]
fn roles_have_their_names() {
    assert_eq!(MessageRole::User.as_str(), "user");
    assert_eq!(MessageRole::Assistant.as_str(), "assistant");
    assert_eq!(MessageRole::System.as_str(), "system");
    assert_eq!(MessageRole::Tool.as_str(), "tool");
}

#[test]
fn new_cap_keeps_the_newest_turns() {
    let mut session = Session::at("s".to_string(), None, epoch(), 10);
    for i in 0..6 {
        session.push_message(turn(&format!("m{}", i), &format!("{}", i)), Timestamp { secs: i, nanos: 0 });
    }
    session.set_max_history(8);
    assert_eq!(session.messages.len(), 6);
    assert_eq!(session.max_history, 8);
    session.set_max_history(6);
    assert_eq!(session.messages.len(), 6);
    session.set_max_history(2);
    let ids: Vec<&str> = session.messages.iter().map(|message| message.id.as_str()).collect();
    assert_eq!(ids, vec!["m4", "m5"]);
    assert_eq!(session.updated_at, Timestamp { secs: 5, nanos: 0 });
    session.set_max_history(0);
    assert!(session.messages.is_empty());
    assert_eq!(session.max_history, 0);
    session.set_max_history(1);
    session.push_message(turn("m6", "6"), epoch());
    session.push_message(turn("m7", "7"), epoch());
    assert_eq!(session.messages.len(), 1);
    assert_eq!(session.messages[0].id, "m7");
}

#[test]
fn new_cap_of_the_store_reaches_every_session() {
    let mut manager = SessionManager::with_max_history(5);
    let first = manager.create_session(None);
    let second = manager.create_session(Some("/w".to_string()));
    for i in 0..4 {
        manager.add_message(&first, MessageRole::User, format!("a{}", i));
        manager.add_message(&second, MessageRole::Assistant, format!("b{}", i));
    }
    manager.set_max_history(2);
    for (id, prefix) in [(&first, "a"), (&second, "b")] {
        let session = manager.get_session(id).unwrap();
        assert_eq!(session.max_history, 2);
        let contents: Vec<String> = session.messages.iter().map(|message| message.content.clone()).collect();
        assert_eq!(contents, vec![format!("{}2", prefix), format!("{}3", prefix)]);
    }
    assert_eq!(manager.current_session(), Some(second.clone()));
    let listed: Vec<String> = manager.list_sessions().iter().map(|session| session.id.clone()).collect();
    assert_eq!(listed, vec![first.clone(), second.clone()]);
    let third = manager.create_session(None);
    assert_eq!(manager.get_session(&third).unwrap().max_history, 2);
    let mut empty = SessionManager::new();
    empty.set_max_history(7);
    let only = empty.create_session(None);
    assert_eq!(empty.get_session(&only).unwrap().max_history, 7);
}
