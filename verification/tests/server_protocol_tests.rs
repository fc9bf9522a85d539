use chatroom::consts;
use chatroom::server_protocol::ServerMessage;

#[test]
fn test_ok_message_format_for_client() {
    let msg = ServerMessage::Okay;
    let output = msg.to_text();

    assert_eq!(output, "OK");
}

#[test]
fn test_err_message_format_for_client() {
    let msg = ServerMessage::Error {
        reason: "username taken".to_string(),
    };
    let output = msg.to_text();

    assert!(output.starts_with(consts::SERVER_ERR_PREFIX.trim()));
    assert_eq!(output, "ERR username taken");
}

#[test]
fn test_joined_message_format_for_client() {
    let msg = ServerMessage::UserJoined {
        username: "alice".to_string(),
    };
    let output = msg.to_text();

    let username = output.strip_prefix(consts::SERVER_JOINED_PREFIX);
    assert!(username.is_some(), "output should start with JOINED prefix");
    assert_eq!(username.unwrap_or(""), "alice");
}

#[test]
fn test_left_message_format_for_client() {
    let msg = ServerMessage::UserLeft {
        username: "bob".to_string(),
    };
    let output = msg.to_text();

    let username = output.strip_prefix(consts::SERVER_LEFT_PREFIX);
    assert!(username.is_some(), "output should start with LEFT prefix");
    assert_eq!(username.unwrap_or(""), "bob");
}

#[test]
fn test_broadcast_message_format_for_client() {
    let msg = ServerMessage::BroadcastMessage {
        text: "charlie:Hello everyone!".to_string(),
    };
    let output = msg.to_text();

    let rest = output.strip_prefix(consts::SERVER_BROADCAST_PREFIX);
    assert!(rest.is_some(), "output should start with BROADCAST prefix");
    let rest = rest.unwrap_or("");

    assert!(rest.contains(':'), "broadcast message should contain colon");
    if let Some((from, text)) = rest.split_once(':') {
        assert_eq!(from, "charlie");
        assert_eq!(text, "Hello everyone!");
    }
}

#[test]
fn test_broadcast_empty_message_for_client() {
    let msg = ServerMessage::BroadcastMessage {
        text: "dave:".to_string(),
    };
    let output = msg.to_text();
    let rest = output.strip_prefix(consts::SERVER_BROADCAST_PREFIX);
    assert!(rest.is_some(), "output should start with BROADCAST prefix");
    let rest = rest.unwrap_or("");
    assert!(rest.contains(':'), "broadcast message should contain colon");
    if let Some((from, text)) = rest.split_once(':') {
        assert_eq!(from, "dave");
        assert_eq!(text, "");
    }
}

#[test]
fn test_broadcast_no_colon_fallback_for_client() {
    let msg = ServerMessage::BroadcastMessage {
        text: "system notification".to_string(),
    };
    let output = msg.to_text();

    assert!(output.starts_with(consts::SERVER_BROADCAST_PREFIX));
    assert_eq!(output, "BROADCAST system notification");
}

#[test]
fn test_event_parse_matches_display() {
    let parsed: ServerMessage = "ERR something failed".parse().expect("should parse");
    assert_eq!(
        parsed,
        ServerMessage::Error {
            reason: "something failed".to_string()
        }
    );
    let parsed: ServerMessage = "ok".parse().expect("case-insensitive");
    assert_eq!(parsed, ServerMessage::Okay);
    assert!("BOOM".parse::<ServerMessage>().is_err());
}
