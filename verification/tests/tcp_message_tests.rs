use chatroom::tcp_message::{ClientMessage, ServerMessage, WireDecode, WireEncode};
use stringzilla::sz;

// Server message tests
#[test]
fn test_server_ok_encode() {
    let msg = ServerMessage::Okay;
    assert_eq!(msg.encode(), b"OK");
}

#[test]
fn test_server_ok_decode() {
    let msg = ServerMessage::decode(b"OK").expect("should decode");
    assert_eq!(msg, ServerMessage::Okay);
}

#[test]
fn test_server_error_encode() {
    let msg = ServerMessage::Error {
        reason: "username taken".to_string(),
    };
    assert_eq!(msg.encode(), b"ERR|username taken");
}

#[test]
fn test_server_error_decode() {
    let msg = ServerMessage::decode(b"ERR|username taken").expect("should decode");
    assert_eq!(
        msg,
        ServerMessage::Error {
            reason: "username taken".to_string()
        }
    );
}

#[test]
fn test_server_user_joined_encode() {
    let msg = ServerMessage::UserJoined {
        username: "alice".to_string(),
    };
    assert_eq!(msg.encode(), b"JOINED|alice");
}

#[test]
fn test_server_user_joined_decode() {
    let msg = ServerMessage::decode(b"JOINED|alice").expect("should decode");
    assert_eq!(
        msg,
        ServerMessage::UserJoined {
            username: "alice".to_string()
        }
    );
}

#[test]
fn test_server_user_left_encode() {
    let msg = ServerMessage::UserLeft {
        username: "bob".to_string(),
    };
    assert_eq!(msg.encode(), b"LEFT|bob");
}

#[test]
fn test_server_user_left_decode() {
    let msg = ServerMessage::decode(b"LEFT|bob").expect("should decode");
    assert_eq!(
        msg,
        ServerMessage::UserLeft {
            username: "bob".to_string()
        }
    );
}

#[test]
fn test_server_broadcast_encode() {
    let msg = ServerMessage::Broadcast {
        username: "alex".to_string(),
        message: "hello world".to_string(),
    };
    assert_eq!(msg.encode(), b"BROADCAST|alex|hello world");
}

#[test]
fn test_server_broadcast_decode() {
    let msg = ServerMessage::decode(b"BROADCAST|alex|hello world").expect("should decode");
    assert_eq!(
        msg,
        ServerMessage::Broadcast {
            username: "alex".to_string(),
            message: "hello world".to_string()
        }
    );
}

#[test]
fn test_server_broadcast_with_pipes_in_message() {
    // Pipes in message content should be preserved (everything after second | is message)
    let msg = ServerMessage::decode(b"BROADCAST|alex|hello|world|test").expect("should decode");
    assert_eq!(
        msg,
        ServerMessage::Broadcast {
            username: "alex".to_string(),
            message: "hello|world|test".to_string()
        }
    );
}

#[test]
fn test_server_decode_case_insensitive() {
    let msg = ServerMessage::decode(b"joined|alice").expect("should decode");
    assert_eq!(
        msg,
        ServerMessage::UserJoined {
            username: "alice".to_string()
        }
    );
}

#[test]
fn test_server_decode_empty() {
    let result = ServerMessage::decode(b"");
    assert!(result.is_err());
}

#[test]
fn test_server_decode_unknown() {
    let result = ServerMessage::decode(b"UNKNOWN|test");
    assert!(result.is_err());
}

// Client message tests
#[test]
fn test_client_join_encode() {
    let msg = ClientMessage::Join {
        username: "alice".to_string(),
    };
    assert_eq!(msg.encode(), b"JOIN|alice");
}

#[test]
fn test_client_join_decode() {
    let msg = ClientMessage::decode(b"JOIN|alice").expect("should decode");
    assert_eq!(
        msg,
        ClientMessage::Join {
            username: "alice".to_string()
        }
    );
}

#[test]
fn test_client_send_encode() {
    let msg = ClientMessage::Send {
        message: "hello world".to_string(),
    };
    assert_eq!(msg.encode(), b"SEND|hello world");
}

#[test]
fn test_client_send_decode() {
    let msg = ClientMessage::decode(b"SEND|hello world").expect("should decode");
    assert_eq!(
        msg,
        ClientMessage::Send {
            message: "hello world".to_string()
        }
    );
}

#[test]
fn test_client_leave_encode() {
    let msg = ClientMessage::Leave;
    assert_eq!(msg.encode(), b"LEAVE");
}

#[test]
fn test_client_leave_decode() {
    let msg = ClientMessage::decode(b"LEAVE").expect("should decode");
    assert_eq!(msg, ClientMessage::Leave);
}

#[test]
fn test_client_decode_case_insensitive() {
    let msg = ClientMessage::decode(b"join|alice").expect("should decode");
    assert_eq!(
        msg,
        ClientMessage::Join {
            username: "alice".to_string()
        }
    );
}

#[test]
fn test_client_decode_whitespace() {
    let msg = ClientMessage::decode(b"  JOIN|alice  \n").expect("should decode");
    assert_eq!(
        msg,
        ClientMessage::Join {
            username: "alice".to_string()
        }
    );
}

#[test]
fn test_roundtrip_server_broadcast() {
    let original = ServerMessage::Broadcast {
        username: "test".to_string(),
        message: "hello".to_string(),
    };
    let encoded = original.encode();
    let decoded = ServerMessage::decode(&encoded).expect("should roundtrip");
    assert_eq!(original, decoded);
}

#[test]
fn test_roundtrip_client_send() {
    let original = ClientMessage::Send {
        message: "test message".to_string(),
    };
    let encoded = original.encode();
    let decoded = ClientMessage::decode(&encoded).expect("should roundtrip");
    assert_eq!(original, decoded);
}

#[test]
fn test_semicolon_in_message() {
    let msg = ClientMessage::Send {
        message: "ola;".to_string(),
    };
    let encoded = msg.encode();
    println!("Encoded: {:?}", String::from_utf8_lossy(&encoded));
    assert_eq!(&encoded, b"SEND|ola;");

    let decoded = ClientMessage::decode(&encoded).expect("should decode");
    assert_eq!(decoded, msg);
}

#[test]
fn test_sz_find_with_semicolon() {
    let input = "SEND|ola;";
    let idx = sz::find(input, "|");
    println!("sz::find result for 'SEND|ola;': {idx:?}");
    assert_eq!(idx, Some(4));

    let rest = input.get(5..);
    println!("rest after pipe: {rest:?}");
    assert_eq!(rest, Some("ola;"));
}

#[test]
fn test_decode_with_semicolon_full() {
    let input = b"SEND|ola;";
    let result = ClientMessage::decode(input);
    println!("Decode result: {result:?}");
    assert!(result.is_ok());
}

#[test]
fn test_decode_invalid_utf8_is_rejected() {
    let result = ServerMessage::decode(b"ERR|\xff\xfe");
    assert!(matches!(
        result,
        Err(chatroom::tcp_message::ServerParseError::InvalidUtf8)
    ));
    let result = ClientMessage::decode(b"\xff");
    assert!(matches!(
        result,
        Err(chatroom::tcp_message::ClientParseError::InvalidUtf8)
    ));
}

#[test]
fn test_decode_missing_fields() {
    assert!(matches!(
        ClientMessage::decode(b"JOIN"),
        Err(chatroom::tcp_message::ClientParseError::MissingField(_))
    ));
    assert!(matches!(
        ClientMessage::decode(b"JOIN|"),
        Err(chatroom::tcp_message::ClientParseError::MissingField(_))
    ));
    assert!(matches!(
        ClientMessage::decode(b"SEND|"),
        Err(chatroom::tcp_message::ClientParseError::MissingField(_))
    ));
    assert!(matches!(
        ServerMessage::decode(b"ERR"),
        Err(chatroom::tcp_message::ServerParseError::MissingField(_))
    ));
}

#[test]
fn test_parse_error_messages() {
    let err = ClientMessage::decode(b"").unwrap_err();
    assert_eq!(err.message(), "empty message");
    let err = ClientMessage::decode(b"FLY|now").unwrap_err();
    assert_eq!(err.message(), "unknown command: FLY");
    let err = ServerMessage::decode(b"NOPE").unwrap_err();
    assert_eq!(err.message(), "unknown event type: NOPE");
}
