use chatroom::room::{Error, MessageQueue, MessageReceiver, Room};
use std::time::Duration;

#[test]
fn test_room_new_enforces_minimum_buffer() {
    let room = Room::new(0);
    // Should be able to send at least one message (buffer is 1, not 0)
    let result = room.send_timeout("test".to_string(), Duration::from_millis(100));
    assert!(result.is_ok());
}

#[test]
fn test_room_new_with_valid_buffer() {
    let room = Room::new(5);
    // Should be able to send 5 messages without blocking
    for i in 0..5 {
        let result = room.send_timeout(format!("msg{i}"), Duration::from_millis(100));
        assert!(result.is_ok());
    }
}

#[test]
fn test_room_send_and_receive() {
    let room = Room::new(10);
    let msg = "hello".to_string();
    room.send_timeout(msg.clone(), Duration::from_millis(100)).unwrap();

    let received = MessageReceiver::recv_timeout(room.receiver(), Duration::from_millis(100)).unwrap();
    assert_eq!(received, msg);
}

#[test]
fn test_error_display() {
    let busy = Error::Busy("msg".to_string());
    assert!(busy.message().contains("busy"));

    let closed = Error::Closed("msg".to_string());
    assert!(closed.message().contains("closed"));

    let full = Error::Full("msg".to_string());
    assert!(full.message().contains("full"));

    let timeout = Error::Timeout("msg".to_string());
    assert!(timeout.message().contains("timed out"));
}

#[test]
fn test_room_full_send_times_out() {
    let room = Room::new(1);
    room.send_timeout("one".to_string(), Duration::from_millis(20)).unwrap();
    let result = room.send_timeout("two".to_string(), Duration::from_millis(20));
    assert!(matches!(result, Err(Error::Timeout(m)) if m == "two"));
}

#[test]
fn test_room_close_rejects_sends() {
    let mut room = Room::new(4);
    room.close();
    let result = room.send_timeout("late".to_string(), Duration::from_millis(20));
    assert!(matches!(result, Err(Error::Closed(m)) if m == "late"));
    // The queue trait sees the same behavior.
    let result = MessageQueue::send_timeout(&room, "again".to_string(), Duration::from_millis(20));
    assert!(matches!(result, Err(Error::Closed(m)) if m == "again"));
}

#[test]
fn test_room_recv_timeout_on_empty() {
    let room = Room::new(2);
    let got = MessageReceiver::recv_timeout(room.receiver(), Duration::from_millis(10));
    assert_eq!(got, Err(chatroom::room::RecvError::Timeout));
}
