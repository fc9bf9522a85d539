//! End-to-end scenarios over the protocol state machine, the registry, the
//! broker and the room, with the socket edges simulated by plain reads of
//! the per-user queues.

use chatroom::acceptor::Admission;
use chatroom::broker::{dispatch_payload, MessageBroker};
use chatroom::connection::{
    joined_line, unauthenticated_line, Joined, JoinedStep, UnauthStep, Unauthenticated,
};
use chatroom::room::{MessageReceiver, Room};
use chatroom::security::MAX_LINE_LENGTH;
use chatroom::tcp_message::{ServerMessage, WireDecode};
use chatroom::user::{UserRegistry, Username};
use std::time::Duration;

/// Drives one connection through `JOIN|<name>` and hands back its joined
/// state; panics on a refusal.
fn join(
    name: &str,
    registry: &mut UserRegistry,
    broker: &MessageBroker,
) -> Joined {
    let conn = Unauthenticated::new("test-peer".to_string());
    let line = format!("JOIN|{name}\n");
    match unauthenticated_line(&line) {
        UnauthStep::JoinRequest(raw) => match conn.try_join(&raw, registry, broker) {
            Ok(joined) => joined,
            Err((_, reason)) => panic!("join refused: {reason}"),
        },
        other_step => panic!("expected a join request, got {:?}", step_name(&other_step)),
    }
}

fn step_name(s: &UnauthStep) -> &'static str {
    match s {
        UnauthStep::JoinRequest(_) => "JoinRequest",
        UnauthStep::MustJoinFirst => "MustJoinFirst",
        UnauthStep::Malformed(_) => "Malformed",
    }
}

/// Runs the dispatcher until the room queue is empty.
fn drain_room(broker: &MessageBroker, registry: &UserRegistry) {
    while let Ok(payload) = MessageReceiver::recv_timeout(broker.room().receiver(), Duration::from_millis(10)) {
        dispatch_payload(registry, &payload);
    }
}

#[test]
fn scenario_join_and_echo() {
    let mut registry = UserRegistry::new();
    let broker = MessageBroker::new(Room::new(100));

    let bob = join("bob", &mut registry, &broker);
    drain_room(&broker, &registry);
    while bob.next_broadcast().is_some() {}

    // Client A connects and joins as alice; the server would reply OK.
    let alice = join("alice", &mut registry, &broker);
    drain_room(&broker, &registry);

    // All other joined clients see JOINED|alice (and alice sees her own,
    // since the dispatcher excludes no one).
    assert_eq!(bob.next_broadcast().unwrap(), "JOINED|alice");
    assert_eq!(alice.next_broadcast().unwrap(), "JOINED|alice");

    // alice sends a message; every joined client receives the broadcast
    // (alice too: clients filter their own echo).
    match joined_line("SEND|hello\n") {
        JoinedStep::SendMessage(text) => {
            alice.publish_message(text, &broker).unwrap();
        }
        _ => panic!("expected a send"),
    }
    drain_room(&broker, &registry);
    assert_eq!(bob.next_broadcast().unwrap(), "BROADCAST|alice|hello");
    assert_eq!(alice.next_broadcast().unwrap(), "BROADCAST|alice|hello");
}

#[test]
fn scenario_duplicate_name() {
    let mut registry = UserRegistry::new();
    let broker = MessageBroker::new(Room::new(100));

    let _alice = join("alice", &mut registry, &broker);

    // Client B asks for ALICE: same normalized key, so the join is refused
    // and B stays unauthenticated and may retry.
    let b = Unauthenticated::new("b-peer".to_string());
    let raw = match unauthenticated_line("JOIN|ALICE\n") {
        UnauthStep::JoinRequest(raw) => raw,
        _ => panic!("expected a join request"),
    };
    let (b, reason) = match b.try_join(&raw, &mut registry, &broker) {
        Err(refused) => refused,
        Ok(_) => panic!("expected the duplicate join to be refused"),
    };
    assert_eq!(reason, "username 'ALICE' is already taken");

    // The retry with a fresh name succeeds.
    assert!(b.try_join("beatrice", &mut registry, &broker).is_ok());
}

#[test]
fn scenario_pipe_in_message() {
    let mut registry = UserRegistry::new();
    let broker = MessageBroker::new(Room::new(100));

    let alex = join("alex", &mut registry, &broker);
    let recipient = join("rita", &mut registry, &broker);
    drain_room(&broker, &registry);
    while recipient.next_broadcast().is_some() {}

    match joined_line("SEND|a|b|c\n") {
        JoinedStep::SendMessage(text) => {
            assert_eq!(text, "a|b|c");
            alex.publish_message(text, &broker).unwrap();
        }
        _ => panic!("expected a send"),
    }
    drain_room(&broker, &registry);
    let line = recipient.next_broadcast().unwrap();
    assert_eq!(line, "BROADCAST|alex|a|b|c");

    // Decoders recover username "alex" and message "a|b|c".
    let decoded = ServerMessage::decode(line.as_bytes()).unwrap();
    assert_eq!(
        decoded,
        ServerMessage::Broadcast {
            username: "alex".to_string(),
            message: "a|b|c".to_string()
        }
    );
}

#[test]
fn scenario_oversized_line() {
    let mut registry = UserRegistry::new();
    let broker = MessageBroker::new(Room::new(100));

    let bob = join("bob", &mut registry, &broker);
    let recipient = join("rex", &mut registry, &broker);
    drain_room(&broker, &registry);
    while recipient.next_broadcast().is_some() {}

    // A 5000-byte line is over the limit: the server replies
    // ERR|message too long and bob stays joined.
    let oversized = format!("SEND|{}\n", "x".repeat(4994));
    assert!(oversized.len() > MAX_LINE_LENGTH);

    // A subsequent SEND|ok is broadcast normally.
    match joined_line("SEND|ok\n") {
        JoinedStep::SendMessage(text) => bob.publish_message(text, &broker).unwrap(),
        _ => panic!("expected a send"),
    }
    drain_room(&broker, &registry);
    assert_eq!(recipient.next_broadcast().unwrap(), "BROADCAST|bob|ok");
}

#[test]
fn scenario_rate_limit_burst() {
    // carl's first 20 sends (the burst) pass the limiter immediately; later
    // ones must wait for the 10-per-second refill, and none produce an error.
    let limiter = chatroom::rate_limiter::RateLimiter::with_config(10, 20);
    let mut immediate = 0;
    for _ in 0..30 {
        if limiter.try_acquire() {
            immediate += 1;
        }
    }
    assert_eq!(immediate, 20);
}

#[test]
fn scenario_leave_and_shutdown() {
    let mut registry = UserRegistry::new();
    let mut broker = MessageBroker::new(Room::new(100));

    let ana = join("ana", &mut registry, &broker);
    let ben = join("ben", &mut registry, &broker);
    drain_room(&broker, &registry);
    while ana.next_broadcast().is_some() {}
    while ben.next_broadcast().is_some() {}

    // On shutdown each connection tears down as on LEAVE: unregister, then
    // publish LEFT. The other user receives the pending LEFT line.
    assert!(matches!(joined_line("LEAVE\n"), JoinedStep::Leave));
    ana.cleanup(&mut registry, &broker);
    drain_room(&broker, &registry);
    assert_eq!(ben.next_broadcast().unwrap(), "LEFT|ana");

    ben.cleanup(&mut registry, &broker);
    drain_room(&broker, &registry);

    // After broker shutdown nothing more can enter the room.
    broker.shutdown();
    let refused = broker.forward_to_room("late".to_string());
    assert!(refused.is_err());
}

#[test]
fn test_joined_line_steps() {
    assert!(matches!(joined_line("JOIN|again\n"), JoinedStep::AlreadyJoined));
    assert!(matches!(joined_line("LEAVE\n"), JoinedStep::Leave));
    match joined_line("nonsense\n") {
        JoinedStep::Malformed(reason) => assert_eq!(reason, "unknown command: nonsense"),
        _ => panic!("expected a malformed step"),
    }
}

#[test]
fn test_unauthenticated_line_steps() {
    assert!(matches!(
        unauthenticated_line("SEND|hi\n"),
        UnauthStep::MustJoinFirst
    ));
    assert!(matches!(unauthenticated_line("LEAVE\n"), UnauthStep::MustJoinFirst));
    match unauthenticated_line("\n") {
        UnauthStep::Malformed(reason) => assert_eq!(reason, "empty message"),
        _ => panic!("expected a malformed step"),
    }
}

#[test]
fn test_join_rejections_name_their_cause() {
    let mut registry = UserRegistry::new();
    let broker = MessageBroker::new(Room::new(100));

    fn refusal(
        r: Result<Joined, (Unauthenticated, String)>,
    ) -> (Unauthenticated, String) {
        match r {
            Err(refused) => refused,
            Ok(_) => panic!("expected the join to be refused"),
        }
    }

    let conn = Unauthenticated::new("p".to_string());
    let (conn, reason) = refusal(conn.try_join("   ", &mut registry, &broker));
    assert_eq!(reason, "username cannot be empty");

    let (conn, reason) = refusal(conn.try_join(&"a".repeat(33), &mut registry, &broker));
    assert_eq!(reason, "username too long (max 32 chars)");

    let (_conn, reason) = refusal(conn.try_join("not valid!", &mut registry, &broker));
    assert_eq!(reason, "username must be alphanumeric");
}

#[test]
fn test_admission_budget_is_bounded() {
    let mut admission = Admission::new(2);
    assert!(admission.has_free_permit());
    assert!(admission.try_acquire());
    assert!(admission.try_acquire());
    // At capacity: the third connection is refused until a permit returns.
    assert!(!admission.try_acquire());
    assert!(!admission.has_free_permit());
    admission.release();
    assert!(admission.try_acquire());
    // A stray release never lends more permits than the capacity.
    admission.release();
    admission.release();
    admission.release();
    assert!(admission.try_acquire());
    assert!(admission.try_acquire());
    assert!(!admission.try_acquire());
}

#[test]
fn test_config_checks() {
    assert!(chatroom::config::is_production("production"));
    assert!(!chatroom::config::is_production("development"));
    assert!(chatroom::config::log_level("info").is_ok());
    assert!(chatroom::config::log_level("WARN").is_ok());
    let err = chatroom::config::log_level("loud").unwrap_err();
    assert_eq!(err.level, "loud");
    assert_eq!(
        err.message(),
        "Invalid log level: 'loud'. Must be one of: trace, debug, info, warn, error, off"
    );
}
