//! The per-connection protocol state machine: what each complete line means
//! in each state, and the register/publish/teardown steps around the
//! registry and the room. The socket loop around it performs the reads,
//! writes and waits and feeds the lines in.

use crate::broker::MessageBroker;
use crate::rate_limiter::RateLimiter;
use crate::room::{self, channel_bounded, channel_try_recv, OneToMany};
use crate::strings::{norm_spec, trim_spec, validate_spec, ValidationResult};
use crate::tcp_message::{
    client_decode_spec, client_parse_error_text, server_encode_chars, ClientMessage,
    ClientMessageView, ServerMessage, ServerMessageView, WireDecode,
};
use crate::user::{User, UserRegistry, Username};
use vstd::prelude::*;
use vstd::string::StringSliceAdditionalSpecFns;

verus! {

/// Capacity of one user's outbound queue.
pub const USER_CHANNEL_BUFFER_SIZE: usize = 256;

/// Relies on `std::io::Error`: carried through, never inspected here.
#[verifier::external_type_specification]
#[verifier::external_body]
pub struct ExIoError(std::io::Error);

/// Why a connection ended.
#[derive(Debug)]
pub enum ConnectionError {
    Io(std::io::Error),
    Timeout,
    MessageTooLong,
}

/// A connection that has not joined yet: it owns both ends of its future
/// outbound queue.
pub struct Unauthenticated {
    peer: String,
    tx: crossbeam::channel::Sender<OneToMany>,
    rx: crossbeam::channel::Receiver<OneToMany>,
}

/// A joined connection: the registered user, the receive end of its outbound
/// queue, and its rate limiter.
pub struct Joined {
    user: User,
    peer: String,
    rx: crossbeam::channel::Receiver<OneToMany>,
    rate_limiter: RateLimiter,
}

/// What an unauthenticated connection does with one complete line.
pub enum UnauthStep {
    /// A well-formed `JOIN`: try to register this name.
    JoinRequest(String),
    /// A recognized command other than `JOIN`.
    MustJoinFirst,
    /// A line the decoder rejected, with the reason to send back.
    Malformed(String),
}

/// Reads one line in the unauthenticated state. Only `JOIN` moves the
/// connection forward; other commands are told to join first; decode errors
/// carry their reason back.
pub fn unauthenticated_line(line: &str) -> (r: UnauthStep)
    ensures
        match client_decode_spec(line.spec_bytes()) {
            Ok(m) => match m {
                ClientMessageView::Join { username } => r matches UnauthStep::JoinRequest(u)
                    && u@ == username,
                _ => r is MustJoinFirst,
            },
            Err(e) => r matches UnauthStep::Malformed(reason) && reason@ == client_parse_error_text(
                e,
            ),
        },
{
    match ClientMessage::decode(line.as_bytes()) {
        Ok(ClientMessage::Join { username }) => UnauthStep::JoinRequest(username),
        Ok(_) => UnauthStep::MustJoinFirst,
        Err(e) => UnauthStep::Malformed(e.message()),
    }
}

/// What a joined connection does with one complete line.
pub enum JoinedStep {
    /// A second `JOIN`: refused.
    AlreadyJoined,
    /// A `SEND`: await the rate limiter, then publish this text.
    SendMessage(String),
    /// A `LEAVE`: tear the connection down.
    Leave,
    /// A line the decoder rejected, with the reason to send back.
    Malformed(String),
}

/// Reads one line in the joined state.
pub fn joined_line(line: &str) -> (r: JoinedStep)
    ensures
        match client_decode_spec(line.spec_bytes()) {
            Ok(m) => match m {
                ClientMessageView::Join { username } => r is AlreadyJoined,
                ClientMessageView::Send { message } => r matches JoinedStep::SendMessage(s) && s@
                    == message,
                ClientMessageView::Leave => r is Leave,
            },
            Err(e) => r matches JoinedStep::Malformed(reason) && reason@ == client_parse_error_text(
                e,
            ),
        },
{
    match ClientMessage::decode(line.as_bytes()) {
        Ok(ClientMessage::Join { .. }) => JoinedStep::AlreadyJoined,
        Ok(ClientMessage::Send { message }) => JoinedStep::SendMessage(message),
        Ok(ClientMessage::Leave) => JoinedStep::Leave,
        Err(e) => JoinedStep::Malformed(e.message()),
    }
}

/// The reason a join of `raw` is refused against this registry: the
/// validation error, or the taken name.
pub open spec fn join_reject_text(raw: Seq<char>, reg: UserRegistry) -> Seq<char> {
    if validate_spec(raw) == ValidationResult::Empty {
        "username cannot be empty"@
    } else if validate_spec(raw) == ValidationResult::TooLong {
        "username too long (max 32 chars)"@
    } else if validate_spec(raw) == ValidationResult::InvalidChars {
        "username must be alphanumeric"@
    } else {
        "username '"@ + trim_spec(raw) + "' is already taken"@
    }
}

impl Unauthenticated {
    /// The peer, for diagnostics.
    pub closed spec fn peer_name(&self) -> Seq<char> {
        self.peer@
    }

    /// A fresh connection with its own bounded outbound queue.
    pub fn new(peer: String) -> (r: Self)
        ensures
            r.peer_name() == peer@,
    {
        let (tx, rx) = channel_bounded(USER_CHANNEL_BUFFER_SIZE);
        Unauthenticated { peer, tx, rx }
    }

    /// Validates the candidate name and claims it in the registry. On
    /// success the `JOINED` event is published to the room and the
    /// connection moves to `Joined`; on failure the connection stays
    /// unauthenticated and the reason names exactly what went wrong.
    pub fn try_join(
        self,
        raw_username: &str,
        registry: &mut UserRegistry,
        broker: &MessageBroker,
    ) -> (r: Result<Joined, (Unauthenticated, String)>)
        requires
            old(registry).wf(),
        ensures
            final(registry).wf(),
            r is Ok <==> (validate_spec(raw_username@) == ValidationResult::Valid
                && old(registry).can_register(trim_spec(raw_username@))),
            match r {
                Ok(j) => {
                    &&& j.user_name() == trim_spec(raw_username@)
                    &&& final(registry).entries() == old(registry).entries().push(
                        (norm_spec(trim_spec(raw_username@)), trim_spec(raw_username@)),
                    )
                },
                Err((st, reason)) => {
                    &&& *final(registry) == *old(registry)
                    &&& reason@ == join_reject_text(raw_username@, *old(registry))
                },
            },
    {
        let username = match Username::new(raw_username) {
            Ok(u) => u,
            Err(e) => {
                let reason = e.message();
                return Err((self, reason));
            },
        };
        match registry.register(&username, self.tx.clone()) {
            Ok(registered_user) => {
                let join_msg = ServerMessage::UserJoined {
                    username: registered_user.get_username().text(),
                };
                let _ = broker.forward_to_room(join_msg.to_wire_string());
                Ok(
                    Joined {
                        user: registered_user,
                        peer: self.peer,
                        rx: self.rx,
                        rate_limiter: RateLimiter::new(),
                    },
                )
            },
            Err(e) => {
                let reason = e.message();
                Err((self, reason))
            },
        }
    }
}

impl Joined {
    /// The name this connection joined under.
    pub closed spec fn user_name(&self) -> Seq<char> {
        self.user.name()
    }

    /// The peer, for diagnostics.
    pub closed spec fn peer_name(&self) -> Seq<char> {
        self.peer@
    }

    /// The joined username.
    pub fn username(&self) -> (r: Username)
        ensures
            r@ == self.user_name(),
    {
        self.user.get_username()
    }

    /// This connection's rate limiter; `SEND` waits on it before publishing.
    pub fn limiter(&self) -> &RateLimiter {
        &self.rate_limiter
    }

    /// The next broadcast waiting on this connection's outbound queue, if
    /// one is ready; the writer drains these to the socket.
    pub fn next_broadcast(&self) -> Option<OneToMany> {
        channel_try_recv(&self.rx)
    }

    /// Publishes this user's message to the room as an encoded `BROADCAST`
    /// event; a failure hands the exact encoded line back, and the
    /// connection stays joined.
    pub fn publish_message(&self, message: String, broker: &MessageBroker) -> (r: Result<
        (),
        room::Error,
    >)
        ensures
            r is Ok ==> broker.is_open(),
            !broker.is_open() ==> (r matches Err(e) && e matches room::Error::Closed(m) && m@
                == server_encode_chars(
                ServerMessageView::Broadcast { username: self.user_name(), message: message@ },
            )),
            r matches Err(e) ==> ((e is Timeout || e is Closed) && (e matches room::Error::Timeout(
                m,
            ) ==> m@ == server_encode_chars(
                ServerMessageView::Broadcast { username: self.user_name(), message: message@ },
            )) && (e matches room::Error::Closed(m) ==> m@ == server_encode_chars(
                ServerMessageView::Broadcast { username: self.user_name(), message: message@ },
            ))),
    {
        let event = ServerMessage::Broadcast { username: self.user.get_username().text(), message };
        broker.forward_to_room(event.to_wire_string())
    }

    /// Tears the connection down: removes the user from the registry, and
    /// publishes the `LEFT` event only when this call was the one that
    /// removed it, so nothing more is delivered to the leaver.
    pub fn cleanup(self, registry: &mut UserRegistry, broker: &MessageBroker)
        requires
            old(registry).wf(),
        ensures
            final(registry).wf(),
            !final(registry).contains_norm(norm_spec(self.user_name())),
            old(registry).contains_norm(norm_spec(self.user_name()))
                ==> final(registry).entries().len() == old(registry).entries().len() - 1,
            !old(registry).contains_norm(norm_spec(self.user_name()))
                ==> *final(registry) == *old(registry),
    {
        let username = self.user.get_username();
        let removed = match registry.unregister(&self.user) {
            Ok(b) => b,
            Err(_) => false,
        };
        if removed {
            let leave_msg = ServerMessage::UserLeft { username: username.text() };
            let _ = broker.forward_to_room(leave_msg.to_wire_string());
        }
    }
}

} // verus!
