//! The broker: the one ingress into the room queue, and the dispatcher step
//! that drains it into the registry's broadcaster.

use crate::room::{self, OneToMany, Room};
use crate::user::UserRegistry;
use core::time::Duration;
use vstd::prelude::*;

verus! {

/// How long a producer waits on a full room queue, in milliseconds.
pub const ROOM_SEND_TIMEOUT_MS: u64 = 100;

/// How long the dispatcher waits for the next payload, in milliseconds.
pub const ROOM_RECV_TIMEOUT_MS: u64 = 100;

/// The broker owns the room and is the only way messages enter it; the
/// dispatcher task drains it with `dispatch_payload` until shutdown.
pub struct MessageBroker {
    room: Room,
}

impl MessageBroker {
    /// Whether the room still accepts messages.
    pub closed spec fn is_open(&self) -> bool {
        self.room.is_open()
    }

    pub fn new(room: Room) -> (r: Self)
        ensures
            r.is_open() == room.is_open(),
    {
        MessageBroker { room }
    }

    /// The room, for wiring the dispatcher's receiver.
    pub fn room(&self) -> (r: &Room)
        ensures
            r.is_open() == self.is_open(),
    {
        &self.room
    }

    /// Puts one encoded event on the room queue, waiting at most the
    /// standard send timeout; a closed room hands the payload back.
    pub fn forward_to_room(&self, msg: OneToMany) -> (r: Result<(), room::Error>)
        ensures
            r is Ok ==> self.is_open(),
            !self.is_open() ==> (r matches Err(e) && e matches room::Error::Closed(m) && m@
                == msg@),
            r matches Err(e) ==> ((e is Timeout || e is Closed) && (e matches room::Error::Timeout(
                m,
            ) ==> m@ == msg@) && (e matches room::Error::Closed(m) ==> m@ == msg@)),
    {
        self.room.send_timeout(msg, Duration::from_millis(ROOM_SEND_TIMEOUT_MS))
    }

    /// Logically closes the room: every later send returns `Closed`, and the
    /// dispatcher drains what is left and exits.
    pub fn shutdown(&mut self)
        ensures
            !final(self).is_open(),
    {
        self.room.close();
    }
}

/// One dispatcher tick on a payload taken off the room queue: fan it out to
/// every registered user, excluding no one (clients suppress their own echo).
/// The count of deliveries never exceeds the number of registered users.
pub fn dispatch_payload(registry: &UserRegistry, payload: &OneToMany) -> (r: usize)
    ensures
        r <= registry.user_count(),
{
    match registry.broadcast(payload, None) {
        Ok(sent) => sent,
        Err(_) => 0,
    }
}

} // verus!
