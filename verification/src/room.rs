//! The room queue: a bounded multi-producer FIFO of encoded server events
//! with a single consumer (the dispatcher), plus the channel endpoints the
//! per-user outbound queues are built from.

use core::time::Duration;
use vstd::prelude::*;

verus! {

/// A broadcast payload: one encoded server event, delivered to many readers.
pub type OneToMany = String;

/// Relies on `crossbeam_channel::Sender` (re-exported by `crossbeam`): the
/// producer half of a bounded FIFO channel.
#[verifier::external_type_specification]
#[verifier::external_body]
#[verifier::reject_recursive_types(T)]
pub struct ExSender<T>(crossbeam::channel::Sender<T>);

/// Relies on `crossbeam_channel::Receiver`: the consumer half.
#[verifier::external_type_specification]
#[verifier::external_body]
#[verifier::reject_recursive_types(T)]
pub struct ExReceiver<T>(crossbeam::channel::Receiver<T>);

/// Relies on `uuid::Uuid`: an opaque room identifier.
#[verifier::external_type_specification]
#[verifier::external_body]
pub struct ExUuid(uuid::Uuid);

/// Relies on `jiff::Timestamp`: an opaque creation time.
#[verifier::external_type_specification]
#[verifier::external_body]
pub struct ExTimestamp(jiff::Timestamp);

/// Relies on `crossbeam_channel::Sender::clone`: another handle to the same
/// channel.
pub assume_specification<T>[ <crossbeam::channel::Sender<T> as Clone>::clone ](
    tx: &crossbeam::channel::Sender<T>,
) -> crossbeam::channel::Sender<T>;

/// Relies on `core::time::Duration::from_millis`.
pub assume_specification[ Duration::from_millis ](ms: u64) -> Duration;

/// Why a payload could not be put on the room queue.
#[derive(Debug)]
pub enum Error {
    Busy(String),
    Closed(String),
    Full(String),
    Timeout(String),
    Poisoned(String),
}

/// What `message` says for each error, mirroring the failed payload.
pub open spec fn room_error_text(e: &Error) -> Seq<char> {
    match e {
        Error::Busy(m) => "room busy, message not sent: "@ + m@,
        Error::Closed(m) => "room closed, message not sent: "@ + m@,
        Error::Full(m) => "room buffer full, message not sent: "@ + m@,
        Error::Timeout(m) => "room send timed out, message not sent: "@ + m@,
        Error::Poisoned(m) => "room lock poisoned, message not sent: "@ + m@,
    }
}

impl Error {
    /// A reason line for the client, naming the failure and the payload.
    pub fn message(&self) -> (r: String)
        ensures
            r@ == room_error_text(self),
    {
        match self {
            Error::Busy(m) => String::from_str("room busy, message not sent: ").concat(m.as_str()),
            Error::Closed(m) => String::from_str("room closed, message not sent: ").concat(
                m.as_str(),
            ),
            Error::Full(m) => String::from_str("room buffer full, message not sent: ").concat(
                m.as_str(),
            ),
            Error::Timeout(m) => String::from_str("room send timed out, message not sent: ").concat(
                m.as_str(),
            ),
            Error::Poisoned(m) => String::from_str("room lock poisoned, message not sent: ").concat(
                m.as_str(),
            ),
        }
    }
}

/// Why nothing came off the room queue.
#[derive(Debug, Clone, Copy, PartialEq, Eq, Structural)]
pub enum RecvError {
    Timeout,
    Disconnected,
}

/// Relies on `crossbeam_channel::bounded`: a FIFO channel holding at most
/// `cap` messages; sends block (up to their timeout) when it is full.
#[verifier::external_body]
pub(crate) fn channel_bounded(cap: usize) -> (r: (
    crossbeam::channel::Sender<OneToMany>,
    crossbeam::channel::Receiver<OneToMany>,
)) {
    crossbeam::channel::bounded(cap)
}

/// Relies on `crossbeam_channel::Sender::send_timeout`: delivers the message,
/// or gives it back as `Timeout` when the queue stayed full for the whole
/// wait, or as `Closed` when all receivers are gone.
#[verifier::external_body]
pub(crate) fn channel_send_timeout(
    tx: &crossbeam::channel::Sender<OneToMany>,
    msg: OneToMany,
    timeout: Duration,
) -> (r: Result<(), Error>)
    ensures
        r matches Err(e) ==> ((e is Timeout || e is Closed) && (e matches Error::Timeout(m) ==> m@
            == msg@) && (e matches Error::Closed(m) ==> m@ == msg@)),
{
    tx.send_timeout(msg, timeout).map_err(|e| match e {
        crossbeam::channel::SendTimeoutError::Timeout(m) => Error::Timeout(m),
        crossbeam::channel::SendTimeoutError::Disconnected(m) => Error::Closed(m),
    })
}

/// Relies on `crossbeam_channel::Receiver::recv_timeout`: the oldest queued
/// message, or why none arrived within the wait.
#[verifier::external_body]
pub(crate) fn channel_recv_timeout(
    rx: &crossbeam::channel::Receiver<OneToMany>,
    timeout: Duration,
) -> (r: Result<OneToMany, RecvError>) {
    rx.recv_timeout(timeout).map_err(|e| match e {
        crossbeam::channel::RecvTimeoutError::Timeout => RecvError::Timeout,
        crossbeam::channel::RecvTimeoutError::Disconnected => RecvError::Disconnected,
    })
}

/// Relies on `crossbeam_channel::Receiver::try_recv`: the oldest queued
/// message if one is ready.
#[verifier::external_body]
pub(crate) fn channel_try_recv(rx: &crossbeam::channel::Receiver<OneToMany>) -> (r: Option<
    OneToMany,
>) {
    rx.try_recv().ok()
}

/// A message coming off a queue, or why none did.
pub trait MessageReceiver {
    fn recv_timeout(&self, timeout: Duration) -> Result<OneToMany, RecvError>;
}

/// A queue that accepts messages with a bounded wait and hands out its
/// consumer end.
pub trait MessageQueue {
    type Recv: MessageReceiver;

    fn send_timeout(&self, msg: OneToMany, timeout: Duration) -> Result<(), Error>;

    fn receiver(&self) -> &Self::Recv;
}

impl MessageReceiver for crossbeam::channel::Receiver<OneToMany> {
    fn recv_timeout(&self, timeout: Duration) -> Result<OneToMany, RecvError> {
        channel_recv_timeout(self, timeout)
    }
}

/// The room: a bounded FIFO of broadcast payloads with one consumer, whose
/// producer end can be logically closed at shutdown.
pub struct Room {
    id: uuid::Uuid,
    created_at: jiff::Timestamp,
    sender: Option<crossbeam::channel::Sender<OneToMany>>,
    receiver: crossbeam::channel::Receiver<OneToMany>,
}

/// Relies on `uuid::Uuid::new_v4`: a fresh random identifier.
#[verifier::external_body]
fn fresh_room_id() -> uuid::Uuid {
    uuid::Uuid::new_v4()
}

/// Relies on `jiff::Timestamp::now`: the current time.
#[verifier::external_body]
fn timestamp_now() -> jiff::Timestamp {
    jiff::Timestamp::now()
}

impl Room {
    /// Whether the producer end is still there: after `close`, every send
    /// returns `Closed`.
    pub closed spec fn is_open(&self) -> bool {
        self.sender is Some
    }

    /// A room whose queue holds at least one message, whatever was asked for.
    pub fn new(buffer_length: u16) -> (r: Room)
        ensures
            r.is_open(),
    {
        let effective_buffer_length: u16 = if buffer_length < 1 {
            1
        } else {
            buffer_length
        };
        let (tx, rx) = channel_bounded(effective_buffer_length as usize);
        Room { id: fresh_room_id(), created_at: timestamp_now(), sender: Some(tx), receiver: rx }
    }

    /// Puts one payload on the queue, waiting at most `timeout`; a closed
    /// room hands the payload back as `Closed`.
    pub fn send_timeout(&self, msg: OneToMany, timeout: Duration) -> (r: Result<(), Error>)
        ensures
            r is Ok ==> self.is_open(),
            !self.is_open() ==> (r matches Err(e) && e matches Error::Closed(m) && m@ == msg@),
            r matches Err(e) ==> ((e is Timeout || e is Closed) && (e matches Error::Timeout(m)
                ==> m@ == msg@) && (e matches Error::Closed(m) ==> m@ == msg@)),
    {
        match &self.sender {
            Some(tx) => channel_send_timeout(tx, msg, timeout),
            None => Err(Error::Closed(msg)),
        }
    }

    /// The consumer end, for the one dispatcher.
    pub fn receiver(&self) -> &crossbeam::channel::Receiver<OneToMany> {
        &self.receiver
    }

    /// A producer handle for connection tasks, while the room is open.
    pub fn sender(&self) -> (r: Option<crossbeam::channel::Sender<OneToMany>>)
        ensures
            r is Some <==> self.is_open(),
    {
        match &self.sender {
            Some(tx) => Some(tx.clone()),
            None => None,
        }
    }

    /// Logically closes the producer end; every later send returns `Closed`.
    pub fn close(&mut self)
        ensures
            !final(self).is_open(),
    {
        self.sender = None;
    }
}

impl MessageQueue for Room {
    type Recv = crossbeam::channel::Receiver<OneToMany>;

    fn send_timeout(&self, msg: OneToMany, timeout: Duration) -> Result<(), Error> {
        Room::send_timeout(self, msg, timeout)
    }

    fn receiver(&self) -> &crossbeam::channel::Receiver<OneToMany> {
        Room::receiver(self)
    }
}

} // verus!
