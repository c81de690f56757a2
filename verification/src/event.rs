//! Events and the bus that carries them to every session.

use crate::address::Address;
use crate::clienthandle::DisconnectError;
use crate::connection::Message;
use tokio::sync::broadcast::error::SendError;
use tokio::sync::broadcast::{Receiver, Sender};
use vstd::prelude::*;
use vstd::string::*;

verus! {

/// `tokio::sync::broadcast::Sender`, a handle for sending into a channel.
#[verifier::external_type_specification]
#[verifier::external_body]
#[verifier::reject_recursive_types(T)]
pub struct ExSender<T>(Sender<T>);

/// `tokio::sync::broadcast::Receiver`, one subscription to a channel.
#[verifier::external_type_specification]
#[verifier::external_body]
#[verifier::reject_recursive_types(T)]
pub struct ExReceiver<T>(Receiver<T>);

/// `tokio::sync::broadcast::error::SendError`, which holds the value that
/// could not be sent.
#[verifier::external_type_specification]
#[verifier::external_body]
#[verifier::reject_recursive_types(T)]
pub struct ExSendError<T>(SendError<T>);

/// The capacity that the channel of `tx` was asked to have when it was
/// made: the limit that it was made with, not what it has room for.
pub uninterp spec fn asked_capacity(tx: Sender<Event>) -> nat;

/// `tokio::sync::broadcast::channel`, of which the sending half is kept. It
/// makes a channel that retains at least `capacity` values for a receiver
/// that is behind, and panics on a capacity of zero or above
/// `usize::MAX / 2`. The channel that comes back was made with `capacity`.
#[verifier::external_body]
fn open_channel(capacity: usize) -> (tx: Sender<Event>)
    requires
        0 < capacity <= usize::MAX / 2,
    ensures
        asked_capacity(tx) == capacity,
{
    tokio::sync::broadcast::channel::<Event>(capacity).0
}

/// `Sender::send`. It never waits. It fails only while the channel has no
/// receiver; otherwise it returns how many receivers there are, at least
/// one.
pub assume_specification<T>[ Sender::<T>::send ](tx: &Sender<T>, value: T) -> (sent: Result<
    usize,
    SendError<T>,
>)
    ensures
        sent matches Ok(receivers) ==> receivers >= 1,
;

/// The sender of the channel that `rx` is subscribed to.
pub uninterp spec fn channel_of(rx: Receiver<Event>) -> Sender<Event>;

/// `Sender::subscribe`, a new receiver for what is sent from now on. The
/// receiver is made on the sender's own share of the channel: it is
/// subscribed to the channel of `tx`. It panics only where the channel
/// already counts `usize::MAX >> 2` receivers, more than memory holds.
#[verifier::external_body]
fn subscribe_to(tx: &Sender<Event>) -> (rx: Receiver<Event>)
    ensures
        channel_of(rx) == *tx,
{
    tx.subscribe()
}

/// `Sender::clone`, another handle to the same channel. A sender holds
/// nothing but its share of the channel, and the clone holds the same
/// share: as a handle it is the sender that it was made from.
pub assume_specification<T>[ <Sender<T> as Clone>::clone ](tx: &Sender<T>) -> (other: Sender<T>)
    ensures
        other == *tx,
;

/// How many events the bus retains for a subscriber that is behind.
pub const BUS_CAPACITY: usize = 50;

/// What an event reports.
#[derive(Clone, Debug, PartialEq, Eq)]
pub enum EventType {
    /// A peer has joined.
    Connect,
    /// A peer has sent a line of chat.
    Message(Message),
    /// A peer has left.
    Disconnect(DisconnectError),
}

/// What an event reports, with the text of a message as a sequence of
/// characters.
pub enum Payload {
    Connect,
    Message(Seq<char>),
    Disconnect(DisconnectError),
}

impl View for EventType {
    type V = Payload;

    open spec fn view(&self) -> Payload {
        match *self {
            EventType::Connect => Payload::Connect,
            EventType::Message(message) => Payload::Message(message@),
            EventType::Disconnect(reason) => Payload::Disconnect(reason),
        }
    }
}

/// One fact that is broadcast to every session.
#[derive(Clone, Debug, PartialEq, Eq)]
pub struct Event {
    /// The peer that the event is about; `None` for an event of the server
    /// itself.
    pub origin: Option<Address>,
    /// What happened.
    pub event: EventType,
}

/// An event as a mathematical value.
pub struct EventModel {
    pub origin: Option<Address>,
    pub payload: Payload,
}

impl View for Event {
    type V = EventModel;

    open spec fn view(&self) -> EventModel {
        EventModel { origin: self.origin, payload: self.event@ }
    }
}

impl EventModel {
    /// An event may be published if its message, where it carries one, is
    /// not empty.
    pub open spec fn well_formed(self) -> bool {
        self.payload matches Payload::Message(text) ==> text.len() > 0
    }
}

/// The words that describe what an event reports; for a message, its text.
pub open spec fn description(payload: Payload) -> Seq<char> {
    match payload {
        Payload::Connect => "connected to the server"@,
        Payload::Message(text) => text,
        Payload::Disconnect(DisconnectError::Eof) => "disconnected from the server"@,
        Payload::Disconnect(DisconnectError::Spam) => "has been kicked for spamming"@,
    }
}

impl EventType {
    /// The words that describe what the event reports.
    pub fn description(&self) -> (text: String)
        ensures
            text@ == description(self@),
    {
        match self {
            EventType::Connect => String::from_str("connected to the server"),
            EventType::Message(message) => message.to_string(),
            EventType::Disconnect(DisconnectError::Eof) => String::from_str(
                "disconnected from the server",
            ),
            EventType::Disconnect(DisconnectError::Spam) => String::from_str(
                "has been kicked for spamming",
            ),
        }
    }
}

impl Event {
    /// An event about the peer at `origin`.
    pub fn new(origin: Address, event: EventType) -> (made: Event)
        ensures
            made.origin == Some(origin),
            made.event == event,
    {
        Event { origin: Some(origin), event }
    }
}

/// The bus: one broadcast channel that every session sends into and
/// subscribes to.
pub struct EventSystem {
    tx: Sender<Event>,
}

impl EventSystem {
    /// The bus's own handle for sending into its channel.
    pub closed spec fn handle(&self) -> Sender<Event> {
        self.tx
    }

    /// The number of events that the bus was asked to retain for a
    /// subscriber that is behind.
    pub closed spec fn capacity(&self) -> nat {
        asked_capacity(self.tx)
    }

    /// A bus whose channel is made to retain `cap` events for a subscriber
    /// that is behind.
    pub fn new(cap: usize) -> (bus: EventSystem)
        requires
            0 < cap <= usize::MAX / 2,
        ensures
            bus.capacity() == cap,
    {
        let tx = open_channel(cap);
        EventSystem { tx }
    }

    /// Another handle for sending into the bus: the bus's own, once more.
    pub fn sender(&self) -> (tx: Sender<Event>)
        ensures
            tx == self.handle(),
    {
        self.tx.clone()
    }

    /// A new subscription to this bus, which sees the events published
    /// from now on.
    pub fn subscribe(&self) -> (rx: Receiver<Event>)
        ensures
            channel_of(rx) == self.handle(),
    {
        subscribe_to(&self.tx)
    }

    /// Hands `event` to every subscription without waiting, and returns how
    /// many there are. Fails only while the bus has no subscription.
    pub fn publish(&self, event: Event) -> (sent: Result<usize, SendError<Event>>)
        ensures
            sent matches Ok(receivers) ==> receivers >= 1,
    {
        self.tx.send(event)
    }
}

} // verus!
