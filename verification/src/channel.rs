//! The broadcast channel of tokio that carries the messages of a room.
//!
//! A channel is shared by all handles to it and changes behind each of them, so its contents are
//! no property of a handle. What stays fixed for the life of a handle is which channel it belongs
//! to, and that is what the contracts here speak of.

use std::mem::MaybeUninit;
use tokio::sync::broadcast;
use vstd::hash_map::StringHashMap;
use vstd::prelude::*;
use crate::message::Message;
use crate::room::Room;

verus! {

/// The sending half of a channel.
#[verifier::external_type_specification]
#[verifier::external_body]
#[verifier::reject_recursive_types(T)]
pub struct ExSender<T>(broadcast::Sender<T>);

/// The receiving half of a channel.
#[verifier::external_type_specification]
#[verifier::external_body]
#[verifier::reject_recursive_types(T)]
pub struct ExReceiver<T>(broadcast::Receiver<T>);

/// The error of a send that no receiver was there for.
#[verifier::external_type_specification]
#[verifier::external_body]
#[verifier::reject_recursive_types(T)]
pub struct ExSendError<T>(broadcast::error::SendError<T>);

/// The channel that a sender sends on. Channels are told apart by numbers; what the number of a
/// channel is, is left open, and only whether two are the same is ever spoken of.
pub uninterp spec fn channel_of(sender: broadcast::Sender<Message>) -> int;

/// The capacity that the channel of a sender was asked for.
pub uninterp spec fn capacity_of(sender: broadcast::Sender<Message>) -> nat;

/// The channel that a receiver listens to.
pub uninterp spec fn source_of(receiver: broadcast::Receiver<Message>) -> int;

/// The sender and the text of the message that an error hands back.
pub uninterp spec fn unsent(error: broadcast::error::SendError<Message>) -> (Seq<char>, Seq<char>);

/// Whether a send of `text` from the client `from` on `channel` comes back with `reached`: the
/// number of receivers that the channel had, or `None` where it had none.
///
/// The same send can come back differently at another time, so this may hold of several values of
/// `reached`. That it does not hold of some value is never claimed.
pub uninterp spec fn send_reports(
    channel: int,
    from: Seq<char>,
    text: Seq<char>,
    reached: Option<nat>,
) -> bool;

/// Calls `broadcast::channel` and keeps the sending half.
///
/// The channel is a new one: it is none of those of the rooms in `rooms`, which are in use during
/// the call. `rooms` is there for this clause alone. The function panics where the capacity is zero or above half of
/// `usize::MAX`.
#[verifier::external_body]
pub(crate) fn open_channel(capacity: usize, rooms: &StringHashMap<Room>) -> (sender:
    broadcast::Sender<Message>)
    requires
        0 < capacity <= usize::MAX / 2,
    ensures
        capacity_of(sender) == capacity,
        forall|name: Seq<char>| #[trigger]
            rooms@.contains_key(name) ==> rooms@[name]@.channel != channel_of(sender),
{
    let _ = rooms;
    broadcast::channel(capacity).0
}

/// Calls `Sender::clone`: the copy sends on the same channel.
#[verifier::external_body]
pub(crate) fn clone_sender(sender: &broadcast::Sender<Message>) -> (copy:
    broadcast::Sender<Message>)
    ensures
        channel_of(copy) == channel_of(*sender),
        capacity_of(copy) == capacity_of(*sender),
{
    sender.clone()
}

/// Calls `Sender::subscribe`: the receiver listens to the channel of the sender.
///
/// Left unsaid: that it gets the messages sent from now on, which is no property of the handle.
/// The function panics where the channel has a quarter of `usize::MAX` receivers already, more
/// than there is memory for.
#[verifier::external_body]
pub(crate) fn subscribe(sender: &broadcast::Sender<Message>) -> (receiver:
    broadcast::Receiver<Message>)
    ensures
        source_of(receiver) == channel_of(*sender),
{
    sender.subscribe()
}

/// One send: on which channel, from whom, what, and how many receivers there were, or `None` where
/// there were none.
pub struct Sending {
    pub channel: int,
    pub from: Seq<char>,
    pub text: Seq<char>,
    pub reached: Option<nat>,
}

/// A sender together with the record of all that is sent with it.
///
/// The record exists in proofs alone. `send` is the one function that adds to it, and the one way
/// to send.
#[derive(Debug)]
pub struct Outlet {
    sender: broadcast::Sender<Message>,
    /// Held in a `MaybeUninit`, which can be printed whatever it holds.
    record: MaybeUninit<Ghost<Seq<Sending>>>,
}

impl Outlet {
    /// The channel that is sent on.
    pub closed spec fn channel(self) -> int {
        channel_of(self.sender)
    }

    /// The capacity that the channel was asked for.
    pub closed spec fn capacity(self) -> nat {
        capacity_of(self.sender)
    }

    /// All that has been sent, in order.
    pub closed spec fn sent(self) -> Seq<Sending> {
        self.record.mem_contents().value()@
    }

    /// An outlet that nothing has been sent with.
    pub(crate) fn new(sender: broadcast::Sender<Message>) -> (outlet: Outlet)
        ensures
            outlet.channel() == channel_of(sender),
            outlet.capacity() == capacity_of(sender),
            outlet.sent() == Seq::<Sending>::empty(),
    {
        Outlet { sender, record: MaybeUninit::new(Ghost(Seq::empty())) }
    }

    /// Goes over to another sender and keeps the record.
    pub(crate) fn redirect(self, other: Outlet) -> (outlet: Outlet)
        ensures
            outlet.channel() == other.channel(),
            outlet.capacity() == other.capacity(),
            outlet.sent() == self.sent() + other.sent(),
    {
        let ghost record = self.sent() + other.sent();
        Outlet { sender: other.sender, record: MaybeUninit::new(Ghost(record)) }
    }
}

/// Calls `Sender::send`: it succeeds with the number of receivers where there are any, and hands
/// the message back where there are none. It is one send, and the record of the outlet has it.
#[verifier::external_body]
pub(crate) fn send(outlet: &mut Outlet, message: Message) -> (result: Result<
    usize,
    broadcast::error::SendError<Message>,
>)
    ensures
        match result {
            Ok(reached) => {
                &&& reached > 0
                &&& send_reports(
                    old(outlet).channel(),
                    message@.from,
                    message@.text,
                    Some(reached as nat),
                )
            },
            Err(error) => {
                &&& unsent(error) == (message@.from, message@.text)
                &&& send_reports(old(outlet).channel(), message@.from, message@.text, None)
            },
        },
        final(outlet).channel() == old(outlet).channel(),
        final(outlet).capacity() == old(outlet).capacity(),
        final(outlet).sent() == old(outlet).sent().push(
            (Sending {
                channel: old(outlet).channel(),
                from: message@.from,
                text: message@.text,
                reached: match result {
                    Ok(reached) => Some(reached as nat),
                    Err(_) => None,
                },
            }),
        ),
{
    outlet.sender.send(message)
}

/// Calls `to_string` on a `SendError`, whose `Display` writes the same two words for every error.
#[verifier::external_body]
pub(crate) fn send_error_text(error: &broadcast::error::SendError<Message>) -> (text: String)
    ensures
        text@ == "channel closed"@,
{
    error.to_string()
}

} // verus!
