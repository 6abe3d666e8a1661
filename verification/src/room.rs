//! Rooms and their members.

use tokio::sync::broadcast;
use vstd::hash_map::StringHashMap;
use vstd::prelude::*;
use crate::channel::{capacity_of, channel_of, clone_sender, open_channel, subscribe};
use crate::client::Client;
use crate::inbox::{InboxView, RoomInbox};
use crate::message::Message;
use crate::publisher::{PublisherView, RoomPublisher};

verus! {

/// The number of messages that the channel of a room is asked to keep for slow readers.
pub const ROOM_MESSAGE_CAPACITY: usize = 16;

/// What tells a room from others: its channel, and the capacity that the channel was asked for.
pub struct RoomView {
    pub channel: int,
    pub capacity: nat,
}

/// A room: all that is published in it goes over its channel.
#[derive(Debug)]
pub struct Room {
    sender: broadcast::Sender<Message>,
}

impl View for Room {
    type V = RoomView;

    closed spec fn view(&self) -> RoomView {
        RoomView { channel: channel_of(self.sender), capacity: capacity_of(self.sender) }
    }
}

impl Room {
    /// A room whose channel is asked for the capacity `ROOM_MESSAGE_CAPACITY`.
    pub fn new() -> (room: Room)
        ensures
            room@.capacity == ROOM_MESSAGE_CAPACITY,
    {
        Room::with_capacity(ROOM_MESSAGE_CAPACITY)
    }

    /// A room whose channel is asked for the capacity `capacity`. The channel may retain more: it
    /// rounds up to a power of two.
    pub fn with_capacity(capacity: usize) -> (room: Room)
        requires
            0 < capacity <= usize::MAX / 2,
        ensures
            room@.capacity == capacity,
    {
        Room { sender: open_channel(capacity, &StringHashMap::new()) }
    }

    /// A room as `new` makes it, whose channel is that of no room in `rooms`.
    pub(crate) fn beside(rooms: &StringHashMap<Room>) -> (room: Room)
        ensures
            room@.capacity == ROOM_MESSAGE_CAPACITY,
            forall|name: Seq<char>| #[trigger]
                rooms@.contains_key(name) ==> rooms@[name]@.channel != room@.channel,
    {
        Room { sender: open_channel(ROOM_MESSAGE_CAPACITY, rooms) }
    }

    /// Makes `client` a member of the room.
    pub fn join(&self, client: Client) -> (membership: RoomMembership)
        ensures
            membership.publisher_view() == (PublisherView { client: client@, room: self@ }),
            membership.inbox_view() == (InboxView { client: client@, channel: self@.channel }),
    {
        let publisher = RoomPublisher::new(client.clone(), clone_sender(&self.sender));
        let inbox = RoomInbox::new(client, subscribe(&self.sender));
        RoomMembership { publisher, inbox }
    }
}

/// The membership of one client in one room.
#[derive(Debug)]
pub struct RoomMembership {
    publisher: RoomPublisher,
    inbox: RoomInbox,
}

impl RoomMembership {
    /// The view of the publishing half.
    pub closed spec fn publisher_view(self) -> PublisherView {
        self.publisher@
    }

    /// The view of the receiving half.
    pub closed spec fn inbox_view(self) -> InboxView {
        self.inbox@
    }

    /// The two capabilities of the member.
    pub fn split(self) -> (halves: (RoomPublisher, RoomInbox))
        ensures
            halves.0@ == self.publisher_view(),
            halves.1@ == self.inbox_view(),
    {
        (self.publisher, self.inbox)
    }
}

} // verus!
