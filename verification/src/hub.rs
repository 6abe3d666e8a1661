//! The registry of rooms.

use vstd::hash_map::StringHashMap;
use vstd::prelude::*;
use crate::client::Client;
use crate::inbox::InboxView;
use crate::name::RoomName;
use crate::publisher::PublisherView;
use crate::room::{Room, RoomMembership, RoomView, ROOM_MESSAGE_CAPACITY};

verus! {

/// The registry of all rooms. A room exists from the first time that someone joins it.
pub struct ChatHub {
    rooms: StringHashMap<Room>,
    /// Which rooms were joined, by which clients, in order. It exists in proofs alone.
    record: Ghost<Seq<(Seq<char>, Seq<char>)>>,
}

impl View for ChatHub {
    type V = Map<Seq<char>, RoomView>;

    closed spec fn view(&self) -> Map<Seq<char>, RoomView> {
        self.rooms@.map_values(|room: Room| room@)
    }
}

/// Whether the rooms are made alike and no two of them share a channel.
pub open spec fn rooms_apart(rooms: Map<Seq<char>, RoomView>) -> bool {
    &&& forall|name: Seq<char>| #[trigger]
        rooms.contains_key(name) ==> rooms[name].capacity == ROOM_MESSAGE_CAPACITY
    &&& forall|one: Seq<char>, other: Seq<char>|
        #![trigger rooms[one], rooms[other]]
        rooms.contains_key(one) && rooms.contains_key(other) && one != other
            ==> rooms[one].channel != rooms[other].channel
}

/// Whether joining the room `name` leads from the rooms `before` to the rooms `after`: a room that
/// exists stays as it is, and one that does not is added, with a channel of its own.
pub open spec fn joins(
    before: Map<Seq<char>, RoomView>,
    after: Map<Seq<char>, RoomView>,
    name: Seq<char>,
) -> bool {
    if before.contains_key(name) {
        after == before
    } else {
        &&& after == before.insert(name, after[name])
        &&& after[name].capacity == ROOM_MESSAGE_CAPACITY
        &&& forall|other: Seq<char>| #[trigger]
            before.contains_key(other) ==> before[other].channel != after[name].channel
    }
}

impl ChatHub {
    /// What holds of every registry.
    #[verifier::type_invariant]
    pub open spec fn is_sound(self) -> bool {
        rooms_apart(self@)
    }

    /// All joins so far, in order: the name of the room and the name of the client.
    pub closed spec fn joined(self) -> Seq<(Seq<char>, Seq<char>)> {
        self.record@
    }

    /// A registry without rooms.
    pub fn new() -> (hub: ChatHub)
        ensures
            hub@ == Map::<Seq<char>, RoomView>::empty(),
            hub.joined() == Seq::<(Seq<char>, Seq<char>)>::empty(),
    {
        ChatHub { rooms: StringHashMap::new(), record: Ghost(Seq::empty()) }
    }

    /// Makes `client` a member of the room with the name `room`.
    pub fn join(&mut self, room: RoomName, client: Client) -> (membership: RoomMembership)
        ensures
            rooms_apart(old(self)@),
            rooms_apart(final(self)@),
            joins(old(self)@, final(self)@, room@),
            final(self)@.contains_key(room@),
            final(self).joined() == old(self).joined().push((room@, client@)),
            membership.publisher_view() == (PublisherView {
                client: client@,
                room: final(self)@[room@],
            }),
            membership.inbox_view() == (InboxView {
                client: client@,
                channel: final(self)@[room@].channel,
            }),
    {
        proof {
            use_type_invariant(&*self);
        }
        let name = room.to_text();
        self.record = Ghost(self.record@.push((room@, client@)));
        match self.rooms.get(name.as_str()) {
            Some(room) => room.join(client),
            None => {
                let room = Room::beside(&self.rooms);
                let membership = room.join(client);
                let mut rooms = StringHashMap::new();
                std::mem::swap(&mut rooms, &mut self.rooms);
                proof {
                    let view = |room: Room| room@;
                    assert(rooms@.insert(name@, room).map_values(view) == rooms@.map_values(
                        view,
                    ).insert(name@, room@));
                }
                rooms.insert(name, room);
                self.rooms = rooms;
                membership
            },
        }
    }
}

impl Default for ChatHub {
    fn default() -> (hub: ChatHub)
        ensures
            hub@ == Map::<Seq<char>, RoomView>::empty(),
            hub.joined() == Seq::<(Seq<char>, Seq<char>)>::empty(),
    {
        ChatHub::new()
    }
}

/// A join adds the room that it names where there is none of that name, and changes nothing else:
/// no room is lost, none gets another channel, and a new room shares its channel with none.
pub proof fn joins_add_one_room_at_most(
    before: Map<Seq<char>, RoomView>,
    after: Map<Seq<char>, RoomView>,
    name: Seq<char>,
)
    requires
        joins(before, after, name),
    ensures
        after.dom() == before.dom().insert(name),
        forall|other: Seq<char>| #[trigger]
            before.contains_key(other) ==> after.contains_key(other) && after[other]
                == before[other],
        !before.contains_key(name) ==> after[name].capacity == 16,
        !before.contains_key(name) ==> forall|other: Seq<char>| #[trigger]
            before.contains_key(other) ==> before[other].channel != after[name].channel,
{
    assert(after.dom() =~= before.dom().insert(name));
}

/// Rooms that are apart have different channels exactly where they have different names.
pub proof fn rooms_apart_have_channels_of_their_own(
    rooms: Map<Seq<char>, RoomView>,
    one: Seq<char>,
    other: Seq<char>,
)
    requires
        rooms_apart(rooms),
        rooms.contains_key(one),
        rooms.contains_key(other),
    ensures
        rooms[one].channel == rooms[other].channel <==> one == other,
        rooms[one].capacity == 16,
{
}

} // verus!
