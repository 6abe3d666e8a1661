//! How a connection begins, and where the server listens.

use vstd::prelude::*;
use vstd::std_specs::iter::IteratorSpec;
use crate::channel::Sending;
use crate::client::Client;
use crate::hub::{joins, rooms_apart, ChatHub};
use crate::name::RoomName;
use crate::session::{seat, JoinedRoom};
use crate::text::trimmed;

verus! {

/// The address that the server listens on unless it is told another.
pub const DEFAULT_ADDR: &'static str = "127.0.0.1:8080";

/// What a new client is asked first.
pub const NAME_PROMPT: &'static str = "who are you?\n";

/// What a new client is asked next.
pub const ROOM_PROMPT: &'static str = "tell me your room\n";

/// The address to listen on, given the first argument of the program.
pub fn bind_addr(first: Option<String>) -> (addr: String)
    ensures
        addr@ == match first {
            Some(addr) => addr@,
            None => DEFAULT_ADDR@,
        },
{
    match first {
        Some(addr) => addr,
        None => DEFAULT_ADDR.to_owned(),
    }
}

/// The address to listen on, given the arguments of the program: the first of them, if any.
pub fn bind_addr_from_args<I: Iterator<Item = String>>(args: I) -> (addr: String)
    ensures
        args.obeys_prophetic_iter_laws() ==> addr@ == if args.remaining().len() > 0 {
            args.remaining().first()@
        } else {
            DEFAULT_ADDR@
        },
{
    let mut args = args;
    bind_addr(args.next())
}

/// The welcome to a client in a room.
pub open spec fn greeting(room: Seq<char>, client: Seq<char>) -> Seq<char> {
    "welcome to room "@ + room + ", "@ + client + "\n"@
}

/// The welcome to a client in a room.
pub fn greet(room: &RoomName, name: &Client) -> (text: String)
    ensures
        text@ == greeting(room@, name@),
{
    "welcome to room ".to_owned().concat(room.to_text().as_str()).concat(", ").concat(
        name.to_text().as_str(),
    ).concat("\n")
}

/// A client that has answered both questions and joined its room.
#[derive(Debug)]
pub struct Entrance {
    /// The room, joined.
    pub room: JoinedRoom,
    /// The welcome to write to the client.
    pub greeting: String,
}

/// Has the client that answered `name` and `room` to the two questions join the room that it
/// named, and welcomes it there.
pub fn enter(hub: &mut ChatHub, name: String, room: String) -> (entrance: Entrance)
    ensures
        rooms_apart(old(hub)@),
        rooms_apart(final(hub)@),
        joins(old(hub)@, final(hub)@, trimmed(room@)),
        final(hub)@.contains_key(trimmed(room@)),
        final(hub).joined() == old(hub).joined().push((trimmed(room@), trimmed(name@))),
        entrance.room@ == seat(final(hub)@, trimmed(room@), trimmed(name@)),
        entrance.room.sent() == Seq::<Sending>::empty(),
        entrance.greeting@ == greeting(trimmed(room@), trimmed(name@)),
{
    let client = Client::from(name);
    let room = RoomName::from(room);
    let greeting = greet(&room, &client);
    Entrance { room: JoinedRoom::join(hub, room, client), greeting }
}

/// A welcome begins with the name of the room and ends with that of the client, both whole,
/// whatever their lengths.
pub proof fn greetings_name_room_and_client(room: Seq<char>, client: Seq<char>)
    ensures
        greeting(room, client).len() == 16 + room.len() + 2 + client.len() + 1,
        greeting(room, client).take(16) == "welcome to room "@,
        greeting(room, client).subrange(16, 16int + room.len()) == room,
        greeting(room, client)[16int + room.len()] == ',',
        greeting(room, client)[16int + room.len() + 1] == ' ',
        greeting(room, client).subrange(
            18int + room.len(),
            18int + room.len() + client.len(),
        ) == client,
        greeting(room, client).last() == '\n',
{
    reveal_strlit("welcome to room ");
    reveal_strlit(", ");
    reveal_strlit("\n");
}

} // verus!
