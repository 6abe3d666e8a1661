//! What the operations do, told by what goes into them and what comes out.
//!
//! Each law here is about every call of an operation: `call_ensures` stands for a call with these
//! arguments that gave this result.

use vstd::prelude::*;
use vstd::std_specs::iter::IteratorSpec;
use crate::channel::{send_reports, Sending};
use crate::client::Client;
use crate::connection::{
    bind_addr, bind_addr_from_args, enter, greet, greetings_name_room_and_client, Entrance,
};
use crate::hub::{joins_add_one_room_at_most, ChatHub};
use crate::inbox::{Outcome, Reception, RoomInbox};
use crate::input::{
    leave_takes_no_arguments, switch_takes_a_room, ClientInput, InputErrorView, ParseInputError,
};
use crate::message::{messages_are_shown_whole, Message};
use crate::name::RoomName;
use crate::publisher::{Poster, PublishError, RoomPublisher};
use crate::room::{Room, RoomMembership};
use crate::session::{
    decide, errors_alone_are_noted, heard_messages_are_written_whole, leaving_names_the_room,
    publishing_report, session_input, session_step, switches_alone_move_the_client,
    switching_names_the_room, Decision, JoinedRoom, SessionEvent, SessionStep,
};
use crate::text::{is_white_space, trimmed_is_the_middle};

verus! {

/// The name of a room is the text that it is made from, cut down to what is between two positions:
/// all that is cut off is white space, and what is left neither begins nor ends with any.
pub proof fn room_names_are_cut_from_their_text(value: &str, name: RoomName, text: String) -> (ends: (
    int,
    int,
))
    requires
        call_ensures(<RoomName as From<&str>>::from, (value,), name),
        call_ensures(RoomName::to_text, (&name,), text),
    ensures
        0 <= ends.0 <= ends.1 <= value@.len(),
        text@ == value@.subrange(ends.0, ends.1),
        forall|i: int| 0 <= i < ends.0 ==> is_white_space(#[trigger] value@[i]),
        forall|i: int| ends.1 <= i < value@.len() ==> is_white_space(#[trigger] value@[i]),
        ends.0 < ends.1 ==> !is_white_space(value@[ends.0]) && !is_white_space(
            value@[ends.1 - 1],
        ),
{
    trimmed_is_the_middle(value@)
}

/// The name of a client is cut from its text as that of a room is.
pub proof fn client_names_are_cut_from_their_text(value: &str, client: Client, text: String) -> (ends:
    (int, int))
    requires
        call_ensures(<Client as From<&str>>::from, (value,), client),
        call_ensures(Client::to_text, (&client,), text),
    ensures
        0 <= ends.0 <= ends.1 <= value@.len(),
        text@ == value@.subrange(ends.0, ends.1),
        forall|i: int| 0 <= i < ends.0 ==> is_white_space(#[trigger] value@[i]),
        forall|i: int| ends.1 <= i < value@.len() ==> is_white_space(#[trigger] value@[i]),
        ends.0 < ends.1 ==> !is_white_space(value@[ends.0]) && !is_white_space(
            value@[ends.1 - 1],
        ),
{
    trimmed_is_the_middle(value@)
}

/// What a client says is shown whole: the whole name of the client, a colon and a space, and the
/// whole text, whatever their lengths.
pub proof fn what_is_said_is_shown_whole(
    client: Client,
    name: String,
    text: String,
    message: Message,
    shown: String,
)
    requires
        call_ensures(Client::to_text, (&client,), name),
        call_ensures(Message::new::<String>, (client, text), message),
        call_ensures(Message::to_text, (&message,), shown),
    ensures
        shown@.len() == name@.len() + 2 + text@.len(),
        shown@.take(name@.len() as int) == name@,
        shown@[name@.len() as int] == ':',
        shown@[name@.len() + 1int] == ' ',
        shown@.skip(name@.len() + 2int) == text@,
{
    messages_are_shown_whole(message@);
}

/// A message is from the client that said it, and from no client of another name.
pub proof fn messages_are_from_who_said_them(
    client: Client,
    text: String,
    message: Message,
    other: Client,
    own: bool,
    said: &str,
)
    requires
        call_ensures(Message::new::<String>, (client, text), message),
        call_ensures(Message::is_from, (&message, &other), own),
        call_ensures(Message::text, (&message,), said),
    ensures
        own <==> client@ == other@,
        said@ == text@,
{
}

/// A welcome begins with "welcome to room " and the whole name of the room, and ends with a comma
/// and a space, the whole name of the client and a line end, whatever the lengths of the names.
pub proof fn clients_are_welcomed_by_name(
    room: &RoomName,
    client: &Client,
    there: String,
    who: String,
    text: String,
)
    requires
        call_ensures(RoomName::to_text, (room,), there),
        call_ensures(Client::to_text, (client,), who),
        call_ensures(greet, (room, client), text),
    ensures
        text@.len() == 16 + there@.len() + 2 + who@.len() + 1,
        text@.take(16) == "welcome to room "@,
        text@.subrange(16, 16int + there@.len()) == there@,
        text@[16int + there@.len()] == ',',
        text@[16int + there@.len() + 1] == ' ',
        text@.subrange(18int + there@.len(), 18int + there@.len() + who@.len()) == who@,
        text@.last() == '\n',
{
    greetings_name_room_and_client(room@, client@);
}

/// Who enters is in the room of the name that was answered, under the name that was answered, with
/// both capabilities there and nothing sent, and is welcomed there.
pub proof fn clients_enter_the_room_they_name(
    hub: &mut ChatHub,
    name: String,
    room: String,
    entrance: Entrance,
    client: Client,
    there: RoomName,
    welcome: String,
)
    requires
        call_ensures(enter, (hub, name, room), entrance),
        call_ensures(<Client as From<String>>::from, (name,), client),
        call_ensures(<RoomName as From<String>>::from, (room,), there),
        call_ensures(greet, (&there, &client), welcome),
    ensures
        entrance.greeting@ == welcome@,
        entrance.room@.name == there@,
        entrance.room@.client == client@,
        entrance.room@.publisher.client == client@,
        entrance.room@.publisher.room == final(hub)@[there@],
        entrance.room@.inbox.client == client@,
        entrance.room@.inbox.channel == final(hub)@[there@].channel,
        entrance.room.sent().len() == 0,
        final(hub).joined() == old(hub).joined().push((there@, client@)),
        final(hub)@.dom() == old(hub)@.dom().insert(there@),
{
    joins_add_one_room_at_most(old(hub)@, final(hub)@, there@);
}

/// Where there is no line, the client is gone. A line without a slash in front is a message, word
/// for word, whatever its length; a line without anything is empty; and a line with a slash in front
/// that begins with neither command is unknown, and the error has the whole of it.
pub proof fn lines_without_a_command(line: Option<String>, event: SessionEvent)
    requires
        call_ensures(session_input, (line,), event),
    ensures
        line is None ==> event is Disconnected,
        line matches Some(line) ==> {
            &&& line@.len() == 0 ==> (event matches SessionEvent::InvalidInput(
                ParseInputError::EmptyInput,
            ))
            &&& line@.len() > 0 && line@[0] != '/' ==> (event matches SessionEvent::Input(
                ClientInput::Message(text),
            ) && text@ == line@)
            &&& line@.len() > 0 && line@[0] == '/' && !"/leave"@.is_prefix_of(line@)
                && !"/switch"@.is_prefix_of(line@) ==> (event matches SessionEvent::InvalidInput(
                ParseInputError::Unknown(text),
            ) && text@ == line@)
        },
{
    reveal_strlit("/leave");
    reveal_strlit("/switch");
}

/// A line that begins with `/leave` asks to leave when nothing follows; white space behind the
/// command is too much, and with anything else behind it the line is unknown.
pub proof fn lines_that_begin_with_leave(line: String, rest: Seq<char>, event: SessionEvent)
    requires
        call_ensures(session_input, (Some(line),), event),
        line@ == "/leave"@ + rest,
    ensures
        rest.len() == 0 ==> event matches SessionEvent::Input(ClientInput::Leave),
        rest.len() > 0 && is_white_space(rest[0]) ==> event matches SessionEvent::InvalidInput(
            ParseInputError::UnexpectedArguments,
        ),
        rest.len() > 0 && !is_white_space(rest[0]) ==> (event matches SessionEvent::InvalidInput(
            ParseInputError::Unknown(text),
        ) && text@ == line@),
{
    leave_takes_no_arguments(rest);
}

/// A line that begins with `/switch` asks for the room whose name is what follows without the white
/// space around it, which is what is between two positions; the room is missing when nothing or
/// nothing but white space follows; and with anything but white space right behind the command the
/// line is unknown.
pub proof fn lines_that_begin_with_switch(
    line: String,
    rest: Seq<char>,
    event: SessionEvent,
) -> (ends: (int, int))
    requires
        call_ensures(session_input, (Some(line),), event),
        line@ == "/switch"@ + rest,
    ensures
        0 <= ends.0 <= ends.1 <= rest.len(),
        forall|i: int| 0 <= i < ends.0 ==> is_white_space(#[trigger] rest[i]),
        forall|i: int| ends.1 <= i < rest.len() ==> is_white_space(#[trigger] rest[i]),
        ends.0 < ends.1 ==> !is_white_space(rest[ends.0]) && !is_white_space(rest[ends.1 - 1]),
        rest.len() == 0 ==> event matches SessionEvent::InvalidInput(ParseInputError::MissingRoom),
        rest.len() > 0 && is_white_space(rest[0]) && ends.0 == ends.1
            ==> event matches SessionEvent::InvalidInput(ParseInputError::MissingRoom),
        rest.len() > 0 && is_white_space(rest[0]) && ends.0 < ends.1 ==> (
        event matches SessionEvent::Input(ClientInput::Switch(room)) && room@ == rest.subrange(
            ends.0,
            ends.1,
        )),
        rest.len() > 0 && !is_white_space(rest[0]) ==> (event matches SessionEvent::InvalidInput(
            ParseInputError::Unknown(text),
        ) && text@ == line@),
{
    let ends = trimmed_is_the_middle(rest);
    switch_takes_a_room(rest, rest.subrange(ends.0, ends.1));
    ends
}

/// Each error of a line has its text; that of an unknown line ends with the whole line.
pub proof fn errors_say_what_is_wrong(error: ParseInputError, text: String)
    requires
        call_ensures(ParseInputError::to_text, (&error,), text),
    ensures
        match error {
            ParseInputError::MissingRoom => text@ == "ParseInputError: missing room"@,
            ParseInputError::EmptyInput => text@ == "ParseInputError: empty input"@,
            ParseInputError::UnexpectedArguments => text@
                == "ParseInputError: unexpected arguments"@,
            ParseInputError::Unknown(line) => {
                &&& text@.len() == 31 + line@.len()
                &&& text@.take(31) == "ParseInputError: unknown input "@
                &&& text@.skip(31) == line@
            },
        },
{
    reveal_strlit("ParseInputError: ");
    reveal_strlit("missing room");
    reveal_strlit("empty input");
    reveal_strlit("unexpected arguments");
    reveal_strlit("unknown input ");
    reveal_strlit("ParseInputError: missing room");
    reveal_strlit("ParseInputError: empty input");
    reveal_strlit("ParseInputError: unexpected arguments");
    reveal_strlit("ParseInputError: unknown input ");
}

/// Publishing is noted where it finds no one, and only there.
pub proof fn failures_to_publish_are_noted(
    result: Result<usize, PublishError>,
    note: Option<String>,
)
    requires
        call_ensures(publishing_report, (&result,), note),
    ensures
        result is Ok <==> note is None,
        note matches Some(note) ==> note@
            == "error publishing message: PublishError: channel closed"@,
{
    reveal_strlit("error publishing message: ");
    reveal_strlit("PublishError: ");
    reveal_strlit("channel closed");
    reveal_strlit("error publishing message: PublishError: channel closed");
}

/// An inbox passes over one kind of message, those of its own client: every other message is handed
/// out as it is, a lag is passed over and the end is reported.
pub proof fn inboxes_hand_out_what_others_say(
    inbox: &RoomInbox,
    outcome: Outcome,
    result: Reception,
)
    requires
        call_ensures(RoomInbox::receive, (inbox, outcome), result),
    ensures
        match outcome {
            Outcome::Message(message) => if message@.from == inbox@.client {
                result is Again
            } else {
                result matches Reception::Message(same) && same == message
            },
            Outcome::Lagged(_) => result is Again,
            Outcome::Closed => result is Closed,
        },
{
}

/// A client in a room hears what its inbox hands out.
pub proof fn clients_hear_what_others_say(room: &JoinedRoom, outcome: Outcome, result: Reception)
    requires
        call_ensures(JoinedRoom::receive, (room, outcome), result),
    ensures
        match outcome {
            Outcome::Message(message) => if message@.from == room@.inbox.client {
                result is Again
            } else {
                result matches Reception::Message(same) && same == message
            },
            Outcome::Lagged(_) => result is Again,
            Outcome::Closed => result is Closed,
        },
{
}

/// The server listens on the address that it is told, whatever it is, and else on its default.
pub proof fn servers_listen_where_they_are_told(first: Option<String>, addr: String)
    requires
        call_ensures(bind_addr, (first,), addr),
    ensures
        first matches Some(told) ==> addr@ == told@,
        first is None ==> addr@ == "127.0.0.1:8080"@,
{
}

/// Of several arguments the server takes the first, and none makes it listen on its default.
pub proof fn servers_listen_where_their_first_argument_says<I: Iterator<Item = String>>(
    args: I,
    addr: String,
)
    requires
        call_ensures(bind_addr_from_args::<I>, (args,), addr),
        args.obeys_prophetic_iter_laws(),
    ensures
        args.remaining().len() > 0 ==> addr@ == args.remaining()[0]@,
        args.remaining().len() == 0 ==> addr@ == "127.0.0.1:8080"@,
{
}

/// A room asks its channel to keep sixteen messages unless another number is given, and then that
/// many.
pub proof fn rooms_ask_for_their_capacity(room: Room, capacity: usize, other: Room)
    requires
        call_ensures(Room::new, (), room),
        call_ensures(Room::with_capacity, (capacity,), other),
    ensures
        room@.capacity == 16,
        other@.capacity == capacity,
{
}

/// Who joins a room publishes and receives there, under its own name.
pub proof fn rooms_give_both_capabilities(
    room: &Room,
    client: Client,
    membership: RoomMembership,
    halves: (RoomPublisher, RoomInbox),
)
    requires
        call_ensures(Room::join, (room, client), membership),
        call_ensures(RoomMembership::split, (membership,), halves),
    ensures
        halves.0@.client == client@,
        halves.0@.room == room@,
        halves.1@.client == client@,
        halves.1@.channel == room@.channel,
{
}

/// Publishing reports that this text was sent from this client to this room, and to how many; where
/// no one is there, it hands back the whole message.
pub proof fn publishing_reports_what_was_sent(
    publisher: &RoomPublisher,
    text: String,
    result: Result<usize, PublishError>,
)
    requires
        call_ensures(RoomPublisher::publish, (publisher, text), result),
    ensures
        match result {
            Ok(reached) => {
                &&& reached > 0
                &&& send_reports(
                    publisher@.room.channel,
                    publisher@.client,
                    text@,
                    Some(reached as nat),
                )
            },
            Err(error) => {
                &&& error@.from == publisher@.client
                &&& error@.text == text@
                &&& send_reports(publisher@.room.channel, publisher@.client, text@, None)
            },
        },
{
}

/// A client that joins a room and switches to another is in the other with both capabilities and
/// under its own name; the joins are the two that it asked for, and nothing is sent by them.
pub proof fn clients_join_and_switch(
    hub: &mut ChatHub,
    later_hub: &mut ChatHub,
    name: RoomName,
    client: Client,
    room: JoinedRoom,
    to: RoomName,
    next_room: JoinedRoom,
)
    requires
        call_ensures(JoinedRoom::join, (hub, name, client), room),
        call_ensures(JoinedRoom::switch, (room, later_hub, to), next_room),
        *old(later_hub) == *final(hub),
    ensures
        room@.name == name@,
        room@.client == client@,
        room@.publisher.client == client@,
        room@.publisher.room == final(hub)@[name@],
        room@.inbox.client == client@,
        room@.inbox.channel == room@.publisher.room.channel,
        room.sent().len() == 0,
        next_room@.name == to@,
        next_room@.client == client@,
        next_room@.publisher.client == client@,
        next_room@.publisher.room == final(later_hub)@[to@],
        next_room@.inbox.client == client@,
        next_room@.inbox.channel == next_room@.publisher.room.channel,
        next_room.sent().len() == 0,
        final(later_hub).joined() == old(hub).joined().push((name@, client@)).push(
            (to@, client@),
        ),
        room@.inbox.channel == next_room@.inbox.channel <==> name@ == to@,
{
}

/// The two capabilities of a member are its own and of the one room that it has joined, and a join
/// is one join.
pub proof fn members_get_both_capabilities(
    hub: &mut ChatHub,
    room: RoomName,
    client: Client,
    membership: RoomMembership,
    halves: (RoomPublisher, RoomInbox),
)
    requires
        call_ensures(ChatHub::join, (hub, room, client), membership),
        call_ensures(RoomMembership::split, (membership,), halves),
    ensures
        halves.0@.client == client@,
        halves.0@.room == final(hub)@[room@],
        halves.1@.client == client@,
        halves.1@.channel == halves.0@.room.channel,
        final(hub).joined() == old(hub).joined().push((room@, client@)),
{
}

/// Of two joins, one after the other, the members are on one channel exactly if the rooms have the
/// same name.
pub proof fn joins_of_one_name_share_a_channel(
    first_hub: &mut ChatHub,
    second_hub: &mut ChatHub,
    first_room: RoomName,
    second_room: RoomName,
    first_client: Client,
    second_client: Client,
    first: RoomMembership,
    second: RoomMembership,
)
    requires
        call_ensures(ChatHub::join, (first_hub, first_room, first_client), first),
        call_ensures(ChatHub::join, (second_hub, second_room, second_client), second),
        *old(second_hub) == *final(first_hub),
    ensures
        first.publisher_view().room.channel == second.inbox_view().channel <==> first_room@
            == second_room@,
        first.inbox_view().channel == second.publisher_view().room.channel <==> first_room@
            == second_room@,
{
}

/// To post is to send one message, from the client of the poster, with the text that was given, on
/// the channel of its room, and to send nothing else.
pub proof fn a_post_sends_one_message(
    poster: &mut Poster,
    text: String,
    result: Result<usize, PublishError>,
)
    requires
        call_ensures(Poster::post, (poster, text), result),
    ensures
        final(poster).sent().len() == old(poster).sent().len() + 1,
        final(poster).sent().drop_last() == old(poster).sent(),
        final(poster).sent().last().channel == old(poster)@.room.channel,
        final(poster).sent().last().from == old(poster)@.client,
        final(poster).sent().last().text == text@,
        match result {
            Ok(reached) => {
                &&& reached > 0
                &&& final(poster).sent().last().reached == Some(reached as nat)
            },
            Err(error) => {
                &&& final(poster).sent().last().reached is None
                &&& error@.from == old(poster)@.client
                &&& error@.text == text@
            },
        },
        final(poster)@ == old(poster)@,
{
}

/// What is decided about an event. A typed message is to be published, word for word, and that is
/// all. To leave ends the session, and the reply has the whole name of the room. A switch goes to a
/// room of another name, whatever it is, and the reply has the whole name; a switch to the same room
/// goes nowhere. A line without meaning is answered and noted. The end of the connection ends the
/// session, and so does the end of the room. A message that is heard is written whole and in a line
/// of its own, whatever it says, and ends nothing.
pub proof fn decisions_follow_the_event(
    name: &RoomName,
    event: SessionEvent,
    decision: Decision,
    error_text: String,
)
    requires
        call_ensures(decide, (name, event), decision),
        event matches SessionEvent::InvalidInput(error) ==> call_ensures(
            ParseInputError::to_text,
            (&error,),
            error_text,
        ),
    ensures
        match event {
            SessionEvent::Input(ClientInput::Message(text)) => {
                &&& decision.publish matches Some(same) && same@ == text@
                &&& decision.enter is None
                &&& decision.reply is None
                &&& decision.note is None
                &&& !decision.done
            },
            SessionEvent::Input(ClientInput::Leave) => {
                &&& decision.publish is None
                &&& decision.enter is None
                &&& decision.reply matches Some(reply) && {
                    &&& reply@.len() == 10 + name@.len() + 1
                    &&& reply@.take(10) == "left room "@
                    &&& reply@.subrange(10, 10int + name@.len()) == name@
                    &&& reply@.last() == '\n'
                }
                &&& decision.note is None
                &&& decision.done
            },
            SessionEvent::Input(ClientInput::Switch(to)) => {
                &&& decision.publish is None
                &&& decision.note is None
                &&& !decision.done
                &&& to@ == name@ ==> {
                    &&& decision.enter is None
                    &&& decision.reply matches Some(reply) && {
                        &&& reply@.len() == 16 + name@.len() + 1
                        &&& reply@.take(16) == "already in room "@
                        &&& reply@.subrange(16, 16int + name@.len()) == name@
                        &&& reply@.last() == '\n'
                    }
                }
                &&& to@ != name@ ==> {
                    &&& decision.enter matches Some(same) && same@ == to@
                    &&& decision.reply matches Some(reply) && {
                        &&& reply@.len() == 17 + to@.len() + 1
                        &&& reply@.take(17) == "switched to room "@
                        &&& reply@.subrange(17, 17int + to@.len()) == to@
                        &&& reply@.last() == '\n'
                    }
                }
            },
            SessionEvent::InvalidInput(error) => {
                &&& decision.publish is None
                &&& decision.enter is None
                &&& decision.reply matches Some(reply) && reply@ == "error: invalid input\n"@
                &&& decision.note matches Some(note) && note@ == error_text@
                &&& !decision.done
            },
            SessionEvent::Disconnected => {
                &&& decision.publish is None
                &&& decision.enter is None
                &&& decision.reply is None
                &&& decision.note is None
                &&& decision.done
            },
            SessionEvent::RoomMessage(Some(message)) => {
                &&& decision.publish is None
                &&& decision.enter is None
                &&& decision.reply matches Some(reply) && {
                    &&& reply@.len() == message@.from.len() + 2 + message@.text.len() + 1
                    &&& reply@.take(message@.from.len() as int) == message@.from
                    &&& reply@[message@.from.len() as int] == ':'
                    &&& reply@[message@.from.len() + 1int] == ' '
                    &&& reply@.subrange(
                        message@.from.len() + 2int,
                        message@.from.len() + 2int + message@.text.len(),
                    ) == message@.text
                    &&& reply@.last() == '\n'
                }
                &&& decision.note is None
                &&& !decision.done
            },
            SessionEvent::RoomMessage(None) => {
                &&& decision.publish is None
                &&& decision.enter is None
                &&& decision.reply matches Some(reply) && reply@ == "error: room closed\n"@
                &&& decision.note is None
                &&& decision.done
            },
        },
{
    leaving_names_the_room(name@);
    if let SessionEvent::Input(ClientInput::Switch(to)) = event {
        switching_names_the_room(name@, to@);
    }
    if let SessionEvent::RoomMessage(Some(message)) = event {
        heard_messages_are_written_whole(name@, message@);
    }
}

/// A step does what is decided about its event in the room where the client is. What it sends is
/// what the decision has published: one message, from the client and to its room, or nothing. It
/// joins the room that the decision enters, or none. It replies what the decision replies, and ends
/// the session where the decision does. It notes what the decision notes, and of a message whether
/// it found no one.
pub proof fn steps_carry_out_decisions(
    room: JoinedRoom,
    hub: &mut ChatHub,
    event: SessionEvent,
    step: SessionStep,
    name: &RoomName,
    decision: Decision,
)
    requires
        call_ensures(session_step, (room, hub, event), step),
        call_ensures(decide, (name, event), decision),
        name@ == room@.name,
    ensures
        match decision.publish {
            Some(text) => {
                &&& step.room.sent().len() == room.sent().len() + 1
                &&& step.room.sent().drop_last() == room.sent()
                &&& step.room.sent().last().channel == room@.publisher.room.channel
                &&& step.room.sent().last().from == room@.publisher.client
                &&& step.room.sent().last().text == text@
                &&& match step.note {
                    Some(note) => {
                        &&& step.room.sent().last().reached is None
                        &&& note@ == "error publishing message: PublishError: channel closed"@
                    },
                    None => step.room.sent().last().reached is Some,
                }
            },
            None => {
                &&& step.room.sent() == room.sent()
                &&& match decision.note {
                    Some(text) => step.note matches Some(note) && note@ == text@,
                    None => step.note is None,
                }
            },
        },
        match decision.enter {
            Some(to) => {
                &&& final(hub).joined() == old(hub).joined().push((to@, room@.client))
                &&& final(hub)@.dom() == old(hub)@.dom().insert(to@)
                &&& forall|other: Seq<char>| #[trigger]
                    old(hub)@.contains_key(other) ==> final(hub)@[other] == old(hub)@[other]
                &&& step.room@.name == to@
                &&& step.room@.client == room@.client
                &&& step.room@.publisher.client == room@.client
                &&& step.room@.publisher.room == final(hub)@[to@]
                &&& step.room@.inbox.client == room@.client
                &&& step.room@.inbox.channel == final(hub)@[to@].channel
            },
            None => {
                &&& final(hub).joined() == old(hub).joined()
                &&& final(hub)@ == old(hub)@
                &&& step.room@ == room@
            },
        },
        match decision.reply {
            Some(text) => step.reply matches Some(reply) && reply@ == text@,
            None => step.reply is None,
        },
        step.done == decision.done,
{
    switches_alone_move_the_client(room@, old(hub)@, event@, step.room@, final(hub)@);
    errors_alone_are_noted(event@, InputErrorView::EmptyInput, 0);
}

/// A step ends the session if the client typed the command to leave, if it is gone, or if its room
/// is closed; nothing else ends it, and in particular no message that is heard.
pub proof fn steps_end_a_session_for_three_reasons(
    room: JoinedRoom,
    hub: &mut ChatHub,
    event: SessionEvent,
    step: SessionStep,
)
    requires
        call_ensures(session_step, (room, hub, event), step),
    ensures
        step.done <==> {
            ||| event matches SessionEvent::Input(ClientInput::Leave)
            ||| event is Disconnected
            ||| event matches SessionEvent::RoomMessage(None)
        },
        event matches SessionEvent::RoomMessage(Some(_)) ==> !step.done,
{
}

/// Over a whole session, what is sent is the messages that are typed, each once, in order, word for
/// word, from the client and to the room that it is in at that point; nothing else is sent,
/// whatever is typed and heard besides. Step `i` is about `events[i]` in `rooms[i]`, and leaves the
/// client in `rooms[i + 1]`.
pub proof fn sessions_send_exactly_what_is_typed(
    rooms: Seq<JoinedRoom>,
    hubs: Seq<&mut ChatHub>,
    events: Seq<SessionEvent>,
    steps: Seq<SessionStep>,
)
    requires
        rooms.len() == steps.len() + 1,
        hubs.len() == steps.len(),
        events.len() == steps.len(),
        forall|i: int|
            0 <= i < steps.len() ==> {
                &&& call_ensures(session_step, (rooms[i], hubs[i], events[i]), #[trigger] steps[i])
                &&& rooms[i + 1] == steps[i].room
            },
    ensures
        rooms.last().sent().map_values(
            |sending: Sending| (sending.channel, sending.from, sending.text),
        ) == rooms[0].sent().map_values(
            |sending: Sending| (sending.channel, sending.from, sending.text),
        ) + rooms.drop_last().zip_with(events).filter(
            |found: (JoinedRoom, SessionEvent)| found.1 matches SessionEvent::Input(
                ClientInput::Message(_),
            ),
        ).map_values(
            |found: (JoinedRoom, SessionEvent)|
                (
                    found.0@.publisher.room.channel,
                    found.0@.publisher.client,
                    found.1->Input_0->Message_0@,
                ),
        ),
    decreases steps.len(),
{
    let parts = |sending: Sending| (sending.channel, sending.from, sending.text);
    let is_message = |found: (JoinedRoom, SessionEvent)|
        found.1 matches SessionEvent::Input(ClientInput::Message(_));
    let typed = |found: (JoinedRoom, SessionEvent)|
        (
            found.0@.publisher.room.channel,
            found.0@.publisher.client,
            found.1->Input_0->Message_0@,
        );
    let all = rooms.drop_last().zip_with(events);
    reveal(Seq::filter);
    if steps.len() > 0 {
        let last = steps.len() - 1;
        let earlier = rooms.drop_last().drop_last().zip_with(events.drop_last());
        assert forall|i: int| 0 <= i < last implies {
            &&& call_ensures(
                session_step,
                (rooms.drop_last()[i], hubs.drop_last()[i], events.drop_last()[i]),
                #[trigger] steps.drop_last()[i],
            )
            &&& rooms.drop_last()[i + 1] == steps.drop_last()[i].room
        } by {
            assert(steps.drop_last()[i] == steps[i]);
        }
        sessions_send_exactly_what_is_typed(
            rooms.drop_last(),
            hubs.drop_last(),
            events.drop_last(),
            steps.drop_last(),
        );
        let before = rooms[last].sent();
        let after = rooms.last().sent();
        let found = (rooms[last], events[last]);
        assert(rooms[last + 1] == steps[last].room);
        assert(all.drop_last() == earlier);
        assert(all.last() == found);
        if is_message(found) {
            assert(after == before.push(after.last()));
            assert(after.map_values(parts) == before.map_values(parts).push(typed(found)));
            assert(all.filter(is_message).map_values(typed) == earlier.filter(
                is_message,
            ).map_values(typed).push(typed(found)));
        } else {
            assert(after == before);
        }
    } else {
        assert(all == Seq::<(JoinedRoom, SessionEvent)>::empty());
    }
}

} // verus!
