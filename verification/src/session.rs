//! The session of one client: what is done about each thing that happens in it.

use std::str::FromStr;
use vstd::prelude::*;
use crate::channel::{send_reports, Sending};
use crate::client::Client;
use crate::hub::{joins, joins_add_one_room_at_most, rooms_apart, ChatHub};
use crate::inbox::{reception, InboxView, Outcome, Reception, RoomInbox};
use crate::input::{
    input_error_text, meaning, ClientInput, InputErrorView, InputView, ParseInputError,
};
use crate::message::{messages_are_shown_whole, rendered, Message, MessageView};
use crate::name::RoomName;
use crate::publisher::{publish_error_text, reach, Poster, PublishError, PublisherView};
use crate::room::RoomView;

verus! {

/// Who is in which room, and with which capabilities.
pub struct JoinedView {
    pub name: Seq<char>,
    pub client: Seq<char>,
    pub publisher: PublisherView,
    pub inbox: InboxView,
}

/// A client in the room that it has joined.
#[derive(Debug)]
pub struct JoinedRoom {
    name: RoomName,
    client: Client,
    publisher: Poster,
    /// Where the messages of the others arrive.
    pub inbox: RoomInbox,
}

impl View for JoinedRoom {
    type V = JoinedView;

    closed spec fn view(&self) -> JoinedView {
        JoinedView {
            name: self.name@,
            client: self.client@,
            publisher: self.publisher@,
            inbox: self.inbox@,
        }
    }
}

/// The place of `client` in the room `name`: it publishes and receives there under its own name.
pub open spec fn seat(
    rooms: Map<Seq<char>, RoomView>,
    name: Seq<char>,
    client: Seq<char>,
) -> JoinedView {
    JoinedView {
        name,
        client,
        publisher: PublisherView { client, room: rooms[name] },
        inbox: InboxView { client, channel: rooms[name].channel },
    }
}

impl JoinedRoom {
    /// All that has been sent in the course of the session, in order.
    pub closed spec fn sent(self) -> Seq<Sending> {
        self.publisher.sent()
    }

    /// Has `client` join the room with the name `name`.
    pub fn join(hub: &mut ChatHub, name: RoomName, client: Client) -> (room: JoinedRoom)
        ensures
            rooms_apart(old(hub)@),
            rooms_apart(final(hub)@),
            joins(old(hub)@, final(hub)@, name@),
            final(hub)@.contains_key(name@),
            final(hub).joined() == old(hub).joined().push((name@, client@)),
            room@ == seat(final(hub)@, name@, client@),
            room.sent() == Seq::<Sending>::empty(),
    {
        let (publisher, inbox) = hub.join(name.clone(), client.clone()).split();
        JoinedRoom { name, client, publisher: publisher.into_poster(), inbox }
    }

    /// Gives up the room for the one with the name `name`.
    pub fn switch(self, hub: &mut ChatHub, name: RoomName) -> (room: JoinedRoom)
        ensures
            rooms_apart(old(hub)@),
            rooms_apart(final(hub)@),
            joins(old(hub)@, final(hub)@, name@),
            final(hub)@.contains_key(name@),
            final(hub).joined() == old(hub).joined().push((name@, self@.client)),
            room@ == seat(final(hub)@, name@, self@.client),
            room.sent() == self.sent(),
    {
        let (publisher, inbox) = hub.join(name.clone(), self.client.clone()).split();
        JoinedRoom {
            name,
            client: self.client,
            publisher: self.publisher.redirect(publisher),
            inbox,
        }
    }

    /// Judges one outcome of the receiver of the inbox.
    pub fn receive(&self, outcome: Outcome) -> (result: Reception)
        ensures
            result == reception(self@.inbox.client, outcome),
    {
        self.inbox.receive(outcome)
    }
}

/// Something that happens in a session.
pub enum SessionEvent {
    /// The client has typed something.
    Input(ClientInput),
    /// The client has typed something without meaning.
    InvalidInput(ParseInputError),
    /// The client is gone.
    Disconnected,
    /// A message of another client, or `None` when the room is closed.
    RoomMessage(Option<Message>),
}

/// The view of a `SessionEvent`.
pub enum EventView {
    Input(InputView),
    InvalidInput(InputErrorView),
    Disconnected,
    RoomMessage(Option<MessageView>),
}

impl View for SessionEvent {
    type V = EventView;

    open spec fn view(&self) -> EventView {
        match *self {
            SessionEvent::Input(input) => EventView::Input(input@),
            SessionEvent::InvalidInput(error) => EventView::InvalidInput(error@),
            SessionEvent::Disconnected => EventView::Disconnected,
            SessionEvent::RoomMessage(Some(message)) => EventView::RoomMessage(Some(message@)),
            SessionEvent::RoomMessage(None) => EventView::RoomMessage(None),
        }
    }
}

/// The event that a line of input is.
pub open spec fn line_event(line: Seq<char>) -> EventView {
    match meaning(line) {
        Ok(input) => EventView::Input(input),
        Err(error) => EventView::InvalidInput(error),
    }
}

/// The event of reading the next line, or of finding that there is none.
pub fn session_input(line: Option<String>) -> (event: SessionEvent)
    ensures
        event@ == match line {
            Some(line) => line_event(line@),
            None => EventView::Disconnected,
        },
{
    match line {
        Some(line) => match ClientInput::from_str(line.as_str()) {
            Ok(input) => SessionEvent::Input(input),
            Err(error) => SessionEvent::InvalidInput(error),
        },
        None => SessionEvent::Disconnected,
    }
}

/// What an event has published: the text of a typed message, and nothing for anything else.
pub open spec fn to_publish(event: EventView) -> Option<Seq<char>> {
    match event {
        EventView::Input(InputView::Message(text)) => Some(text),
        _ => None,
    }
}

/// The room to go to because of an event in the room `name`.
pub open spec fn to_enter(name: Seq<char>, event: EventView) -> Option<Seq<char>> {
    match event {
        EventView::Input(InputView::Switch(to)) => if to == name {
            None
        } else {
            Some(to)
        },
        _ => None,
    }
}

/// What is written to the client about an event in the room `name`.
pub open spec fn reply_to(name: Seq<char>, event: EventView) -> Option<Seq<char>> {
    match event {
        EventView::Input(InputView::Message(_)) => None,
        EventView::Input(InputView::Leave) => Some("left room "@ + name + "\n"@),
        EventView::Input(InputView::Switch(to)) => if to == name {
            Some("already in room "@ + to + "\n"@)
        } else {
            Some("switched to room "@ + to + "\n"@)
        },
        EventView::InvalidInput(_) => Some("error: invalid input\n"@),
        EventView::Disconnected => None,
        EventView::RoomMessage(Some(message)) => Some(rendered(message) + "\n"@),
        EventView::RoomMessage(None) => Some("error: room closed\n"@),
    }
}

/// What is noted about an event that has nothing published.
pub open spec fn to_note(event: EventView) -> Option<Seq<char>> {
    match event {
        EventView::InvalidInput(error) => Some(input_error_text(error)),
        _ => None,
    }
}

/// Whether an event ends the session.
pub open spec fn ends_session(event: EventView) -> bool {
    match event {
        EventView::Input(InputView::Leave) => true,
        EventView::Disconnected => true,
        EventView::RoomMessage(None) => true,
        _ => false,
    }
}

/// All that is to be done about an event.
#[derive(Debug)]
pub struct Decision {
    /// What to publish in the room.
    pub publish: Option<String>,
    /// The room to go to.
    pub enter: Option<RoomName>,
    /// What to write to the client.
    pub reply: Option<String>,
    /// What to note for whoever runs the server.
    pub note: Option<String>,
    /// Whether the session is over.
    pub done: bool,
}

/// The view of a `Decision`.
pub struct DecisionView {
    pub publish: Option<Seq<char>>,
    pub enter: Option<Seq<char>>,
    pub reply: Option<Seq<char>>,
    pub note: Option<Seq<char>>,
    pub done: bool,
}

/// The view of an optional text.
pub open spec fn text_view(text: Option<String>) -> Option<Seq<char>> {
    match text {
        Some(text) => Some(text@),
        None => None,
    }
}

impl View for Decision {
    type V = DecisionView;

    open spec fn view(&self) -> DecisionView {
        DecisionView {
            publish: text_view(self.publish),
            enter: match self.enter {
                Some(name) => Some(name@),
                None => None,
            },
            reply: text_view(self.reply),
            note: text_view(self.note),
            done: self.done,
        }
    }
}

/// What is to be done about an event in the room `name`.
pub open spec fn decision_on(name: Seq<char>, event: EventView) -> DecisionView {
    DecisionView {
        publish: to_publish(event),
        enter: to_enter(name, event),
        reply: reply_to(name, event),
        note: to_note(event),
        done: ends_session(event),
    }
}

impl Decision {
    /// To do nothing but write a reply, and to go on.
    fn answer(reply: String) -> (decision: Decision)
        ensures
            decision@ == (DecisionView {
                publish: None,
                enter: None,
                reply: Some(reply@),
                note: None,
                done: false,
            }),
    {
        Decision { publish: None, enter: None, reply: Some(reply), note: None, done: false }
    }
}

/// Decides about an event in the room `name`. It is given nothing to publish with and nothing to
/// join a room with; `session_step` does that, as it says here.
pub fn decide(name: &RoomName, event: SessionEvent) -> (decision: Decision)
    ensures
        decision@ == decision_on(name@, event@),
{
    match event {
        SessionEvent::Input(ClientInput::Message(text)) => Decision {
            publish: Some(text),
            enter: None,
            reply: None,
            note: None,
            done: false,
        },
        SessionEvent::Input(ClientInput::Leave) => Decision {
            done: true,
            ..Decision::answer(
                "left room ".to_owned().concat(name.to_text().as_str()).concat("\n"),
            )
        },
        SessionEvent::Input(ClientInput::Switch(to)) => {
            let there = to.to_text();
            if *name == to {
                Decision::answer("already in room ".to_owned().concat(there.as_str()).concat("\n"))
            } else {
                Decision {
                    enter: Some(to),
                    ..Decision::answer(
                        "switched to room ".to_owned().concat(there.as_str()).concat("\n"),
                    )
                }
            }
        },
        SessionEvent::InvalidInput(error) => Decision {
            note: Some(error.to_text()),
            ..Decision::answer("error: invalid input\n".to_owned())
        },
        SessionEvent::Disconnected => Decision {
            publish: None,
            enter: None,
            reply: None,
            note: None,
            done: true,
        },
        SessionEvent::RoomMessage(Some(message)) => Decision::answer(
            message.to_text().concat("\n"),
        ),
        SessionEvent::RoomMessage(None) => Decision {
            done: true,
            ..Decision::answer("error: room closed\n".to_owned())
        },
    }
}

/// What is noted about the publishing of a message that `reached` that many receivers.
pub open spec fn publishing_note(reached: Option<nat>) -> Option<Seq<char>> {
    match reached {
        Some(_) => None,
        None => Some("error publishing message: "@ + publish_error_text()),
    }
}

/// Whether a send of `text` from `client` on `channel` finds receivers.
pub open spec fn went_out(channel: int, client: Seq<char>, text: Seq<char>) -> bool {
    exists|reached: nat| #[trigger] send_reports(channel, client, text, Some(reached))
}

/// Whether `note` is what is noted about an event for whoever runs the server: where the event
/// has a text published, that and only that it found no one.
pub open spec fn notes(room: JoinedView, event: EventView, note: Option<Seq<char>>) -> bool {
    match to_publish(event) {
        Some(text) => {
            let channel = room.publisher.room.channel;
            let client = room.publisher.client;
            if note is None {
                went_out(channel, client, text)
            } else {
                &&& note == publishing_note(None)
                &&& send_reports(channel, client, text, None)
            }
        },
        None => note == to_note(event),
    }
}

/// Whether an event leads from one room to another, and from the rooms that there were to those
/// that there are: only a switch to another room changes anything.
pub open spec fn moves(
    room: JoinedView,
    rooms: Map<Seq<char>, RoomView>,
    event: EventView,
    next_room: JoinedView,
    next_rooms: Map<Seq<char>, RoomView>,
) -> bool {
    match to_enter(room.name, event) {
        Some(to) => {
            &&& joins(rooms, next_rooms, to)
            &&& next_rooms.contains_key(to)
            &&& next_room == seat(next_rooms, to, room.client)
        },
        None => next_room == room && next_rooms == rooms,
    }
}

/// What comes of an event.
#[derive(Debug)]
pub struct SessionStep {
    /// The room that the client is in afterwards.
    pub room: JoinedRoom,
    /// What to write to the client.
    pub reply: Option<String>,
    /// What to note for whoever runs the server.
    pub note: Option<String>,
    /// Whether the session is over.
    pub done: bool,
}

/// What to note about the result of publishing.
pub fn publishing_report(result: &Result<usize, PublishError>) -> (note: Option<String>)
    ensures
        text_view(note) == publishing_note(reach(*result)),
{
    match result {
        Ok(_) => None,
        Err(error) => Some(
            "error publishing message: ".to_owned().concat(error.to_text().as_str()),
        ),
    }
}

/// One step of a session: carries out what `decide` says about one event in the room `room`. The
/// text of a typed message is sent to the room, once; nothing else is sent.
pub fn session_step(room: JoinedRoom, hub: &mut ChatHub, event: SessionEvent) -> (step: SessionStep)
    ensures
        rooms_apart(old(hub)@),
        rooms_apart(final(hub)@),
        moves(room@, old(hub)@, event@, step.room@, final(hub)@),
        text_view(step.reply) == reply_to(room@.name, event@),
        notes(room@, event@, text_view(step.note)),
        step.done == ends_session(event@),
        match event@ {
            EventView::Input(InputView::Message(text)) => {
                &&& step.room.sent().len() == room.sent().len() + 1
                &&& step.room.sent().drop_last() == room.sent()
                &&& step.room.sent().last().channel == room@.publisher.room.channel
                &&& step.room.sent().last().from == room@.publisher.client
                &&& step.room.sent().last().text == text
                &&& step.note is None <==> step.room.sent().last().reached is Some
            },
            _ => step.room.sent() == room.sent(),
        },
        match event@ {
            EventView::Input(InputView::Switch(to)) => if to == room@.name {
                final(hub).joined() == old(hub).joined()
            } else {
                final(hub).joined() == old(hub).joined().push((to, room@.client))
            },
            _ => final(hub).joined() == old(hub).joined(),
        },
{
    proof {
        use_type_invariant(&*hub);
    }
    let mut room = room;
    let decision = decide(&room.name, event);
    let note = match decision.publish {
        Some(text) => {
            let result = room.publisher.post(text);
            proof {
                let to = room@.publisher;
                if let Ok(reached) = result {
                    assert(send_reports(to.room.channel, to.client, text@, Some(reached as nat)));
                    assert(went_out(to.room.channel, to.client, text@));
                }
            }
            publishing_report(&result)
        },
        None => decision.note,
    };
    assert(notes(room@, event@, text_view(note)));
    let room = match decision.enter {
        Some(to) => room.switch(hub, to),
        None => room,
    };
    SessionStep { room, reply: decision.reply, note, done: decision.done }
}

/// Three things end a session and nothing else does: to type the command to leave, to be gone, and
/// the end of the room. In particular no message that is heard ends it, whatever it says.
pub proof fn three_things_end_a_session(event: EventView, message: MessageView)
    ensures
        ends_session(event) <==> {
            ||| event == EventView::Input(InputView::Leave)
            ||| event == EventView::Disconnected
            ||| event == EventView::RoomMessage(None)
        },
        !ends_session(EventView::RoomMessage(Some(message))),
{
}

/// A typed message is published, whatever it says, and nothing else is.
pub proof fn typed_messages_alone_are_published(event: EventView, text: Seq<char>)
    ensures
        to_publish(event) == Some(text) <==> event == EventView::Input(InputView::Message(text)),
        to_publish(event) is Some <==> event is Input && event->Input_0 is Message,
{
}

/// A switch to a room of another name is made, whatever the name, and no other move is.
pub proof fn switches_alone_are_made(name: Seq<char>, event: EventView, to: Seq<char>)
    ensures
        to_enter(name, event) == Some(to) <==> {
            &&& event == EventView::Input(InputView::Switch(to))
            &&& to != name
        },
        to_enter(name, EventView::Input(InputView::Switch(name))) is None,
{
}

/// What is not heard is not answered: a typed message and the end of the connection have no reply.
/// A line without meaning and the end of the room have one each.
pub proof fn fixed_replies(name: Seq<char>, text: Seq<char>, error: InputErrorView)
    ensures
        reply_to(name, EventView::Input(InputView::Message(text))) is None,
        reply_to(name, EventView::Disconnected) is None,
        reply_to(name, EventView::InvalidInput(error)) == Some("error: invalid input\n"@),
        reply_to(name, EventView::RoomMessage(None)) == Some("error: room closed\n"@),
{
}

/// The reply to leaving has the whole name of the room that is left.
pub proof fn leaving_names_the_room(name: Seq<char>)
    ensures
        reply_to(name, EventView::Input(InputView::Leave)) matches Some(reply) && {
            &&& reply.len() == 10 + name.len() + 1
            &&& reply.take(10) == "left room "@
            &&& reply.subrange(10, 10int + name.len()) == name
            &&& reply.last() == '\n'
        },
{
    reveal_strlit("left room ");
    reveal_strlit("\n");
}

/// The reply to a switch has the whole name of the room that is switched to, and says whether the
/// client has been there already.
pub proof fn switching_names_the_room(name: Seq<char>, to: Seq<char>)
    ensures
        to == name ==> (reply_to(name, EventView::Input(InputView::Switch(to))) matches Some(reply)
            && {
            &&& reply.len() == 16 + to.len() + 1
            &&& reply.take(16) == "already in room "@
            &&& reply.subrange(16, 16int + to.len()) == to
            &&& reply.last() == '\n'
        }),
        to != name ==> (reply_to(name, EventView::Input(InputView::Switch(to))) matches Some(reply)
            && {
            &&& reply.len() == 17 + to.len() + 1
            &&& reply.take(17) == "switched to room "@
            &&& reply.subrange(17, 17int + to.len()) == to
            &&& reply.last() == '\n'
        }),
{
    reveal_strlit("already in room ");
    reveal_strlit("switched to room ");
    reveal_strlit("\n");
}

/// A message that is heard is written whole, in a line of its own: the name of its sender, a colon
/// and a space, its text word for word, and a line end, whatever their lengths.
pub proof fn heard_messages_are_written_whole(name: Seq<char>, message: MessageView)
    ensures
        reply_to(name, EventView::RoomMessage(Some(message))) matches Some(reply) && {
            &&& reply.len() == message.from.len() + 2 + message.text.len() + 1
            &&& reply.take(message.from.len() as int) == message.from
            &&& reply[message.from.len() as int] == ':'
            &&& reply[message.from.len() + 1int] == ' '
            &&& reply.subrange(
                message.from.len() + 2int,
                message.from.len() + 2int + message.text.len(),
            ) == message.text
            &&& reply.last() == '\n'
        },
{
    messages_are_shown_whole(message);
    reveal_strlit("\n");
    reveal_strlit(": ");
}

/// A line without meaning is noted with its error, and nothing else is noted but a message that
/// finds no one.
pub proof fn errors_alone_are_noted(event: EventView, error: InputErrorView, reached: nat)
    ensures
        to_note(EventView::InvalidInput(error)) == Some(input_error_text(error)),
        to_note(event) is Some <==> event is InvalidInput,
        publishing_note(Some(reached)) is None,
        publishing_note(None) == Some(
            "error publishing message: PublishError: channel closed"@,
        ),
{
    reveal_strlit("error publishing message: ");
    reveal_strlit("PublishError: ");
    reveal_strlit("channel closed");
    reveal_strlit("error publishing message: PublishError: channel closed");
}

/// What is noted about a step: of a typed message whether its one send found anyone, of a line
/// without meaning its error, and of anything else nothing.
pub proof fn notes_tell_of_errors(room: JoinedView, event: EventView, note: Option<Seq<char>>)
    requires
        notes(room, event, note),
    ensures
        event matches EventView::Input(InputView::Message(text)) ==> {
            ||| note is None && exists|reached: nat| #[trigger]
                send_reports(
                    room.publisher.room.channel,
                    room.publisher.client,
                    text,
                    Some(reached),
                )
            ||| {
                &&& note == Some("error publishing message: PublishError: channel closed"@)
                &&& send_reports(
                    room.publisher.room.channel,
                    room.publisher.client,
                    text,
                    None,
                )
            }
        },
        event matches EventView::InvalidInput(error) ==> note == Some(input_error_text(error)),
        !(event is InvalidInput) && !(event is Input && event->Input_0 is Message) ==> note is None,
{
    errors_alone_are_noted(event, InputErrorView::EmptyInput, 0);
}

/// A switch to a room of another name takes the client there with both capabilities, under the
/// same name, and keeps all rooms; whatever else happens, the client stays where it is, and so do
/// the rooms.
pub proof fn switches_alone_move_the_client(
    room: JoinedView,
    rooms: Map<Seq<char>, RoomView>,
    event: EventView,
    next_room: JoinedView,
    next_rooms: Map<Seq<char>, RoomView>,
)
    requires
        moves(room, rooms, event, next_room, next_rooms),
    ensures
        event matches EventView::Input(InputView::Switch(to)) ==> to != room.name ==> {
            &&& next_room.name == to
            &&& next_room.client == room.client
            &&& next_room.publisher.client == room.client
            &&& next_room.publisher.room == next_rooms[to]
            &&& next_room.inbox.client == room.client
            &&& next_room.inbox.channel == next_rooms[to].channel
            &&& next_rooms.dom() == rooms.dom().insert(to)
            &&& forall|other: Seq<char>| #[trigger]
                rooms.contains_key(other) ==> next_rooms[other] == rooms[other]
        },
        !(event is Input && event->Input_0 is Switch && event->Input_0->Switch_0 != room.name) ==> {
            &&& next_room == room
            &&& next_rooms == rooms
        },
{
    if let EventView::Input(InputView::Switch(to)) = event {
        if to != room.name {
            joins_add_one_room_at_most(rooms, next_rooms, to);
        }
    }
}

} // verus!
