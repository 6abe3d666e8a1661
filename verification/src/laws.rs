//! What holds of the chat as a whole.

use vstd::prelude::*;
use crate::channel::send_reports;
use crate::hub::{joins, rooms_apart};
use crate::inbox::{
    deliveries, members_get_the_messages_of_others, messages_in, reception, Outcome, Reception,
};
use crate::input::{has_arguments, meaning, InputErrorView, InputView};
use crate::message::{Message, MessageView};
use crate::room::RoomView;
use crate::session::{
    ends_session, line_event, moves, notes, publishing_note, reply_to, seat, to_publish, went_out,
    EventView, JoinedView,
};
use crate::text::{
    is_trimmed, is_white_space, trimmed, trimmed_is_the_middle, trimming_drops_padding,
    trimming_is_idempotent,
};

verus! {

/// Whether all rooms in `before` are there in `after`, each with the channel that it had.
pub open spec fn keeps_rooms(
    before: Map<Seq<char>, RoomView>,
    after: Map<Seq<char>, RoomView>,
) -> bool {
    forall|name: Seq<char>| #[trigger]
        before.contains_key(name) ==> after.contains_key(name) && after[name] == before[name]
}

/// Whether the rooms come about one join after the other: the join of the room `names[i]` leads
/// from `rooms[i]` to `rooms[i + 1]`.
pub open spec fn is_history(
    rooms: Seq<Map<Seq<char>, RoomView>>,
    names: Seq<Seq<char>>,
) -> bool {
    &&& rooms.len() == names.len() + 1
    &&& forall|i: int| 0 <= i < names.len() ==> #[trigger] joins(rooms[i], rooms[i + 1], names[i])
}

/// A join keeps every room that there is, and keeps the rooms apart.
pub proof fn joining_keeps_rooms(
    before: Map<Seq<char>, RoomView>,
    after: Map<Seq<char>, RoomView>,
    name: Seq<char>,
)
    requires
        rooms_apart(before),
        joins(before, after, name),
    ensures
        keeps_rooms(before, after),
        rooms_apart(after),
        after.contains_key(name),
{
    if !before.contains_key(name) {
        assert(after.contains_key(name));
    }
}

/// Rooms are kept for good: a room that exists at one point of a history exists with the same
/// channel at every later one.
pub proof fn rooms_are_kept(
    rooms: Seq<Map<Seq<char>, RoomView>>,
    names: Seq<Seq<char>>,
    early: int,
    late: int,
)
    requires
        is_history(rooms, names),
        rooms_apart(rooms[0]),
        0 <= early <= late < rooms.len(),
    ensures
        keeps_rooms(rooms[early], rooms[late]),
        rooms_apart(rooms[late]),
    decreases late,
{
    if late > 0 {
        if early < late {
            rooms_are_kept(rooms, names, early, late - 1);
        } else {
            rooms_are_kept(rooms, names, 0, late - 1);
        }
        assert(joins(rooms[late - 1], rooms[late - 1 + 1], names[late - 1]));
        joining_keeps_rooms(rooms[late - 1], rooms[late], names[late - 1]);
    }
}

/// Two clients share a channel if and only if they have joined rooms of the same name, however
/// many joins there were before, between and after.
pub proof fn one_channel_for_each_room(
    rooms: Seq<Map<Seq<char>, RoomView>>,
    names: Seq<Seq<char>>,
    one: int,
    other: int,
)
    requires
        is_history(rooms, names),
        rooms_apart(rooms[0]),
        0 <= one < names.len(),
        0 <= other < names.len(),
    ensures
        rooms[one + 1][names[one]].channel == rooms[other + 1][names[other]].channel
            <==> names[one] == names[other],
{
    let last = rooms.len() - 1;
    rooms_are_kept(rooms, names, one, last);
    rooms_are_kept(rooms, names, one + 1, last);
    rooms_are_kept(rooms, names, other + 1, last);
    rooms_are_kept(rooms, names, 0, one);
    rooms_are_kept(rooms, names, 0, other);
    assert(joins(rooms[one], rooms[one + 1], names[one]));
    assert(joins(rooms[other], rooms[other + 1], names[other]));
    joining_keeps_rooms(rooms[one], rooms[one + 1], names[one]);
    joining_keeps_rooms(rooms[other], rooms[other + 1], names[other]);
    assert(rooms[one + 1].contains_key(names[one]));
    assert(rooms[other + 1].contains_key(names[other]));
    assert(rooms[last][names[one]] == rooms[one + 1][names[one]]);
    assert(rooms[last][names[other]] == rooms[other + 1][names[other]]);
}

/// A message together with the room that it is published in.
pub struct Publication {
    pub room: Seq<char>,
    pub message: MessageView,
}

/// The messages that are sent on the channel of the room `name`, in order.
pub open spec fn sent_on_channel_of(
    rooms: Map<Seq<char>, RoomView>,
    name: Seq<char>,
    sent: Seq<Publication>,
) -> Seq<MessageView> {
    sent.filter(
        |publication: Publication| rooms[publication.room].channel == rooms[name].channel,
    ).map_values(|publication: Publication| publication.message)
}

/// A member of a room gets the messages that other clients publish in that room, in order: none
/// of its own, and none of another room.
///
/// `sent` is what is published in all rooms, leaving out what the channel of the room drops
/// before the member reads it; what the channel hands to the member are the messages sent on it.
pub proof fn members_get_what_others_publish_in_their_room(
    rooms: Map<Seq<char>, RoomView>,
    name: Seq<char>,
    client: Seq<char>,
    sent: Seq<Publication>,
    outcomes: Seq<Outcome>,
)
    requires
        rooms_apart(rooms),
        rooms.contains_key(name),
        forall|i: int| 0 <= i < sent.len() ==> rooms.contains_key((#[trigger] sent[i]).room),
        forall|i: int| 0 <= i < outcomes.len() ==> !(#[trigger] outcomes[i] is Closed),
        messages_in(outcomes).map_values(|message: Message| message@) == sent_on_channel_of(
            rooms,
            name,
            sent,
        ),
    ensures
        deliveries(client, outcomes).map_values(|message: Message| message@) == sent.filter(
            |publication: Publication|
                publication.room == name && publication.message.from != client,
        ).map_values(|publication: Publication| publication.message),
{
    let view = |message: Message| message@;
    let content = |publication: Publication| publication.message;
    let foreign = |message: MessageView| message.from != client;
    let on_channel = |publication: Publication|
        rooms[publication.room].channel == rooms[name].channel;
    let others = |message: Message| message@.from != client;
    let by_others = |publication: Publication| publication.message.from != client;
    let both = |publication: Publication|
        publication.room == name && publication.message.from != client;

    members_get_the_messages_of_others(client, outcomes);
    lemma_filter_of_map(messages_in(outcomes), view, foreign, others);
    lemma_filter_of_map(sent.filter(on_channel), content, foreign, by_others);
    lemma_filter_of_filter(sent, on_channel, by_others, both);
}

/// Whether `room` is a place in one of the rooms that there are.
pub open spec fn is_seated(room: JoinedView, rooms: Map<Seq<char>, RoomView>) -> bool {
    &&& rooms.contains_key(room.name)
    &&& room == seat(rooms, room.name, room.client)
}

/// Whatever happens in a session, the client stays who it is, and publishes and receives in the
/// one room that it is in.
pub proof fn sessions_stay_seated(
    room: JoinedView,
    rooms: Map<Seq<char>, RoomView>,
    event: EventView,
    next_room: JoinedView,
    next_rooms: Map<Seq<char>, RoomView>,
)
    requires
        rooms_apart(rooms),
        is_seated(room, rooms),
        moves(room, rooms, event, next_room, next_rooms),
    ensures
        next_room.client == room.client,
        is_seated(next_room, next_rooms),
        rooms_apart(next_rooms),
        keeps_rooms(rooms, next_rooms),
{
    if let EventView::Input(InputView::Switch(to)) = event {
        if to != room.name {
            joining_keeps_rooms(rooms, next_rooms, to);
        }
    }
}

/// What others do to the rooms does not concern a client in its room.
pub proof fn seats_outlast_the_joins_of_others(
    room: JoinedView,
    rooms: Map<Seq<char>, RoomView>,
    later_rooms: Map<Seq<char>, RoomView>,
)
    requires
        is_seated(room, rooms),
        keeps_rooms(rooms, later_rooms),
    ensures
        is_seated(room, later_rooms),
{
}

/// A whole session, among others that go on at the same time: event `i` finds the client in
/// `places[i]` and the rooms `found[i]`, and leaves it in `places[i + 1]` and the rooms
/// `left[i]`. Between two events others may join rooms. An event that ends the session is the last
/// one.
pub open spec fn is_session(
    places: Seq<JoinedView>,
    events: Seq<EventView>,
    found: Seq<Map<Seq<char>, RoomView>>,
    left: Seq<Map<Seq<char>, RoomView>>,
) -> bool {
    &&& places.len() == events.len() + 1
    &&& found.len() == events.len()
    &&& left.len() == events.len()
    &&& forall|i: int|
        0 <= i < events.len() ==> #[trigger] moves(
            places[i],
            found[i],
            events[i],
            places[i + 1],
            left[i],
        )
    &&& forall|i: int| 0 <= i < events.len() ==> rooms_apart(#[trigger] found[i])
    &&& forall|i: int|
        0 <= i < events.len() - 1 ==> keeps_rooms(#[trigger] left[i], found[i + 1])
    &&& forall|i: int| 0 <= i < events.len() - 1 ==> !ends_session(#[trigger] events[i])
}

/// Over a whole session the client keeps its name, and each event finds it with both of its
/// capabilities in one room.
pub proof fn whole_sessions_stay_seated(
    places: Seq<JoinedView>,
    events: Seq<EventView>,
    found: Seq<Map<Seq<char>, RoomView>>,
    left: Seq<Map<Seq<char>, RoomView>>,
    i: int,
)
    requires
        is_session(places, events, found, left),
        events.len() > 0,
        is_seated(places[0], found[0]),
        0 <= i < events.len(),
    ensures
        places[i].client == places[0].client,
        is_seated(places[i], found[i]),
        places[i + 1].client == places[0].client,
        is_seated(places[i + 1], left[i]),
    decreases i,
{
    if i > 0 {
        whole_sessions_stay_seated(places, events, found, left, i - 1);
        assert(keeps_rooms(left[i - 1], found[i - 1 + 1]));
        seats_outlast_the_joins_of_others(places[i], left[i - 1], found[i]);
    }
    assert(rooms_apart(found[i]));
    assert(moves(places[i], found[i], events[i], places[i + 1], left[i]));
    sessions_stay_seated(places[i], found[i], events[i], places[i + 1], left[i]);
}

/// What is written to the client over a whole session: the replies, one after the other.
pub open spec fn written(places: Seq<JoinedView>, events: Seq<EventView>) -> Seq<char>
    decreases events.len(),
{
    if events.len() == 0 {
        seq![]
    } else {
        reply_text(places[0].name, events[0]) + written(places.drop_first(), events.drop_first())
    }
}

/// What is written to the client about an event in the room `name`.
pub open spec fn reply_text(name: Seq<char>, event: EventView) -> Seq<char> {
    match reply_to(name, event) {
        Some(reply) => reply,
        None => seq![],
    }
}

/// What is to be published over a whole session, by the decisions on its events.
pub open spec fn published(places: Seq<JoinedView>, events: Seq<EventView>) -> Seq<Publication>
    decreases events.len(),
{
    if events.len() == 0 {
        seq![]
    } else {
        posting(places[0].name, places[0].client, events[0]) + published(
            places.drop_first(),
            events.drop_first(),
        )
    }
}

/// What is to be published because of an event that finds `client` in the room `name`.
pub open spec fn posting(name: Seq<char>, client: Seq<char>, event: EventView) -> Seq<
    Publication,
> {
    match to_publish(event) {
        Some(text) => seq![
            Publication { room: name, message: MessageView { from: client, text } },
        ],
        None => seq![],
    }
}

/// The events of a session in which a client types `lines` and goes, and hears nothing from
/// others: those of the lines up to the first that ends the session, or else of all lines and of
/// the end.
pub open spec fn typed(lines: Seq<Seq<char>>) -> Seq<EventView>
    decreases lines.len(),
{
    if lines.len() == 0 {
        seq![EventView::Disconnected]
    } else if lines[0] == "/leave"@ {
        seq![EventView::Input(InputView::Leave)]
    } else {
        seq![line_event(lines[0])] + typed(lines.drop_first())
    }
}

/// The room that a client in the room `name` is in after typing a line.
pub open spec fn room_after(name: Seq<char>, line: Seq<char>) -> Seq<char> {
    match meaning(line) {
        Ok(InputView::Switch(to)) => to,
        _ => name,
    }
}

/// The answer to a line that is typed in the room `name`.
pub open spec fn answer(name: Seq<char>, line: Seq<char>) -> Seq<char> {
    match meaning(line) {
        Ok(InputView::Message(_)) => seq![],
        Ok(InputView::Leave) => "left room "@ + name + "\n"@,
        Ok(InputView::Switch(to)) => if to == name {
            "already in room "@ + to + "\n"@
        } else {
            "switched to room "@ + to + "\n"@
        },
        Err(_) => "error: invalid input\n"@,
    }
}

/// The answers to `lines`, typed in the room `name` one after the other, up to and including the
/// one to the first `/leave`.
pub open spec fn answers(name: Seq<char>, lines: Seq<Seq<char>>) -> Seq<char>
    decreases lines.len(),
{
    if lines.len() == 0 {
        seq![]
    } else if lines[0] == "/leave"@ {
        answer(name, lines[0])
    } else {
        answer(name, lines[0]) + answers(room_after(name, lines[0]), lines.drop_first())
    }
}

/// The messages among `lines`, typed by `client` in the room `name` one after the other, up to the
/// first `/leave`, each with the room that the client is in at that point.
pub open spec fn said(name: Seq<char>, client: Seq<char>, lines: Seq<Seq<char>>) -> Seq<Publication>
    decreases lines.len(),
{
    if lines.len() == 0 || lines[0] == "/leave"@ {
        seq![]
    } else {
        let rest = said(room_after(name, lines[0]), client, lines.drop_first());
        match meaning(lines[0]) {
            Ok(InputView::Message(text)) => seq![
                Publication { room: name, message: MessageView { from: client, text } },
            ] + rest,
            _ => rest,
        }
    }
}

/// The lines before the first `/leave`.
pub open spec fn before_leave(lines: Seq<Seq<char>>) -> Seq<Seq<char>>
    decreases lines.len(),
{
    if lines.len() == 0 || lines[0] == "/leave"@ {
        seq![]
    } else {
        seq![lines[0]] + before_leave(lines.drop_first())
    }
}

/// In a session in which nothing is heard from others, what is written is the answers to the typed
/// lines, up to the first `/leave`, and nothing more; what is to be published is the messages among
/// the lines before it, each in the room that the client is in when it types it, and nothing more.
pub proof fn sessions_answer_and_publish_what_is_typed(
    places: Seq<JoinedView>,
    lines: Seq<Seq<char>>,
    found: Seq<Map<Seq<char>, RoomView>>,
    left: Seq<Map<Seq<char>, RoomView>>,
)
    requires
        is_session(places, typed(lines), found, left),
    ensures
        written(places, typed(lines)) == answers(places[0].name, lines),
        published(places, typed(lines)) == said(places[0].name, places[0].client, lines),
    decreases lines.len(),
{
    let events = typed(lines);
    reveal_with_fuel(written, 2);
    reveal_with_fuel(published, 2);
    if lines.len() == 0 {
        assert(events.drop_first() == Seq::<EventView>::empty());
    } else if lines[0] == "/leave"@ {
        only_leaving_ends_a_session(lines[0]);
        lines_have_one_meaning(lines[0]);
        assert(events.drop_first() == Seq::<EventView>::empty());
    } else {
        let rest = lines.drop_first();
        lemma_session_rest(places, events, found, left);
        assert(events.drop_first() == typed(rest));
        sessions_answer_and_publish_what_is_typed(
            places.drop_first(),
            rest,
            found.drop_first(),
            left.drop_first(),
        );
        assert(moves(places[0], found[0], events[0], places[1], left[0]));
        lines_have_one_meaning(lines[0]);
        assert(events[0] == line_event(lines[0]));
        assert(places.drop_first()[0].name == room_after(places[0].name, lines[0]));
        assert(places.drop_first()[0].client == places[0].client);
        assert(reply_text(places[0].name, events[0]) == answer(places[0].name, lines[0]));
    }
}

proof fn lemma_session_rest(
    places: Seq<JoinedView>,
    events: Seq<EventView>,
    found: Seq<Map<Seq<char>, RoomView>>,
    left: Seq<Map<Seq<char>, RoomView>>,
)
    requires
        is_session(places, events, found, left),
        events.len() > 0,
    ensures
        is_session(
            places.drop_first(),
            events.drop_first(),
            found.drop_first(),
            left.drop_first(),
        ),
{
    let later_places = places.drop_first();
    let later_events = events.drop_first();
    let later_found = found.drop_first();
    let later_left = left.drop_first();
    assert forall|i: int| 0 <= i < later_events.len() implies #[trigger] moves(
        later_places[i],
        later_found[i],
        later_events[i],
        later_places[i + 1],
        later_left[i],
    ) by {
        assert(moves(places[i + 1], found[i + 1], events[i + 1], places[i + 1 + 1], left[i + 1]));
    }
    assert forall|i: int| 0 <= i < later_events.len() implies rooms_apart(
        #[trigger] later_found[i],
    ) by {
        assert(later_found[i] == found[i + 1]);
    }
    assert forall|i: int| 0 <= i < later_events.len() - 1 implies keeps_rooms(
        #[trigger] later_left[i],
        later_found[i + 1],
    ) by {
        assert(keeps_rooms(left[i + 1], found[i + 1 + 1]));
    }
    assert forall|i: int| 0 <= i < later_events.len() - 1 implies !ends_session(
        #[trigger] later_events[i],
    ) by {
        assert(!ends_session(events[i + 1]));
    }
}

/// What a client says are its lines without a leading slash before the first `/leave`, word for
/// word and in order, all under its own name: commands, invalid lines and what comes after
/// `/leave` are not among it.
pub proof fn clients_say_their_plain_lines(
    name: Seq<char>,
    client: Seq<char>,
    lines: Seq<Seq<char>>,
)
    ensures
        said(name, client, lines).map_values(|publication: Publication| publication.message.text)
            == before_leave(lines).filter(|line: Seq<char>| line.len() > 0 && line[0] != '/'),
        forall|i: int|
            0 <= i < said(name, client, lines).len() ==> (#[trigger] said(
                name,
                client,
                lines,
            )[i]).message.from == client,
    decreases lines.len(),
{
    let plain = |line: Seq<char>| line.len() > 0 && line[0] != '/';
    let text = |publication: Publication| publication.message.text;
    if lines.len() == 0 || lines[0] == "/leave"@ {
        reveal(Seq::filter);
        assert(said(name, client, lines).map_values(text) == before_leave(lines).filter(plain));
    } else {
        let rest = lines.drop_first();
        let after = room_after(name, lines[0]);
        clients_say_their_plain_lines(after, client, rest);
        let all = said(name, client, lines);
        let tail = said(after, client, rest);
        lemma_filter_first(lines[0], before_leave(rest), plain);
        if plain(lines[0]) {
            plain_lines_are_messages(lines[0], name);
            assert(all.map_values(text) == seq![lines[0]] + tail.map_values(text));
            assert forall|i: int| 0 <= i < all.len() implies (#[trigger] all[i]).message.from
                == client by {
                if i > 0 {
                    assert(all[i] == tail[i - 1]);
                }
            }
        } else {
            assert(all == tail);
        }
    }
}

/// Whatever is typed after a `/leave` makes no difference to a session.
pub proof fn nothing_follows_a_leave(before: Seq<Seq<char>>, after: Seq<Seq<char>>)
    ensures
        typed(before.push("/leave"@) + after) == typed(before.push("/leave"@)),
    decreases before.len(),
{
    let all = before.push("/leave"@) + after;
    if before.len() > 0 {
        nothing_follows_a_leave(before.drop_first(), after);
        assert(all.drop_first() == before.drop_first().push("/leave"@) + after);
        assert(before.push("/leave"@).drop_first() == before.drop_first().push("/leave"@));
        assert(all[0] == before[0]);
    } else {
        assert(all[0] == "/leave"@);
    }
}

/// Whether all messages that a session hears of are such as `JoinedRoom::receive` lets through at
/// that point.
pub open spec fn hears_its_inbox(places: Seq<JoinedView>, events: Seq<EventView>) -> bool {
    forall|i: int|
        0 <= i < events.len() ==> (#[trigger] events[i] matches EventView::RoomMessage(
            Some(message),
        ) ==> exists|outcome: Outcome|
            {
                &&& #[trigger] reception(places[i].inbox.client, outcome) is Message
                &&& reception(places[i].inbox.client, outcome)->Message_0@ == message
            })
}

/// Over a whole session, with whatever is heard in it, no message of the client is written back to
/// it.
pub proof fn clients_never_hear_themselves(
    places: Seq<JoinedView>,
    events: Seq<EventView>,
    found: Seq<Map<Seq<char>, RoomView>>,
    left: Seq<Map<Seq<char>, RoomView>>,
    i: int,
)
    requires
        is_session(places, events, found, left),
        hears_its_inbox(places, events),
        0 <= i < events.len(),
        is_seated(places[0], found[0]),
    ensures
        events[i] matches EventView::RoomMessage(Some(message)) ==> message.from
            != places[0].client,
{
    whole_sessions_stay_seated(places, events, found, left, i);
    if let EventView::RoomMessage(Some(message)) = events[i] {
        let outcome = choose|outcome: Outcome|
            {
                &&& #[trigger] reception(places[i].inbox.client, outcome) is Message
                &&& reception(places[i].inbox.client, outcome)->Message_0@ == message
            };
        assert(reception(places[i].inbox.client, outcome) is Message);
    }
}

/// Over a whole session, with whatever is heard in it, what is to be published is exactly the
/// messages that the client types, in order and under its own name.
pub proof fn sessions_publish_exactly_the_typed_messages(
    places: Seq<JoinedView>,
    events: Seq<EventView>,
    found: Seq<Map<Seq<char>, RoomView>>,
    left: Seq<Map<Seq<char>, RoomView>>,
)
    requires
        is_session(places, events, found, left),
    ensures
        published(places, events).map_values(|publication: Publication| publication.message)
            == messages_typed(places[0].client, events),
    decreases events.len(),
{
    let content = |publication: Publication| publication.message;
    if events.len() > 0 {
        lemma_session_rest(places, events, found, left);
        sessions_publish_exactly_the_typed_messages(
            places.drop_first(),
            events.drop_first(),
            found.drop_first(),
            left.drop_first(),
        );
        assert(moves(places[0], found[0], events[0], places[1], left[0]));
        assert(places.drop_first()[0].client == places[0].client);
        let rest = published(places.drop_first(), events.drop_first());
        let first = posting(places[0].name, places[0].client, events[0]);
        assert((first + rest).map_values(content) == first.map_values(content) + rest.map_values(
            content,
        ));
        assert(first.map_values(content) == match to_publish(events[0]) {
            Some(text) => seq![MessageView { from: places[0].client, text }],
            None => Seq::<MessageView>::empty(),
        });
    }
}

/// The messages that are typed in the course of some events.
pub open spec fn messages_typed(client: Seq<char>, events: Seq<EventView>) -> Seq<MessageView>
    decreases events.len(),
{
    if events.len() == 0 {
        seq![]
    } else {
        let rest = messages_typed(client, events.drop_first());
        match events[0] {
            EventView::Input(InputView::Message(text)) => seq![
                MessageView { from: client, text },
            ] + rest,
            _ => rest,
        }
    }
}

/// What an event has published goes to the room that the publication names, under the name that it
/// bears: these are the room and the client of the publisher that the client has there.
pub proof fn publications_go_to_their_room(
    room: JoinedView,
    rooms: Map<Seq<char>, RoomView>,
    event: EventView,
    i: int,
)
    requires
        is_seated(room, rooms),
        0 <= i < posting(room.name, room.client, event).len(),
    ensures
        ({
            let publication = posting(room.name, room.client, event)[i];
            &&& rooms.contains_key(publication.room)
            &&& room.publisher.room == rooms[publication.room]
            &&& room.publisher.client == publication.message.from
            &&& to_publish(event) == Some(publication.message.text)
        }),
{
}

/// A switch to another room replaces the old room by the new one altogether: both capabilities of
/// the client are on another channel than before.
pub proof fn switching_replaces_the_room(
    room: JoinedView,
    rooms: Map<Seq<char>, RoomView>,
    to: Seq<char>,
    next_room: JoinedView,
    next_rooms: Map<Seq<char>, RoomView>,
)
    requires
        rooms_apart(rooms),
        is_seated(room, rooms),
        to != room.name,
        moves(room, rooms, EventView::Input(InputView::Switch(to)), next_room, next_rooms),
    ensures
        next_room == seat(next_rooms, to, room.client),
        next_room.inbox.channel != room.inbox.channel,
        next_room.publisher.room.channel != room.publisher.room.channel,
{
    joining_keeps_rooms(rooms, next_rooms, to);
    assert(next_rooms[to].channel != next_rooms[room.name].channel);
}

/// A switch to the room that the client is in changes nothing but to be acknowledged.
pub proof fn switching_to_the_current_room_is_a_no_op(
    room: JoinedView,
    rooms: Map<Seq<char>, RoomView>,
    next_room: JoinedView,
    next_rooms: Map<Seq<char>, RoomView>,
)
    requires
        moves(room, rooms, EventView::Input(InputView::Switch(room.name)), next_room, next_rooms),
    ensures
        next_room == room,
        next_rooms == rooms,
        reply_to(room.name, EventView::Input(InputView::Switch(room.name))) == Some(
            "already in room "@ + room.name + "\n"@,
        ),
        !ends_session(EventView::Input(InputView::Switch(room.name))),
{
}

/// A line that asks for nothing is answered with an error and has nothing published, and the
/// session goes on as it was.
pub proof fn invalid_lines_change_nothing(
    line: Seq<char>,
    room: JoinedView,
    rooms: Map<Seq<char>, RoomView>,
    next_room: JoinedView,
    next_rooms: Map<Seq<char>, RoomView>,
)
    requires
        meaning(line) is Err,
        moves(room, rooms, line_event(line), next_room, next_rooms),
    ensures
        next_room == room,
        next_rooms == rooms,
        reply_to(room.name, line_event(line)) == Some("error: invalid input\n"@),
        to_publish(line_event(line)) is None,
        !ends_session(line_event(line)),
{
}

/// Of all lines that a client can type, one ends the session.
pub proof fn only_leaving_ends_a_session(line: Seq<char>)
    ensures
        ends_session(line_event(line)) <==> line == "/leave"@,
{
    reveal_strlit("/leave");
}

/// Everything that is written to a client during a session ends with a line end.
pub proof fn replies_are_lines(name: Seq<char>, event: EventView)
    ensures
        reply_to(name, event) matches Some(reply) ==> reply.len() > 0 && reply.last() == '\n',
{
    reveal_strlit("\n");
    reveal_strlit("error: invalid input\n");
    reveal_strlit("error: room closed\n");
}

/// A line that does not begin with a slash is a message, word for word, and is not answered.
pub proof fn plain_lines_are_messages(line: Seq<char>, name: Seq<char>)
    requires
        line.len() > 0,
    ensures
        line[0] != '/' <==> meaning(line) == Ok::<InputView, InputErrorView>(
            InputView::Message(line),
        ),
        meaning(line) is Ok && meaning(line)->Ok_0 is Message ==> line[0] != '/',
        line[0] != '/' ==> reply_to(name, line_event(line)) is None,
{
}

/// A message that a client types is sent to the room that the client is in, under the name of the
/// client and word for word; where no one is there to receive it, that is noted.
pub proof fn messages_are_sent_to_the_room(
    line: Seq<char>,
    room: JoinedView,
    rooms: Map<Seq<char>, RoomView>,
    note: Option<Seq<char>>,
)
    requires
        line.len() > 0,
        line[0] != '/',
        is_seated(room, rooms),
        notes(room, line_event(line), note),
    ensures
        note is None ==> went_out(rooms[room.name].channel, room.client, line),
        note is Some ==> {
            &&& note == publishing_note(None)
            &&& send_reports(rooms[room.name].channel, room.client, line, None)
        },
{
}

/// Every line means one thing: the order in which the commands are told apart does not matter.
pub proof fn lines_have_one_meaning(line: Seq<char>)
    ensures
        line.len() == 0 <==> meaning(line) == Err::<InputView, _>(InputErrorView::EmptyInput),
        line == "/leave"@ <==> meaning(line) == Ok::<_, InputErrorView>(InputView::Leave),
        has_arguments(line, "/leave"@) <==> meaning(line) == Err::<InputView, _>(
            InputErrorView::UnexpectedArguments,
        ),
        line == "/switch"@ || has_arguments(line, "/switch"@) && trimmed(
            line.skip("/switch"@.len() as int),
        ).len() == 0 <==> meaning(line) == Err::<InputView, _>(InputErrorView::MissingRoom),
        has_arguments(line, "/switch"@) && trimmed(line.skip("/switch"@.len() as int)).len() > 0
            <==> meaning(line) == Ok::<_, InputErrorView>(
            InputView::Switch(trimmed(line.skip("/switch"@.len() as int))),
        ),
        line.len() > 0 && line[0] == '/' && line != "/leave"@ && line != "/switch"@
            && !has_arguments(line, "/leave"@) && !has_arguments(line, "/switch"@) <==> meaning(
            line,
        ) == Err::<InputView, _>(InputErrorView::Unknown(line)),
{
    reveal_strlit("/leave");
    reveal_strlit("/switch");
    if has_arguments(line, "/leave"@) {
        assert(line[0] == "/leave"@[0]);
        assert(line[1] == "/leave"@[1]);
        assert(line[1] != "/switch"@[1]);
    }
    if has_arguments(line, "/switch"@) {
        assert(line[0] == "/switch"@[0]);
        assert(line[1] == "/switch"@[1]);
        assert(line[1] != "/leave"@[1]);
    }
}

/// The room that a switch goes to has a name, without white space around it.
pub proof fn switches_name_a_room(line: Seq<char>, room: Seq<char>)
    requires
        meaning(line) == Ok::<_, InputErrorView>(InputView::Switch(room)),
    ensures
        room.len() > 0,
        is_trimmed(room),
{
    let ends = trimmed_is_the_middle(line.skip("/switch"@.len() as int));
}

/// Every room that has a name can be switched to by it, whatever white space there is around the
/// name; white space within it is kept.
pub proof fn rooms_can_be_switched_to(before: Seq<char>, room: Seq<char>, after: Seq<char>)
    requires
        room.len() > 0,
        is_trimmed(room),
        before.len() > 0,
        forall|i: int| 0 <= i < before.len() ==> is_white_space(#[trigger] before[i]),
        forall|i: int| 0 <= i < after.len() ==> is_white_space(#[trigger] after[i]),
    ensures
        meaning("/switch"@ + before + room + after) == Ok::<_, InputErrorView>(
            InputView::Switch(room),
        ),
{
    reveal_strlit("/leave");
    reveal_strlit("/switch");
    let line = "/switch"@ + before + room + after;
    trimming_drops_padding(before, room, after);
    trimming_is_idempotent(room);
    assert(line.skip("/switch"@.len() as int) == before + room + after);
    assert(line[1] == 's');
    assert(line["/switch"@.len() as int] == before[0]);
    assert(line.len() > "/switch"@.len());
    assert("/switch"@.is_prefix_of(line));
}

proof fn lemma_filter_of_map<A, B>(
    s: Seq<A>,
    f: spec_fn(A) -> B,
    on_image: spec_fn(B) -> bool,
    on_item: spec_fn(A) -> bool,
)
    requires
        forall|a: A| #[trigger] on_item(a) == on_image(f(a)),
    ensures
        s.map_values(f).filter(on_image) == s.filter(on_item).map_values(f),
    decreases s.len(),
{
    reveal(Seq::filter);
    if s.len() > 0 {
        let rest = s.drop_last();
        lemma_filter_of_map(rest, f, on_image, on_item);
        assert(s.map_values(f).drop_last() == rest.map_values(f));
        assert(on_item(s.last()) == on_image(f(s.last())));
        assert(s.filter(on_item).map_values(f) == if on_item(s.last()) {
            rest.filter(on_item).map_values(f).push(f(s.last()))
        } else {
            rest.filter(on_item).map_values(f)
        });
    } else {
        assert(s.map_values(f).filter(on_image) == s.filter(on_item).map_values(f));
    }
}

proof fn lemma_filter_first<A>(a: A, s: Seq<A>, keep: spec_fn(A) -> bool)
    ensures
        (seq![a] + s).filter(keep) == if keep(a) {
            seq![a] + s.filter(keep)
        } else {
            s.filter(keep)
        },
    decreases s.len(),
{
    reveal(Seq::filter);
    let all = seq![a] + s;
    if s.len() > 0 {
        lemma_filter_first(a, s.drop_last(), keep);
        assert(all.drop_last() == seq![a] + s.drop_last());
        assert(all.last() == s.last());
        assert(all.filter(keep) == if keep(a) {
            seq![a] + s.filter(keep)
        } else {
            s.filter(keep)
        });
    } else {
        assert(all.drop_last() == s);
        assert(s.filter(keep) == Seq::<A>::empty());
        assert(all.drop_last().filter(keep) == Seq::<A>::empty());
        assert(all.last() == a);
    }
}

proof fn lemma_filter_of_filter<A>(
    s: Seq<A>,
    first: spec_fn(A) -> bool,
    then_also: spec_fn(A) -> bool,
    both: spec_fn(A) -> bool,
)
    requires
        forall|i: int|
            0 <= i < s.len() ==> #[trigger] both(s[i]) == (first(s[i]) && then_also(s[i])),
    ensures
        s.filter(first).filter(then_also) == s.filter(both),
    decreases s.len(),
{
    reveal(Seq::filter);
    if s.len() > 0 {
        let rest = s.drop_last();
        assert forall|i: int| 0 <= i < rest.len() implies #[trigger] both(rest[i]) == (first(
            rest[i],
        ) && then_also(rest[i])) by {
            assert(rest[i] == s[i]);
        }
        lemma_filter_of_filter(rest, first, then_also, both);
        assert(both(s[s.len() - 1]) == (first(s.last()) && then_also(s.last())));
        if first(s.last()) {
            assert(s.filter(first).drop_last() == rest.filter(first));
        }
    }
}

} // verus!
