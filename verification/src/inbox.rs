//! Receiving what others publish in a room.

use tokio::sync::broadcast;
use vstd::prelude::*;
use crate::channel::source_of;
use crate::client::Client;
use crate::message::Message;

verus! {

/// Who receives with an inbox, and from which channel.
pub struct InboxView {
    pub client: Seq<char>,
    pub channel: int,
}

/// The capability of a member to receive what others publish in a room.
#[derive(Debug)]
pub struct RoomInbox {
    client: Client,
    /// Where the outcomes come from that `receive` judges.
    pub receiver: broadcast::Receiver<Message>,
}

impl View for RoomInbox {
    type V = InboxView;

    closed spec fn view(&self) -> InboxView {
        InboxView { client: self.client@, channel: source_of(self.receiver) }
    }
}

/// What waiting for the next message of a channel comes to.
#[derive(Debug)]
pub enum Outcome {
    /// A message.
    Message(Message),
    /// The receiver was too slow, and this many messages are lost to it.
    Lagged(u64),
    /// There will be no more messages.
    Closed,
}

/// What an inbox makes of an outcome.
#[derive(Debug)]
pub enum Reception {
    /// There is nothing in it for the member; wait for the next outcome.
    Again,
    /// A message for the member.
    Message(Message),
    /// The room is closed.
    Closed,
}

/// What the inbox of `client` makes of an outcome: it passes over what the client said itself and
/// over lost messages.
pub open spec fn reception(client: Seq<char>, outcome: Outcome) -> Reception {
    match outcome {
        Outcome::Message(message) => if message@.from == client {
            Reception::Again
        } else {
            Reception::Message(message)
        },
        Outcome::Lagged(_) => Reception::Again,
        Outcome::Closed => Reception::Closed,
    }
}

impl RoomInbox {
    /// The inbox of `client` that listens with `receiver`.
    pub(crate) fn new(client: Client, receiver: broadcast::Receiver<Message>) -> (inbox: RoomInbox)
        ensures
            inbox@ == (InboxView { client: client@, channel: source_of(receiver) }),
    {
        RoomInbox { client, receiver }
    }

    /// Judges one outcome of `receiver`.
    pub fn receive(&self, outcome: Outcome) -> (result: Reception)
        ensures
            result == reception(self@.client, outcome),
    {
        match outcome {
            Outcome::Message(message) => if message.is_from(&self.client) {
                Reception::Again
            } else {
                Reception::Message(message)
            },
            Outcome::Lagged(_) => Reception::Again,
            Outcome::Closed => Reception::Closed,
        }
    }
}

/// The messages that a member gets to see, one call of `receive` after another, until the room is
/// closed.
pub open spec fn deliveries(client: Seq<char>, outcomes: Seq<Outcome>) -> Seq<Message>
    decreases outcomes.len(),
{
    if outcomes.len() == 0 {
        seq![]
    } else {
        match reception(client, outcomes.first()) {
            Reception::Again => deliveries(client, outcomes.drop_first()),
            Reception::Message(message) => seq![message] + deliveries(
                client,
                outcomes.drop_first(),
            ),
            Reception::Closed => seq![],
        }
    }
}

/// The messages among some outcomes.
pub open spec fn messages_in(outcomes: Seq<Outcome>) -> Seq<Message>
    decreases outcomes.len(),
{
    if outcomes.len() == 0 {
        seq![]
    } else {
        let rest = messages_in(outcomes.drop_last());
        match outcomes.last() {
            Outcome::Message(message) => rest.push(message),
            _ => rest,
        }
    }
}

/// As long as the room is open, a member gets every message that another client has published and
/// that was not lost, in order, and nothing else: in particular no message of their own.
pub proof fn members_get_the_messages_of_others(client: Seq<char>, outcomes: Seq<Outcome>)
    requires
        forall|i: int| 0 <= i < outcomes.len() ==> !(#[trigger] outcomes[i] is Closed),
    ensures
        deliveries(client, outcomes) == messages_in(outcomes).filter(
            |message: Message| message@.from != client,
        ),
    decreases outcomes.len(),
{
    let others = |message: Message| message@.from != client;
    reveal(Seq::filter);
    if outcomes.len() > 0 {
        let earlier = outcomes.drop_last();
        members_get_the_messages_of_others(client, earlier);
        lemma_deliveries_last(client, outcomes);
        if let Outcome::Message(message) = outcomes.last() {
            assert(messages_in(outcomes).drop_last() == messages_in(earlier));
        }
    }
}

/// No message reaches the client that published it.
pub proof fn members_never_get_their_own_messages(client: Seq<char>, outcomes: Seq<Outcome>)
    ensures
        forall|i: int|
            0 <= i < deliveries(client, outcomes).len() ==> (#[trigger] deliveries(
                client,
                outcomes,
            )[i])@.from != client,
    decreases outcomes.len(),
{
    if outcomes.len() > 0 {
        let rest = deliveries(client, outcomes.drop_first());
        members_never_get_their_own_messages(client, outcomes.drop_first());
        let all = deliveries(client, outcomes);
        assert forall|i: int| 0 <= i < all.len() implies (#[trigger] all[i])@.from != client by {
            if let Reception::Message(message) = reception(client, outcomes.first()) {
                assert(i > 0 ==> all[i] == rest[i - 1]);
            } else {
                assert(all[i] == rest[i]);
            }
        }
    }
}

/// What comes after the end of a room is not delivered.
pub proof fn nothing_is_delivered_after_the_end(
    client: Seq<char>,
    before: Seq<Outcome>,
    after: Seq<Outcome>,
)
    ensures
        deliveries(client, before.push(Outcome::Closed) + after) == deliveries(client, before),
    decreases before.len(),
{
    let all = before.push(Outcome::Closed) + after;
    if before.len() > 0 {
        nothing_is_delivered_after_the_end(client, before.drop_first(), after);
        assert(all.drop_first() == before.drop_first().push(Outcome::Closed) + after);
        assert(all.first() == before.first());
    } else {
        assert(all.first() == Outcome::Closed);
    }
}

/// Falling behind costs a member the messages that the channel has dropped and no other: the
/// report of it changes nothing in what is delivered.
pub proof fn lagging_loses_nothing_more(
    client: Seq<char>,
    before: Seq<Outcome>,
    missed: u64,
    after: Seq<Outcome>,
)
    ensures
        deliveries(client, before.push(Outcome::Lagged(missed)) + after) == deliveries(
            client,
            before + after,
        ),
    decreases before.len(),
{
    let all = before.push(Outcome::Lagged(missed)) + after;
    if before.len() > 0 {
        let rest = before.drop_first();
        lagging_loses_nothing_more(client, rest, missed, after);
        assert(all.drop_first() == rest.push(Outcome::Lagged(missed)) + after);
        assert((before + after).drop_first() == rest + after);
        assert(all.first() == before.first());
        assert((before + after).first() == before.first());
    } else {
        assert(all.first() == Outcome::Lagged(missed));
        assert(all.drop_first() == before + after);
    }
}

proof fn lemma_deliveries_last(client: Seq<char>, outcomes: Seq<Outcome>)
    requires
        outcomes.len() > 0,
        forall|i: int| 0 <= i < outcomes.len() ==> !(#[trigger] outcomes[i] is Closed),
    ensures
        deliveries(client, outcomes) == match reception(client, outcomes.last()) {
            Reception::Message(message) => deliveries(client, outcomes.drop_last()).push(message),
            _ => deliveries(client, outcomes.drop_last()),
        },
    decreases outcomes.len(),
{
    if outcomes.len() == 1 {
        reveal_with_fuel(deliveries, 2);
        assert(outcomes.drop_last() == Seq::<Outcome>::empty());
    } else {
        let rest = outcomes.drop_first();
        assert forall|i: int| 0 <= i < rest.len() implies !(#[trigger] rest[i] is Closed) by {
            assert(rest[i] == outcomes[i + 1]);
        }
        lemma_deliveries_last(client, rest);
        assert(rest.drop_last() == outcomes.drop_last().drop_first());
        assert(outcomes[0] == outcomes.first());
        assert(outcomes.drop_last().first() == outcomes.first());
        assert(rest.last() == outcomes.last());
    }
}

/// What an inbox makes of an outcome depends on one thing alone, whether a message is from its
/// own client: such a message is passed over, every other one is handed out as it is, a lag is
/// passed over and the end is reported.
pub proof fn inboxes_pass_over_their_own_client_alone(
    client: Seq<char>,
    message: Message,
    missed: u64,
)
    ensures
        message@.from == client ==> reception(client, Outcome::Message(message))
            == Reception::Again,
        message@.from != client ==> reception(client, Outcome::Message(message))
            == Reception::Message(message),
        reception(client, Outcome::Lagged(missed)) == Reception::Again,
        reception(client, Outcome::Closed) == Reception::Closed,
{
}

} // verus!
