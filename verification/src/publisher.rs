//! Publishing in a room.

use tokio::sync::broadcast;
use vstd::prelude::*;
use vstd::std_specs::convert::FromSpecImpl;
use crate::channel::{
    capacity_of, channel_of, clone_sender, send, send_error_text, send_reports, unsent, Outlet,
    Sending,
};
use crate::client::Client;
use crate::message::{Message, MessageView};
use crate::room::RoomView;

verus! {

/// Who publishes with a publisher, and where.
pub struct PublisherView {
    pub client: Seq<char>,
    pub room: RoomView,
}

/// The capability of a member to publish in a room.
#[derive(Debug)]
pub struct RoomPublisher {
    client: Client,
    sender: broadcast::Sender<Message>,
}

impl View for RoomPublisher {
    type V = PublisherView;

    closed spec fn view(&self) -> PublisherView {
        PublisherView {
            client: self.client@,
            room: RoomView {
                channel: channel_of(self.sender),
                capacity: capacity_of(self.sender),
            },
        }
    }
}

/// The error of publishing in a room that no one listens to.
#[derive(Debug)]
pub struct PublishError(broadcast::error::SendError<Message>);

impl View for PublishError {
    type V = MessageView;

    /// The message that was not published.
    closed spec fn view(&self) -> MessageView {
        MessageView { from: unsent(self.0).0, text: unsent(self.0).1 }
    }
}

/// The text of every `PublishError`.
pub open spec fn publish_error_text() -> Seq<char> {
    "PublishError: "@ + "channel closed"@
}

impl PublishError {
    /// The error as text.
    pub fn to_text(&self) -> (text: String)
        ensures
            text@ == publish_error_text(),
    {
        "PublishError: ".to_owned().concat(send_error_text(&self.0).as_str())
    }
}

impl FromSpecImpl<broadcast::error::SendError<Message>> for PublishError {
    open spec fn obeys_from_spec() -> bool {
        true
    }

    closed spec fn from_spec(value: broadcast::error::SendError<Message>) -> PublishError {
        PublishError(value)
    }
}

impl From<broadcast::error::SendError<Message>> for PublishError {
    fn from(value: broadcast::error::SendError<Message>) -> (error: PublishError)
        ensures
            error@ == (MessageView { from: unsent(value).0, text: unsent(value).1 }),
    {
        PublishError(value)
    }
}

/// The number of receivers that a message was published to.
pub open spec fn reach(result: Result<usize, PublishError>) -> Option<nat> {
    match result {
        Ok(reached) => Some(reached as nat),
        Err(_) => None,
    }
}

impl RoomPublisher {
    /// The publisher of `client` that sends with `sender`.
    pub(crate) fn new(client: Client, sender: broadcast::Sender<Message>) -> (publisher:
        RoomPublisher)
        ensures
            publisher@.client == client@,
            publisher@.room.channel == channel_of(sender),
            publisher@.room.capacity == capacity_of(sender),
    {
        RoomPublisher { client, sender }
    }

    /// Sends `text` to all members of the room. The result is the number of inboxes that there
    /// are, that of the publisher among them if it still has one.
    ///
    /// Left unsaid: that nothing is sent besides. The publisher is shared, so no record can be
    /// kept in it; `Poster::post` is the same on a publisher of one's own, and says it.
    pub fn publish(&self, text: String) -> (result: Result<usize, PublishError>)
        ensures
            send_reports(self@.room.channel, self@.client, text@, reach(result)),
            match result {
                Ok(reached) => reached > 0,
                Err(error) => error@ == (MessageView { from: self@.client, text: text@ }),
            },
    {
        let mut poster = self.clone().into_poster();
        poster.post(text)
    }

    /// The same capability, with a record of what is published.
    pub fn into_poster(self) -> (poster: Poster)
        ensures
            poster@ == self@,
            poster.sent() == Seq::<Sending>::empty(),
    {
        Poster { client: self.client, outlet: Outlet::new(self.sender) }
    }
}

/// The capability to publish in a room, with a record of all that is published with it.
#[derive(Debug)]
pub struct Poster {
    client: Client,
    outlet: Outlet,
}

impl View for Poster {
    type V = PublisherView;

    closed spec fn view(&self) -> PublisherView {
        PublisherView {
            client: self.client@,
            room: RoomView { channel: self.outlet.channel(), capacity: self.outlet.capacity() },
        }
    }
}

impl Poster {
    /// All that has been sent, in order.
    pub closed spec fn sent(self) -> Seq<Sending> {
        self.outlet.sent()
    }

    /// Goes over to another publisher and keeps the record.
    pub fn redirect(self, publisher: RoomPublisher) -> (poster: Poster)
        ensures
            poster@ == publisher@,
            poster.sent() == self.sent(),
    {
        let outlet = self.outlet.redirect(Outlet::new(publisher.sender));
        Poster { client: publisher.client, outlet }
    }

    /// Sends `text` to all members of the room: one message, and nothing else. The result is that
    /// of `RoomPublisher::publish`.
    pub fn post(&mut self, text: String) -> (result: Result<usize, PublishError>)
        ensures
            send_reports(old(self)@.room.channel, old(self)@.client, text@, reach(result)),
            match result {
                Ok(reached) => reached > 0,
                Err(error) => error@ == (MessageView { from: old(self)@.client, text: text@ }),
            },
            final(self)@ == old(self)@,
            final(self).sent() == old(self).sent().push(
                (Sending {
                    channel: old(self)@.room.channel,
                    from: old(self)@.client,
                    text: text@,
                    reached: match result {
                        Ok(reached) => Some(reached as nat),
                        Err(_) => None,
                    },
                }),
            ),
    {
        match send(&mut self.outlet, Message::new(self.client.clone(), text)) {
            Ok(reached) => Ok(reached),
            Err(error) => Err(PublishError::from(error)),
        }
    }
}

impl Clone for RoomPublisher {
    fn clone(&self) -> (copy: RoomPublisher)
        ensures
            copy@ == self@,
    {
        RoomPublisher { client: self.client.clone(), sender: clone_sender(&self.sender) }
    }
}

/// What is counted of a result, and what is said of an error.
pub proof fn results_are_counted(reached: usize, error: PublishError)
    ensures
        reach(Ok(reached)) == Some(reached as nat),
        reach(Err(error)) is None,
        publish_error_text() == "PublishError: channel closed"@,
{
    reveal_strlit("PublishError: ");
    reveal_strlit("channel closed");
    reveal_strlit("PublishError: channel closed");
}

} // verus!
