//! Chat messages.

use vstd::prelude::*;
use crate::client::Client;

verus! {

/// Who says something, and what.
pub struct MessageView {
    pub from: Seq<char>,
    pub text: Seq<char>,
}

/// A chat message from one named client.
#[derive(Debug)]
pub struct Message {
    from: Client,
    text: String,
}

impl View for Message {
    type V = MessageView;

    closed spec fn view(&self) -> MessageView {
        MessageView { from: self.from@, text: self.text@ }
    }
}

/// How a message is shown to the clients of its room.
pub open spec fn rendered(message: MessageView) -> Seq<char> {
    message.from + ": "@ + message.text
}

impl Message {
    /// A message of `text` from the client `from`.
    pub fn new<S: Into<String>>(from: Client, text: S) -> (message: Message)
        ensures
            exists|owned: String|
                #[trigger] call_ensures(S::into, (text,), owned) && message@ == (MessageView {
                    from: from@,
                    text: owned@,
                }),
    {
        let owned: String = text.into();
        Message { from, text: owned }
    }

    /// Whether `client` is the sender.
    pub fn is_from(&self, client: &Client) -> (own: bool)
        ensures
            own == (self@.from == client@),
    {
        self.from == *client
    }

    /// What the message says.
    pub fn text(&self) -> (text: &str)
        ensures
            text@ == self@.text,
    {
        self.text.as_str()
    }

    /// The message as its readers see it: the sender, a colon and the text.
    pub fn to_text(&self) -> (text: String)
        ensures
            text@ == rendered(self@),
    {
        self.from.to_text().concat(": ").concat(self.text.as_str())
    }
}

impl Clone for Message {
    fn clone(&self) -> (copy: Message)
        ensures
            copy == *self,
    {
        Message { from: self.from.clone(), text: self.text.clone() }
    }
}

/// A message is shown whole: the name of its sender, a colon and a space, and its text word for
/// word, whatever their lengths.
pub proof fn messages_are_shown_whole(message: MessageView)
    ensures
        rendered(message).len() == message.from.len() + 2 + message.text.len(),
        rendered(message).take(message.from.len() as int) == message.from,
        rendered(message)[message.from.len() as int] == ':',
        rendered(message)[message.from.len() + 1int] == ' ',
        rendered(message).skip(message.from.len() + 2int) == message.text,
{
    reveal_strlit(": ");
}

} // verus!
