//! Chat clients.

use vstd::prelude::*;
use vstd::std_specs::cmp::PartialEqSpecImpl;
use vstd::std_specs::convert::FromSpecImpl;
use crate::text::{is_trimmed, trimmed, trimming_is_idempotent};

verus! {

/// A client of the chat, known by its name. A name has no white space around it.
#[derive(Debug, Eq)]
pub struct Client(String);

impl View for Client {
    type V = Seq<char>;

    closed spec fn view(&self) -> Seq<char> {
        self.0@
    }
}

impl Client {
    #[verifier::type_invariant]
    spec fn has_plain_name(self) -> bool {
        is_trimmed(self.0@)
    }

    /// The name of the client.
    pub fn to_text(&self) -> (name: String)
        ensures
            name@ == self@,
            is_trimmed(self@),
    {
        proof {
            use_type_invariant(self);
        }
        self.0.clone()
    }
}

/// `from` is specified by the view of its result: the text of a `String` does not determine the
/// value, so there is no one value to name here.
impl FromSpecImpl<&str> for Client {
    open spec fn obeys_from_spec() -> bool {
        false
    }

    open spec fn from_spec(value: &str) -> Client {
        arbitrary()
    }
}

impl From<&str> for Client {
    /// The client whose name is `value` without the white space around it.
    fn from(value: &str) -> (client: Client)
        ensures
            client@ == trimmed(value@),
    {
        proof {
            trimming_is_idempotent(value@);
            trimming_is_idempotent(trimmed(value@));
        }
        Client(value.trim().to_owned())
    }
}

/// As for `&str`.
impl FromSpecImpl<String> for Client {
    open spec fn obeys_from_spec() -> bool {
        false
    }

    open spec fn from_spec(value: String) -> Client {
        arbitrary()
    }
}

impl From<String> for Client {
    /// The client whose name is `value` without the white space around it.
    fn from(value: String) -> (client: Client)
        ensures
            client@ == trimmed(value@),
    {
        Client::from(value.as_str())
    }
}

impl Clone for Client {
    fn clone(&self) -> (copy: Client)
        ensures
            copy == *self,
    {
        proof {
            use_type_invariant(self);
        }
        Client(self.0.clone())
    }
}

impl PartialEqSpecImpl for Client {
    open spec fn obeys_eq_spec() -> bool {
        true
    }

    open spec fn eq_spec(&self, other: &Client) -> bool {
        self@ == other@
    }
}

impl PartialEq for Client {
    fn eq(&self, other: &Client) -> (same: bool) {
        self.0 == other.0
    }
}

} // verus!
