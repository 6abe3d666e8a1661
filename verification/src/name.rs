//! Room names.

use vstd::prelude::*;
use vstd::std_specs::cmp::PartialEqSpecImpl;
use vstd::std_specs::convert::FromSpecImpl;
use crate::text::{is_trimmed, trimmed, trimming_is_idempotent};

verus! {

/// The name of a room. It has no white space around it.
#[derive(Debug, Eq, Hash)]
pub struct RoomName(String);

impl View for RoomName {
    type V = Seq<char>;

    closed spec fn view(&self) -> Seq<char> {
        self.0@
    }
}

impl RoomName {
    #[verifier::type_invariant]
    spec fn is_plain(self) -> bool {
        is_trimmed(self.0@)
    }

    /// The name as text.
    pub fn to_text(&self) -> (name: String)
        ensures
            name@ == self@,
            is_trimmed(self@),
    {
        proof {
            use_type_invariant(self);
        }
        self.0.clone()
    }
}

/// `from` is specified by the view of its result: the text of a `String` does not determine the
/// value, so there is no one value to name here.
impl FromSpecImpl<&str> for RoomName {
    open spec fn obeys_from_spec() -> bool {
        false
    }

    open spec fn from_spec(value: &str) -> RoomName {
        arbitrary()
    }
}

impl From<&str> for RoomName {
    /// The room name `value` without the white space around it.
    fn from(value: &str) -> (name: RoomName)
        ensures
            name@ == trimmed(value@),
    {
        proof {
            trimming_is_idempotent(value@);
            trimming_is_idempotent(trimmed(value@));
        }
        RoomName(value.trim().to_owned())
    }
}

/// As for `&str`.
impl FromSpecImpl<String> for RoomName {
    open spec fn obeys_from_spec() -> bool {
        false
    }

    open spec fn from_spec(value: String) -> RoomName {
        arbitrary()
    }
}

impl From<String> for RoomName {
    /// The room name `value` without the white space around it.
    fn from(value: String) -> (name: RoomName)
        ensures
            name@ == trimmed(value@),
    {
        RoomName::from(value.as_str())
    }
}

impl Clone for RoomName {
    fn clone(&self) -> (copy: RoomName)
        ensures
            copy == *self,
    {
        proof {
            use_type_invariant(self);
        }
        RoomName(self.0.clone())
    }
}

impl PartialEqSpecImpl for RoomName {
    open spec fn obeys_eq_spec() -> bool {
        true
    }

    open spec fn eq_spec(&self, other: &RoomName) -> bool {
        self@ == other@
    }
}

impl PartialEq for RoomName {
    fn eq(&self, other: &RoomName) -> (same: bool) {
        self.0 == other.0
    }
}

} // verus!
