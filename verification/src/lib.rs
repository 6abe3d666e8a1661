//! Verified core of a small line-based chat server.

pub mod channel;
pub mod client;
pub mod conduct;
pub mod connection;
pub mod hub;
pub mod inbox;
pub mod input;
pub mod laws;
pub mod message;
pub mod name;
pub mod publisher;
pub mod room;
pub mod session;
pub mod text;

pub use client::Client;
pub use hub::ChatHub;
pub use inbox::{Outcome, Reception, RoomInbox};
pub use input::{ClientInput, ParseInputError};
pub use message::Message;
pub use name::RoomName;
pub use publisher::{PublishError, RoomPublisher};
pub use room::{Room, RoomMembership};
