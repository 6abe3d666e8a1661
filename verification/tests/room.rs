use async_chat_server::{
    ChatHub, Client, Message, Outcome, Reception, Room, RoomInbox, RoomMembership, RoomName,
};
use tokio::sync::broadcast::error::{RecvError, TryRecvError};

/// The next message for the member, waiting for it.
fn wait_for_message(inbox: &mut RoomInbox) -> Option<Message> {
    loop {
        let outcome = match inbox.receiver.blocking_recv() {
            Ok(message) => Outcome::Message(message),
            Err(RecvError::Lagged(missed)) => Outcome::Lagged(missed),
            Err(RecvError::Closed) => Outcome::Closed,
        };
        match inbox.receive(outcome) {
            Reception::Again => continue,
            Reception::Message(message) => return Some(message),
            Reception::Closed => return None,
        }
    }
}

/// All that has arrived for the member by now.
fn arrived(inbox: &mut RoomInbox) -> Vec<String> {
    let mut texts = Vec::new();
    loop {
        let outcome = match inbox.receiver.try_recv() {
            Ok(message) => Outcome::Message(message),
            Err(TryRecvError::Lagged(missed)) => Outcome::Lagged(missed),
            Err(_) => return texts,
        };
        if let Reception::Message(message) = inbox.receive(outcome) {
            texts.push(message.to_text());
        }
    }
}

fn join_hub(hub: &mut ChatHub, room: &str, client: &str) -> RoomMembership {
    hub.join(RoomName::from(room), Client::from(client))
}

#[test]
fn room_inbox_skips_own_messages() {
    let room = Room::new();
    let (alice_publisher, mut alice_inbox) = room.join(Client::from("alice")).split();
    let (bob_publisher, _bob_inbox) = room.join(Client::from("bob")).split();

    alice_publisher.publish("own message".to_string()).unwrap();
    bob_publisher.publish("hello alice".to_string()).unwrap();

    let received = wait_for_message(&mut alice_inbox).unwrap();

    assert!(received.is_from(&Client::from("bob")));
    assert_eq!(received.text(), "hello alice");
}

#[test]
fn room_inbox_continues_after_lagging() {
    let room = Room::with_capacity(1);
    let (_, mut alice_inbox) = room.join(Client::from("alice")).split();
    let (bob_publisher, _bob_inbox) = room.join(Client::from("bob")).split();

    bob_publisher.publish("missed".to_string()).unwrap();
    bob_publisher.publish("latest".to_string()).unwrap();

    let received = wait_for_message(&mut alice_inbox).unwrap();

    assert!(received.is_from(&Client::from("bob")));
    assert_eq!(received.text(), "latest");
}

#[test]
fn rooms_retain_sixteen_messages() {
    let room = Room::new();
    let (_, mut alice_inbox) = room.join(Client::from("alice")).split();
    let (bob_publisher, _bob_inbox) = room.join(Client::from("bob")).split();
    for i in 0..18 {
        bob_publisher.publish(i.to_string()).unwrap();
    }

    let texts = arrived(&mut alice_inbox);

    assert_eq!(texts.len(), 16);
    assert_eq!(texts[0], "bob: 2");
    assert_eq!(texts[15], "bob: 17");
}

#[test]
fn channels_round_their_capacity_up() {
    let room = Room::with_capacity(3);
    let (_, mut alice_inbox) = room.join(Client::from("alice")).split();
    let (bob_publisher, _bob_inbox) = room.join(Client::from("bob")).split();
    for i in 0..6 {
        bob_publisher.publish(i.to_string()).unwrap();
    }

    assert_eq!(arrived(&mut alice_inbox), vec!["bob: 2", "bob: 3", "bob: 4", "bob: 5"]);
}

#[test]
fn inbox_judges_each_outcome() {
    let (_, inbox) = Room::new().join(Client::from("alice")).split();

    let own = Message::new(Client::from("alice"), "mine");
    assert!(matches!(inbox.receive(Outcome::Message(own)), Reception::Again));
    assert!(matches!(inbox.receive(Outcome::Lagged(3)), Reception::Again));
    assert!(matches!(inbox.receive(Outcome::Closed), Reception::Closed));
    let foreign = Message::new(Client::from("bob"), "yours");
    match inbox.receive(Outcome::Message(foreign)) {
        Reception::Message(message) => assert_eq!(message.to_text(), "bob: yours"),
        _ => panic!("the message is for the member"),
    }
}

#[test]
fn inbox_ends_with_the_room() {
    let room = Room::new();
    let (publisher, mut inbox) = room.join(Client::from("alice")).split();
    let other = room.join(Client::from("bob")).split().0;
    other.publish("bye".to_string()).unwrap();

    drop(room);
    drop(publisher);
    drop(other);

    assert_eq!(wait_for_message(&mut inbox).unwrap().to_text(), "bob: bye");
    assert!(wait_for_message(&mut inbox).is_none());
}

#[test]
fn publishing_counts_the_listeners() {
    let room = Room::new();
    let (alice_publisher, _alice_inbox) = room.join(Client::from("alice")).split();
    assert_eq!(alice_publisher.publish("one".to_string()).unwrap(), 1);

    let (_, mut bob_inbox) = room.join(Client::from("bob")).split();
    assert_eq!(alice_publisher.clone().publish(" two ".to_string()).unwrap(), 2);
    assert_eq!(arrived(&mut bob_inbox), vec!["alice:  two ".to_string()]);
}

#[test]
fn publishing_to_no_one_is_an_error() {
    let (publisher, inbox) = Room::new().join(Client::from("alice")).split();
    drop(inbox);

    let error = publisher.publish("anyone?".to_string()).unwrap_err();

    assert_eq!(error.to_text(), "PublishError: channel closed");
}

#[test]
fn members_joining_later_miss_earlier_messages() {
    let room = Room::new();
    let (alice_publisher, _alice_inbox) = room.join(Client::from("alice")).split();
    alice_publisher.publish("early".to_string()).unwrap();

    let (_, mut bob_inbox) = room.join(Client::from("bob")).split();
    alice_publisher.publish("late".to_string()).unwrap();

    assert_eq!(arrived(&mut bob_inbox), vec!["alice: late".to_string()]);
}

#[test]
fn hub_joins_the_same_room_by_name() {
    let mut hub = ChatHub::new();
    let (alice_publisher, mut alice_inbox) = join_hub(&mut hub, "rust", "alice").split();
    let (bob_publisher, mut bob_inbox) = join_hub(&mut hub, " rust\n", "bob").split();
    let (_, mut carol_inbox) = join_hub(&mut hub, "go", "carol").split();

    alice_publisher.publish("hello".to_string()).unwrap();
    bob_publisher.publish("hi".to_string()).unwrap();

    assert_eq!(arrived(&mut alice_inbox), vec!["bob: hi".to_string()]);
    assert_eq!(arrived(&mut bob_inbox), vec!["alice: hello".to_string()]);
    assert!(arrived(&mut carol_inbox).is_empty());
}

#[test]
fn hub_keeps_empty_rooms() {
    let mut hub = ChatHub::default();
    let (alice_publisher, alice_inbox) = join_hub(&mut hub, "rust", "alice").split();
    drop(alice_inbox);
    assert!(alice_publisher.publish("anyone?".to_string()).is_err());

    let (_, mut bob_inbox) = join_hub(&mut hub, "rust", "bob").split();
    alice_publisher.publish("hello".to_string()).unwrap();

    assert_eq!(arrived(&mut bob_inbox), vec!["alice: hello".to_string()]);
}

#[test]
fn hub_gives_every_room_its_own_channel() {
    let mut hub = ChatHub::new();
    let names = ["a", "b", "a", "c", "b", ""];
    let mut members = Vec::new();
    for (i, name) in names.iter().enumerate() {
        members.push(join_hub(&mut hub, name, &i.to_string()).split());
    }
    for (publisher, _) in &members {
        publisher.publish("x".to_string()).unwrap();
    }
    for i in 0..names.len() {
        let expected: Vec<String> = (0..names.len())
            .filter(|&j| j != i && names[j] == names[i])
            .map(|j| format!("{j}: x"))
            .collect();
        assert_eq!(arrived(&mut members[i].1), expected);
    }
}

#[test]
fn clients_of_the_same_name_do_not_see_each_other() {
    let mut hub = ChatHub::new();
    let (publisher, _inbox) = join_hub(&mut hub, "rust", "alice").split();
    let (_, mut namesake_inbox) = join_hub(&mut hub, "rust", " alice ").split();
    let (_, mut bob_inbox) = join_hub(&mut hub, "rust", "bob").split();

    assert_eq!(publisher.publish("hello".to_string()).unwrap(), 3);

    assert!(arrived(&mut namesake_inbox).is_empty());
    assert_eq!(arrived(&mut bob_inbox), vec!["alice: hello".to_string()]);
}
