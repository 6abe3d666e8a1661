use async_chat_server::session::{
    decide, publishing_report, session_input, session_step, JoinedRoom, SessionEvent,
};
use async_chat_server::{
    ChatHub, Client, ClientInput, Message, Outcome, ParseInputError, Reception, Room, RoomName,
};

/// A session that is driven by hand.
struct Driver {
    room: Option<JoinedRoom>,
    written: String,
    notes: Vec<String>,
}

impl Driver {
    fn join(hub: &mut ChatHub, room: &str, client: &str) -> Driver {
        let room = JoinedRoom::join(hub, RoomName::from(room), Client::from(client));
        Driver {
            room: Some(room),
            written: String::new(),
            notes: Vec::new(),
        }
    }

    /// Deals with one event, and says whether the session goes on.
    fn handle(&mut self, hub: &mut ChatHub, event: SessionEvent) -> bool {
        let step = session_step(self.room.take().unwrap(), hub, event);
        self.room = Some(step.room);
        self.written.push_str(step.reply.as_deref().unwrap_or(""));
        self.notes.extend(step.note);
        !step.done
    }

    /// Types all lines, unless the session ends before, and goes.
    fn type_lines(&mut self, hub: &mut ChatHub, lines: &str) {
        for line in lines.lines() {
            if !self.handle(hub, session_input(Some(line.to_string()))) {
                return;
            }
        }
        assert!(!self.handle(hub, session_input(None)));
    }

    /// The next message that has arrived for the client.
    fn next_message(&mut self) -> Option<Message> {
        let room = self.room.as_mut().unwrap();
        while let Ok(message) = room.inbox.receiver.try_recv() {
            if let Reception::Message(message) = room.receive(Outcome::Message(message)) {
                return Some(message);
            }
        }
        None
    }

    /// Has everything that has arrived written to the client.
    fn deliver(&mut self, hub: &mut ChatHub) {
        while let Some(message) = self.next_message() {
            assert!(self.handle(hub, SessionEvent::RoomMessage(Some(message))));
        }
    }
}

#[test]
fn joined_session_broadcasts_each_input_line() {
    let mut hub = ChatHub::new();
    let alice = Client::from("alice");
    let mut alices_session = Driver::join(&mut hub, "Room A", "alice");
    let mut bobs_session = Driver::join(&mut hub, "Room A", "bob");

    alices_session.type_lines(&mut hub, "hello\nworld\n");

    let first = bobs_session.next_message().unwrap();
    assert!(first.is_from(&alice));
    assert_eq!(first.text(), "hello");

    let second = bobs_session.next_message().unwrap();
    assert!(second.is_from(&alice));
    assert_eq!(second.text(), "world");

    assert!(bobs_session.next_message().is_none());
    assert_eq!(alices_session.written, "");
}

#[test]
fn joined_session_writes_messages_with_the_sender() {
    let mut hub = ChatHub::new();
    let mut alices_session = Driver::join(&mut hub, "Room A", "alice");
    let mut bobs_session = Driver::join(&mut hub, "Room A", "bob");

    bobs_session.handle(&mut hub, session_input(Some("hello".to_string())));
    alices_session.deliver(&mut hub);

    assert_eq!(alices_session.written, "bob: hello\n");
}

#[test]
fn session_leave_acknowledges_the_room_and_ends_the_session() {
    let mut hub = ChatHub::new();
    let mut session = Driver::join(&mut hub, "Room A", "alice");

    session.type_lines(&mut hub, "/leave\nmessage after leave\n");

    assert_eq!(session.written, "left room Room A\n");
    assert!(session.notes.is_empty());
}

#[test]
fn invalid_leave_reports_an_error_and_keeps_the_session_active() {
    let mut hub = ChatHub::new();
    let alice = Client::from("alice");
    let mut alices_session = Driver::join(&mut hub, "Room A", "alice");
    let mut bobs_session = Driver::join(&mut hub, "Room A", "bob");

    alices_session.type_lines(&mut hub, "/leave now\nhello\n");

    let message = bobs_session.next_message().unwrap();
    assert!(message.is_from(&alice));
    assert_eq!(message.text(), "hello");
    assert!(bobs_session.next_message().is_none());
    assert_eq!(alices_session.written, "error: invalid input\n");
    assert_eq!(
        alices_session.notes,
        vec!["ParseInputError: unexpected arguments".to_string()]
    );
}

#[test]
fn switching_to_the_current_room_is_a_no_op() {
    let mut hub = ChatHub::new();
    let mut session = Driver::join(&mut hub, "Room A", "alice");

    session.type_lines(&mut hub, "/switch Room A\n");

    assert_eq!(session.written, "already in room Room A\n");
}

#[test]
fn switching_replaces_old_room_delivery_with_new_room_delivery() {
    let mut hub = ChatHub::new();
    let mut alices_session = Driver::join(&mut hub, "Room A", "alice");
    let mut old_room_member = Driver::join(&mut hub, "Room A", "old-bob");
    let mut new_room_member = Driver::join(&mut hub, "Room B", "new-bob");

    alices_session.handle(&mut hub, session_input(Some("/switch Room B".to_string())));
    assert_eq!(alices_session.written, "switched to room Room B\n");
    alices_session.written.clear();

    old_room_member.handle(&mut hub, session_input(Some("old room message".to_string())));
    new_room_member.handle(&mut hub, session_input(Some("new room message".to_string())));
    alices_session.deliver(&mut hub);

    assert_eq!(alices_session.written, "new-bob: new room message\n");
}

#[test]
fn switching_moves_what_is_published_too() {
    let mut hub = ChatHub::new();
    let mut alices_session = Driver::join(&mut hub, "a", "alice");
    let mut old_room_member = Driver::join(&mut hub, "a", "bob");

    alices_session.type_lines(&mut hub, "/switch b\nhello\n");
    let mut new_room_member = Driver::join(&mut hub, "b", "carol");
    alices_session.handle(&mut hub, session_input(Some("again".to_string())));

    assert!(old_room_member.next_message().is_none());
    assert_eq!(new_room_member.next_message().unwrap().to_text(), "alice: again");
}

#[test]
fn switching_keeps_the_client() {
    let mut hub = ChatHub::new();
    let room = JoinedRoom::join(&mut hub, RoomName::from("a"), Client::from("alice"));
    let mut other = Driver::join(&mut hub, "b", "bob");

    let room = room.switch(&mut hub, RoomName::from("b"));
    let step = session_step(room, &mut hub, session_input(Some("hi".to_string())));

    assert!(!step.done);
    assert_eq!(other.next_message().unwrap().to_text(), "alice: hi");
}

#[test]
fn session_ends_with_the_room_and_with_the_client() {
    let mut hub = ChatHub::new();
    let mut session = Driver::join(&mut hub, "a", "alice");

    assert!(!session.handle(&mut hub, SessionEvent::Disconnected));
    assert_eq!(session.written, "");
    assert!(!session.handle(&mut hub, SessionEvent::RoomMessage(None)));
    assert_eq!(session.written, "error: room closed\n");
}

#[test]
fn session_input_tells_lines_apart() {
    assert!(matches!(session_input(None), SessionEvent::Disconnected));
    assert!(matches!(
        session_input(Some(String::new())),
        SessionEvent::InvalidInput(ParseInputError::EmptyInput)
    ));
    assert!(matches!(
        session_input(Some("/leave".to_string())),
        SessionEvent::Input(ClientInput::Leave)
    ));
    match session_input(Some("hello".to_string())) {
        SessionEvent::Input(ClientInput::Message(text)) => assert_eq!(text, "hello"),
        _ => panic!("the line is a message"),
    }
}

#[test]
fn failed_publishing_is_noted() {
    let (publisher, inbox) = Room::new().join(Client::from("alice")).split();
    assert!(publishing_report(&publisher.publish("hello".to_string())).is_none());
    drop(inbox);

    assert_eq!(
        publishing_report(&publisher.publish("hello".to_string())).unwrap(),
        "error publishing message: PublishError: channel closed"
    );
}

#[test]
fn every_reply_is_a_line() {
    let mut hub = ChatHub::new();
    for line in ["hello", "", "/leave", "/leave now", "/switch a", "/switch b", "/what"] {
        let mut session = Driver::join(&mut hub, "a", "alice");
        session.handle(&mut hub, session_input(Some(line.to_string())));
        assert!(session.written.is_empty() || session.written.ends_with('\n'), "{line}");
    }
}

#[test]
fn a_session_answers_and_publishes_what_is_typed() {
    let mut hub = ChatHub::new();
    let mut alices_session = Driver::join(&mut hub, "Room A", "alice");
    let mut bobs_session = Driver::join(&mut hub, "Room A", "bob");
    let mut carols_session = Driver::join(&mut hub, "Room B", "carol");

    alices_session.type_lines(
        &mut hub,
        "/switch Room B\nhi\n/switch Room B\n/leave\nlate\n/switch Room C\n",
    );

    assert_eq!(
        alices_session.written,
        "switched to room Room B\nalready in room Room B\nleft room Room B\n"
    );
    assert_eq!(carols_session.next_message().unwrap().to_text(), "alice: hi");
    assert!(carols_session.next_message().is_none());
    assert!(bobs_session.next_message().is_none());
}

#[test]
fn a_session_never_writes_back_what_its_client_says() {
    let mut hub = ChatHub::new();
    let mut alices_session = Driver::join(&mut hub, "Room A", "alice");
    let mut bobs_session = Driver::join(&mut hub, "Room A", "bob");

    alices_session.handle(&mut hub, session_input(Some("one".to_string())));
    bobs_session.handle(&mut hub, session_input(Some("two".to_string())));
    alices_session.handle(&mut hub, session_input(Some("three".to_string())));
    alices_session.deliver(&mut hub);
    bobs_session.deliver(&mut hub);

    assert_eq!(alices_session.written, "bob: two\n");
    assert_eq!(bobs_session.written, "alice: one\nalice: three\n");
}

#[test]
fn a_joined_room_judges_outcomes_by_its_client() {
    let mut hub = ChatHub::new();
    let room = JoinedRoom::join(&mut hub, RoomName::from("a"), Client::from("alice"));
    let room = room.switch(&mut hub, RoomName::from("b"));

    let own = Message::new(Client::from("alice"), "mine");
    assert!(matches!(room.receive(Outcome::Message(own)), Reception::Again));
    assert!(matches!(room.receive(Outcome::Lagged(1)), Reception::Again));
    assert!(matches!(room.receive(Outcome::Closed), Reception::Closed));
    let foreign = Message::new(Client::from("bob"), "yours");
    match room.receive(Outcome::Message(foreign)) {
        Reception::Message(message) => assert_eq!(message.to_text(), "bob: yours"),
        _ => panic!("the message is for the client"),
    }
}

#[test]
fn only_typed_messages_are_decided_to_be_published() {
    let room = RoomName::from("a");
    let publishes = |line: &str| decide(&room, session_input(Some(line.to_string()))).publish;

    assert_eq!(publishes("hello"), Some("hello".to_string()));
    assert_eq!(publishes(" /leave"), Some(" /leave".to_string()));
    for line in ["", "/", "/leave", "/leave now", "/switch", "/switch a", "/switch b", "/what"] {
        assert_eq!(publishes(line), None, "{line}");
    }
    assert_eq!(decide(&room, session_input(None)).publish, None);
    assert_eq!(decide(&room, SessionEvent::RoomMessage(None)).publish, None);
    let message = Message::new(Client::from("bob"), "hello");
    assert_eq!(decide(&room, SessionEvent::RoomMessage(Some(message))).publish, None);
}

#[test]
fn only_a_switch_to_another_room_is_decided_to_be_made() {
    let room = RoomName::from("a");
    let enters = |line: &str| decide(&room, session_input(Some(line.to_string()))).enter;

    assert_eq!(enters("/switch  b "), Some(RoomName::from("b")));
    for line in ["hello", "/switch", "/switch a", "/switch  a ", "/leave", "/switchb"] {
        assert_eq!(enters(line), None, "{line}");
    }
}

#[test]
fn decisions_hold_the_reply_the_note_and_the_end() {
    let room = RoomName::from("a");

    let decision = decide(&room, session_input(Some("/leave now".to_string())));
    assert_eq!(decision.reply.unwrap(), "error: invalid input\n");
    assert_eq!(decision.note.unwrap(), "ParseInputError: unexpected arguments");
    assert!(!decision.done);

    let decision = decide(&room, session_input(Some("/leave".to_string())));
    assert_eq!(decision.reply.unwrap(), "left room a\n");
    assert!(decision.note.is_none());
    assert!(decision.done);
}
