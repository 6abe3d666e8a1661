use async_chat_server::connection::{
    bind_addr, bind_addr_from_args, enter, greet, DEFAULT_ADDR, NAME_PROMPT, ROOM_PROMPT,
};
use async_chat_server::session::{session_input, session_step};
use async_chat_server::{ChatHub, Client, RoomName};

#[test]
fn bind_addr_from_args_uses_default_when_arg_is_missing() {
    let addr = bind_addr_from_args(std::iter::empty());

    assert_eq!(addr, DEFAULT_ADDR);
}

#[test]
fn bind_addr_from_args_uses_first_arg() {
    let addr = bind_addr_from_args(["0.0.0.0:9000".to_string()].into_iter());

    assert_eq!(addr, "0.0.0.0:9000");
}

#[test]
fn bind_addr_from_args_ignores_the_other_args() {
    let args = vec!["a:1".to_string(), "b:2".to_string()];

    assert_eq!(bind_addr_from_args(args.into_iter()), "a:1");
    assert_eq!(bind_addr(Some("c:3".to_string())), "c:3");
    assert_eq!(bind_addr(None), "127.0.0.1:8080");
}

#[test]
fn prompts_ask_for_name_and_room() {
    assert_eq!(NAME_PROMPT, "who are you?\n");
    assert_eq!(ROOM_PROMPT, "tell me your room\n");
}

#[test]
fn greeting_names_room_and_client() {
    let text = greet(&RoomName::from("rust"), &Client::from("alice"));

    assert_eq!(text, "welcome to room rust, alice\n");
}

#[test]
fn entering_trims_both_answers_and_joins_the_room() {
    let mut hub = ChatHub::new();
    let (_, mut bob_inbox) = hub.join(RoomName::from("rust room"), Client::from("bob")).split();

    let entrance = enter(&mut hub, " alice\n".to_string(), "rust room\r\n".to_string());
    assert_eq!(entrance.greeting, "welcome to room rust room, alice\n");

    session_step(entrance.room, &mut hub, session_input(Some("hi".to_string())));
    assert_eq!(bob_inbox.receiver.try_recv().unwrap().to_text(), "alice: hi");
}

#[test]
fn entering_allows_empty_answers() {
    let mut hub = ChatHub::new();

    let entrance = enter(&mut hub, String::new(), "\n".to_string());

    assert_eq!(entrance.greeting, "welcome to room , \n");
}

#[test]
fn a_client_is_in_the_room_by_the_time_it_is_welcomed() {
    let mut hub = ChatHub::new();
    let (bob_publisher, _bob_inbox) = hub.join(RoomName::from("rust"), Client::from("bob")).split();

    let mut entrance = enter(&mut hub, "alice\n".to_string(), "rust\n".to_string());
    bob_publisher.publish("hello alice".to_string()).unwrap();

    let message = entrance.room.inbox.receiver.try_recv().unwrap();
    assert_eq!(message.to_text(), "bob: hello alice");
}

#[test]
fn a_connection_gives_one_message_for_one_line() {
    let mut hub = ChatHub::new();
    let (_, mut bob_inbox) = hub.join(RoomName::from("rust"), Client::from("bob")).split();
    let mut output = format!("{NAME_PROMPT}{ROOM_PROMPT}");

    let entrance = enter(&mut hub, "alice\n".to_string(), "rust\n".to_string());
    output.push_str(&entrance.greeting);
    let step = session_step(entrance.room, &mut hub, session_input(Some("hello".to_string())));
    output.push_str(step.reply.as_deref().unwrap_or(""));
    let step = session_step(step.room, &mut hub, session_input(None));
    output.push_str(step.reply.as_deref().unwrap_or(""));

    assert!(step.done);
    assert_eq!(
        output,
        "who are you?\ntell me your room\nwelcome to room rust, alice\n"
    );
    assert_eq!(bob_inbox.receiver.try_recv().unwrap().to_text(), "alice: hello");
    assert!(bob_inbox.receiver.try_recv().is_err());
}
