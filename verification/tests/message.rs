use async_chat_server::{Client, Message};

#[test]
fn message_new_preserves_sender_and_text() {
    let client = Client::from("alice".to_string());
    let message = Message::new(client.clone(), "hello");

    assert!(message.is_from(&client));
    assert_eq!(message.text(), "hello");
}

#[test]
fn message_takes_owned_text_too() {
    let message = Message::new(Client::from("alice"), "  hello ".to_string());

    assert_eq!(message.text(), "  hello ");
}

#[test]
fn message_is_only_from_its_sender() {
    let message = Message::new(Client::from("alice"), "hello");

    assert!(message.is_from(&Client::from(" alice\n")));
    assert!(!message.is_from(&Client::from("bob")));
    assert!(!message.is_from(&Client::from("")));
}

#[test]
fn message_shows_sender_and_text() {
    assert_eq!(Message::new(Client::from("alice"), "hello").to_text(), "alice: hello");
    assert_eq!(Message::new(Client::from(""), "").to_text(), ": ");
}

#[test]
fn message_clone_says_the_same() {
    let message = Message::new(Client::from("alice"), "hello").clone();

    assert!(message.is_from(&Client::from("alice")));
    assert_eq!(message.text(), "hello");
}
