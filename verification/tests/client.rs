use async_chat_server::{Client, RoomName};

/// The characters that count as white space.
fn listed_as_white_space(c: char) -> bool {
    matches!(
        c,
        '\u{9}'..='\u{d}'
            | ' '
            | '\u{85}'
            | '\u{a0}'
            | '\u{1680}'
            | '\u{2000}'..='\u{200a}'
            | '\u{2028}'
            | '\u{2029}'
            | '\u{202f}'
            | '\u{205f}'
            | '\u{3000}'
    )
}

#[test]
fn client_from_string_trims_whitespace() {
    let name = Client::from("  alice\n");

    assert_eq!(name, Client::from("alice"));
}

#[test]
fn client_keeps_the_name_between_white_space() {
    assert_eq!(Client::from("\t al ice \r\n").to_text(), "al ice");
    assert_eq!(Client::from("alice".to_string()).to_text(), "alice");
    assert_eq!(Client::from(" \n".to_string()).to_text(), "");
    assert_eq!(Client::from("").to_text(), "");
}

#[test]
fn clients_differ_by_name() {
    assert_ne!(Client::from("alice"), Client::from("bob"));
    assert_ne!(Client::from("alice"), Client::from("Alice"));
    assert_eq!(Client::from("alice").clone(), Client::from("alice"));
}

#[test]
fn client_normalization_is_idempotent() {
    for name in ["", " ", "a", " a b ", "\u{a0}\u{3000}x\u{2028}"] {
        let once = Client::from(name);
        assert_eq!(Client::from(once.to_text()), once);
    }
}

#[test]
fn client_names_lose_exactly_the_unicode_white_space() {
    for c in '\0'..=char::MAX {
        let name = Client::from(c.to_string().as_str()).to_text();
        assert_eq!(name.is_empty(), listed_as_white_space(c), "{c:?}");
    }
}

#[test]
fn room_names_are_trimmed_and_compared_by_text() {
    assert_eq!(RoomName::from(" rust  room\n").to_text(), "rust  room");
    assert_eq!(RoomName::from("rust".to_string()), RoomName::from("\trust"));
    assert_ne!(RoomName::from("rust"), RoomName::from("Rust"));
    assert_eq!(RoomName::from("rust").clone(), RoomName::from("rust"));
}
