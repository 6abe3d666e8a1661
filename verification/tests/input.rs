use std::str::FromStr;

use async_chat_server::{ClientInput, ParseInputError, RoomName};

#[test]
fn client_input_message_from_str() {
    let input = "hello";

    let client_input: ClientInput = input.parse().unwrap();

    assert_eq!(client_input, ClientInput::Message("hello".to_owned()))
}

#[test]
fn client_input_switch_from_str() {
    let input = "/switch rust room";

    let client_input: ClientInput = input.parse().unwrap();

    assert_eq!(
        client_input,
        ClientInput::Switch(RoomName::from("rust room"))
    )
}

#[test]
fn client_input_switch_from_str_missing_room() {
    let input = "/switch";

    let client_input = ClientInput::from_str(input).unwrap_err();

    assert_eq!(client_input, ParseInputError::MissingRoom)
}

#[test]
fn client_input_switch_with_whitespace_from_str_missing_room() {
    let input = "/switch   ";

    let client_input = ClientInput::from_str(input).unwrap_err();

    assert_eq!(client_input, ParseInputError::MissingRoom)
}

#[test]
fn client_input_switch_from_str_preserves_internal_spaces() {
    let input = "/switch rust  room";

    let client_input = ClientInput::from_str(input).unwrap();

    assert_eq!(
        client_input,
        ClientInput::Switch(RoomName::from("rust  room"))
    )
}

#[test]
fn client_input_leave_from_str() {
    let input = "/leave";

    let client_input = ClientInput::from_str(input).unwrap();

    assert_eq!(client_input, ClientInput::Leave);
}

#[test]
fn client_input_leave_with_args_from_str() {
    let input = "/leave something";

    let client_input = ClientInput::from_str(input).unwrap_err();

    assert_eq!(client_input, ParseInputError::UnexpectedArguments);
}

#[test]
fn client_input_unknown_from_str() {
    let input = "/unknown_cmd";

    let client_input = ClientInput::from_str(input).unwrap_err();

    assert_eq!(client_input, ParseInputError::Unknown(input.to_owned()));
}

#[test]
fn client_input_unknown_slash_from_str() {
    let input = "/";

    let client_input = ClientInput::from_str(input).unwrap_err();

    assert_eq!(client_input, ParseInputError::Unknown(input.to_owned()));
}

#[test]
fn client_input_empty_from_str() {
    let input = "";

    let client_input = ClientInput::from_str(input).unwrap_err();

    assert_eq!(client_input, ParseInputError::EmptyInput);
}

#[test]
fn client_input_keeps_messages_word_for_word() {
    for line in [" ", "  hello  ", " /leave", "héllo/", "\u{3000}"] {
        let input = ClientInput::from_str(line).unwrap();
        assert_eq!(input, ClientInput::Message(line.to_owned()));
    }
}

#[test]
fn client_input_commands_end_at_white_space() {
    for line in ["/leaver", "/switchrust", "/Leave", "/switch/", "/leave/ now"] {
        let error = ClientInput::from_str(line).unwrap_err();
        assert_eq!(error, ParseInputError::Unknown(line.to_owned()));
    }
    assert_eq!(
        ClientInput::from_str("/leave ").unwrap_err(),
        ParseInputError::UnexpectedArguments
    );
    assert_eq!(
        ClientInput::from_str("/switch\u{a0}rust\t").unwrap(),
        ClientInput::Switch(RoomName::from("rust"))
    );
}

#[test]
fn client_input_takes_every_white_space_after_a_command() {
    for c in '\0'..=char::MAX {
        let error = ClientInput::from_str(&format!("/leave{c}")).unwrap_err();
        let white = matches!(
            c as u32,
            0x09..=0x0d
                | 0x20
                | 0x85
                | 0xa0
                | 0x1680
                | 0x2000..=0x200a
                | 0x2028
                | 0x2029
                | 0x202f
                | 0x205f
                | 0x3000
        );
        assert_eq!(error == ParseInputError::UnexpectedArguments, white, "{c:?}");
    }
}

#[test]
fn parse_input_error_texts() {
    assert_eq!(ParseInputError::MissingRoom.to_text(), "ParseInputError: missing room");
    assert_eq!(
        ParseInputError::Unknown("/nope".to_owned()).to_text(),
        "ParseInputError: unknown input /nope"
    );
    assert_eq!(ParseInputError::EmptyInput.to_text(), "ParseInputError: empty input");
    assert_eq!(
        ParseInputError::UnexpectedArguments.to_text(),
        "ParseInputError: unexpected arguments"
    );
}
