//! The lines that a client types.

use std::str::FromStr;
use vstd::prelude::*;
use crate::name::RoomName;
use crate::text::{is_white_space, strip_prefix, trimmed, trimming_is_idempotent};

verus! {

/// What a line of input asks for.
#[derive(Debug, PartialEq, Eq)]
pub enum ClientInput {
    /// To publish a text in the room.
    Message(String),
    /// To go to another room.
    Switch(RoomName),
    /// To end the session.
    Leave,
}

/// Why a line of input asks for nothing.
#[derive(Debug, PartialEq, Eq)]
pub enum ParseInputError {
    /// A switch without the name of a room.
    MissingRoom,
    /// A command that there is not.
    Unknown(String),
    /// Nothing at all.
    EmptyInput,
    /// Arguments to a command that takes none.
    UnexpectedArguments,
}

/// The view of a `ClientInput`.
pub enum InputView {
    Message(Seq<char>),
    Switch(Seq<char>),
    Leave,
}

/// The view of a `ParseInputError`.
pub enum InputErrorView {
    MissingRoom,
    Unknown(Seq<char>),
    EmptyInput,
    UnexpectedArguments,
}

impl View for ClientInput {
    type V = InputView;

    open spec fn view(&self) -> InputView {
        match *self {
            ClientInput::Message(text) => InputView::Message(text@),
            ClientInput::Switch(room) => InputView::Switch(room@),
            ClientInput::Leave => InputView::Leave,
        }
    }
}

impl View for ParseInputError {
    type V = InputErrorView;

    open spec fn view(&self) -> InputErrorView {
        match *self {
            ParseInputError::MissingRoom => InputErrorView::MissingRoom,
            ParseInputError::Unknown(line) => InputErrorView::Unknown(line@),
            ParseInputError::EmptyInput => InputErrorView::EmptyInput,
            ParseInputError::UnexpectedArguments => InputErrorView::UnexpectedArguments,
        }
    }
}

/// Whether `line` is `command` with white space and perhaps more behind it.
pub open spec fn has_arguments(line: Seq<char>, command: Seq<char>) -> bool {
    &&& command.is_prefix_of(line)
    &&& line.len() > command.len()
    &&& is_white_space(line[command.len() as int])
}

/// What a line means.
pub open spec fn meaning(line: Seq<char>) -> Result<InputView, InputErrorView> {
    if line.len() == 0 {
        Err(InputErrorView::EmptyInput)
    } else if line[0] != '/' {
        Ok(InputView::Message(line))
    } else if line == "/leave"@ {
        Ok(InputView::Leave)
    } else if has_arguments(line, "/leave"@) {
        Err(InputErrorView::UnexpectedArguments)
    } else if line == "/switch"@ {
        Err(InputErrorView::MissingRoom)
    } else if has_arguments(line, "/switch"@) {
        let room = trimmed(line.skip("/switch"@.len() as int));
        if room.len() == 0 {
            Err(InputErrorView::MissingRoom)
        } else {
            Ok(InputView::Switch(room))
        }
    } else {
        Err(InputErrorView::Unknown(line))
    }
}

/// The view of what parsing a line gave.
pub open spec fn outcome_view(result: Result<ClientInput, ParseInputError>) -> Result<
    InputView,
    InputErrorView,
> {
    match result {
        Ok(input) => Ok(input@),
        Err(error) => Err(error@),
    }
}

impl FromStr for ClientInput {
    type Err = ParseInputError;

    /// Reads a line without its line end.
    fn from_str(s: &str) -> (result: Result<ClientInput, ParseInputError>)
        ensures
            outcome_view(result) == meaning(s@),
    {
        proof {
            reveal_strlit("/leave");
            reveal_strlit("/switch");
        }
        if s.is_empty() {
            return Err(ParseInputError::EmptyInput);
        }
        if s.get_char(0) != '/' {
            return Ok(ClientInput::Message(s.to_owned()));
        }
        if let Some(args) = strip_prefix(s, "/leave") {
            if args.is_empty() {
                assert(s@ == "/leave"@);
                return Ok(ClientInput::Leave);
            }
            if args.get_char(0).is_whitespace() {
                return Err(ParseInputError::UnexpectedArguments);
            }
        }
        if let Some(args) = strip_prefix(s, "/switch") {
            if args.is_empty() {
                assert(s@ == "/switch"@);
                return Err(ParseInputError::MissingRoom);
            }
            if args.get_char(0).is_whitespace() {
                assert(s@.skip("/switch"@.len() as int) == args@);
                let room = args.trim();
                return if room.is_empty() {
                    Err(ParseInputError::MissingRoom)
                } else {
                    proof {
                        trimming_is_idempotent(args@);
                    }
                    Ok(ClientInput::Switch(RoomName::from(room)))
                };
            }
        }
        Err(ParseInputError::Unknown(s.to_owned()))
    }
}

/// The error as text.
pub open spec fn input_error_text(error: InputErrorView) -> Seq<char> {
    "ParseInputError: "@ + match error {
        InputErrorView::MissingRoom => "missing room"@,
        InputErrorView::Unknown(line) => "unknown input "@ + line,
        InputErrorView::EmptyInput => "empty input"@,
        InputErrorView::UnexpectedArguments => "unexpected arguments"@,
    }
}

impl ParseInputError {
    /// The error as text.
    pub fn to_text(&self) -> (text: String)
        ensures
            text@ == input_error_text(self@),
    {
        let kind = "ParseInputError: ".to_owned();
        match self {
            ParseInputError::MissingRoom => kind.concat("missing room"),
            ParseInputError::Unknown(line) => kind.concat("unknown input ").concat(line.as_str()),
            ParseInputError::EmptyInput => kind.concat("empty input"),
            ParseInputError::UnexpectedArguments => kind.concat("unexpected arguments"),
        }
    }
}

/// Each error has its text; that of an unknown line ends with the whole line.
pub proof fn input_errors_say_what_is_wrong(line: Seq<char>)
    ensures
        input_error_text(InputErrorView::MissingRoom) == "ParseInputError: missing room"@,
        input_error_text(InputErrorView::EmptyInput) == "ParseInputError: empty input"@,
        input_error_text(InputErrorView::UnexpectedArguments)
            == "ParseInputError: unexpected arguments"@,
        input_error_text(InputErrorView::Unknown(line)).len() == 31 + line.len(),
        input_error_text(InputErrorView::Unknown(line)).take(31)
            == "ParseInputError: unknown input "@,
        input_error_text(InputErrorView::Unknown(line)).skip(31) == line,
{
    reveal_strlit("ParseInputError: ");
    reveal_strlit("missing room");
    reveal_strlit("empty input");
    reveal_strlit("unexpected arguments");
    reveal_strlit("unknown input ");
    reveal_strlit("ParseInputError: missing room");
    reveal_strlit("ParseInputError: empty input");
    reveal_strlit("ParseInputError: unexpected arguments");
    reveal_strlit("ParseInputError: unknown input ");
}

/// The views leave nothing out: the text of a message, the name of a room and an unknown line are
/// in them whole.
pub proof fn input_views_are_whole(text: String, room: RoomName)
    ensures
        ClientInput::Message(text)@ == InputView::Message(text@),
        ClientInput::Switch(room)@ == InputView::Switch(room@),
        ClientInput::Leave@ == InputView::Leave,
        ParseInputError::MissingRoom@ == InputErrorView::MissingRoom,
        ParseInputError::Unknown(text)@ == InputErrorView::Unknown(text@),
        ParseInputError::EmptyInput@ == InputErrorView::EmptyInput,
        ParseInputError::UnexpectedArguments@ == InputErrorView::UnexpectedArguments,
        outcome_view(Ok(ClientInput::Message(text))) == Ok::<_, InputErrorView>(
            InputView::Message(text@),
        ),
        outcome_view(Ok(ClientInput::Switch(room))) == Ok::<_, InputErrorView>(
            InputView::Switch(room@),
        ),
        outcome_view(Ok(ClientInput::Leave)) == Ok::<_, InputErrorView>(InputView::Leave),
        outcome_view(Err(ParseInputError::MissingRoom)) == Err::<InputView, _>(
            InputErrorView::MissingRoom,
        ),
        outcome_view(Err(ParseInputError::Unknown(text))) == Err::<InputView, _>(
            InputErrorView::Unknown(text@),
        ),
        outcome_view(Err(ParseInputError::EmptyInput)) == Err::<InputView, _>(
            InputErrorView::EmptyInput,
        ),
        outcome_view(Err(ParseInputError::UnexpectedArguments)) == Err::<InputView, _>(
            InputErrorView::UnexpectedArguments,
        ),
{
}

/// A line without a slash in front is a message, word for word, whatever its length.
pub proof fn plain_lines_mean_themselves(first: char, rest: Seq<char>)
    requires
        first != '/',
    ensures
        meaning(seq![first] + rest) == Ok::<_, InputErrorView>(
            InputView::Message(seq![first] + rest),
        ),
{
}

/// What `/leave` means: to leave when nothing follows it, too much when white space follows it
/// directly, and nothing known when anything else does.
pub proof fn leave_takes_no_arguments(rest: Seq<char>)
    ensures
        rest.len() == 0 ==> meaning("/leave"@ + rest) == Ok::<_, InputErrorView>(InputView::Leave),
        rest.len() > 0 && is_white_space(rest[0]) ==> meaning("/leave"@ + rest) == Err::<
            InputView,
            _,
        >(InputErrorView::UnexpectedArguments),
        rest.len() > 0 && !is_white_space(rest[0]) ==> meaning("/leave"@ + rest) == Err::<
            InputView,
            _,
        >(InputErrorView::Unknown("/leave"@ + rest)),
{
    reveal_strlit("/leave");
    reveal_strlit("/switch");
    let line = "/leave"@ + rest;
    assert(line[0] == '/' && line[1] == 'l');
    assert("/leave"@.is_prefix_of(line));
    if rest.len() == 0 {
        assert(line == "/leave"@);
    } else {
        assert(line[6] == rest[0]);
    }
}

/// What `/switch` means: to go to the room that is named behind it, which is all that follows
/// without the white space around it; a room that is missing when there is nothing but white
/// space; and nothing known when anything but white space follows directly.
pub proof fn switch_takes_a_room(rest: Seq<char>, room: Seq<char>)
    requires
        room == trimmed(rest),
    ensures
        rest.len() == 0 ==> meaning("/switch"@ + rest) == Err::<InputView, _>(
            InputErrorView::MissingRoom,
        ),
        rest.len() > 0 && is_white_space(rest[0]) && room.len() == 0 ==> meaning("/switch"@ + rest)
            == Err::<InputView, _>(InputErrorView::MissingRoom),
        rest.len() > 0 && is_white_space(rest[0]) && room.len() > 0 ==> meaning("/switch"@ + rest)
            == Ok::<_, InputErrorView>(InputView::Switch(room)),
        rest.len() > 0 && !is_white_space(rest[0]) ==> meaning("/switch"@ + rest) == Err::<
            InputView,
            _,
        >(InputErrorView::Unknown("/switch"@ + rest)),
{
    reveal_strlit("/leave");
    reveal_strlit("/switch");
    let line = "/switch"@ + rest;
    assert(line[0] == '/' && line[1] == 's');
    assert("/switch"@.is_prefix_of(line));
    assert(line.skip(7) == rest);
    if rest.len() == 0 {
        assert(line == "/switch"@);
    } else {
        assert(line[7] == rest[0]);
    }
}

/// A line with a slash in front that begins with neither command is unknown, and the error has
/// the whole of it; a line without anything is empty.
pub proof fn other_slash_lines_are_unknown(line: Seq<char>)
    ensures
        line.len() == 0 ==> meaning(line) == Err::<InputView, _>(InputErrorView::EmptyInput),
        line.len() > 0 && line[0] == '/' && !"/leave"@.is_prefix_of(line)
            && !"/switch"@.is_prefix_of(line) ==> meaning(line) == Err::<InputView, _>(
            InputErrorView::Unknown(line),
        ),
{
    reveal_strlit("/leave");
    reveal_strlit("/switch");
}

} // verus!
