//! Input commands: the closed set of things a client can ask the device
//! controller to do, and how a request body spells them.

use crate::json::FieldView;
use crate::json::json_object_members;
use crate::json::JsonField;
use crate::json::Members;
use crate::json::members_view;
use crate::json::parse_object;
use crate::response::json_response;
use crate::response::plain_response;
use crate::response::respond_json;
use crate::response::respond_plain;
use crate::response::Response;
use crate::response::ResponseView;
use crate::response::STATUS_BAD_REQUEST;
use crate::response::STATUS_OK;
use crate::text::str_eq;
use crate::web_server::one_string_object;
use crate::web_server::print_one_string_object;
use vstd::prelude::*;

verus! {

/// One call into the device controller, with its arguments.
#[derive(Debug)]
pub enum InputCommand {
    Tap { x: u32, y: u32 },
    LongTap { x: u32, y: u32, duration: u32 },
    Swipe { x1: u32, y1: u32, x2: u32, y2: u32, duration: u32 },
    KeyEvent { keycode: String, longpress: bool },
    Text { text: String },
}

/// An `InputCommand` in contracts.
pub enum CommandView {
    Tap { x: u32, y: u32 },
    LongTap { x: u32, y: u32, duration: u32 },
    Swipe { x1: u32, y1: u32, x2: u32, y2: u32, duration: u32 },
    KeyEvent { keycode: Seq<char>, longpress: bool },
    Text { text: Seq<char> },
}

impl View for InputCommand {
    type V = CommandView;

    open spec fn view(&self) -> CommandView {
        match self {
            InputCommand::Tap { x, y } => CommandView::Tap { x: *x, y: *y },
            InputCommand::LongTap { x, y, duration } => CommandView::LongTap {
                x: *x,
                y: *y,
                duration: *duration,
            },
            InputCommand::Swipe { x1, y1, x2, y2, duration } => CommandView::Swipe {
                x1: *x1,
                y1: *y1,
                x2: *x2,
                y2: *y2,
                duration: *duration,
            },
            InputCommand::KeyEvent { keycode, longpress } => CommandView::KeyEvent {
                keycode: keycode@,
                longpress: *longpress,
            },
            InputCommand::Text { text } => CommandView::Text { text: text@ },
        }
    }
}

/// Why a request body was turned down.
#[derive(Clone, Copy, Debug, PartialEq, Eq, Structural)]
pub enum ValidationError {
    /// The body is not JSON text, or not a JSON object.
    InvalidJson,
    /// The object has no member `action`.
    MissingAction,
    /// `action` is not a string, or names no command.
    InvalidAction,
    /// A member that the command needs is missing or of another type.
    MissingField,
}

/// The value under `key`, if the object has such a member.
pub open spec fn member_at(members: Members, key: Seq<char>) -> Option<FieldView>
    decreases members.len(),
{
    if members.len() == 0 {
        None
    } else if members[0].0 == key {
        Some(members[0].1)
    } else {
        member_at(members.skip(1), key)
    }
}

/// The string under `key`.
pub open spec fn text_member(members: Members, key: Seq<char>) -> Option<Seq<char>> {
    match member_at(members, key) {
        Some(FieldView::Text(text)) => Some(text),
        _ => None,
    }
}

/// The number under `key`, where it is an integer from 0 to `u64::MAX`.
pub open spec fn unsigned_member(members: Members, key: Seq<char>) -> Option<u64> {
    match member_at(members, key) {
        Some(FieldView::Number(Some(n))) => Some(n),
        _ => None,
    }
}

/// The boolean under `key`.
pub open spec fn flag_member(members: Members, key: Seq<char>) -> Option<bool> {
    match member_at(members, key) {
        Some(FieldView::Flag(flag)) => Some(flag),
        _ => None,
    }
}

/// The low 32 bits of `n`: what the device controller is handed of a
/// coordinate or a duration.
pub open spec fn low32(n: u64) -> u32 {
    (n % 0x1_0000_0000) as u32
}

/// The low 32 bits of the number under `key`.
pub open spec fn coordinate(members: Members, key: Seq<char>) -> Option<u32> {
    match unsigned_member(members, key) {
        Some(n) => Some(low32(n)),
        None => None,
    }
}

/// The tap that the members spell.
pub open spec fn tap_of(members: Members) -> Option<CommandView> {
    match (coordinate(members, "x"@), coordinate(members, "y"@)) {
        (Some(x), Some(y)) => Some(CommandView::Tap { x, y }),
        _ => None,
    }
}

/// The long tap that the members spell.
pub open spec fn long_tap_of(members: Members) -> Option<CommandView> {
    match (
        coordinate(members, "x"@),
        coordinate(members, "y"@),
        coordinate(members, "duration"@),
    ) {
        (Some(x), Some(y), Some(duration)) => Some(CommandView::LongTap { x, y, duration }),
        _ => None,
    }
}

/// The swipe that the members spell.
pub open spec fn swipe_of(members: Members) -> Option<CommandView> {
    match (
        coordinate(members, "x1"@),
        coordinate(members, "y1"@),
        coordinate(members, "x2"@),
        coordinate(members, "y2"@),
        coordinate(members, "duration"@),
    ) {
        (Some(x1), Some(y1), Some(x2), Some(y2), Some(duration)) => Some(
            CommandView::Swipe { x1, y1, x2, y2, duration },
        ),
        _ => None,
    }
}

/// The key event that the members spell.
pub open spec fn key_event_of(members: Members) -> Option<CommandView> {
    match (text_member(members, "keycode"@), flag_member(members, "longpress"@)) {
        (Some(keycode), Some(longpress)) => Some(CommandView::KeyEvent { keycode, longpress }),
        _ => None,
    }
}

/// The text entry that the members spell.
pub open spec fn text_entry_of(members: Members) -> Option<CommandView> {
    match text_member(members, "text"@) {
        Some(text) => Some(CommandView::Text { text }),
        None => None,
    }
}

/// The command whose fields the members hold, or that a field is missing.
pub open spec fn complete(command: Option<CommandView>) -> Result<CommandView, ValidationError> {
    match command {
        Some(command) => Ok(command),
        None => Err(ValidationError::MissingField),
    }
}

/// The command that an object with these members spells.
pub open spec fn command_of(members: Members) -> Result<CommandView, ValidationError> {
    match member_at(members, "action"@) {
        None => Err(ValidationError::MissingAction),
        Some(FieldView::Text(action)) => {
            if action == "tap"@ {
                complete(tap_of(members))
            } else if action == "long_tap"@ {
                complete(long_tap_of(members))
            } else if action == "swipe"@ {
                complete(swipe_of(members))
            } else if action == "keyevent"@ {
                complete(key_event_of(members))
            } else if action == "text"@ {
                complete(text_entry_of(members))
            } else {
                Err(ValidationError::InvalidAction)
            }
        },
        Some(_) => Err(ValidationError::InvalidAction),
    }
}

/// The command that a request body spells.
pub open spec fn input_of(body: Seq<u8>) -> Result<CommandView, ValidationError> {
    match json_object_members(body) {
        Some(members) => command_of(members),
        None => Err(ValidationError::InvalidJson),
    }
}

/// A decoding result in contracts.
pub open spec fn outcome_view(outcome: Result<InputCommand, ValidationError>) -> Result<
    CommandView,
    ValidationError,
> {
    match outcome {
        Ok(command) => Ok(command@),
        Err(e) => Err(e),
    }
}

/// A command that may be missing, in contracts.
pub open spec fn command_view(command: Option<InputCommand>) -> Option<CommandView> {
    match command {
        Some(command) => Some(command@),
        None => None,
    }
}

/// Looks a member up by its key.
pub fn find_member<'a>(members: &'a Vec<(String, JsonField)>, key: &str) -> (found: Option<
    &'a JsonField,
>)
    ensures
        match member_at(members_view(members@), key@) {
            Some(field) => found matches Some(f) && f@ == field,
            None => found is None,
        },
{
    let ghost all = members_view(members@);
    let mut i: usize = 0;
    assert(all.skip(0) == all);
    while i < members.len()
        invariant
            i <= members.len(),
            all == members_view(members@),
            member_at(all, key@) == member_at(all.skip(i as int), key@),
        decreases members.len() - i,
    {
        let ghost rest = all.skip(i as int);
        assert(rest[0] == all[i as int]);
        assert(rest.skip(1) == all.skip(i + 1));
        if str_eq(members[i].0.as_str(), key) {
            return Some(&members[i].1);
        }
        i = i + 1;
    }
    None
}

/// The string under `key`.
pub fn get_text<'a>(members: &'a Vec<(String, JsonField)>, key: &str) -> (found: Option<
    &'a String,
>)
    ensures
        match text_member(members_view(members@), key@) {
            Some(text) => found matches Some(s) && s@ == text,
            None => found is None,
        },
{
    match find_member(members, key) {
        Some(JsonField::Text(text)) => Some(text),
        _ => None,
    }
}

/// The number under `key`, where it is an integer from 0 to `u64::MAX`.
pub fn get_unsigned(members: &Vec<(String, JsonField)>, key: &str) -> (found: Option<u64>)
    ensures
        found == unsigned_member(members_view(members@), key@),
{
    match find_member(members, key) {
        Some(JsonField::Number(Some(n))) => Some(*n),
        _ => None,
    }
}

/// The boolean under `key`.
pub fn get_flag(members: &Vec<(String, JsonField)>, key: &str) -> (found: Option<bool>)
    ensures
        found == flag_member(members_view(members@), key@),
{
    match find_member(members, key) {
        Some(JsonField::Flag(flag)) => Some(*flag),
        _ => None,
    }
}

/// The low 32 bits of the number under `key`.
pub fn get_coordinate(members: &Vec<(String, JsonField)>, key: &str) -> (found: Option<u32>)
    ensures
        found == coordinate(members_view(members@), key@),
{
    match get_unsigned(members, key) {
        Some(n) => Some((n % 0x1_0000_0000) as u32),
        None => None,
    }
}

fn decode_tap(members: &Vec<(String, JsonField)>) -> (command: Option<InputCommand>)
    ensures
        command_view(command) == tap_of(members_view(members@)),
{
    let x = get_coordinate(members, "x");
    let y = get_coordinate(members, "y");
    match (x, y) {
        (Some(x), Some(y)) => Some(InputCommand::Tap { x, y }),
        _ => None,
    }
}

fn decode_long_tap(members: &Vec<(String, JsonField)>) -> (command: Option<InputCommand>)
    ensures
        command_view(command) == long_tap_of(members_view(members@)),
{
    let x = get_coordinate(members, "x");
    let y = get_coordinate(members, "y");
    let duration = get_coordinate(members, "duration");
    match (x, y, duration) {
        (Some(x), Some(y), Some(duration)) => Some(InputCommand::LongTap { x, y, duration }),
        _ => None,
    }
}

fn decode_swipe(members: &Vec<(String, JsonField)>) -> (command: Option<InputCommand>)
    ensures
        command_view(command) == swipe_of(members_view(members@)),
{
    let x1 = get_coordinate(members, "x1");
    let y1 = get_coordinate(members, "y1");
    let x2 = get_coordinate(members, "x2");
    let y2 = get_coordinate(members, "y2");
    let duration = get_coordinate(members, "duration");
    match (x1, y1, x2, y2, duration) {
        (Some(x1), Some(y1), Some(x2), Some(y2), Some(duration)) => Some(
            InputCommand::Swipe { x1, y1, x2, y2, duration },
        ),
        _ => None,
    }
}

fn decode_key_event(members: &Vec<(String, JsonField)>) -> (command: Option<InputCommand>)
    ensures
        command_view(command) == key_event_of(members_view(members@)),
{
    let keycode = get_text(members, "keycode");
    let longpress = get_flag(members, "longpress");
    match (keycode, longpress) {
        (Some(keycode), Some(longpress)) => Some(
            InputCommand::KeyEvent { keycode: keycode.clone(), longpress },
        ),
        _ => None,
    }
}

fn decode_text_entry(members: &Vec<(String, JsonField)>) -> (command: Option<InputCommand>)
    ensures
        command_view(command) == text_entry_of(members_view(members@)),
{
    match get_text(members, "text") {
        Some(text) => Some(InputCommand::Text { text: text.clone() }),
        None => None,
    }
}

fn require_complete(command: Option<InputCommand>) -> (outcome: Result<
    InputCommand,
    ValidationError,
>)
    ensures
        outcome_view(outcome) == complete(command_view(command)),
{
    match command {
        Some(command) => Ok(command),
        None => Err(ValidationError::MissingField),
    }
}

/// Decodes the command that the members of a request body spell.
///
/// The member `action` names the command; the command's fields are read
/// from the members of their names. A coordinate or a duration is the low
/// 32 bits of its number.
pub fn decode_input(members: &Vec<(String, JsonField)>) -> (outcome: Result<
    InputCommand,
    ValidationError,
>)
    ensures
        outcome_view(outcome) == command_of(members_view(members@)),
{
    match find_member(members, "action") {
        None => Err(ValidationError::MissingAction),
        Some(JsonField::Text(action)) => {
            let action = action.as_str();
            if str_eq(action, "tap") {
                require_complete(decode_tap(members))
            } else if str_eq(action, "long_tap") {
                require_complete(decode_long_tap(members))
            } else if str_eq(action, "swipe") {
                require_complete(decode_swipe(members))
            } else if str_eq(action, "keyevent") {
                require_complete(decode_key_event(members))
            } else if str_eq(action, "text") {
                require_complete(decode_text_entry(members))
            } else {
                Err(ValidationError::InvalidAction)
            }
        },
        Some(_) => Err(ValidationError::InvalidAction),
    }
}

/// Reads the command that a request body spells.
pub fn parse_input(body: &[u8]) -> (outcome: Result<InputCommand, ValidationError>)
    ensures
        outcome_view(outcome) == input_of(body@),
{
    match parse_object(body) {
        Some(members) => decode_input(&members),
        None => Err(ValidationError::InvalidJson),
    }
}

impl ValidationError {
    /// The message that goes out with the rejection.
    pub open spec fn message_text(self) -> Seq<char> {
        match self {
            ValidationError::InvalidJson => "Invalid JSON"@,
            ValidationError::MissingAction => "Missing action"@,
            ValidationError::InvalidAction => "Invalid action"@,
            ValidationError::MissingField => "Invalid JSON"@,
        }
    }

    /// The message that goes out with the rejection.
    pub fn message(&self) -> (text: &'static str)
        ensures
            text@ == self.message_text(),
    {
        match self {
            ValidationError::InvalidJson => "Invalid JSON",
            ValidationError::MissingAction => "Missing action",
            ValidationError::InvalidAction => "Invalid action",
            ValidationError::MissingField => "Invalid JSON",
        }
    }
}

/// The rejection of a request body.
pub fn validation_response(error: ValidationError) -> (response: Response)
    ensures
        response@ == plain_response(STATUS_BAD_REQUEST, error.message_text()),
{
    respond_plain(STATUS_BAD_REQUEST, error.message())
}

/// The answer to an input request: success where the body spelled a
/// command, else the rejection.
pub open spec fn input_answer(outcome: Result<CommandView, ValidationError>) -> ResponseView {
    match outcome {
        Ok(_) => json_response(STATUS_OK, one_string_object("status"@, "success"@)),
        Err(error) => plain_response(STATUS_BAD_REQUEST, error.message_text()),
    }
}

/// Answers an input request, given how its body decoded. The answer does
/// not wait for the device: the command, where there is one, is the
/// caller's to carry out, once.
pub fn input_response(outcome: &Result<InputCommand, ValidationError>) -> (response: Response)
    ensures
        response@ == input_answer(outcome_view(*outcome)),
{
    match outcome {
        Ok(_) => respond_json(STATUS_OK, print_one_string_object("status", "success")),
        Err(error) => validation_response(*error),
    }
}

} // verus!
