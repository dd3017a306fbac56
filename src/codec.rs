use vstd::prelude::*;

use crate::events::{resolve, GameAction, ServerEvent};
use crate::json::{json_model, json_parse, member, parse_json, Json};
use crate::text::same_text;

verus! {

/// Why an inbound frame did not become an event.
#[derive(Debug, Clone, Copy, PartialEq, Eq, Structural)]
pub enum MessageError {
    /// The text is not one JSON object.
    MalformedPayload,
    /// The `action` or the `value` member is absent.
    MissingField,
    /// `action` is not a string, or `value` is not an integer.
    WrongType,
    /// `action` names none of `right`, `left`, `shoot`.
    UnknownAction,
}

/// One member of a frame's object, as the decoder reads it.
#[derive(Debug, PartialEq, Eq)]
pub enum Field {
    Missing,
    Text(String),
    Integer(i64),
    /// Present, but neither a string nor an integer.
    Other,
}

/// The member of an object under a key.
pub open spec fn lookup(m: Map<Seq<char>, Json>, key: Seq<char>) -> Option<Json> {
    if m.contains_key(key) {
        Some(m[key])
    } else {
        None
    }
}

/// An integer brought into the `i64` range: one above it counts as
/// `i64::MAX`, one below as `i64::MIN`.
pub open spec fn saturate(n: int) -> i64 {
    if n > i64::MAX {
        i64::MAX
    } else if n < i64::MIN {
        i64::MIN
    } else {
        n as i64
    }
}

/// A member as the decoder tells it apart: an integer is held saturated to
/// the `i64` range, and an object counts as any other value that is neither
/// a string nor an integer.
pub open spec fn member_kind(j: Option<Json>) -> Option<Json> {
    match j {
        Some(Json::Object(_)) => Some(Json::Other),
        Some(Json::Integer(n)) => if i64::MIN <= n <= u64::MAX {
            Some(Json::Integer(saturate(n) as int))
        } else {
            Some(Json::Other)
        },
        _ => j,
    }
}

/// What a `Field` says of a member.
pub open spec fn field_json(f: Field) -> Option<Json> {
    match f {
        Field::Missing => None,
        Field::Text(s) => Some(Json::Text(s@)),
        Field::Integer(n) => Some(Json::Integer(n as int)),
        Field::Other => Some(Json::Other),
    }
}

/// The `(action, value)` pair that two members give. The action is checked
/// first; an integer value beyond the `i64` range counts as the nearest end
/// of it, which keeps every comparison with an `i64` threshold exact.
pub open spec fn pair_from_members(action: Option<Json>, value: Option<Json>) -> Result<
    (Seq<char>, i64),
    MessageError,
> {
    match action {
        None => Err(MessageError::MissingField),
        Some(Json::Text(a)) => match value {
            None => Err(MessageError::MissingField),
            Some(Json::Integer(n)) => if i64::MIN <= n <= u64::MAX {
                Ok((a, saturate(n)))
            } else {
                Err(MessageError::WrongType)
            },
            Some(_) => Err(MessageError::WrongType),
        },
        Some(_) => Err(MessageError::WrongType),
    }
}

/// The `(action, value)` pair that a parsed document gives.
pub open spec fn pair_from_document(doc: Option<Json>) -> Result<(Seq<char>, i64), MessageError> {
    match doc {
        Some(Json::Object(m)) => pair_from_members(lookup(m, "action"@), lookup(m, "value"@)),
        _ => Err(MessageError::MalformedPayload),
    }
}

/// The event that an action name and a magnitude stand for.
pub open spec fn event_for(kind: Seq<char>, value: i64) -> Option<ServerEvent> {
    if kind == "right"@ {
        Some(ServerEvent::RightPeak(value))
    } else if kind == "left"@ {
        Some(ServerEvent::LeftPeak(value))
    } else if kind == "shoot"@ {
        Some(ServerEvent::ShootPeak(value))
    } else {
        None
    }
}

/// The event for a pair, or `UnknownAction`.
pub open spec fn event_from_pair(p: Result<(Seq<char>, i64), MessageError>) -> Result<
    ServerEvent,
    MessageError,
> {
    match p {
        Err(e) => Err(e),
        Ok((kind, value)) => match event_for(kind, value) {
            Some(e) => Ok(e),
            None => Err(MessageError::UnknownAction),
        },
    }
}

/// The pair of a decoder result, as characters.
pub open spec fn pair_view(r: Result<(String, i64), MessageError>) -> Result<
    (Seq<char>, i64),
    MessageError,
> {
    match r {
        Ok((a, v)) => Ok((a@, v)),
        Err(e) => Err(e),
    }
}

/// Reads one member of an object.
fn read_field(doc: &serde_json::Value, key: &str) -> (r: Field)
    requires
        json_model(*doc) is Object,
    ensures
        field_json(r) == member_kind(lookup(json_model(*doc)->Object_0, key@)),
{
    match member(doc, key) {
        None => Field::Missing,
        Some(v) => match v.as_str() {
            Some(s) => Field::Text(s.to_owned()),
            None => match v.as_i64() {
                Some(n) => Field::Integer(n),
                None => match v.as_u64() {
                    Some(_) => Field::Integer(i64::MAX),
                    None => Field::Other,
                },
            },
        },
    }
}

/// Turns the two members of a frame into an `(action, value)` pair.
pub fn decode_fields(action: Field, value: Field) -> (r: Result<(String, i64), MessageError>)
    ensures
        pair_view(r) == pair_from_members(field_json(action), field_json(value)),
{
    match action {
        Field::Missing => Err(MessageError::MissingField),
        Field::Text(a) => match value {
            Field::Missing => Err(MessageError::MissingField),
            Field::Integer(n) => Ok((a, n)),
            _ => Err(MessageError::WrongType),
        },
        _ => Err(MessageError::WrongType),
    }
}

/// Reads a frame's text as a JSON object with an `action` string and an
/// integer `value`.
pub fn parse_game_message(message: &str) -> (r: Result<(String, i64), MessageError>)
    ensures
        pair_view(r) == pair_from_document(json_parse(message@)),
{
    match parse_json(message) {
        Err(_) => Err(MessageError::MalformedPayload),
        Ok(doc) => {
            if !doc.is_object() {
                return Err(MessageError::MalformedPayload);
            }
            let action = read_field(&doc, "action");
            let value = read_field(&doc, "value");
            decode_fields(action, value)
        },
    }
}

/// Maps an action name to its event: `right`, `left` and `shoot`; any other
/// name is `UnknownAction`.
pub fn event_for_action(kind: &str, value: i64) -> (r: Result<ServerEvent, MessageError>)
    ensures
        r == event_from_pair(Ok((kind@, value))),
{
    if same_text(kind, "right") {
        Ok(ServerEvent::RightPeak(value))
    } else if same_text(kind, "left") {
        Ok(ServerEvent::LeftPeak(value))
    } else if same_text(kind, "shoot") {
        Ok(ServerEvent::ShootPeak(value))
    } else {
        Err(MessageError::UnknownAction)
    }
}

/// Decodes one inbound text frame into the event it carries.
pub fn decode_message(message: &str) -> (r: Result<ServerEvent, MessageError>)
    ensures
        r == event_from_pair(pair_from_document(json_parse(message@))),
{
    match parse_game_message(message) {
        Err(e) => Err(e),
        Ok((kind, value)) => event_for_action(kind.as_str(), value),
    }
}

/// A decoded intensity frame whose magnitude reaches the threshold, drained
/// alone in a tick, resolves to the command that its action names: `right`
/// to `MoveRight`, `left` to `MoveLeft`, `shoot` to `Shoot`. A tick with
/// nothing new drained resolves to none.
pub proof fn lemma_delivered_frame_acts(kind: Seq<char>, value: i64, peak_min: int)
    requires
        event_for(kind, value) is Some,
        value >= peak_min,
    ensures
        resolve(seq![event_for(kind, value)->Some_0], peak_min) == Some(
            if kind == "right"@ {
                GameAction::MoveRight
            } else if kind == "left"@ {
                GameAction::MoveLeft
            } else {
                GameAction::Shoot
            },
        ),
        resolve(Seq::<ServerEvent>::empty(), peak_min) is None,
{
    let batch = seq![event_for(kind, value)->Some_0];
    assert(batch.drop_first().len() == 0);
}

} // verus!
