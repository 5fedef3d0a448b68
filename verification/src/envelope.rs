//! The envelope of a direct message: a fixed header in front of the JSON of
//! the message.
//!
//! A text that does not begin with the header is somebody else's traffic and
//! holds no message. A text that does begin with it must hold a message, and
//! is malformed where it does not.
use crate::json::{json_parsed, json_rendered, json_tree, parse_json, render_json};
use crate::message::{
    lemma_message_tree_round_trip, message_from_value, message_of_tree, message_to_value,
    message_tree, MessageView, N3xMessage,
};
use crate::text::same_text;
use crate::tree::JsonTree;
use serde_json::Value;
use vstd::prelude::*;

verus! {

/// The number of characters in the header.
pub const HEADER_LENGTH: usize = 10;

/// Why a text that begins with the header holds no message.
#[derive(Clone, Copy, Debug, PartialEq, Eq, Structural)]
pub enum EnvelopeMalformed {
    /// What follows the header is not JSON.
    NotJson,
    /// What follows the header is JSON of another shape than a message's.
    WrongShape,
}

/// The header: the ten characters `n3x_header`.
pub open spec fn header() -> Seq<char> {
    "n3x_header"@
}

/// A payload with the header in front of it.
pub open spec fn framed(payload: Seq<char>) -> Seq<char> {
    header() + payload
}

/// What follows the header, where the text begins with it.
pub open spec fn unframed(raw: Seq<char>) -> Option<Seq<char>> {
    if raw.len() >= HEADER_LENGTH && raw.subrange(0, HEADER_LENGTH as int) == header() {
        Some(raw.subrange(HEADER_LENGTH as int, raw.len() as int))
    } else {
        None
    }
}

/// The message in a payload that was read as JSON, or not.
pub open spec fn payload_message(parsed: Option<JsonTree>) -> Result<
    MessageView,
    EnvelopeMalformed,
> {
    match parsed {
        None => Err(EnvelopeMalformed::NotJson),
        Some(tree) => match message_of_tree(tree) {
            Some(message) => Ok(message),
            None => Err(EnvelopeMalformed::WrongShape),
        },
    }
}

/// The envelope of a message.
pub open spec fn encoded(message: MessageView) -> Seq<char> {
    framed(json_rendered(message_tree(message)))
}

/// What a text received as a direct message holds.
pub open spec fn decoded(raw: Seq<char>) -> Result<Option<MessageView>, EnvelopeMalformed> {
    match unframed(raw) {
        None => Ok(None),
        Some(payload) => match payload_message(json_parsed(payload)) {
            Ok(message) => Ok(Some(message)),
            Err(malformed) => Err(malformed),
        },
    }
}

/// The view of what [`interpret_payload`] returns.
pub open spec fn payload_view(outcome: Result<N3xMessage, EnvelopeMalformed>) -> Result<
    MessageView,
    EnvelopeMalformed,
> {
    match outcome {
        Ok(message) => Ok(message@),
        Err(malformed) => Err(malformed),
    }
}

/// The view of what [`decode`] returns.
pub open spec fn decode_view(outcome: Result<Option<N3xMessage>, EnvelopeMalformed>) -> Result<
    Option<MessageView>,
    EnvelopeMalformed,
> {
    match outcome {
        Ok(Some(message)) => Ok(Some(message@)),
        Ok(None) => Ok(None),
        Err(malformed) => Err(malformed),
    }
}

/// The tree of a value that was read as JSON, or not.
pub open spec fn parsed_tree(parsed: Result<Value, serde_json::Error>) -> Option<JsonTree> {
    match parsed {
        Ok(value) => Some(json_tree(value)),
        Err(_) => None,
    }
}

/// The header has ten characters.
pub proof fn lemma_header_length()
    ensures
        header().len() == HEADER_LENGTH,
{
    reveal_strlit("n3x_header");
}

/// Puts the header in front of a payload.
pub fn frame(payload: &str) -> (raw: String)
    ensures
        raw@ == framed(payload@),
{
    String::from_str("n3x_header").concat(payload)
}

/// Takes the header off a text: `None` where the text does not begin with
/// it, be it because the text is shorter than the header.
pub fn unframe(raw: &str) -> (payload: Option<&str>)
    ensures
        match payload {
            Some(rest) => unframed(raw@) == Some(rest@),
            None => unframed(raw@) is None,
        },
{
    proof {
        lemma_header_length();
    }
    let length = raw.unicode_len();
    if length < HEADER_LENGTH {
        return None;
    }
    if same_text(raw.substring_char(0, HEADER_LENGTH), "n3x_header") {
        Some(raw.substring_char(HEADER_LENGTH, length))
    } else {
        None
    }
}

/// Finds the message in a payload, given what reading the payload as JSON
/// gave: `NotJson` where that failed, `WrongShape` where the value is not a
/// message's.
pub fn interpret_payload(parsed: Result<Value, serde_json::Error>) -> (outcome: Result<
    N3xMessage,
    EnvelopeMalformed,
>)
    ensures
        payload_view(outcome) == payload_message(parsed_tree(parsed)),
{
    match parsed {
        Err(_) => Err(EnvelopeMalformed::NotJson),
        Ok(value) => match message_from_value(&value) {
            Some(message) => Ok(message),
            None => Err(EnvelopeMalformed::WrongShape),
        },
    }
}

/// Writes the envelope of a message: the header, then the message as compact
/// JSON.
pub fn encode(message: &N3xMessage) -> (raw: String)
    ensures
        raw@ == encoded(message@),
{
    let value = message_to_value(message);
    let payload = render_json(&value);
    frame(payload.as_str())
}

/// Reads a text received as a direct message. `Ok(None)` where it does not
/// begin with the header; otherwise the message it holds, or the reason why
/// it holds none.
pub fn decode(raw: &str) -> (outcome: Result<Option<N3xMessage>, EnvelopeMalformed>)
    ensures
        decode_view(outcome) == decoded(raw@),
{
    match unframe(raw) {
        None => Ok(None),
        Some(payload) => match interpret_payload(parse_json(payload)) {
            Ok(message) => Ok(Some(message)),
            Err(malformed) => Err(malformed),
        },
    }
}

/// Taking the header off a framed payload gives the payload back.
pub proof fn lemma_frame_round_trip(payload: Seq<char>)
    ensures
        unframed(framed(payload)) == Some(payload),
{
    let raw = framed(payload);
    lemma_header_length();
    assert(raw.subrange(0, HEADER_LENGTH as int) =~= header());
}

/// A text whose first ten characters are not the header holds no message,
/// whatever follows them, and is not malformed either.
pub proof fn lemma_foreign_text(raw: Seq<char>)
    requires
        raw.len() < HEADER_LENGTH || raw.subrange(0, HEADER_LENGTH as int) != header(),
    ensures
        decoded(raw) == Ok::<Option<MessageView>, EnvelopeMalformed>(None),
{
}

/// A text that begins with the header is never passed over: it holds a
/// message or is malformed.
pub proof fn lemma_headed_text(raw: Seq<char>)
    requires
        raw.len() >= HEADER_LENGTH,
        raw.subrange(0, HEADER_LENGTH as int) == header(),
    ensures
        decoded(raw) != Ok::<Option<MessageView>, EnvelopeMalformed>(None),
{
}

/// The envelope of a message is never taken for somebody else's traffic:
/// it begins with the header, and what follows the header is the JSON text
/// of the message.
pub proof fn lemma_envelope_is_headed(message: MessageView)
    ensures
        unframed(encoded(message)) == Some(json_rendered(message_tree(message))),
        decoded(encoded(message)) != Ok::<Option<MessageView>, EnvelopeMalformed>(None),
{
    lemma_frame_round_trip(json_rendered(message_tree(message)));
}

/// Decoding the envelope of a message gives the message back, provided that
/// the JSON text written for the message's tree is read back as that tree.
pub proof fn lemma_codec_round_trip(message: MessageView)
    ensures
        json_parsed(json_rendered(message_tree(message))) == Some(message_tree(message))
            ==> decoded(encoded(message)) == Ok::<Option<MessageView>, EnvelopeMalformed>(
            Some(message),
        ),
{
    lemma_frame_round_trip(json_rendered(message_tree(message)));
    lemma_message_tree_round_trip(message);
}

} // verus!
