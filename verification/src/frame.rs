use vstd::prelude::*;

use crate::text::{decimal, push_decimal};

verus! {

/// Hard limit for a single newline-delimited JSON frame.
pub const MAX_FRAME_BYTES: usize = 1024 * 1024;

/// The byte that ends every frame.
pub const NEWLINE: u8 = 10;

/// A carriage return, tolerated before the final newline of a frame.
pub const CARRIAGE_RETURN: u8 = 13;

#[verifier::external_type_specification]
#[verifier::external_body]
pub struct ExJsonError(serde_json::Error);

/// Why a frame could not be encoded or decoded.
#[derive(Debug)]
pub enum FrameError {
    Empty,
    TooLarge { actual: usize, maximum: usize },
    Json(serde_json::Error),
}

/// `frame` without one trailing newline, if it ends with one.
pub open spec fn strip_newline(frame: Seq<u8>) -> Seq<u8> {
    if frame.len() > 0 && frame.last() == NEWLINE {
        frame.drop_last()
    } else {
        frame
    }
}

/// `frame` without one trailing carriage return, if it ends with one.
pub open spec fn strip_carriage_return(frame: Seq<u8>) -> Seq<u8> {
    if frame.len() > 0 && frame.last() == CARRIAGE_RETURN {
        frame.drop_last()
    } else {
        frame
    }
}

/// The JSON payload that a received frame carries: the frame without its
/// optional trailing newline, and then without an optional carriage return.
pub open spec fn frame_payload(frame: Seq<u8>) -> Seq<u8> {
    strip_carriage_return(strip_newline(frame))
}

/// The outcome that `decode_frame` owes for `frame`.
pub open spec fn decoded(frame: Seq<u8>, res: Result<Vec<u8>, FrameError>) -> bool {
    let payload = frame_payload(frame);
    match res {
        Ok(v) => 0 < payload.len() <= MAX_FRAME_BYTES && v@ == payload,
        Err(FrameError::Empty) => payload.len() == 0,
        Err(FrameError::TooLarge { actual, maximum }) => {
            &&& payload.len() > MAX_FRAME_BYTES
            &&& actual == payload.len()
            &&& maximum == MAX_FRAME_BYTES
        },
        Err(FrameError::Json(_)) => false,
    }
}

/// The outcome that `encode_frame` owes for the serialized message `json`.
pub open spec fn encoded(json: Seq<u8>, res: Result<Vec<u8>, FrameError>) -> bool {
    match res {
        Ok(frame) => json.len() <= MAX_FRAME_BYTES && frame@ == json.push(NEWLINE),
        Err(FrameError::TooLarge { actual, maximum }) => {
            &&& json.len() > MAX_FRAME_BYTES
            &&& actual == json.len()
            &&& maximum == MAX_FRAME_BYTES
        },
        Err(_) => false,
    }
}

/// Turns one serialized message into a newline-terminated frame.
pub fn encode_frame(json: Vec<u8>) -> (res: Result<Vec<u8>, FrameError>)
    ensures
        encoded(json@, res),
{
    let mut frame = json;
    if frame.len() > MAX_FRAME_BYTES {
        return Err(FrameError::TooLarge { actual: frame.len(), maximum: MAX_FRAME_BYTES });
    }
    frame.push(NEWLINE);
    Ok(frame)
}

/// Extracts the JSON payload of one received frame. A single trailing newline
/// is optional, and a carriage return before it is dropped as well. The size
/// limit is enforced before any JSON is parsed.
pub fn decode_frame(frame: &[u8]) -> (res: Result<Vec<u8>, FrameError>)
    ensures
        decoded(frame@, res),
{
    let mut end = frame.len();
    if end > 0 && frame[end - 1] == NEWLINE {
        end = end - 1;
    }
    if end > 0 && frame[end - 1] == CARRIAGE_RETURN {
        end = end - 1;
    }
    proof {
        assert(frame_payload(frame@) =~= frame@.subrange(0, end as int));
    }
    if end == 0 {
        return Err(FrameError::Empty);
    }
    if end > MAX_FRAME_BYTES {
        return Err(FrameError::TooLarge { actual: end, maximum: MAX_FRAME_BYTES });
    }
    let mut payload: Vec<u8> = Vec::with_capacity(end);
    let mut i: usize = 0;
    while i < end
        invariant
            0 <= i <= end <= frame@.len(),
            payload@ =~= frame@.subrange(0, i as int),
        decreases end - i,
    {
        payload.push(frame[i]);
        i = i + 1;
    }
    Ok(payload)
}

/// Decoding the frame that encoding produced gives back the serialized
/// message, when it is not empty, within the limit, and does not end with a
/// carriage return.
pub proof fn lemma_decode_inverts_encode(
    json: Seq<u8>,
    framed: Result<Vec<u8>, FrameError>,
    received: Result<Vec<u8>, FrameError>,
)
    requires
        0 < json.len() <= MAX_FRAME_BYTES,
        json.last() != CARRIAGE_RETURN,
        encoded(json, framed),
        framed matches Ok(frame) ==> decoded(frame@, received),
    ensures
        framed matches Ok(frame) && frame@.last() == NEWLINE,
        received matches Ok(payload) && payload@ == json,
{
    let frame = json.push(NEWLINE);
    assert(frame.drop_last() =~= json);
}

/// The trailing newline of a frame is optional: a serialized message that is
/// not empty, within the limit, and ends with neither a newline nor a
/// carriage return decodes to itself.
pub proof fn lemma_newline_optional(json: Seq<u8>, received: Result<Vec<u8>, FrameError>)
    requires
        0 < json.len() <= MAX_FRAME_BYTES,
        json.last() != NEWLINE,
        json.last() != CARRIAGE_RETURN,
        decoded(json, received),
    ensures
        received matches Ok(payload) && payload@ == json,
{
}

/// A received line longer than a frame, its carriage return and its newline
/// is rejected as too large, before any JSON is parsed.
pub proof fn lemma_oversized_frame_rejected(frame: Seq<u8>, received: Result<Vec<u8>, FrameError>)
    requires
        frame.len() > MAX_FRAME_BYTES + 2,
        decoded(frame, received),
    ensures
        received matches Err(FrameError::TooLarge { maximum, .. }) && maximum == MAX_FRAME_BYTES,
{
}

/// The text that `serde_json::Error` displays for `error`: the parser's
/// explanation and where in the input it stopped.
pub uninterp spec fn json_error_message(error: serde_json::Error) -> Seq<char>;

/// Text of a JSON error, as `serde_json::Error` displays it.
/// Calls `<serde_json::Error as Display>::fmt` through `to_string`, which
/// cannot fail; the text is named `json_error_message` of the error.
#[verifier::external_body]
fn json_error_text(error: &serde_json::Error) -> (text: String)
    ensures
        text@ == json_error_message(*error),
{
    error.to_string()
}

/// The description of a frame whose JSON could not be parsed, where
/// `detail` is the parser's explanation.
pub fn json_error_description(detail: &str) -> (text: String)
    ensures
        text@ == "invalid IPC JSON: "@ + detail@,
{
    String::from_str("invalid IPC JSON: ").concat(detail)
}

/// Whether `text` describes `error`; a JSON error is described by a fixed
/// prefix and the parser's own explanation.
pub open spec fn describes_frame_error(error: FrameError, text: Seq<char>) -> bool {
    match error {
        FrameError::Empty => text == "IPC frame is empty"@,
        FrameError::TooLarge { actual, maximum } => text == "IPC frame is "@ + decimal(
            actual as nat,
        ) + " bytes; maximum is "@ + decimal(maximum as nat),
        FrameError::Json(e) => text == "invalid IPC JSON: "@ + json_error_message(e),
    }
}

impl FrameError {
    /// The parser's error underneath, for a JSON error.
    pub fn source(&self) -> (inner: Option<&serde_json::Error>)
        ensures
            match self {
                FrameError::Json(e) => inner == Some(e),
                _ => inner is None,
            },
    {
        match self {
            FrameError::Json(e) => Some(e),
            _ => None,
        }
    }

    /// A human-readable description of the error.
    pub fn message(&self) -> (text: String)
        ensures
            describes_frame_error(*self, text@),
    {
        match self {
            FrameError::Empty => String::from_str("IPC frame is empty"),
            FrameError::TooLarge { actual, maximum } => {
                let mut text = String::from_str("IPC frame is ");
                push_decimal(&mut text, *actual as u64);
                text.append(" bytes; maximum is ");
                push_decimal(&mut text, *maximum as u64);
                text
            },
            FrameError::Json(error) => {
                let detail = json_error_text(error);
                json_error_description(detail.as_str())
            },
        }
    }
}

} // verus!
