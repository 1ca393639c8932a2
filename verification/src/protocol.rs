//! Envelope types of the command/event protocol and the builders that
//! produce well-formed responses.
//!
//! A payload travelling with a request or event is either a plain text
//! value (a JSON string on the wire) or an opaque blob of raw JSON text
//! that the library hands through unread.

use vstd::prelude::*;

verus! {

/// A payload value carried by a request or event. `Text` is a string
/// payload already decoded from the wire; `Raw` keeps any other JSON
/// value as its unparsed text, to be handed through to a collaborator.
#[derive(Clone, Debug)]
pub enum PayloadValue {
    Text { value: String },
    Raw { json: String },
}

/// A command invocation envelope: a command name with an optional payload.
#[derive(Clone, Debug)]
pub struct Request {
    pub command: String,
    pub payload: Option<PayloadValue>,
}

/// Structured data carried by a successful response.
#[derive(Clone, Debug)]
pub enum DataValue {
    /// A plain string datum (a version string, for instance).
    Text { value: String },
    /// The captured outcome of a shell command. A non-zero exit status is
    /// data at this layer, not an error.
    Shell { stdout: String, stderr: String, status: Option<i32> },
}

/// The reply to one request: a success flag, optional data, optional error.
#[derive(Clone, Debug)]
pub struct Response {
    pub success: bool,
    pub data: Option<DataValue>,
    pub error: Option<String>,
}

/// An unsolicited, fire-and-forget named payload.
#[derive(Clone, Debug)]
pub struct EventMsg {
    pub tag: String,
    pub payload: Option<PayloadValue>,
}

/// A named binary chunk, used for audio in both directions.
#[derive(Clone, Debug)]
pub struct StreamMsg {
    pub tag: String,
    pub bytes: Vec<u8>,
}

/// The passthrough event of the playback-state monitor: tagged
/// "playing", carrying the collaborator's opaque state value as raw
/// JSON text, unread.
pub fn playing_event(value: String) -> (r: EventMsg)
    ensures
        r.tag@ == "playing"@,
        r.payload matches Some(PayloadValue::Raw { json }) && json@ == value@,
{
    EventMsg { tag: "playing".to_owned(), payload: Some(PayloadValue::Raw { json: value }) }
}

/// The passthrough event of the wake-word monitor: tagged "kws",
/// carrying the collaborator's opaque event value as raw JSON text,
/// unread.
pub fn kws_event(value: String) -> (r: EventMsg)
    ensures
        r.tag@ == "kws"@,
        r.payload matches Some(PayloadValue::Raw { json }) && json@ == value@,
{
    EventMsg { tag: "kws".to_owned(), payload: Some(PayloadValue::Raw { json: value }) }
}

impl Response {
    /// A bare success response: no data, no error.
    pub fn success() -> (r: Response)
        ensures
            r.success,
            r.data is None,
            r.error is None,
    {
        Response { success: true, data: None, error: None }
    }

    /// A success response carrying `data`.
    pub fn from_data(data: DataValue) -> (r: Response)
        ensures
            r.success,
            r.data == Some(data),
            r.error is None,
    {
        Response { success: true, data: Some(data), error: None }
    }

    /// A failure response carrying the description of what went wrong.
    pub fn failure(message: &str) -> (r: Response)
        ensures
            !r.success,
            r.data is None,
            r.error matches Some(e) && e@ == message@,
    {
        Response { success: false, data: None, error: Some(message.to_owned()) }
    }
}

} // verus!
