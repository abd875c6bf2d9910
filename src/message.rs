use vstd::prelude::*;

use crate::json::{
    json_pretty_text, json_read, opt_chars, read_json, write_json_pretty, Json,
};

verus! {

/// The kind of a JSON-RPC message, as decided by which members it has.
#[derive(Debug, Clone, Copy, PartialEq, Eq, Structural)]
pub enum MessageType {
    Request,
    Response,
    Notification,
    Error,
}

pub open spec fn type_label(t: MessageType) -> Seq<char> {
    match t {
        MessageType::Request => "Request"@,
        MessageType::Response => "Response"@,
        MessageType::Notification => "Notification"@,
        MessageType::Error => "Error"@,
    }
}

impl MessageType {
    pub fn label(&self) -> (r: &'static str)
        ensures
            r@ == type_label(*self),
    {
        match self {
            MessageType::Request => "Request",
            MessageType::Response => "Response",
            MessageType::Notification => "Notification",
            MessageType::Error => "Error",
        }
    }
}

/// The decision table: an `error` member makes an error, then a `result`
/// member a response, then `id` with `method` a request, then `method` alone
/// a notification; anything else reads as a response.
pub open spec fn classify(has_id: bool, has_method: bool, has_result: bool, has_error: bool) -> MessageType {
    if has_error {
        MessageType::Error
    } else if has_result {
        MessageType::Response
    } else if has_id && has_method {
        MessageType::Request
    } else if has_method {
        MessageType::Notification
    } else {
        MessageType::Response
    }
}

pub open spec fn message_type_of(v: Json) -> MessageType {
    classify(v.has("id"@), v.has("method"@), v.has("result"@), v.has("error"@))
}

/// The value that a raw payload stands for: what it reads as, or null where
/// it is not JSON.
pub open spec fn payload_value(text: Seq<char>) -> Json {
    match json_read(text) {
        Ok(v) => v,
        Err(_) => Json::Null,
    }
}

/// The error details of an error object: an integer `code` and a string
/// `message` are both needed.
pub open spec fn error_details(e: Json) -> Option<(i64, Seq<char>, Option<Json>)> {
    match (e.i64_field("code"@), e.str_field("message"@)) {
        (Some(code), Some(message)) => Some((code, message, e.field("data"@))),
        _ => None,
    }
}

pub open spec fn error_of(v: Json) -> Option<(i64, Seq<char>, Option<Json>)> {
    match v.field("error"@) {
        Some(e) => error_details(e),
        None => None,
    }
}

/// Error details taken from a JSON-RPC error response.
#[derive(Debug)]
pub struct AcpError {
    pub code: i64,
    pub message: String,
    pub data: Option<Json>,
}

pub open spec fn error_view(e: Option<AcpError>) -> Option<(i64, Seq<char>, Option<Json>)> {
    match e {
        Some(e) => Some((e.code, e.message@, e.data)),
        None => None,
    }
}

/// One captured JSON-RPC payload with the members read out of it.
#[derive(Debug)]
pub struct AcpMessage {
    pub title: String,
    pub raw_json: String,
    pub is_response: bool,
    pub message_type: MessageType,
    pub jsonrpc_version: Option<String>,
    pub id: Option<Json>,
    pub method: Option<String>,
    pub params: Option<Json>,
    pub result: Option<Json>,
    pub error: Option<AcpError>,
}

/// `m` is what parsing `raw` under `title` gives.
pub open spec fn parsed_as(m: AcpMessage, title: Seq<char>, raw: Seq<char>, is_response: bool) -> bool {
    parsed_from(m, title, raw, payload_value(raw), is_response)
}

/// `m` is the message for raw text `raw` that stands for the value `v`.
pub open spec fn parsed_from(
    m: AcpMessage,
    title: Seq<char>,
    raw: Seq<char>,
    v: Json,
    is_response: bool,
) -> bool {
    &&& m.title@ == title
    &&& m.raw_json@ == raw
    &&& m.is_response == is_response
    &&& m.message_type == message_type_of(v)
    &&& opt_chars(m.jsonrpc_version) == v.str_field("jsonrpc"@)
    &&& m.id == v.field("id"@)
    &&& opt_chars(m.method) == v.str_field("method"@)
    &&& m.params == v.field("params"@)
    &&& m.result == v.field("result"@)
    &&& error_view(m.error) == error_of(v)
}

/// The value shown as a message's payload: its params, else its result, else
/// the data of its error.
pub open spec fn payload_of(m: AcpMessage) -> Option<Json> {
    if m.params.is_some() {
        m.params
    } else if m.result.is_some() {
        m.result
    } else {
        match m.error {
            Some(e) => e.data,
            None => None,
        }
    }
}

pub open spec fn direction_text(is_response: bool) -> Seq<char> {
    if is_response {
        "\u{2191} Incoming"@
    } else {
        "\u{2193} Outgoing"@
    }
}

fn classify_members(has_id: bool, has_method: bool, has_result: bool, has_error: bool) -> (r:
    MessageType)
    ensures
        r == classify(has_id, has_method, has_result, has_error),
{
    if has_error {
        MessageType::Error
    } else if has_result {
        MessageType::Response
    } else if has_id && has_method {
        MessageType::Request
    } else if has_method {
        MessageType::Notification
    } else {
        MessageType::Response
    }
}

/// Reads the details out of an error object.
fn error_from(mut e: Json) -> (r: Option<AcpError>)
    ensures
        error_view(r) == error_details(e),
{
    let code = e.get_i64("code");
    let message = e.get_str("message");
    match (code, message) {
        (Some(code), Some(message)) => {
            let data = e.take_field("data");
            Some(AcpError { code, message, data })
        },
        _ => None,
    }
}

impl AcpMessage {
    /// Parses a raw payload. Text that is not JSON is read as null, so every
    /// member is absent and the message is a response.
    pub fn parse(title: &str, raw_json: &str, is_response: bool) -> (r: AcpMessage)
        ensures
            parsed_as(r, title@, raw_json@, is_response),
    {
        let v = match read_json(raw_json) {
            Ok(v) => v,
            Err(_) => Json::Null,
        };
        AcpMessage::from_json(title, raw_json, v, is_response)
    }

    /// The message for raw text that has been read as the value `value`:
    /// its members are read out and it is classified by which are present.
    pub fn from_json(title: &str, raw_json: &str, value: Json, is_response: bool) -> (r:
        AcpMessage)
        ensures
            parsed_from(r, title@, raw_json@, value, is_response),
    {
        let mut v = value;
        let ghost v0 = v;
        proof {
            reveal_strlit("id");
            reveal_strlit("method");
            reveal_strlit("params");
            reveal_strlit("result");
            reveal_strlit("error");
            reveal_strlit("jsonrpc");
            assert("error"@.len() != "id"@.len());
            assert("error"@ != "params"@ && "error"@ != "result"@ && "result"@ != "params"@) by {
                assert("error"@[0] != "params"@[0] && "error"@[0] != "result"@[0]);
                assert("result"@[0] != "params"@[0]);
            }
            assert("result"@.len() != "id"@.len() && "params"@.len() != "id"@.len());
        }
        let jsonrpc_version = v.get_str("jsonrpc");
        let method = v.get_str("method");
        let message_type = classify_members(
            v.has_field("id"),
            v.has_field("method"),
            v.has_field("result"),
            v.has_field("error"),
        );
        let id = v.take_field("id");
        let params = v.take_field("params");
        let result = v.take_field("result");
        assert(v.field("error"@) == v0.field("error"@));
        let error = match v.take_field("error") {
            Some(e) => error_from(e),
            None => None,
        };
        AcpMessage {
            title: title.to_owned(),
            raw_json: raw_json.to_owned(),
            is_response,
            message_type,
            jsonrpc_version,
            id,
            method,
            params,
            result,
            error,
        }
    }

    /// The payload pretty-printed: params, else result, else the error's data.
    pub fn payload_json(&self) -> (r: Option<String>)
        ensures
            opt_chars(r) == match payload_of(*self) {
                Some(v) => Some(json_pretty_text(v)),
                None => None,
            },
    {
        match &self.params {
            Some(p) => Some(write_json_pretty(p)),
            None => match &self.result {
                Some(res) => Some(write_json_pretty(res)),
                None => match &self.error {
                    Some(e) => match &e.data {
                        Some(d) => Some(write_json_pretty(d)),
                        None => None,
                    },
                    None => None,
                },
            },
        }
    }

    /// The whole payload pretty-printed, or the raw text where it is not JSON.
    pub fn pretty_json(&self) -> (r: String)
        ensures
            r@ == match json_read(self.raw_json@) {
                Ok(v) => json_pretty_text(v),
                Err(_) => self.raw_json@,
            },
    {
        match read_json(self.raw_json.as_str()) {
            Ok(v) => write_json_pretty(&v),
            Err(_) => self.raw_json.clone(),
        }
    }

    pub fn direction_label(&self) -> (r: &'static str)
        ensures
            r@ == direction_text(self.is_response),
    {
        if self.is_response {
            "\u{2191} Incoming"
        } else {
            "\u{2193} Outgoing"
        }
    }
}

/// Classification looks at nothing but which of `id`, `method`, `result` and
/// `error` are present: two payloads that agree on those get the same type.
pub proof fn classification_depends_on_presence_only(a: Json, b: Json)
    requires
        a.has("id"@) == b.has("id"@),
        a.has("method"@) == b.has("method"@),
        a.has("result"@) == b.has("result"@),
        a.has("error"@) == b.has("error"@),
    ensures
        message_type_of(a) == message_type_of(b),
{
}

/// A request envelope: version "2.0", the given numeric id and method, some
/// params, and neither a result nor an error.
pub open spec fn is_request_envelope(v: Json, id: u64, method: Seq<char>) -> bool {
    &&& v.str_field("jsonrpc"@) == Some("2.0"@)
    &&& v.u64_field("id"@) == Some(id)
    &&& v.str_field("method"@) == Some(method)
    &&& v.has("params"@)
    &&& !v.has("result"@)
    &&& !v.has("error"@)
}

/// A text that reads back as a request envelope is classified as a request
/// by the message model.
pub proof fn request_envelope_reads_as_request(text: Seq<char>, id: u64, method: Seq<char>)
    requires
        json_read(text) is Ok,
        is_request_envelope(json_read(text)->Ok_0, id, method),
    ensures
        message_type_of(payload_value(text)) == MessageType::Request,
{
}

} // verus!
