use vstd::prelude::*;

use crate::json::{json_read, read_json, Json};

verus! {

/// One unit that the transport hands upward from the agent's output.
#[derive(Debug)]
pub enum TransportMessage {
    /// A line that read as JSON.
    Json(Json),
    /// The output stream has ended.
    Closed,
    /// A line that did not read as JSON, with the parser's message.
    ParseError { line: String, error: String },
}

/// A character that takes no room on a line: space, tab, carriage return,
/// line feed.
pub open spec fn is_blank_char(c: char) -> bool {
    c == ' ' || c == '\t' || c == '\r' || c == '\n'
}

/// A line with nothing on it but blank characters (the empty line too).
pub open spec fn is_blank(s: Seq<char>) -> bool {
    forall|i: int| 0 <= i < s.len() ==> is_blank_char(#[trigger] s[i])
}

/// Whether a line is blank.
pub fn line_is_blank(line: &str) -> (r: bool)
    ensures
        r == is_blank(line@),
{
    let n = line.unicode_len();
    let mut i: usize = 0;
    while i < n
        invariant
            n == line@.len(),
            i <= n,
            forall|k: int| 0 <= k < i ==> is_blank_char(#[trigger] line@[k]),
        decreases n - i,
    {
        let c = line.get_char(i);
        if !(c == ' ' || c == '\t' || c == '\r' || c == '\n') {
            assert(!is_blank_char(line@[i as int]));
            return false;
        }
        i = i + 1;
    }
    true
}

/// Decodes one line of the agent's output. A blank line gives nothing; any
/// other is a JSON value or a parse error.
pub fn decode_line(line: String) -> (r: Option<TransportMessage>)
    ensures
        is_blank(line@) ==> r is None,
        !is_blank(line@) ==> match json_read(line@) {
            Ok(v) => r == Some(TransportMessage::Json(v)),
            Err(e) => match r {
                Some(TransportMessage::ParseError { line: l, error }) => l@ == line@ && error@ == e,
                _ => false,
            },
        },
{
    if line_is_blank(line.as_str()) {
        return None;
    }
    match read_json(line.as_str()) {
        Ok(v) => Some(TransportMessage::Json(v)),
        Err(error) => Some(TransportMessage::ParseError { line, error }),
    }
}

} // verus!
