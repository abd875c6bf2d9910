use vstd::prelude::*;

use crate::connection::{notification_sent, request_step, AcpConnection, Effect};
use crate::error::ClientError;
use crate::json::Json;

verus! {

pub open spec fn is_str_entry(m: (String, Json), key: Seq<char>, s: Seq<char>) -> bool {
    m.0@ == key && m.1.str_view() == Some(s)
}

/// `{"cwd": cwd}`
pub open spec fn is_new_session_params(p: Json, cwd: Seq<char>) -> bool {
    match p {
        Json::Object(m) => m@.len() == 1 && is_str_entry(m@[0], "cwd"@, cwd),
        _ => false,
    }
}

/// `{"sessionId": session_id, "prompt": messages}`
pub open spec fn is_prompt_params(p: Json, session_id: Seq<char>, messages: Vec<Json>) -> bool {
    match p {
        Json::Object(m) => {
            &&& m@.len() == 2
            &&& is_str_entry(m@[0], "sessionId"@, session_id)
            &&& m@[1].0@ == "prompt"@ && m@[1].1 == Json::Array(messages)
        },
        _ => false,
    }
}

/// `{"sessionId": session_id}`
pub open spec fn is_cancel_params(p: Json, session_id: Seq<char>) -> bool {
    match p {
        Json::Object(m) => m@.len() == 1 && is_str_entry(m@[0], "sessionId"@, session_id),
        _ => false,
    }
}

/// `{"method": method, "credentials": credentials}`
pub open spec fn is_authenticate_params(p: Json, method: Seq<char>, credentials: Json) -> bool {
    match p {
        Json::Object(m) => {
            &&& m@.len() == 2
            &&& is_str_entry(m@[0], "method"@, method)
            &&& m@[1].0@ == "credentials"@ && m@[1].1 == credentials
        },
        _ => false,
    }
}

fn entry(key: &str, value: Json) -> (r: (String, Json))
    ensures
        r.0@ == key@,
        r.1 == value,
{
    (key.to_owned(), value)
}

impl AcpConnection {
    /// Asks the agent for a new session working in `cwd`.
    pub fn new_session(&mut self, cwd: &str) -> (r: (u64, Vec<Effect>))
        requires
            old(self).wf(),
            old(self)@.next_request_id < u64::MAX,
        ensures
            final(self).wf(),
            exists|p: Json|
                #![trigger is_new_session_params(p, cwd@)]
                is_new_session_params(p, cwd@) && request_step(
                    old(self)@,
                    final(self)@,
                    r.0,
                    "session/new"@,
                    p,
                    r.1@,
                ),
    {
        let mut m: Vec<(String, Json)> = Vec::new();
        m.push(entry("cwd", Json::string(cwd)));
        let params = Json::Object(m);
        let ghost p = params;
        let r = self.send_request("session/new", params);
        assert(is_new_session_params(p, cwd@));
        r
    }

    /// Sends prompt content to a session; what the agent does with it comes
    /// back as session notifications.
    pub fn prompt(&mut self, session_id: &str, messages: Vec<Json>) -> (r: (u64, Vec<Effect>))
        requires
            old(self).wf(),
            old(self)@.next_request_id < u64::MAX,
        ensures
            final(self).wf(),
            exists|p: Json|
                #![trigger is_prompt_params(p, session_id@, messages)]
                is_prompt_params(p, session_id@, messages) && request_step(
                    old(self)@,
                    final(self)@,
                    r.0,
                    "session/prompt"@,
                    p,
                    r.1@,
                ),
    {
        let ghost msgs = messages;
        let mut m: Vec<(String, Json)> = Vec::new();
        m.push(entry("sessionId", Json::string(session_id)));
        m.push(entry("prompt", Json::Array(messages)));
        let params = Json::Object(m);
        let ghost p = params;
        let r = self.send_request("session/prompt", params);
        assert(is_prompt_params(p, session_id@, msgs));
        r
    }

    /// Tells the agent to stop its work in a session; a notification.
    pub fn cancel(&self, session_id: &str) -> (r: (Vec<Effect>, Result<(), ClientError>))
        ensures
            exists|p: Json|
                #![trigger is_cancel_params(p, session_id@)]
                is_cancel_params(p, session_id@) && notification_sent(
                    self@,
                    "session/cancel"@,
                    p,
                    r.0@,
                    r.1,
                ),
    {
        let mut m: Vec<(String, Json)> = Vec::new();
        m.push(entry("sessionId", Json::string(session_id)));
        let params = Json::Object(m);
        let ghost p = params;
        let r = self.send_notification("session/cancel", params);
        assert(is_cancel_params(p, session_id@));
        r
    }

    /// Authenticates with the given method and credentials.
    pub fn authenticate(&mut self, method: &str, credentials: Json) -> (r: (u64, Vec<Effect>))
        requires
            old(self).wf(),
            old(self)@.next_request_id < u64::MAX,
        ensures
            final(self).wf(),
            exists|p: Json|
                #![trigger is_authenticate_params(p, method@, credentials)]
                is_authenticate_params(p, method@, credentials) && request_step(
                    old(self)@,
                    final(self)@,
                    r.0,
                    "authenticate"@,
                    p,
                    r.1@,
                ),
    {
        let ghost c = credentials;
        let mut m: Vec<(String, Json)> = Vec::new();
        m.push(entry("method", Json::string(method)));
        m.push(entry("credentials", credentials));
        let params = Json::Object(m);
        let ghost p = params;
        let r = self.send_request("authenticate", params);
        assert(is_authenticate_params(p, method@, c));
        r
    }
}

/// What a `session/new` request yields once its outcome is in: the
/// `sessionId` string of the result, a parse error where there is none, or
/// the request's own error.
pub fn new_session_result(outcome: Result<Json, ClientError>) -> (r: Result<String, ClientError>)
    ensures
        match outcome {
            Ok(v) => match v.str_field("sessionId"@) {
                Some(s) => r is Ok && r->Ok_0@ == s,
                None => r is Err && r->Err_0 is ParseError,
            },
            Err(e) => r == Err::<String, ClientError>(e),
        },
{
    match outcome {
        Ok(v) => match v.get_str("sessionId") {
            Some(s) => Ok(s),
            None => Err(ClientError::ParseError("missing sessionId in response".to_owned())),
        },
        Err(e) => Err(e),
    }
}

} // verus!
