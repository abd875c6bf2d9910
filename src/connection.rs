use vstd::prelude::*;

use crate::agent::{AgentConfig, AgentStatus};
use crate::error::ClientError;
use crate::json::{json_text, write_json, Json};
use crate::message::{parsed_as, AcpMessage};
use crate::transport::TransportMessage;

verus! {

/// What observers of a connection are told.
#[derive(Debug)]
pub enum ConnectionEvent {
    StateChanged(AgentStatus),
    /// A JSON-RPC payload went out or came in.
    MessageCaptured { message: Box<AcpMessage>, is_incoming: bool },
    /// A notification from the agent about one of its sessions.
    SessionNotification { session_id: String, method: String, params: Json },
}

/// One thing that the runtime around a connection must do, in order, after
/// a step of the connection.
#[derive(Debug)]
pub enum Effect {
    /// Tell the observers.
    Emit(ConnectionEvent),
    /// Launch the agent process of the stored config.
    Spawn,
    /// Write one line to the agent; `request_id` names the request it carries.
    Send { request_id: Option<u64>, line: String },
    /// Hand the outcome to whoever waits on the request.
    Resolve { request_id: u64, outcome: Result<Json, ClientError> },
    /// Terminate the agent process.
    KillTransport,
    /// Stop reading the agent's output.
    StopPump,
    /// A response came in without an id that a request could have; it is
    /// dropped, and the runtime may log its text.
    DroppedResponse { raw: String },
}

struct PendingRequest {
    id: u64,
    #[allow(dead_code)]
    method: String,
}

/// The protocol state machine: status, request ids, requests in flight.
pub struct AcpConnection {
    status: AgentStatus,
    config: Option<AgentConfig>,
    transport_open: bool,
    pump_running: bool,
    next_request_id: u64,
    pending_requests: Vec<PendingRequest>,
    handshake_id: Option<u64>,
}

pub struct ConnectionView {
    pub status: AgentStatus,
    pub config: Option<AgentConfig>,
    pub transport_open: bool,
    pub pump_running: bool,
    pub next_request_id: u64,
    /// Ids of the requests in flight, oldest first.
    pub pending: Seq<u64>,
    /// The id of the `initialize` request while it is in flight.
    pub handshake: Option<u64>,
}

spec fn pending_ids(p: Seq<PendingRequest>) -> Seq<u64> {
    p.map_values(|r: PendingRequest| r.id)
}

impl View for AcpConnection {
    type V = ConnectionView;

    closed spec fn view(&self) -> ConnectionView {
        ConnectionView {
            status: self.status,
            config: self.config,
            transport_open: self.transport_open,
            pump_running: self.pump_running,
            next_request_id: self.next_request_id,
            pending: pending_ids(self.pending_requests@),
            handshake: self.handshake_id,
        }
    }
}

pub open spec fn increasing(s: Seq<u64>) -> bool {
    forall|i: int, j: int| 0 <= i < j < s.len() ==> s[i] < s[j]
}

/// Ids in flight are distinct (in increasing order) and all were handed out
/// already; a handshake is in flight only during a connection attempt, as
/// one of them; nothing is in flight without a transport.
pub open spec fn view_wf(v: ConnectionView) -> bool {
    &&& increasing(v.pending)
    &&& forall|i: int| 0 <= i < v.pending.len() ==> v.pending[i] < v.next_request_id
    &&& (v.handshake is Some ==> v.pending.contains(v.handshake->0))
    &&& (v.handshake is Some ==> v.status == AgentStatus::Connecting)
    &&& (v.pending.len() > 0 ==> v.transport_open)
}

/// The state that a disconnect leaves.
pub open spec fn disconnected(v: ConnectionView) -> ConnectionView {
    ConnectionView {
        status: AgentStatus::Disconnected,
        config: None,
        transport_open: false,
        pump_running: false,
        next_request_id: v.next_request_id,
        pending: Seq::empty(),
        handshake: None,
    }
}

pub open spec fn with_status(v: ConnectionView, s: AgentStatus) -> ConnectionView {
    ConnectionView { status: s, ..v }
}

/// The ids of the requests that the effects resolve, in order.
pub open spec fn resolved_ids(effects: Seq<Effect>) -> Seq<u64>
    decreases effects.len(),
{
    if effects.len() == 0 {
        Seq::empty()
    } else {
        match effects.last() {
            Effect::Resolve { request_id, .. } => resolved_ids(effects.drop_last()).push(
                request_id,
            ),
            _ => resolved_ids(effects.drop_last()),
        }
    }
}

pub open spec fn emits_state(e: Effect, s: AgentStatus) -> bool {
    e == Effect::Emit(ConnectionEvent::StateChanged(s))
}

/// `e` reports `raw` under `title` as captured, in the given direction.
pub open spec fn is_capture(e: Effect, title: Seq<char>, raw: Seq<char>, incoming: bool) -> bool {
    match e {
        Effect::Emit(ConnectionEvent::MessageCaptured { message, is_incoming }) => is_incoming
            == incoming && parsed_as(*message, title, raw, incoming),
        _ => false,
    }
}

/// A JSON-RPC 2.0 envelope, members in this order: `jsonrpc`, `id` (for a
/// request), `method`, `params`.
pub open spec fn is_envelope(v: Json, id: Option<u64>, method: Seq<char>, params: Json) -> bool {
    match v {
        Json::Object(members) => {
            let m = members@;
            match id {
                Some(n) => {
                    &&& m.len() == 4
                    &&& m[0].0@ == "jsonrpc"@ && m[0].1.str_view() == Some("2.0"@)
                    &&& m[1].0@ == "id"@ && m[1].1 == Json::UInt(n)
                    &&& m[2].0@ == "method"@ && m[2].1.str_view() == Some(method)
                    &&& m[3].0@ == "params"@ && m[3].1 == params
                },
                None => {
                    &&& m.len() == 3
                    &&& m[0].0@ == "jsonrpc"@ && m[0].1.str_view() == Some("2.0"@)
                    &&& m[1].0@ == "method"@ && m[1].1.str_view() == Some(method)
                    &&& m[2].0@ == "params"@ && m[2].1 == params
                },
            }
        },
        _ => false,
    }
}

/// The effects and state of a request `method` with `params`, sent as id
/// `id`: it is captured as outgoing; with a transport it goes into flight
/// and out as one line, without one it fails at once as not connected.
pub open spec fn request_step(
    old: ConnectionView,
    new: ConnectionView,
    id: u64,
    method: Seq<char>,
    params: Json,
    effects: Seq<Effect>,
) -> bool {
    exists|env: Json|
        #![trigger is_envelope(env, Some(id), method, params)]
        {
            &&& is_envelope(env, Some(id), method, params)
            &&& id == old.next_request_id
            &&& new.next_request_id == id + 1
            &&& new.status == old.status && new.config == old.config
            &&& new.transport_open == old.transport_open && new.pump_running == old.pump_running
            &&& new.handshake == old.handshake
            &&& effects.len() == 2
            &&& is_capture(effects[0], method, json_text(env), false)
            &&& if old.transport_open {
                &&& new.pending == old.pending.push(id)
                &&& match effects[1] {
                    Effect::Send { request_id, line } => request_id == Some(id) && line@
                        == json_text(env),
                    _ => false,
                }
            } else {
                &&& new.pending == old.pending
                &&& match effects[1] {
                    Effect::Resolve { request_id, outcome } => request_id == id && outcome
                        is Err && outcome->Err_0 is NotConnected,
                    _ => false,
                }
            }
        }
}

/// The outcome that a response frame `v` gives its request: the agent's
/// error where there is an `error` member, else the `result`, else null.
pub open spec fn response_outcome(outcome: Result<Json, ClientError>, v: Json) -> bool {
    match v.field("error"@) {
        Some(e) => match outcome {
            Err(ClientError::AgentError { code, message, data }) => {
                &&& code == (match e.i64_field("code"@) {
                    Some(c) => c,
                    None => 0,
                })
                &&& message@ == (match e.str_field("message"@) {
                    Some(m) => m,
                    None => "unknown error"@,
                })
                &&& data == e.field("data"@)
            },
            _ => false,
        },
        None => match v.field("result"@) {
            Some(res) => outcome == Ok::<Json, ClientError>(res),
            None => outcome == Ok::<Json, ClientError>(Json::Null),
        },
    }
}

/// Request `id` leaves the flight and is resolved by `effects[0]`; where
/// it was the handshake, the status becomes `Connected` on success and
/// `Error` otherwise.
pub open spec fn settle(old: ConnectionView, new: ConnectionView, id: u64, effects: Seq<Effect>) -> bool {
    &&& new.pending == old.pending.remove_value(id)
    &&& new.config == old.config && new.transport_open == old.transport_open
    &&& new.pump_running == old.pump_running && new.next_request_id == old.next_request_id
    &&& effects.len() >= 1
    &&& match effects[0] {
        Effect::Resolve { request_id, outcome } => request_id == id && if old.handshake == Some(
            id,
        ) {
            let s = if outcome is Ok {
                AgentStatus::Connected
            } else {
                AgentStatus::Error
            };
            &&& new.handshake is None
            &&& new.status == s
            &&& effects.len() == 2
            &&& emits_state(effects[1], s)
        } else {
            &&& new.handshake == old.handshake
            &&& new.status == old.status
            &&& effects.len() == 1
        },
        _ => false,
    }
}

/// A response frame `v` for request `id`: a request in flight under that id
/// is settled with the outcome that the frame gives; any other id changes
/// nothing.
pub open spec fn response_step(
    old: ConnectionView,
    new: ConnectionView,
    id: u64,
    v: Json,
    effects: Seq<Effect>,
) -> bool {
    if old.pending.contains(id) {
        &&& settle(old, new, id, effects)
        &&& match effects[0] {
            Effect::Resolve { outcome, .. } => response_outcome(outcome, v),
            _ => false,
        }
    } else {
        new == old && effects.len() == 0
    }
}

/// A frame `v` that is no response: a notification carrying a `sessionId`
/// string in its params is passed on; anything else is dropped.
pub open spec fn notification_step(v: Json, effects: Seq<Effect>) -> bool {
    let params = match v.field("params"@) {
        Some(p) => p,
        None => Json::Null,
    };
    match (v.str_field("method"@), params.str_field("sessionId"@)) {
        (Some(m), Some(sid)) => effects.len() == 1 && match effects[0] {
            Effect::Emit(ConnectionEvent::SessionNotification { session_id, method, params: p }) => {
                &&& session_id@ == sid
                &&& method@ == m
                &&& p == params
            },
            _ => false,
        },
        _ => effects.len() == 0,
    }
}

/// The title under which an incoming frame is captured.
pub open spec fn incoming_title(v: Json) -> Seq<char> {
    match v.str_field("method"@) {
        Some(m) => m,
        None => "response"@,
    }
}

/// Whether the pump treats a frame as a response: it has a `result` or an
/// `error` member.
pub open spec fn is_response_frame(v: Json) -> bool {
    v.has("result"@) || v.has("error"@)
}

/// One JSON frame from the agent: captured first, then dispatched.
pub open spec fn frame_step(old: ConnectionView, new: ConnectionView, v: Json, effects: Seq<Effect>) -> bool {
    &&& effects.len() >= 1
    &&& is_capture(effects[0], incoming_title(v), json_text(v), true)
    &&& if is_response_frame(v) {
        match v.u64_field("id"@) {
            Some(id) => response_step(old, new, id, v, effects.drop_first()),
            None => new == old && effects.len() == 2 && match effects[1] {
                Effect::DroppedResponse { raw } => raw@ == json_text(v),
                _ => false,
            },
        }
    } else {
        new == old && notification_step(v, effects.drop_first())
    }
}

/// A notification `method` with `params`, captured as outgoing and written
/// out where there is a transport; without one it fails as not connected.
pub open spec fn notification_sent(
    v: ConnectionView,
    method: Seq<char>,
    params: Json,
    effects: Seq<Effect>,
    result: Result<(), ClientError>,
) -> bool {
    exists|env: Json|
        #![trigger is_envelope(env, None, method, params)]
        {
            &&& is_envelope(env, None, method, params)
            &&& effects.len() >= 1
            &&& is_capture(effects[0], method, json_text(env), false)
            &&& if v.transport_open {
                &&& effects.len() == 2
                &&& result is Ok
                &&& match effects[1] {
                    Effect::Send { request_id, line } => request_id is None && line@ == json_text(
                        env,
                    ),
                    _ => false,
                }
            } else {
                &&& effects.len() == 1
                &&& result is Err && result->Err_0 is NotConnected
            }
        }
}

pub open spec fn is_bool_member(m: (String, Json), key: Seq<char>, b: bool) -> bool {
    m.0@ == key && m.1 == Json::Bool(b)
}

pub open spec fn is_str_member(m: (String, Json), key: Seq<char>, s: Seq<char>) -> bool {
    m.0@ == key && m.1.str_view() == Some(s)
}

/// The fixed parameters of the `initialize` handshake.
pub open spec fn is_initialize_params(p: Json) -> bool {
    match p {
        Json::Object(m) => {
            &&& m@.len() == 3
            &&& m@[0].0@ == "protocolVersion"@ && m@[0].1 == Json::UInt(1)
            &&& m@[1].0@ == "clientCapabilities"@ && match m@[1].1 {
                Json::Object(c) => {
                    &&& c@.len() == 2
                    &&& c@[0].0@ == "fs"@ && match c@[0].1 {
                        Json::Object(f) => {
                            &&& f@.len() == 2
                            &&& is_bool_member(f@[0], "readTextFile"@, true)
                            &&& is_bool_member(f@[1], "writeTextFile"@, true)
                        },
                        _ => false,
                    }
                    &&& is_bool_member(c@[1], "terminal"@, true)
                },
                _ => false,
            }
            &&& m@[2].0@ == "clientInfo"@ && match m@[2].1 {
                Json::Object(i) => {
                    &&& i@.len() == 3
                    &&& is_str_member(i@[0], "name"@, "acp-debugger"@)
                    &&& is_str_member(i@[1], "title"@, "ACP Debugger"@)
                    &&& is_str_member(i@[2], "version"@, "0.1.0"@)
                },
                _ => false,
            }
        },
        _ => false,
    }
}

/// Each id resolved as cancelled, in order.
pub open spec fn cancellations(ids: Seq<u64>) -> Seq<Effect> {
    ids.map_values(
        |id: u64| Effect::Resolve { request_id: id, outcome: Err(ClientError::Cancelled(id)) },
    )
}

pub open spec fn resolutions(ids: Seq<u64>, cancel: bool) -> Seq<Effect> {
    if cancel {
        cancellations(ids)
    } else {
        closings(ids)
    }
}

/// The state once the agent's output has ended.
pub open spec fn pump_finished(v: ConnectionView) -> ConnectionView {
    ConnectionView {
        status: AgentStatus::Disconnected,
        pump_running: false,
        pending: Seq::empty(),
        handshake: None,
        ..v
    }
}

/// The status changes once the agent's output has ended: a handshake in
/// flight fails, then the status becomes `Disconnected` unless it was so.
pub open spec fn pump_finish_events(v: ConnectionView) -> Seq<Effect> {
    let failed = if v.handshake is Some {
        seq![Effect::Emit(ConnectionEvent::StateChanged(AgentStatus::Error))]
    } else {
        Seq::empty()
    };
    let ends = if v.handshake is Some || v.status != AgentStatus::Disconnected {
        seq![Effect::Emit(ConnectionEvent::StateChanged(AgentStatus::Disconnected))]
    } else {
        Seq::empty()
    };
    failed + ends
}

/// The effects of a disconnect: kill the agent and stop reading where they
/// run, cancel every request in flight, report `Disconnected`.
pub open spec fn disconnect_effects(v: ConnectionView) -> Seq<Effect> {
    let kill = if v.transport_open {
        seq![Effect::KillTransport]
    } else {
        Seq::empty()
    };
    let stop = if v.pump_running {
        seq![Effect::StopPump]
    } else {
        Seq::empty()
    };
    kill + stop + cancellations(v.pending) + seq![
        Effect::Emit(ConnectionEvent::StateChanged(AgentStatus::Disconnected)),
    ]
}

/// Each id resolved as failed by the closing of the transport, in order.
pub open spec fn closings(ids: Seq<u64>) -> Seq<Effect> {
    ids.map_values(
        |id: u64| Effect::Resolve { request_id: id, outcome: Err(ClientError::TransportClosed) },
    )
}

/// Taking out the request at `i` keeps the ids in flight increasing, and is
/// the same as taking out its id.
pub(crate) proof fn lemma_remove_at(s: Seq<u64>, i: int)
    requires
        0 <= i < s.len(),
        increasing(s),
    ensures
        s.remove_value(s[i]) == s.remove(i),
        increasing(s.remove(i)),
        forall|k: int| 0 <= k < s.remove(i).len() ==> s.contains(#[trigger] s.remove(i)[k]),
        forall|y: u64| y != s[i] && s.contains(y) ==> s.remove(i).contains(y),
        !s.remove(i).contains(s[i]),
{
    s.index_of_first_ensures(s[i]);
    let r = s.remove(i);
    assert forall|k: int| 0 <= k < r.len() implies s.contains(#[trigger] r[k]) by {
        if k < i {
            assert(s[k] == r[k]);
        } else {
            assert(s[k + 1] == r[k]);
        }
    }
    if r.contains(s[i]) {
        let k = choose|k: int| 0 <= k < r.len() && r[k] == s[i];
        if k < i {
            assert(s[k] == r[k]);
        } else {
            assert(s[k + 1] == r[k]);
        }
    }
    assert forall|y: u64| y != s[i] && s.contains(y) implies r.contains(y) by {
        let k = choose|k: int| 0 <= k < s.len() && s[k] == y;
        if k < i {
            assert(r[k] == y);
        } else {
            assert(k != i);
            assert(r[k - 1] == y);
        }
    }
}

/// The fixed parameters of the `initialize` handshake.
fn initialize_params() -> (r: Json)
    ensures
        is_initialize_params(r),
{
    let mut fs: Vec<(String, Json)> = Vec::new();
    fs.push(("readTextFile".to_owned(), Json::Bool(true)));
    fs.push(("writeTextFile".to_owned(), Json::Bool(true)));
    let mut caps: Vec<(String, Json)> = Vec::new();
    caps.push(("fs".to_owned(), Json::Object(fs)));
    caps.push(("terminal".to_owned(), Json::Bool(true)));
    let mut info: Vec<(String, Json)> = Vec::new();
    info.push(("name".to_owned(), Json::string("acp-debugger")));
    info.push(("title".to_owned(), Json::string("ACP Debugger")));
    info.push(("version".to_owned(), Json::string("0.1.0")));
    let mut members: Vec<(String, Json)> = Vec::new();
    members.push(("protocolVersion".to_owned(), Json::UInt(1)));
    members.push(("clientCapabilities".to_owned(), Json::Object(caps)));
    members.push(("clientInfo".to_owned(), Json::Object(info)));
    Json::Object(members)
}

/// The event of a notification about a session: only where the params carry
/// a `sessionId` string.
fn handle_notification(method: String, params: Json) -> (r: Vec<Effect>)
    ensures
        match params.str_field("sessionId"@) {
            Some(sid) => r@.len() == 1 && match r@[0] {
                Effect::Emit(
                    ConnectionEvent::SessionNotification { session_id, method: m, params: p },
                ) => session_id@ == sid && m@ == method@ && p == params,
                _ => false,
            },
            None => r@.len() == 0,
        },
{
    let mut effects: Vec<Effect> = Vec::new();
    match params.get_str("sessionId") {
        Some(session_id) => {
            effects.push(
                Effect::Emit(ConnectionEvent::SessionNotification { session_id, method, params }),
            );
        },
        None => {},
    }
    effects
}

/// Builds a JSON-RPC 2.0 envelope.
fn envelope(id: Option<u64>, method: &str, params: Json) -> (r: Json)
    ensures
        is_envelope(r, id, method@, params),
{
    let mut members: Vec<(String, Json)> = Vec::new();
    members.push(("jsonrpc".to_owned(), Json::string("2.0")));
    match id {
        Some(n) => members.push(("id".to_owned(), Json::UInt(n))),
        None => {},
    }
    members.push(("method".to_owned(), Json::string(method)));
    members.push(("params".to_owned(), params));
    Json::Object(members)
}

/// The capture event of a payload.
fn capture(title: &str, raw: &str, incoming: bool) -> (r: Effect)
    ensures
        is_capture(r, title@, raw@, incoming),
{
    Effect::Emit(
        ConnectionEvent::MessageCaptured {
            message: Box::new(AcpMessage::parse(title, raw, incoming)),
            is_incoming: incoming,
        },
    )
}

impl AcpConnection {
    pub open spec fn wf(&self) -> bool {
        view_wf(self@)
    }

    /// A connection that is disconnected and has handed out no request id.
    pub fn new() -> (r: AcpConnection)
        ensures
            r.wf(),
            r@.status == AgentStatus::Disconnected,
            r@.config is None,
            !r@.transport_open,
            !r@.pump_running,
            r@.next_request_id == 0,
            r@.pending == Seq::<u64>::empty(),
            r@.handshake is None,
    {
        let r = AcpConnection {
            status: AgentStatus::Disconnected,
            config: None,
            transport_open: false,
            pump_running: false,
            next_request_id: 0,
            pending_requests: Vec::new(),
            handshake_id: None,
        };
        assert(pending_ids(r.pending_requests@) =~= Seq::<u64>::empty());
        r
    }

    pub fn status(&self) -> (r: AgentStatus)
        ensures
            r == self@.status,
    {
        self.status
    }

    /// The config of the current or last connection attempt.
    pub fn config(&self) -> (r: Option<&AgentConfig>)
        ensures
            match r {
                Some(c) => self@.config == Some(*c),
                None => self@.config is None,
            },
    {
        self.config.as_ref()
    }

    /// The id of the handshake request while it is in flight.
    pub fn handshake_id(&self) -> (r: Option<u64>)
        ensures
            r == self@.handshake,
    {
        self.handshake_id
    }

    /// The id that the next request will get.
    pub fn next_request_id(&self) -> (r: u64)
        ensures
            r == self@.next_request_id,
    {
        self.next_request_id
    }

    /// Where request `id` stands in the flight, if it is in flight.
    fn pending_index(&self, id: u64) -> (r: Option<usize>)
        ensures
            match r {
                Some(i) => i < self@.pending.len() && self@.pending[i as int] == id,
                None => !self@.pending.contains(id),
            },
    {
        let mut i: usize = 0;
        while i < self.pending_requests.len()
            invariant
                i <= self.pending_requests@.len(),
                self@.pending == pending_ids(self.pending_requests@),
                forall|k: int| 0 <= k < i ==> self@.pending[k] != id,
            decreases self.pending_requests@.len() - i,
        {
            if self.pending_requests[i].id == id {
                return Some(i);
            }
            i = i + 1;
        }
        None
    }

    /// Sends a request: it gets the next id, is captured as outgoing, and goes
    /// into flight and out to the agent; with no transport it fails at once.
    pub fn send_request(&mut self, method: &str, params: Json) -> (r: (u64, Vec<Effect>))
        requires
            old(self).wf(),
            old(self)@.next_request_id < u64::MAX,
        ensures
            final(self).wf(),
            request_step(old(self)@, final(self)@, r.0, method@, params, r.1@),
    {
        let ghost before = self@;
        let id = self.next_request_id;
        self.next_request_id = id + 1;
        let env = envelope(Some(id), method, params);
        let line = write_json(&env);
        let mut effects: Vec<Effect> = Vec::new();
        effects.push(capture(method, line.as_str(), false));
        if self.transport_open {
            let ghost old_reqs = self.pending_requests@;
            self.pending_requests.push(PendingRequest { id, method: method.to_owned() });
            assert(pending_ids(self.pending_requests@) =~= pending_ids(old_reqs).push(id));
            proof {
                let p = self@.pending;
                assert(p == before.pending.push(id));
                assert forall|i: int, j: int| 0 <= i < j < p.len() implies p[i] < p[j] by {
                    if j == p.len() - 1 {
                        assert(p[i] == before.pending[i]);
                    } else {
                        assert(p[i] == before.pending[i] && p[j] == before.pending[j]);
                    }
                }
                assert forall|i: int| 0 <= i < p.len() implies p[i] < self@.next_request_id by {
                    if i < p.len() - 1 {
                        assert(p[i] == before.pending[i]);
                    }
                }
                if before.handshake is Some {
                    let h = before.handshake->0;
                    let k = choose|k: int| 0 <= k < before.pending.len() && before.pending[k] == h;
                    assert(p[k] == h);
                }
            }
            effects.push(Effect::Send { request_id: Some(id), line });
        } else {
            effects.push(Effect::Resolve { request_id: id, outcome: Err(ClientError::NotConnected) });
            assert(self@.pending == before.pending);
        }
        assert(is_envelope(env, Some(id), method@, params));
        (id, effects)
    }

    /// Starts a connection attempt, unless one is under way or established:
    /// the status becomes `Connecting`, the config is kept, and the agent is
    /// to be launched.
    pub fn connect(&mut self, config: AgentConfig) -> (r: Vec<Effect>)
        requires
            old(self).wf(),
        ensures
            final(self).wf(),
            if old(self)@.status == AgentStatus::Connected || old(self)@.status
                == AgentStatus::Connecting {
                final(self)@ == old(self)@ && r@.len() == 0
            } else {
                &&& final(self)@ == ConnectionView {
                    status: AgentStatus::Connecting,
                    config: Some(config),
                    ..old(self)@
                }
                &&& r@ == seq![
                    Effect::Emit(ConnectionEvent::StateChanged(AgentStatus::Connecting)),
                    Effect::Spawn,
                ]
            },
    {
        let mut effects: Vec<Effect> = Vec::new();
        if self.status == AgentStatus::Connected || self.status == AgentStatus::Connecting {
            return effects;
        }
        self.set_status(AgentStatus::Connecting, &mut effects);
        self.config = Some(config);
        effects.push(Effect::Spawn);
        effects
    }

    /// The agent could not be launched: the attempt ends in `Error`, with no
    /// handshake to wait for.
    pub fn spawn_failed(&mut self) -> (r: Vec<Effect>)
        requires
            old(self).wf(),
        ensures
            final(self).wf(),
            final(self)@ == (ConnectionView {
                status: AgentStatus::Error,
                handshake: None,
                ..old(self)@
            }),
            r@ == seq![Effect::Emit(ConnectionEvent::StateChanged(AgentStatus::Error))],
    {
        let mut effects: Vec<Effect> = Vec::new();
        self.handshake_id = None;
        self.set_status(AgentStatus::Error, &mut effects);
        effects
    }

    /// Takes the request at `index` out of the flight and resolves it.
    fn settle_pending(&mut self, index: usize, outcome: Result<Json, ClientError>) -> (r: Vec<
        Effect,
    >)
        requires
            old(self).wf(),
            index < old(self)@.pending.len(),
        ensures
            final(self).wf(),
            settle(old(self)@, final(self)@, old(self)@.pending[index as int], r@),
            r@[0] == (Effect::Resolve { request_id: old(self)@.pending[index as int], outcome }),
    {
        let ghost before = self@;
        let ghost old_reqs = self.pending_requests@;
        let req = self.pending_requests.remove(index);
        let id = req.id;
        proof {
            assert(pending_ids(self.pending_requests@) =~= before.pending.remove(index as int));
            lemma_remove_at(before.pending, index as int);
        }
        let is_ok = outcome.is_ok();
        let mut effects: Vec<Effect> = Vec::new();
        effects.push(Effect::Resolve { request_id: id, outcome });
        let was_handshake = match self.handshake_id {
            Some(h) => h == id,
            None => false,
        };
        if was_handshake {
            self.handshake_id = None;
            if is_ok {
                self.set_status(AgentStatus::Connected, &mut effects);
            } else {
                self.set_status(AgentStatus::Error, &mut effects);
            }
        }
        effects
    }

    /// Writing request `id` to the agent failed: a request still in flight
    /// under that id leaves it, resolved with the error.
    pub fn send_failed(&mut self, id: u64, error: ClientError) -> (r: Vec<Effect>)
        requires
            old(self).wf(),
        ensures
            final(self).wf(),
            if old(self)@.pending.contains(id) {
                &&& settle(old(self)@, final(self)@, id, r@)
                &&& r@[0] == (Effect::Resolve { request_id: id, outcome: Err(error) })
            } else {
                final(self)@ == old(self)@ && r@.len() == 0
            },
    {
        match self.pending_index(id) {
            Some(i) => self.settle_pending(i, Err(error)),
            None => Vec::new(),
        }
    }

    /// Sends a notification: captured as outgoing and written out; no id and
    /// nothing goes into flight.
    pub fn send_notification(&self, method: &str, params: Json) -> (r: (
        Vec<Effect>,
        Result<(), ClientError>,
    ))
        ensures
            notification_sent(self@, method@, params, r.0@, r.1),
    {
        let env = envelope(None, method, params);
        let line = write_json(&env);
        let mut effects: Vec<Effect> = Vec::new();
        effects.push(capture(method, line.as_str(), false));
        let result = if self.transport_open {
            effects.push(Effect::Send { request_id: None, line });
            Ok(())
        } else {
            Err(ClientError::NotConnected)
        };
        assert(is_envelope(env, None, method@, params));
        (effects, result)
    }

    /// The transport is up and its output is being read: the handshake
    /// request goes out and becomes the one that decides the status.
    pub fn transport_ready(&mut self) -> (r: Vec<Effect>)
        requires
            old(self).wf(),
            old(self)@.status == AgentStatus::Connecting,
            old(self)@.handshake is None,
            old(self)@.next_request_id < u64::MAX,
        ensures
            final(self).wf(),
            final(self)@.handshake == Some(old(self)@.next_request_id),
            exists|p: Json|
                #![trigger is_initialize_params(p)]
                is_initialize_params(p) && request_step(
                    ConnectionView { transport_open: true, pump_running: true, ..old(self)@ },
                    ConnectionView { handshake: old(self)@.handshake, ..final(self)@ },
                    old(self)@.next_request_id,
                    "initialize"@,
                    p,
                    r@,
                ),
    {
        self.transport_open = true;
        self.pump_running = true;
        let params = initialize_params();
        let ghost p = params;
        let (id, effects) = self.send_request("initialize", params);
        proof {
            let k = choose|k: int| 0 <= k < self@.pending.len() && self@.pending[k] == id;
        }
        self.handshake_id = Some(id);
        assert(self@.pending.contains(id)) by {
            assert(self@.pending[self@.pending.len() - 1] == id);
        }
        assert(is_initialize_params(p));
        effects
    }

    /// Resolves every request in flight, in order, and empties the flight.
    fn drain_pending(&mut self, cancel: bool, effects: &mut Vec<Effect>)
        ensures
            final(self)@ == (ConnectionView { pending: Seq::empty(), ..old(self)@ }),
            final(effects)@ == old(effects)@ + resolutions(old(self)@.pending, cancel),
    {
        let ghost ids = self@.pending;
        let ghost e0 = effects@;
        let mut i: usize = 0;
        while i < self.pending_requests.len()
            invariant
                i <= self.pending_requests@.len(),
                ids == pending_ids(self.pending_requests@),
                effects@ == e0 + resolutions(ids.subrange(0, i as int), cancel),
            decreases self.pending_requests@.len() - i,
        {
            let id = self.pending_requests[i].id;
            let outcome = if cancel {
                Err(ClientError::Cancelled(id))
            } else {
                Err(ClientError::TransportClosed)
            };
            effects.push(Effect::Resolve { request_id: id, outcome });
            assert(ids.subrange(0, i + 1) =~= ids.subrange(0, i as int).push(id));
            assert(cancellations(ids.subrange(0, i + 1)) =~= cancellations(
                ids.subrange(0, i as int),
            ).push(Effect::Resolve { request_id: id, outcome: Err(ClientError::Cancelled(id)) }));
            assert(closings(ids.subrange(0, i + 1)) =~= closings(ids.subrange(0, i as int)).push(
                Effect::Resolve { request_id: id, outcome: Err(ClientError::TransportClosed) },
            ));
            i = i + 1;
        }
        assert(ids.subrange(0, i as int) =~= ids);
        self.pending_requests.clear();
        assert(pending_ids(self.pending_requests@) =~= Seq::<u64>::empty());
    }

    /// Tears the connection down from any state: the agent is killed, the
    /// config dropped, reading stopped, every request in flight cancelled
    /// under its id, and the status becomes `Disconnected`. A handshake cut
    /// short this way is cancelled with the rest and moves the status no more.
    pub fn disconnect(&mut self) -> (r: Vec<Effect>)
        requires
            old(self).wf(),
        ensures
            final(self).wf(),
            final(self)@ == disconnected(old(self)@),
            r@ == disconnect_effects(old(self)@),
    {
        let mut effects: Vec<Effect> = Vec::new();
        if self.transport_open {
            effects.push(Effect::KillTransport);
        }
        self.transport_open = false;
        self.config = None;
        if self.pump_running {
            effects.push(Effect::StopPump);
        }
        self.pump_running = false;
        self.handshake_id = None;
        self.drain_pending(true, &mut effects);
        self.set_status(AgentStatus::Disconnected, &mut effects);
        effects
    }

    /// The agent's output has ended: every request in flight fails as the
    /// transport closed (a handshake among them moves the status to
    /// `Error`), and the status ends as `Disconnected`.
    pub fn finish_pump(&mut self) -> (r: Vec<Effect>)
        requires
            old(self).wf(),
        ensures
            final(self).wf(),
            final(self)@ == pump_finished(old(self)@),
            r@ == closings(old(self)@.pending) + pump_finish_events(old(self)@),
    {
        let mut effects: Vec<Effect> = Vec::new();
        self.pump_running = false;
        self.drain_pending(false, &mut effects);
        if self.handshake_id.is_some() {
            self.handshake_id = None;
            self.set_status(AgentStatus::Error, &mut effects);
        }
        if self.status != AgentStatus::Disconnected {
            self.set_status(AgentStatus::Disconnected, &mut effects);
        }
        effects
    }

    /// Settles request `id` with what the response frame `value` gives.
    pub fn handle_response(&mut self, id: u64, value: Json) -> (r: Vec<Effect>)
        requires
            old(self).wf(),
        ensures
            final(self).wf(),
            response_step(old(self)@, final(self)@, id, value, r@),
    {
        proof {
            reveal_strlit("error");
            reveal_strlit("result");
            assert("error"@[0] != "result"@[0]);
        }
        match self.pending_index(id) {
            None => Vec::new(),
            Some(i) => {
                let mut value = value;
                let outcome = match value.take_field("error") {
                    Some(e) => {
                        let code = match e.get_i64("code") {
                            Some(c) => c,
                            None => 0,
                        };
                        let message = match e.get_str("message") {
                            Some(m) => m,
                            None => "unknown error".to_owned(),
                        };
                        let mut e = e;
                        let data = e.take_field("data");
                        Err(ClientError::AgentError { code, message, data })
                    },
                    None => match value.take_field("result") {
                        Some(res) => Ok(res),
                        None => Ok(Json::Null),
                    },
                };
                self.settle_pending(i, outcome)
            },
        }
    }

    /// Handles one unit from the transport and says whether to read on: a
    /// JSON frame is captured and then dispatched, a line that did not parse
    /// is passed over, and the end of the output stops the reading.
    pub fn handle_transport_message(&mut self, msg: TransportMessage) -> (r: (bool, Vec<Effect>))
        requires
            old(self).wf(),
        ensures
            final(self).wf(),
            match msg {
                TransportMessage::Json(v) => r.0 && frame_step(old(self)@, final(self)@, v, r.1@),
                TransportMessage::ParseError { .. } => r.0 && final(self)@ == old(self)@
                    && r.1@.len() == 0,
                TransportMessage::Closed => !r.0 && final(self)@ == old(self)@ && r.1@.len() == 0,
            },
    {
        match msg {
            TransportMessage::Json(value) => {
                let raw = write_json(&value);
                let title = match value.get_str("method") {
                    Some(m) => m,
                    None => "response".to_owned(),
                };
                let is_response = value.has_field("result") || value.has_field("error");
                let mut effects: Vec<Effect> = Vec::new();
                effects.push(capture(title.as_str(), raw.as_str(), true));
                let ghost v = value;
                let mut more: Vec<Effect> = if is_response {
                    match value.get_u64("id") {
                        Some(id) => self.handle_response(id, value),
                        None => {
                            let mut dropped: Vec<Effect> = Vec::new();
                            dropped.push(Effect::DroppedResponse { raw });
                            dropped
                        },
                    }
                } else {
                    match value.get_str("method") {
                        Some(method) => {
                            let mut value = value;
                            proof {
                                reveal_strlit("params");
                                reveal_strlit("method");
                            }
                            let params = match value.take_field("params") {
                                Some(p) => p,
                                None => Json::Null,
                            };
                            handle_notification(method, params)
                        },
                        None => Vec::new(),
                    }
                };
                let ghost rest = more@;
                effects.append(&mut more);
                assert(effects@.drop_first() =~= rest);
                (true, effects)
            },
            TransportMessage::ParseError { .. } => (true, Vec::new()),
            TransportMessage::Closed => (false, Vec::new()),
        }
    }

    fn set_status(&mut self, status: AgentStatus, effects: &mut Vec<Effect>)
        ensures
            final(self)@ == with_status(old(self)@, status),
            final(effects)@ == old(effects)@.push(Effect::Emit(ConnectionEvent::StateChanged(status))),
    {
        self.status = status;
        effects.push(Effect::Emit(ConnectionEvent::StateChanged(status)));
    }
}

} // verus!
