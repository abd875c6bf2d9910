//! What holds over several steps of a connection: request ids never repeat,
//! a request envelope reads as a request, disconnecting is idempotent, and
//! every request is resolved exactly once.

use vstd::prelude::*;

use crate::agent::AgentStatus;
use crate::connection::{
    cancellations, closings, disconnect_effects, disconnected, increasing, is_envelope,
    lemma_remove_at, pump_finish_events, pump_finished, request_step, resolutions, resolved_ids,
    response_step, settle, view_wf, ConnectionEvent, ConnectionView, Effect,
};
use crate::json::{lookup, Json};
use crate::message::{is_request_envelope, message_type_of, MessageType};

verus! {

proof fn lemma_resolved_ids_concat(a: Seq<Effect>, b: Seq<Effect>)
    ensures
        resolved_ids(a + b) == resolved_ids(a) + resolved_ids(b),
    decreases b.len(),
{
    if b.len() == 0 {
        assert(a + b =~= a);
        assert(resolved_ids(b) =~= Seq::<u64>::empty());
        assert(resolved_ids(a) + resolved_ids(b) =~= resolved_ids(a));
    } else {
        lemma_resolved_ids_concat(a, b.drop_last());
        assert((a + b).drop_last() =~= a + b.drop_last());
        assert((a + b).last() == b.last());
        match b.last() {
            Effect::Resolve { request_id, .. } => {
                assert(resolved_ids(a) + resolved_ids(b) =~= (resolved_ids(a) + resolved_ids(
                    b.drop_last(),
                )).push(request_id));
            },
            _ => {},
        }
    }
}

proof fn lemma_resolved_ids_of_resolutions(ids: Seq<u64>, cancel: bool)
    ensures
        resolved_ids(resolutions(ids, cancel)) == ids,
    decreases ids.len(),
{
    if ids.len() > 0 {
        lemma_resolved_ids_of_resolutions(ids.drop_last(), cancel);
        assert(resolutions(ids, cancel).drop_last() =~= resolutions(ids.drop_last(), cancel));
        assert(resolved_ids(resolutions(ids, cancel)) =~= ids);
    } else {
        assert(resolutions(ids, cancel) =~= Seq::<Effect>::empty());
    }
}

proof fn lemma_no_resolutions_in(e: Seq<Effect>)
    requires
        forall|i: int| 0 <= i < e.len() ==> !(#[trigger] e[i] is Resolve),
    ensures
        resolved_ids(e) == Seq::<u64>::empty(),
    decreases e.len(),
{
    if e.len() > 0 {
        lemma_no_resolutions_in(e.drop_last());
    }
}

proof fn lemma_increasing_distinct(s: Seq<u64>)
    requires
        increasing(s),
    ensures
        s.no_duplicates(),
{
    assert forall|i: int, j: int| 0 <= i < s.len() && 0 <= j < s.len() && i != j implies s[i]
        != s[j] by {
        if i < j {
            assert(s[i] < s[j]);
        } else {
            assert(s[j] < s[i]);
        }
    }
}

/// Request ids start at 0 and increase strictly: on a connection whose
/// counter is still 0 the request gets 0, and a request sent after another
/// one (the counter never goes back in between) gets a larger id, so no id
/// is handed out twice.
pub proof fn request_ids_increase(
    a0: ConnectionView,
    a1: ConnectionView,
    id_a: u64,
    method_a: Seq<char>,
    params_a: Json,
    effects_a: Seq<Effect>,
    b0: ConnectionView,
    b1: ConnectionView,
    id_b: u64,
    method_b: Seq<char>,
    params_b: Json,
    effects_b: Seq<Effect>,
)
    requires
        request_step(a0, a1, id_a, method_a, params_a, effects_a),
        request_step(b0, b1, id_b, method_b, params_b, effects_b),
        a1.next_request_id <= b0.next_request_id,
    ensures
        a0.next_request_id == 0 ==> id_a == 0,
        id_a < id_b,
{
}

/// The envelope that a request is sent in has what the message model takes
/// for a request: version "2.0", the id, the method, params, and neither a
/// result nor an error.
pub proof fn envelope_is_request(v: Json, id: u64, method: Seq<char>, params: Json)
    requires
        is_envelope(v, Some(id), method, params),
    ensures
        is_request_envelope(v, id, method),
        message_type_of(v) == MessageType::Request,
{
    reveal_strlit("jsonrpc");
    reveal_strlit("id");
    reveal_strlit("method");
    reveal_strlit("params");
    reveal_strlit("result");
    reveal_strlit("error");
    let m = match v {
        Json::Object(members) => members@,
        _ => Seq::empty(),
    };
    assert(m.drop_last().drop_last().drop_last().drop_last() =~= Seq::<(String, Json)>::empty());
    assert("jsonrpc"@.len() != "params"@.len() && "jsonrpc"@.len() != "id"@.len());
    assert("id"@.len() != "params"@.len() && "id"@.len() != "method"@.len());
    assert("method"@[0] != "params"@[0] && "method"@[0] != "jsonrpc"@[0]);
    assert("result"@ != "params"@ && "result"@ != "method"@ && "result"@ != "id"@
        && "result"@ != "jsonrpc"@) by {
        assert("result"@[0] != "params"@[0] && "result"@[0] != "method"@[0]);
        assert("result"@[0] != "id"@[0] && "result"@[0] != "jsonrpc"@[0]);
    }
    assert("error"@ != "params"@ && "error"@ != "method"@ && "error"@ != "id"@ && "error"@
        != "jsonrpc"@) by {
        assert("error"@[0] != "params"@[0] && "error"@[0] != "method"@[0]);
        assert("error"@[0] != "id"@[0] && "error"@[0] != "jsonrpc"@[0]);
    }
    let m3 = m.drop_last();
    let m2 = m3.drop_last();
    let m1 = m2.drop_last();
    assert(m3.last() == m[2] && m2.last() == m[1] && m1.last() == m[0]);
    assert(lookup(m, "params"@) == Some(params));
    assert(lookup(m, "method"@) == lookup(m3, "method"@));
    assert(lookup(m, "method"@) == Some(m[2].1));
    assert(lookup(m, "id"@) == lookup(m3, "id"@));
    assert(lookup(m3, "id"@) == lookup(m2, "id"@));
    assert(lookup(m, "id"@) == Some(m[1].1));
    let m0 = m1.drop_last();
    assert(m0.len() == 0);
    assert(lookup(m, "jsonrpc"@) == lookup(m3, "jsonrpc"@));
    assert(lookup(m3, "jsonrpc"@) == lookup(m2, "jsonrpc"@));
    assert(lookup(m2, "jsonrpc"@) == lookup(m1, "jsonrpc"@));
    assert(lookup(m, "jsonrpc"@) == Some(m[0].1));
    assert(lookup(m, "result"@) == lookup(m3, "result"@));
    assert(lookup(m3, "result"@) == lookup(m2, "result"@));
    assert(lookup(m2, "result"@) == lookup(m1, "result"@));
    assert(lookup(m1, "result"@) == lookup(m0, "result"@));
    assert(lookup(m, "result"@) is None);
    assert(lookup(m, "error"@) == lookup(m3, "error"@));
    assert(lookup(m3, "error"@) == lookup(m2, "error"@));
    assert(lookup(m2, "error"@) == lookup(m1, "error"@));
    assert(lookup(m1, "error"@) == lookup(m0, "error"@));
    assert(lookup(m, "error"@) is None);
}

/// Disconnecting twice ends in the same state as disconnecting once, and the
/// second time resolves nothing: it only reports `Disconnected` again.
pub proof fn disconnect_is_idempotent(v: ConnectionView)
    ensures
        disconnected(disconnected(v)) == disconnected(v),
        disconnect_effects(disconnected(v)) == seq![
            Effect::Emit(ConnectionEvent::StateChanged(AgentStatus::Disconnected)),
        ],
        resolved_ids(disconnect_effects(disconnected(v))) == Seq::<u64>::empty(),
{
    assert(cancellations(Seq::<u64>::empty()) =~= Seq::<Effect>::empty());
    assert(disconnect_effects(disconnected(v)) =~= seq![
        Effect::Emit(ConnectionEvent::StateChanged(AgentStatus::Disconnected)),
    ]);
    lemma_no_resolutions_in(disconnect_effects(disconnected(v)));
}

/// A disconnect resolves every request in flight exactly once, each under
/// its own id, and leaves none in flight.
pub proof fn disconnect_resolves_each_once(v: ConnectionView)
    requires
        view_wf(v),
    ensures
        resolved_ids(disconnect_effects(v)) == v.pending,
        v.pending.no_duplicates(),
        disconnected(v).pending.len() == 0,
{
    lemma_increasing_distinct(v.pending);
    let kill = if v.transport_open {
        seq![Effect::KillTransport]
    } else {
        Seq::empty()
    };
    let stop = if v.pump_running {
        seq![Effect::StopPump]
    } else {
        Seq::empty()
    };
    let tail = seq![Effect::Emit(ConnectionEvent::StateChanged(AgentStatus::Disconnected))];
    lemma_no_resolutions_in(kill + stop);
    lemma_no_resolutions_in(tail);
    lemma_resolved_ids_of_resolutions(v.pending, true);
    lemma_resolved_ids_concat(kill + stop, cancellations(v.pending));
    lemma_resolved_ids_concat(kill + stop + cancellations(v.pending), tail);
    assert(resolved_ids(disconnect_effects(v)) =~= v.pending);
}

/// When the agent's output ends, every request in flight is resolved exactly
/// once, each under its own id, and none stays in flight.
pub proof fn pump_end_resolves_each_once(v: ConnectionView)
    requires
        view_wf(v),
    ensures
        resolved_ids(closings(v.pending) + pump_finish_events(v)) == v.pending,
        v.pending.no_duplicates(),
        pump_finished(v).pending.len() == 0,
{
    lemma_increasing_distinct(v.pending);
    lemma_no_resolutions_in(pump_finish_events(v));
    lemma_resolved_ids_of_resolutions(v.pending, false);
    lemma_resolved_ids_concat(closings(v.pending), pump_finish_events(v));
    assert(resolved_ids(closings(v.pending) + pump_finish_events(v)) =~= v.pending);
}

/// A response resolves its request at most once: only a request in flight
/// is resolved, and after that it is in flight no more, so a second
/// response for the same id finds nothing to resolve.
pub proof fn response_resolves_at_most_once(
    old: ConnectionView,
    new: ConnectionView,
    id: u64,
    v: Json,
    effects: Seq<Effect>,
)
    requires
        view_wf(old),
        response_step(old, new, id, v, effects),
    ensures
        resolved_ids(effects) == (if old.pending.contains(id) {
            seq![id]
        } else {
            Seq::<u64>::empty()
        }),
        !new.pending.contains(id),
{
    if old.pending.contains(id) {
        let i = choose|i: int| 0 <= i < old.pending.len() && old.pending[i] == id;
        lemma_remove_at(old.pending, i);
        assert(effects.take(1) + effects.skip(1) =~= effects);
        lemma_resolved_ids_concat(effects.take(1), effects.skip(1));
        lemma_no_resolutions_in(effects.skip(1));
        let first = effects.take(1);
        assert(first.drop_last() =~= Seq::<Effect>::empty());
        assert(first.last() == effects[0]);
        assert(resolved_ids(first.drop_last()) =~= Seq::<u64>::empty());
        match effects[0] {
            Effect::Resolve { request_id, .. } => {
                assert(request_id == id);
                assert(resolved_ids(first) == resolved_ids(first.drop_last()).push(request_id));
            },
            _ => {},
        }
        assert(resolved_ids(first) =~= seq![id]);
        assert(resolved_ids(effects) =~= seq![id]);
    } else {
        assert(effects =~= Seq::<Effect>::empty());
    }
}

/// Whether step `i` of a run of connection states hands out a request id.
pub open spec fn hands_out_id(states: Seq<ConnectionView>, i: int) -> bool {
    states[i + 1].next_request_id == states[i].next_request_id + 1
}

/// How many of the first `k` steps of a run hand out a request id.
pub open spec fn ids_handed_out(states: Seq<ConnectionView>, k: int) -> int
    decreases k,
{
    if k <= 0 {
        0
    } else {
        ids_handed_out(states, k - 1) + if hands_out_id(states, k - 1) {
            1int
        } else {
            0int
        }
    }
}

/// Over any run of steps on one connection, where each step keeps the
/// request counter or is a request (which takes the counter as its id and
/// raises it by one), the request of step `i` gets the id
/// `start + (requests before it)`. From a fresh connection the requests thus
/// get 0, 1, 2, ... in call order, whatever else happens between them, and
/// no id repeats.
pub proof fn request_ids_count_calls(states: Seq<ConnectionView>)
    requires
        states.len() >= 1,
        forall|i: int|
            0 <= i < states.len() - 1 ==> states[i + 1].next_request_id
                == states[i].next_request_id || #[trigger] hands_out_id(states, i),
    ensures
        forall|k: int|
            0 <= k < states.len() ==> #[trigger] states[k].next_request_id
                == states[0].next_request_id + ids_handed_out(states, k),
        forall|i: int, j: int|
            0 <= i < j < states.len() - 1 && hands_out_id(states, i) && hands_out_id(states, j)
                ==> states[i].next_request_id < states[j].next_request_id,
{
    assert forall|k: int| 0 <= k < states.len() implies #[trigger] states[k].next_request_id
        == states[0].next_request_id + ids_handed_out(states, k) by {
        lemma_counter_at(states, k);
    }
    assert forall|i: int, j: int|
        0 <= i < j < states.len() - 1 && hands_out_id(states, i) && hands_out_id(
            states,
            j,
        ) implies states[i].next_request_id < states[j].next_request_id by {
        lemma_counter_at(states, i + 1);
        lemma_counter_at(states, j);
        lemma_handed_out_grows(states, i + 1, j);
    }
}

proof fn lemma_counter_at(states: Seq<ConnectionView>, k: int)
    requires
        0 <= k < states.len(),
        forall|i: int|
            0 <= i < states.len() - 1 ==> states[i + 1].next_request_id
                == states[i].next_request_id || #[trigger] hands_out_id(states, i),
    ensures
        states[k].next_request_id == states[0].next_request_id + ids_handed_out(states, k),
    decreases k,
{
    if k > 0 {
        lemma_counter_at(states, k - 1);
        assert(states[k].next_request_id == states[k - 1].next_request_id || hands_out_id(
            states,
            k - 1,
        ));
    }
}

proof fn lemma_handed_out_grows(states: Seq<ConnectionView>, a: int, b: int)
    requires
        a <= b,
    ensures
        ids_handed_out(states, a) <= ids_handed_out(states, b),
    decreases b - a,
{
    if a < b {
        lemma_handed_out_grows(states, a, b - 1);
    }
}

/// A request whose write to the agent fails leaves things as they were
/// before it, but for the id it took: the requests in flight, the status
/// and the handshake are back to what they were, and the counter has moved
/// on by one.
pub proof fn failed_write_restores_flight(
    before: ConnectionView,
    sent: ConnectionView,
    after: ConnectionView,
    id: u64,
    method: Seq<char>,
    params: Json,
    request_effects: Seq<Effect>,
    failure_effects: Seq<Effect>,
)
    requires
        view_wf(before),
        before.transport_open,
        request_step(before, sent, id, method, params, request_effects),
        settle(sent, after, id, failure_effects),
    ensures
        after.pending == before.pending,
        after.status == before.status,
        after.handshake == before.handshake,
        after.next_request_id == before.next_request_id + 1,
        resolved_ids(failure_effects) == seq![id],
{
    let p = sent.pending;
    assert(p == before.pending.push(id));
    assert(increasing(p)) by {
        assert forall|i: int, j: int| 0 <= i < j < p.len() implies p[i] < p[j] by {
            if j == p.len() - 1 {
                assert(p[i] == before.pending[i]);
            } else {
                assert(p[i] == before.pending[i] && p[j] == before.pending[j]);
            }
        }
    }
    lemma_remove_at(p, p.len() - 1);
    assert(p.remove(p.len() - 1) =~= before.pending);
    if before.handshake is Some {
        let h = before.handshake->0;
        let k = choose|k: int| 0 <= k < before.pending.len() && before.pending[k] == h;
        assert(h < id);
    }
    let first = failure_effects.take(1);
    assert(failure_effects.take(1) + failure_effects.skip(1) =~= failure_effects);
    lemma_resolved_ids_concat(first, failure_effects.skip(1));
    lemma_no_resolutions_in(failure_effects.skip(1));
    assert(first.drop_last() =~= Seq::<Effect>::empty());
    assert(first.last() == failure_effects[0]);
    assert(resolved_ids(first.drop_last()) =~= Seq::<u64>::empty());
    match failure_effects[0] {
        Effect::Resolve { request_id, .. } => {
            assert(resolved_ids(first) == resolved_ids(first.drop_last()).push(request_id));
        },
        _ => {},
    }
    assert(resolved_ids(failure_effects) =~= seq![id]);
}

} // verus!
