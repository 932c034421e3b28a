//! The per-connection server machine.
//!
//! Each server task owns one connection at a time and walks it through
//! `Idle → Accepting → Reading → Dispatching → Writing → Closing → Idle`,
//! forever. The machine only decides; the caller performs the returned
//! action (wait, read, write, close) and hands the outcome back as the next
//! event. Timeouts are expected client inactivity: they close the
//! connection without a response and the task returns to `Idle`.

use crate::assets::RouteTable;
use crate::http::{is_complete_request, spec_path};
use crate::response::spec_response;
use vstd::prelude::*;

verus! {

/// The TCP port the server listens on.
pub const LISTEN_PORT: u16 = 80;

/// How many independent server tasks run; each handles one connection at a
/// time, so this is also the connection concurrency.
pub const TASK_POOL_SIZE: usize = 1;

/// Socket resources the stack holds; the task pool must not exceed it, so
/// two tasks never share a socket.
pub const STACK_SOCKET_COUNT: usize = 3;

/// Each connection's fixed receive buffer, in bytes.
pub const RX_BUFFER_BYTES: usize = 1024;

/// Each connection's fixed transmit buffer, in bytes.
pub const TX_BUFFER_BYTES: usize = 1024;

/// Each connection's fixed request parse buffer, in bytes; a request that
/// outgrows it is treated like a timeout and the connection closes.
pub const HTTP_BUFFER_BYTES: usize = 2048;

/// The fixed pool behind the global allocator, in bytes; memory never grows
/// past it.
pub const ALLOC_POOL_BYTES: usize = 4096;

/// The request timeout budgets, in milliseconds: time allowed until the
/// first bytes of a request arrive, until the rest of it arrives, and until
/// a response is written.
#[derive(Clone, Copy, Debug, PartialEq, Eq, Structural)]
pub struct Timeouts {
    /// Budget for the first bytes of a request to arrive.
    pub start_read_ms: u64,
    /// Budget for the remainder of a request once reading began.
    pub read_ms: u64,
    /// Budget for writing the response.
    pub write_ms: u64,
}

/// The board's timeout budgets: five seconds to start reading, one second
/// each to finish reading and to write.
pub fn board_timeouts() -> (t: Timeouts)
    ensures
        t.start_read_ms == 5000,
        t.read_ms == 1000,
        t.write_ms == 1000,
{
    Timeouts { start_read_ms: 5000, read_ms: 1000, write_ms: 1000 }
}

/// Where a connection stands in its lifecycle.
#[derive(Clone, Copy, Debug, PartialEq, Eq, Structural)]
pub enum ConnState {
    /// Between connections; nothing is held.
    Idle,
    /// Waiting for one inbound connection.
    Accepting,
    /// Reading the request into the receive buffer.
    Reading,
    /// A complete request is in the buffer; the route is being resolved.
    Dispatching,
    /// The response is being written.
    Writing,
    /// The socket is being released.
    Closing,
}

/// What the caller reports back to the machine.
#[derive(Clone, Copy, Debug, PartialEq, Eq, Structural)]
pub enum ConnEvent {
    /// Nothing external happened; the machine is asked for its next action.
    Poll,
    /// A connection was established.
    Accepted,
    /// More request bytes arrived in the buffer.
    DataArrived,
    /// The pending operation's timeout elapsed.
    TimedOut,
    /// The response was written completely.
    WriteFinished,
    /// The socket was released.
    SocketClosed,
}

/// What the machine asks the caller to do next.
#[derive(Debug)]
pub enum ConnAction {
    /// Block until one inbound connection is established.
    WaitForConnection,
    /// Read more bytes, giving up after this many milliseconds.
    ReadMore(u64),
    /// Write exactly these bytes as the response.
    SendResponse(Vec<u8>),
    /// Release the socket; no further bytes may be written.
    CloseConnection,
    /// Nothing external to do; step the machine again.
    Proceed,
}

/// The mathematical value of a `ConnAction`; a response is its byte
/// sequence.
pub enum ActionSpec {
    /// Block until one inbound connection is established.
    WaitForConnection,
    /// Read more bytes under this budget in milliseconds.
    ReadMore(u64),
    /// Write exactly these bytes as the response.
    SendResponse(Seq<u8>),
    /// Release the socket.
    CloseConnection,
    /// Step the machine again.
    Proceed,
}

impl View for ConnAction {
    type V = ActionSpec;

    open spec fn view(&self) -> ActionSpec {
        match self {
            ConnAction::WaitForConnection => ActionSpec::WaitForConnection,
            ConnAction::ReadMore(ms) => ActionSpec::ReadMore(*ms),
            ConnAction::SendResponse(v) => ActionSpec::SendResponse(v@),
            ConnAction::CloseConnection => ActionSpec::CloseConnection,
            ConnAction::Proceed => ActionSpec::Proceed,
        }
    }
}

/// The table entry a request is served from: the first route whose path is
/// the request's path exactly, or entry 0 when the path matches no route or
/// no path can be extracted.
pub open spec fn spec_served_index(table: RouteTable, req: Seq<u8>) -> int {
    match spec_path(req) {
        None => 0,
        Some(p) => table.spec_route_index(p),
    }
}

/// The one response served for a request: the response of the entry the
/// request dispatches to.
pub open spec fn spec_serve(table: RouteTable, req: Seq<u8>) -> Seq<u8> {
    spec_response(table.routes@[spec_served_index(table, req)].asset)
}

/// The whole machine, as a function of the state, the event, the bytes read
/// so far, the table and the timeout budgets. Every pair outside the
/// expected protocol — a timeout above all — closes the connection; only
/// `Dispatching` ever produces a response, and `Closing` always returns to
/// `Idle`.
pub open spec fn spec_step(
    st: ConnState,
    ev: ConnEvent,
    req: Seq<u8>,
    table: RouteTable,
    t: Timeouts,
) -> (ConnState, ActionSpec) {
    match (st, ev) {
        (ConnState::Idle, _) => (ConnState::Accepting, ActionSpec::WaitForConnection),
        (ConnState::Accepting, ConnEvent::Accepted) => (
            ConnState::Reading,
            ActionSpec::ReadMore(t.start_read_ms),
        ),
        (ConnState::Accepting, _) => (ConnState::Accepting, ActionSpec::WaitForConnection),
        (ConnState::Reading, ConnEvent::DataArrived) => if is_complete_request(req) {
            (ConnState::Dispatching, ActionSpec::Proceed)
        } else {
            (ConnState::Reading, ActionSpec::ReadMore(t.read_ms))
        },
        (ConnState::Dispatching, ConnEvent::TimedOut) => (
            ConnState::Closing,
            ActionSpec::CloseConnection,
        ),
        (ConnState::Dispatching, _) => (
            ConnState::Writing,
            ActionSpec::SendResponse(spec_serve(table, req)),
        ),
        (ConnState::Closing, _) => (ConnState::Idle, ActionSpec::Proceed),
        (_, _) => (ConnState::Closing, ActionSpec::CloseConnection),
    }
}

/// Resolves a complete request against the table and frames the response:
/// the first route whose path matches exactly, entry 0 otherwise.
pub fn handle_request(table: &RouteTable, req: &[u8]) -> (r: Vec<u8>)
    requires
        table.wf(),
    ensures
        r@ == spec_serve(*table, req@),
{
    let idx: usize = match crate::http::parse_path(req) {
        None => 0,
        Some(p) => table.lookup(p.as_slice()),
    };
    assert(idx as int == spec_served_index(*table, req@));
    assert(idx < table.routes@.len());
    build_response_at(table, idx)
}

/// Frames the response of the table entry at `idx`.
fn build_response_at(table: &RouteTable, idx: usize) -> (r: Vec<u8>)
    requires
        table.wf(),
        idx < table.routes@.len(),
    ensures
        r@ == spec_response(table.routes@[idx as int].asset),
{
    crate::response::build_response(&table.routes[idx].asset)
}

/// Steps the machine once: returns the next state and the action the caller
/// must perform before reporting the next event.
pub fn step(
    st: ConnState,
    ev: ConnEvent,
    buf: &[u8],
    table: &RouteTable,
    t: &Timeouts,
) -> (r: (ConnState, ConnAction))
    requires
        table.wf(),
    ensures
        r.0 == spec_step(st, ev, buf@, *table, *t).0,
        r.1@ == spec_step(st, ev, buf@, *table, *t).1,
{
    match (st, ev) {
        (ConnState::Idle, _) => (ConnState::Accepting, ConnAction::WaitForConnection),
        (ConnState::Accepting, ConnEvent::Accepted) => (
            ConnState::Reading,
            ConnAction::ReadMore(t.start_read_ms),
        ),
        (ConnState::Accepting, _) => (ConnState::Accepting, ConnAction::WaitForConnection),
        (ConnState::Reading, ConnEvent::DataArrived) => {
            if crate::http::request_complete(buf) {
                (ConnState::Dispatching, ConnAction::Proceed)
            } else {
                (ConnState::Reading, ConnAction::ReadMore(t.read_ms))
            }
        },
        (ConnState::Dispatching, ConnEvent::TimedOut) => (
            ConnState::Closing,
            ConnAction::CloseConnection,
        ),
        (ConnState::Dispatching, _) => (
            ConnState::Writing,
            ConnAction::SendResponse(handle_request(table, buf)),
        ),
        (ConnState::Closing, _) => (ConnState::Idle, ConnAction::Proceed),
        (_, _) => (ConnState::Closing, ConnAction::CloseConnection),
    }
}

/// A run of the machine: `states` has one more entry than the others, and
/// step `i` took `states[i]` with `events[i]` over the bytes `bufs[i]` to
/// `states[i + 1]`, asking for `acts[i]`.
pub open spec fn machine_run(
    states: Seq<ConnState>,
    events: Seq<ConnEvent>,
    bufs: Seq<Seq<u8>>,
    acts: Seq<ActionSpec>,
    table: RouteTable,
    t: Timeouts,
) -> bool {
    &&& states.len() == events.len() + 1
    &&& events.len() == bufs.len()
    &&& events.len() == acts.len()
    &&& forall|i: int|
        0 <= i < events.len() ==> (#[trigger] spec_step(states[i], events[i], bufs[i], table, t))
            == (states[i + 1], acts[i])
}

/// A run that never holds a complete request never reaches `Dispatching`.
proof fn lemma_run_avoids_dispatching(
    states: Seq<ConnState>,
    events: Seq<ConnEvent>,
    bufs: Seq<Seq<u8>>,
    acts: Seq<ActionSpec>,
    table: RouteTable,
    t: Timeouts,
    i: int,
)
    requires
        machine_run(states, events, bufs, acts, table, t),
        !(states[0] is Dispatching),
        forall|k: int| 0 <= k < bufs.len() ==> !is_complete_request(#[trigger] bufs[k]),
        0 <= i < states.len(),
    ensures
        !(states[i] is Dispatching),
    decreases i,
{
    if i > 0 {
        lemma_run_avoids_dispatching(states, events, bufs, acts, table, t, i - 1);
        assert(spec_step(states[i - 1], events[i - 1], bufs[i - 1], table, t) == (
            states[i],
            acts[i - 1],
        ));
    }
}

/// Law: over a whole run, a connection on which no complete request ever
/// accumulates — a silent client above all — is never sent a response:
/// none of the run's actions is a write.
pub proof fn lemma_incomplete_run_sends_nothing(
    states: Seq<ConnState>,
    events: Seq<ConnEvent>,
    bufs: Seq<Seq<u8>>,
    acts: Seq<ActionSpec>,
    table: RouteTable,
    t: Timeouts,
    i: int,
)
    requires
        machine_run(states, events, bufs, acts, table, t),
        !(states[0] is Dispatching),
        forall|k: int| 0 <= k < bufs.len() ==> !is_complete_request(#[trigger] bufs[k]),
        0 <= i < acts.len(),
    ensures
        !(acts[i] is SendResponse),
{
    lemma_run_avoids_dispatching(states, events, bufs, acts, table, t, i);
    assert(spec_step(states[i], events[i], bufs[i], table, t) == (states[i + 1], acts[i]));
}

/// Law: a timeout never produces a response — whatever state the
/// connection is in, the machine's answer to `TimedOut` is not a write.
pub proof fn lemma_timeout_sends_nothing(
    st: ConnState,
    req: Seq<u8>,
    table: RouteTable,
    t: Timeouts,
)
    ensures
        !(spec_step(st, ConnEvent::TimedOut, req, table, t).1 is SendResponse),
{
}

/// Law: once a connection exists, a timeout closes it — from `Reading`,
/// `Dispatching` or `Writing`, the machine's answer to `TimedOut` is the
/// `Closing` state with a close action, so the client sees the connection
/// drop and nothing else.
pub proof fn lemma_timeout_closes(st: ConnState, req: Seq<u8>, table: RouteTable, t: Timeouts)
    requires
        st is Reading || st is Dispatching || st is Writing,
    ensures
        spec_step(st, ConnEvent::TimedOut, req, table, t).0 is Closing,
        spec_step(st, ConnEvent::TimedOut, req, table, t).1 is CloseConnection,
{
}

/// Law: a request whose path is a route's exact path is served that
/// route's asset — the body bytes after the head are the asset's bytes
/// unchanged, and the declared content type sits in the head.
pub proof fn lemma_exact_route_served(table: RouteTable, req: Seq<u8>, p: Seq<u8>)
    requires
        table.wf(),
        spec_path(req) == Some(p),
        table.has_route(p),
    ensures
        ({
            let a = table.routes@[table.spec_route_index(p)].asset;
            &&& table.routes@[table.spec_route_index(p)].path@ == p
            &&& spec_serve(table, req) == spec_response(a)
            &&& spec_serve(table, req).skip(
                crate::response::spec_head(a.content_type@, a.gzipped, a.body@.len()).len() as int,
            ) == a.body@
            &&& spec_serve(table, req).subrange(31, 31 + a.content_type@.len() as int)
                == a.content_type@
        }),
{
    table.lemma_route_index_in_range(p);
    table.lemma_route_index_matches(p);
    let a = table.routes@[table.spec_route_index(p)].asset;
    crate::response::lemma_response_body_is_asset(a);
    crate::response::lemma_response_declares_content_type(a);
}

/// Law: a request whose path matches no route — or from which no path can
/// be extracted — is served the root document, entry 0 of the table.
pub proof fn lemma_fallback_serves_root(table: RouteTable, req: Seq<u8>)
    requires
        table.wf(),
        match spec_path(req) {
            None => true,
            Some(p) => !table.has_route(p),
        },
    ensures
        spec_serve(table, req) == spec_response(table.routes@[0].asset),
{
    match spec_path(req) {
        None => {},
        Some(p) => {
            table.lemma_route_index_fallback(p);
        },
    }
}

/// Law: the fallback is the root document's own response — an unmatched
/// request and a request for entry 0's path get byte-identical responses.
pub proof fn lemma_fallback_equals_root_request(
    table: RouteTable,
    req: Seq<u8>,
    root_req: Seq<u8>,
)
    requires
        table.wf(),
        match spec_path(req) {
            None => true,
            Some(p) => !table.has_route(p),
        },
        spec_path(root_req) == Some(table.routes@[0].path@),
    ensures
        spec_serve(table, req) == spec_serve(table, root_req),
{
    lemma_fallback_serves_root(table, req);
    assert(crate::assets::match_from(table.routes@, table.routes@[0].path@, 0) == Some(0int));
}

/// Law: responses are a function of the table and the request bytes alone,
/// so byte-identical requests on independent connections get byte-identical
/// responses.
pub proof fn lemma_serve_deterministic(table: RouteTable, req: Seq<u8>, r1: Seq<u8>, r2: Seq<u8>)
    requires
        r1 == spec_serve(table, req),
        r2 == spec_serve(table, req),
    ensures
        r1 == r2,
{
}

} // verus!
