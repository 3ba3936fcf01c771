//! The acceptor worker's state machine.
//!
//! A worker repeatedly waits for a connection (bounded by a timeout),
//! performs the TLS handshake on what it accepted, and delivers the outcome
//! into the shared channel.  A timeout is used as the poll point for
//! cooperative shutdown: when the consumer's receiving handle is gone the
//! worker stops; a per-connection handshake failure never stops it.

use vstd::prelude::*;

verus! {

/// The result of one connection attempt, identified by the connection it
/// came from: either a fully-handshaken secure stream or a handshake error.
/// Each accepted connection produces exactly one outcome.
#[derive(Clone, Copy, PartialEq, Eq, Structural, Debug)]
pub enum Outcome {
    Secure(u64),
    HandshakeFailed(u64),
}

/// The connection an outcome belongs to.
pub open spec fn conn_of(o: Outcome) -> u64 {
    match o {
        Outcome::Secure(c) => c,
        Outcome::HandshakeFailed(c) => c,
    }
}

/// The states of one acceptor worker.  `Stopped` and `Failed` are terminal:
/// `Stopped` is the graceful exit after shutdown was detected, `Failed` the
/// exit after a fatal listener error.
#[derive(Clone, Copy, PartialEq, Eq, Structural, Debug)]
pub enum WorkerState {
    Waiting,
    Handshaking(u64),
    Delivering(Outcome),
    CheckShutdown,
    Stopped,
    Failed,
}

/// The events a worker can observe, each reported by the action its current
/// state asked for: the bounded accept call (which can succeed, time out,
/// fail transiently, or fail fatally at the listener), the handshake, the
/// channel send, and the channel liveness check.
#[derive(Clone, Copy, PartialEq, Eq, Structural, Debug)]
pub enum WorkerEvent {
    AcceptOk(u64),
    AcceptTimeout,
    AcceptError,
    AcceptFatal,
    HandshakeOk,
    HandshakeFail,
    SendOk,
    SendClosed,
    ConsumerLive,
    ConsumerGone,
}

pub open spec fn is_terminal(s: WorkerState) -> bool {
    s is Stopped || s is Failed
}

/// Which events can be observed in which state: accept results while
/// waiting (including a transient accept failure, which is only logged),
/// handshake results while handshaking, send results while
/// delivering, and the liveness answer while checking for shutdown.
/// Terminal states observe nothing.
pub open spec fn enabled(s: WorkerState, e: WorkerEvent) -> bool {
    match (s, e) {
        (WorkerState::Waiting, WorkerEvent::AcceptOk(_)) => true,
        (WorkerState::Waiting, WorkerEvent::AcceptTimeout) => true,
        (WorkerState::Waiting, WorkerEvent::AcceptError) => true,
        (WorkerState::Waiting, WorkerEvent::AcceptFatal) => true,
        (WorkerState::Handshaking(_), WorkerEvent::HandshakeOk) => true,
        (WorkerState::Handshaking(_), WorkerEvent::HandshakeFail) => true,
        (WorkerState::Delivering(_), WorkerEvent::SendOk) => true,
        (WorkerState::Delivering(_), WorkerEvent::SendClosed) => true,
        (WorkerState::CheckShutdown, WorkerEvent::ConsumerLive) => true,
        (WorkerState::CheckShutdown, WorkerEvent::ConsumerGone) => true,
        _ => false,
    }
}

/// The transition table of the worker state machine.
pub open spec fn spec_step(s: WorkerState, e: WorkerEvent) -> WorkerState
    recommends
        enabled(s, e),
{
    match (s, e) {
        (WorkerState::Waiting, WorkerEvent::AcceptOk(c)) => WorkerState::Handshaking(c),
        (WorkerState::Waiting, WorkerEvent::AcceptTimeout) => WorkerState::CheckShutdown,
        (WorkerState::Waiting, WorkerEvent::AcceptError) => WorkerState::Waiting,
        (WorkerState::Waiting, WorkerEvent::AcceptFatal) => WorkerState::Failed,
        (WorkerState::Handshaking(c), WorkerEvent::HandshakeOk) => WorkerState::Delivering(
            Outcome::Secure(c),
        ),
        (WorkerState::Handshaking(c), WorkerEvent::HandshakeFail) => WorkerState::Delivering(
            Outcome::HandshakeFailed(c),
        ),
        (WorkerState::Delivering(_), WorkerEvent::SendOk) => WorkerState::Waiting,
        (WorkerState::Delivering(_), WorkerEvent::SendClosed) => WorkerState::Stopped,
        (WorkerState::CheckShutdown, WorkerEvent::ConsumerLive) => WorkerState::Waiting,
        (WorkerState::CheckShutdown, WorkerEvent::ConsumerGone) => WorkerState::Stopped,
        _ => s,
    }
}

/// One transition of the worker state machine.
pub fn worker_step(s: WorkerState, e: WorkerEvent) -> (r: WorkerState)
    requires
        enabled(s, e),
    ensures
        r == spec_step(s, e),
{
    match (s, e) {
        (WorkerState::Waiting, WorkerEvent::AcceptOk(c)) => WorkerState::Handshaking(c),
        (WorkerState::Waiting, WorkerEvent::AcceptTimeout) => WorkerState::CheckShutdown,
        (WorkerState::Waiting, WorkerEvent::AcceptError) => WorkerState::Waiting,
        (WorkerState::Waiting, WorkerEvent::AcceptFatal) => WorkerState::Failed,
        (WorkerState::Handshaking(c), WorkerEvent::HandshakeOk) => WorkerState::Delivering(
            Outcome::Secure(c),
        ),
        (WorkerState::Handshaking(c), WorkerEvent::HandshakeFail) => WorkerState::Delivering(
            Outcome::HandshakeFailed(c),
        ),
        (WorkerState::Delivering(_), WorkerEvent::SendOk) => WorkerState::Waiting,
        (WorkerState::Delivering(_), WorkerEvent::SendClosed) => WorkerState::Stopped,
        (WorkerState::CheckShutdown, WorkerEvent::ConsumerLive) => WorkerState::Waiting,
        (WorkerState::CheckShutdown, WorkerEvent::ConsumerGone) => WorkerState::Stopped,
        _ => s,
    }
}

/// The state after observing a sequence of events.
pub open spec fn run(s: WorkerState, es: Seq<WorkerEvent>) -> WorkerState
    decreases es.len(),
{
    if es.len() == 0 {
        s
    } else {
        run(spec_step(s, es[0]), es.drop_first())
    }
}

/// Whether each event of the sequence is enabled in the state it is
/// observed in.
pub open spec fn trace_enabled(s: WorkerState, es: Seq<WorkerEvent>) -> bool
    decreases es.len(),
{
    es.len() == 0 || (enabled(s, es[0]) && trace_enabled(spec_step(s, es[0]), es.drop_first()))
}

/// The connections accepted along a trace, in order.
pub open spec fn accepted(es: Seq<WorkerEvent>) -> Seq<u64>
    decreases es.len(),
{
    if es.len() == 0 {
        Seq::empty()
    } else {
        match es[0] {
            WorkerEvent::AcceptOk(c) => seq![c] + accepted(es.drop_first()),
            _ => accepted(es.drop_first()),
        }
    }
}

/// The outcome a delivering worker is holding.
pub open spec fn outcome_of(s: WorkerState) -> Outcome
    recommends
        s is Delivering,
{
    s->Delivering_0
}

/// The outcomes a worker pushed into the channel along a trace, in order.
pub open spec fn delivered(s: WorkerState, es: Seq<WorkerEvent>) -> Seq<Outcome>
    decreases es.len(),
{
    if es.len() == 0 {
        Seq::empty()
    } else {
        let rest = delivered(spec_step(s, es[0]), es.drop_first());
        if s is Delivering && es[0] is SendOk {
            seq![outcome_of(s)] + rest
        } else {
            rest
        }
    }
}

/// The connections of a sequence of outcomes.
pub open spec fn conns(os: Seq<Outcome>) -> Seq<u64> {
    os.map_values(|o: Outcome| conn_of(o))
}

/// The connection a worker is in the middle of serving, if any.
pub open spec fn pending(s: WorkerState) -> Seq<u64> {
    match s {
        WorkerState::Handshaking(c) => seq![c],
        WorkerState::Delivering(o) => seq![conn_of(o)],
        _ => Seq::empty(),
    }
}

pub open spec fn no_send_closed(es: Seq<WorkerEvent>) -> bool {
    forall|i: int| 0 <= i < es.len() ==> !(es[i] is SendClosed)
}

pub open spec fn no_fatal(es: Seq<WorkerEvent>) -> bool {
    forall|i: int| 0 <= i < es.len() ==> !(es[i] is AcceptFatal)
}

pub open spec fn no_accept_error(es: Seq<WorkerEvent>) -> bool {
    forall|i: int| 0 <= i < es.len() ==> !(es[i] is AcceptError)
}

pub open spec fn no_handshake_fail(es: Seq<WorkerEvent>) -> bool {
    forall|i: int| 0 <= i < es.len() ==> !(es[i] is HandshakeFail)
}

/// The events that can still be observed once the consumer's receiving
/// handle is gone: a send can then only report closure, and the liveness
/// check can only answer that the consumer is gone.
pub open spec fn closed_consistent(e: WorkerEvent) -> bool {
    !(e is SendOk) && !(e is ConsumerLive)
}

pub open spec fn all_closed_consistent(es: Seq<WorkerEvent>) -> bool {
    forall|i: int| 0 <= i < es.len() ==> closed_consistent(es[i])
}

/// Delivery bookkeeping along any trace in which no send found the channel
/// closed: the connections accepted so far are exactly the connections
/// delivered so far, up to the one connection still in flight at either
/// end.  No outcome is duplicated and none is dropped.
pub proof fn lemma_delivery_balance(s: WorkerState, es: Seq<WorkerEvent>)
    requires
        trace_enabled(s, es),
        no_send_closed(es),
    ensures
        pending(s) + accepted(es) == conns(delivered(s, es)) + pending(run(s, es)),
    decreases es.len(),
{
    if es.len() == 0 {
        assert(pending(s) + accepted(es) =~= conns(delivered(s, es)) + pending(run(s, es)));
    } else {
        let e = es[0];
        let s2 = spec_step(s, e);
        let rest = es.drop_first();
        assert(forall|i: int| 0 <= i < rest.len() ==> rest[i] == es[i + 1]);
        lemma_delivery_balance(s2, rest);
        if s is Delivering && e is SendOk {
            assert(conns(delivered(s, es)) =~= seq![conn_of(outcome_of(s))] + conns(
                delivered(s2, rest),
            ));
            assert(pending(s) + accepted(es) =~= conns(delivered(s, es)) + pending(run(s, es)));
        } else {
            assert(delivered(s, es) == delivered(s2, rest));
            assert(pending(s) + accepted(es) =~= conns(delivered(s, es)) + pending(run(s, es)));
        }
    }
}

/// No outcome is duplicated or lost: along any complete trace from the
/// initial state (the worker is not left mid-connection and no send found
/// the channel closed), the delivered outcomes are exactly the accepted
/// connections, one outcome per accepted connection, in acceptance order.
pub proof fn lemma_no_loss_no_duplication(es: Seq<WorkerEvent>)
    requires
        trace_enabled(WorkerState::Waiting, es),
        no_send_closed(es),
        pending(run(WorkerState::Waiting, es)).len() == 0,
    ensures
        conns(delivered(WorkerState::Waiting, es)) == accepted(es),
{
    lemma_delivery_balance(WorkerState::Waiting, es);
    assert(conns(delivered(WorkerState::Waiting, es)) =~= accepted(es));
}

/// Whether a worker is not holding a handshake-error outcome.
pub open spec fn ok_pending(s: WorkerState) -> bool {
    s matches WorkerState::Delivering(o) ==> o is Secure
}

/// With compatible clients every delivered outcome is a success: along any
/// trace without a handshake failure, a worker that is not already holding
/// an error outcome delivers secure streams only.
pub proof fn lemma_compatible_clients_all_secure(s: WorkerState, es: Seq<WorkerEvent>)
    requires
        trace_enabled(s, es),
        no_handshake_fail(es),
        ok_pending(s),
    ensures
        forall|i: int| 0 <= i < delivered(s, es).len() ==> delivered(s, es)[i] is Secure,
    decreases es.len(),
{
    if es.len() > 0 {
        let e = es[0];
        let s2 = spec_step(s, e);
        let rest = es.drop_first();
        assert(forall|i: int| 0 <= i < rest.len() ==> rest[i] == es[i + 1]);
        lemma_compatible_clients_all_secure(s2, rest);
    }
}

/// An incompatible or absent client-side TLS handshake yields exactly one
/// error outcome and does not stop the worker: the handshake failure moves
/// the worker to delivering that one error, and a delivered error returns
/// the worker to waiting.  Concretely, the full cycle of accepting a
/// connection, failing its handshake and delivering the outcome puts
/// exactly one error outcome into the channel and ends back in `Waiting`.
pub proof fn lemma_handshake_failure_isolated(c: u64)
    ensures
        spec_step(WorkerState::Handshaking(c), WorkerEvent::HandshakeFail) == WorkerState::Delivering(
            Outcome::HandshakeFailed(c),
        ),
        !is_terminal(spec_step(WorkerState::Handshaking(c), WorkerEvent::HandshakeFail)),
        spec_step(WorkerState::Delivering(Outcome::HandshakeFailed(c)), WorkerEvent::SendOk)
            == WorkerState::Waiting,
        delivered(
            WorkerState::Waiting,
            seq![WorkerEvent::AcceptOk(c), WorkerEvent::HandshakeFail, WorkerEvent::SendOk],
        ) == seq![Outcome::HandshakeFailed(c)],
        run(
            WorkerState::Waiting,
            seq![WorkerEvent::AcceptOk(c), WorkerEvent::HandshakeFail, WorkerEvent::SendOk],
        ) == WorkerState::Waiting,
{
    let es = seq![WorkerEvent::AcceptOk(c), WorkerEvent::HandshakeFail, WorkerEvent::SendOk];
    let es1 = seq![WorkerEvent::HandshakeFail, WorkerEvent::SendOk];
    let es2 = seq![WorkerEvent::SendOk];
    let es3 = Seq::<WorkerEvent>::empty();
    assert(es.drop_first() =~= es1);
    assert(es1.drop_first() =~= es2);
    assert(es2.drop_first() =~= es3);
    let s0 = WorkerState::Waiting;
    let s1 = WorkerState::Handshaking(c);
    let s2 = WorkerState::Delivering(Outcome::HandshakeFailed(c));
    assert(run(s0, es) == run(s1, es1));
    assert(run(s1, es1) == run(s2, es2));
    assert(run(s2, es2) == run(WorkerState::Waiting, es3));
    assert(run(WorkerState::Waiting, es3) == WorkerState::Waiting);
    assert(delivered(s0, es) == delivered(s1, es1));
    assert(delivered(s1, es1) == delivered(s2, es2));
    assert(delivered(WorkerState::Waiting, es3) =~= Seq::<Outcome>::empty());
    assert(delivered(s2, es2) =~= seq![Outcome::HandshakeFailed(c)]);
}

/// How many transitions a worker can still make once the consumer is gone.
pub open spec fn rank(s: WorkerState) -> nat {
    match s {
        WorkerState::Waiting => 3,
        WorkerState::Handshaking(_) => 2,
        WorkerState::Delivering(_) => 1,
        WorkerState::CheckShutdown => 1,
        WorkerState::Stopped => 0,
        WorkerState::Failed => 0,
    }
}

/// Once the consumer is gone a worker is never stuck: every non-terminal
/// state still enables some event that is consistent with a closed channel
/// and needs neither a listener fault nor a transient accept error, so the
/// worker keeps transitioning until it stops.
pub proof fn lemma_shutdown_progress(s: WorkerState)
    requires
        !is_terminal(s),
    ensures
        exists|e: WorkerEvent|
            enabled(s, e) && closed_consistent(e) && !(e is AcceptFatal) && !(e is AcceptError),
{
    match s {
        WorkerState::Waiting => {
            assert(enabled(s, WorkerEvent::AcceptTimeout) && closed_consistent(
                WorkerEvent::AcceptTimeout,
            ));
        },
        WorkerState::Handshaking(_) => {
            assert(enabled(s, WorkerEvent::HandshakeOk) && closed_consistent(
                WorkerEvent::HandshakeOk,
            ));
        },
        WorkerState::Delivering(_) => {
            assert(enabled(s, WorkerEvent::SendClosed) && closed_consistent(
                WorkerEvent::SendClosed,
            ));
        },
        WorkerState::CheckShutdown => {
            assert(enabled(s, WorkerEvent::ConsumerGone) && closed_consistent(
                WorkerEvent::ConsumerGone,
            ));
        },
        _ => {},
    }
}

/// Dropping the consumer's receiving handle stops every worker promptly:
/// once the channel is closed, a worker that has not failed fatally makes
/// at most `rank` further transitions (at most three, each bounded in time
/// by the accept timeout), and whenever it reaches a terminal state that
/// state is the graceful `Stopped`.  The bound asks for a quiet listener:
/// a continuous stream of transient accept failures re-enters `Waiting`
/// without ever reaching the shutdown poll, so such traces are left out.
pub proof fn lemma_shutdown_bounded(s: WorkerState, es: Seq<WorkerEvent>)
    requires
        s != WorkerState::Failed,
        trace_enabled(s, es),
        all_closed_consistent(es),
        no_fatal(es),
        no_accept_error(es),
    ensures
        es.len() <= rank(s),
        is_terminal(run(s, es)) ==> run(s, es) == WorkerState::Stopped,
    decreases es.len(),
{
    if es.len() > 0 {
        let e = es[0];
        let s2 = spec_step(s, e);
        let rest = es.drop_first();
        assert(forall|i: int| 0 <= i < rest.len() ==> rest[i] == es[i + 1]);
        assert(rank(s2) < rank(s));
        lemma_shutdown_bounded(s2, rest);
    }
}

} // verus!
