//! The acceptor pool: wiring, delivery, shutdown polling, and the join rule.
//!
//! Initialization binds one listening socket, builds the TLS context once,
//! and spawns the configured number of workers, all sharing the listener
//! and the context and all feeding one bounded channel.  The functions here
//! decide every transition of that pool; the surrounding asynchronous code
//! performs the accepts, handshakes and awaits they call for.

use vstd::prelude::*;
use crate::channel::Channel;
use crate::channel::RecvResult;
use crate::channel::SendResult;
use crate::channel::spec_send_contents;
use crate::channel::spec_send_result;
use crate::worker::Outcome;
use crate::worker::WorkerEvent;
use crate::worker::WorkerState;
use crate::worker::enabled;
use crate::worker::is_terminal;
use crate::worker::outcome_of;
use crate::worker::spec_step;
use crate::worker::worker_step;

verus! {

/// The accept call is bounded by this many seconds; a timeout is the poll
/// point at which a worker checks for shutdown, so this also bounds the
/// worst-case shutdown latency per transition.
pub const ACCEPT_TIMEOUT_SECS: u64 = 30;

/// How many handshake-complete but unconsumed outcomes the channel buffers.
pub const CHANNEL_CAPACITY: usize = 10;

/// The listen address could not be bound; pool creation is aborted.
#[derive(Clone, Copy, PartialEq, Eq, Structural, Debug)]
pub struct BindError;

/// How one worker's execution ended, as seen when joining its handle:
/// either it ran to completion or its task failed unexpectedly.
#[derive(Clone, Copy, PartialEq, Eq, Structural, Debug)]
pub enum WorkerExit {
    Clean,
    Fault,
}

/// One acceptor pool: the states of its workers, the shared outcome
/// channel, and how many listening sockets it bound.
pub struct Pool {
    pub workers: Vec<WorkerState>,
    pub chan: Channel<Outcome>,
    pub binds: usize,
}

/// How many of the workers have not terminated.  Each of them holds one
/// sending handle of the channel.
pub open spec fn live_workers(ws: Seq<WorkerState>) -> nat
    decreases ws.len(),
{
    if ws.len() == 0 {
        0
    } else {
        (if is_terminal(ws[0]) {
            0nat
        } else {
            1nat
        }) + live_workers(ws.drop_first())
    }
}

/// How replacing one worker's state moves the count of live workers.
proof fn lemma_live_workers_update(ws: Seq<WorkerState>, i: int, s: WorkerState)
    requires
        0 <= i < ws.len(),
    ensures
        live_workers(ws.update(i, s)) == live_workers(ws) + (if is_terminal(s) {
            0nat
        } else {
            1nat
        }) - (if is_terminal(ws[i]) {
            0nat
        } else {
            1nat
        }),
    decreases ws.len(),
{
    let ws2 = ws.update(i, s);
    if i == 0 {
        assert(ws2.drop_first() =~= ws.drop_first());
    } else {
        assert(ws2.drop_first() =~= ws.drop_first().update(i - 1, s));
        lemma_live_workers_update(ws.drop_first(), i - 1, s);
    }
}

/// A worker that has not terminated is counted among the live ones.
proof fn lemma_live_workers_pos(ws: Seq<WorkerState>, i: int)
    requires
        0 <= i < ws.len(),
        !is_terminal(ws[i]),
    ensures
        live_workers(ws) >= 1,
    decreases ws.len(),
{
    if i > 0 {
        lemma_live_workers_pos(ws.drop_first(), i - 1);
    }
}

/// When no worker has terminated, every worker is live.
proof fn lemma_live_workers_full(ws: Seq<WorkerState>)
    requires
        forall|i: int| 0 <= i < ws.len() ==> !is_terminal(ws[i]),
    ensures
        live_workers(ws) == ws.len(),
    decreases ws.len(),
{
    if ws.len() > 0 {
        assert(forall|i: int|
            0 <= i < ws.drop_first().len() ==> ws.drop_first()[i] == ws[i + 1]);
        lemma_live_workers_full(ws.drop_first());
    }
}

/// The events the surrounding code reports to a worker from its accept and
/// handshake actions.  Send results and the liveness answer are not among
/// them: those are resolved against the pool's own channel.
pub open spec fn io_event(e: WorkerEvent) -> bool {
    ||| e is AcceptOk
    ||| e is AcceptTimeout
    ||| e is AcceptError
    ||| e is AcceptFatal
    ||| e is HandshakeOk
    ||| e is HandshakeFail
}

impl Pool {
    /// The channel is within its bounds and its sending handles are exactly
    /// those of the workers that have not terminated.
    pub open spec fn wf(&self) -> bool {
        self.chan.wf() && self.chan.sender_count() == live_workers(self.workers@)
    }

    /// Initialize a pool: bind the listening socket, and on success spawn
    /// exactly `worker_count` workers, all waiting, sharing one fresh
    /// channel of the given capacity.  Exactly one socket is bound, and
    /// binding is the only way initialization fails.
    pub fn init(bind_ok: bool, worker_count: usize, capacity: usize) -> (r: Result<
        Pool,
        BindError,
    >)
        requires
            worker_count >= 1,
            capacity >= 1,
        ensures
            r is Ok <==> bind_ok,
            r matches Ok(p) ==> p.wf() && p.binds == 1 && p.workers@.len() == worker_count && (
            forall|i: int| 0 <= i < p.workers@.len() ==> p.workers@[i] == WorkerState::Waiting)
                && p.chan.contents() == Seq::<Outcome>::empty() && p.chan.is_live()
                && p.chan.capacity() == capacity && p.chan.sender_count() == worker_count,
    {
        if !bind_ok {
            return Err(BindError);
        }
        let mut workers: Vec<WorkerState> = Vec::new();
        let mut i: usize = 0;
        while i < worker_count
            invariant
                i <= worker_count,
                workers@.len() == i,
                forall|j: int| 0 <= j < i ==> workers@[j] == WorkerState::Waiting,
            decreases worker_count - i,
        {
            workers.push(WorkerState::Waiting);
            i = i + 1;
        }
        proof {
            lemma_live_workers_full(workers@);
        }
        Ok(Pool { workers, chan: Channel::new(capacity, worker_count), binds: 1 })
    }

    /// Report an accept or handshake event to worker `i`; the worker takes
    /// exactly the step the state machine prescribes, and nothing else in
    /// the pool changes.
    pub fn worker_event(&mut self, i: usize, e: WorkerEvent)
        requires
            old(self).wf(),
            i < old(self).workers@.len(),
            enabled(old(self).workers@[i as int], e),
            io_event(e),
        ensures
            final(self).wf(),
            final(self).workers@ == old(self).workers@.update(
                i as int,
                spec_step(old(self).workers@[i as int], e),
            ),
            final(self).binds == old(self).binds,
            !(e is AcceptFatal) ==> final(self).chan == old(self).chan,
            e is AcceptFatal ==> final(self).chan.contents() == old(self).chan.contents()
                && final(self).chan.capacity() == old(self).chan.capacity()
                && final(self).chan.is_live() == old(self).chan.is_live()
                && final(self).chan.sender_count() == old(self).chan.sender_count() - 1,
    {
        let s = self.workers[i];
        let s2 = worker_step(s, e);
        proof {
            lemma_live_workers_update(self.workers@, i as int, s2);
        }
        self.workers.set(i, s2);
        if matches!(s2, WorkerState::Failed) {
            // the failing worker's task unwinds and its sending handle goes
            proof {
                lemma_live_workers_pos(old(self).workers@, i as int);
            }
            self.chan.drop_sender();
        }
    }

    /// Worker `i` attempts to push the outcome it is holding.  Exactly when
    /// the channel is live and has room, that one outcome is appended and
    /// the worker returns to waiting; a full channel suspends the worker
    /// unchanged (to retry); a closed channel stops it gracefully.  No
    /// outcome is ever dropped and no other worker is touched.
    pub fn worker_deliver(&mut self, i: usize) -> (r: SendResult)
        requires
            old(self).wf(),
            i < old(self).workers@.len(),
            old(self).workers@[i as int] is Delivering,
        ensures
            final(self).wf(),
            final(self).binds == old(self).binds,
            r == spec_send_result(
                old(self).chan.contents(),
                old(self).chan.capacity(),
                old(self).chan.is_live(),
            ),
            final(self).chan.contents() == spec_send_contents(
                old(self).chan.contents(),
                old(self).chan.capacity(),
                old(self).chan.is_live(),
                outcome_of(old(self).workers@[i as int]),
            ),
            final(self).chan.capacity() == old(self).chan.capacity(),
            final(self).chan.is_live() == old(self).chan.is_live(),
            r is Sent ==> final(self).workers@ == old(self).workers@.update(
                i as int,
                WorkerState::Waiting,
            ) && final(self).chan.sender_count() == old(self).chan.sender_count(),
            r is Closed ==> final(self).workers@ == old(self).workers@.update(
                i as int,
                WorkerState::Stopped,
            ) && final(self).chan.sender_count() == old(self).chan.sender_count() - 1,
            r is Full ==> *final(self) == *old(self),
    {
        match self.workers[i] {
            WorkerState::Delivering(o) => {
                let r = self.chan.try_send(o);
                match r {
                    SendResult::Sent => {
                        proof {
                            lemma_live_workers_update(
                                self.workers@,
                                i as int,
                                WorkerState::Waiting,
                            );
                        }
                        self.workers.set(i, WorkerState::Waiting);
                    },
                    SendResult::Closed => {
                        proof {
                            lemma_live_workers_update(
                                self.workers@,
                                i as int,
                                WorkerState::Stopped,
                            );
                            lemma_live_workers_pos(old(self).workers@, i as int);
                        }
                        self.workers.set(i, WorkerState::Stopped);
                        // the stopping worker's sending handle goes with it
                        self.chan.drop_sender();
                    },
                    SendResult::Full => {},
                }
                r
            },
            _ => {
                proof {
                    assert(false);
                }
                vstd::pervasive::unreached()
            },
        }
    }

    /// Worker `i`, woken by an accept timeout, checks whether the consumer
    /// is still there: it returns to waiting while the channel is live and
    /// stops gracefully once the receiving handle is gone.
    pub fn worker_poll_shutdown(&mut self, i: usize)
        requires
            old(self).wf(),
            i < old(self).workers@.len(),
            old(self).workers@[i as int] is CheckShutdown,
        ensures
            final(self).wf(),
            final(self).binds == old(self).binds,
            final(self).chan.contents() == old(self).chan.contents(),
            final(self).chan.capacity() == old(self).chan.capacity(),
            final(self).chan.is_live() == old(self).chan.is_live(),
            final(self).workers@ == old(self).workers@.update(
                i as int,
                if old(self).chan.is_live() {
                    WorkerState::Waiting
                } else {
                    WorkerState::Stopped
                },
            ),
            old(self).chan.is_live() ==> final(self).chan == old(self).chan,
            !old(self).chan.is_live() ==> final(self).chan.sender_count() == old(
                self,
            ).chan.sender_count() - 1,
    {
        if self.chan.closed_for_send() {
            proof {
                lemma_live_workers_update(self.workers@, i as int, WorkerState::Stopped);
                lemma_live_workers_pos(old(self).workers@, i as int);
            }
            self.workers.set(i, WorkerState::Stopped);
            // the stopping worker's sending handle goes with it
            self.chan.drop_sender();
        } else {
            proof {
                lemma_live_workers_update(self.workers@, i as int, WorkerState::Waiting);
            }
            self.workers.set(i, WorkerState::Waiting);
        }
    }

    /// The consumer pulls the next outcome, in arrival order across all
    /// workers.  The sequence ends exactly when the buffer is empty and
    /// every worker has terminated, so that no sending handle is left.
    pub fn next_outcome(&mut self) -> (r: RecvResult<Outcome>)
        requires
            old(self).wf(),
            old(self).chan.is_live(),
        ensures
            final(self).wf(),
            final(self).workers == old(self).workers,
            final(self).binds == old(self).binds,
            final(self).chan.capacity() == old(self).chan.capacity(),
            final(self).chan.is_live(),
            old(self).chan.contents().len() == 0 ==> *final(self) == *old(self) && r == (
            if live_workers(old(self).workers@) == 0 {
                RecvResult::<Outcome>::Ended
            } else {
                RecvResult::<Outcome>::Empty
            }),
            old(self).chan.contents().len() > 0 ==> r == RecvResult::Received(
                old(self).chan.contents()[0],
            ) && final(self).chan.contents() == old(self).chan.contents().drop_first(),
    {
        self.chan.try_recv()
    }

    /// The consumer drops its receiving handle: the designed shutdown
    /// signal, and the only one.
    pub fn shutdown(&mut self)
        requires
            old(self).wf(),
        ensures
            final(self).wf(),
            final(self).workers == old(self).workers,
            final(self).binds == old(self).binds,
            !final(self).chan.is_live(),
    {
        self.chan.close();
    }
}

/// The join rule: await every worker handle, in any order, and surface the
/// first fatal task failure.  The answer is `Ok` exactly when every worker
/// ran to completion; otherwise it names the first worker whose task
/// failed, every worker before it having exited cleanly.
pub fn join_outcome(exits: &Vec<WorkerExit>) -> (r: Result<(), usize>)
    ensures
        r is Ok <==> (forall|j: int| 0 <= j < exits@.len() ==> exits@[j] is Clean),
        r matches Err(i) ==> i < exits@.len() && exits@[i as int] is Fault && (forall|j: int|
            0 <= j < i ==> exits@[j] is Clean),
{
    let mut i: usize = 0;
    while i < exits.len()
        invariant
            i <= exits@.len(),
            forall|j: int| 0 <= j < i ==> exits@[j] is Clean,
        decreases exits@.len() - i,
    {
        match exits[i] {
            WorkerExit::Fault => {
                return Err(i);
            },
            WorkerExit::Clean => {},
        }
        i = i + 1;
    }
    Ok(())
}

} // verus!
