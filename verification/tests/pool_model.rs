use acceptor_pool::channel::Channel;
use acceptor_pool::channel::RecvResult;
use acceptor_pool::channel::SendResult;
use acceptor_pool::pool::join_outcome;
use acceptor_pool::pool::BindError;
use acceptor_pool::pool::Pool;
use acceptor_pool::pool::WorkerExit;
use acceptor_pool::pool::CHANNEL_CAPACITY;
use acceptor_pool::worker::worker_step;
use acceptor_pool::worker::Outcome;
use acceptor_pool::worker::WorkerEvent;
use acceptor_pool::worker::WorkerState;

fn pool(worker_count: usize, capacity: usize) -> Pool {
    Pool::init(true, worker_count, capacity).expect("bind succeeded")
}

#[test]
fn pool_init_spawns_workers() {
    for n in [1usize, 4, 16] {
        let p = pool(n, CHANNEL_CAPACITY);
        assert_eq!(p.binds, 1);
        assert_eq!(p.workers.len(), n);
        for i in 0..n {
            assert_eq!(p.workers[i], WorkerState::Waiting);
        }
        assert_eq!(p.chan.len(), 0);
        assert!(!p.chan.closed_for_send());
    }
}

#[test]
fn pool_init_bind_failure() {
    let r = Pool::init(false, 3, CHANNEL_CAPACITY);
    assert!(matches!(r, Err(BindError)));
}

#[test]
fn worker_transition_table() {
    let secure = WorkerState::Delivering(Outcome::Secure(5));
    assert_eq!(
        worker_step(WorkerState::Waiting, WorkerEvent::AcceptOk(5)),
        WorkerState::Handshaking(5)
    );
    assert_eq!(
        worker_step(WorkerState::Waiting, WorkerEvent::AcceptTimeout),
        WorkerState::CheckShutdown
    );
    assert_eq!(
        worker_step(WorkerState::Waiting, WorkerEvent::AcceptError),
        WorkerState::Waiting
    );
    assert_eq!(
        worker_step(WorkerState::Waiting, WorkerEvent::AcceptFatal),
        WorkerState::Failed
    );
    assert_eq!(
        worker_step(WorkerState::Handshaking(5), WorkerEvent::HandshakeOk),
        WorkerState::Delivering(Outcome::Secure(5))
    );
    assert_eq!(
        worker_step(WorkerState::Handshaking(5), WorkerEvent::HandshakeFail),
        WorkerState::Delivering(Outcome::HandshakeFailed(5))
    );
    assert_eq!(worker_step(secure, WorkerEvent::SendOk), WorkerState::Waiting);
    assert_eq!(worker_step(secure, WorkerEvent::SendClosed), WorkerState::Stopped);
    assert_eq!(
        worker_step(WorkerState::CheckShutdown, WorkerEvent::ConsumerLive),
        WorkerState::Waiting
    );
    assert_eq!(
        worker_step(WorkerState::CheckShutdown, WorkerEvent::ConsumerGone),
        WorkerState::Stopped
    );
}

#[test]
fn handshake_failure_isolated() {
    let mut p = pool(2, CHANNEL_CAPACITY);
    p.worker_event(0, WorkerEvent::AcceptOk(7));
    p.worker_event(0, WorkerEvent::HandshakeFail);
    assert_eq!(p.workers[0], WorkerState::Delivering(Outcome::HandshakeFailed(7)));
    let sent = p.worker_deliver(0);
    assert_eq!(sent, SendResult::Sent);
    // exactly one error outcome, and the worker keeps going
    assert_eq!(p.chan.len(), 1);
    assert_eq!(p.next_outcome(), RecvResult::Received(Outcome::HandshakeFailed(7)));
    assert_eq!(p.next_outcome(), RecvResult::Empty);
    assert_eq!(p.workers[0], WorkerState::Waiting);
    assert_eq!(p.workers[1], WorkerState::Waiting);
}

#[test]
fn capacity_window() {
    let mut c: Channel<u64> = Channel::new(2, 2);
    // two senders inside the capacity window both succeed at once
    assert_eq!(c.try_send(1), SendResult::Sent);
    assert_eq!(c.try_send(2), SendResult::Sent);
    // beyond capacity a sender suspends, and nothing is dropped
    assert_eq!(c.try_send(3), SendResult::Full);
    assert_eq!(c.len(), 2);
    assert_eq!(c.drain(), vec![1, 2]);
    // after the consumer drained, the suspended delivery goes through
    assert_eq!(c.try_send(3), SendResult::Sent);
    assert_eq!(c.try_recv(), RecvResult::Received(3));
}

#[test]
fn merged_outcomes_complete_and_ordered() {
    // three concurrent clients against two workers: every connection yields
    // exactly one success, none duplicated, none lost, in arrival order
    let mut p = pool(2, CHANNEL_CAPACITY);
    p.worker_event(0, WorkerEvent::AcceptOk(10));
    p.worker_event(1, WorkerEvent::AcceptOk(11));
    p.worker_event(0, WorkerEvent::HandshakeOk);
    assert_eq!(p.worker_deliver(0), SendResult::Sent);
    p.worker_event(1, WorkerEvent::HandshakeOk);
    assert_eq!(p.worker_deliver(1), SendResult::Sent);
    p.worker_event(0, WorkerEvent::AcceptOk(12));
    p.worker_event(0, WorkerEvent::HandshakeOk);
    assert_eq!(p.worker_deliver(0), SendResult::Sent);
    let got = p.chan.drain();
    assert_eq!(
        got,
        vec![Outcome::Secure(10), Outcome::Secure(11), Outcome::Secure(12)]
    );
}

#[test]
fn shutdown_stops_every_worker() {
    let mut p = pool(3, CHANNEL_CAPACITY);
    // one worker mid-delivery, one mid-wait, one already checking
    p.worker_event(0, WorkerEvent::AcceptOk(1));
    p.worker_event(0, WorkerEvent::HandshakeOk);
    p.worker_event(2, WorkerEvent::AcceptTimeout);
    p.shutdown();
    // the delivering worker finds the channel closed and stops gracefully
    assert_eq!(p.worker_deliver(0), SendResult::Closed);
    assert_eq!(p.workers[0], WorkerState::Stopped);
    // the waiting worker wakes on its accept timeout and stops
    p.worker_event(1, WorkerEvent::AcceptTimeout);
    p.worker_poll_shutdown(1);
    assert_eq!(p.workers[1], WorkerState::Stopped);
    // the checking worker sees the consumer gone and stops
    p.worker_poll_shutdown(2);
    assert_eq!(p.workers[2], WorkerState::Stopped);
}

#[test]
fn transient_errors_never_stop_a_worker() {
    let mut p = pool(1, CHANNEL_CAPACITY);
    // an accept timeout with a live consumer just loops
    p.worker_event(0, WorkerEvent::AcceptTimeout);
    p.worker_poll_shutdown(0);
    assert_eq!(p.workers[0], WorkerState::Waiting);
    // a transient accept failure is logged and the worker loops
    p.worker_event(0, WorkerEvent::AcceptError);
    assert_eq!(p.workers[0], WorkerState::Waiting);
    // a failed handshake is delivered as data and the worker loops
    p.worker_event(0, WorkerEvent::AcceptOk(9));
    p.worker_event(0, WorkerEvent::HandshakeFail);
    assert_eq!(p.worker_deliver(0), SendResult::Sent);
    assert_eq!(p.workers[0], WorkerState::Waiting);
    // only a fatal listener error fails the worker's task
    p.worker_event(0, WorkerEvent::AcceptFatal);
    assert_eq!(p.workers[0], WorkerState::Failed);
}

#[test]
fn sequence_ends_when_every_sender_is_gone() {
    let mut p = pool(2, CHANNEL_CAPACITY);
    assert_eq!(p.next_outcome(), RecvResult::Empty);
    // both workers' tasks end fatally and their sending handles go with them
    p.worker_event(0, WorkerEvent::AcceptFatal);
    assert_eq!(p.next_outcome(), RecvResult::Empty);
    p.worker_event(1, WorkerEvent::AcceptFatal);
    // no sender is left, so the consumer's sequence ends
    assert_eq!(p.next_outcome(), RecvResult::Ended);
    assert_eq!(join_outcome(&vec![WorkerExit::Fault, WorkerExit::Fault]), Err(0));
}

#[test]
fn join_all_clean() {
    let exits = vec![WorkerExit::Clean; 16];
    assert_eq!(join_outcome(&exits), Ok(()));
    let none: Vec<WorkerExit> = Vec::new();
    assert_eq!(join_outcome(&none), Ok(()));
}

#[test]
fn join_surfaces_first_fault() {
    let exits = vec![
        WorkerExit::Clean,
        WorkerExit::Fault,
        WorkerExit::Clean,
        WorkerExit::Fault,
    ];
    assert_eq!(join_outcome(&exits), Err(1));
}

#[test]
fn full_channel_suspends_delivery_without_loss() {
    let mut p = pool(2, 1);
    p.worker_event(0, WorkerEvent::AcceptOk(1));
    p.worker_event(0, WorkerEvent::HandshakeOk);
    assert_eq!(p.worker_deliver(0), SendResult::Sent);
    p.worker_event(1, WorkerEvent::AcceptOk(2));
    p.worker_event(1, WorkerEvent::HandshakeOk);
    // the channel is at capacity: the second delivery suspends, unchanged
    assert_eq!(p.worker_deliver(1), SendResult::Full);
    assert_eq!(p.workers[1], WorkerState::Delivering(Outcome::Secure(2)));
    // once the consumer drains, the retried delivery succeeds
    assert_eq!(p.next_outcome(), RecvResult::Received(Outcome::Secure(1)));
    assert_eq!(p.worker_deliver(1), SendResult::Sent);
    assert_eq!(p.next_outcome(), RecvResult::Received(Outcome::Secure(2)));
}

#[test]
fn end_to_end_pool() {
    // sixteen workers; a client connects, completes its handshake, and the
    // consumer's next pulled item is the success outcome; the consumer then
    // drops the sequence and every worker winds down; joining reports no error
    let mut p = pool(16, CHANNEL_CAPACITY);
    assert_eq!(p.workers.len(), 16);
    p.worker_event(3, WorkerEvent::AcceptOk(42));
    p.worker_event(3, WorkerEvent::HandshakeOk);
    assert_eq!(p.worker_deliver(3), SendResult::Sent);
    assert_eq!(p.next_outcome(), RecvResult::Received(Outcome::Secure(42)));
    p.shutdown();
    for i in 0..16 {
        p.worker_event(i, WorkerEvent::AcceptTimeout);
        p.worker_poll_shutdown(i);
        assert_eq!(p.workers[i], WorkerState::Stopped);
    }
    let exits = vec![WorkerExit::Clean; 16];
    assert_eq!(join_outcome(&exits), Ok(()));
}
