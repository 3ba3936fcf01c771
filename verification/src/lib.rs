//! Model of a concurrent TLS-terminating connection acceptor pool.
//!
//! The pool binds one listening socket, runs several acceptor workers against
//! it, performs a TLS handshake per accepted connection, and republishes the
//! outcomes through one bounded FIFO channel to a single consumer.  Shutdown
//! is cooperative: workers notice that the consumer dropped its receiving
//! handle and stop within one accept-timeout interval.
//!
//! This crate verifies the decision logic of that design: the per-worker
//! state machine, the bounded multiplexing channel, the pool wiring, and the
//! join rule.  The surrounding asynchronous I/O (socket accept, TLS engine,
//! task spawning) performs the actions these functions decide on and feeds
//! the observed events back in.

pub mod channel;
pub mod pool;
pub mod worker;
