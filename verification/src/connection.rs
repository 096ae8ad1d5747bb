//! At-most-once, idempotent connection teardown.
//!
//! The guard tracks whether the transport owned alongside it has already
//! been shut down. Every call site that wants the connection gone — error
//! paths, explicit logout, drop paths — may ask for shutdown any number of
//! times; the guard directs exactly one of those requests to actually close
//! the socket. The close itself is an I/O action performed by the caller
//! that receives `true`, and its outcome is deliberately ignored: shutdown
//! is best-effort cleanup, not a fallible operation.

use vstd::prelude::*;

verus! {

/// State machine `Open -> ShutDown` (terminal) guarding a transport socket.
pub struct TcpShutdown {
    shutdown: bool,
}

impl TcpShutdown {
    /// Whether the guard has reached its terminal state.
    pub closed spec fn is_shut_down(self) -> bool {
        self.shutdown
    }

    /// A fresh guard for a live transport: still open.
    pub fn new() -> (r: Self)
        ensures
            !r.is_shut_down(),
    {
        Self { shutdown: false }
    }

    /// Requests teardown. Returns whether this call is the one that must
    /// issue the underlying bidirectional close: `true` exactly on the first
    /// call, `false` — a no-op — on every later one. The guard is in its
    /// terminal state afterwards either way.
    pub fn shutdown(&mut self) -> (close_now: bool)
        ensures
            final(self).is_shut_down(),
            close_now == !old(self).is_shut_down(),
    {
        if !self.shutdown {
            self.shutdown = true;
            true
        } else {
            false
        }
    }

    /// Reports the current state without side effects.
    pub fn has_been_shut_down(&self) -> (r: bool)
        ensures
            r == self.is_shut_down(),
    {
        self.shutdown
    }
}

/// How many of `n` consecutive `shutdown` requests, starting from a guard
/// whose state is `already`, are told to issue the underlying close. Each
/// request steps the state exactly as the `ensures` of
/// [`TcpShutdown::shutdown`] describes: the close is requested when the
/// guard was still open, and the guard is shut down afterwards.
pub open spec fn closes_issued(already: bool, n: nat) -> nat
    decreases n,
{
    if n == 0 {
        0
    } else {
        (if already {
            0nat
        } else {
            1nat
        }) + closes_issued(true, (n - 1) as nat)
    }
}

/// Once the guard is shut down, no later request closes anything again.
pub proof fn lemma_no_close_after_shutdown(n: nat)
    ensures
        closes_issued(true, n) == 0,
    decreases n,
{
    if n > 0 {
        lemma_no_close_after_shutdown((n - 1) as nat);
    }
}

/// Law: however many times `shutdown` is requested on a live connection —
/// at least once — exactly one request results in an underlying close
/// attempt, and the guard reports shut down afterwards. No double-close, no
/// panic.
pub proof fn lemma_shutdown_idempotent(n: nat)
    requires
        n >= 1,
    ensures
        closes_issued(false, n) == 1,
{
    lemma_no_close_after_shutdown((n - 1) as nat);
}

} // verus!
