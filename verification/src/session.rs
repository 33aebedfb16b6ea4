//! Decision logic around the native connection's lifetime and transfers.
//!
//! Two things about a session admit proof independently of the native
//! layer. First, the connection resource must be released exactly once:
//! `CloseGuard` decides, on each release request, whether the native close
//! call may run, and grants it at most once over any number of requests.
//! Second, a blocking write may transfer fewer bytes than requested, and
//! the caller must resubmit the remainder until everything went out or a
//! zero return says the sink takes no more: `Transfer` does that
//! accounting, and `run_write_loop` proves the resulting loop terminates
//! with the whole buffer transferred whenever the device keeps making
//! progress.

use vstd::prelude::*;

verus! {

/// Whether a release request in the given guard state grants the native
/// close call: only the first request finds the guard unreleased.
pub open spec fn grants_close(released: bool) -> bool {
    !released
}

/// The guard state after a release request: released, whatever it was
/// before — the sentinel that makes a later release a no-op.
pub open spec fn after_release(released: bool) -> bool {
    true
}

/// How many of `k` consecutive release requests, starting from the given
/// guard state, grant the native close call.
pub open spec fn close_grants_in(released: bool, k: nat) -> nat
    decreases k,
{
    if k == 0 {
        0
    } else {
        (if grants_close(released) {
            1nat
        } else {
            0nat
        }) + close_grants_in(after_release(released), (k - 1) as nat)
    }
}

/// However often a fresh guard is asked to release — one drop, a stop
/// followed by a drop, or any longer sequence — the native close call is
/// granted exactly once: the open and the close balance one to one, and a
/// double release never closes twice.
pub proof fn lemma_close_granted_exactly_once(k: nat)
    requires
        k >= 1,
    ensures
        close_grants_in(false, k) == 1,
{
    lemma_released_guard_grants_nothing((k - 1) as nat);
}

/// A guard already released grants the native close call to none of any
/// number of further release requests.
pub proof fn lemma_released_guard_grants_nothing(k: nat)
    ensures
        close_grants_in(true, k) == 0,
    decreases k,
{
    if k > 0 {
        lemma_released_guard_grants_nothing((k - 1) as nat);
    }
}

/// Tracks whether the native connection behind a handle has been released
/// yet, so that the close call runs at most once and a second release is a
/// no-op instead of a double free.
pub struct CloseGuard {
    released: bool,
}

impl CloseGuard {
    /// Whether the connection this guard watches has been released.
    pub closed spec fn is_released(self) -> bool {
        self.released
    }

    /// A fresh guard for a connection the native open call just produced.
    pub fn new() -> (g: CloseGuard)
        ensures
            !g.is_released(),
    {
        CloseGuard { released: false }
    }

    /// Decides whether the native close call may run now. Grants it
    /// exactly when the connection was still unreleased, and leaves the
    /// guard released either way.
    pub fn release(&mut self) -> (grant: bool)
        ensures
            grant == grants_close(old(self).is_released()),
            final(self).is_released() == after_release(old(self).is_released()),
    {
        let grant = !self.released;
        self.released = true;
        grant
    }
}

/// What one write step meant for the transfer.
#[derive(Clone, Copy, Debug, PartialEq, Eq, Structural)]
pub enum WriteStep {
    /// Bytes moved, and some remain: resubmit the remainder.
    Progress,
    /// The device took nothing though bytes remain: stop looping.
    Stalled,
    /// The whole buffer has been transferred.
    Complete,
}

/// How a full-buffer write loop ended.
#[derive(Clone, Copy, Debug, PartialEq, Eq, Structural)]
pub enum WriteOutcome {
    /// The whole buffer was transferred.
    Completed,
    /// A zero return said the sink accepts no more.
    Stopped,
}

/// Accounting of one chunked transfer: how much of the buffer the device
/// has accepted so far. The caller performs the native write for the
/// remainder and records each call's return here.
pub struct Transfer {
    total: usize,
    sent: usize,
}

impl Transfer {
    /// The size of the buffer being transferred.
    pub closed spec fn total(self) -> nat {
        self.total as nat
    }

    /// How many bytes the device has accepted so far.
    pub closed spec fn sent(self) -> nat {
        self.sent as nat
    }

    /// The count of accepted bytes never passes the buffer size.
    pub open spec fn wf(self) -> bool {
        self.sent() <= self.total()
    }

    /// Starts the accounting for a buffer of `total` bytes.
    pub fn new(total: usize) -> (t: Transfer)
        ensures
            t.wf(),
            t.total() == total,
            t.sent() == 0,
    {
        Transfer { total, sent: 0 }
    }

    /// How many bytes still have to be written: what the caller hands to
    /// the next native write call.
    pub fn remaining(&self) -> (r: usize)
        requires
            self.wf(),
        ensures
            r == self.total() - self.sent(),
    {
        self.total - self.sent
    }

    /// Whether the whole buffer has been transferred.
    pub fn is_done(&self) -> (b: bool)
        ensures
            b == (self.sent() == self.total()),
    {
        self.sent == self.total
    }

    /// Records that one native write call returned `n`: the device
    /// accepted `n` more bytes. Says whether to resubmit the remainder,
    /// stop on a zero return, or finish with the buffer fully
    /// transferred.
    pub fn record(&mut self, n: usize) -> (s: WriteStep)
        requires
            old(self).wf(),
            n <= old(self).total() - old(self).sent(),
        ensures
            final(self).wf(),
            final(self).total() == old(self).total(),
            final(self).sent() == old(self).sent() + n,
            s == WriteStep::Complete <==> final(self).sent() == final(self).total(),
            s == WriteStep::Stalled <==> n == 0 && final(self).sent() < final(self).total(),
            s == WriteStep::Progress <==> n > 0 && final(self).sent() < final(self).total(),
    {
        self.sent = self.sent + n;
        if self.sent == self.total {
            WriteStep::Complete
        } else if n == 0 {
            WriteStep::Stalled
        } else {
            WriteStep::Progress
        }
    }
}

/// Runs the caller's full-buffer write loop against a device that accepts
/// at most `per_call` bytes of each request: resubmit the remainder after
/// every partial return, stop on a zero return. The loop always
/// terminates, transfers the whole buffer whenever the device keeps
/// making progress, and observes the zero return otherwise.
pub fn run_write_loop(total: usize, per_call: usize) -> (r: WriteOutcome)
    ensures
        r == WriteOutcome::Completed <==> per_call > 0 || total == 0,
        r == WriteOutcome::Stopped <==> per_call == 0 && total > 0,
{
    let mut t = Transfer::new(total);
    loop
        invariant
            t.wf(),
            t.total() == total,
            per_call == 0 ==> t.sent() == 0,
        decreases t.total() - t.sent(),
    {
        if t.is_done() {
            return WriteOutcome::Completed;
        }
        let rem = t.remaining();
        let n = if per_call < rem {
            per_call
        } else {
            rem
        };
        let step = t.record(n);
        if n == 0 {
            return WriteOutcome::Stopped;
        }
    }
}

} // verus!
