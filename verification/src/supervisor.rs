//! Ownership of the child server process: a take-once handle slot with
//! idempotent termination.
//!
//! The supervisor owns at most one child process for the whole process
//! lifetime. Termination may be triggered from several places (the shell
//! host's window-destroyed event, end-of-process cleanup), so the handle
//! lives in an optional slot that is taken at most once: only the caller
//! that receives the handle performs the actual kill-and-wait, every later
//! attempt finds the slot empty and does nothing. The callers serialise
//! their access to the supervisor with a mutual-exclusion lock, so each
//! terminate call below stands for one atomic take under that lock.

use vstd::prelude::*;

verus! {

/// The identity of a spawned backend server process.
#[derive(Clone, Copy, PartialEq, Eq, Structural, Debug)]
pub struct ServerHandle {
    pid: u32,
}

impl ServerHandle {
    /// The process identifier of the child.
    pub closed spec fn spec_pid(self) -> u32 {
        self.pid
    }

    /// Wraps the identifier of a freshly spawned child process.
    pub fn new(pid: u32) -> (h: ServerHandle)
        ensures
            h.spec_pid() == pid,
    {
        ServerHandle { pid }
    }

    /// The process identifier, for signalling the child.
    pub fn pid(&self) -> (p: u32)
        ensures
            p == self.spec_pid(),
    {
        self.pid
    }
}

/// Where the supervised server stands: never started, running, or
/// terminated. Terminated is absorbing: no transition leaves it.
#[derive(Clone, Copy, PartialEq, Eq, Structural, Debug)]
pub enum Lifecycle {
    NotStarted,
    Running,
    Terminated,
}

/// An event the shell host delivers about its window.
#[derive(Clone, Copy, PartialEq, Eq, Structural, Debug)]
pub enum ShellEvent {
    /// The window was destroyed; the server must be terminated.
    WindowDestroyed,
    /// Any other window event; the server is left alone.
    Other,
}

/// Owns the child server process handle and guarantees it is terminated
/// exactly once across all shutdown paths.
pub struct Supervisor {
    /// Where the supervised process stands in its lifecycle.
    pub lifecycle: Lifecycle,
    /// The handle slot; holds the child exactly while it is running.
    pub slot: Option<ServerHandle>,
}

impl Supervisor {
    /// The slot holds a handle exactly while a child is running: at most
    /// one child is owned at any time.
    pub open spec fn wf(self) -> bool {
        self.slot is Some <==> self.lifecycle is Running
    }

    /// What one terminate operation does: the slot is emptied and handed
    /// to the caller; a running supervisor becomes terminated; a
    /// terminated one stays terminated; one that never started stays that
    /// way.
    pub open spec fn spec_terminate(self) -> (Supervisor, Option<ServerHandle>) {
        (
            Supervisor {
                lifecycle: if self.lifecycle is NotStarted {
                    Lifecycle::NotStarted
                } else {
                    Lifecycle::Terminated
                },
                slot: None,
            },
            self.slot,
        )
    }

    /// A supervisor that has not yet started a child.
    pub fn new() -> (s: Supervisor)
        ensures
            s.wf(),
            s.lifecycle is NotStarted,
            s.slot is None,
    {
        Supervisor { lifecycle: Lifecycle::NotStarted, slot: None }
    }

    /// Records the freshly spawned child: the spawn transition of the
    /// lifecycle. The supervisor must not already own a child.
    pub fn register(&mut self, handle: ServerHandle)
        requires
            old(self).wf(),
            old(self).lifecycle is NotStarted,
        ensures
            final(self).wf(),
            final(self).lifecycle is Running,
            final(self).slot == Some(handle),
    {
        self.lifecycle = Lifecycle::Running;
        self.slot = Some(handle);
    }

    /// Takes the handle out of the slot, if any. Exactly the caller that
    /// receives `Some` performs the kill-and-wait on the child; a caller
    /// that receives `None` has nothing to do and no error is raised.
    pub fn terminate(&mut self) -> (taken: Option<ServerHandle>)
        requires
            old(self).wf(),
        ensures
            final(self).wf(),
            (*final(self), taken) == old(self).spec_terminate(),
            final(self).slot is None,
            taken == old(self).slot,
            taken is Some <==> old(self).lifecycle is Running,
    {
        let taken = self.slot;
        self.slot = None;
        match self.lifecycle {
            Lifecycle::NotStarted => {},
            Lifecycle::Running => {
                self.lifecycle = Lifecycle::Terminated;
            },
            Lifecycle::Terminated => {},
        }
        taken
    }

    /// Reaction to a shell-host window event: a destroyed window triggers
    /// one terminate operation, every other event leaves the supervisor
    /// unchanged.
    pub fn on_window_event(&mut self, event: ShellEvent) -> (taken: Option<ServerHandle>)
        requires
            old(self).wf(),
        ensures
            final(self).wf(),
            event is WindowDestroyed ==> (*final(self), taken) == old(self).spec_terminate(),
            !(event is WindowDestroyed) ==> *final(self) == *old(self) && taken is None,
    {
        match event {
            ShellEvent::WindowDestroyed => self.terminate(),
            ShellEvent::Other => None,
        }
    }
}

/// Law: terminate is idempotent. Two terminate operations in sequence end
/// in the same state as one, and the second observes an empty slot.
pub proof fn lemma_terminate_idempotent(s: Supervisor)
    ensures
        ({
            let (once, _) = s.spec_terminate();
            let (twice, second) = once.spec_terminate();
            twice == once && second is None
        }),
{
}

/// Applies `n` successive terminate operations to `s`.
pub open spec fn spec_terminate_chain(s: Supervisor, n: nat) -> Supervisor
    decreases n,
{
    if n == 0 {
        s
    } else {
        spec_terminate_chain(s, (n - 1) as nat).spec_terminate().0
    }
}

/// How many of the first `n` terminate operations on `s` observed a
/// non-empty slot.
pub open spec fn spec_takes_observed(s: Supervisor, n: nat) -> nat
    decreases n,
{
    if n == 0 {
        0
    } else {
        spec_takes_observed(s, (n - 1) as nat) + if spec_terminate_chain(
            s,
            (n - 1) as nat,
        ).spec_terminate().1 is Some {
            1nat
        } else {
            0nat
        }
    }
}

/// After at least one terminate operation the slot is empty.
pub proof fn lemma_chain_slot_empty(s: Supervisor, n: nat)
    requires
        n >= 1,
    ensures
        spec_terminate_chain(s, n).slot is None,
{
}

/// Law: across any sequence of terminate operations, at most one observes
/// a non-empty slot — and when a child is running, exactly one does. Under
/// the lock that serialises the terminators this is the mutual-exclusion
/// property: exactly one of several concurrent terminators receives the
/// child handle.
pub proof fn lemma_at_most_one_taker(s: Supervisor, n: nat)
    ensures
        spec_takes_observed(s, n) <= 1,
        s.wf() && s.lifecycle is Running && n >= 1 ==> spec_takes_observed(s, n) == 1,
    decreases n,
{
    if n == 1 {
        assert(spec_takes_observed(s, 0) == 0);
    } else if n >= 2 {
        lemma_at_most_one_taker(s, (n - 1) as nat);
        lemma_chain_slot_empty(s, (n - 1) as nat);
        assert(spec_terminate_chain(s, (n - 1) as nat).spec_terminate().1 is None);
    }
}

} // verus!
