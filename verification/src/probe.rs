//! Readiness detection: polling a port until a listener appears or a
//! timeout elapses.
//!
//! The probe repeatedly attempts to bind a socket to the server's port at a
//! fixed interval. A failed bind means something now owns the port — taken
//! as "the server is listening" — and the probe reports ready immediately.
//! Polling goes on until the elapsed time exceeds the timeout, so the last
//! poll of an unready run happens at the timeout boundary itself: a
//! listener bound at any point of the window, even late in its final
//! interval, is still observed, and a not-ready report comes at most one
//! interval past the timeout. The bind attempts and the sleeps between
//! them are operating-system work done by the driver of the probe; the
//! probe itself only decides, from the outcomes it is handed, whether to
//! poll again or to finish.

use vstd::prelude::*;
use vstd::arithmetic::div_mod::{lemma_fundamental_div_mod, lemma_mod_bound};

verus! {

/// Milliseconds between two poll attempts.
pub const POLL_INTERVAL_MS: u64 = 100;

/// The number of poll attempts a probe with this timeout makes when the
/// port never becomes occupied: one per interval while the elapsed time is
/// at most the timeout, the last one at the timeout boundary.
pub open spec fn spec_max_polls(timeout_ms: nat) -> nat {
    timeout_ms / 100 + 1
}

/// Whether a probe over the given poll outcomes reports the server ready:
/// some poll inside the timeout window observed the port occupied.
/// `polls[i]` is whether the port was occupied at the `i`-th poll.
pub open spec fn spec_probe_ready(polls: Seq<bool>, timeout_ms: nat) -> bool {
    exists|i: int| 0 <= i < spec_max_polls(timeout_ms) && i < polls.len() && polls[i]
}

/// A poll at elapsed time `100 * i` lies inside the timeout window exactly
/// when `i` is below the number of polls the window admits; the window's
/// polls end in the first interval past the timeout.
proof fn lemma_poll_window(i: nat, t: nat)
    ensures
        100 * i <= t ==> i < spec_max_polls(t),
        100 * i > t ==> i >= spec_max_polls(t),
        t < 100 * spec_max_polls(t) <= t + 100,
{
    lemma_fundamental_div_mod(t as int, 100);
    lemma_mod_bound(t as int, 100);
}

/// What the probe asks its driver to do next.
pub enum ProbeStep {
    /// Attempt one bind of the port, then report whether it was occupied,
    /// sleeping one interval after an unoccupied outcome.
    Poll,
    /// The probe is finished with this readiness result.
    Finish(bool),
}

/// The state of one readiness probe.
pub struct ProbeState {
    timeout_ms: u64,
    elapsed_ms: u64,
    ready: bool,
    history: Ghost<Seq<bool>>,
}

impl ProbeState {
    /// The timeout the probe was created with.
    pub closed spec fn spec_timeout(self) -> u64 {
        self.timeout_ms
    }

    /// Milliseconds accounted for so far: one interval per unoccupied poll.
    pub closed spec fn spec_elapsed(self) -> u64 {
        self.elapsed_ms
    }

    /// Whether some poll has already observed the port occupied.
    pub closed spec fn spec_ready(self) -> bool {
        self.ready
    }

    /// The outcomes of the polls made so far.
    pub closed spec fn spec_history(self) -> Seq<bool> {
        self.history@
    }

    /// Probe states reachable from `new` by `record_poll`: the elapsed
    /// time counts the unoccupied polls, the probe is ready exactly when
    /// the last poll was occupied, and every poll was made at or before
    /// the timeout.
    pub open spec fn wf(self) -> bool {
        &&& self.spec_timeout() <= u64::MAX - 100
        &&& if self.spec_ready() {
            &&& self.spec_history().len() >= 1
            &&& self.spec_history().last()
            &&& forall|i: int|
                0 <= i < self.spec_history().len() - 1 ==> !self.spec_history()[i]
            &&& self.spec_elapsed() == 100 * (self.spec_history().len() - 1)
            &&& self.spec_elapsed() <= self.spec_timeout()
        } else {
            &&& forall|i: int| 0 <= i < self.spec_history().len() ==> !self.spec_history()[i]
            &&& self.spec_elapsed() == 100 * self.spec_history().len()
            &&& (self.spec_history().len() >= 1 ==> 100 * (self.spec_history().len() - 1)
                <= self.spec_timeout())
        }
    }

    /// A fresh probe for the given timeout. The bound on the timeout only
    /// keeps the elapsed-time arithmetic inside a machine word.
    pub fn new(timeout_ms: u64) -> (p: ProbeState)
        requires
            timeout_ms <= u64::MAX - 100,
        ensures
            p.wf(),
            p.spec_timeout() == timeout_ms,
            p.spec_elapsed() == 0,
            !p.spec_ready(),
            p.spec_history() == Seq::<bool>::empty(),
    {
        ProbeState { timeout_ms, elapsed_ms: 0, ready: false, history: Ghost(Seq::empty()) }
    }

    /// Decides what happens next: poll again while nothing was observed
    /// and the elapsed time has not yet exceeded the timeout; otherwise
    /// finish, and the reported result is exactly what the recorded poll
    /// outcomes say.
    pub fn next(&self) -> (step: ProbeStep)
        requires
            self.wf(),
        ensures
            step is Poll <==> (!self.spec_ready() && self.spec_elapsed() <= self.spec_timeout()),
            step matches ProbeStep::Finish(r) ==> r == spec_probe_ready(
                self.spec_history(),
                self.spec_timeout() as nat,
            ),
            step matches ProbeStep::Finish(r) ==> r == self.spec_ready(),
    {
        if self.ready {
            proof {
                let last = self.spec_history().len() - 1;
                lemma_poll_window(last as nat, self.spec_timeout() as nat);
                assert(spec_probe_ready(self.spec_history(), self.spec_timeout() as nat)) by {
                    assert(self.spec_history()[last]);
                }
            }
            ProbeStep::Finish(true)
        } else if self.elapsed_ms > self.timeout_ms {
            proof {
                assert(!spec_probe_ready(self.spec_history(), self.spec_timeout() as nat)) by {
                    assert(forall|i: int|
                        0 <= i < self.spec_history().len() ==> !self.spec_history()[i]);
                }
            }
            ProbeStep::Finish(false)
        } else {
            ProbeStep::Poll
        }
    }

    /// Records the outcome of one poll: an occupied port makes the probe
    /// ready; an unoccupied one costs one interval of elapsed time.
    pub fn record_poll(&mut self, occupied: bool)
        requires
            old(self).wf(),
            !old(self).spec_ready(),
            old(self).spec_elapsed() <= old(self).spec_timeout(),
        ensures
            final(self).wf(),
            final(self).spec_timeout() == old(self).spec_timeout(),
            final(self).spec_history() == old(self).spec_history().push(occupied),
            final(self).spec_ready() == occupied,
            occupied ==> final(self).spec_elapsed() == old(self).spec_elapsed(),
            !occupied ==> final(self).spec_elapsed() == old(self).spec_elapsed() + 100,
    {
        self.history = Ghost(self.history@.push(occupied));
        if occupied {
            self.ready = true;
        } else {
            self.elapsed_ms = self.elapsed_ms + POLL_INTERVAL_MS;
        }
    }

    /// The elapsed time accounted for so far.
    pub fn elapsed_ms(&self) -> (e: u64)
        ensures
            e == self.spec_elapsed(),
    {
        self.elapsed_ms
    }
}

/// The outcome of a whole probe run.
pub struct ProbeRun {
    /// Whether a listener was detected inside the timeout window.
    pub ready: bool,
    /// Elapsed time accounted for when the probe finished.
    pub elapsed_ms: u64,
    /// How many polls were made.
    pub polls_made: usize,
}

/// Runs the readiness probe to completion against a sequence of poll
/// outcomes (`polls[i]` is whether the port was occupied at the `i`-th
/// poll). The sequence must be long enough to feed every poll the probe
/// can make.
///
/// Law: the probe reports ready exactly when a listener was observed
/// inside the timeout window — whose polls cover the window through its
/// boundary — at most one interval past the timeout; it stops at the first
/// such observation, and a not-ready report comes only after the full
/// window was polled.
pub fn probe_with_outcomes(timeout_ms: u64, polls: &Vec<bool>) -> (r: ProbeRun)
    requires
        timeout_ms <= u64::MAX - 100,
        polls@.len() >= spec_max_polls(timeout_ms as nat),
    ensures
        r.ready == spec_probe_ready(polls@, timeout_ms as nat),
        r.polls_made <= spec_max_polls(timeout_ms as nat),
        r.ready ==> r.polls_made >= 1 && polls@[r.polls_made - 1] && (forall|j: int|
            0 <= j < r.polls_made - 1 ==> !polls@[j]) && r.elapsed_ms == 100 * (r.polls_made
            - 1) && r.elapsed_ms <= timeout_ms,
        !r.ready ==> r.polls_made == spec_max_polls(timeout_ms as nat) && (forall|j: int|
            0 <= j < r.polls_made ==> !polls@[j]) && r.elapsed_ms > timeout_ms,
        r.elapsed_ms <= timeout_ms + 100,
{
    let mut probe = ProbeState::new(timeout_ms);
    let mut idx: usize = 0;
    loop
        invariant
            probe.wf(),
            probe.spec_timeout() == timeout_ms,
            timeout_ms <= u64::MAX - 100,
            idx == probe.spec_history().len(),
            idx <= polls@.len(),
            polls@.len() >= spec_max_polls(timeout_ms as nat),
            probe.spec_history() == polls@.take(idx as int),
        decreases polls@.len() - idx,
    {
        let step = probe.next();
        match step {
            ProbeStep::Finish(ready) => {
                proof {
                    lemma_poll_window(idx as nat, timeout_ms as nat);
                    if ready {
                        let last = idx - 1;
                        assert(probe.spec_history().last() == probe.spec_history()[last]);
                        assert(polls@[last] == probe.spec_history()[last]);
                        assert(forall|j: int|
                            0 <= j < last ==> polls@[j] == probe.spec_history()[j]);
                        lemma_poll_window(last as nat, timeout_ms as nat);
                        assert(spec_probe_ready(polls@, timeout_ms as nat));
                    } else {
                        assert(forall|i: int|
                            0 <= i < idx ==> polls@[i] == probe.spec_history()[i]);
                        assert(idx >= 1);
                        lemma_poll_window((idx - 1) as nat, timeout_ms as nat);
                        assert(idx == spec_max_polls(timeout_ms as nat));
                        assert(!spec_probe_ready(polls@, timeout_ms as nat));
                    }
                }
                let elapsed = probe.elapsed_ms();
                return ProbeRun { ready, elapsed_ms: elapsed, polls_made: idx };
            },
            ProbeStep::Poll => {
                proof {
                    assert(!probe.spec_ready() && probe.spec_elapsed() <= probe.spec_timeout());
                    assert(probe.spec_elapsed() == 100 * idx);
                    lemma_poll_window(idx as nat, timeout_ms as nat);
                    assert(idx < spec_max_polls(timeout_ms as nat));
                    assert(idx < polls@.len());
                }
                let n = polls.len();
                assert(idx < n);
                let occupied = polls[idx];
                probe.record_poll(occupied);
                idx = idx + 1;
                proof {
                    assert(probe.spec_history() =~= polls@.take(idx as int));
                }
            },
        }
    }
}

} // verus!
