//! Polling the backend until it answers, within a fixed budget of attempts.
use vstd::prelude::*;

verus! {

/// The liveness endpoint of the backend.
pub const PROBE_URL: &'static str = "http://127.0.0.1:8000/config";

/// Milliseconds to wait before each attempt.
pub const PROBE_INTERVAL_MS: u64 = 500;

/// Attempts made at startup: thirty seconds in all.
pub const STARTUP_ATTEMPTS: u32 = 60;

/// What one request to the liveness endpoint gave.
#[derive(Clone, Copy, Debug, PartialEq, Eq, Structural)]
pub enum ProbeOutcome {
    /// The endpoint answered with this HTTP status code.
    Status(u16),
    /// No answer: the connection failed or the request could not be made.
    Unreachable,
}

/// An answer with a 2xx status means the backend is ready.
pub open spec fn is_ready(o: ProbeOutcome) -> bool {
    match o {
        ProbeOutcome::Status(code) => 200 <= code <= 299,
        ProbeOutcome::Unreachable => false,
    }
}

/// Whether an answer shows the backend ready.
pub fn probe_ready(o: ProbeOutcome) -> (r: bool)
    ensures
        r == is_ready(o),
{
    match o {
        ProbeOutcome::Status(code) => 200 <= code && code <= 299,
        ProbeOutcome::Unreachable => false,
    }
}

/// The state of a poll: its budget, the attempts made, and whether the last
/// one found the backend ready.
pub struct GateView {
    pub max_attempts: nat,
    pub attempts: nat,
    pub ready: bool,
}

pub open spec fn gate_start(max_attempts: nat) -> GateView {
    GateView { max_attempts, attempts: 0, ready: false }
}

pub open spec fn gate_finished(s: GateView) -> bool {
    s.ready || s.attempts >= s.max_attempts
}

/// One attempt with answer `o`; a finished poll ignores further answers.
pub open spec fn gate_step(s: GateView, o: ProbeOutcome) -> GateView {
    if gate_finished(s) {
        s
    } else {
        GateView { attempts: s.attempts + 1, ready: is_ready(o), ..s }
    }
}

/// The poll after being offered the answers `outs`, one per attempt, in order.
pub open spec fn gate_run(s: GateView, outs: Seq<ProbeOutcome>) -> GateView
    decreases outs.len(),
{
    if outs.len() == 0 {
        s
    } else {
        gate_run(gate_step(s, outs[0]), outs.drop_first())
    }
}

/// What the poller should do next.
#[derive(Clone, Copy, Debug, PartialEq, Eq, Structural)]
pub enum GateAction {
    /// Wait one interval, then request the liveness endpoint.
    Probe,
    /// Stop polling; `true` when the backend answered ready.
    Finished(bool),
}

/// A bounded poll of the liveness endpoint.
pub struct ReadinessGate {
    max_attempts: u32,
    attempts: u32,
    ready: bool,
}

impl View for ReadinessGate {
    type V = GateView;

    closed spec fn view(&self) -> GateView {
        GateView { max_attempts: self.max_attempts as nat, attempts: self.attempts as nat, ready: self.ready }
    }
}

impl ReadinessGate {
    pub closed spec fn wf(&self) -> bool {
        self.attempts <= self.max_attempts
    }

    /// A poll that makes at most `max_attempts` attempts.
    pub fn new(max_attempts: u32) -> (r: Self)
        ensures
            r.wf(),
            r@ == gate_start(max_attempts as nat),
    {
        ReadinessGate { max_attempts, attempts: 0, ready: false }
    }

    /// Attempts made so far.
    pub fn attempts(&self) -> (r: u32)
        ensures
            r == self@.attempts,
    {
        self.attempts
    }

    pub fn next_action(&self) -> (r: GateAction)
        requires
            self.wf(),
        ensures
            r == (if gate_finished(self@) {
                GateAction::Finished(self@.ready)
            } else {
                GateAction::Probe
            }),
    {
        if self.ready || self.attempts >= self.max_attempts {
            GateAction::Finished(self.ready)
        } else {
            GateAction::Probe
        }
    }

    /// Takes the answer of the attempt just made.
    pub fn record(&mut self, o: ProbeOutcome)
        requires
            old(self).wf(),
        ensures
            final(self).wf(),
            final(self)@ == gate_step(old(self)@, o),
    {
        if !(self.ready || self.attempts >= self.max_attempts) {
            self.attempts = self.attempts + 1;
            self.ready = probe_ready(o);
        }
    }
}

proof fn lemma_finished_stays(s: GateView, outs: Seq<ProbeOutcome>)
    requires
        gate_finished(s),
    ensures
        gate_run(s, outs) == s,
    decreases outs.len(),
{
    if outs.len() > 0 {
        lemma_finished_stays(gate_step(s, outs[0]), outs.drop_first());
    }
}

proof fn lemma_ready_after(s: GateView, outs: Seq<ProbeOutcome>, k: int)
    requires
        !s.ready,
        0 <= k < outs.len(),
        s.attempts + k < s.max_attempts,
        forall|i: int| 0 <= i < k ==> !is_ready(#[trigger] outs[i]),
        is_ready(outs[k]),
    ensures
        gate_run(s, outs) == (GateView { attempts: (s.attempts + k + 1) as nat, ready: true, ..s }),
    decreases k,
{
    let next = gate_step(s, outs[0]);
    if k == 0 {
        lemma_finished_stays(next, outs.drop_first());
    } else {
        assert(!is_ready(outs[0]));
        let rest = outs.drop_first();
        assert forall|i: int| 0 <= i < k - 1 implies !is_ready(#[trigger] rest[i]) by {
            assert(rest[i] == outs[i + 1]);
        }
        assert(rest[k - 1] == outs[k]);
        lemma_ready_after(next, rest, k - 1);
    }
}

proof fn lemma_never_ready(s: GateView, outs: Seq<ProbeOutcome>)
    requires
        !s.ready,
        s.attempts <= s.max_attempts,
        outs.len() >= s.max_attempts - s.attempts,
        forall|i: int| 0 <= i < outs.len() ==> !is_ready(#[trigger] outs[i]),
    ensures
        gate_run(s, outs) == (GateView { attempts: s.max_attempts, ready: false, ..s }),
    decreases outs.len(),
{
    if outs.len() > 0 {
        if gate_finished(s) {
            lemma_finished_stays(s, outs);
        } else {
            let rest = outs.drop_first();
            assert(!is_ready(outs[0]));
            assert forall|i: int| 0 <= i < rest.len() implies !is_ready(#[trigger] rest[i]) by {
                assert(rest[i] == outs[i + 1]);
            }
            lemma_never_ready(gate_step(s, outs[0]), rest);
        }
    }
}

/// A poll with budget `n` against an endpoint that first answers ready on
/// attempt `k + 1`, with `k < n`, finishes ready after exactly `k + 1`
/// attempts rather than `n`.
pub proof fn lemma_ready_after_k_failures(n: nat, outs: Seq<ProbeOutcome>, k: int)
    requires
        0 <= k < n,
        k < outs.len(),
        forall|i: int| 0 <= i < k ==> !is_ready(#[trigger] outs[i]),
        is_ready(outs[k]),
    ensures
        gate_run(gate_start(n), outs).ready,
        gate_run(gate_start(n), outs).attempts == k + 1,
{
    lemma_ready_after(gate_start(n), outs, k);
}

/// A poll with budget `n` against an endpoint that never answers ready makes
/// exactly `n` attempts and finishes not ready.
pub proof fn lemma_never_ready_uses_budget(n: nat, outs: Seq<ProbeOutcome>)
    requires
        outs.len() >= n,
        forall|i: int| 0 <= i < outs.len() ==> !is_ready(#[trigger] outs[i]),
    ensures
        !gate_run(gate_start(n), outs).ready,
        gate_run(gate_start(n), outs).attempts == n,
{
    lemma_never_ready(gate_start(n), outs);
}

} // verus!
