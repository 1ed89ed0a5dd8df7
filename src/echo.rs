//! The receive-and-echo loop: announce the count, receive a datagram into
//! the buffer, send the whole buffer back, count, and again; the first
//! failure is reported and ends the loop.
//!
//! Two choices are kept on purpose: the echo sends the buffer's full
//! capacity, not only the bytes just received, so bytes of an earlier longer
//! message may follow a shorter one; and a send that moves fewer bytes than
//! asked is not continued.
use vstd::prelude::*;

verus! {

/// Where the loop stands.
#[derive(Debug, Clone, Copy, PartialEq, Eq, Structural)]
pub enum EchoPhase {
    /// The count has been handed out to be printed.
    Announcing,
    /// A receive into the buffer has been asked for.
    Receiving,
    /// The buffer has been handed out to be sent.
    Sending,
    /// A failure was reported; nothing more happens.
    Stopped,
}

/// What the caller is asked to do next.
#[derive(Debug, Clone, Copy, PartialEq, Eq, Structural)]
pub enum EchoAction {
    /// Print the number of completed cycles.
    Print { count: u64 },
    /// Block until a datagram arrives in the buffer of this capacity.
    Receive { capacity: usize },
    /// Send the first `len` bytes of the buffer back on the socket.
    Send { len: usize },
    /// Report the failure with this error number, once.
    Report { errno: i32 },
    /// Nothing more.
    Halt,
}

/// The loop over one buffer of `capacity` bytes.
#[derive(Debug, Clone, Copy, PartialEq, Eq, Structural)]
pub struct EchoLoop {
    pub capacity: usize,
    pub count: u64,
    pub phase: EchoPhase,
}

impl EchoLoop {
    /// The loop as it starts; its first request prints the count 0.
    pub open spec fn initial(capacity: usize) -> EchoLoop {
        EchoLoop { capacity, count: 0, phase: EchoPhase::Announcing }
    }

    /// The next loop and request, given how the last request went: `Ok`
    /// with the number of bytes moved, `Err` with the error number.
    pub open spec fn next(self, outcome: Result<usize, i32>) -> (EchoLoop, EchoAction) {
        match (self.phase, outcome) {
            (EchoPhase::Announcing, _) => (
                EchoLoop { phase: EchoPhase::Receiving, ..self },
                EchoAction::Receive { capacity: self.capacity },
            ),
            (EchoPhase::Receiving, Ok(_)) => (
                EchoLoop { phase: EchoPhase::Sending, ..self },
                EchoAction::Send { len: self.capacity },
            ),
            (EchoPhase::Sending, Ok(_)) => (
                EchoLoop { count: (self.count + 1) as u64, phase: EchoPhase::Announcing, ..self },
                EchoAction::Print { count: (self.count + 1) as u64 },
            ),
            (EchoPhase::Receiving, Err(e)) => (
                EchoLoop { phase: EchoPhase::Stopped, ..self },
                EchoAction::Report { errno: e },
            ),
            (EchoPhase::Sending, Err(e)) => (
                EchoLoop { phase: EchoPhase::Stopped, ..self },
                EchoAction::Report { errno: e },
            ),
            (EchoPhase::Stopped, _) => (self, EchoAction::Halt),
        }
    }

    /// The loop and the requests after it has been told the given outcomes.
    pub open spec fn run(self, outcomes: Seq<Result<usize, i32>>) -> (EchoLoop, Seq<EchoAction>)
        decreases outcomes.len(),
    {
        if outcomes.len() == 0 {
            (self, Seq::empty())
        } else {
            let (m, acts) = self.run(outcomes.drop_last());
            let (m2, a) = m.next(outcomes.last());
            (m2, acts.push(a))
        }
    }

    /// Every request of a loop started afresh, the first included.
    pub open spec fn trace(capacity: usize, outcomes: Seq<Result<usize, i32>>) -> Seq<EchoAction> {
        seq![EchoAction::Print { count: 0 }] + EchoLoop::initial(capacity).run(outcomes).1
    }

    /// Starts the loop over a buffer of `capacity` bytes.
    pub fn new(capacity: usize) -> (r: (EchoLoop, EchoAction))
        ensures
            r.0 == EchoLoop::initial(capacity),
            r.1 == (EchoAction::Print { count: 0 }),
    {
        (EchoLoop { capacity, count: 0, phase: EchoPhase::Announcing }, EchoAction::Print { count: 0 })
    }

    /// Whether the loop can take one more outcome without its count
    /// running past the largest `u64`.
    pub fn can_step(&self) -> (r: bool)
        ensures
            r == (self.phase == EchoPhase::Sending ==> self.count < u64::MAX),
    {
        match self.phase {
            EchoPhase::Sending => self.count < u64::MAX,
            _ => true,
        }
    }

    /// Takes in how the last request went and gives the next one.
    pub fn step(&mut self, outcome: Result<usize, i32>) -> (r: EchoAction)
        requires
            old(self).phase == EchoPhase::Sending ==> old(self).count < u64::MAX,
        ensures
            (*final(self), r) == old(self).next(outcome),
    {
        match (self.phase, outcome) {
            (EchoPhase::Announcing, _) => {
                self.phase = EchoPhase::Receiving;
                EchoAction::Receive { capacity: self.capacity }
            },
            (EchoPhase::Receiving, Ok(_)) => {
                self.phase = EchoPhase::Sending;
                EchoAction::Send { len: self.capacity }
            },
            (EchoPhase::Sending, Ok(_)) => {
                self.count = self.count + 1;
                self.phase = EchoPhase::Announcing;
                EchoAction::Print { count: self.count }
            },
            (EchoPhase::Receiving, Err(e)) => {
                self.phase = EchoPhase::Stopped;
                EchoAction::Report { errno: e }
            },
            (EchoPhase::Sending, Err(e)) => {
                self.phase = EchoPhase::Stopped;
                EchoAction::Report { errno: e }
            },
            (EchoPhase::Stopped, _) => EchoAction::Halt,
        }
    }
}


/// How many receives the requests ask for.
pub open spec fn receives(acts: Seq<EchoAction>) -> nat
    decreases acts.len(),
{
    if acts.len() == 0 {
        0
    } else {
        receives(acts.drop_last()) + if acts.last() is Receive { 1nat } else { 0nat }
    }
}

/// How many prints the requests ask for.
pub open spec fn prints(acts: Seq<EchoAction>) -> nat
    decreases acts.len(),
{
    if acts.len() == 0 {
        0
    } else {
        prints(acts.drop_last()) + if acts.last() is Print { 1nat } else { 0nat }
    }
}

/// Whether some request reports a failure.
pub open spec fn has_report(acts: Seq<EchoAction>) -> bool {
    exists|i: int| 0 <= i < acts.len() && #[trigger] acts[i] is Report
}

/// The order of requests that a trace keeps: each print carries the number
/// of prints before it, each receive comes right after the print of the
/// number of receives before it, each send sends the whole buffer right
/// after a receive, and after a report only halts follow.
#[verifier::opaque]
pub open spec fn well_ordered(capacity: usize, t: Seq<EchoAction>) -> bool {
    &&& forall|i: int|
        0 <= i < t.len() && #[trigger] t[i] is Print ==> t[i]->count == prints(t.take(i))
    &&& forall|i: int|
        0 <= i < t.len() && #[trigger] t[i] is Receive ==> i >= 1 && t[i - 1] is Print
            && t[i - 1]->count == receives(t.take(i))
    &&& forall|i: int|
        0 <= i < t.len() && #[trigger] t[i] is Send ==> i >= 1 && t[i - 1] is Receive
            && t[i]->len == capacity
    &&& forall|i: int, j: int|
        0 <= i < j < t.len() && #[trigger] t[i] is Report ==> #[trigger] t[j] is Halt
}

/// What holds of a loop and its trace at every point of a run.
spec fn run_state(m: EchoLoop, capacity: usize, t: Seq<EchoAction>) -> bool {
    &&& m.capacity == capacity
    &&& t.len() >= 1
    &&& well_ordered(capacity, t)
    &&& match m.phase {
        EchoPhase::Announcing => t.last() == (EchoAction::Print { count: m.count })
            && receives(t) == m.count && prints(t) == m.count + 1 && !has_report(t),
        EchoPhase::Receiving => t.last() is Receive && receives(t) == m.count + 1
            && prints(t) == m.count + 1 && !has_report(t),
        EchoPhase::Sending => t.last() is Send && receives(t) == m.count + 1
            && prints(t) == m.count + 1 && !has_report(t),
        EchoPhase::Stopped => t.last() is Report || t.last() is Halt,
    }
}

proof fn lemma_push_counts(t: Seq<EchoAction>, a: EchoAction)
    ensures
        receives(t.push(a)) == receives(t) + if a is Receive { 1nat } else { 0nat },
        prints(t.push(a)) == prints(t) + if a is Print { 1nat } else { 0nat },
        forall|i: int| 0 <= i <= t.len() ==> #[trigger] t.push(a).take(i) == t.take(i),
{
    assert(t.push(a).drop_last() =~= t);
    assert forall|i: int| 0 <= i <= t.len() implies #[trigger] t.push(a).take(i) == t.take(i) by {
        assert(t.push(a).take(i) =~= t.take(i));
    }
}

proof fn lemma_well_ordered_push(capacity: usize, t: Seq<EchoAction>, a: EchoAction)
    requires
        t.len() >= 1,
        well_ordered(capacity, t),
        a is Print ==> a->count == prints(t),
        a is Receive ==> t.last() is Print && t.last()->count == receives(t),
        a is Send ==> t.last() is Receive && a->len == capacity,
        has_report(t) ==> a is Halt,
    ensures
        well_ordered(capacity, t.push(a)),
{
    reveal(well_ordered);
    let u = t.push(a);
    lemma_push_counts(t, a);
    assert forall|i: int| 0 <= i < t.len() implies #[trigger] u[i] == t[i] by {}
    assert(u.take(t.len() as int) == t);
    assert forall|i: int, j: int|
        0 <= i < j < u.len() && #[trigger] u[i] is Report implies #[trigger] u[j] is Halt by {
        if j == t.len() {
            assert(t[i] is Report);
        }
    }
}

proof fn lemma_state_step(m: EchoLoop, capacity: usize, t: Seq<EchoAction>, o: Result<usize, i32>)
    requires
        run_state(m, capacity, t),
        m.count < u64::MAX,
    ensures
        run_state(m.next(o).0, capacity, t.push(m.next(o).1)),
{
    let (m2, a) = m.next(o);
    let u = t.push(a);
    lemma_push_counts(t, a);
    lemma_well_ordered_push(capacity, t, a);
    if m2.phase != EchoPhase::Stopped {
        assert(!has_report(u)) by {
            if has_report(u) {
                let k = choose|k: int| 0 <= k < u.len() && #[trigger] u[k] is Report;
                assert(u[k] == t[k]);
            }
        }
    }
}

proof fn lemma_run_state(capacity: usize, outcomes: Seq<Result<usize, i32>>)
    requires
        outcomes.len() < u64::MAX,
    ensures
        run_state(
            EchoLoop::initial(capacity).run(outcomes).0,
            capacity,
            EchoLoop::trace(capacity, outcomes),
        ),
        EchoLoop::initial(capacity).run(outcomes).0.count <= outcomes.len(),
    decreases outcomes.len(),
{
    let start = EchoLoop::initial(capacity);
    let t = EchoLoop::trace(capacity, outcomes);
    if outcomes.len() == 0 {
        let p = EchoAction::Print { count: 0 };
        assert(t =~= Seq::<EchoAction>::empty().push(p));
        lemma_push_counts(Seq::<EchoAction>::empty(), p);
        reveal(well_ordered);
        assert(seq![p].take(0) =~= Seq::<EchoAction>::empty());
    } else {
        let prev = outcomes.drop_last();
        lemma_run_state(capacity, prev);
        let m = start.run(prev).0;
        let t0 = EchoLoop::trace(capacity, prev);
        let a = m.next(outcomes.last()).1;
        assert(t =~= t0.push(a));
        lemma_state_step(m, capacity, t0, outcomes.last());
    }
}

/// The counter is printed before each receive: in every run, the n-th print
/// carries n - 1 (the prints before it), and each receive comes right after
/// the print of the number of receives before it.
pub proof fn lemma_count_precedes_receive(capacity: usize, outcomes: Seq<Result<usize, i32>>)
    requires
        outcomes.len() < u64::MAX,
    ensures
        ({
            let t = EchoLoop::trace(capacity, outcomes);
            &&& forall|i: int|
                0 <= i < t.len() && #[trigger] t[i] is Print ==> t[i]->count == prints(t.take(i))
            &&& forall|i: int|
                0 <= i < t.len() && #[trigger] t[i] is Receive ==> i >= 1 && t[i - 1] is Print
                    && t[i - 1]->count == receives(t.take(i))
        }),
{
    lemma_run_state(capacity, outcomes);
    reveal(well_ordered);
}

/// The echo sends the whole buffer that the receive just filled: in every
/// run, each send comes right after a receive and covers the full capacity.
pub proof fn lemma_echo_whole_buffer(capacity: usize, outcomes: Seq<Result<usize, i32>>)
    requires
        outcomes.len() < u64::MAX,
    ensures
        ({
            let t = EchoLoop::trace(capacity, outcomes);
            forall|i: int|
                0 <= i < t.len() && #[trigger] t[i] is Send ==> i >= 1 && t[i - 1] is Receive
                    && t[i]->len == capacity
        }),
{
    lemma_run_state(capacity, outcomes);
    reveal(well_ordered);
}

/// A failed receive or send ends the loop: it is reported, and after a
/// report the loop only halts, so no receive and no second report follow.
pub proof fn lemma_failure_ends_loop(m: EchoLoop, e: i32, outcomes: Seq<Result<usize, i32>>)
    requires
        m.phase == EchoPhase::Receiving || m.phase == EchoPhase::Sending,
    ensures
        m.next(Err(e)).1 == (EchoAction::Report { errno: e }),
        forall|i: int|
            0 <= i < outcomes.len() ==> #[trigger] m.next(Err(e)).0.run(outcomes).1[i]
                == EchoAction::Halt,
{
    lemma_stopped_stays(m.next(Err(e)).0, outcomes);
}

proof fn lemma_stopped_stays(s: EchoLoop, outcomes: Seq<Result<usize, i32>>)
    requires
        s.phase == EchoPhase::Stopped,
    ensures
        s.run(outcomes).0 == s,
        s.run(outcomes).1.len() == outcomes.len(),
        forall|i: int| 0 <= i < outcomes.len() ==> #[trigger] s.run(outcomes).1[i] == EchoAction::Halt,
    decreases outcomes.len(),
{
    if outcomes.len() > 0 {
        lemma_stopped_stays(s, outcomes.drop_last());
        let acts = s.run(outcomes.drop_last()).1;
        assert forall|i: int| 0 <= i < outcomes.len() implies #[trigger] s.run(outcomes).1[i]
            == EchoAction::Halt by {
            if i < outcomes.len() - 1 {
                assert(s.run(outcomes).1[i] == acts[i]);
            }
        }
    }
}

} // verus!
