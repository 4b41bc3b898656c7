//! The bounded admission gate: a two-phase reserve/commit mechanism over a
//! fixed number of slots, fused with the queue the worker drains. A slot is
//! taken by a reservation and given back only when the worker finishes the
//! job, so capacity counts jobs admitted but not yet fully drained.

use vstd::prelude::*;
use crate::job::QueuedJobInfo;

verus! {

/// The admission gate's abstract state: everything its contracts speak of.
pub ghost struct GateAbs {
    pub capacity: int,
    pub closed: bool,
    /// Permits handed out and neither committed nor abandoned yet.
    pub reserved: int,
    /// Committed jobs the worker has not dequeued yet, oldest first.
    pub queue: Seq<QueuedJobInfo>,
    /// Jobs dequeued and not finished: zero or one, the worker is sequential.
    pub in_flight: int,
}

/// Slots in use: reservations, committed jobs still queued, and the job the
/// worker holds. The admission gate admits while this stays under its capacity.
pub open spec fn spec_used(a: GateAbs) -> int {
    a.reserved + a.queue.len() + a.in_flight
}

/// Whether a reservation attempt succeeds in state `a`.
pub open spec fn spec_reserve_succeeds(a: GateAbs) -> bool {
    !a.closed && spec_used(a) < a.capacity
}

/// The admission gate's well-formedness: counts are sane and usage never exceeds
/// capacity.
pub open spec fn spec_gate_wf(a: GateAbs) -> bool {
    &&& 0 <= a.reserved
    &&& 0 <= a.in_flight <= 1
    &&& spec_used(a) <= a.capacity
}

/// The operations the admission gate's state can undergo, for stating run-level laws.
pub ghost enum GateOp {
    Reserve,
    Abandon,
    Commit(QueuedJobInfo),
    Close,
    Dequeue,
    Finish,
}

/// One abstract step of the admission gate. Operations whose preconditions do not
/// hold leave the state unchanged, so a run is total.
pub open spec fn gate_step(a: GateAbs, op: GateOp) -> GateAbs {
    match op {
        GateOp::Reserve => if spec_reserve_succeeds(a) {
            GateAbs { reserved: a.reserved + 1, ..a }
        } else {
            a
        },
        GateOp::Abandon => if a.reserved > 0 {
            GateAbs { reserved: a.reserved - 1, ..a }
        } else {
            a
        },
        GateOp::Commit(job) => if a.reserved > 0 {
            GateAbs { reserved: a.reserved - 1, queue: a.queue.push(job), ..a }
        } else {
            a
        },
        GateOp::Close => GateAbs { closed: true, ..a },
        GateOp::Dequeue => if a.in_flight == 0 && a.queue.len() > 0 {
            GateAbs { queue: a.queue.drop_first(), in_flight: 1, ..a }
        } else {
            a
        },
        GateOp::Finish => if a.in_flight == 1 {
            GateAbs { in_flight: 0, ..a }
        } else {
            a
        },
    }
}

/// A run of abstract steps, first operation first.
pub open spec fn gate_run(a: GateAbs, ops: Seq<GateOp>) -> GateAbs
    decreases ops.len(),
{
    if ops.len() == 0 {
        a
    } else {
        gate_run(gate_step(a, ops[0]), ops.drop_first())
    }
}

/// No operation reopens a closed gate: once `Close` has happened, every
/// later state of any run is still closed, so every later reservation
/// attempt is refused as closed — never as full, never granted.
pub proof fn lemma_closed_forever(a: GateAbs, ops: Seq<GateOp>)
    requires
        a.closed,
    ensures
        gate_run(a, ops).closed,
        !spec_reserve_succeeds(gate_run(a, ops)),
    decreases ops.len(),
{
    if ops.len() > 0 {
        lemma_closed_forever(gate_step(a, ops[0]), ops.drop_first());
    }
}

/// The state after `n` consecutive reservation attempts.
pub open spec fn abs_after_reserves(a: GateAbs, n: nat) -> GateAbs
    decreases n,
{
    if n == 0 {
        a
    } else {
        gate_step(abs_after_reserves(a, (n - 1) as nat), GateOp::Reserve)
    }
}

/// Reservations are exact: on an open gate with `u` slots used of `c`, a run
/// of consecutive reservation attempts grants exactly the first `c - u` and
/// refuses every later one as full. In particular, from a fresh gate of
/// capacity `c`, exactly `c` attempts succeed and the next fails full.
pub proof fn lemma_capacity_exact(a: GateAbs, n: nat)
    requires
        !a.closed,
        spec_gate_wf(a),
    ensures
        spec_gate_wf(abs_after_reserves(a, n)),
        abs_after_reserves(a, n).capacity == a.capacity,
        abs_after_reserves(a, n).closed == a.closed,
        abs_after_reserves(a, n).queue == a.queue,
        abs_after_reserves(a, n).in_flight == a.in_flight,
        spec_used(abs_after_reserves(a, n)) == if spec_used(a) + n <= a.capacity {
            spec_used(a) + n
        } else {
            a.capacity
        },
        // the (n+1)-th attempt succeeds exactly while capacity remains
        spec_reserve_succeeds(abs_after_reserves(a, n)) <==> spec_used(a) + n < a.capacity,
    decreases n,
{
    if n > 0 {
        lemma_capacity_exact(a, (n - 1) as nat);
    }
}

/// A single-use capability for one reserved slot. Only the admission gate mints one;
/// it must be consumed by [`AdmissionGate::commit`] or given back by
/// [`AdmissionGate::abandon`].
#[derive(Debug)]
pub struct Permit {
    _reserved: (),
}

/// What a reservation attempt came to.
#[derive(Debug)]
pub enum ReserveDecision {
    /// A slot was reserved; commit or abandon the permit.
    Reserved(Permit),
    /// All slots are taken; the payload is the admission gate's capacity.
    Full(usize),
    /// The admission gate has been shut down.
    Closed,
}

/// The bounded-capacity reservation mechanism fused with the job queue.
#[derive(Debug)]
pub struct AdmissionGate {
    capacity: usize,
    closed: bool,
    reserved: usize,
    queue: Vec<QueuedJobInfo>,
    in_flight: usize,
}

impl AdmissionGate {
    /// The admission gate's abstract state.
    pub closed spec fn abs(&self) -> GateAbs {
        GateAbs {
            capacity: self.capacity as int,
            closed: self.closed,
            reserved: self.reserved as int,
            queue: self.queue@,
            in_flight: self.in_flight as int,
        }
    }

    /// Well-formedness of the concrete gate.
    pub open spec fn wf(&self) -> bool {
        spec_gate_wf(self.abs())
    }

    /// A fresh, open gate with `capacity` slots and nothing admitted.
    pub fn new(capacity: usize) -> (g: AdmissionGate)
        ensures
            g.wf(),
            g.abs() == (GateAbs {
                capacity: capacity as int,
                closed: false,
                reserved: 0,
                queue: Seq::<QueuedJobInfo>::empty(),
                in_flight: 0,
            }),
    {
        let g = AdmissionGate {
            capacity,
            closed: false,
            reserved: 0,
            queue: Vec::new(),
            in_flight: 0,
        };
        proof {
            assert(g.abs().queue =~= Seq::<QueuedJobInfo>::empty());
        }
        g
    }

    /// Tries to reserve one slot, never blocking: grants a permit while
    /// capacity remains, reports `Full` with the configured capacity when
    /// every slot is in use, and reports `Closed` after shutdown.
    pub fn try_reserve(&mut self) -> (r: ReserveDecision)
        requires
            old(self).wf(),
        ensures
            final(self).wf(),
            final(self).abs() == gate_step(old(self).abs(), GateOp::Reserve),
            old(self).abs().closed ==> r is Closed,
            r matches ReserveDecision::Full(c) ==> c == old(self).abs().capacity,
            !old(self).abs().closed && !spec_reserve_succeeds(old(self).abs()) ==> r is Full,
            spec_reserve_succeeds(old(self).abs()) ==> r is Reserved,
    {
        if self.closed {
            ReserveDecision::Closed
        } else if self.reserved >= self.capacity || self.capacity - self.reserved
            <= self.queue.len() + self.in_flight {
            ReserveDecision::Full(self.capacity)
        } else {
            self.reserved = self.reserved + 1;
            ReserveDecision::Reserved(Permit { _reserved: () })
        }
    }

    /// Commits a reserved slot: the job becomes visible to the worker at the
    /// tail of the queue, and the permit is spent. The slot itself stays
    /// taken until the worker finishes the job.
    pub fn commit(&mut self, permit: Permit, job: QueuedJobInfo)
        requires
            old(self).wf(),
            old(self).abs().reserved > 0,
        ensures
            final(self).wf(),
            final(self).abs() == gate_step(old(self).abs(), GateOp::Commit(job)),
    {
        let _ = permit;
        self.reserved = self.reserved - 1;
        self.queue.push(job);
    }

    /// Gives an unused permit back, freeing its slot.
    pub fn abandon(&mut self, permit: Permit)
        requires
            old(self).wf(),
            old(self).abs().reserved > 0,
        ensures
            final(self).wf(),
            final(self).abs() == gate_step(old(self).abs(), GateOp::Abandon),
    {
        let _ = permit;
        self.reserved = self.reserved - 1;
    }

    /// Shuts the admission gate: every later reservation attempt reports `Closed`.
    pub fn close(&mut self)
        requires
            old(self).wf(),
        ensures
            final(self).wf(),
            final(self).abs() == gate_step(old(self).abs(), GateOp::Close),
    {
        self.closed = true;
    }

    /// Hands the worker the oldest committed job, if any. The worker is
    /// sequential: nothing may be in flight.
    pub fn dequeue(&mut self) -> (r: Option<QueuedJobInfo>)
        requires
            old(self).wf(),
            old(self).abs().in_flight == 0,
        ensures
            final(self).wf(),
            final(self).abs() == gate_step(old(self).abs(), GateOp::Dequeue),
            old(self).abs().queue.len() == 0 ==> r is None,
            old(self).abs().queue.len() > 0 ==> r == Some(old(self).abs().queue[0]),
    {
        if self.queue.len() == 0 {
            None
        } else {
            let job = self.queue.remove(0);
            self.in_flight = 1;
            proof {
                assert(self.queue@ =~= old(self).abs().queue.drop_first());
            }
            Some(job)
        }
    }

    /// Marks the in-flight job drained, freeing its slot at last.
    pub fn finish(&mut self)
        requires
            old(self).wf(),
            old(self).abs().in_flight == 1,
        ensures
            final(self).wf(),
            final(self).abs() == gate_step(old(self).abs(), GateOp::Finish),
    {
        self.in_flight = 0;
    }

    /// The fixed number of slots.
    pub fn capacity(&self) -> (r: usize)
        ensures
            r == self.abs().capacity,
    {
        self.capacity
    }

    /// How many committed jobs wait in the queue.
    pub fn queue_len(&self) -> (r: usize)
        ensures
            r == self.abs().queue.len(),
    {
        self.queue.len()
    }

    /// Whether the admission gate has been shut.
    pub fn is_closed(&self) -> (r: bool)
        ensures
            r == self.abs().closed,
    {
        self.closed
    }
}

} // verus!
