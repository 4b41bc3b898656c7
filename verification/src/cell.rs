//! The latest-value broadcast cell: a single writer publishes each job's
//! status, any number of observers read the newest value. Readers that lag
//! may skip intermediate values but can never miss the terminal one, because
//! nothing is ever written after it.

use vstd::prelude::*;
use crate::status::{step_ok, Status};

verus! {

/// A run of statuses as written to one cell: it starts at `Queued` and every
/// consecutive pair is an allowed transition.
pub open spec fn valid_trace(tr: Seq<Status>) -> bool {
    &&& tr.len() > 0
    &&& tr[0] == Status::Queued
    &&& forall|i: int| 0 <= i < tr.len() - 1 ==> step_ok(tr[i], #[trigger] tr[i + 1])
}

/// Along a valid trace the pipeline only moves forward: ranks strictly
/// increase, so every status appears at most once, and a terminal status can
/// stand only at the very end — `Done` is reached at most once and never
/// left.
pub proof fn lemma_trace_shape(tr: Seq<Status>)
    requires
        valid_trace(tr),
    ensures
        forall|i: int, j: int| 0 <= i < j < tr.len() ==> tr[i].rank() < tr[j].rank(),
        forall|i: int| 0 <= i < tr.len() - 1 ==> !(#[trigger] tr[i]).spec_is_done(),
        // a successful terminal value never skips the upload stage
        forall|i: int|
            0 <= i < tr.len() - 1 && (#[trigger] tr[i + 1]).spec_is_success_done() ==> tr[i]
                == Status::Uploading,
    decreases tr.len(),
{
    if tr.len() > 1 {
        lemma_trace_shape(tr.drop_last());
        assert forall|i: int, j: int| 0 <= i < j < tr.len() implies tr[i].rank() < tr[j].rank() by {
            if j < tr.len() - 1 {
                assert(tr.drop_last()[i] == tr[i] && tr.drop_last()[j] == tr[j]);
            } else {
                assert(step_ok(tr[j - 1], tr[(j - 1) + 1]));
                crate::status::lemma_step_monotone(tr[j - 1], tr[j]);
                if i < j - 1 {
                    assert(tr.drop_last()[i] == tr[i] && tr.drop_last()[j - 1] == tr[j - 1]);
                }
            }
        }
        assert forall|i: int| 0 <= i < tr.len() - 1 implies !(#[trigger] tr[i]).spec_is_done() by {
            assert(step_ok(tr[i], tr[i + 1]));
            crate::status::lemma_step_monotone(tr[i], tr[i + 1]);
        }
        assert forall|i: int|
            0 <= i < tr.len() - 1 && (#[trigger] tr[i + 1]).spec_is_success_done() implies tr[i]
                == Status::Uploading by {
            assert(step_ok(tr[i], tr[i + 1]));
        }
    }
}

/// A valid trace can hold at most one status of each rank, so it never
/// grows past four entries: a cell sees at most three writes.
pub proof fn lemma_trace_bounded(tr: Seq<Status>)
    requires
        valid_trace(tr),
    ensures
        tr.len() <= 4,
{
    lemma_trace_shape(tr);
    if tr.len() > 4 {
        assert(tr[0].rank() < tr[1].rank() < tr[2].rank() < tr[3].rank() < tr[4].rank());
        assert(0 <= tr[0].rank() && tr[4].rank() <= 3);
    }
}

/// The broadcast cell: the latest status of one job, a version counter that
/// grows with every write, and the ghost record of everything ever written.
pub struct StatusCell {
    value: Status,
    version: u64,
    history: Ghost<Seq<Status>>,
}

impl StatusCell {
    /// The latest value.
    pub closed spec fn spec_value(&self) -> Status {
        self.value
    }

    /// How many writes the cell has seen.
    pub closed spec fn spec_version(&self) -> int {
        self.version as int
    }

    /// Everything ever written, initial value first, latest last.
    pub closed spec fn spec_history(&self) -> Seq<Status> {
        self.history@
    }

    /// The cell's invariant: the history is a valid trace whose length and
    /// last element match the version counter and the stored value.
    pub open spec fn wf(&self) -> bool {
        &&& valid_trace(self.spec_history())
        &&& self.spec_history().len() == self.spec_version() + 1
        &&& self.spec_history().last() == self.spec_value()
    }

    /// A fresh cell holding `Queued`, before any transition.
    pub fn new() -> (c: StatusCell)
        ensures
            c.wf(),
            c.spec_value() == Status::Queued,
            c.spec_version() == 0,
            c.spec_history() == seq![Status::Queued],
    {
        let ghost h = seq![Status::Queued];
        let c = StatusCell { value: Status::Queued, version: 0, history: Ghost(h) };
        proof {
            assert(c.spec_history() =~= seq![Status::Queued]);
        }
        c
    }

    /// The single writer publishes the next status. Only an allowed
    /// transition may be written, so a terminal value can never be
    /// overwritten.
    pub fn write(&mut self, next: Status)
        requires
            old(self).wf(),
            step_ok(old(self).spec_value(), next),
            old(self).spec_version() < u64::MAX,
        ensures
            final(self).wf(),
            final(self).spec_value() == next,
            final(self).spec_version() == old(self).spec_version() + 1,
            final(self).spec_history() == old(self).spec_history().push(next),
    {
        let ghost h0 = self.history@;
        let ghost h = h0.push(next);
        proof {
            assert forall|i: int| 0 <= i < h.len() - 1 implies step_ok(h[i], #[trigger] h[i + 1]) by {
                if i < h.len() - 2 {
                    assert(h[i] == h0[i] && h[i + 1] == h0[i + 1]);
                } else {
                    assert(h[i] == h0.last());
                }
            }
        }
        self.value = next;
        self.version = self.version + 1;
        self.history = Ghost(h);
    }

    /// Reads the latest value. Reading is pure: it can neither change the
    /// cell nor be affected by other readers, so re-reading without an
    /// intervening write yields the identical status.
    pub fn read(&self) -> (r: &Status)
        ensures
            r == self.spec_value(),
    {
        &self.value
    }

    /// The current version, for observers to detect changes.
    pub fn version(&self) -> (r: u64)
        ensures
            r == self.spec_version(),
    {
        self.version
    }
}

/// A cell that has reached a terminal value has seen at least one write,
/// so a fresh observer's first poll — which delivers whenever any write has
/// happened — immediately yields the terminal value.
pub proof fn lemma_attach_after_done(cell: &StatusCell)
    requires
        cell.wf(),
        cell.spec_value().spec_is_done(),
    ensures
        cell.spec_version() > 0,
{
    assert(cell.spec_history().last() == cell.spec_value());
    assert(cell.spec_history()[0] == Status::Queued);
    if cell.spec_history().len() == 1 {
        assert(cell.spec_history().last() == Status::Queued);
    }
}

/// What a poll hands out is the history entry at the cell's version: an
/// observer's cursor only ever advances, so across any run of polls the
/// values received are history entries at strictly increasing indices —
/// the transitions, in the order they were written, with skips possible
/// only for an observer that lagged behind several writes.
pub proof fn lemma_poll_delivers_history_entry(cell: &StatusCell)
    requires
        cell.wf(),
    ensures
        cell.spec_value() == cell.spec_history()[cell.spec_version()],
{
}

/// An observer's cursor over one cell: the last version it has taken.
/// Attaching starts at version zero — the initial `Queued` counts as seen —
/// so everything written since admission is news to a fresh observer.
#[derive(Debug, Clone, PartialEq, Eq, Structural)]
pub struct Observer {
    pub last_seen: u64,
}

impl Observer {
    /// Attaches to a cell: the next poll delivers the latest value exactly
    /// when any transition has happened, so an observer attaching after the
    /// terminal write receives the terminal value at once.
    pub fn attach() -> (o: Observer)
        ensures
            o.last_seen == 0,
    {
        Observer { last_seen: 0 }
    }

    /// Takes the latest value if it is news to this observer. Successive
    /// polls hence deliver a subsequence of the cell's history in order, and
    /// an observer that polls after every write misses no transition.
    pub fn poll(&mut self, cell: &StatusCell) -> (r: Option<Status>)
        ensures
            cell.spec_version() > old(self).last_seen ==> r == Some(cell.spec_value())
                && final(self).last_seen == cell.spec_version(),
            cell.spec_version() <= old(self).last_seen ==> r is None && *final(self) == *old(self),
    {
        if cell.version() > self.last_seen {
            self.last_seen = cell.version();
            Some(cell.read().clone())
        } else {
            None
        }
    }
}

} // verus!
