//! The shutdown hierarchy: a root cancellation signal with independent
//! children for the inbound-request acceptor and for the worker/eviction
//! subtree. Triggering the root signals both children; a signal, once set,
//! never clears.

use vstd::prelude::*;

verus! {

/// The coordinator's signals. The acceptor child stops admissions; the
/// worker child lets the current job finish, stops the dequeue loop and
/// makes every pending eviction due at once.
#[derive(Debug, Clone, Copy, PartialEq, Eq, Structural)]
pub struct ShutdownCoordinator {
    root: bool,
    acceptor: bool,
    worker: bool,
}

impl ShutdownCoordinator {
    /// Whether the root signal is set.
    pub closed spec fn spec_root(&self) -> bool {
        self.root
    }

    /// Whether the acceptor subtree is cancelled.
    pub closed spec fn spec_acceptor(&self) -> bool {
        self.acceptor
    }

    /// Whether the worker/eviction subtree is cancelled.
    pub closed spec fn spec_worker(&self) -> bool {
        self.worker
    }

    /// The hierarchy's invariant: a set root has set both children.
    pub open spec fn wf(&self) -> bool {
        self.spec_root() ==> self.spec_acceptor() && self.spec_worker()
    }

    /// A fresh coordinator with no signal set.
    pub fn new() -> (c: ShutdownCoordinator)
        ensures
            c.wf(),
            !c.spec_root() && !c.spec_acceptor() && !c.spec_worker(),
    {
        ShutdownCoordinator { root: false, acceptor: false, worker: false }
    }

    /// Triggers the root: both children are signalled with it. No signal
    /// that was already set is cleared.
    pub fn cancel_root(&mut self)
        requires
            old(self).wf(),
        ensures
            final(self).wf(),
            final(self).spec_root() && final(self).spec_acceptor() && final(self).spec_worker(),
    {
        self.root = true;
        self.acceptor = true;
        self.worker = true;
    }

    /// Cancels only the acceptor child: admissions stop, the worker drains on.
    pub fn cancel_acceptor(&mut self)
        requires
            old(self).wf(),
        ensures
            final(self).wf(),
            final(self).spec_acceptor(),
            final(self).spec_root() == old(self).spec_root(),
            final(self).spec_worker() == old(self).spec_worker(),
    {
        self.acceptor = true;
    }

    /// Cancels only the worker child: the current job finishes, nothing
    /// further is dequeued, pending evictions become due.
    pub fn cancel_worker(&mut self)
        requires
            old(self).wf(),
        ensures
            final(self).wf(),
            final(self).spec_worker(),
            final(self).spec_root() == old(self).spec_root(),
            final(self).spec_acceptor() == old(self).spec_acceptor(),
    {
        self.worker = true;
    }

    /// Whether the acceptor subtree is cancelled.
    pub fn acceptor_cancelled(&self) -> (r: bool)
        ensures
            r == self.spec_acceptor(),
    {
        self.acceptor
    }

    /// Whether the worker subtree is cancelled.
    pub fn worker_cancelled(&self) -> (r: bool)
        ensures
            r == self.spec_worker(),
    {
        self.worker
    }

    /// Whether the root has been triggered.
    pub fn root_cancelled(&self) -> (r: bool)
        ensures
            r == self.spec_root(),
    {
        self.root
    }
}

} // verus!
