//! The whole subsystem tied together: the admission path in front, the
//! sequential worker behind it, the status cells observers read, the
//! registry that finds them, and the timed eviction of finished entries.
//!
//! Everything the asynchronous shell cannot decide for itself is decided
//! here: whether a submission may enter, which status each worker event
//! writes, when a slot frees, and when an entry may be reclaimed.

use vstd::prelude::*;
use crate::auth::TokenClaim;
use crate::cell::{lemma_trace_bounded, Observer, StatusCell};
use crate::config::LimitsConfig;
use crate::credential::spec_needs_refresh;
use crate::gate::{gate_step, AdmissionGate, GateAbs, GateOp, Permit, ReserveDecision};
use crate::job::{JobInfo, QueuedJobInfo};
use crate::errors::WsError;
use crate::registry::{spec_eviction_due, JobRegistry};
use crate::shutdown::ShutdownCoordinator;
use crate::status::{Failure, FailureKind, Outcome, Status};

verus! {

/// A finished job whose registry entry waits out the grace period (or the
/// shutdown signal, whichever resolves first).
#[derive(Debug, Clone, Copy, PartialEq, Eq, Structural)]
pub struct PendingEviction {
    pub id: u128,
    pub cell: u64,
    pub done_at_ms: u64,
}

/// Where the sequential worker stands.
pub enum WorkerPhase {
    /// Between jobs.
    Idle,
    /// The render collaborator is at work on this job.
    Rendering { job: QueuedJobInfo },
    /// The publish collaborator is at work on this job.
    Uploading { job: QueuedJobInfo },
    /// The outcome is decided; artifacts are being removed before the
    /// terminal status is written.
    Cleanup { job: QueuedJobInfo, outcome: Outcome },
}

impl WorkerPhase {
    /// The job the worker holds, if any.
    pub open spec fn spec_job(self) -> Option<QueuedJobInfo> {
        match self {
            WorkerPhase::Idle => None,
            WorkerPhase::Rendering { job } => Some(job),
            WorkerPhase::Uploading { job } => Some(job),
            WorkerPhase::Cleanup { job, .. } => Some(job),
        }
    }
}

/// The subsystem: gate and queue, registry, cells, worker and shutdown
/// signals, plus the pending eviction timers.
pub struct Pipeline {
    limits: LimitsConfig,
    grace_ms: u64,
    gate: AdmissionGate,
    registry: JobRegistry,
    cells: Vec<StatusCell>,
    worker: WorkerPhase,
    pending: Vec<PendingEviction>,
    shutdown: ShutdownCoordinator,
}

impl Pipeline {
    /// The configured limits.
    pub closed spec fn spec_limits(&self) -> LimitsConfig {
        self.limits
    }

    /// The grace period for finished entries, in milliseconds.
    pub closed spec fn spec_grace_ms(&self) -> u64 {
        self.grace_ms
    }

    /// The admission gate's abstract state.
    pub closed spec fn gate_abs(&self) -> GateAbs {
        self.gate.abs()
    }

    /// The registry's abstract contents.
    pub closed spec fn reg(&self) -> Map<u128, u64> {
        self.registry.view()
    }

    /// The status cells, indexed by handle.
    pub closed spec fn spec_cells(&self) -> Seq<StatusCell> {
        self.cells@
    }

    /// The worker's phase.
    pub closed spec fn spec_worker(&self) -> WorkerPhase {
        self.worker
    }

    /// The pending eviction timers.
    pub closed spec fn spec_pending(&self) -> Seq<PendingEviction> {
        self.pending@
    }

    /// The shutdown signals.
    pub closed spec fn spec_shutdown(&self) -> ShutdownCoordinator {
        self.shutdown
    }

    /// The status of the cell behind handle `h`.
    pub open spec fn cell_value(&self, h: u64) -> Status {
        self.spec_cells()[h as int].spec_value()
    }

    /// Everything ever written to the cell behind handle `h`.
    pub open spec fn cell_history(&self, h: u64) -> Seq<Status> {
        self.spec_cells()[h as int].spec_history()
    }

    /// A handle that names a cell.
    pub open spec fn valid_handle(&self, h: u64) -> bool {
        h < self.spec_cells().len()
    }

    /// The invariant over the whole subsystem. Beyond each part's own
    /// well-formedness: every handle in the registry, the queue, the worker
    /// and the timers names a cell; queued jobs still read `Queued`; the
    /// worker's phase agrees with its job's cell and with the admission gate's
    /// in-flight count; ids and handles of distinct pending jobs are
    /// distinct; and every pending eviction still has its registry entry —
    /// an entry is reclaimed by the timer race and by nothing else.
    pub open spec fn wf(&self) -> bool {
        let q = self.gate_abs().queue;
        &&& crate::gate::spec_gate_wf(self.gate_abs())
        &&& self.spec_shutdown().wf()
        &&& forall|i: int|
            0 <= i < self.spec_cells().len() ==> (#[trigger] self.spec_cells()[i]).wf()
        &&& forall|id: u128|
            self.reg().dom().contains(id) ==> self.valid_handle(#[trigger] self.reg()[id])
        // queued jobs: registered, cell fresh, handles and ids distinct
        &&& forall|i: int|
            0 <= i < q.len() ==> self.valid_handle((#[trigger] q[i]).cell)
        &&& forall|i: int|
            0 <= i < q.len() ==> self.cell_value((#[trigger] q[i]).cell) == Status::Queued
        &&& forall|i: int|
            0 <= i < q.len() ==> self.reg().dom().contains((#[trigger] q[i]).info.id)
                && self.reg()[q[i].info.id] == q[i].cell
        &&& forall|i: int, j: int|
            0 <= i < j < q.len() ==> (#[trigger] q[i]).cell != (#[trigger] q[j]).cell
        &&& forall|i: int, j: int|
            0 <= i < j < q.len() ==> (#[trigger] q[i]).info.id != (#[trigger] q[j]).info.id
        // the worker's job: registered, cell in the matching state, distinct
        // from every queued job
        &&& self.spec_worker() is Idle <==> self.gate_abs().in_flight == 0
        &&& match self.spec_worker() {
            WorkerPhase::Idle => true,
            WorkerPhase::Rendering { job } => self.wf_active(job) && self.cell_value(job.cell)
                == Status::Processing,
            WorkerPhase::Uploading { job } => self.wf_active(job) && self.cell_value(job.cell)
                == Status::Uploading,
            WorkerPhase::Cleanup { job, outcome } => self.wf_active(job) && (self.cell_value(
                job.cell,
            ) == Status::Uploading || (self.cell_value(job.cell) == Status::Processing && outcome
                is Failure)),
        }
        // pending evictions: entry still registered under its handle, ids
        // distinct from each other and from every job still in the system
        &&& forall|i: int|
            0 <= i < self.spec_pending().len() ==> self.reg().dom().contains(
                (#[trigger] self.spec_pending()[i]).id,
            ) && self.reg()[self.spec_pending()[i].id] == self.spec_pending()[i].cell
        &&& forall|i: int, j: int|
            0 <= i < j < self.spec_pending().len() ==> (#[trigger] self.spec_pending()[i]).id != (
            #[trigger] self.spec_pending()[j]).id
        &&& forall|i: int, j: int|
            0 <= i < q.len() && 0 <= j < self.spec_pending().len() ==> (#[trigger] q[i]).info.id
                != (#[trigger] self.spec_pending()[j]).id
    }

    /// What holds of the worker's job in any active phase.
    pub open spec fn wf_active(&self, job: QueuedJobInfo) -> bool {
        let q = self.gate_abs().queue;
        &&& self.valid_handle(job.cell)
        &&& self.reg().dom().contains(job.info.id)
        &&& self.reg()[job.info.id] == job.cell
        &&& forall|i: int| 0 <= i < q.len() ==> (#[trigger] q[i]).cell != job.cell
        &&& forall|i: int| 0 <= i < q.len() ==> (#[trigger] q[i]).info.id != job.info.id
        &&& forall|i: int|
            0 <= i < self.spec_pending().len() ==> (#[trigger] self.spec_pending()[i]).id
                != job.info.id
    }

    /// A fresh subsystem: the admission gate open with the configured queue size, the
    /// registry empty, no cells, the worker idle, no signals set.
    pub fn new(limits: LimitsConfig, grace_ms: u64) -> (p: Pipeline)
        ensures
            p.wf(),
            p.spec_limits() == limits,
            p.spec_grace_ms() == grace_ms,
            p.gate_abs() == (GateAbs {
                capacity: limits.processing.queue_size as int,
                closed: false,
                reserved: 0,
                queue: Seq::<QueuedJobInfo>::empty(),
                in_flight: 0,
            }),
            p.reg() == crate::registry::no_cells(),
            p.spec_cells() == Seq::<StatusCell>::empty(),
            p.spec_worker() is Idle,
            p.spec_pending() == Seq::<PendingEviction>::empty(),
            !p.spec_shutdown().spec_root() && !p.spec_shutdown().spec_acceptor()
                && !p.spec_shutdown().spec_worker(),
    {
        let capacity = limits.processing.queue_size;
        let p = Pipeline {
            limits,
            grace_ms,
            gate: AdmissionGate::new(capacity),
            registry: JobRegistry::new(capacity),
            cells: Vec::new(),
            worker: WorkerPhase::Idle,
            pending: Vec::new(),
            shutdown: ShutdownCoordinator::new(),
        };
        proof {
            assert(p.spec_cells() =~= Seq::<StatusCell>::empty());
            assert(p.spec_pending() =~= Seq::<PendingEviction>::empty());
        }
        p
    }
}


/// Re-establishes the invariant when a step changes only the admission gate's
/// counters and the shutdown signals: the queue, the registry, the cells,
/// the worker and the timers all stand as before.
pub proof fn lemma_wf_frame(a: &Pipeline, b: &Pipeline)
    requires
        a.wf(),
        b.reg() == a.reg(),
        b.spec_cells() == a.spec_cells(),
        b.spec_worker() == a.spec_worker(),
        b.spec_pending() == a.spec_pending(),
        b.gate_abs().queue == a.gate_abs().queue,
        b.gate_abs().in_flight == a.gate_abs().in_flight,
        crate::gate::spec_gate_wf(b.gate_abs()),
        b.spec_shutdown().wf(),
    ensures
        b.wf(),
{
    let q = b.gate_abs().queue;
    assert forall|i: int| 0 <= i < b.spec_cells().len() implies (
    #[trigger] b.spec_cells()[i]).wf() by {
        assert(a.spec_cells()[i].wf());
    }
    assert forall|id: u128| b.reg().dom().contains(id) implies b.valid_handle(
        #[trigger] b.reg()[id],
    ) by {
        assert(a.valid_handle(a.reg()[id]));
    }
    assert forall|i: int| 0 <= i < q.len() implies b.valid_handle((#[trigger] q[i]).cell)
        && b.cell_value(q[i].cell) == Status::Queued && b.reg().dom().contains(q[i].info.id)
        && b.reg()[q[i].info.id] == q[i].cell by {
        assert(a.valid_handle(q[i].cell));
        assert(a.cell_value(q[i].cell) == Status::Queued);
        assert(a.reg().dom().contains(q[i].info.id) && a.reg()[q[i].info.id] == q[i].cell);
    }
    match b.spec_worker() {
        WorkerPhase::Idle => {},
        WorkerPhase::Rendering { job } => {
            lemma_wf_active_frame(a, b, job);
        },
        WorkerPhase::Uploading { job } => {
            lemma_wf_active_frame(a, b, job);
        },
        WorkerPhase::Cleanup { job, .. } => {
            lemma_wf_active_frame(a, b, job);
        },
    }
    assert forall|i: int| 0 <= i < b.spec_pending().len() implies b.reg().dom().contains(
        (#[trigger] b.spec_pending()[i]).id,
    ) && b.reg()[b.spec_pending()[i].id] == b.spec_pending()[i].cell by {
        assert(a.reg().dom().contains(a.spec_pending()[i].id));
        assert(a.reg()[a.spec_pending()[i].id] == a.spec_pending()[i].cell);
    }
}

/// The active-job part of [`lemma_wf_frame`].
proof fn lemma_wf_active_frame(a: &Pipeline, b: &Pipeline, job: QueuedJobInfo)
    requires
        a.wf(),
        a.wf_active(job),
        b.reg() == a.reg(),
        b.spec_cells() == a.spec_cells(),
        b.spec_pending() == a.spec_pending(),
        b.gate_abs().queue == a.gate_abs().queue,
    ensures
        b.wf_active(job),
{
    let q = b.gate_abs().queue;
    assert forall|i: int| 0 <= i < q.len() implies (#[trigger] q[i]).cell != job.cell && q[i].info.id
        != job.info.id by {
        assert(a.gate_abs().queue[i].cell != job.cell);
        assert(a.gate_abs().queue[i].info.id != job.info.id);
    }
    assert forall|i: int| 0 <= i < b.spec_pending().len() implies (
    #[trigger] b.spec_pending()[i]).id != job.info.id by {
        assert(a.spec_pending()[i].id != job.info.id);
    }
}

/// Re-establishes the invariant across the commit step: one fresh cell at
/// the end, one fresh registry binding, one job at the tail of the queue.
proof fn lemma_wf_submit(a: &Pipeline, b: &Pipeline, info: JobInfo, h: u64)
    requires
        a.wf(),
        !a.reg().dom().contains(info.id),
        a.gate_abs().reserved > 0,
        h == a.spec_cells().len(),
        b.spec_cells().len() == a.spec_cells().len() + 1,
        forall|i: int| 0 <= i < a.spec_cells().len() ==> b.spec_cells()[i] == a.spec_cells()[i],
        b.spec_cells()[h as int].wf(),
        b.spec_cells()[h as int].spec_value() == Status::Queued,
        b.reg() == a.reg().insert(info.id, h),
        b.gate_abs() == gate_step(a.gate_abs(), GateOp::Commit(QueuedJobInfo { info, cell: h })),
        crate::gate::spec_gate_wf(b.gate_abs()),
        b.spec_worker() == a.spec_worker(),
        b.spec_pending() == a.spec_pending(),
        b.spec_shutdown() == a.spec_shutdown(),
    ensures
        b.wf(),
{
    let job = QueuedJobInfo { info, cell: h };
    let qa = a.gate_abs().queue;
    let qb = b.gate_abs().queue;
    assert(qb == qa.push(job));
    assert forall|i: int| 0 <= i < b.spec_cells().len() implies (
    #[trigger] b.spec_cells()[i]).wf() by {
        if i < a.spec_cells().len() {
            assert(a.spec_cells()[i].wf());
        }
    }
    assert forall|id: u128| b.reg().dom().contains(id) implies b.valid_handle(
        #[trigger] b.reg()[id],
    ) by {
        if id != info.id {
            assert(a.reg().dom().contains(id));
            assert(a.valid_handle(a.reg()[id]));
        }
    }
    assert forall|i: int| 0 <= i < qb.len() implies b.valid_handle((#[trigger] qb[i]).cell)
        && b.cell_value(qb[i].cell) == Status::Queued && b.reg().dom().contains(qb[i].info.id)
        && b.reg()[qb[i].info.id] == qb[i].cell by {
        if i < qa.len() {
            assert(qb[i] == qa[i]);
            assert(a.valid_handle(qa[i].cell));
            assert(a.cell_value(qa[i].cell) == Status::Queued);
            assert(a.reg().dom().contains(qa[i].info.id) && a.reg()[qa[i].info.id] == qa[i].cell);
            assert(b.spec_cells()[qa[i].cell as int] == a.spec_cells()[qa[i].cell as int]);
        } else {
            assert(qb[i] == job);
        }
    }
    assert forall|i: int, j: int| 0 <= i < j < qb.len() implies (#[trigger] qb[i]).cell != (
    #[trigger] qb[j]).cell && qb[i].info.id != qb[j].info.id by {
        if j < qa.len() {
            assert(qa[i].cell != qa[j].cell && qa[i].info.id != qa[j].info.id);
        } else {
            assert(qb[j] == job);
            assert(qb[i] == qa[i]);
            assert(a.valid_handle(qa[i].cell));
            assert(a.reg().dom().contains(qa[i].info.id));
        }
    }
    match b.spec_worker() {
        WorkerPhase::Idle => {},
        WorkerPhase::Rendering { job: w } => {
            lemma_wf_active_submit(a, b, info, h, w);
        },
        WorkerPhase::Uploading { job: w } => {
            lemma_wf_active_submit(a, b, info, h, w);
        },
        WorkerPhase::Cleanup { job: w, .. } => {
            lemma_wf_active_submit(a, b, info, h, w);
        },
    }
    assert forall|i: int| 0 <= i < b.spec_pending().len() implies b.reg().dom().contains(
        (#[trigger] b.spec_pending()[i]).id,
    ) && b.reg()[b.spec_pending()[i].id] == b.spec_pending()[i].cell by {
        assert(a.reg().dom().contains(a.spec_pending()[i].id));
        assert(a.reg()[a.spec_pending()[i].id] == a.spec_pending()[i].cell);
    }
    assert forall|i: int, j: int|
        0 <= i < qb.len() && 0 <= j < b.spec_pending().len() implies (#[trigger] qb[i]).info.id
        != (#[trigger] b.spec_pending()[j]).id by {
        assert(a.reg().dom().contains(a.spec_pending()[j].id));
        if i < qa.len() {
            assert(qa[i].info.id != a.spec_pending()[j].id);
        } else {
            assert(qb[i] == job);
        }
    }
}

/// The active-job part of [`lemma_wf_submit`].
proof fn lemma_wf_active_submit(a: &Pipeline, b: &Pipeline, info: JobInfo, h: u64, w: QueuedJobInfo)
    requires
        a.wf(),
        a.wf_active(w),
        !a.reg().dom().contains(info.id),
        h == a.spec_cells().len(),
        b.spec_cells().len() == a.spec_cells().len() + 1,
        forall|i: int| 0 <= i < a.spec_cells().len() ==> b.spec_cells()[i] == a.spec_cells()[i],
        b.reg() == a.reg().insert(info.id, h),
        b.gate_abs().queue == a.gate_abs().queue.push(QueuedJobInfo { info, cell: h }),
        b.spec_pending() == a.spec_pending(),
    ensures
        b.wf_active(w),
{
    let job = QueuedJobInfo { info, cell: h };
    let qa = a.gate_abs().queue;
    let qb = b.gate_abs().queue;
    assert forall|i: int| 0 <= i < qb.len() implies (#[trigger] qb[i]).cell != w.cell
        && qb[i].info.id != w.info.id by {
        if i < qa.len() {
            assert(qa[i].cell != w.cell && qa[i].info.id != w.info.id);
        } else {
            assert(qb[i] == job);
        }
    }
    assert forall|i: int| 0 <= i < b.spec_pending().len() implies (
    #[trigger] b.spec_pending()[i]).id != w.info.id by {
        assert(a.spec_pending()[i].id != w.info.id);
    }
}

/// What the admission path learns from its reservation attempt.
pub enum AdmissionCheck {
    /// Every slot is taken; the payload is the configured capacity.
    RejectedFull(usize),
    /// The system is shutting down.
    RejectedClosed,
    /// A slot is reserved. `refresh_needed` says whether the credential
    /// must be renewed before the job may be committed.
    Proceed { permit: Permit, refresh_needed: bool },
}

impl Pipeline {
    /// Everything the admission and worker paths leave untouched here.
    pub open spec fn same_but_gate_and_shutdown(&self, other: &Pipeline) -> bool {
        &&& self.reg() == other.reg()
        &&& self.spec_cells() == other.spec_cells()
        &&& self.spec_worker() == other.spec_worker()
        &&& self.spec_pending() == other.spec_pending()
        &&& self.spec_limits() == other.spec_limits()
        &&& self.spec_grace_ms() == other.spec_grace_ms()
    }

    /// The first admission step: one non-blocking reservation attempt, and —
    /// with the slot already held — the per-submission credential freshness
    /// decision of the worst-case wait behind a full queue. A closed gate
    /// means the system is going down: the root shutdown signal is raised
    /// with the refusal.
    pub fn check_admission(&mut self, now_ms: u64, claim: &TokenClaim) -> (r: AdmissionCheck)
        requires
            old(self).wf(),
        ensures
            final(self).wf(),
            final(self).same_but_gate_and_shutdown(old(self)),
            final(self).gate_abs() == gate_step(old(self).gate_abs(), GateOp::Reserve),
            old(self).gate_abs().closed ==> r is RejectedClosed
                && final(self).spec_shutdown().spec_root(),
            !old(self).gate_abs().closed ==> final(self).spec_shutdown()
                == old(self).spec_shutdown(),
            r matches AdmissionCheck::RejectedFull(c) ==> c == old(self).gate_abs().capacity,
            !old(self).gate_abs().closed && !crate::gate::spec_reserve_succeeds(
                old(self).gate_abs(),
            ) ==> r is RejectedFull,
            crate::gate::spec_reserve_succeeds(old(self).gate_abs()) ==> (r matches
                AdmissionCheck::Proceed { permit, refresh_needed } && refresh_needed
                == spec_needs_refresh(
                now_ms,
                claim.expires_at_ms,
                old(self).spec_limits().processing.time,
                old(self).spec_limits().processing.queue_size,
            )),
    {
        let r = match self.gate.try_reserve() {
            ReserveDecision::Closed => {
                self.shutdown.cancel_root();
                AdmissionCheck::RejectedClosed
            },
            ReserveDecision::Full(c) => AdmissionCheck::RejectedFull(c),
            ReserveDecision::Reserved(permit) => {
                let refresh_needed = crate::credential::needs_refresh(
                    now_ms,
                    claim.expires_at_ms,
                    self.limits.processing.time,
                    self.limits.processing.queue_size,
                );
                AdmissionCheck::Proceed { permit, refresh_needed }
            },
        };
        proof {
            lemma_wf_frame(old(self), self);
        }
        r
    }

    /// Gives a reserved slot back without committing: the path taken when
    /// the credential refresh fails, so that no job enters with a stale
    /// token and the slot is not leaked.
    pub fn abandon_admission(&mut self, permit: Permit)
        requires
            old(self).wf(),
            old(self).gate_abs().reserved > 0,
        ensures
            final(self).wf(),
            final(self).same_but_gate_and_shutdown(old(self)),
            final(self).spec_shutdown() == old(self).spec_shutdown(),
            final(self).gate_abs() == gate_step(old(self).gate_abs(), GateOp::Abandon),
    {
        self.gate.abandon(permit);
        proof {
            lemma_wf_frame(old(self), self);
        }
    }

    /// The commit point: a fresh status cell is created and registered under
    /// the job's identifier, and the job becomes visible to the worker at
    /// the tail of the queue. Returns the new cell's handle.
    pub fn submit_job(&mut self, permit: Permit, info: JobInfo) -> (h: u64)
        requires
            old(self).wf(),
            old(self).gate_abs().reserved > 0,
            !old(self).reg().dom().contains(info.id),
        ensures
            final(self).wf(),
            h == old(self).spec_cells().len(),
            final(self).spec_cells().len() == old(self).spec_cells().len() + 1,
            forall|i: int|
                0 <= i < old(self).spec_cells().len() ==> final(self).spec_cells()[i]
                    == old(self).spec_cells()[i],
            final(self).cell_value(h) == Status::Queued,
            final(self).cell_history(h) == seq![Status::Queued],
            final(self).reg() == old(self).reg().insert(info.id, h),
            final(self).gate_abs() == gate_step(
                old(self).gate_abs(),
                GateOp::Commit(QueuedJobInfo { info, cell: h }),
            ),
            final(self).spec_worker() == old(self).spec_worker(),
            final(self).spec_pending() == old(self).spec_pending(),
            final(self).spec_shutdown() == old(self).spec_shutdown(),
            final(self).spec_limits() == old(self).spec_limits(),
            final(self).spec_grace_ms() == old(self).spec_grace_ms(),
    {
        let h64: u64 = self.cells.len() as u64;
        let ghost info_g = info;
        let cell = StatusCell::new();
        self.cells.push(cell);
        self.registry.upsert(info.id, h64);
        let job = QueuedJobInfo { info, cell: h64 };
        self.gate.commit(permit, job);
        proof {
            lemma_wf_submit(old(self), self, info_g, h64);
        }
        h64
    }
}


/// What the worker found when it asked for its next job.
#[derive(Debug, Clone, Copy, PartialEq, Eq, Structural)]
pub enum WorkerTurn {
    /// The worker subtree is cancelled: exit the loop, dequeue nothing more.
    ShuttingDown,
    /// No job is committed yet; come back when one is.
    Empty,
    /// A job was dequeued and its cell now reads `Processing`.
    Started,
}

/// Which way the render collaborator failed, short of a timeout.
#[derive(Debug, Clone, Copy, PartialEq, Eq, Structural)]
pub enum RenderError {
    /// The transcoder process could not be spawned.
    Spawn,
    /// An artifact could not be read or written.
    Io,
    /// The watermark image could not be decoded.
    ImageParse,
    /// The helper task was lost.
    Join,
    /// The transcoder exited with a non-success status.
    Ffmpeg,
}

/// The failure kind a render error is recorded as.
pub open spec fn spec_render_failure_kind(e: RenderError) -> FailureKind {
    match e {
        RenderError::Spawn => FailureKind::VideoSpawn,
        RenderError::Io => FailureKind::VideoIo,
        RenderError::ImageParse => FailureKind::VideoImageParse,
        RenderError::Join => FailureKind::VideoJoin,
        RenderError::Ffmpeg => FailureKind::VideoFfmpeg,
    }
}

/// How the render step ended, as reported by the shell that ran it.
#[derive(Debug, Clone, PartialEq, Eq)]
pub enum RenderOutcome {
    /// The output file exists and is complete.
    Produced,
    /// The bounded timeout elapsed and the process was killed; the message
    /// records the observed duration.
    TimedOut { elapsed_ms: u64, message: String },
    /// The step failed outright.
    Failed { error: RenderError, message: String },
}

/// How the publish step ended, as reported by the shell that ran it.
#[derive(Debug, Clone, PartialEq, Eq)]
pub enum UploadOutcome {
    /// The remote service assigned this identifier.
    Published { video_id: String },
    /// The remote service answered with a structured error.
    RemoteError { remote_message: String, message: String },
    /// The remote service could not be reached.
    TransportError { message: String },
    /// The remote answer could not be decoded.
    ParseError { message: String },
    /// The initiation answer carried no session location.
    MissingLocation { message: String },
}

/// The outcome a finished upload step is recorded as.
pub open spec fn spec_upload_outcome(o: UploadOutcome) -> Outcome {
    match o {
        UploadOutcome::Published { video_id } => Outcome::Success { video_id },
        UploadOutcome::RemoteError { remote_message, message } => Outcome::Failure(
            Failure { kind: FailureKind::UploadApi { remote_message }, message },
        ),
        UploadOutcome::TransportError { message } => Outcome::Failure(
            Failure { kind: FailureKind::UploadTransport, message },
        ),
        UploadOutcome::ParseError { message } => Outcome::Failure(
            Failure { kind: FailureKind::UploadParse, message },
        ),
        UploadOutcome::MissingLocation { message } => Outcome::Failure(
            Failure { kind: FailureKind::UploadOther, message },
        ),
    }
}

/// What the worker logs after best-effort artifact removal. The recorded
/// outcome is decided before cleanup runs and is the same whatever stands
/// here: removal failures are logged, never surfaced.
#[derive(Debug, Clone, Copy, PartialEq, Eq, Structural)]
pub struct CleanupReport {
    pub image_removed: bool,
    pub audio_removed: bool,
    pub video_removed: bool,
}

/// Re-establishes the invariant across the dequeue step.
proof fn lemma_wf_dequeue(a: &Pipeline, b: &Pipeline, job: QueuedJobInfo)
    requires
        a.wf(),
        a.spec_worker() is Idle,
        a.gate_abs().queue.len() > 0,
        job == a.gate_abs().queue[0],
        b.gate_abs() == gate_step(a.gate_abs(), GateOp::Dequeue),
        b.spec_cells().len() == a.spec_cells().len(),
        forall|i: int|
            0 <= i < a.spec_cells().len() && i != job.cell as int ==> b.spec_cells()[i]
                == a.spec_cells()[i],
        b.spec_cells()[job.cell as int].wf(),
        b.cell_value(job.cell) == Status::Processing,
        b.reg() == a.reg(),
        b.spec_pending() == a.spec_pending(),
        b.spec_worker() == (WorkerPhase::Rendering { job }),
        b.spec_shutdown() == a.spec_shutdown(),
    ensures
        b.wf(),
{
    let qa = a.gate_abs().queue;
    let qb = b.gate_abs().queue;
    assert(qb == qa.drop_first());
    assert forall|i: int| 0 <= i < b.spec_cells().len() implies (
    #[trigger] b.spec_cells()[i]).wf() by {
        if i != job.cell as int {
            assert(a.spec_cells()[i].wf());
        }
    }
    assert forall|id: u128| b.reg().dom().contains(id) implies b.valid_handle(
        #[trigger] b.reg()[id],
    ) by {
        assert(a.valid_handle(a.reg()[id]));
    }
    assert forall|i: int| 0 <= i < qb.len() implies b.valid_handle((#[trigger] qb[i]).cell)
        && b.cell_value(qb[i].cell) == Status::Queued && b.reg().dom().contains(qb[i].info.id)
        && b.reg()[qb[i].info.id] == qb[i].cell by {
        assert(qb[i] == qa[i + 1]);
        assert(a.valid_handle(qa[i + 1].cell));
        assert(qa[0].cell != qa[i + 1].cell);
        assert(a.cell_value(qa[i + 1].cell) == Status::Queued);
        assert(a.reg().dom().contains(qa[i + 1].info.id));
        assert(a.reg()[qa[i + 1].info.id] == qa[i + 1].cell);
    }
    assert forall|i: int, j: int| 0 <= i < j < qb.len() implies (#[trigger] qb[i]).cell != (
    #[trigger] qb[j]).cell && qb[i].info.id != qb[j].info.id by {
        assert(qb[i] == qa[i + 1] && qb[j] == qa[j + 1]);
        assert(qa[i + 1].cell != qa[j + 1].cell);
        assert(qa[i + 1].info.id != qa[j + 1].info.id);
    }
    assert forall|i: int| 0 <= i < qb.len() implies (#[trigger] qb[i]).cell != job.cell && (
    qb[i]).info.id != job.info.id by {
        assert(qb[i] == qa[i + 1]);
        assert(qa[0].cell != qa[i + 1].cell);
        assert(qa[0].info.id != qa[i + 1].info.id);
    }
    assert forall|i: int| 0 <= i < b.spec_pending().len() implies (
    #[trigger] b.spec_pending()[i]).id != job.info.id by {
        assert(qa[0].info.id != a.spec_pending()[i].id);
    }
    assert forall|i: int| 0 <= i < b.spec_pending().len() implies b.reg().dom().contains(
        (#[trigger] b.spec_pending()[i]).id,
    ) && b.reg()[b.spec_pending()[i].id] == b.spec_pending()[i].cell by {
        assert(a.reg().dom().contains(a.spec_pending()[i].id));
        assert(a.reg()[a.spec_pending()[i].id] == a.spec_pending()[i].cell);
    }
    assert forall|i: int, j: int|
        0 <= i < qb.len() && 0 <= j < b.spec_pending().len() implies (#[trigger] qb[i]).info.id
        != (#[trigger] b.spec_pending()[j]).id by {
        assert(qb[i] == qa[i + 1]);
        assert(qa[i + 1].info.id != a.spec_pending()[j].id);
    }
}

/// Re-establishes the invariant across a stage change of the worker: the
/// job stays the same, only its cell and the phase move.
proof fn lemma_wf_stage(a: &Pipeline, b: &Pipeline, w: QueuedJobInfo)
    requires
        a.wf(),
        a.spec_worker().spec_job() == Some(w),
        b.spec_worker().spec_job() == Some(w),
        !(b.spec_worker() is Idle),
        b.gate_abs() == a.gate_abs(),
        b.reg() == a.reg(),
        b.spec_pending() == a.spec_pending(),
        b.spec_shutdown() == a.spec_shutdown(),
        b.spec_cells().len() == a.spec_cells().len(),
        forall|i: int|
            0 <= i < a.spec_cells().len() && i != w.cell as int ==> b.spec_cells()[i]
                == a.spec_cells()[i],
        b.spec_cells()[w.cell as int].wf(),
        match b.spec_worker() {
            WorkerPhase::Idle => false,
            WorkerPhase::Rendering { job } => b.cell_value(job.cell) == Status::Processing,
            WorkerPhase::Uploading { job } => b.cell_value(job.cell) == Status::Uploading,
            WorkerPhase::Cleanup { job, outcome } => b.cell_value(job.cell) == Status::Uploading
                || (b.cell_value(job.cell) == Status::Processing && outcome is Failure),
        },
    ensures
        b.wf(),
{
    let qa = a.gate_abs().queue;
    assert(a.wf_active(w));
    assert forall|i: int| 0 <= i < b.spec_cells().len() implies (
    #[trigger] b.spec_cells()[i]).wf() by {
        if i != w.cell as int {
            assert(a.spec_cells()[i].wf());
        }
    }
    assert forall|id: u128| b.reg().dom().contains(id) implies b.valid_handle(
        #[trigger] b.reg()[id],
    ) by {
        assert(a.valid_handle(a.reg()[id]));
    }
    assert forall|i: int| 0 <= i < qa.len() implies b.valid_handle((#[trigger] qa[i]).cell)
        && b.cell_value(qa[i].cell) == Status::Queued && b.reg().dom().contains(qa[i].info.id)
        && b.reg()[qa[i].info.id] == qa[i].cell by {
        assert(a.valid_handle(qa[i].cell));
        assert(qa[i].cell != w.cell);
        assert(a.cell_value(qa[i].cell) == Status::Queued);
        assert(a.reg().dom().contains(qa[i].info.id) && a.reg()[qa[i].info.id] == qa[i].cell);
    }
    assert forall|i: int| 0 <= i < b.spec_pending().len() implies b.reg().dom().contains(
        (#[trigger] b.spec_pending()[i]).id,
    ) && b.reg()[b.spec_pending()[i].id] == b.spec_pending()[i].cell by {
        assert(a.reg().dom().contains(a.spec_pending()[i].id));
        assert(a.reg()[a.spec_pending()[i].id] == a.spec_pending()[i].cell);
    }
}

/// Re-establishes the invariant across the terminal step: the cell is
/// written `Done`, the slot frees, the eviction timer joins the queue.
proof fn lemma_wf_finish(a: &Pipeline, b: &Pipeline, w: QueuedJobInfo, now_ms: u64)
    requires
        a.wf(),
        a.spec_worker().spec_job() == Some(w),
        !(a.spec_worker() is Idle),
        b.spec_worker() is Idle,
        b.gate_abs() == gate_step(a.gate_abs(), GateOp::Finish),
        b.reg() == a.reg(),
        b.spec_shutdown() == a.spec_shutdown(),
        b.spec_cells().len() == a.spec_cells().len(),
        forall|i: int|
            0 <= i < a.spec_cells().len() && i != w.cell as int ==> b.spec_cells()[i]
                == a.spec_cells()[i],
        b.spec_cells()[w.cell as int].wf(),
        b.spec_pending() == a.spec_pending().push(
            PendingEviction { id: w.info.id, cell: w.cell, done_at_ms: now_ms },
        ),
    ensures
        b.wf(),
{
    let entry = PendingEviction { id: w.info.id, cell: w.cell, done_at_ms: now_ms };
    let qa = a.gate_abs().queue;
    let pb = b.spec_pending();
    assert(a.wf_active(w));
    assert forall|i: int| 0 <= i < b.spec_cells().len() implies (
    #[trigger] b.spec_cells()[i]).wf() by {
        if i != w.cell as int {
            assert(a.spec_cells()[i].wf());
        }
    }
    assert forall|id: u128| b.reg().dom().contains(id) implies b.valid_handle(
        #[trigger] b.reg()[id],
    ) by {
        assert(a.valid_handle(a.reg()[id]));
    }
    assert forall|i: int| 0 <= i < qa.len() implies b.valid_handle((#[trigger] qa[i]).cell)
        && b.cell_value(qa[i].cell) == Status::Queued && b.reg().dom().contains(qa[i].info.id)
        && b.reg()[qa[i].info.id] == qa[i].cell by {
        assert(a.valid_handle(qa[i].cell));
        assert(qa[i].cell != w.cell);
        assert(a.cell_value(qa[i].cell) == Status::Queued);
        assert(a.reg().dom().contains(qa[i].info.id) && a.reg()[qa[i].info.id] == qa[i].cell);
    }
    assert forall|i: int| 0 <= i < pb.len() implies b.reg().dom().contains(
        (#[trigger] pb[i]).id,
    ) && b.reg()[pb[i].id] == pb[i].cell by {
        if i < a.spec_pending().len() {
            assert(pb[i] == a.spec_pending()[i]);
            assert(a.reg().dom().contains(a.spec_pending()[i].id));
            assert(a.reg()[a.spec_pending()[i].id] == a.spec_pending()[i].cell);
        } else {
            assert(pb[i] == entry);
        }
    }
    assert forall|i: int, j: int| 0 <= i < j < pb.len() implies (#[trigger] pb[i]).id != (
    #[trigger] pb[j]).id by {
        if j < a.spec_pending().len() {
            assert(a.spec_pending()[i].id != a.spec_pending()[j].id);
        } else {
            assert(pb[j] == entry);
            assert(pb[i] == a.spec_pending()[i]);
            assert(a.spec_pending()[i].id != w.info.id);
        }
    }
    assert forall|i: int, j: int| 0 <= i < qa.len() && 0 <= j < pb.len() implies (
    #[trigger] qa[i]).info.id != (#[trigger] pb[j]).id by {
        if j < a.spec_pending().len() {
            assert(qa[i].info.id != a.spec_pending()[j].id);
        } else {
            assert(pb[j] == entry);
            assert(qa[i].info.id != w.info.id);
        }
    }
}

/// Re-establishes the invariant across an eviction: one registry entry and
/// its timer go together; everything else stands.
proof fn lemma_wf_evict(a: &Pipeline, b: &Pipeline, k: int)
    requires
        a.wf(),
        0 <= k < a.spec_pending().len(),
        b.reg() == a.reg().remove(a.spec_pending()[k].id),
        b.spec_pending() == a.spec_pending().remove(k),
        b.gate_abs() == a.gate_abs(),
        b.spec_cells() == a.spec_cells(),
        b.spec_worker() == a.spec_worker(),
        b.spec_shutdown() == a.spec_shutdown(),
    ensures
        b.wf(),
{
    let gone = a.spec_pending()[k].id;
    let qa = a.gate_abs().queue;
    let pa = a.spec_pending();
    let pb = b.spec_pending();
    assert forall|i: int| 0 <= i < b.spec_cells().len() implies (
    #[trigger] b.spec_cells()[i]).wf() by {
        assert(a.spec_cells()[i].wf());
    }
    assert forall|id: u128| b.reg().dom().contains(id) implies b.valid_handle(
        #[trigger] b.reg()[id],
    ) by {
        assert(a.valid_handle(a.reg()[id]));
    }
    assert forall|i: int| 0 <= i < qa.len() implies b.valid_handle((#[trigger] qa[i]).cell)
        && b.cell_value(qa[i].cell) == Status::Queued && b.reg().dom().contains(qa[i].info.id)
        && b.reg()[qa[i].info.id] == qa[i].cell by {
        assert(a.valid_handle(qa[i].cell));
        assert(a.cell_value(qa[i].cell) == Status::Queued);
        assert(a.reg().dom().contains(qa[i].info.id) && a.reg()[qa[i].info.id] == qa[i].cell);
        assert(qa[i].info.id != pa[k].id);
    }
    match b.spec_worker() {
        WorkerPhase::Idle => {},
        WorkerPhase::Rendering { job } => {
            lemma_wf_active_evict(a, b, k, job);
        },
        WorkerPhase::Uploading { job } => {
            lemma_wf_active_evict(a, b, k, job);
        },
        WorkerPhase::Cleanup { job, .. } => {
            lemma_wf_active_evict(a, b, k, job);
        },
    }
    assert forall|i: int| 0 <= i < pb.len() implies b.reg().dom().contains(
        (#[trigger] pb[i]).id,
    ) && b.reg()[pb[i].id] == pb[i].cell by {
        let i0 = if i < k {
            i
        } else {
            i + 1
        };
        assert(pb[i] == pa[i0]);
        assert(a.reg().dom().contains(pa[i0].id) && a.reg()[pa[i0].id] == pa[i0].cell);
        if i0 < k {
            assert(pa[i0].id != pa[k].id);
        } else {
            assert(pa[k].id != pa[i0].id);
        }
    }
    assert forall|i: int, j: int| 0 <= i < j < pb.len() implies (#[trigger] pb[i]).id != (
    #[trigger] pb[j]).id by {
        let i0 = if i < k {
            i
        } else {
            i + 1
        };
        let j0 = if j < k {
            j
        } else {
            j + 1
        };
        assert(pb[i] == pa[i0] && pb[j] == pa[j0]);
        assert(pa[i0].id != pa[j0].id);
    }
    assert forall|i: int, j: int| 0 <= i < qa.len() && 0 <= j < pb.len() implies (
    #[trigger] qa[i]).info.id != (#[trigger] pb[j]).id by {
        let j0 = if j < k {
            j
        } else {
            j + 1
        };
        assert(pb[j] == pa[j0]);
        assert(qa[i].info.id != pa[j0].id);
    }
}

/// The active-job part of [`lemma_wf_evict`].
proof fn lemma_wf_active_evict(a: &Pipeline, b: &Pipeline, k: int, w: QueuedJobInfo)
    requires
        a.wf(),
        a.wf_active(w),
        0 <= k < a.spec_pending().len(),
        b.reg() == a.reg().remove(a.spec_pending()[k].id),
        b.spec_pending() == a.spec_pending().remove(k),
        b.gate_abs() == a.gate_abs(),
        b.spec_cells() == a.spec_cells(),
    ensures
        b.wf_active(w),
{
    let pa = a.spec_pending();
    let pb = b.spec_pending();
    assert(pa[k].id != w.info.id);
    assert forall|i: int| 0 <= i < pb.len() implies (#[trigger] pb[i]).id != w.info.id by {
        let i0 = if i < k {
            i
        } else {
            i + 1
        };
        assert(pb[i] == pa[i0]);
        assert(pa[i0].id != w.info.id);
    }
}


/// Borrows the cell at `i` mutably; the vector afterwards holds whatever
/// the borrow was left as.
fn cell_at<'a>(cells: &'a mut Vec<StatusCell>, i: usize) -> (element: &'a mut StatusCell)
    requires
        i < old(cells).len(),
    ensures
        *element == old(cells)@[i as int],
        final(cells)@ == old(cells)@.update(i as int, *final(element)),
{
    &mut cells[i]
}

impl Pipeline {
    /// Writes `next` to the cell behind `h`, leaving every other cell as it
    /// was. A cell sees at most three writes, so the version cannot wrap.
    fn write_cell(&mut self, h: u64, next: Status)
        requires
            old(self).valid_handle(h),
            old(self).spec_cells()[h as int].wf(),
            crate::status::step_ok(old(self).cell_value(h), next),
        ensures
            final(self).spec_cells().len() == old(self).spec_cells().len(),
            forall|i: int|
                0 <= i < old(self).spec_cells().len() && i != h as int ==> final(self).spec_cells()[i] == old(self).spec_cells()[i],
            final(self).spec_cells()[h as int].wf(),
            final(self).cell_value(h) == next,
            final(self).cell_history(h) == old(self).cell_history(h).push(next),
            final(self).reg() == old(self).reg(),
            final(self).gate_abs() == old(self).gate_abs(),
            final(self).spec_worker() == old(self).spec_worker(),
            final(self).spec_pending() == old(self).spec_pending(),
            final(self).spec_shutdown() == old(self).spec_shutdown(),
            final(self).spec_limits() == old(self).spec_limits(),
            final(self).spec_grace_ms() == old(self).spec_grace_ms(),
    {
        proof {
            lemma_trace_bounded(old(self).spec_cells()[h as int].spec_history());
        }
        let n: usize = self.cells.len();
        proof {
            assert((h as int) < (n as int));
        }
        let idx: usize = h as usize;
        let c = cell_at(&mut self.cells, idx);
        c.write(next);
    }

    /// The worker asks for its next job: the cooperative race between "next
    /// job" and "shutdown", shutdown first. On a dequeue the job's cell is
    /// written `Processing` before anything else happens to it.
    pub fn worker_next(&mut self) -> (r: WorkerTurn)
        requires
            old(self).wf(),
            old(self).spec_worker() is Idle,
        ensures
            final(self).wf(),
            final(self).reg() == old(self).reg(),
            final(self).spec_pending() == old(self).spec_pending(),
            final(self).spec_shutdown() == old(self).spec_shutdown(),
            final(self).spec_limits() == old(self).spec_limits(),
            final(self).spec_grace_ms() == old(self).spec_grace_ms(),
            old(self).spec_shutdown().spec_worker() ==> r == WorkerTurn::ShuttingDown && *final(self) == *old(self),
            !old(self).spec_shutdown().spec_worker() && old(self).gate_abs().queue.len() == 0
                ==> r == WorkerTurn::Empty && final(self).gate_abs() == old(self).gate_abs()
                && final(self).spec_cells() == old(self).spec_cells()
                && final(self).spec_worker() == old(self).spec_worker(),
            !old(self).spec_shutdown().spec_worker() && old(self).gate_abs().queue.len() > 0
                ==> {
                let job = old(self).gate_abs().queue[0];
                &&& r == WorkerTurn::Started
                &&& final(self).gate_abs() == gate_step(old(self).gate_abs(), GateOp::Dequeue)
                &&& final(self).spec_worker() == (WorkerPhase::Rendering { job })
                &&& final(self).spec_cells().len() == old(self).spec_cells().len()
                &&& forall|i: int|
                    0 <= i < old(self).spec_cells().len() && i != job.cell as int ==> final(self).spec_cells()[i] == old(self).spec_cells()[i]
                &&& final(self).cell_history(job.cell) == old(self).cell_history(job.cell).push(
                    Status::Processing,
                )
                &&& final(self).cell_value(job.cell) == Status::Processing
            },
    {
        if self.shutdown.worker_cancelled() {
            return WorkerTurn::ShuttingDown;
        }
        match self.gate.dequeue() {
            None => {
                proof {
                    lemma_wf_frame(old(self), self);
                }
                WorkerTurn::Empty
            },
            Some(job) => {
                let ghost jg = job;
                let h = job.cell;
                proof {
                    assert(old(self).gate_abs().queue[0] == jg);
                    assert(old(self).valid_handle(jg.cell));
                    assert(old(self).cell_value(jg.cell) == Status::Queued);
                    assert(old(self).spec_cells()[jg.cell as int].wf());
                }
                self.write_cell(h, Status::Processing);
                self.worker = WorkerPhase::Rendering { job };
                proof {
                    lemma_wf_dequeue(old(self), self, jg);
                }
                WorkerTurn::Started
            },
        }
    }

    /// Records how the render step ended: a produced file moves the job to
    /// `Uploading`; a timeout or failure fixes the terminal failure now and
    /// heads straight for cleanup — the upload stage is skipped.
    pub fn render_finished(&mut self, outcome: RenderOutcome)
        requires
            old(self).wf(),
            old(self).spec_worker() is Rendering,
        ensures
            final(self).wf(),
            final(self).reg() == old(self).reg(),
            final(self).gate_abs() == old(self).gate_abs(),
            final(self).spec_pending() == old(self).spec_pending(),
            final(self).spec_shutdown() == old(self).spec_shutdown(),
            final(self).spec_limits() == old(self).spec_limits(),
            final(self).spec_grace_ms() == old(self).spec_grace_ms(),
            old(self).spec_worker() matches WorkerPhase::Rendering { job } ==> match outcome {
                RenderOutcome::Produced => {
                    &&& final(self).spec_worker() == (WorkerPhase::Uploading { job })
                    &&& final(self).spec_cells().len() == old(self).spec_cells().len()
                    &&& forall|i: int|
                        0 <= i < old(self).spec_cells().len() && i != job.cell as int ==> final(self).spec_cells()[i] == old(self).spec_cells()[i]
                    &&& final(self).cell_history(job.cell) == old(self).cell_history(
                        job.cell,
                    ).push(Status::Uploading)
                    &&& final(self).cell_value(job.cell) == Status::Uploading
                },
                RenderOutcome::TimedOut { elapsed_ms, message } => {
                    &&& final(self).spec_worker() == (WorkerPhase::Cleanup {
                        job,
                        outcome: Outcome::Failure(
                            Failure {
                                kind: FailureKind::VideoTimeout {
                                    value_ms: elapsed_ms,
                                    max_ms: old(self).spec_limits().processing.time,
                                },
                                message,
                            },
                        ),
                    })
                    &&& final(self).spec_cells() == old(self).spec_cells()
                },
                RenderOutcome::Failed { error, message } => {
                    &&& final(self).spec_worker() == (WorkerPhase::Cleanup {
                        job,
                        outcome: Outcome::Failure(
                            Failure { kind: spec_render_failure_kind(error), message },
                        ),
                    })
                    &&& final(self).spec_cells() == old(self).spec_cells()
                },
            },
    {
        let mut phase = WorkerPhase::Idle;
        core::mem::swap(&mut phase, &mut self.worker);
        let job = match phase {
            WorkerPhase::Rendering { job } => job,
            _ => vstd::pervasive::unreached(),
        };
        let ghost jg = job;
        proof {
            assert(old(self).wf_active(jg));
            assert(old(self).spec_cells()[jg.cell as int].wf());
        }
        match outcome {
            RenderOutcome::Produced => {
                let h = job.cell;
                self.write_cell(h, Status::Uploading);
                self.worker = WorkerPhase::Uploading { job };
            },
            RenderOutcome::TimedOut { elapsed_ms, message } => {
                let kind = FailureKind::VideoTimeout {
                    value_ms: elapsed_ms,
                    max_ms: self.limits.processing.time,
                };
                self.worker = WorkerPhase::Cleanup {
                    job,
                    outcome: Outcome::Failure(Failure { kind, message }),
                };
            },
            RenderOutcome::Failed { error, message } => {
                let kind = match error {
                    RenderError::Spawn => FailureKind::VideoSpawn,
                    RenderError::Io => FailureKind::VideoIo,
                    RenderError::ImageParse => FailureKind::VideoImageParse,
                    RenderError::Join => FailureKind::VideoJoin,
                    RenderError::Ffmpeg => FailureKind::VideoFfmpeg,
                };
                self.worker = WorkerPhase::Cleanup {
                    job,
                    outcome: Outcome::Failure(Failure { kind, message }),
                };
            },
        }
        proof {
            lemma_wf_stage(old(self), self, jg);
        }
    }

    /// Records how the publish step ended. Either way the job heads for
    /// cleanup; the terminal status is written only after it.
    pub fn upload_finished(&mut self, outcome: UploadOutcome)
        requires
            old(self).wf(),
            old(self).spec_worker() is Uploading,
        ensures
            final(self).wf(),
            final(self).reg() == old(self).reg(),
            final(self).gate_abs() == old(self).gate_abs(),
            final(self).spec_cells() == old(self).spec_cells(),
            final(self).spec_pending() == old(self).spec_pending(),
            final(self).spec_shutdown() == old(self).spec_shutdown(),
            final(self).spec_limits() == old(self).spec_limits(),
            final(self).spec_grace_ms() == old(self).spec_grace_ms(),
            old(self).spec_worker() matches WorkerPhase::Uploading { job } ==> final(self).spec_worker() == (WorkerPhase::Cleanup { job, outcome: spec_upload_outcome(outcome) }),
    {
        let mut phase = WorkerPhase::Idle;
        core::mem::swap(&mut phase, &mut self.worker);
        let job = match phase {
            WorkerPhase::Uploading { job } => job,
            _ => vstd::pervasive::unreached(),
        };
        let ghost jg = job;
        proof {
            assert(old(self).wf_active(jg));
        }
        let recorded = match outcome {
            UploadOutcome::Published { video_id } => Outcome::Success { video_id },
            UploadOutcome::RemoteError { remote_message, message } => Outcome::Failure(
                Failure { kind: FailureKind::UploadApi { remote_message }, message },
            ),
            UploadOutcome::TransportError { message } => Outcome::Failure(
                Failure { kind: FailureKind::UploadTransport, message },
            ),
            UploadOutcome::ParseError { message } => Outcome::Failure(
                Failure { kind: FailureKind::UploadParse, message },
            ),
            UploadOutcome::MissingLocation { message } => Outcome::Failure(
                Failure { kind: FailureKind::UploadOther, message },
            ),
        };
        self.worker = WorkerPhase::Cleanup { job, outcome: recorded };
        proof {
            lemma_wf_stage(old(self), self, jg);
        }
    }

    /// The terminal step, after best-effort artifact removal: the outcome
    /// fixed at the previous step is written as `Done` exactly once, the
    /// job's slot frees at last, and the registry entry's eviction timer
    /// starts. The cleanup report is the shell's log; it cannot change the
    /// outcome.
    pub fn finish_job(&mut self, report: CleanupReport, now_ms: u64)
        requires
            old(self).wf(),
            old(self).spec_worker() is Cleanup,
        ensures
            final(self).wf(),
            final(self).reg() == old(self).reg(),
            final(self).spec_shutdown() == old(self).spec_shutdown(),
            final(self).spec_limits() == old(self).spec_limits(),
            final(self).spec_grace_ms() == old(self).spec_grace_ms(),
            final(self).gate_abs() == gate_step(old(self).gate_abs(), GateOp::Finish),
            final(self).spec_worker() is Idle,
            old(self).spec_worker() matches WorkerPhase::Cleanup { job, outcome } ==> {
                &&& final(self).spec_cells().len() == old(self).spec_cells().len()
                &&& forall|i: int|
                    0 <= i < old(self).spec_cells().len() && i != job.cell as int ==> final(self).spec_cells()[i] == old(self).spec_cells()[i]
                &&& final(self).cell_history(job.cell) == old(self).cell_history(job.cell).push(
                    Status::Done(outcome),
                )
                &&& final(self).cell_value(job.cell) == Status::Done(outcome)
                &&& final(self).spec_pending() == old(self).spec_pending().push(
                    PendingEviction { id: job.info.id, cell: job.cell, done_at_ms: now_ms },
                )
            },
    {
        let _ = report;
        let mut phase = WorkerPhase::Idle;
        core::mem::swap(&mut phase, &mut self.worker);
        let (job, recorded) = match phase {
            WorkerPhase::Cleanup { job, outcome } => (job, outcome),
            _ => vstd::pervasive::unreached(),
        };
        let ghost jg = job;
        let id = job.info.id;
        let h = job.cell;
        proof {
            assert(old(self).wf_active(jg));
            assert(old(self).spec_cells()[jg.cell as int].wf());
        }
        self.write_cell(h, Status::Done(recorded));
        self.gate.finish();
        self.pending.push(PendingEviction { id, cell: h, done_at_ms: now_ms });
        proof {
            lemma_wf_finish(old(self), self, jg, now_ms);
        }
    }

    /// Reclaims the registry entry of the `i`-th pending eviction. Allowed
    /// only once its timer race has resolved: the grace period strictly
    /// elapsed, or the worker subtree cancelled. The entry is necessarily
    /// still present — nothing else ever removes one.
    pub fn fire_eviction(&mut self, i: usize, now_ms: u64)
        requires
            old(self).wf(),
            i < old(self).spec_pending().len(),
            spec_eviction_due(
                now_ms,
                old(self).spec_pending()[i as int].done_at_ms,
                old(self).spec_grace_ms(),
                old(self).spec_shutdown().spec_worker(),
            ),
        ensures
            final(self).wf(),
            final(self).reg() == old(self).reg().remove(
                old(self).spec_pending()[i as int].id,
            ),
            final(self).spec_pending() == old(self).spec_pending().remove(i as int),
            final(self).spec_cells() == old(self).spec_cells(),
            final(self).gate_abs() == old(self).gate_abs(),
            final(self).spec_worker() == old(self).spec_worker(),
            final(self).spec_shutdown() == old(self).spec_shutdown(),
            final(self).spec_limits() == old(self).spec_limits(),
            final(self).spec_grace_ms() == old(self).spec_grace_ms(),
    {
        let e = self.pending.remove(i);
        let removed = self.registry.remove(e.id);
        proof {
            lemma_wf_evict(old(self), self, i as int);
        }
    }

    /// Triggers the whole shutdown: the root signal cancels both children,
    /// the admission gate closes to every later reservation, the worker will stop
    /// dequeuing, and every pending eviction is due at once.
    pub fn trigger_shutdown(&mut self)
        requires
            old(self).wf(),
        ensures
            final(self).wf(),
            final(self).gate_abs() == gate_step(old(self).gate_abs(), GateOp::Close),
            final(self).spec_shutdown().spec_root(),
            final(self).spec_shutdown().spec_acceptor(),
            final(self).spec_shutdown().spec_worker(),
            final(self).same_but_gate_and_shutdown(old(self)),
    {
        self.shutdown.cancel_root();
        self.gate.close();
        proof {
            lemma_wf_frame(old(self), self);
        }
    }
}


impl Pipeline {
    /// Attaches an observer to the job's status stream: the cell handle to
    /// poll, or the absence of any such job. A fresh observer has seen only
    /// the initial `Queued`, so its first poll delivers the latest value
    /// exactly when any transition has happened — a job already `Done`
    /// yields its terminal value at once.
    pub fn attach(&self, id: u128) -> (r: Result<(u64, Observer), WsError>)
        ensures
            self.reg().dom().contains(id) ==> (r matches Ok((h, obs)) && h == self.reg()[id]
                && obs.last_seen == 0),
            !self.reg().dom().contains(id) ==> r == Err::<(u64, Observer), WsError>(
                WsError::NoId(id),
            ),
    {
        match self.registry.get(id) {
            Some(h) => Ok((h, Observer::attach())),
            None => Err(WsError::NoId(id)),
        }
    }

    /// One observer poll against the cell behind `h`: the latest status if
    /// it is news to this observer. Polling does not change the cell, so
    /// repeated reads without an intervening transition yield nothing new
    /// and leave everything as it was.
    pub fn poll_status(&self, h: u64, obs: &mut Observer) -> (r: Option<Status>)
        requires
            self.valid_handle(h),
        ensures
            self.spec_cells()[h as int].spec_version() > old(obs).last_seen ==> r == Some(
                self.cell_value(h),
            ) && final(obs).last_seen == self.spec_cells()[h as int].spec_version(),
            self.spec_cells()[h as int].spec_version() <= old(obs).last_seen ==> r is None
                && *final(obs) == *old(obs),
    {
        let n: usize = self.cells.len();
        proof {
            assert((h as int) < (n as int));
        }
        obs.poll(&self.cells[h as usize])
    }

    /// The latest status of the cell behind `h`, read without a cursor.
    pub fn status_snapshot(&self, h: u64) -> (r: &Status)
        requires
            self.valid_handle(h),
        ensures
            r == self.cell_value(h),
    {
        let n: usize = self.cells.len();
        proof {
            assert((h as int) < (n as int));
        }
        self.cells[h as usize].read()
    }

    /// The job the worker currently holds, if any.
    pub fn current_job(&self) -> (r: Option<&JobInfo>)
        ensures
            match self.spec_worker().spec_job() {
                Some(j) => r matches Some(info) && info == j.info,
                None => r is None,
            },
    {
        match &self.worker {
            WorkerPhase::Idle => None,
            WorkerPhase::Rendering { job } => Some(&job.info),
            WorkerPhase::Uploading { job } => Some(&job.info),
            WorkerPhase::Cleanup { job, .. } => Some(&job.info),
        }
    }

    /// The admission gate's fixed capacity.
    pub fn capacity(&self) -> (r: usize)
        ensures
            r == self.gate_abs().capacity,
    {
        self.gate.capacity()
    }

    /// How many committed jobs wait in the queue.
    pub fn queue_len(&self) -> (r: usize)
        ensures
            r == self.gate_abs().queue.len(),
    {
        self.gate.queue_len()
    }

    /// Whether the admission gate is closed to new admissions.
    pub fn is_closed(&self) -> (r: bool)
        ensures
            r == self.gate_abs().closed,
    {
        self.gate.is_closed()
    }

    /// How many eviction timers are pending.
    pub fn pending_len(&self) -> (r: usize)
        ensures
            r == self.spec_pending().len(),
    {
        self.pending.len()
    }

    /// The `i`-th pending eviction.
    pub fn pending_at(&self, i: usize) -> (r: PendingEviction)
        requires
            i < self.spec_pending().len(),
        ensures
            r == self.spec_pending()[i as int],
    {
        self.pending[i]
    }

    /// Whether the `i`-th pending eviction may fire now: its grace period
    /// strictly elapsed, or the worker subtree cancelled.
    pub fn eviction_ready(&self, i: usize, now_ms: u64) -> (r: bool)
        requires
            i < self.spec_pending().len(),
        ensures
            r == spec_eviction_due(
                now_ms,
                self.spec_pending()[i as int].done_at_ms,
                self.spec_grace_ms(),
                self.spec_shutdown().spec_worker(),
            ),
    {
        crate::registry::eviction_due(
            now_ms,
            self.pending[i].done_at_ms,
            self.grace_ms,
            self.shutdown.worker_cancelled(),
        )
    }

    /// Whether the worker subtree has been told to stop.
    pub fn worker_cancelled(&self) -> (r: bool)
        ensures
            r == self.spec_shutdown().spec_worker(),
    {
        self.shutdown.worker_cancelled()
    }

    /// Every job's recorded status history is a valid trace: it starts at
    /// `Queued`, moves strictly forward through the pipeline, and holds a
    /// terminal status only as its last entry — `Done` is written at most
    /// once and never overwritten.
    pub proof fn lemma_status_history_shape(&self, h: u64)
        requires
            self.wf(),
            self.valid_handle(h),
        ensures
            crate::cell::valid_trace(self.cell_history(h)),
            forall|i: int, j: int|
                0 <= i < j < self.cell_history(h).len() ==> self.cell_history(h)[i].rank()
                    < self.cell_history(h)[j].rank(),
            forall|i: int|
                0 <= i < self.cell_history(h).len() - 1 ==> !(#[trigger] self.cell_history(
                    h,
                )[i]).spec_is_done(),
    {
        assert(self.spec_cells()[h as int].wf());
        crate::cell::lemma_trace_shape(self.cell_history(h));
    }

    /// A pending eviction's entry is still retrievable: the registry keeps
    /// every finished job's entry until its own timer fires — eviction is
    /// the only way an entry disappears.
    pub proof fn lemma_pending_retrievable(&self, i: int)
        requires
            self.wf(),
            0 <= i < self.spec_pending().len(),
        ensures
            self.reg().dom().contains(self.spec_pending()[i].id),
            self.reg()[self.spec_pending()[i].id] == self.spec_pending()[i].cell,
    {
    }
}

} // verus!
