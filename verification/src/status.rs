//! The closed set of states a job moves through, the outcome taxonomy, and
//! the transition relation that every status writer must respect.

use vstd::prelude::*;

verus! {

/// Where in the pipeline a failure happened.
#[derive(Debug, Clone, Copy, PartialEq, Eq)]
pub enum FailureStage {
    /// The render step (external transcoder invocation).
    Video,
    /// The publish step (remote upload protocol).
    Upload,
    /// Bookkeeping inside the worker itself.
    Internal,
}

/// The closed taxonomy of pipeline failures. Each variant carries the data
/// its wire encoding needs and nothing else.
#[derive(Debug, PartialEq, Eq)]
pub enum FailureKind {
    /// The render ran past the configured limit and was killed.
    VideoTimeout { value_ms: u64, max_ms: u64 },
    /// The external transcoder could not be started.
    VideoSpawn,
    /// Reading or writing the render artifacts failed.
    VideoIo,
    /// The watermark image could not be decoded.
    VideoImageParse,
    /// The blocking helper task for the render was lost.
    VideoJoin,
    /// The transcoder exited with a non-success status.
    VideoFfmpeg,
    /// The remote publish service could not be reached.
    UploadTransport,
    /// The remote publish service answered with a structured error.
    UploadApi { remote_message: String },
    /// The remote answer could not be decoded.
    UploadParse,
    /// A publish-side invariant did not hold (missing session location).
    UploadOther,
    /// The status channel to observers was gone.
    InternalChannel,
    /// Bookkeeping I/O inside the worker failed.
    InternalIo,
}

/// A terminal failure: its kind plus the human-readable message recorded
/// when it was captured.
#[derive(Debug, PartialEq, Eq)]
pub struct Failure {
    pub kind: FailureKind,
    pub message: String,
}

/// What a finished job ended as.
#[derive(Debug, PartialEq, Eq)]
pub enum Outcome {
    /// The publish succeeded; the remote service assigned this identifier.
    Success { video_id: String },
    /// The pipeline failed at some stage.
    Failure(Failure),
}

/// The status of one job, as broadcast to observers.
#[derive(Debug, PartialEq, Eq)]
pub enum Status {
    Queued,
    Processing,
    Uploading,
    Done(Outcome),
}

impl Clone for FailureKind {
    fn clone(&self) -> (r: Self)
        ensures
            r == self,
    {
        match self {
            FailureKind::VideoTimeout { value_ms, max_ms } => FailureKind::VideoTimeout {
                value_ms: *value_ms,
                max_ms: *max_ms,
            },
            FailureKind::VideoSpawn => FailureKind::VideoSpawn,
            FailureKind::VideoIo => FailureKind::VideoIo,
            FailureKind::VideoImageParse => FailureKind::VideoImageParse,
            FailureKind::VideoJoin => FailureKind::VideoJoin,
            FailureKind::VideoFfmpeg => FailureKind::VideoFfmpeg,
            FailureKind::UploadTransport => FailureKind::UploadTransport,
            FailureKind::UploadApi { remote_message } => FailureKind::UploadApi {
                remote_message: remote_message.clone(),
            },
            FailureKind::UploadParse => FailureKind::UploadParse,
            FailureKind::UploadOther => FailureKind::UploadOther,
            FailureKind::InternalChannel => FailureKind::InternalChannel,
            FailureKind::InternalIo => FailureKind::InternalIo,
        }
    }
}

impl Clone for Failure {
    fn clone(&self) -> (r: Self)
        ensures
            r == self,
    {
        Failure { kind: self.kind.clone(), message: self.message.clone() }
    }
}

impl Clone for Outcome {
    fn clone(&self) -> (r: Self)
        ensures
            r == self,
    {
        match self {
            Outcome::Success { video_id } => Outcome::Success { video_id: video_id.clone() },
            Outcome::Failure(f) => Outcome::Failure(f.clone()),
        }
    }
}

impl Clone for Status {
    fn clone(&self) -> (r: Self)
        ensures
            r == self,
    {
        match self {
            Status::Queued => Status::Queued,
            Status::Processing => Status::Processing,
            Status::Uploading => Status::Uploading,
            Status::Done(o) => Status::Done(o.clone()),
        }
    }
}

impl FailureKind {
    /// The stage tag this kind belongs to; the wire encoding groups codes by it.
    pub open spec fn spec_stage(self) -> FailureStage {
        match self {
            FailureKind::VideoTimeout { .. } => FailureStage::Video,
            FailureKind::VideoSpawn => FailureStage::Video,
            FailureKind::VideoIo => FailureStage::Video,
            FailureKind::VideoImageParse => FailureStage::Video,
            FailureKind::VideoJoin => FailureStage::Video,
            FailureKind::VideoFfmpeg => FailureStage::Video,
            FailureKind::UploadTransport => FailureStage::Upload,
            FailureKind::UploadApi { .. } => FailureStage::Upload,
            FailureKind::UploadParse => FailureStage::Upload,
            FailureKind::UploadOther => FailureStage::Upload,
            FailureKind::InternalChannel => FailureStage::Internal,
            FailureKind::InternalIo => FailureStage::Internal,
        }
    }

    /// Executable form of [`Self::spec_stage`].
    pub fn stage(&self) -> (r: FailureStage)
        ensures
            r == self.spec_stage(),
    {
        match self {
            FailureKind::VideoTimeout { .. } => FailureStage::Video,
            FailureKind::VideoSpawn => FailureStage::Video,
            FailureKind::VideoIo => FailureStage::Video,
            FailureKind::VideoImageParse => FailureStage::Video,
            FailureKind::VideoJoin => FailureStage::Video,
            FailureKind::VideoFfmpeg => FailureStage::Video,
            FailureKind::UploadTransport => FailureStage::Upload,
            FailureKind::UploadApi { .. } => FailureStage::Upload,
            FailureKind::UploadParse => FailureStage::Upload,
            FailureKind::UploadOther => FailureStage::Upload,
            FailureKind::InternalChannel => FailureStage::Internal,
            FailureKind::InternalIo => FailureStage::Internal,
        }
    }
}

impl Status {
    /// How far along the pipeline this status is. Transitions only ever
    /// increase it.
    pub open spec fn rank(self) -> int {
        match self {
            Status::Queued => 0,
            Status::Processing => 1,
            Status::Uploading => 2,
            Status::Done(_) => 3,
        }
    }

    /// A terminal status: nothing may be written after it.
    pub open spec fn spec_is_done(self) -> bool {
        self is Done
    }

    /// A terminal status carrying a publish identifier.
    pub open spec fn spec_is_success_done(self) -> bool {
        self matches Status::Done(Outcome::Success { .. })
    }

    /// Executable form of [`Self::spec_is_done`].
    pub fn is_done(&self) -> (r: bool)
        ensures
            r == self.spec_is_done(),
    {
        matches!(self, Status::Done(_))
    }
}

/// The transition relation of the job state machine: the straight path
/// `Queued -> Processing -> Uploading -> Done`, where `Processing` may skip
/// ahead only to a failed `Done`.
pub open spec fn step_ok(from: Status, to: Status) -> bool {
    match (from, to) {
        (Status::Queued, Status::Processing) => true,
        (Status::Processing, Status::Uploading) => true,
        (Status::Processing, Status::Done(Outcome::Failure(_))) => true,
        (Status::Uploading, Status::Done(_)) => true,
        _ => false,
    }
}

/// Every allowed transition moves strictly forward, and none leaves a
/// terminal status; so along any run `Done` is reached at most once and is
/// never left.
pub proof fn lemma_step_monotone(from: Status, to: Status)
    requires
        step_ok(from, to),
    ensures
        from.rank() < to.rank(),
        !from.spec_is_done(),
{
}

} // verus!
