//! What one admitted job carries: the input artifacts, the validated
//! constraints, the publish metadata and the delegated credential snapshot.

use vstd::prelude::*;
use crate::auth::TokenClaim;
use crate::config::{Dims, FrameConfig, LimitsConfig};
use crate::meta::Metadata;

verus! {

/// One composition-and-publish request, immutable once admitted. The
/// identifier is time-ordered and globally unique; paths name the temporary
/// artifacts the worker owns from dequeue through cleanup.
#[derive(Debug, Clone, PartialEq, Eq)]
pub struct JobInfo {
    pub id: u128,
    pub frame: FrameConfig,
    pub limits: LimitsConfig,
    pub image_path: String,
    pub image_size: Dims,
    pub audio_path: String,
    pub output_path: String,
    pub audio_length_ms: u64,
    pub meta: Metadata,
    pub auth: TokenClaim,
}

/// A job as it sits in the queue: the request itself plus the handle of the
/// status cell its transitions are written to.
#[derive(Debug, Clone, PartialEq, Eq)]
pub struct QueuedJobInfo {
    pub info: JobInfo,
    pub cell: u64,
}

/// A successful answer from the publish service: the assigned identifier.
#[derive(Debug, Clone, PartialEq, Eq)]
pub struct UploadResponseSuccess {
    pub id: String,
}

} // verus!
