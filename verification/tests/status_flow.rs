//! The status life of a job: monotone transitions, terminal delivery to
//! observers whenever they attach, idempotent reads, timed eviction, and
//! the exact wire form of the terminal failure of a timed-out render.

use musngr::auth::TokenClaim;
use musngr::config::{
    AudioLengthLimits, Dims, FrameConfig, ImageSizeLimits, LimitsConfig, ProcessingLimits,
    UploadLimits,
};
use musngr::errors::WsError;
use musngr::job::JobInfo;
use musngr::meta::{Metadata, Privacy};
use musngr::pipeline::{
    AdmissionCheck, CleanupReport, Pipeline, RenderError, RenderOutcome, UploadOutcome, WorkerTurn,
};
use musngr::status::{FailureKind, FailureStage, Outcome, Status};
use musngr::wire::encode_status;

fn limits2() -> LimitsConfig {
    LimitsConfig {
        image: ImageSizeLimits {
            min_resolution: Dims { w: 100, h: 100 },
            max_resolution: Dims { w: 10000, h: 10000 },
            max_decoded: 40_000_000,
        },
        audio: AudioLengthLimits { min_ms: 0, max_ms: 7_200_000 },
        upload: UploadLimits { max_image: 10_000_000, max_audio: 100_000_000 },
        processing: ProcessingLimits { queue_size: 2, time: 60_000 },
    }
}

fn job(id: u128) -> JobInfo {
    JobInfo {
        id,
        frame: FrameConfig::default(),
        limits: limits2(),
        image_path: String::from("temp/image.png"),
        image_size: Dims { w: 640, h: 480 },
        audio_path: String::from("temp/audio.mp3"),
        output_path: String::from("temp/output.mkv"),
        audio_length_ms: 90_000,
        meta: Metadata {
            filename: String::from("audio.mp3"),
            title: None,
            description: String::from(""),
            privacy: Privacy::Unlisted,
            tags: vec![],
            category: 10,
            made_for_kids: false,
            notify_subs: false,
        },
        auth: TokenClaim {
            scope: vec![],
            access_token: String::from("t"),
            expires_at_ms: u64::MAX,
            refresh_token: String::from("r"),
            user_id: String::from("u"),
        },
    }
}

fn accept_job(p: &mut Pipeline, id: u128) -> u64 {
    match p.check_admission(0, &job(id).auth) {
        AdmissionCheck::Proceed { permit, .. } => p.submit_job(permit, job(id)),
        _ => panic!("admission expected to proceed"),
    }
}

#[test]
fn statuses_move_forward_and_done_once() {
    let mut p = Pipeline::new(limits2(), 900_000);
    let h = accept_job(&mut p, 11);
    let mut seen: Vec<Status> = vec![p.status_snapshot(h).clone()];

    assert_eq!(p.worker_next(), WorkerTurn::Started);
    seen.push(p.status_snapshot(h).clone());
    p.render_finished(RenderOutcome::Produced);
    seen.push(p.status_snapshot(h).clone());
    p.upload_finished(UploadOutcome::Published { video_id: String::from("vid") });
    p.finish_job(
        CleanupReport { image_removed: true, audio_removed: true, video_removed: true },
        100,
    );
    seen.push(p.status_snapshot(h).clone());

    assert_eq!(
        seen,
        vec![
            Status::Queued,
            Status::Processing,
            Status::Uploading,
            Status::Done(Outcome::Success { video_id: String::from("vid") }),
        ]
    );
    let done_count = seen.iter().filter(|s| matches!(s, Status::Done(_))).count();
    assert_eq!(done_count, 1);
}

#[test]
fn observer_attaching_late_gets_terminal_at_once() {
    let mut p = Pipeline::new(limits2(), 900_000);
    let id = 21u128;
    accept_job(&mut p, id);
    assert_eq!(p.worker_next(), WorkerTurn::Started);
    p.render_finished(RenderOutcome::Produced);
    p.upload_finished(UploadOutcome::Published { video_id: String::from("late") });
    p.finish_job(
        CleanupReport { image_removed: true, audio_removed: true, video_removed: true },
        500,
    );

    let (h, mut obs) = p.attach(id).expect("still registered");
    let first = p.poll_status(h, &mut obs);
    assert_eq!(
        first,
        Some(Status::Done(Outcome::Success { video_id: String::from("late") }))
    );
}

#[test]
fn observer_attaching_early_sees_every_transition_in_order() {
    let mut p = Pipeline::new(limits2(), 900_000);
    let id = 22u128;
    accept_job(&mut p, id);
    let (h, mut obs) = p.attach(id).expect("registered at admission");
    let mut received: Vec<Status> = Vec::new();

    assert_eq!(p.worker_next(), WorkerTurn::Started);
    if let Some(s) = p.poll_status(h, &mut obs) {
        received.push(s);
    }
    p.render_finished(RenderOutcome::Produced);
    if let Some(s) = p.poll_status(h, &mut obs) {
        received.push(s);
    }
    p.upload_finished(UploadOutcome::Published { video_id: String::from("ok") });
    p.finish_job(
        CleanupReport { image_removed: true, audio_removed: true, video_removed: true },
        700,
    );
    if let Some(s) = p.poll_status(h, &mut obs) {
        received.push(s);
    }

    assert_eq!(
        received,
        vec![
            Status::Processing,
            Status::Uploading,
            Status::Done(Outcome::Success { video_id: String::from("ok") }),
        ]
    );
}

#[test]
fn repeated_reads_yield_identical_output() {
    let mut p = Pipeline::new(limits2(), 900_000);
    let id = 23u128;
    let h = accept_job(&mut p, id);
    assert_eq!(p.status_snapshot(h), p.status_snapshot(h));

    let (h2, mut obs) = p.attach(id).expect("registered");
    assert_eq!(h, h2);
    assert_eq!(p.poll_status(h2, &mut obs), None);
    assert_eq!(p.poll_status(h2, &mut obs), None);

    assert_eq!(p.worker_next(), WorkerTurn::Started);
    assert_eq!(p.poll_status(h2, &mut obs), Some(Status::Processing));
    // no transition in between: nothing new, no side effect
    assert_eq!(p.poll_status(h2, &mut obs), None);
    assert_eq!(p.status_snapshot(h), &Status::Processing);
    assert_eq!(p.status_snapshot(h), &Status::Processing);
}

#[test]
fn timed_out_render_fails_terminally_and_cleanup_cannot_mask_it() {
    let mut p = Pipeline::new(limits2(), 900_000);
    let id = 31u128;
    let h = accept_job(&mut p, id);
    assert_eq!(p.worker_next(), WorkerTurn::Started);
    p.render_finished(RenderOutcome::TimedOut {
        elapsed_ms: 61_000,
        message: String::from("video took too long to process"),
    });
    // cleanup runs whatever happened; a failed removal changes nothing
    p.finish_job(
        CleanupReport { image_removed: false, audio_removed: false, video_removed: false },
        900,
    );
    let s = p.status_snapshot(h).clone();
    match &s {
        Status::Done(Outcome::Failure(f)) => {
            assert_eq!(
                f.kind,
                FailureKind::VideoTimeout { value_ms: 61_000, max_ms: 60_000 }
            );
            assert_eq!(f.kind.stage(), FailureStage::Video);
        },
        other => panic!("expected a terminal failure, got {other:?}"),
    }
    let wire = encode_status(&s);
    assert_eq!(
        wire,
        "{\"state\":\"done\",\"success\":false,\"error\":{\"error\":\"timeout\",\
         \"stage\":\"video\",\"value\":61000,\"max\":60000,\
         \"message\":\"video took too long to process\"}}"
    );
}

#[test]
fn render_error_skips_upload_stage() {
    let mut p = Pipeline::new(limits2(), 900_000);
    let id = 32u128;
    let h = accept_job(&mut p, id);
    assert_eq!(p.worker_next(), WorkerTurn::Started);
    p.render_finished(RenderOutcome::Failed {
        error: RenderError::Ffmpeg,
        message: String::from("ffmpeg error: exit status: 1"),
    });
    // the cell never shows Uploading for a failed render
    assert_eq!(p.status_snapshot(h), &Status::Processing);
    p.finish_job(
        CleanupReport { image_removed: true, audio_removed: true, video_removed: false },
        1_000,
    );
    match p.status_snapshot(h) {
        Status::Done(Outcome::Failure(f)) => assert_eq!(f.kind, FailureKind::VideoFfmpeg),
        other => panic!("expected a terminal failure, got {other:?}"),
    }
}

#[test]
fn entry_retrievable_until_grace_elapsed_then_gone() {
    let mut p = Pipeline::new(limits2(), 500);
    let id = 41u128;
    accept_job(&mut p, id);
    assert_eq!(p.worker_next(), WorkerTurn::Started);
    p.render_finished(RenderOutcome::Produced);
    p.upload_finished(UploadOutcome::Published { video_id: String::from("v") });
    p.finish_job(
        CleanupReport { image_removed: true, audio_removed: true, video_removed: true },
        1_000,
    );

    assert!(p.attach(id).is_ok());
    assert_eq!(p.pending_len(), 1);
    // not yet due within the grace period, not even at its exact end
    assert!(!p.eviction_ready(0, 1_400));
    assert!(!p.eviction_ready(0, 1_500));
    assert!(p.attach(id).is_ok());
    // strictly after the grace period the timer fires and the entry goes
    assert!(p.eviction_ready(0, 1_501));
    p.fire_eviction(0, 1_501);
    assert_eq!(p.attach(id).unwrap_err(), WsError::NoId(id));
    assert_eq!(p.pending_len(), 0);
}

#[test]
fn shutdown_makes_every_pending_eviction_due_at_once() {
    let mut p = Pipeline::new(limits2(), 900_000);
    let id = 42u128;
    accept_job(&mut p, id);
    assert_eq!(p.worker_next(), WorkerTurn::Started);
    p.render_finished(RenderOutcome::Produced);
    p.upload_finished(UploadOutcome::Published { video_id: String::from("v") });
    p.finish_job(
        CleanupReport { image_removed: true, audio_removed: true, video_removed: true },
        1_000,
    );
    assert!(!p.eviction_ready(0, 1_001));
    p.trigger_shutdown();
    assert!(p.eviction_ready(0, 1_001));
    p.fire_eviction(0, 1_001);
    assert_eq!(p.attach(id).unwrap_err(), WsError::NoId(id));
}
