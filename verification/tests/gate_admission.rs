//! Admission behaviour: exact capacity accounting, permanence of closure,
//! and the reserve/commit/drain life cycle.

use musngr::auth::TokenClaim;
use musngr::config::{
    AudioLengthLimits, Dims, FrameConfig, ImageSizeLimits, LimitsConfig, ProcessingLimits,
    UploadLimits,
};
use musngr::gate::{AdmissionGate, ReserveDecision};
use musngr::job::JobInfo;
use musngr::meta::{Metadata, Privacy};
use musngr::pipeline::{
    AdmissionCheck, CleanupReport, Pipeline, RenderOutcome, UploadOutcome, WorkerTurn,
};

fn sample_limits(queue_size: usize, time_ms: u64) -> LimitsConfig {
    LimitsConfig {
        image: ImageSizeLimits {
            min_resolution: Dims { w: 100, h: 100 },
            max_resolution: Dims { w: 10000, h: 10000 },
            max_decoded: 40_000_000,
        },
        audio: AudioLengthLimits { min_ms: 0, max_ms: 7_200_000 },
        upload: UploadLimits { max_image: 10_000_000, max_audio: 100_000_000 },
        processing: ProcessingLimits { queue_size, time: time_ms },
    }
}

fn sample_claim(expires_at_ms: u64) -> TokenClaim {
    TokenClaim {
        scope: vec![String::from("openid")],
        access_token: String::from("token"),
        expires_at_ms,
        refresh_token: String::from("refresh"),
        user_id: String::from("user"),
    }
}

fn sample_job(id: u128) -> JobInfo {
    JobInfo {
        id,
        frame: FrameConfig::default(),
        limits: sample_limits(4, 60_000),
        image_path: String::from("temp/image.png"),
        image_size: Dims { w: 640, h: 480 },
        audio_path: String::from("temp/audio.mp3"),
        output_path: String::from("temp/output.mkv"),
        audio_length_ms: 90_000,
        meta: Metadata {
            filename: String::from("audio.mp3"),
            title: Some(String::from("a title")),
            description: String::from("a description"),
            privacy: Privacy::Public,
            tags: vec![],
            category: 10,
            made_for_kids: false,
            notify_subs: false,
        },
        auth: sample_claim(u64::MAX),
    }
}

#[test]
fn exactly_capacity_reserves_succeed() {
    let mut gate = AdmissionGate::new(3);
    let mut permits = Vec::new();
    for _ in 0..3 {
        match gate.try_reserve() {
            ReserveDecision::Reserved(p) => permits.push(p),
            _ => panic!("a slot should be granted while capacity remains"),
        }
    }
    match gate.try_reserve() {
        ReserveDecision::Full(c) => assert_eq!(c, 3),
        _ => panic!("the fourth attempt must report Full"),
    }
    // abandoning one permit frees exactly one slot
    let p = permits.pop().unwrap();
    gate.abandon(p);
    assert!(matches!(gate.try_reserve(), ReserveDecision::Reserved(_)));
    assert!(matches!(gate.try_reserve(), ReserveDecision::Full(3)));
}

#[test]
fn closed_gate_stays_closed() {
    let mut gate = AdmissionGate::new(2);
    gate.close();
    for _ in 0..5 {
        match gate.try_reserve() {
            ReserveDecision::Closed => {},
            ReserveDecision::Full(_) => panic!("a closed gate must not report Full"),
            ReserveDecision::Reserved(_) => panic!("a closed gate must not grant"),
        }
    }
    assert!(gate.is_closed());
}

fn submit(p: &mut Pipeline, id: u128, now: u64) -> Result<u64, &'static str> {
    let claim = sample_claim(u64::MAX);
    match p.check_admission(now, &claim) {
        AdmissionCheck::Proceed { permit, refresh_needed } => {
            assert!(!refresh_needed);
            Ok(p.submit_job(permit, sample_job(id)))
        },
        AdmissionCheck::RejectedFull(_) => Err("full"),
        AdmissionCheck::RejectedClosed => Err("closed"),
    }
}

fn drain_one(p: &mut Pipeline, now: u64) {
    assert_eq!(p.worker_next(), WorkerTurn::Started);
    p.render_finished(RenderOutcome::Produced);
    p.upload_finished(UploadOutcome::Published { video_id: String::from("vid123") });
    p.finish_job(
        CleanupReport { image_removed: true, audio_removed: true, video_removed: true },
        now,
    );
}

#[test]
fn slot_frees_only_when_job_fully_drained() {
    let mut p = Pipeline::new(sample_limits(2, 60_000), 900_000);
    submit(&mut p, 1, 0).expect("job A fits");
    submit(&mut p, 2, 0).expect("job B fits");
    assert_eq!(submit(&mut p, 3, 0), Err("full"));

    // dequeuing A does not free its slot yet
    assert_eq!(p.worker_next(), WorkerTurn::Started);
    p.render_finished(RenderOutcome::Produced);
    assert_eq!(submit(&mut p, 4, 0), Err("full"));

    // finishing A frees exactly one slot
    p.upload_finished(UploadOutcome::Published { video_id: String::from("vidA") });
    p.finish_job(
        CleanupReport { image_removed: true, audio_removed: true, video_removed: false },
        1_000,
    );
    submit(&mut p, 4, 0).expect("job D fits after A drained");
    assert_eq!(submit(&mut p, 5, 0), Err("full"));

    // drain the rest so nothing is left half-way
    drain_one(&mut p, 2_000);
    drain_one(&mut p, 3_000);
}

#[test]
fn shutdown_rejects_and_stops_worker() {
    let mut p = Pipeline::new(sample_limits(2, 60_000), 900_000);
    submit(&mut p, 7, 0).expect("accepted before shutdown");
    p.trigger_shutdown();
    assert_eq!(submit(&mut p, 8, 0), Err("closed"));
    // the worker exits instead of dequeuing the committed job
    assert_eq!(p.worker_next(), WorkerTurn::ShuttingDown);
}

#[test]
fn worker_finds_nothing_on_empty_queue() {
    let mut p = Pipeline::new(sample_limits(2, 60_000), 900_000);
    assert_eq!(p.worker_next(), WorkerTurn::Empty);
}
