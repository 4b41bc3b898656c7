//! The wire encodings against exact expected strings, against a real JSON
//! parser, and against the outside crates they model.

use musngr::config::HexBytes;
use musngr::errors::{UploadError, WsError};
use musngr::idtext::{accepted_body, no_job_message, ulid_str, ws_path};
use musngr::status::{Failure, FailureKind, Outcome, Status};
use musngr::wire::{dec_str, encode_status};

#[test]
fn plain_states_encode_exactly() {
    assert_eq!(encode_status(&Status::Queued), "{\"state\":\"queued\"}");
    assert_eq!(encode_status(&Status::Processing), "{\"state\":\"processing\"}");
    assert_eq!(encode_status(&Status::Uploading), "{\"state\":\"uploading\"}");
}

#[test]
fn success_and_failure_encode_exactly() {
    let done = Status::Done(Outcome::Success { video_id: String::from("abc123") });
    assert_eq!(
        encode_status(&done),
        "{\"state\":\"done\",\"success\":true,\"video_id\":\"abc123\"}"
    );

    let failed = Status::Done(Outcome::Failure(Failure {
        kind: FailureKind::UploadApi { remote_message: String::from("quota exceeded") },
        message: String::from("failed to upload video: quota exceeded"),
    }));
    assert_eq!(
        encode_status(&failed),
        "{\"state\":\"done\",\"success\":false,\"error\":{\"error\":\"api\",\
         \"stage\":\"upload\",\"original\":{\"message\":\"quota exceeded\"},\
         \"message\":\"failed to upload video: quota exceeded\"}}"
    );
}

#[test]
fn encoded_statuses_parse_as_json() {
    let cases = vec![
        Status::Queued,
        Status::Done(Outcome::Success { video_id: String::from("x\"y\\z\nw") }),
        Status::Done(Outcome::Failure(Failure {
            kind: FailureKind::VideoTimeout { value_ms: 61_000, max_ms: 60_000 },
            message: String::from("line1\nline2\ttab \"quoted\" \u{1} end"),
        })),
        Status::Done(Outcome::Failure(Failure {
            kind: FailureKind::InternalChannel,
            message: String::from("channel closed"),
        })),
    ];
    for s in &cases {
        let text = encode_status(s);
        let v: serde_json::Value = serde_json::from_str(&text).expect("well-formed JSON");
        assert!(v.get("state").is_some());
    }
    // the escaped message survives the round trip through a real parser
    let failed = Status::Done(Outcome::Failure(Failure {
        kind: FailureKind::VideoIo,
        message: String::from("a\"b\\c\nd\u{1}e"),
    }));
    let v: serde_json::Value = serde_json::from_str(&encode_status(&failed)).unwrap();
    assert_eq!(
        v["error"]["message"].as_str().unwrap(),
        "a\"b\\c\nd\u{1}e"
    );
    assert_eq!(v["error"]["error"].as_str().unwrap(), "io");
    assert_eq!(v["error"]["stage"].as_str().unwrap(), "video");
}

#[test]
fn every_failure_kind_has_a_code_and_stage() {
    let kinds = vec![
        (FailureKind::VideoTimeout { value_ms: 1, max_ms: 2 }, "timeout", "video"),
        (FailureKind::VideoSpawn, "spawn", "video"),
        (FailureKind::VideoIo, "io", "video"),
        (FailureKind::VideoImageParse, "image_parse", "video"),
        (FailureKind::VideoJoin, "join", "video"),
        (FailureKind::VideoFfmpeg, "ffmpeg", "video"),
        (FailureKind::UploadTransport, "reqwest", "upload"),
        (FailureKind::UploadApi { remote_message: String::from("m") }, "api", "upload"),
        (FailureKind::UploadParse, "parse", "upload"),
        (FailureKind::UploadOther, "other", "upload"),
        (FailureKind::InternalChannel, "channel", "internal"),
        (FailureKind::InternalIo, "io", "internal"),
    ];
    for (kind, code, stage) in kinds {
        let s = Status::Done(Outcome::Failure(Failure {
            kind,
            message: String::from("m"),
        }));
        let v: serde_json::Value = serde_json::from_str(&encode_status(&s)).unwrap();
        assert_eq!(v["error"]["error"].as_str().unwrap(), code);
        assert_eq!(v["error"]["stage"].as_str().unwrap(), stage);
    }
}

#[test]
fn decimal_rendering_is_exact() {
    assert_eq!(dec_str(0), "0");
    assert_eq!(dec_str(7), "7");
    assert_eq!(dec_str(61_000), "61000");
    assert_eq!(dec_str(u64::MAX), u64::MAX.to_string());
}

#[test]
fn identifier_text_matches_the_reference_encoder() {
    let samples: Vec<u128> = vec![
        0,
        1,
        31,
        32,
        0x0123_4567_89ab_cdef_0123_4567_89ab_cdef,
        u128::MAX,
    ];
    for id in samples {
        assert_eq!(ulid_str(id), ulid::Ulid::from(id).to_string());
    }
}

#[test]
fn attachment_paths_and_messages() {
    let id: u128 = 0x0123_4567_89ab_cdef_0123_4567_89ab_cdef;
    let text = ulid_str(id);
    assert_eq!(ws_path(id), format!("/ws/{text}"));
    assert_eq!(no_job_message(id), format!("No job found with id {text}"));
    let body = accepted_body(id, &ws_path(id));
    let v: serde_json::Value = serde_json::from_str(&body).unwrap();
    assert_eq!(v["error"], serde_json::Value::Bool(false));
    assert_eq!(v["ws_url"].as_str().unwrap(), format!("/ws/{text}"));
    assert_eq!(v["id"].as_str().unwrap(), text);
}

#[test]
fn refusal_bodies_and_statuses() {
    let full = UploadError::QueueFull(10);
    assert_eq!(full.http_status(), 503);
    assert_eq!(
        full.wire_body(),
        "{\"error\":\"queue_full\",\"max\":10,\"message\":\"Queue is full (max: 10)\"}"
    );

    let closed = UploadError::ChannelClosed;
    assert_eq!(closed.http_status(), 503);
    let v: serde_json::Value = serde_json::from_str(&closed.wire_body()).unwrap();
    assert_eq!(v["error"].as_str().unwrap(), "shutting_down");
    assert_eq!(v["message"].as_str().unwrap(), "Application is shutting down");

    let refresh = UploadError::RefreshError(musngr::auth::OauthRefreshResponseError {
        error: String::from("invalid_grant"),
        error_subtype: None,
        error_message: Some(String::from("revoked")),
    });
    assert_eq!(refresh.http_status(), 401);
    assert!(refresh.clears_token());
    let v: serde_json::Value = serde_json::from_str(&refresh.wire_body()).unwrap();
    assert_eq!(v["error"].as_str().unwrap(), "oauth_error");
    assert_eq!(v["original"]["error"].as_str().unwrap(), "invalid_grant");
    assert!(v["original"]["error_subtype"].is_null());
    assert_eq!(v["original"]["error_message"].as_str().unwrap(), "revoked");

    let unauthorized = UploadError::Unauthorized;
    assert_eq!(unauthorized.http_status(), 401);
    assert!(!unauthorized.clears_token());

    let too_large = UploadError::FileTooLarge { subject: String::from("image"), max: 10_000_000 };
    assert_eq!(too_large.http_status(), 413);
    let v: serde_json::Value = serde_json::from_str(&too_large.wire_body()).unwrap();
    assert_eq!(v["subject"].as_str().unwrap(), "image");
    assert_eq!(v["max"], serde_json::Value::from(10_000_000u64));

    let ws = WsError::NoId(7);
    let v: serde_json::Value = serde_json::from_str(&ws.wire_body()).unwrap();
    assert_eq!(v["error"].as_str().unwrap(), "not_found");
    assert_eq!(v["id"].as_str().unwrap(), ulid::Ulid::from(7u128).to_string());
}

#[test]
fn hex_bytes_round_trip_and_refusals() {
    let parsed = HexBytes::<4>::parse_hex("deadbeef").expect("valid hex accepted");
    assert_eq!(parsed.0, [0xde, 0xad, 0xbe, 0xef]);
    assert_eq!(parsed.to_hex(), "deadbeef");
    // the reference encoder agrees
    assert_eq!(parsed.to_hex(), hex::encode(parsed.0));

    // upper case is accepted and re-rendered lower
    let upper = HexBytes::<4>::parse_hex("DEADBEEF").expect("case-insensitive");
    assert_eq!(upper.0, parsed.0);
    assert_eq!(upper.to_hex(), "deadbeef");

    assert!(HexBytes::<4>::parse_hex("deadbee").is_none());
    assert!(HexBytes::<4>::parse_hex("deadbeefaa").is_none());
    assert!(HexBytes::<4>::parse_hex("deadbeeg").is_none());

    let zero = HexBytes::<32>([0u8; 32]);
    assert_eq!(zero.to_hex().len(), 64);
    let back = HexBytes::<32>::parse_hex(&zero.to_hex()).expect("round trip");
    assert_eq!(back.0, zero.0);
}
