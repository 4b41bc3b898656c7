//! The submission-side field checks on their exact boundaries.

use musngr::config::{AudioLengthLimits, Dims, ImageSizeLimits};
use musngr::errors::UploadError;
use musngr::meta::{category_allowed, Privacy, UnrecognizedPrivacy};
use musngr::registry::JobRegistry;
use musngr::validate::{
    accept_description, accept_tags, accept_title, check_audio_length, check_decoded_size,
    check_image_dims, compose_description, MAX_DESC, MAX_TITLE,
};
use core::str::FromStr;

#[test]
fn title_boundary_is_one_hundred_bytes() {
    assert_eq!(MAX_TITLE, 100);
    let exactly = "a".repeat(100);
    assert_eq!(accept_title(exactly.clone()), Some(exactly));
    assert_eq!(accept_title("a".repeat(101)), None);
}

#[test]
fn description_leaves_room_for_the_watermark() {
    assert_eq!(MAX_DESC, 5000);
    let watermark_len = 20;
    let fits = "d".repeat(5000 - 20 - 3);
    assert_eq!(accept_description(fits.clone(), watermark_len), Some(fits));
    assert_eq!(accept_description("d".repeat(5000 - 20 - 2), watermark_len), None);
}

#[test]
fn composed_description_places_watermark_last() {
    let watermark = String::from("made with musngr");
    assert_eq!(
        compose_description(Some(String::from("hello")), &watermark),
        "hello\n\nmade with musngr"
    );
    assert_eq!(compose_description(None, &watermark), "made with musngr");
}

#[test]
fn tags_split_and_cost_rule() {
    let ok = accept_tags(&String::from("music\nlofi\nbeats")).expect("short list accepted");
    assert_eq!(ok, vec![
        String::from("music"),
        String::from("lofi"),
        String::from("beats"),
    ]);

    // 16 bytes + (1 separator + 1) * 2 = 20 < 500
    let two = accept_tags(&String::from("alpha\nbeta gamma")).expect("accepted");
    assert_eq!(two, vec![String::from("alpha"), String::from("beta gamma")]);

    // a list whose charged cost reaches 500 is refused
    let long = "t".repeat(498);
    match accept_tags(&long) {
        Err(UploadError::BadRequest(m)) => assert_eq!(m, "tags too long"),
        other => panic!("expected the tags refusal, got {other:?}"),
    }
    // 494 bytes + (1 + 1) * 2 = 498 < 500: still accepted
    let nearly = format!("{}\n{}", "a".repeat(246), "b".repeat(247));
    assert!(accept_tags(&nearly).is_ok());
    // two more bytes tip the charged cost to 500: refused
    let over = format!("{}\n{}", "a".repeat(247), "b".repeat(248));
    assert!(accept_tags(&over).is_err());
}

#[test]
fn category_whitelist() {
    for n in [1u32, 2, 10, 15, 17, 30, 44] {
        assert!(category_allowed(n), "{n} should be allowed");
    }
    for n in [0u32, 3, 9, 11, 14, 16, 45, 1000] {
        assert!(!category_allowed(n), "{n} should be refused");
    }
}

#[test]
fn privacy_words_parse_both_ways() {
    assert_eq!(Privacy::from_str("private"), Ok(Privacy::Private));
    assert_eq!(Privacy::from_str("unlisted"), Ok(Privacy::Unlisted));
    assert_eq!(Privacy::from_str("public"), Ok(Privacy::Public));
    assert_eq!(Privacy::from_str("friends"), Err(UnrecognizedPrivacy));
    assert_eq!(Privacy::Private.wire_word(), "private");
    assert_eq!(Privacy::Unlisted.wire_word(), "unlisted");
    assert_eq!(Privacy::Public.wire_word(), "public");
    assert_eq!(Privacy::default(), Privacy::Public);
}

#[test]
fn image_dimension_bounds_are_inclusive() {
    let limits = ImageSizeLimits {
        min_resolution: Dims { w: 100, h: 100 },
        max_resolution: Dims { w: 10000, h: 10000 },
        max_decoded: 40_000_000,
    };
    assert!(check_image_dims(&limits, 100, 100).is_ok());
    assert!(check_image_dims(&limits, 10000, 10000).is_ok());
    match check_image_dims(&limits, 99, 500) {
        Err(UploadError::ImageDimensions { value_w, value_h, .. }) => {
            assert_eq!((value_w, value_h), (99, 500));
        },
        other => panic!("expected a dimensions refusal, got {other:?}"),
    }
    assert!(check_image_dims(&limits, 500, 10001).is_err());

    assert!(check_decoded_size(40_000_000, 40_000_000).is_ok());
    match check_decoded_size(40_000_000, 40_000_001) {
        Err(UploadError::FileTooLarge { subject, max }) => {
            assert_eq!(subject, "image_decoded");
            assert_eq!(max, 40_000_000);
        },
        other => panic!("expected the size refusal, got {other:?}"),
    }
}

#[test]
fn audio_length_bounds_are_inclusive() {
    let limits = AudioLengthLimits { min_ms: 1_000, max_ms: 7_200_000 };
    assert!(check_audio_length(&limits, 1_000).is_ok());
    assert!(check_audio_length(&limits, 7_200_000).is_ok());
    match check_audio_length(&limits, 999) {
        Err(UploadError::AudioLength { value_ms, .. }) => assert_eq!(value_ms, 999),
        other => panic!("expected the length refusal, got {other:?}"),
    }
    assert!(check_audio_length(&limits, 7_200_001).is_err());
}

#[test]
fn registry_inserts_finds_and_forgets() {
    let mut reg = JobRegistry::new(8);
    assert_eq!(reg.get(1), None);
    reg.upsert(1, 10);
    reg.upsert(2, 20);
    assert_eq!(reg.get(1), Some(10));
    assert_eq!(reg.get(2), Some(20));
    assert!(reg.contains(1));
    // replacing a binding keeps the newest handle
    reg.upsert(1, 11);
    assert_eq!(reg.get(1), Some(11));
    assert_eq!(reg.remove(1), Some(11));
    assert_eq!(reg.get(1), None);
    assert!(!reg.contains(1));
    assert_eq!(reg.remove(1), None);
    assert_eq!(reg.get(2), Some(20));
}
