//! Configuration data carried by the running service: limits on uploads,
//! processing and image sizes, the frame composition settings, and the
//! hex-encoded signing key.
//!
//! Loading the file from disk is the caller's concern; this module holds the
//! validated shapes and their documented defaults.

use vstd::prelude::*;

verus! {

/// A width and height pair, in pixels.
#[derive(Debug, Clone, Copy, PartialEq, Eq, Structural)]
pub struct Dims {
    pub w: u32,
    pub h: u32,
}

impl Dims {
    pub fn new(w: u32, h: u32) -> (r: Dims)
        ensures
            r == (Dims { w, h }),
    {
        Dims { w, h }
    }
}

/// Bounds on the dimensions and decoded size of the still image.
#[derive(Debug, Clone, Copy, PartialEq, Eq)]
pub struct ImageSizeLimits {
    pub min_resolution: Dims,
    pub max_resolution: Dims,
    pub max_decoded: u64,
}

/// Byte caps on the two uploaded artifacts.
#[derive(Debug, Clone, Copy, PartialEq, Eq, Structural)]
pub struct UploadLimits {
    pub max_image: u64,
    pub max_audio: u64,
}

/// Accepted audio duration, in milliseconds.
#[derive(Debug, Clone, Copy, PartialEq, Eq, Structural)]
pub struct AudioLengthLimits {
    pub min_ms: u64,
    pub max_ms: u64,
}

/// Queue depth and per-job processing budget. The product of the two bounds
/// the worst-case wait of a queued job, which the credential freshness check
/// leans on.
#[derive(Debug, Clone, Copy, PartialEq, Eq, Structural)]
pub struct ProcessingLimits {
    /// Slots in the admission queue.
    pub queue_size: usize,
    /// Per-job render budget, in milliseconds.
    pub time: u64,
}

/// All the limits together, as handed to the admission path and the worker.
#[derive(Debug, Clone, Copy, PartialEq, Eq)]
pub struct LimitsConfig {
    pub image: ImageSizeLimits,
    pub audio: AudioLengthLimits,
    pub upload: UploadLimits,
    pub processing: ProcessingLimits,
}

/// How the still image is fitted into the frame.
#[derive(Debug, Clone, Copy, PartialEq, Eq, Structural)]
pub enum Fit {
    /// Scale the image preserving its aspect ratio.
    Resize,
    /// Stretch the image to the configured size.
    Stretch,
}

/// Composition settings for the rendered frame.
#[derive(Debug, Clone, PartialEq, Eq)]
pub struct FrameConfig {
    pub enable: bool,
    pub watermark: Option<String>,
    pub x: u32,
    pub y: u32,
    pub frame_size: Dims,
    pub image_size: Dims,
    pub frame_color: String,
    pub void_color: String,
    pub fit: Fit,
}

impl Default for ImageSizeLimits {
    fn default() -> (r: Self)
        ensures
            r == (ImageSizeLimits {
                min_resolution: Dims { w: 100u32, h: 100u32 },
                max_resolution: Dims { w: 10000u32, h: 10000u32 },
                max_decoded: 40_000_000u64,
            }),
    {
        ImageSizeLimits {
            min_resolution: Dims { w: 100, h: 100 },
            max_resolution: Dims { w: 10000, h: 10000 },
            max_decoded: 40_000_000,
        }
    }
}

impl Default for UploadLimits {
    fn default() -> (r: Self)
        ensures
            r == (UploadLimits { max_image: 10_000_000u64, max_audio: 100_000_000u64 }),
    {
        UploadLimits { max_image: 10_000_000, max_audio: 100_000_000 }
    }
}

impl Default for AudioLengthLimits {
    fn default() -> (r: Self)
        ensures
            r == (AudioLengthLimits { min_ms: 0u64, max_ms: 7_200_000u64 }),
    {
        AudioLengthLimits { min_ms: 0, max_ms: 7_200_000 }
    }
}

impl Default for ProcessingLimits {
    fn default() -> (r: Self)
        ensures
            r == (ProcessingLimits { queue_size: 10usize, time: 300_000u64 }),
    {
        ProcessingLimits { queue_size: 10, time: 300_000 }
    }
}

impl Default for LimitsConfig {
    fn default() -> (r: Self)
        ensures
            r.image == (ImageSizeLimits {
                min_resolution: Dims { w: 100u32, h: 100u32 },
                max_resolution: Dims { w: 10000u32, h: 10000u32 },
                max_decoded: 40_000_000u64,
            }),
            r.audio == (AudioLengthLimits { min_ms: 0u64, max_ms: 7_200_000u64 }),
            r.upload == (UploadLimits { max_image: 10_000_000u64, max_audio: 100_000_000u64 }),
            r.processing == (ProcessingLimits { queue_size: 10usize, time: 300_000u64 }),
    {
        LimitsConfig {
            image: ImageSizeLimits::default(),
            audio: AudioLengthLimits::default(),
            upload: UploadLimits::default(),
            processing: ProcessingLimits::default(),
        }
    }
}

impl Default for Fit {
    fn default() -> (r: Self)
        ensures
            r == Fit::Resize,
    {
        Fit::Resize
    }
}

impl Default for FrameConfig {
    fn default() -> (r: Self)
        ensures
            r.enable == false,
            r.watermark is None,
            r.x == 0 && r.y == 0,
            r.frame_size == (Dims { w: 1920u32, h: 1080u32 }),
            r.image_size == (Dims { w: 1280u32, h: 720u32 }),
            r.frame_color@ == "black"@,
            r.void_color@ == "black"@,
            r.fit == Fit::Resize,
    {
        FrameConfig {
            enable: false,
            watermark: None,
            x: 0,
            y: 0,
            frame_size: Dims { w: 1920, h: 1080 },
            image_size: Dims { w: 1280, h: 720 },
            frame_color: String::from_str("black"),
            void_color: String::from_str("black"),
            fit: Fit::Resize,
        }
    }
}


/// A hex character: a digit or a letter `a`-`f` in either case.
pub open spec fn spec_is_hex_char(c: char) -> bool {
    ('0' <= c && c <= '9') || ('a' <= c && c <= 'f') || ('A' <= c && c <= 'F')
}

/// The value of a hex character.
pub open spec fn spec_hex_val(c: char) -> nat {
    if '0' <= c && c <= '9' {
        (c as u32 - '0' as u32) as nat
    } else if 'a' <= c && c <= 'f' {
        (c as u32 - 'a' as u32 + 10) as nat
    } else {
        (c as u32 - 'A' as u32 + 10) as nat
    }
}

/// The lower-case hex rendering of a byte sequence, two characters per
/// byte, in order.
pub open spec fn spec_hex_of(b: Seq<u8>) -> Seq<char>
    decreases b.len(),
{
    if b.len() == 0 {
        Seq::<char>::empty()
    } else {
        spec_hex_of(b.drop_last()) + seq![
            crate::wire::spec_hex_digit((b.last() / 16) as nat),
            crate::wire::spec_hex_digit((b.last() % 16) as nat),
        ]
    }
}

/// The bytes an even-length hex string decodes to.
pub open spec fn spec_bytes_of_hex(s: Seq<char>) -> Seq<u8>
    decreases s.len(),
{
    if s.len() < 2 {
        Seq::<u8>::empty()
    } else {
        spec_bytes_of_hex(s.drop_last().drop_last()).push(
            (spec_hex_val(s[s.len() - 2]) * 16 + spec_hex_val(s[s.len() - 1])) as u8,
        )
    }
}

/// Relies on hex::encode: each byte in order becomes its two lower-case
/// hex digits.
#[verifier::external_body]
fn hex_encode(b: &[u8]) -> (r: String)
    ensures
        r@ == spec_hex_of(b@),
{
    hex::encode(b)
}

/// Relies on hex::decode_to_slice: it fills the buffer and succeeds exactly
/// when the input is twice the buffer in length and all hex characters, in
/// either case.
#[verifier::external_body]
fn hex_decode_into(s: &str, out: &mut [u8]) -> (r: bool)
    ensures
        r == (s@.len() == 2 * old(out)@.len() && forall|i: int|
            0 <= i < s@.len() ==> spec_is_hex_char(#[trigger] s@[i])),
        r ==> final(out)@ == spec_bytes_of_hex(s@),
        !r ==> final(out)@.len() == old(out)@.len(),
{
    hex::decode_to_slice(s, out).is_ok()
}

/// A fixed-size byte value carried in configuration as a hex string.
#[derive(Debug, Clone, PartialEq, Eq)]
pub struct HexBytes<const LEN: usize>(pub [u8; LEN]);

impl<const LEN: usize> HexBytes<LEN> {
    /// The hex rendering of the bytes.
    pub fn to_hex(&self) -> (r: String)
        ensures
            r@ == spec_hex_of(self.0@),
    {
        hex_encode(self.0.as_slice())
    }

    /// The bytes a hex string names: accepted exactly when it holds
    /// `2 * LEN` hex characters.
    pub fn parse_hex(s: &str) -> (r: Option<HexBytes<LEN>>)
        ensures
            s@.len() == 2 * LEN && (forall|i: int|
                0 <= i < s@.len() ==> spec_is_hex_char(#[trigger] s@[i])) ==> (r matches Some(v)
                && v.0@ == spec_bytes_of_hex(s@)),
            !(s@.len() == 2 * LEN && (forall|i: int|
                0 <= i < s@.len() ==> spec_is_hex_char(#[trigger] s@[i]))) ==> r is None,
    {
        let mut buf: [u8; LEN] = vstd::array::array_fill_for_copy_types(0u8);
        let ok = hex_decode_into(s, vstd::array::ref_mut_array_unsizing_coercion(&mut buf));
        if ok {
            Some(HexBytes(buf))
        } else {
            None
        }
    }
}

} // verus!
