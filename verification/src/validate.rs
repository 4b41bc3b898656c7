//! The submission-side checks that decide, before admission, whether the
//! uploaded fields and artifacts are acceptable, and the exact error each
//! refusal answers with.

use vstd::prelude::*;
use vstd::string::StringSliceAdditionalSpecFns;
use crate::auth::{spec_split, split_at};
use crate::config::{AudioLengthLimits, ImageSizeLimits};
use crate::errors::UploadError;

verus! {

broadcast use vstd::slice::axiom_spec_len;

/// The byte length of a character sequence in its UTF-8 form.
pub open spec fn spec_byte_len(s: Seq<char>) -> nat {
    vstd::utf8::encode_utf8(s).len()
}

/// The longest accepted title, in bytes.
pub const MAX_TITLE: usize = 100;

/// The longest accepted description, in bytes, watermark included.
pub const MAX_DESC: usize = 5000;

/// A title is kept only under the cap; an overlong one is silently dropped
/// rather than refused.
pub fn accept_title(text: String) -> (r: Option<String>)
    ensures
        spec_byte_len(text@) <= MAX_TITLE ==> r == Some(text),
        spec_byte_len(text@) > MAX_TITLE ==> r is None,
{
    let n = text.as_str().as_bytes().len();
    if n <= MAX_TITLE {
        Some(text)
    } else {
        None
    }
}

/// A description is kept only if it leaves room for the watermark and the
/// two blank lines joining them.
pub fn accept_description(text: String, watermark_len: usize) -> (r: Option<String>)
    requires
        watermark_len + 3 <= MAX_DESC,
    ensures
        spec_byte_len(text@) + watermark_len + 3 <= MAX_DESC ==> r == Some(text),
        spec_byte_len(text@) + watermark_len + 3 > MAX_DESC ==> r is None,
{
    let n = text.as_str().as_bytes().len();
    if n <= MAX_DESC - watermark_len - 3 {
        Some(text)
    } else {
        None
    }
}

/// How many bytes the remote service charges a tag list for: the list's own
/// bytes, plus two quotation marks around each of the `n + 1` entries that
/// `n` separators delimit.
pub open spec fn spec_tags_cost(bytes: Seq<u8>) -> int {
    bytes.len() + (bytes.filter(|b: u8| b == 10u8).len() + 1) * 2 as int
}

/// Counts the newline bytes of `s`.
fn count_newlines(s: &str) -> (r: usize)
    ensures
        r == s.spec_bytes().filter(|b: u8| b == 10u8).len(),
{
    let bytes = s.as_bytes();
    let n = bytes.len();
    let mut count: usize = 0;
    let mut i: usize = 0;
    proof {
        assert(bytes@.take(0) =~= Seq::<u8>::empty());
        assert(bytes@.take(0).filter(|b: u8| b == 10u8) =~= Seq::<u8>::empty());
    }
    while i < n
        invariant
            n == bytes@.len(),
            i <= n,
            count == bytes@.take(i as int).filter(|b: u8| b == 10u8).len(),
            count <= i,
        decreases n - i,
    {
        proof {
            assert(bytes@.take(i + 1).drop_last() =~= bytes@.take(i as int));
            reveal_with_fuel(Seq::filter, 2);
        }
        if bytes[i] == 10 {
            count = count + 1;
        }
        i += 1;
    }
    proof {
        assert(bytes@.take(n as int) =~= bytes@);
    }
    count
}

/// Accepts a tag list only while its charged cost stays under 500, and then
/// splits it at newlines; a costlier one is refused as a bad request.
pub fn accept_tags(text: &String) -> (r: Result<Vec<String>, UploadError>)
    ensures
        spec_tags_cost(vstd::utf8::encode_utf8(text@)) < 500 ==> (r matches Ok(tags) && tags.deep_view()
            == spec_split(text@, '\n')),
        spec_tags_cost(vstd::utf8::encode_utf8(text@)) >= 500 ==> (r matches Err(e) && e matches
            UploadError::BadRequest(m) && m@ == "tags too long"@),
{
    let bytes_len = text.as_str().as_bytes().len();
    if bytes_len >= 498 {
        return Err(UploadError::BadRequest(String::from_str("tags too long")));
    }
    let newlines = count_newlines(text.as_str());
    if bytes_len + (newlines + 1) * 2 < 500 {
        Ok(split_at(text.as_str(), '\n'))
    } else {
        Err(UploadError::BadRequest(String::from_str("tags too long")))
    }
}

/// Accepts image dimensions only inside the configured bounds, else the
/// exact refusal carrying both the bounds and the offered size.
pub fn check_image_dims(limits: &ImageSizeLimits, w: u32, h: u32) -> (r: Result<(), UploadError>)
    ensures
        limits.min_resolution.w <= w <= limits.max_resolution.w && limits.min_resolution.h <= h
            <= limits.max_resolution.h ==> r is Ok,
        !(limits.min_resolution.w <= w <= limits.max_resolution.w && limits.min_resolution.h <= h
            <= limits.max_resolution.h) ==> r == Err::<(), UploadError>(
            UploadError::ImageDimensions { expected: *limits, value_w: w, value_h: h },
        ),
{
    if w < limits.min_resolution.w || w > limits.max_resolution.w || h < limits.min_resolution.h
        || h > limits.max_resolution.h {
        Err(UploadError::ImageDimensions { expected: *limits, value_w: w, value_h: h })
    } else {
        Ok(())
    }
}

/// Accepts a decoded image size only under the configured cap, else the
/// exact refusal.
pub fn check_decoded_size(max_decoded: u64, decoded: u64) -> (r: Result<(), UploadError>)
    ensures
        decoded <= max_decoded ==> r is Ok,
        decoded > max_decoded ==> (r matches Err(e) && e matches UploadError::FileTooLarge {
            subject,
            max,
        } && subject@ == "image_decoded"@ && max == max_decoded),
{
    if decoded > max_decoded {
        Err(
            UploadError::FileTooLarge {
                subject: String::from_str("image_decoded"),
                max: max_decoded,
            },
        )
    } else {
        Ok(())
    }
}

/// Accepts an audio duration only inside the configured bounds, else the
/// exact refusal carrying both the bounds and the offered duration.
pub fn check_audio_length(limits: &AudioLengthLimits, value_ms: u64) -> (r: Result<
    (),
    UploadError,
>)
    ensures
        limits.min_ms <= value_ms <= limits.max_ms ==> r is Ok,
        !(limits.min_ms <= value_ms <= limits.max_ms) ==> r == Err::<(), UploadError>(
            UploadError::AudioLength { expected: *limits, value_ms },
        ),
{
    if limits.min_ms <= value_ms && value_ms <= limits.max_ms {
        Ok(())
    } else {
        Err(UploadError::AudioLength { expected: *limits, value_ms })
    }
}

/// The description as published: the submitted text, two blank lines, then
/// the configured watermark; or the watermark alone when no text came.
pub fn compose_description(text: Option<String>, watermark: &String) -> (r: String)
    ensures
        text matches Some(t) ==> r@ == t@ + "\n\n"@ + watermark@,
        text is None ==> r@ == watermark@,
{
    match text {
        Some(mut t) => {
            t.append("\n\n");
            t.append(watermark.as_str());
            t
        },
        None => watermark.clone(),
    }
}

} // verus!
