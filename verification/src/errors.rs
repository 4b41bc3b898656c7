//! The closed error taxonomy of the submission path and of observer
//! attachment, and each error's HTTP status. Errors that wrap an underlying
//! cause carry its recorded message; nothing here ever panics or retries.

use vstd::prelude::*;
use crate::auth::OauthRefreshResponseError;
use crate::config::{AudioLengthLimits, ImageSizeLimits};
use crate::wire::{dec_str, push_escaped, spec_dec, spec_esc};

verus! {

/// Why a submission was refused.
#[derive(Debug, Clone, PartialEq, Eq)]
pub enum UploadError {
    /// The system is shutting down; nothing further is admitted.
    ChannelClosed,
    /// The queue holds as many jobs as it may; the payload is the capacity.
    QueueFull(usize),
    /// A helper task was lost.
    JoinError(String),
    /// The multipart body could not be read.
    MultipartError(String),
    /// A field was missing or malformed.
    BadRequest(String),
    /// No valid session token came with the request.
    Unauthorized,
    /// An artifact exceeded its byte cap.
    FileTooLarge { subject: String, max: u64 },
    /// The uploaded file's name was missing or carried no extension.
    InvalidFileName(String),
    /// A header value was not readable text.
    ToStrError(String),
    /// A numeric field could not be parsed.
    ParseIntError(String),
    /// Reading or writing a temporary artifact failed.
    IoError(String),
    /// The image could not be decoded.
    ImageParseError(String),
    /// The image dimensions fall outside the configured bounds.
    ImageDimensions { expected: ImageSizeLimits, value_w: u32, value_h: u32 },
    /// The audio metadata could not be probed.
    AudioParseError(String),
    /// The audio duration was not a usable number.
    AudioMisc { code: String, message: String },
    /// The audio duration falls outside the configured bounds.
    AudioLength { expected: AudioLengthLimits, value_ms: u64 },
    /// The session token failed verification.
    InvalidJWT(String),
    /// The token endpoint could not be reached for the refresh.
    ReqwestError(String),
    /// The token endpoint refused the refresh.
    RefreshError(OauthRefreshResponseError),
    /// The refresh answer could not be decoded.
    JsonParseError(String),
    /// Anything else; the message says what.
    Other(String),
}

impl UploadError {
    /// The HTTP status a refusal answers with: 400 for malformed input,
    /// 401 for credential trouble, 413 for an oversized artifact, 503 while
    /// full or shutting down, 500 for everything internal.
    pub open spec fn spec_http_status(&self) -> u16 {
        match self {
            UploadError::MultipartError(_) => 400,
            UploadError::BadRequest(_) => 400,
            UploadError::ToStrError(_) => 400,
            UploadError::ParseIntError(_) => 400,
            UploadError::InvalidFileName(_) => 400,
            UploadError::ImageDimensions { .. } => 400,
            UploadError::AudioLength { .. } => 400,
            UploadError::AudioMisc { .. } => 400,
            UploadError::Unauthorized => 401,
            UploadError::InvalidJWT(_) => 401,
            UploadError::RefreshError(_) => 401,
            UploadError::FileTooLarge { .. } => 413,
            UploadError::ChannelClosed => 503,
            UploadError::QueueFull(_) => 503,
            UploadError::JoinError(_) => 500,
            UploadError::IoError(_) => 500,
            UploadError::ImageParseError(_) => 500,
            UploadError::AudioParseError(_) => 500,
            UploadError::ReqwestError(_) => 500,
            UploadError::JsonParseError(_) => 500,
            UploadError::Other(_) => 500,
        }
    }

    /// Computes [`Self::spec_http_status`].
    pub fn http_status(&self) -> (r: u16)
        ensures
            r == self.spec_http_status(),
    {
        match self {
            UploadError::MultipartError(_) => 400,
            UploadError::BadRequest(_) => 400,
            UploadError::ToStrError(_) => 400,
            UploadError::ParseIntError(_) => 400,
            UploadError::InvalidFileName(_) => 400,
            UploadError::ImageDimensions { .. } => 400,
            UploadError::AudioLength { .. } => 400,
            UploadError::AudioMisc { .. } => 400,
            UploadError::Unauthorized => 401,
            UploadError::InvalidJWT(_) => 401,
            UploadError::RefreshError(_) => 401,
            UploadError::FileTooLarge { .. } => 413,
            UploadError::ChannelClosed => 503,
            UploadError::QueueFull(_) => 503,
            UploadError::JoinError(_) => 500,
            UploadError::IoError(_) => 500,
            UploadError::ImageParseError(_) => 500,
            UploadError::AudioParseError(_) => 500,
            UploadError::ReqwestError(_) => 500,
            UploadError::JsonParseError(_) => 500,
            UploadError::Other(_) => 500,
        }
    }

    /// Whether refusing with this error also clears the session cookie:
    /// true exactly for the two credential failures that invalidate it.
    pub open spec fn spec_clears_token(&self) -> bool {
        self is InvalidJWT || self is RefreshError
    }

    /// Computes [`Self::spec_clears_token`].
    pub fn clears_token(&self) -> (r: bool)
        ensures
            r == self.spec_clears_token(),
    {
        matches!(self, UploadError::InvalidJWT(_) | UploadError::RefreshError(_))
    }
}

/// Why an observer could not attach.
#[derive(Debug, Clone, Copy, PartialEq, Eq, Structural)]
pub enum WsError {
    /// No job with this identifier is known: never admitted, or already
    /// evicted.
    NoId(u128),
}


/// A width and height as the display text `(w, h)`.
pub open spec fn spec_pair_text(w: u32, h: u32) -> Seq<char> {
    "("@ + spec_dec(w as nat) + ", "@ + spec_dec(h as nat) + ")"@
}

/// Appends [`spec_pair_text`].
fn push_pair_text(out: &mut String, w: u32, h: u32)
    ensures
        final(out)@ == old(out)@ + spec_pair_text(w, h),
{
    let ghost before = out@;
    out.append("(");
    let a = dec_str(w as u64);
    out.append(a.as_str());
    out.append(", ");
    let b = dec_str(h as u64);
    out.append(b.as_str());
    out.append(")");
    proof {
        assert(out@ =~= before + spec_pair_text(w, h));
    }
}

/// A width and height as the JSON array `[w,h]`.
pub open spec fn spec_pair_json(w: u32, h: u32) -> Seq<char> {
    "["@ + spec_dec(w as nat) + ","@ + spec_dec(h as nat) + "]"@
}

/// Appends [`spec_pair_json`].
fn push_pair_json(out: &mut String, w: u32, h: u32)
    ensures
        final(out)@ == old(out)@ + spec_pair_json(w, h),
{
    let ghost before = out@;
    out.append("[");
    let a = dec_str(w as u64);
    out.append(a.as_str());
    out.append(",");
    let b = dec_str(h as u64);
    out.append(b.as_str());
    out.append("]");
    proof {
        assert(out@ =~= before + spec_pair_json(w, h));
    }
}

/// A JSON string, or `null` for an absent value.
pub open spec fn spec_opt_json(v: Option<String>) -> Seq<char> {
    match v {
        Some(t) => "\""@ + spec_esc(t@) + "\""@,
        None => "null"@,
    }
}

/// Appends [`spec_opt_json`].
fn push_opt_json(out: &mut String, v: &Option<String>)
    ensures
        final(out)@ == old(out)@ + spec_opt_json(*v),
{
    let ghost before = out@;
    match v {
        Some(t) => {
            out.append("\"");
            push_escaped(out, t);
            out.append("\"");
            proof {
                assert(out@ =~= before + spec_opt_json(*v));
            }
        },
        None => {
            out.append("null");
            proof {
                assert(out@ =~= before + spec_opt_json(*v));
            }
        },
    }
}

impl UploadError {
    /// The human-readable text each refusal carries on the wire.
    pub open spec fn spec_message(&self) -> Seq<char> {
        match self {
            UploadError::ChannelClosed => "Application is shutting down"@,
            UploadError::QueueFull(n) => "Queue is full (max: "@ + spec_dec(*n as nat) + ")"@,
            UploadError::JoinError(m) => m@,
            UploadError::MultipartError(m) => m@,
            UploadError::BadRequest(m) => "Bad Request: "@ + m@,
            UploadError::Unauthorized => "Unauthorized"@,
            UploadError::FileTooLarge { subject: _, max } => "File Too Large (max "@ + spec_dec(
                *max as nat,
            ) + ")"@,
            UploadError::InvalidFileName(n) => "Invalid file name: \""@ + n@ + "\""@,
            UploadError::ToStrError(m) => m@,
            UploadError::ParseIntError(m) => m@,
            UploadError::IoError(m) => m@,
            UploadError::ImageParseError(m) => m@,
            UploadError::ImageDimensions { expected, value_w, value_h } => "Invalid image dimensions (expected min: "@
                + spec_pair_text(expected.min_resolution.w, expected.min_resolution.h) + ", max: "@
                + spec_pair_text(expected.max_resolution.w, expected.max_resolution.h) + ", got "@
                + spec_pair_text(*value_w, *value_h) + ")"@,
            UploadError::AudioParseError(m) => m@,
            UploadError::AudioMisc { code: _, message } => message@,
            UploadError::AudioLength { expected, value_ms } => "Invalid audio length (expected min: "@
                + spec_dec(expected.min_ms as nat) + "ms, max: "@ + spec_dec(expected.max_ms as nat)
                + "ms, got "@ + spec_dec(*value_ms as nat) + "ms)"@,
            UploadError::InvalidJWT(m) => "Invalid token: "@ + m@,
            UploadError::ReqwestError(m) => "failed to contact oauth servers: "@ + m@,
            UploadError::RefreshError(e) => "failed to refresh token: "@ + e.error@,
            UploadError::JsonParseError(_) => "failed to parse api response"@,
            UploadError::Other(m) => "internal server error: "@ + m@,
        }
    }

    /// Computes [`Self::spec_message`].
    pub fn message(&self) -> (r: String)
        ensures
            r@ == self.spec_message(),
    {
        match self {
            UploadError::ChannelClosed => String::from_str("Application is shutting down"),
            UploadError::QueueFull(n) => {
                let mut out = String::from_str("Queue is full (max: ");
                let d = dec_str(*n as u64);
                out.append(d.as_str());
                out.append(")");
                proof {
                    assert(out@ =~= self.spec_message());
                }
                out
            },
            UploadError::JoinError(m) => m.clone(),
            UploadError::MultipartError(m) => m.clone(),
            UploadError::BadRequest(m) => {
                let mut out = String::from_str("Bad Request: ");
                out.append(m.as_str());
                out
            },
            UploadError::Unauthorized => String::from_str("Unauthorized"),
            UploadError::FileTooLarge { subject: _, max } => {
                let mut out = String::from_str("File Too Large (max ");
                let d = dec_str(*max);
                out.append(d.as_str());
                out.append(")");
                proof {
                    assert(out@ =~= self.spec_message());
                }
                out
            },
            UploadError::InvalidFileName(n) => {
                let mut out = String::from_str("Invalid file name: \"");
                out.append(n.as_str());
                out.append("\"");
                proof {
                    assert(out@ =~= self.spec_message());
                }
                out
            },
            UploadError::ToStrError(m) => m.clone(),
            UploadError::ParseIntError(m) => m.clone(),
            UploadError::IoError(m) => m.clone(),
            UploadError::ImageParseError(m) => m.clone(),
            UploadError::ImageDimensions { expected, value_w, value_h } => {
                let mut out = String::from_str("Invalid image dimensions (expected min: ");
                push_pair_text(&mut out, expected.min_resolution.w, expected.min_resolution.h);
                out.append(", max: ");
                push_pair_text(&mut out, expected.max_resolution.w, expected.max_resolution.h);
                out.append(", got ");
                push_pair_text(&mut out, *value_w, *value_h);
                out.append(")");
                proof {
                    assert(out@ =~= self.spec_message());
                }
                out
            },
            UploadError::AudioParseError(m) => m.clone(),
            UploadError::AudioMisc { code: _, message } => message.clone(),
            UploadError::AudioLength { expected, value_ms } => {
                let mut out = String::from_str("Invalid audio length (expected min: ");
                let a = dec_str(expected.min_ms);
                out.append(a.as_str());
                out.append("ms, max: ");
                let b = dec_str(expected.max_ms);
                out.append(b.as_str());
                out.append("ms, got ");
                let c = dec_str(*value_ms);
                out.append(c.as_str());
                out.append("ms)");
                proof {
                    assert(out@ =~= self.spec_message());
                }
                out
            },
            UploadError::InvalidJWT(m) => {
                let mut out = String::from_str("Invalid token: ");
                out.append(m.as_str());
                out
            },
            UploadError::ReqwestError(m) => {
                let mut out = String::from_str("failed to contact oauth servers: ");
                out.append(m.as_str());
                out
            },
            UploadError::RefreshError(e) => {
                let mut out = String::from_str("failed to refresh token: ");
                out.append(e.error.as_str());
                out
            },
            UploadError::JsonParseError(_) => String::from_str("failed to parse api response"),
            UploadError::Other(m) => {
                let mut out = String::from_str("internal server error: ");
                out.append(m.as_str());
                out
            },
        }
    }

    /// The machine code each refusal is tagged with on the wire.
    pub open spec fn spec_wire_code(&self) -> Seq<char> {
        match self {
            UploadError::MultipartError(_) => "bad_request"@,
            UploadError::BadRequest(_) => "bad_request"@,
            UploadError::ToStrError(_) => "bad_request"@,
            UploadError::ParseIntError(_) => "bad_request"@,
            UploadError::Unauthorized => "unauthorized"@,
            UploadError::FileTooLarge { .. } => "too_large"@,
            UploadError::InvalidFileName(_) => "invalid_file_name"@,
            UploadError::ImageParseError(_) => "parse"@,
            UploadError::AudioParseError(_) => "parse"@,
            UploadError::ImageDimensions { .. } => "limits"@,
            UploadError::AudioLength { .. } => "limits"@,
            UploadError::AudioMisc { .. } => "audio_misc"@,
            UploadError::ChannelClosed => "shutting_down"@,
            UploadError::QueueFull(_) => "queue_full"@,
            UploadError::InvalidJWT(_) => "invalid_jwt"@,
            UploadError::RefreshError(_) => "oauth_error"@,
            UploadError::JoinError(_) => "internal_error"@,
            UploadError::IoError(_) => "internal_error"@,
            UploadError::ReqwestError(_) => "internal_error"@,
            UploadError::JsonParseError(_) => "internal_error"@,
            UploadError::Other(_) => "internal_error"@,
        }
    }

    /// The variant-specific fields of a refusal's body.
    pub open spec fn spec_wire_extras(&self) -> Seq<char> {
        match self {
            UploadError::FileTooLarge { subject, max } => ",\"subject\":\""@ + spec_esc(
                subject@,
            ) + "\",\"max\":"@ + spec_dec(*max as nat),
            UploadError::InvalidFileName(n) => ",\"file\":\""@ + spec_esc(n@) + "\""@,
            UploadError::ImageParseError(_) => ",\"subject\":\"image\""@,
            UploadError::AudioParseError(_) => ",\"subject\":\"audio\""@,
            UploadError::ImageDimensions { expected, value_w, value_h } => ",\"subject\":\"image_dimensions\",\"expected\":{\"min_resolution\":"@
                + spec_pair_json(expected.min_resolution.w, expected.min_resolution.h)
                + ",\"max_resolution\":"@ + spec_pair_json(
                expected.max_resolution.w,
                expected.max_resolution.h,
            ) + ",\"max_decoded\":"@ + spec_dec(expected.max_decoded as nat) + "},\"value\":"@
                + spec_pair_json(*value_w, *value_h),
            UploadError::AudioLength { expected, value_ms } => ",\"subject\":\"audio_length\",\"expected\":{\"min_ms\":"@
                + spec_dec(expected.min_ms as nat) + ",\"max_ms\":"@ + spec_dec(
                expected.max_ms as nat,
            ) + "},\"value\":"@ + spec_dec(*value_ms as nat),
            UploadError::AudioMisc { code, message: _ } => ",\"subject\":\""@ + spec_esc(code@)
                + "\""@,
            UploadError::QueueFull(n) => ",\"max\":"@ + spec_dec(*n as nat),
            UploadError::InvalidJWT(m) => ",\"reason\":\""@ + spec_esc(m@) + "\""@,
            UploadError::RefreshError(e) => ",\"original\":{\"error\":\""@ + spec_esc(e.error@)
                + "\",\"error_subtype\":"@ + spec_opt_json(e.error_subtype)
                + ",\"error_message\":"@ + spec_opt_json(e.error_message) + "}"@,
            _ => Seq::<char>::empty(),
        }
    }

    /// A refusal's whole JSON body: the code, the variant's fields, the
    /// message.
    pub open spec fn spec_wire_body(&self) -> Seq<char> {
        "{\"error\":\""@ + self.spec_wire_code() + "\""@ + self.spec_wire_extras()
            + ",\"message\":\""@ + spec_esc(self.spec_message()) + "\"}"@
    }

    /// The executable wire code.
    fn wire_code(&self) -> (r: &'static str)
        ensures
            r@ == self.spec_wire_code(),
    {
        match self {
            UploadError::MultipartError(_) => "bad_request",
            UploadError::BadRequest(_) => "bad_request",
            UploadError::ToStrError(_) => "bad_request",
            UploadError::ParseIntError(_) => "bad_request",
            UploadError::Unauthorized => "unauthorized",
            UploadError::FileTooLarge { .. } => "too_large",
            UploadError::InvalidFileName(_) => "invalid_file_name",
            UploadError::ImageParseError(_) => "parse",
            UploadError::AudioParseError(_) => "parse",
            UploadError::ImageDimensions { .. } => "limits",
            UploadError::AudioLength { .. } => "limits",
            UploadError::AudioMisc { .. } => "audio_misc",
            UploadError::ChannelClosed => "shutting_down",
            UploadError::QueueFull(_) => "queue_full",
            UploadError::InvalidJWT(_) => "invalid_jwt",
            UploadError::RefreshError(_) => "oauth_error",
            UploadError::JoinError(_) => "internal_error",
            UploadError::IoError(_) => "internal_error",
            UploadError::ReqwestError(_) => "internal_error",
            UploadError::JsonParseError(_) => "internal_error",
            UploadError::Other(_) => "internal_error",
        }
    }

    /// Appends the variant-specific fields.
    fn push_extras(&self, out: &mut String)
        ensures
            final(out)@ == old(out)@ + self.spec_wire_extras(),
    {
        let ghost before = out@;
        match self {
            UploadError::FileTooLarge { subject, max } => {
                out.append(",\"subject\":\"");
                push_escaped(out, subject);
                out.append("\",\"max\":");
                let d = dec_str(*max);
                out.append(d.as_str());
                proof {
                    assert(out@ =~= before + self.spec_wire_extras());
                }
            },
            UploadError::InvalidFileName(n) => {
                out.append(",\"file\":\"");
                push_escaped(out, n);
                out.append("\"");
                proof {
                    assert(out@ =~= before + self.spec_wire_extras());
                }
            },
            UploadError::ImageParseError(_) => {
                out.append(",\"subject\":\"image\"");
                proof {
                    assert(out@ =~= before + self.spec_wire_extras());
                }
            },
            UploadError::AudioParseError(_) => {
                out.append(",\"subject\":\"audio\"");
                proof {
                    assert(out@ =~= before + self.spec_wire_extras());
                }
            },
            UploadError::ImageDimensions { expected, value_w, value_h } => {
                out.append(",\"subject\":\"image_dimensions\",\"expected\":{\"min_resolution\":");
                push_pair_json(out, expected.min_resolution.w, expected.min_resolution.h);
                out.append(",\"max_resolution\":");
                push_pair_json(out, expected.max_resolution.w, expected.max_resolution.h);
                out.append(",\"max_decoded\":");
                let d = dec_str(expected.max_decoded);
                out.append(d.as_str());
                out.append("},\"value\":");
                push_pair_json(out, *value_w, *value_h);
                proof {
                    assert(out@ =~= before + self.spec_wire_extras());
                }
            },
            UploadError::AudioLength { expected, value_ms } => {
                out.append(",\"subject\":\"audio_length\",\"expected\":{\"min_ms\":");
                let a = dec_str(expected.min_ms);
                out.append(a.as_str());
                out.append(",\"max_ms\":");
                let b = dec_str(expected.max_ms);
                out.append(b.as_str());
                out.append("},\"value\":");
                let c = dec_str(*value_ms);
                out.append(c.as_str());
                proof {
                    assert(out@ =~= before + self.spec_wire_extras());
                }
            },
            UploadError::AudioMisc { code, message: _ } => {
                out.append(",\"subject\":\"");
                push_escaped(out, code);
                out.append("\"");
                proof {
                    assert(out@ =~= before + self.spec_wire_extras());
                }
            },
            UploadError::QueueFull(n) => {
                out.append(",\"max\":");
                let d = dec_str(*n as u64);
                out.append(d.as_str());
                proof {
                    assert(out@ =~= before + self.spec_wire_extras());
                }
            },
            UploadError::InvalidJWT(m) => {
                out.append(",\"reason\":\"");
                push_escaped(out, m);
                out.append("\"");
                proof {
                    assert(out@ =~= before + self.spec_wire_extras());
                }
            },
            UploadError::RefreshError(e) => {
                out.append(",\"original\":{\"error\":\"");
                push_escaped(out, &e.error);
                out.append("\",\"error_subtype\":");
                push_opt_json(out, &e.error_subtype);
                out.append(",\"error_message\":");
                push_opt_json(out, &e.error_message);
                out.append("}");
                proof {
                    assert(out@ =~= before + self.spec_wire_extras());
                }
            },
            _ => {
                proof {
                    assert(out@ =~= before + self.spec_wire_extras());
                }
            },
        }
    }

    /// Encodes [`Self::spec_wire_body`]: the JSON object a refusal answers
    /// with, beside [`Self::spec_http_status`].
    pub fn wire_body(&self) -> (r: String)
        ensures
            r@ == self.spec_wire_body(),
    {
        let mut out = String::from_str("{\"error\":\"");
        out.append(self.wire_code());
        out.append("\"");
        self.push_extras(&mut out);
        out.append(",\"message\":\"");
        let m = self.message();
        push_escaped(&mut out, &m);
        out.append("\"}");
        proof {
            assert(out@ =~= self.spec_wire_body());
        }
        out
    }
}

impl WsError {
    /// A lookup failure's JSON body: the code, the identifier, the message.
    pub open spec fn spec_wire_body(&self) -> Seq<char> {
        match self {
            WsError::NoId(id) => "{\"error\":\"not_found\",\"id\":\""@
                + crate::idtext::spec_ulid_seq(*id) + "\",\"message\":\"No job found with id "@
                + crate::idtext::spec_ulid_seq(*id) + "\"}"@,
        }
    }

    /// Encodes [`Self::spec_wire_body`]. Attachment failures answer 404.
    pub fn wire_body(&self) -> (r: String)
        ensures
            r@ == self.spec_wire_body(),
    {
        match self {
            WsError::NoId(id) => {
                let mut out = String::from_str("{\"error\":\"not_found\",\"id\":\"");
                let t = crate::idtext::ulid_str(*id);
                out.append(t.as_str());
                out.append("\",\"message\":\"No job found with id ");
                out.append(t.as_str());
                out.append("\"}");
                proof {
                    assert(out@ =~= self.spec_wire_body());
                }
                out
            },
        }
    }
}

} // verus!
