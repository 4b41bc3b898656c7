//! The wire model: every status update is one JSON object, built here by an
//! explicit, exhaustive mapping from the closed status taxonomy — adding a
//! cause code without extending the encoder is a compile error.

use vstd::prelude::*;
use crate::status::{Failure, FailureKind, Outcome, Status};

verus! {

/// Relies on std's String::push: appends the given character to the end
/// of the string.
pub assume_specification[ String::push ](s: &mut String, c: char)
    ensures
        final(s)@ == old(s)@ + seq![c],
;

/// The decimal digit character of `d`.
pub open spec fn spec_digit(d: nat) -> char {
    if d == 0 {
        '0'
    } else if d == 1 {
        '1'
    } else if d == 2 {
        '2'
    } else if d == 3 {
        '3'
    } else if d == 4 {
        '4'
    } else if d == 5 {
        '5'
    } else if d == 6 {
        '6'
    } else if d == 7 {
        '7'
    } else if d == 8 {
        '8'
    } else {
        '9'
    }
}

/// The decimal rendering of `n`, most significant digit first.
pub open spec fn spec_dec(n: nat) -> Seq<char>
    decreases n,
{
    if n < 10 {
        seq![spec_digit(n)]
    } else {
        spec_dec(n / 10).push(spec_digit(n % 10))
    }
}

/// The single-character string of a decimal digit.
pub fn digit_str(d: u64) -> (r: &'static str)
    requires
        d < 10,
    ensures
        r@ == seq![spec_digit(d as nat)],
{
    proof {
        reveal_strlit("0");
        reveal_strlit("1");
        reveal_strlit("2");
        reveal_strlit("3");
        reveal_strlit("4");
        reveal_strlit("5");
        reveal_strlit("6");
        reveal_strlit("7");
        reveal_strlit("8");
        reveal_strlit("9");
        assert("0"@ =~= seq!['0']);
        assert("1"@ =~= seq!['1']);
        assert("2"@ =~= seq!['2']);
        assert("3"@ =~= seq!['3']);
        assert("4"@ =~= seq!['4']);
        assert("5"@ =~= seq!['5']);
        assert("6"@ =~= seq!['6']);
        assert("7"@ =~= seq!['7']);
        assert("8"@ =~= seq!['8']);
        assert("9"@ =~= seq!['9']);
    }
    match d {
        0 => "0",
        1 => "1",
        2 => "2",
        3 => "3",
        4 => "4",
        5 => "5",
        6 => "6",
        7 => "7",
        8 => "8",
        _ => "9",
    }
}

/// Renders `n` in decimal, exactly as [`spec_dec`] describes.
pub fn dec_str(n: u64) -> (r: String)
    ensures
        r@ == spec_dec(n as nat),
    decreases n,
{
    if n < 10 {
        String::from_str(digit_str(n))
    } else {
        let mut s = dec_str(n / 10);
        s.append(digit_str(n % 10));
        s
    }
}

/// The hexadecimal digit character of `d` (lower case).
pub open spec fn spec_hex_digit(d: nat) -> char {
    if d < 10 {
        spec_digit(d)
    } else if d == 10 {
        'a'
    } else if d == 11 {
        'b'
    } else if d == 12 {
        'c'
    } else if d == 13 {
        'd'
    } else if d == 14 {
        'e'
    } else {
        'f'
    }
}

/// The single-character string of a hexadecimal digit.
fn hex_digit_str(d: u32) -> (r: &'static str)
    requires
        d < 16,
    ensures
        r@ == seq![spec_hex_digit(d as nat)],
{
    if d < 10 {
        digit_str(d as u64)
    } else {
        proof {
            reveal_strlit("a");
            reveal_strlit("b");
            reveal_strlit("c");
            reveal_strlit("d");
            reveal_strlit("e");
            reveal_strlit("f");
            assert("a"@ =~= seq!['a']);
            assert("b"@ =~= seq!['b']);
            assert("c"@ =~= seq!['c']);
            assert("d"@ =~= seq!['d']);
            assert("e"@ =~= seq!['e']);
            assert("f"@ =~= seq!['f']);
        }
        match d {
            10 => "a",
            11 => "b",
            12 => "c",
            13 => "d",
            14 => "e",
            _ => "f",
        }
    }
}

/// How one character stands inside a JSON string: the quote and the
/// backslash escaped, the named control characters short, every other
/// control character as `\u00XX`, everything else itself.
pub open spec fn spec_esc_char(c: char) -> Seq<char> {
    if c == '"' {
        seq!['\\', '"']
    } else if c == '\\' {
        seq!['\\', '\\']
    } else if c == '\n' {
        seq!['\\', 'n']
    } else if c == '\r' {
        seq!['\\', 'r']
    } else if c == '\t' {
        seq!['\\', 't']
    } else if c == '\u{8}' {
        seq!['\\', 'b']
    } else if c == '\u{c}' {
        seq!['\\', 'f']
    } else if (c as u32) < 0x20 {
        seq!['\\', 'u', '0', '0', spec_hex_digit((c as u32 / 16) as nat), spec_hex_digit((
        c as u32 % 16) as nat)]
    } else {
        seq![c]
    }
}

/// The JSON-escaped form of a character sequence.
pub open spec fn spec_esc(s: Seq<char>) -> Seq<char>
    decreases s.len(),
{
    if s.len() == 0 {
        Seq::<char>::empty()
    } else {
        spec_esc(s.drop_last()) + spec_esc_char(s.last())
    }
}

/// Appends the escaped form of one character.
fn push_esc_char(out: &mut String, c: char)
    ensures
        final(out)@ == old(out)@ + spec_esc_char(c),
{
    proof {
        reveal_strlit("\\\"");
        reveal_strlit("\\\\");
        reveal_strlit("\\n");
        reveal_strlit("\\r");
        reveal_strlit("\\t");
        reveal_strlit("\\b");
        reveal_strlit("\\f");
        reveal_strlit("\\u00");
        assert("\\\""@ =~= seq!['\\', '"']);
        assert("\\\\"@ =~= seq!['\\', '\\']);
        assert("\\n"@ =~= seq!['\\', 'n']);
        assert("\\r"@ =~= seq!['\\', 'r']);
        assert("\\t"@ =~= seq!['\\', 't']);
        assert("\\b"@ =~= seq!['\\', 'b']);
        assert("\\f"@ =~= seq!['\\', 'f']);
        assert("\\u00"@ =~= seq!['\\', 'u', '0', '0']);
    }
    if c == '"' {
        out.append("\\\"");
    } else if c == '\\' {
        out.append("\\\\");
    } else if c == '\n' {
        out.append("\\n");
    } else if c == '\r' {
        out.append("\\r");
    } else if c == '\t' {
        out.append("\\t");
    } else if c == '\u{8}' {
        out.append("\\b");
    } else if c == '\u{c}' {
        out.append("\\f");
    } else if (c as u32) < 0x20 {
        let v = c as u32;
        out.append("\\u00");
        out.append(hex_digit_str(v / 16));
        out.append(hex_digit_str(v % 16));
        proof {
            assert(final(out)@ =~= old(out)@ + spec_esc_char(c));
        }
    } else {
        let ghost before = out@;
        let mut one = String::new();
        one.push(c);
        out.append(one.as_str());
        proof {
            assert(final(out)@ =~= before + spec_esc_char(c));
        }
    }
}

/// Escaping distributes over appending one character at the end.
proof fn lemma_esc_snoc(s: Seq<char>, c: char)
    ensures
        spec_esc(s.push(c)) == spec_esc(s) + spec_esc_char(c),
{
    assert(s.push(c).drop_last() =~= s);
    assert(s.push(c).last() == c);
}

/// Appends the JSON-escaped form of `s`, exactly as [`spec_esc`] describes.
pub fn push_escaped(out: &mut String, s: &String)
    ensures
        final(out)@ == old(out)@ + spec_esc(s@),
{
    let n: usize = s.as_str().unicode_len();
    let mut i: usize = 0;
    proof {
        assert(s@.subrange(0, 0) =~= Seq::<char>::empty());
        assert(out@ =~= out@ + spec_esc(s@.subrange(0, 0)));
    }
    while i < n
        invariant
            n == s@.len(),
            i <= n,
            out@ == old(out)@ + spec_esc(s@.subrange(0, i as int)),
        decreases n - i,
    {
        let c = s.as_str().get_char(i);
        push_esc_char(out, c);
        proof {
            assert(s@.subrange(0, i + 1) =~= s@.subrange(0, i as int).push(c));
            lemma_esc_snoc(s@.subrange(0, i as int), c);
        }
        i += 1;
    }
    proof {
        assert(s@.subrange(0, n as int) =~= s@);
    }
}

/// The cause code of each failure kind, as it stands on the wire.
pub open spec fn spec_error_code(k: FailureKind) -> Seq<char> {
    match k {
        FailureKind::VideoTimeout { .. } => "timeout"@,
        FailureKind::VideoSpawn => "spawn"@,
        FailureKind::VideoIo => "io"@,
        FailureKind::VideoImageParse => "image_parse"@,
        FailureKind::VideoJoin => "join"@,
        FailureKind::VideoFfmpeg => "ffmpeg"@,
        FailureKind::UploadTransport => "reqwest"@,
        FailureKind::UploadApi { .. } => "api"@,
        FailureKind::UploadParse => "parse"@,
        FailureKind::UploadOther => "other"@,
        FailureKind::InternalChannel => "channel"@,
        FailureKind::InternalIo => "io"@,
    }
}

/// The stage tag of each failure kind, as it stands on the wire.
pub open spec fn spec_stage_tag(k: FailureKind) -> Seq<char> {
    match k.spec_stage() {
        crate::status::FailureStage::Video => "video"@,
        crate::status::FailureStage::Upload => "upload"@,
        crate::status::FailureStage::Internal => "internal"@,
    }
}

/// The cause-specific fields of a failure: the timeout carries the observed
/// and allowed durations, the remote error carries the remote message;
/// every other kind adds nothing.
pub open spec fn spec_error_extras(k: FailureKind) -> Seq<char> {
    match k {
        FailureKind::VideoTimeout { value_ms, max_ms } => ",\"value\":"@ + spec_dec(
            value_ms as nat,
        ) + ",\"max\":"@ + spec_dec(max_ms as nat),
        FailureKind::UploadApi { remote_message } => ",\"original\":{\"message\":\""@ + spec_esc(
            remote_message@,
        ) + "\"}"@,
        _ => Seq::<char>::empty(),
    }
}

/// A failure as a JSON object: cause code, stage tag, cause-specific
/// fields, then the recorded message.
pub open spec fn spec_failure_obj(f: Failure) -> Seq<char> {
    "{\"error\":\""@ + spec_error_code(f.kind) + "\",\"stage\":\""@ + spec_stage_tag(f.kind)
        + "\""@ + spec_error_extras(f.kind) + ",\"message\":\""@ + spec_esc(f.message@) + "\"}"@
}

/// A status update as one JSON object, tag-discriminated on `state`.
pub open spec fn spec_status_wire(s: Status) -> Seq<char> {
    match s {
        Status::Queued => "{\"state\":\"queued\"}"@,
        Status::Processing => "{\"state\":\"processing\"}"@,
        Status::Uploading => "{\"state\":\"uploading\"}"@,
        Status::Done(Outcome::Success { video_id }) => "{\"state\":\"done\",\"success\":true,\"video_id\":\""@
            + spec_esc(video_id@) + "\"}"@,
        Status::Done(Outcome::Failure(f)) => "{\"state\":\"done\",\"success\":false,\"error\":"@
            + spec_failure_obj(f) + "}"@,
    }
}

/// Appends the cause-specific fields of `k`.
fn push_extras(out: &mut String, k: &FailureKind)
    ensures
        final(out)@ == old(out)@ + spec_error_extras(*k),
{
    match k {
        FailureKind::VideoTimeout { value_ms, max_ms } => {
            let ghost before = out@;
            out.append(",\"value\":");
            let v = dec_str(*value_ms);
            out.append(v.as_str());
            out.append(",\"max\":");
            let m = dec_str(*max_ms);
            out.append(m.as_str());
            proof {
                assert(out@ =~= before + spec_error_extras(*k));
            }
        },
        FailureKind::UploadApi { remote_message } => {
            let ghost before = out@;
            out.append(",\"original\":{\"message\":\"");
            push_escaped(out, remote_message);
            out.append("\"}");
            proof {
                assert(out@ =~= before + spec_error_extras(*k));
            }
        },
        _ => {
            proof {
                assert(out@ =~= out@ + spec_error_extras(*k));
            }
        },
    }
}

/// The executable cause code.
fn error_code_str(k: &FailureKind) -> (r: &'static str)
    ensures
        r@ == spec_error_code(*k),
{
    match k {
        FailureKind::VideoTimeout { .. } => "timeout",
        FailureKind::VideoSpawn => "spawn",
        FailureKind::VideoIo => "io",
        FailureKind::VideoImageParse => "image_parse",
        FailureKind::VideoJoin => "join",
        FailureKind::VideoFfmpeg => "ffmpeg",
        FailureKind::UploadTransport => "reqwest",
        FailureKind::UploadApi { .. } => "api",
        FailureKind::UploadParse => "parse",
        FailureKind::UploadOther => "other",
        FailureKind::InternalChannel => "channel",
        FailureKind::InternalIo => "io",
    }
}

/// The executable stage tag.
fn stage_tag_str(k: &FailureKind) -> (r: &'static str)
    ensures
        r@ == spec_stage_tag(*k),
{
    match k.stage() {
        crate::status::FailureStage::Video => "video",
        crate::status::FailureStage::Upload => "upload",
        crate::status::FailureStage::Internal => "internal",
    }
}

/// Appends a failure's JSON object, exactly as [`spec_failure_obj`] says.
fn push_failure_obj(out: &mut String, f: &Failure)
    ensures
        final(out)@ == old(out)@ + spec_failure_obj(*f),
{
    let ghost before = out@;
    out.append("{\"error\":\"");
    out.append(error_code_str(&f.kind));
    out.append("\",\"stage\":\"");
    out.append(stage_tag_str(&f.kind));
    out.append("\"");
    push_extras(out, &f.kind);
    out.append(",\"message\":\"");
    push_escaped(out, &f.message);
    out.append("\"}");
    proof {
        assert(out@ =~= before + spec_failure_obj(*f));
    }
}

/// Encodes a status update for the wire, exactly as [`spec_status_wire`]
/// describes: the explicit mapping from the closed taxonomy to the JSON
/// schema.
pub fn encode_status(s: &Status) -> (r: String)
    ensures
        r@ == spec_status_wire(*s),
{
    match s {
        Status::Queued => String::from_str("{\"state\":\"queued\"}"),
        Status::Processing => String::from_str("{\"state\":\"processing\"}"),
        Status::Uploading => String::from_str("{\"state\":\"uploading\"}"),
        Status::Done(Outcome::Success { video_id }) => {
            let mut out = String::from_str("{\"state\":\"done\",\"success\":true,\"video_id\":\"");
            push_escaped(&mut out, video_id);
            out.append("\"}");
            proof {
                assert(out@ =~= spec_status_wire(*s));
            }
            out
        },
        Status::Done(Outcome::Failure(f)) => {
            let mut out = String::from_str("{\"state\":\"done\",\"success\":false,\"error\":");
            push_failure_obj(&mut out, f);
            out.append("}");
            proof {
                assert(out@ =~= spec_status_wire(*s));
            }
            out
        },
    }
}

} // verus!
