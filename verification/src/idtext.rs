//! The text form of a job identifier — 26 characters of Crockford base32,
//! five bits each, most significant first — and the few wire pieces built
//! from it: the status-stream path, the admission answer, the lookup
//! failure message.

use vstd::prelude::*;
use crate::wire::{spec_digit, spec_esc};

verus! {

/// The Crockford base32 alphabet: digits, then the letters with I, L, O
/// and U left out.
pub open spec fn spec_b32_digit(v: nat) -> char {
    if v < 10 {
        spec_digit(v)
    } else if v == 10 {
        'A'
    } else if v == 11 {
        'B'
    } else if v == 12 {
        'C'
    } else if v == 13 {
        'D'
    } else if v == 14 {
        'E'
    } else if v == 15 {
        'F'
    } else if v == 16 {
        'G'
    } else if v == 17 {
        'H'
    } else if v == 18 {
        'J'
    } else if v == 19 {
        'K'
    } else if v == 20 {
        'M'
    } else if v == 21 {
        'N'
    } else if v == 22 {
        'P'
    } else if v == 23 {
        'Q'
    } else if v == 24 {
        'R'
    } else if v == 25 {
        'S'
    } else if v == 26 {
        'T'
    } else if v == 27 {
        'V'
    } else if v == 28 {
        'W'
    } else if v == 29 {
        'X'
    } else if v == 30 {
        'Y'
    } else {
        'Z'
    }
}

/// The `i`-th character of an identifier's text: its bits 125-5i and up.
pub open spec fn spec_ulid_char(id: u128, i: int) -> char {
    spec_b32_digit(((id >> ((125 - 5 * i) as u128)) & 31) as nat)
}

/// The full 26-character text of an identifier.
pub open spec fn spec_ulid_seq(id: u128) -> Seq<char> {
    Seq::new(26, |i: int| spec_ulid_char(id, i))
}

/// The single-character string of a base32 digit.
fn b32_digit_str(v: u32) -> (r: &'static str)
    requires
        v < 32,
    ensures
        r@ == seq![spec_b32_digit(v as nat)],
{
    if v < 10 {
        crate::wire::digit_str(v as u64)
    } else {
        proof {
            reveal_strlit("A");
            reveal_strlit("B");
            reveal_strlit("C");
            reveal_strlit("D");
            reveal_strlit("E");
            reveal_strlit("F");
            reveal_strlit("G");
            reveal_strlit("H");
            reveal_strlit("J");
            reveal_strlit("K");
            reveal_strlit("M");
            reveal_strlit("N");
            reveal_strlit("P");
            reveal_strlit("Q");
            reveal_strlit("R");
            reveal_strlit("S");
            reveal_strlit("T");
            reveal_strlit("V");
            reveal_strlit("W");
            reveal_strlit("X");
            reveal_strlit("Y");
            reveal_strlit("Z");
            assert("A"@ =~= seq!['A']);
            assert("B"@ =~= seq!['B']);
            assert("C"@ =~= seq!['C']);
            assert("D"@ =~= seq!['D']);
            assert("E"@ =~= seq!['E']);
            assert("F"@ =~= seq!['F']);
            assert("G"@ =~= seq!['G']);
            assert("H"@ =~= seq!['H']);
            assert("J"@ =~= seq!['J']);
            assert("K"@ =~= seq!['K']);
            assert("M"@ =~= seq!['M']);
            assert("N"@ =~= seq!['N']);
            assert("P"@ =~= seq!['P']);
            assert("Q"@ =~= seq!['Q']);
            assert("R"@ =~= seq!['R']);
            assert("S"@ =~= seq!['S']);
            assert("T"@ =~= seq!['T']);
            assert("V"@ =~= seq!['V']);
            assert("W"@ =~= seq!['W']);
            assert("X"@ =~= seq!['X']);
            assert("Y"@ =~= seq!['Y']);
            assert("Z"@ =~= seq!['Z']);
        }
        match v {
            10 => "A",
            11 => "B",
            12 => "C",
            13 => "D",
            14 => "E",
            15 => "F",
            16 => "G",
            17 => "H",
            18 => "J",
            19 => "K",
            20 => "M",
            21 => "N",
            22 => "P",
            23 => "Q",
            24 => "R",
            25 => "S",
            26 => "T",
            27 => "V",
            28 => "W",
            29 => "X",
            30 => "Y",
            _ => "Z",
        }
    }
}

/// Renders an identifier as its 26-character text, exactly as
/// [`spec_ulid_seq`] describes.
pub fn ulid_str(id: u128) -> (r: String)
    ensures
        r@ == spec_ulid_seq(id),
{
    let mut out = String::new();
    let mut i: usize = 0;
    while i < 26
        invariant
            i <= 26,
            out@.len() == i,
            forall|j: int| 0 <= j < i ==> out@[j] == spec_ulid_char(id, j),
        decreases 26 - i,
    {
        let sh: u128 = (125 - 5 * (i as u32)) as u128;
        let masked: u128 = (id >> sh) & 31;
        proof {
            assert((id >> sh) & 31 < 32) by (bit_vector);
        }
        let v: u32 = masked as u32;
        out.append(b32_digit_str(v));
        i += 1;
    }
    proof {
        assert(out@ =~= spec_ulid_seq(id));
    }
    out
}

/// The path observers attach to for a job's status stream.
pub fn ws_path(id: u128) -> (r: String)
    ensures
        r@ == "/ws/"@ + spec_ulid_seq(id),
{
    let mut out = String::from_str("/ws/");
    let t = ulid_str(id);
    out.append(t.as_str());
    out
}

/// The lookup-failure message for an unknown job identifier.
pub fn no_job_message(id: u128) -> (r: String)
    ensures
        r@ == "No job found with id "@ + spec_ulid_seq(id),
{
    let mut out = String::from_str("No job found with id ");
    let t = ulid_str(id);
    out.append(t.as_str());
    out
}

/// The body an accepted submission answers with: no error, the path to
/// attach at, and the job's identifier.
pub open spec fn spec_accepted_body(id: u128, ws_url: Seq<char>) -> Seq<char> {
    "{\"error\":false,\"ws_url\":\""@ + spec_esc(ws_url) + "\",\"id\":\""@ + spec_ulid_seq(id)
        + "\"}"@
}

/// Encodes [`spec_accepted_body`].
pub fn accepted_body(id: u128, ws_url: &String) -> (r: String)
    ensures
        r@ == spec_accepted_body(id, ws_url@),
{
    let mut out = String::from_str("{\"error\":false,\"ws_url\":\"");
    crate::wire::push_escaped(&mut out, ws_url);
    out.append("\",\"id\":\"");
    let t = ulid_str(id);
    out.append(t.as_str());
    out.append("\"}");
    proof {
        assert(out@ =~= spec_accepted_body(id, ws_url@));
    }
    out
}

} // verus!
