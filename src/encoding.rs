//! Standard base64 encoding (RFC 4648 alphabet, `=` padding).

use vstd::prelude::*;

verus! {

/// ASCII code of the base64 digit with value `v` (`v < 64`).
pub open spec fn digit_code(v: int) -> u8 {
    if v < 26 {
        (65 + v) as u8
    } else if v < 52 {
        (97 + v - 26) as u8
    } else if v < 62 {
        (48 + v - 52) as u8
    } else if v == 62 {
        43u8
    } else {
        47u8
    }
}

/// The base64 digit with value `v`.
pub open spec fn digit(v: int) -> char {
    digit_code(v) as char
}

/// Byte `i` of `data`, or zero past its end.
pub open spec fn byte_or_zero(data: Seq<u8>, i: int) -> int {
    if i < data.len() {
        data[i] as int
    } else {
        0
    }
}

/// The four characters that encode the group of up to three bytes starting
/// at `start`; missing bytes become `=` padding.
pub open spec fn group_chars(data: Seq<u8>, start: int) -> Seq<char> {
    let b0 = data[start] as int;
    let b1 = byte_or_zero(data, start + 1);
    let b2 = byte_or_zero(data, start + 2);
    seq![
        digit(b0 / 4),
        digit((b0 % 4) * 16 + b1 / 16),
        if start + 1 < data.len() {
            digit((b1 % 16) * 4 + b2 / 64)
        } else {
            '='
        },
        if start + 2 < data.len() {
            digit(b2 % 64)
        } else {
            '='
        },
    ]
}

/// Encoding of the first `n` groups of three bytes.
pub open spec fn encode_groups(data: Seq<u8>, n: nat) -> Seq<char>
    decreases n,
{
    if n == 0 {
        Seq::empty()
    } else {
        encode_groups(data, (n - 1) as nat) + group_chars(data, 3 * (n - 1))
    }
}

/// Base64 encoding of `data`.
pub open spec fn base64_spec(data: Seq<u8>) -> Seq<char> {
    encode_groups(data, ((data.len() + 2) / 3) as nat)
}

/// Relies on `String::push`: appends one character.
#[verifier::external_body]
fn push_char(s: &mut String, c: char)
    ensures
        final(s)@ == old(s)@.push(c),
{
    s.push(c);
}

fn digit_char(v: u32) -> (c: char)
    requires
        v < 64,
    ensures
        c == digit(v as int),
{
    let code: u8 = if v < 26 {
        (65 + v) as u8
    } else if v < 52 {
        (97 + v - 26) as u8
    } else if v < 62 {
        (48 + v - 52) as u8
    } else if v == 62 {
        43
    } else {
        47
    };
    code as char
}

/// Encodes `data` in base64 with the standard alphabet and padding.
pub fn base64_encode(data: &[u8]) -> (r: String)
    ensures
        r@ == base64_spec(data@),
        r@.len() == 4 * ((data@.len() + 2) / 3),
{
    let mut result = String::new();
    let len = data.len();
    let mut i: usize = 0;
    let ghost mut n: nat = 0;
    while i < len
        invariant
            len == data@.len(),
            i <= len,
            i < len ==> i == 3 * n,
            i == len ==> n == (len + 2) / 3,
            result@ == encode_groups(data@, n),
            result@.len() == 4 * n,
        decreases len - i,
    {
        let b0 = data[i] as u32;
        let b1: u32 = if i + 1 < len { data[i + 1] as u32 } else { 0 };
        let b2: u32 = if i + 2 < len { data[i + 2] as u32 } else { 0 };
        let c0 = digit_char(b0 / 4);
        let c1 = digit_char((b0 % 4) * 16 + b1 / 16);
        let c2 = if i + 1 < len { digit_char((b1 % 16) * 4 + b2 / 64) } else { '=' };
        let c3 = if i + 2 < len { digit_char(b2 % 64) } else { '=' };
        let ghost before = result@;
        push_char(&mut result, c0);
        push_char(&mut result, c1);
        push_char(&mut result, c2);
        push_char(&mut result, c3);
        proof {
            assert(result@ =~= before + group_chars(data@, i as int));
            n = n + 1;
        }
        i = if len - i > 3 { i + 3 } else { len };
    }
    result
}

} // verus!
