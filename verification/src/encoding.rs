//! Standard base64 text (RFC 4648, section 4: the alphabet A–Z, a–z,
//! 0–9, '+', '/', with '=' padding), as the configured keys are written.

use vstd::prelude::*;
use vstd::string::StrSliceExecFns;

verus! {

/// The value of a base64 digit, or -1 for a character outside the
/// alphabet.
pub open spec fn base64_digit(c: char) -> int {
    if 'A' <= c && c <= 'Z' {
        c as int - 'A' as int
    } else if 'a' <= c && c <= 'z' {
        c as int - 'a' as int + 26
    } else if '0' <= c && c <= '9' {
        c as int - '0' as int + 52
    } else if c == '+' {
        62
    } else if c == '/' {
        63
    } else {
        -1
    }
}

/// The number of '=' padding characters that end `s` (at most two).
pub open spec fn base64_padding(s: Seq<char>) -> int {
    if s.len() >= 1 && s[s.len() - 1] == '=' {
        if s.len() >= 2 && s[s.len() - 2] == '=' { 2 } else { 1 }
    } else {
        0
    }
}

/// `s` is canonical padded base64: whole groups of four characters, all
/// digits but the padding, and the bits that the padding leaves over in
/// the last digit are zero.
pub open spec fn is_base64(s: Seq<char>) -> bool {
    let pad = base64_padding(s);
    &&& s.len() % 4 == 0
    &&& forall|i: int| 0 <= i < s.len() - pad ==> base64_digit(#[trigger] s[i]) >= 0
    &&& (pad == 1 ==> base64_digit(s[s.len() - 2]) % 4 == 0)
    &&& (pad == 2 ==> base64_digit(s[s.len() - 3]) % 16 == 0)
}

/// The number of bytes that base64 text `s` decodes to.
pub open spec fn base64_decoded_len(s: Seq<char>) -> int {
    s.len() / 4 * 3 - base64_padding(s)
}

/// The value of a base64 digit.
fn digit_of(c: char) -> (r: i32)
    ensures
        r == base64_digit(c),
{
    if 'A' <= c && c <= 'Z' {
        (c as u32 - 'A' as u32) as i32
    } else if 'a' <= c && c <= 'z' {
        (c as u32 - 'a' as u32 + 26) as i32
    } else if '0' <= c && c <= '9' {
        (c as u32 - '0' as u32 + 52) as i32
    } else if c == '+' {
        62
    } else if c == '/' {
        63
    } else {
        -1
    }
}

/// The number of bytes `s` decodes to, when it is base64 text.
pub fn base64_len(s: &str) -> (r: Option<usize>)
    ensures
        match r {
            Some(n) => is_base64(s@) && n == base64_decoded_len(s@),
            None => !is_base64(s@),
        },
{
    let n = s.unicode_len();
    if n % 4 != 0 {
        return None;
    }
    let pad: usize = if n >= 1 && s.get_char(n - 1) == '=' {
        if n >= 2 && s.get_char(n - 2) == '=' { 2 } else { 1 }
    } else {
        0
    };
    assert(pad == base64_padding(s@));
    let body = n - pad;
    let mut i: usize = 0;
    while i < body
        invariant
            n == s@.len(),
            body == n - pad,
            pad == base64_padding(s@),
            i <= body,
            forall|k: int| 0 <= k < i ==> base64_digit(#[trigger] s@[k]) >= 0,
        decreases body - i,
    {
        if digit_of(s.get_char(i)) < 0 {
            return None;
        }
        i = i + 1;
    }
    if pad == 1 && digit_of(s.get_char(n - 2)) % 4 != 0 {
        return None;
    }
    if pad == 2 && digit_of(s.get_char(n - 3)) % 16 != 0 {
        return None;
    }
    Some(n / 4 * 3 - pad)
}

/// A key written as base64 of exactly 32 bytes.
pub open spec fn is_base64_key32(s: Seq<char>) -> bool {
    is_base64(s) && base64_decoded_len(s) == 32
}

/// Whether `s` is base64 of exactly 32 bytes.
pub fn check_base64_key32(s: &str) -> (r: bool)
    ensures
        r == is_base64_key32(s@),
{
    match base64_len(s) {
        Some(len) => len == 32,
        None => false,
    }
}

} // verus!

verus! {

/// Base64 of exactly 32 bytes is 44 characters: 43 base64 digits, the
/// last of which has its two low bits clear, and one '=' of padding.
/// Every such text is accepted, and nothing else is.
pub proof fn lemma_key32_shape(s: Seq<char>)
    ensures
        is_base64_key32(s) <==> (
            s.len() == 44
            && s[43] == '='
            && (forall|i: int| 0 <= i < 43 ==> base64_digit(#[trigger] s[i]) >= 0)
            && base64_digit(s[42]) % 4 == 0),
{
    if is_base64_key32(s) {
        let pad = base64_padding(s);
        assert(s.len() / 4 * 3 - pad == 32);
        assert(0 <= pad <= 2);
        assert(s.len() % 4 == 0);
        assert(s.len() == 44) by (nonlinear_arith)
            requires s.len() / 4 * 3 - pad == 32, 0 <= pad <= 2, s.len() % 4 == 0;
        assert(pad == 1);
    }
    if s.len() == 44 && s[43] == '=' && (forall|i: int| 0 <= i < 43 ==> base64_digit(#[trigger] s[i]) >= 0)
        && base64_digit(s[42]) % 4 == 0 {
        assert(base64_digit(s[42]) >= 0);
        assert(s[42] != '=');
        assert(base64_padding(s) == 1);
    }
}

} // verus!
