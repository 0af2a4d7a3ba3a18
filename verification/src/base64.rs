//! Base64, in which a program sends what it wants on the clipboard.

use vstd::prelude::*;

verus! {

/// `=`, which pads base64 text.
pub const PAD: u8 = 0x3D;

/// Whether `b` is a base64 digit: a letter, a digit, `+` or `/`.
pub open spec fn is_sextet(b: u8) -> bool {
    (0x41 <= b <= 0x5A) || (0x61 <= b <= 0x7A) || (0x30 <= b <= 0x39) || b == 0x2B || b == 0x2F
}

/// The six bits that the base64 digit `b` stands for: `A`–`Z` are 0–25,
/// `a`–`z` 26–51, `0`–`9` 52–61, `+` is 62 and `/` is 63.
pub open spec fn sextet(b: u8) -> int {
    if 0x41 <= b <= 0x5A {
        b - 0x41
    } else if 0x61 <= b <= 0x7A {
        b - 0x61 + 26
    } else if 0x30 <= b <= 0x39 {
        b - 0x30 + 52
    } else if b == 0x2B {
        62
    } else {
        63
    }
}

/// The number of digits of `s` before its padding: `s` without up to two
/// `=` at its end.
pub open spec fn body_len(s: Seq<u8>) -> int {
    if s.len() >= 2 && s[s.len() - 1] == PAD && s[s.len() - 2] == PAD {
        s.len() - 2
    } else if s.len() >= 1 && s[s.len() - 1] == PAD {
        s.len() - 1
    } else {
        s.len() as int
    }
}

/// Whether `s` is base64 text: digits, then at most two `=`, and not one
/// digit more than a multiple of four.
pub open spec fn is_base64(s: Seq<u8>) -> bool {
    &&& forall|i: int| 0 <= i < body_len(s) ==> is_sextet(#[trigger] s[i])
    &&& body_len(s) % 4 != 1
}

/// Byte `k` of what the digits `s` write: every four digits write three
/// bytes, the first digit giving the highest bits.
pub open spec fn decoded_byte(s: Seq<u8>, k: int) -> u8 {
    let g = 4 * (k / 3);
    if k % 3 == 0 {
        (sextet(s[g]) * 4 + sextet(s[g + 1]) / 16) as u8
    } else if k % 3 == 1 {
        ((sextet(s[g + 1]) % 16) * 16 + sextet(s[g + 2]) / 4) as u8
    } else {
        ((sextet(s[g + 2]) % 4) * 64 + sextet(s[g + 3])) as u8
    }
}

/// The bytes that the base64 text `s` writes: three for every four digits,
/// and one or two for two or three digits at the end.
pub open spec fn decoded(s: Seq<u8>) -> Seq<u8> {
    Seq::new((body_len(s) * 3 / 4) as nat, |k: int| decoded_byte(s, k))
}

fn value(b: u8) -> (v: Option<u8>)
    ensures
        v is Some <==> is_sextet(b),
        v matches Some(x) ==> x == sextet(b) && x < 64,
{
    if 0x41 <= b && b <= 0x5A {
        Some(b - 0x41)
    } else if 0x61 <= b && b <= 0x7A {
        Some(b - 0x61 + 26)
    } else if 0x30 <= b && b <= 0x39 {
        Some(b - 0x30 + 52)
    } else if b == 0x2B {
        Some(62)
    } else if b == 0x2F {
        Some(63)
    } else {
        None
    }
}

/// Decodes base64 text: `Some` of the bytes that it writes if it is base64
/// text, `None` if it is not.
pub fn decode(s: &Vec<u8>) -> (r: Option<Vec<u8>>)
    ensures
        match r {
            Some(bytes) => is_base64(s@) && bytes@ == decoded(s@),
            None => !is_base64(s@),
        },
{
    let n = s.len();
    let body: usize = if n >= 2 && s[n - 1] == PAD && s[n - 2] == PAD {
        n - 2
    } else if n >= 1 && s[n - 1] == PAD {
        n - 1
    } else {
        n
    };
    if body % 4 == 1 {
        return None;
    }
    let mut out: Vec<u8> = Vec::new();
    let mut i: usize = 0;
    // The digits read in the group of four that is being read.
    let mut a: u8 = 0;
    let mut b: u8 = 0;
    let mut c: u8 = 0;
    while i < body
        invariant
            i <= body == body_len(s@),
            body <= s.len(),
            forall|j: int| 0 <= j < i ==> is_sextet(#[trigger] s@[j]),
            out@.len() == i * 3 / 4,
            forall|k: int| 0 <= k < out@.len() ==> out@[k] == decoded_byte(s@, k),
            i % 4 >= 1 ==> a == sextet(s@[i - i % 4]),
            i % 4 >= 2 ==> b == sextet(s@[i - i % 4 + 1]),
            i % 4 >= 3 ==> c == sextet(s@[i - i % 4 + 2]),
            a < 64,
            b < 64,
            c < 64,
        decreases body - i,
    {
        let v = match value(s[i]) {
            Some(v) => v,
            None => {
                assert(!is_sextet(s@[i as int]));
                return None;
            },
        };
        let ghost k = out@.len() as int;
        if i % 4 == 0 {
            a = v;
        } else if i % 4 == 1 {
            b = v;
            out.push(a * 4 + b / 16);
            assert(k % 3 == 0 && 4 * (k / 3) == i - 1);
        } else if i % 4 == 2 {
            c = v;
            out.push((b % 16) * 16 + c / 4);
            assert(k % 3 == 1 && 4 * (k / 3) == i - 2);
        } else {
            out.push((c % 4) * 64 + v);
            assert(k % 3 == 2 && 4 * (k / 3) == i - 3);
        }
        i += 1;
    }
    assert(out@ =~= decoded(s@));
    Some(out)
}

} // verus!
