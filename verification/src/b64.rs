//! Base64url decoding without padding, as JWT segments use it.
//!
//! The decoder is strict: a segment whose length leaves a remainder of one,
//! a byte outside the base64url alphabet, or non-zero trailing bits in the
//! final partial group all yield `None`.

use vstd::prelude::*;

verus! {

/// The 6-bit value of one base64url alphabet byte, or `None` for a byte
/// outside the alphabet.
pub open spec fn spec_b64u_val(c: u8) -> Option<u8> {
    if 65 <= c <= 90 {
        // 'A'..='Z'
        Some((c - 65) as u8)
    } else if 97 <= c <= 122 {
        // 'a'..='z'
        Some((c - 97 + 26) as u8)
    } else if 48 <= c <= 57 {
        // '0'..='9'
        Some((c - 48 + 52) as u8)
    } else if c == 45 {
        // '-'
        Some(62u8)
    } else if c == 95 {
        // '_'
        Some(63u8)
    } else {
        None
    }
}

/// The bytes that a base64url text without padding denotes, or `None` if it
/// is not canonical base64url.
pub open spec fn spec_b64u_decode(s: Seq<u8>) -> Option<Seq<u8>>
    decreases s.len(),
{
    if s.len() == 0 {
        Some(Seq::empty())
    } else if s.len() == 1 {
        None
    } else if s.len() == 2 {
        match (spec_b64u_val(s[0]), spec_b64u_val(s[1])) {
            (Some(v0), Some(v1)) => if v1 % 16 == 0 {
                Some(seq![(v0 * 4 + v1 / 16) as u8])
            } else {
                None
            },
            _ => None,
        }
    } else if s.len() == 3 {
        match (spec_b64u_val(s[0]), spec_b64u_val(s[1]), spec_b64u_val(s[2])) {
            (Some(v0), Some(v1), Some(v2)) => if v2 % 4 == 0 {
                Some(seq![(v0 * 4 + v1 / 16) as u8, ((v1 % 16) * 16 + v2 / 4) as u8])
            } else {
                None
            },
            _ => None,
        }
    } else {
        match (spec_b64u_val(s[0]), spec_b64u_val(s[1]), spec_b64u_val(s[2]), spec_b64u_val(s[3])) {
            (Some(v0), Some(v1), Some(v2), Some(v3)) => match spec_b64u_decode(s.skip(4)) {
                Some(rest) => Some(
                    seq![
                        (v0 * 4 + v1 / 16) as u8,
                        ((v1 % 16) * 16 + v2 / 4) as u8,
                        ((v2 % 4) * 64 + v3) as u8,
                    ] + rest,
                ),
                None => None,
            },
            _ => None,
        }
    }
}

/// The 6-bit value of one base64url alphabet byte.
fn b64u_val(c: u8) -> (r: Option<u8>)
    ensures
        r == spec_b64u_val(c),
{
    if 65 <= c && c <= 90 {
        Some(c - 65)
    } else if 97 <= c && c <= 122 {
        Some(c - 97 + 26)
    } else if 48 <= c && c <= 57 {
        Some(c - 48 + 52)
    } else if c == 45 {
        Some(62)
    } else if c == 95 {
        Some(63)
    } else {
        None
    }
}

/// Decodes base64url text without padding.
pub fn b64u_decode(s: &[u8]) -> (r: Option<Vec<u8>>)
    ensures
        match r {
            Some(v) => spec_b64u_decode(s@) == Some(v@),
            None => spec_b64u_decode(s@) is None,
        },
{
    let n = s.len();
    let mut out: Vec<u8> = Vec::new();
    let mut i: usize = 0;
    assert(s@.skip(0) =~= s@);
    while n - i >= 4
        invariant
            i <= n,
            n == s@.len(),
            i % 4 == 0,
            match spec_b64u_decode(s@.skip(i as int)) {
                Some(rest) => spec_b64u_decode(s@) == Some(out@ + rest),
                None => spec_b64u_decode(s@) is None,
            },
        decreases n - i,
    {
        let ghost tail = s@.skip(i as int);
        assert(tail.len() >= 4);
        assert(tail[0] == s@[i as int] && tail[1] == s@[i + 1] && tail[2] == s@[i + 2] && tail[3]
            == s@[i + 3]);
        let v0 = b64u_val(s[i]);
        let v1 = b64u_val(s[i + 1]);
        let v2 = b64u_val(s[i + 2]);
        let v3 = b64u_val(s[i + 3]);
        match (v0, v1, v2, v3) {
            (Some(v0), Some(v1), Some(v2), Some(v3)) => {
                out.push(v0 * 4 + v1 / 16);
                out.push((v1 % 16) * 16 + v2 / 4);
                out.push((v2 % 4) * 64 + v3);
                assert(tail.skip(4) =~= s@.skip(i + 4));
            },
            _ => {
                return None;
            },
        }
        i = i + 4;
    }
    let ghost tail = s@.skip(i as int);
    assert(tail.len() == n - i);
    if i == n {
        assert(tail =~= Seq::<u8>::empty());
        assert(out@ + tail == out@) by {
            assert(out@ + Seq::<u8>::empty() =~= out@);
        }
        Some(out)
    } else if n - i == 1 {
        None
    } else if n - i == 2 {
        assert(tail[0] == s@[i as int] && tail[1] == s@[i + 1]);
        match (b64u_val(s[i]), b64u_val(s[i + 1])) {
            (Some(v0), Some(v1)) => {
                if v1 % 16 == 0 {
                    out.push(v0 * 4 + v1 / 16);
                    Some(out)
                } else {
                    None
                }
            },
            _ => None,
        }
    } else {
        assert(n - i == 3);
        assert(tail[0] == s@[i as int] && tail[1] == s@[i + 1] && tail[2] == s@[i + 2]);
        match (b64u_val(s[i]), b64u_val(s[i + 1]), b64u_val(s[i + 2])) {
            (Some(v0), Some(v1), Some(v2)) => {
                if v2 % 4 == 0 {
                    out.push(v0 * 4 + v1 / 16);
                    out.push((v1 % 16) * 16 + v2 / 4);
                    Some(out)
                } else {
                    None
                }
            },
            _ => None,
        }
    }
}

} // verus!
