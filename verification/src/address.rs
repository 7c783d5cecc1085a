//! Parsing a checksummed 20-byte address from its hex text.
//!
//! The casing of the 40 hex digits must agree with the Keccak-256 digest
//! of their lowercase form: a hex letter is upper-case exactly when the
//! digest nibble at its position is 8 or more.  Malformed or miscased
//! addresses are rejected, never coerced.

use vstd::prelude::*;

use crate::crypto::keccak_of;
use crate::crypto::keccak256;

verus! {

/// The value of one hex digit byte, either case, or `None`.
pub open spec fn spec_hex_val(c: u8) -> Option<u8> {
    if 48 <= c <= 57 {
        // '0'..='9'
        Some((c - 48) as u8)
    } else if 97 <= c <= 102 {
        // 'a'..='f'
        Some((c - 97 + 10) as u8)
    } else if 65 <= c <= 70 {
        // 'A'..='F'
        Some((c - 65 + 10) as u8)
    } else {
        None
    }
}

/// The bytes that an even-length hex text denotes, or `None`.
pub open spec fn spec_hex_decode(s: Seq<u8>) -> Option<Seq<u8>>
    decreases s.len(),
{
    if s.len() == 0 {
        Some(Seq::empty())
    } else if s.len() == 1 {
        None
    } else {
        match (spec_hex_val(s[0]), spec_hex_val(s[1])) {
            (Some(a), Some(b)) => match spec_hex_decode(s.skip(2)) {
                Some(rest) => Some(seq![(a * 16 + b) as u8] + rest),
                None => None,
            },
            _ => None,
        }
    }
}

/// An ASCII byte folded to lower case.
pub open spec fn spec_to_lower(c: u8) -> u8 {
    if 65 <= c <= 90 {
        (c + 32) as u8
    } else {
        c
    }
}

/// A byte string folded to lower case.
pub open spec fn spec_lower(s: Seq<u8>) -> Seq<u8> {
    s.map_values(|c: u8| spec_to_lower(c))
}

/// Whether the byte is a hex letter, either case.
pub open spec fn spec_is_hex_letter(c: u8) -> bool {
    (65 <= c <= 70) || (97 <= c <= 102)
}

/// The `i`th nibble of a digest, high nibble first.
pub open spec fn spec_nibble(h: Seq<u8>, i: int) -> u8 {
    if i % 2 == 0 {
        (h[i / 2] / 16) as u8
    } else {
        (h[i / 2] % 16) as u8
    }
}

/// Whether the casing of 40 hex digits agrees with the Keccak-256 digest
/// of their lowercase form.
pub open spec fn spec_checksum_ok(s: Seq<u8>) -> bool {
    let h = keccak_of(spec_lower(s));
    forall|i: int|
        0 <= i < s.len() && spec_is_hex_letter(s[i]) ==> ((s[i] <= 70) <==> spec_nibble(h, i)
            >= 8)
}

/// The 20 bytes of a checksummed address text `0x` + 40 hex digits whose
/// casing passes the checksum, or `None`.
pub open spec fn spec_parse_checksummed(s: Seq<u8>) -> Option<Seq<u8>> {
    if s.len() == 42 && s[0] == 48 && s[1] == 120 {
        let hexpart = s.subrange(2, 42);
        match spec_hex_decode(hexpart) {
            Some(b) => if spec_checksum_ok(hexpart) {
                Some(b)
            } else {
                None
            },
            None => None,
        }
    } else {
        None
    }
}

proof fn lemma_hex_val_case(a: u8, b: u8)
    requires
        spec_to_lower(a) == spec_to_lower(b),
    ensures
        spec_hex_val(a) == spec_hex_val(b),
{
}

/// A hex digit carries the same value in either case: two texts equal up
/// to case decode to the same bytes.
pub proof fn lemma_hex_case_insensitive(s1: Seq<u8>, s2: Seq<u8>)
    requires
        spec_lower(s1) == spec_lower(s2),
    ensures
        spec_hex_decode(s1) == spec_hex_decode(s2),
    decreases s1.len(),
{
    assert(s1.len() == s2.len()) by {
        assert(spec_lower(s1).len() == s1.len() && spec_lower(s2).len() == s2.len());
    }
    if s1.len() >= 2 {
        assert(spec_to_lower(s1[0]) == spec_lower(s1)[0] && spec_to_lower(s2[0]) == spec_lower(
            s2,
        )[0]);
        assert(spec_to_lower(s1[1]) == spec_lower(s1)[1] && spec_to_lower(s2[1]) == spec_lower(
            s2,
        )[1]);
        lemma_hex_val_case(s1[0], s2[0]);
        lemma_hex_val_case(s1[1], s2[1]);
        assert(spec_lower(s1.skip(2)) =~= spec_lower(s1).skip(2));
        assert(spec_lower(s2.skip(2)) =~= spec_lower(s2).skip(2));
        lemma_hex_case_insensitive(s1.skip(2), s2.skip(2));
    }
}

/// The value of one hex digit byte, either case.
fn hex_val(c: u8) -> (r: Option<u8>)
    ensures
        r == spec_hex_val(c),
{
    if 48 <= c && c <= 57 {
        Some(c - 48)
    } else if 97 <= c && c <= 102 {
        Some(c - 97 + 10)
    } else if 65 <= c && c <= 70 {
        Some(c - 65 + 10)
    } else {
        None
    }
}

/// Decodes even-length hex text.
pub fn hex_decode(s: &[u8]) -> (r: Option<Vec<u8>>)
    ensures
        match r {
            Some(v) => spec_hex_decode(s@) == Some(v@) && v@.len() * 2 == s@.len(),
            None => spec_hex_decode(s@) is None,
        },
{
    let n = s.len();
    let mut out: Vec<u8> = Vec::new();
    let mut i: usize = 0;
    assert(s@.skip(0) =~= s@);
    while n - i >= 2
        invariant
            i <= n,
            n == s@.len(),
            i % 2 == 0,
            out@.len() * 2 == i,
            match spec_hex_decode(s@.skip(i as int)) {
                Some(rest) => spec_hex_decode(s@) == Some(out@ + rest),
                None => spec_hex_decode(s@) is None,
            },
        decreases n - i,
    {
        let ghost tail = s@.skip(i as int);
        assert(tail[0] == s@[i as int] && tail[1] == s@[i + 1]);
        match (hex_val(s[i]), hex_val(s[i + 1])) {
            (Some(a), Some(b)) => {
                out.push(a * 16 + b);
                assert(tail.skip(2) =~= s@.skip(i + 2));
            },
            _ => {
                return None;
            },
        }
        i = i + 2;
    }
    let ghost tail = s@.skip(i as int);
    if i == n {
        assert(tail =~= Seq::<u8>::empty());
        assert(out@ + tail =~= out@);
        Some(out)
    } else {
        assert(tail.len() == 1);
        None
    }
}

/// Folds a byte string to lower case.
fn to_lower(s: &[u8]) -> (r: Vec<u8>)
    ensures
        r@ == spec_lower(s@),
{
    let n = s.len();
    let mut out: Vec<u8> = Vec::new();
    let mut i: usize = 0;
    while i < n
        invariant
            i <= n,
            n == s@.len(),
            out@ =~= spec_lower(s@.subrange(0, i as int)),
        decreases n - i,
    {
        let c = s[i];
        if 65 <= c && c <= 90 {
            out.push(c + 32);
        } else {
            out.push(c);
        }
        proof {
            assert(out@ =~= spec_lower(s@.subrange(0, i + 1))) by {
                assert(s@.subrange(0, i + 1) =~= s@.subrange(0, i as int).push(s@[i as int]));
                assert(spec_lower(s@.subrange(0, i as int).push(s@[i as int])) =~= spec_lower(
                    s@.subrange(0, i as int),
                ).push(spec_to_lower(s@[i as int])));
            }
        }
        i = i + 1;
    }
    proof {
        assert(s@.subrange(0, n as int) =~= s@);
    }
    out
}

/// Parses a checksummed address text into its 20 raw bytes.
pub fn parse_checksummed_address(s: &[u8]) -> (r: Option<Vec<u8>>)
    ensures
        match r {
            Some(v) => spec_parse_checksummed(s@) == Some(v@) && v@.len() == 20,
            None => spec_parse_checksummed(s@) is None,
        },
{
    if s.len() != 42 {
        return None;
    }
    if !(s[0] == 48 && s[1] == 120) {
        return None;
    }
    let hexpart = crate::token::bytes_range(s, 2, 42);
    let bytes = match hex_decode(hexpart.as_slice()) {
        Some(b) => b,
        None => {
            return None;
        },
    };
    let lower = to_lower(hexpart.as_slice());
    let digest = keccak256(lower.as_slice());
    let mut i: usize = 0;
    while i < 40
        invariant
            i <= 40,
            hexpart@ == s@.subrange(2, 42),
            hexpart@.len() == 40,
            digest@ == keccak_of(spec_lower(hexpart@)),
            digest@.len() == 32,
            forall|k: int|
                0 <= k < i && spec_is_hex_letter(hexpart@[k]) ==> ((hexpart@[k] <= 70)
                    <==> spec_nibble(digest@, k) >= 8),
        decreases 40 - i,
    {
        let c = hexpart[i];
        let is_letter = (65 <= c && c <= 70) || (97 <= c && c <= 102);
        if is_letter {
            let nib = if i % 2 == 0 {
                digest[i / 2] / 16
            } else {
                digest[i / 2] % 16
            };
            let upper = c <= 70;
            if upper != (nib >= 8) {
                return None;
            }
        }
        i = i + 1;
    }
    Some(bytes)
}

} // verus!
