//! Token decoding: splitting a compact JWT into its three segments and
//! base64url-decoding them.
//!
//! The signing input handed to signature verification is the original
//! header-segment-dot-payload-segment bytes as transmitted, never a
//! re-encoding of the parsed JSON.

use vstd::prelude::*;

use crate::b64::spec_b64u_decode;
use crate::b64::b64u_decode;
use crate::errors::ValidationError;
use crate::json::json_is_object;
use crate::json::json_object_check;

verus! {

/// The ASCII code of the segment separator `.`.
pub open spec fn dot() -> u8 {
    46
}

/// Whether `i` and `j` are the positions of the only two dots of `s`.
pub open spec fn spec_valid_split(s: Seq<u8>, i: int, j: int) -> bool {
    &&& 0 <= i < j < s.len()
    &&& s[i] == dot()
    &&& s[j] == dot()
    &&& forall|k: int| 0 <= k < s.len() && s[k] == dot() ==> k == i || k == j
}

/// The three segments of a compact serialization with exactly two dots.
pub open spec fn spec_split3(s: Seq<u8>) -> Option<(Seq<u8>, Seq<u8>, Seq<u8>)> {
    if exists|i: int, j: int| spec_valid_split(s, i, j) {
        let (i, j) = choose|i: int, j: int| spec_valid_split(s, i, j);
        Some((s.subrange(0, i), s.subrange(i + 1, j), s.subrange(j + 1, s.len() as int)))
    } else {
        None
    }
}

proof fn lemma_split_unique(s: Seq<u8>, i1: int, j1: int, i2: int, j2: int)
    requires
        spec_valid_split(s, i1, j1),
        spec_valid_split(s, i2, j2),
    ensures
        i1 == i2 && j1 == j2,
{
    assert(i1 == i2 || i1 == j2);
    assert(j1 == i2 || j1 == j2);
    assert(i2 == i1 || i2 == j1);
}

/// The model of a decoded token.
pub ghost struct TokenModel {
    /// The decoded header JSON document.
    pub header: Seq<u8>,
    /// The decoded payload JSON document.
    pub payload: Seq<u8>,
    /// The bytes that the signature signs: header segment, dot, payload
    /// segment, as transmitted.
    pub signing_input: Seq<u8>,
    /// The decoded signature.
    pub signature: Seq<u8>,
}

/// The model of decoding `jwt`: `None` unless it has exactly three
/// segments, each canonical base64url, with header and payload JSON
/// objects.
pub open spec fn spec_decode_token(jwt: Seq<u8>) -> Option<TokenModel> {
    match spec_split3(jwt) {
        Some((h, p, g)) => match (spec_b64u_decode(h), spec_b64u_decode(p), spec_b64u_decode(g)) {
            (Some(hd), Some(pd), Some(sig)) => if json_is_object(hd) && json_is_object(pd) {
                Some(
                    TokenModel {
                        header: hd,
                        payload: pd,
                        signing_input: h + seq![dot()] + p,
                        signature: sig,
                    },
                )
            } else {
                None
            },
            _ => None,
        },
        None => None,
    }
}

/// A decoded token: parsed segments beside the exact signed bytes.
pub struct DecodedToken {
    pub header: Vec<u8>,
    pub payload: Vec<u8>,
    pub signing_input: Vec<u8>,
    pub signature: Vec<u8>,
}

impl View for DecodedToken {
    type V = TokenModel;

    open spec fn view(&self) -> TokenModel {
        TokenModel {
            header: self.header@,
            payload: self.payload@,
            signing_input: self.signing_input@,
            signature: self.signature@,
        }
    }
}

/// Copies `s[a..b]` into a fresh vector.
pub fn bytes_range(s: &[u8], a: usize, b: usize) -> (r: Vec<u8>)
    requires
        a <= b <= s@.len(),
    ensures
        r@ == s@.subrange(a as int, b as int),
{
    let mut out: Vec<u8> = Vec::new();
    let mut i: usize = a;
    while i < b
        invariant
            a <= i <= b <= s@.len(),
            out@ =~= s@.subrange(a as int, i as int),
        decreases b - i,
    {
        out.push(s[i]);
        proof {
            assert(out@ =~= s@.subrange(a as int, i + 1));
        }
        i = i + 1;
    }
    out
}

impl DecodedToken {
    /// Splits and decodes a compact JWT.  Fails exactly on the tokens
    /// whose decode model is `None`.
    pub fn decode(jwt: &[u8]) -> (r: Result<DecodedToken, ValidationError>)
        ensures
            match r {
                Ok(t) => spec_decode_token(jwt@) == Some(t@),
                Err(e) => e == ValidationError::MalformedToken && spec_decode_token(jwt@) is None,
            },
    {
        let n = jwt.len();
        let mut first: usize = 0;
        let mut second: usize = 0;
        let mut count: usize = 0;
        let mut i: usize = 0;
        while i < n
            invariant
                i <= n,
                n == jwt@.len(),
                count <= i,
                count == 0 ==> forall|k: int| 0 <= k < i ==> jwt@[k] != dot(),
                count >= 1 ==> first < i && jwt@[first as int] == dot() && forall|k: int|
                    0 <= k < first ==> jwt@[k] != dot(),
                count == 1 ==> forall|k: int| first < k < i ==> jwt@[k] != dot(),
                count >= 2 ==> first < second < i && jwt@[second as int] == dot() && forall|
                    k: int,
                |
                    first < k < second ==> jwt@[k] != dot(),
                count == 2 ==> forall|k: int| second < k < i ==> jwt@[k] != dot(),
                count >= 3 ==> exists|k: int| second < k < i && jwt@[k] == dot(),
            decreases n - i,
        {
            if jwt[i] == 46u8 {
                if count == 0 {
                    first = i;
                } else if count == 1 {
                    second = i;
                }
                count = count + 1;
            }
            i = i + 1;
        }
        if count != 2 {
            proof {
                if exists|x: int, y: int| spec_valid_split(jwt@, x, y) {
                    let (x, y) = choose|x: int, y: int| spec_valid_split(jwt@, x, y);
                    if count == 0 {
                        assert(jwt@[x] == dot());
                    } else if count == 1 {
                        assert(jwt@[x] == dot() && jwt@[y] == dot() && x < y);
                        assert(x == first && y == first);
                    } else {
                        let extra = choose|k: int| second < k < n && jwt@[k] == dot();
                        assert(jwt@[first as int] == dot() && jwt@[second as int] == dot()
                            && jwt@[extra] == dot());
                        assert(first as int == x || first as int == y);
                        assert(second as int == x || second as int == y);
                        assert(extra == x || extra == y);
                        assert(false);
                    }
                }
            }
            return Err(ValidationError::MalformedToken);
        }
        proof {
            assert(spec_valid_split(jwt@, first as int, second as int));
            let (x, y) = choose|i: int, j: int| spec_valid_split(jwt@, i, j);
            lemma_split_unique(jwt@, x, y, first as int, second as int);
        }
        let h_seg = bytes_range(jwt, 0, first);
        let p_seg = bytes_range(jwt, first + 1, second);
        let g_seg = bytes_range(jwt, second + 1, n);
        let header = match b64u_decode(h_seg.as_slice()) {
            Some(v) => v,
            None => {
                return Err(ValidationError::MalformedToken);
            },
        };
        let payload = match b64u_decode(p_seg.as_slice()) {
            Some(v) => v,
            None => {
                return Err(ValidationError::MalformedToken);
            },
        };
        let signature = match b64u_decode(g_seg.as_slice()) {
            Some(v) => v,
            None => {
                return Err(ValidationError::MalformedToken);
            },
        };
        if !json_object_check(header.as_slice()) {
            return Err(ValidationError::MalformedToken);
        }
        if !json_object_check(payload.as_slice()) {
            return Err(ValidationError::MalformedToken);
        }
        let signing_input = bytes_range(jwt, 0, second);
        proof {
            assert(signing_input@ =~= h_seg@ + seq![dot()] + p_seg@);
        }
        Ok(DecodedToken { header, payload, signing_input, signature })
    }
}

} // verus!
