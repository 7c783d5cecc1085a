//! The committed output and its fixed positional binary encoding.
//!
//! The layout is the ABI tuple `(address, bytes32[, bytes])`: one 32-byte
//! word holding the left-padded 20-byte address, one word holding the
//! 32-byte claim identifier, and, where auxiliary key material is carried,
//! one word holding the fixed tail offset, then the length-prefixed
//! material padded with zeros to a word boundary.  Whether the material
//! is appended is part of the record, so the two shapes never collide:
//! the two-word form is exactly 64 bytes long, the three-component form
//! at least 128.

use vstd::prelude::*;

verus! {

/// The only externally observable artifact of a successful validation.
pub struct ProofOutputs {
    /// The 20-byte destination address.
    pub msg_sender: Vec<u8>,
    /// The 32-byte claim identifier.
    pub claim_id: Vec<u8>,
    /// The auxiliary key material carried beside the claim, where the
    /// provider's encoding appends any.
    pub jwk_material: Option<Vec<u8>>,
}

/// The model of an output record.
pub ghost struct OutputsModel {
    pub msg_sender: Seq<u8>,
    pub claim_id: Seq<u8>,
    pub jwk_material: Option<Seq<u8>>,
}

impl View for ProofOutputs {
    type V = OutputsModel;

    open spec fn view(&self) -> OutputsModel {
        OutputsModel {
            msg_sender: self.msg_sender@,
            claim_id: self.claim_id@,
            jwk_material: match self.jwk_material {
                Some(m) => Some(m@),
                None => None,
            },
        }
    }
}

impl ProofOutputs {
    /// Field widths as the encoding fixes them, and a length prefix that
    /// fits four bytes.
    pub open spec fn wf(self) -> bool {
        &&& self.msg_sender@.len() == 20
        &&& self.claim_id@.len() == 32
        &&& match self.jwk_material {
            Some(m) => m@.len() < 0x1_0000_0000,
            None => true,
        }
    }
}

/// A run of zero bytes.
pub open spec fn spec_zeros(n: nat) -> Seq<u8> {
    Seq::new(n, |i: int| 0u8)
}

/// The number of zero bytes that pad `n` data bytes to a word boundary.
pub open spec fn spec_pad(n: int) -> int {
    (32 - n % 32) % 32
}

/// The four big-endian length-prefix bytes of `n < 2^32`.
pub open spec fn spec_be4(n: int) -> Seq<u8> {
    seq![
        (n / 0x1000000 % 256) as u8,
        (n / 0x10000 % 256) as u8,
        (n / 0x100 % 256) as u8,
        (n % 256) as u8,
    ]
}

/// The ABI encoding of `(address, bytes32[, bytes])`.
pub open spec fn spec_abi_encode(addr: Seq<u8>, claim: Seq<u8>, aux: Option<Seq<u8>>) -> Seq<
    u8,
> {
    match aux {
        None => spec_zeros(12) + addr + claim,
        Some(aux) => spec_zeros(12) + addr + claim + spec_zeros(31) + seq![0x60u8] + spec_zeros(
            28,
        ) + spec_be4(aux.len() as int) + aux + spec_zeros(spec_pad(aux.len() as int) as nat),
    }
}

/// The strict decoding of the ABI tuple: its components, or `None` for
/// bytes that no well-formed record encodes to.
pub open spec fn spec_abi_decode(b: Seq<u8>) -> Option<(Seq<u8>, Seq<u8>, Option<Seq<u8>>)> {
    if b.len() == 64 {
        if b.subrange(0, 12) == spec_zeros(12) {
            Some((b.subrange(12, 32), b.subrange(32, 64), None))
        } else {
            None
        }
    } else if b.len() < 128 {
        None
    } else {
        let aux_len = b[124] * 0x1000000 + b[125] * 0x10000 + b[126] * 0x100 + b[127];
        if {
            &&& b.subrange(0, 12) == spec_zeros(12)
            &&& b.subrange(64, 95) == spec_zeros(31)
            &&& b[95] == 0x60
            &&& b.subrange(96, 124) == spec_zeros(28)
            &&& b.len() == 128 + aux_len + spec_pad(aux_len)
            &&& b.subrange(128 + aux_len, b.len() as int) == spec_zeros(
                spec_pad(aux_len) as nat,
            )
        } {
            Some((b.subrange(12, 32), b.subrange(32, 64), Some(b.subrange(128, 128 + aux_len))))
        } else {
            None
        }
    }
}

/// Appends `n` zero bytes.
fn push_zeros(out: &mut Vec<u8>, n: usize)
    ensures
        final(out)@ == old(out)@ + spec_zeros(n as nat),
{
    let mut i: usize = 0;
    while i < n
        invariant
            i <= n,
            out@ =~= old(out)@ + spec_zeros(i as nat),
        decreases n - i,
    {
        out.push(0);
        proof {
            assert(old(out)@ + spec_zeros(i as nat) + seq![0u8] =~= old(out)@ + spec_zeros(
                (i + 1) as nat,
            ));
        }
        i = i + 1;
    }
}

/// Appends a byte string.
fn push_bytes(out: &mut Vec<u8>, s: &[u8])
    ensures
        final(out)@ == old(out)@ + s@,
{
    let n = s.len();
    let mut i: usize = 0;
    while i < n
        invariant
            i <= n,
            n == s@.len(),
            out@ =~= old(out)@ + s@.subrange(0, i as int),
        decreases n - i,
    {
        out.push(s[i]);
        proof {
            assert(old(out)@ + s@.subrange(0, i as int) + seq![s@[i as int]] =~= old(out)@
                + s@.subrange(0, i + 1));
        }
        i = i + 1;
    }
    proof {
        assert(s@.subrange(0, n as int) =~= s@);
    }
}

impl ProofOutputs {
    /// Serializes the record into its ABI encoding.
    pub fn abi_encode(&self) -> (r: Vec<u8>)
        requires
            self.wf(),
        ensures
            r@ == spec_abi_encode(self.msg_sender@, self.claim_id@, self@.jwk_material),
    {
        let mut out: Vec<u8> = Vec::new();
        push_zeros(&mut out, 12);
        push_bytes(&mut out, self.msg_sender.as_slice());
        push_bytes(&mut out, self.claim_id.as_slice());
        let material = match &self.jwk_material {
            Some(m) => m,
            None => {
                proof {
                    assert(out@ =~= spec_abi_encode(
                        self.msg_sender@,
                        self.claim_id@,
                        self@.jwk_material,
                    ));
                }
                return out;
            },
        };
        let aux_len = material.len();
        push_zeros(&mut out, 31);
        out.push(0x60);
        push_zeros(&mut out, 28);
        out.push((aux_len / 0x1000000 % 256) as u8);
        out.push((aux_len / 0x10000 % 256) as u8);
        out.push((aux_len / 0x100 % 256) as u8);
        out.push((aux_len % 256) as u8);
        push_bytes(&mut out, material.as_slice());
        let pad = (32 - aux_len % 32) % 32;
        push_zeros(&mut out, pad);
        proof {
            assert(out@ =~= spec_abi_encode(self.msg_sender@, self.claim_id@, self@.jwk_material));
        }
        out
    }
}

/// Whether `s[a..b]` is all zero bytes.
fn is_zeros(s: &[u8], a: usize, b: usize) -> (r: bool)
    requires
        a <= b <= s@.len(),
    ensures
        r == (s@.subrange(a as int, b as int) == spec_zeros((b - a) as nat)),
{
    let mut i: usize = a;
    while i < b
        invariant
            a <= i <= b <= s@.len(),
            forall|k: int| a <= k < i ==> s@[k] == 0u8,
        decreases b - i,
    {
        if s[i] != 0 {
            assert(s@.subrange(a as int, b as int)[i - a] != 0u8);
            return false;
        }
        i = i + 1;
    }
    proof {
        assert(s@.subrange(a as int, b as int) =~= spec_zeros((b - a) as nat));
    }
    true
}

impl ProofOutputs {
    /// Deserializes an ABI encoding back into the record it encodes, or
    /// `None` for bytes that no well-formed record encodes to.
    pub fn abi_decode(b: &[u8]) -> (r: Option<ProofOutputs>)
        ensures
            match r {
                Some(o) => spec_abi_decode(b@) == Some(
                    (o.msg_sender@, o.claim_id@, o@.jwk_material),
                ) && o.wf(),
                None => spec_abi_decode(b@) is None,
            },
    {
        let n = b.len();
        if n == 64 {
            if !is_zeros(b, 0, 12) {
                return None;
            }
            let msg_sender = crate::token::bytes_range(b, 12, 32);
            let claim_id = crate::token::bytes_range(b, 32, 64);
            return Some(ProofOutputs { msg_sender, claim_id, jwk_material: None });
        }
        if n < 128 {
            return None;
        }
        if !is_zeros(b, 0, 12) {
            return None;
        }
        if !is_zeros(b, 64, 95) {
            return None;
        }
        if b[95] != 0x60 {
            return None;
        }
        if !is_zeros(b, 96, 124) {
            return None;
        }
        let aux_len: u64 = (b[124] as u64) * 0x1000000 + (b[125] as u64) * 0x10000 + (b[126]
            as u64) * 0x100 + (b[127] as u64);
        let pad: u64 = (32 - aux_len % 32) % 32;
        if (n as u64) != 128 + aux_len + pad {
            return None;
        }
        let aux_len: usize = aux_len as usize;
        let msg_sender = crate::token::bytes_range(b, 12, 32);
        let claim_id = crate::token::bytes_range(b, 32, 64);
        let jwk_material = crate::token::bytes_range(b, 128, 128 + aux_len);
        if !is_zeros(b, 128 + aux_len, n) {
            return None;
        }
        Some(ProofOutputs { msg_sender, claim_id, jwk_material: Some(jwk_material) })
    }
}

proof fn lemma_be4_recompose(n: int)
    requires
        0 <= n < 0x1_0000_0000,
    ensures
        (n / 0x1000000 % 256) * 0x1000000 + (n / 0x10000 % 256) * 0x10000 + (n / 0x100 % 256)
            * 0x100 + n % 256 == n,
{
    assert((n / 0x1000000 % 256) * 0x1000000 + (n / 0x10000 % 256) * 0x10000 + (n / 0x100 % 256)
        * 0x100 + n % 256 == n) by (nonlinear_arith)
        requires
            0 <= n < 0x1_0000_0000,
    ;
}

/// Encoding then decoding an output tuple recovers its components
/// exactly, in both shapes.
pub proof fn lemma_abi_round_trip(addr: Seq<u8>, claim: Seq<u8>, aux: Option<Seq<u8>>)
    requires
        addr.len() == 20,
        claim.len() == 32,
        aux matches Some(m) ==> m.len() < 0x1_0000_0000,
    ensures
        spec_abi_decode(spec_abi_encode(addr, claim, aux)) == Some((addr, claim, aux)),
{
    let e = spec_abi_encode(addr, claim, aux);
    if aux is None {
        assert(e.len() == 64);
        assert(e.subrange(0, 12) =~= spec_zeros(12));
        assert(e.subrange(12, 32) =~= addr);
        assert(e.subrange(32, 64) =~= claim);
        return;
    }
    let aux = aux->Some_0;
    let len = aux.len() as int;
    assert(e.len() == 128 + len + spec_pad(len));
    assert(spec_pad(len) < 32);
    assert(e.len() != 64);
    assert(e[124] == (len / 0x1000000 % 256) as u8 && e[125] == (len / 0x10000 % 256) as u8
        && e[126] == (len / 0x100 % 256) as u8 && e[127] == (len % 256) as u8);
    lemma_be4_recompose(len);
    assert(e[124] * 0x1000000 + e[125] * 0x10000 + e[126] * 0x100 + e[127] == len);
    assert(e.subrange(0, 12) =~= spec_zeros(12));
    assert(e.subrange(64, 95) =~= spec_zeros(31));
    assert(e[95] == 0x60);
    assert(e.subrange(96, 124) =~= spec_zeros(28));
    assert(e.subrange(128 + len, e.len() as int) =~= spec_zeros(spec_pad(len) as nat));
    assert(e.subrange(12, 32) =~= addr);
    assert(e.subrange(32, 64) =~= claim);
    assert(e.subrange(128, 128 + len) =~= aux);
}

} // verus!
