//! Key material: JSON Web Keys, key-set parsing, and key selection.

use vstd::prelude::*;

use crate::b64::spec_b64u_decode;
use crate::b64::b64u_decode;
use crate::crypto::rs256_verifies;
use crate::errors::ValidationError;
use crate::json::json_array_len_of;
use crate::json::json_array_len;
use crate::json::json_elem_str_field;
use crate::json::json_get_elem_str;

verus! {

/// The base record of one RSA signing key.  The modulus and exponent hold
/// the decoded big-endian bytes of the key set's base64url text.
#[derive(Debug)]
pub struct JsonWebKey {
    pub key_type: Option<Vec<u8>>,
    pub key_use: Option<Vec<u8>>,
    pub algorithm: Option<Vec<u8>>,
    pub modulus: Vec<u8>,
    pub exponent: Vec<u8>,
}

/// The provider-specific extension fields of a key; currently the key id.
#[derive(Debug)]
pub struct Extra {
    pub key_id: Vec<u8>,
}

/// A base key together with its extension record.
#[derive(Debug)]
pub struct ExtendedJsonWebKey {
    pub base: JsonWebKey,
    pub extra: Extra,
}

/// An ordered key set.  Key ids are not required to be unique; selection
/// takes the first match.
#[derive(Debug)]
pub struct JwkKeys {
    pub keys: Vec<ExtendedJsonWebKey>,
}

/// The mathematical model of one key.
pub ghost struct JwkModel {
    pub key_type: Option<Seq<u8>>,
    pub key_use: Option<Seq<u8>>,
    pub algorithm: Option<Seq<u8>>,
    pub modulus: Seq<u8>,
    pub exponent: Seq<u8>,
    pub key_id: Seq<u8>,
}

impl View for ExtendedJsonWebKey {
    type V = JwkModel;

    open spec fn view(&self) -> JwkModel {
        JwkModel {
            key_type: match self.base.key_type {
                Some(v) => Some(v@),
                None => None,
            },
            key_use: match self.base.key_use {
                Some(v) => Some(v@),
                None => None,
            },
            algorithm: match self.base.algorithm {
                Some(v) => Some(v@),
                None => None,
            },
            modulus: self.base.modulus@,
            exponent: self.base.exponent@,
            key_id: self.extra.key_id@,
        }
    }
}

impl View for JwkKeys {
    type V = Seq<JwkModel>;

    open spec fn view(&self) -> Seq<JwkModel> {
        Seq::new(self.keys@.len(), |i: int| self.keys@[i]@)
    }
}

/// The model of the `i`th entry of the key set document's `keys` array:
/// `None` unless the entry carries string members `kid`, `n` and `e` with
/// `n` and `e` canonical base64url.
pub open spec fn spec_parse_jwk(doc: Seq<u8>, i: int) -> Option<JwkModel> {
    match (
        json_elem_str_field(doc, "keys"@, i, "kid"@),
        json_elem_str_field(doc, "keys"@, i, "n"@),
        json_elem_str_field(doc, "keys"@, i, "e"@),
    ) {
        (Some(kid), Some(n_text), Some(e_text)) => match (
            spec_b64u_decode(n_text),
            spec_b64u_decode(e_text),
        ) {
            (Some(n), Some(e)) => Some(
                JwkModel {
                    key_type: json_elem_str_field(doc, "keys"@, i, "kty"@),
                    key_use: json_elem_str_field(doc, "keys"@, i, "use"@),
                    algorithm: json_elem_str_field(doc, "keys"@, i, "alg"@),
                    modulus: n,
                    exponent: e,
                    key_id: kid,
                },
            ),
            _ => None,
        },
        _ => None,
    }
}

/// The models of the first `n` entries, or `None` if any of them is
/// malformed.
pub open spec fn spec_parse_keys_upto(doc: Seq<u8>, n: nat) -> Option<Seq<JwkModel>>
    decreases n,
{
    if n == 0 {
        Some(Seq::empty())
    } else {
        match (spec_parse_keys_upto(doc, (n - 1) as nat), spec_parse_jwk(doc, n - 1)) {
            (Some(s), Some(k)) => Some(s.push(k)),
            _ => None,
        }
    }
}

/// The model of a key set document: the models of all entries of its
/// `keys` array, or `None` if the array is absent or an entry malformed.
pub open spec fn spec_parse_keys(doc: Seq<u8>) -> Option<Seq<JwkModel>> {
    match json_array_len_of(doc, "keys"@) {
        Some(len) => if len >= 0 {
            spec_parse_keys_upto(doc, len as nat)
        } else {
            None
        },
        None => None,
    }
}

proof fn lemma_parse_keys_upto_none(doc: Seq<u8>, i: int, n: nat)
    requires
        0 <= i < n,
        spec_parse_jwk(doc, i) is None,
    ensures
        spec_parse_keys_upto(doc, n) is None,
    decreases n,
{
    if i < n - 1 {
        lemma_parse_keys_upto_none(doc, i, (n - 1) as nat);
    }
}

impl JwkKeys {
    /// Parses a key set document.  Fails exactly on the documents whose
    /// model is `None`: no `keys` array, or an entry without string
    /// members `kid`, `n` and `e`, or with `n` or `e` not base64url.
    pub fn parse(doc: &[u8]) -> (r: Result<JwkKeys, ValidationError>)
        ensures
            match r {
                Ok(keys) => spec_parse_keys(doc@) == Some(keys@),
                Err(e) => e == ValidationError::MalformedKeySet && spec_parse_keys(doc@) is None,
            },
    {
        let len = match json_array_len(doc, "keys") {
            Some(len) => len,
            None => {
                return Err(ValidationError::MalformedKeySet);
            },
        };
        let mut keys: Vec<ExtendedJsonWebKey> = Vec::new();
        let mut i: usize = 0;
        while i < len
            invariant
                i <= len,
                json_array_len_of(doc@, "keys"@) == Some(len as int),
                keys@.len() == i,
                spec_parse_keys_upto(doc@, i as nat) == Some(
                    Seq::new(keys@.len(), |k: int| keys@[k]@),
                ),
            decreases len - i,
        {
            let kid = json_get_elem_str(doc, "keys", i, "kid");
            let n_text = json_get_elem_str(doc, "keys", i, "n");
            let e_text = json_get_elem_str(doc, "keys", i, "e");
            let (kid, n_text, e_text) = match (kid, n_text, e_text) {
                (Some(kid), Some(n_text), Some(e_text)) => (kid, n_text, e_text),
                _ => {
                    proof {
                        lemma_parse_keys_upto_none(doc@, i as int, len as nat);
                    }
                    return Err(ValidationError::MalformedKeySet);
                },
            };
            let (modulus, exponent) = match (b64u_decode(&n_text), b64u_decode(&e_text)) {
                (Some(n), Some(e)) => (n, e),
                _ => {
                    proof {
                        lemma_parse_keys_upto_none(doc@, i as int, len as nat);
                    }
                    return Err(ValidationError::MalformedKeySet);
                },
            };
            let key = ExtendedJsonWebKey {
                base: JsonWebKey {
                    key_type: json_get_elem_str(doc, "keys", i, "kty"),
                    key_use: json_get_elem_str(doc, "keys", i, "use"),
                    algorithm: json_get_elem_str(doc, "keys", i, "alg"),
                    modulus,
                    exponent,
                },
                extra: Extra { key_id: kid },
            };
            keys.push(key);
            proof {
                assert(Seq::new(keys@.len(), |k: int| keys@[k]@) =~= Seq::new(
                    (keys@.len() - 1) as nat,
                    |k: int| keys@[k]@,
                ).push(keys@[keys@.len() - 1]@));
            }
            i = i + 1;
        }
        let keys = JwkKeys { keys };
        proof {
            assert(keys@ =~= Seq::new(keys.keys@.len(), |k: int| keys.keys@[k]@));
        }
        Ok(keys)
    }
}

/// The first index whose key carries exactly the wanted key id.
pub open spec fn spec_find_kid(keys: Seq<JwkModel>, kid: Seq<u8>) -> Option<int>
    decreases keys.len(),
{
    if keys.len() == 0 {
        None
    } else if keys[0].key_id == kid {
        Some(0)
    } else {
        match spec_find_kid(keys.drop_first(), kid) {
            Some(j) => Some(j + 1),
            None => None,
        }
    }
}

/// The first index whose key verifies the signature.
pub open spec fn spec_find_verifying(keys: Seq<JwkModel>, msg: Seq<u8>, sig: Seq<u8>) -> Option<
    int,
>
    decreases keys.len(),
{
    if keys.len() == 0 {
        None
    } else if rs256_verifies(keys[0].modulus, keys[0].exponent, msg, sig) {
        Some(0)
    } else {
        match spec_find_verifying(keys.drop_first(), msg, sig) {
            Some(j) => Some(j + 1),
            None => None,
        }
    }
}

pub proof fn lemma_find_kid_hit(keys: Seq<JwkModel>, kid: Seq<u8>, i: int)
    requires
        0 <= i < keys.len(),
        keys[i].key_id == kid,
        forall|k: int| 0 <= k < i ==> keys[k].key_id != kid,
    ensures
        spec_find_kid(keys, kid) == Some(i),
    decreases keys.len(),
{
    if i > 0 {
        lemma_find_kid_hit(keys.drop_first(), kid, i - 1);
    }
}

pub proof fn lemma_find_kid_miss(keys: Seq<JwkModel>, kid: Seq<u8>)
    requires
        forall|k: int| 0 <= k < keys.len() ==> keys[k].key_id != kid,
    ensures
        spec_find_kid(keys, kid) is None,
    decreases keys.len(),
{
    if keys.len() > 0 {
        lemma_find_kid_miss(keys.drop_first(), kid);
    }
}

pub proof fn lemma_find_verifying_hit(keys: Seq<JwkModel>, msg: Seq<u8>, sig: Seq<u8>, i: int)
    requires
        0 <= i < keys.len(),
        rs256_verifies(keys[i].modulus, keys[i].exponent, msg, sig),
        forall|k: int|
            0 <= k < i ==> !rs256_verifies(keys[k].modulus, keys[k].exponent, msg, sig),
    ensures
        spec_find_verifying(keys, msg, sig) == Some(i),
    decreases keys.len(),
{
    if i > 0 {
        lemma_find_verifying_hit(keys.drop_first(), msg, sig, i - 1);
    }
}

pub proof fn lemma_find_verifying_miss(keys: Seq<JwkModel>, msg: Seq<u8>, sig: Seq<u8>)
    requires
        forall|k: int|
            0 <= k < keys.len() ==> !rs256_verifies(keys[k].modulus, keys[k].exponent, msg, sig),
    ensures
        spec_find_verifying(keys, msg, sig) is None,
    decreases keys.len(),
{
    if keys.len() > 0 {
        lemma_find_verifying_miss(keys.drop_first(), msg, sig);
    }
}

/// A fallback search succeeds exactly when some key verifies the
/// signature.
pub proof fn lemma_find_verifying_iff_exists(keys: Seq<JwkModel>, msg: Seq<u8>, sig: Seq<u8>)
    ensures
        spec_find_verifying(keys, msg, sig) is Some <==> exists|k: int|
            0 <= k < keys.len() && rs256_verifies(keys[k].modulus, keys[k].exponent, msg, sig),
    decreases keys.len(),
{
    if keys.len() > 0 {
        lemma_find_verifying_iff_exists(keys.drop_first(), msg, sig);
        if spec_find_verifying(keys.drop_first(), msg, sig) is Some {
            let j = choose|k: int|
                0 <= k < keys.drop_first().len() && rs256_verifies(
                    keys.drop_first()[k].modulus,
                    keys.drop_first()[k].exponent,
                    msg,
                    sig,
                );
            assert(keys[j + 1] == keys.drop_first()[j]);
        }
        if exists|k: int|
            0 <= k < keys.len() && rs256_verifies(keys[k].modulus, keys[k].exponent, msg, sig) {
            let j = choose|k: int|
                0 <= k < keys.len() && rs256_verifies(keys[k].modulus, keys[k].exponent, msg, sig);
            if j > 0 {
                assert(keys.drop_first()[j - 1] == keys[j]);
            }
        }
    }
}

/// Compares two byte strings.
pub fn bytes_eq(a: &[u8], b: &[u8]) -> (r: bool)
    ensures
        r == (a@ == b@),
{
    if a.len() != b.len() {
        assert(a@ != b@);
        return false;
    }
    let n = a.len();
    let mut i: usize = 0;
    while i < n
        invariant
            i <= n,
            n == a@.len() == b@.len(),
            forall|k: int| 0 <= k < i ==> a@[k] == b@[k],
        decreases n - i,
    {
        if a[i] != b[i] {
            return false;
        }
        i = i + 1;
    }
    proof {
        assert(a@ =~= b@);
    }
    true
}

impl JwkKeys {
    /// The first key whose key id equals `kid` exactly, by index.
    pub fn find_by_kid(&self, kid: &[u8]) -> (r: Option<usize>)
        ensures
            match r {
                Some(i) => spec_find_kid(self@, kid@) == Some(i as int) && i < self.keys@.len(),
                None => spec_find_kid(self@, kid@) is None,
            },
    {
        let n = self.keys.len();
        let mut i: usize = 0;
        while i < n
            invariant
                i <= n,
                n == self.keys@.len(),
                forall|k: int| 0 <= k < i ==> self@[k].key_id != kid@,
            decreases n - i,
        {
            if bytes_eq(self.keys[i].extra.key_id.as_slice(), kid) {
                proof {
                    lemma_find_kid_hit(self@, kid@, i as int);
                }
                return Some(i);
            }
            i = i + 1;
        }
        proof {
            lemma_find_kid_miss(self@, kid@);
        }
        None
    }

    /// The first key that verifies the signature over the signing input,
    /// by index.
    pub fn find_verifying(&self, msg: &[u8], sig: &[u8]) -> (r: Option<usize>)
        ensures
            match r {
                Some(i) => spec_find_verifying(self@, msg@, sig@) == Some(i as int) && i
                    < self.keys@.len(),
                None => spec_find_verifying(self@, msg@, sig@) is None,
            },
    {
        let n = self.keys.len();
        let mut i: usize = 0;
        while i < n
            invariant
                i <= n,
                n == self.keys@.len(),
                forall|k: int|
                    0 <= k < i ==> !rs256_verifies(self@[k].modulus, self@[k].exponent, msg@, sig@),
            decreases n - i,
        {
            let key = &self.keys[i];
            if crate::crypto::rs256_verify(
                key.base.modulus.as_slice(),
                key.base.exponent.as_slice(),
                msg,
                sig,
            ) {
                proof {
                    lemma_find_verifying_hit(self@, msg@, sig@, i as int);
                }
                return Some(i);
            }
            i = i + 1;
        }
        proof {
            lemma_find_verifying_miss(self@, msg@, sig@);
        }
        None
    }
}

} // verus!
