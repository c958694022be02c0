//! Facade over the XMSS stateful hash-based scheme: parameter sets, key and
//! signature containers, exact validation, and the operations themselves,
//! which cross a trusted boundary into an outside RFC 8391 implementation
//! working on the raw key bytes held here.

use vstd::prelude::*;
use crate::lamport::{init_state, XorShift64};
use crate::strutil::str_eq;

verus! {

#[derive(Clone, Copy, Debug, PartialEq, Eq, Structural)]
pub enum XmssParamSet {
    XmssSha2_10_256,
    XmssSha2_16_256,
    XmssSha2_20_256,
}

impl XmssParamSet {
    pub fn as_str(self) -> (r: &'static str)
        ensures
            self matches XmssParamSet::XmssSha2_10_256 ==> r@ == "XMSS-SHA2_10_256"@,
            self matches XmssParamSet::XmssSha2_16_256 ==> r@ == "XMSS-SHA2_16_256"@,
            self matches XmssParamSet::XmssSha2_20_256 ==> r@ == "XMSS-SHA2_20_256"@,
    {
        match self {
            Self::XmssSha2_10_256 => "XMSS-SHA2_10_256",
            Self::XmssSha2_16_256 => "XMSS-SHA2_16_256",
            Self::XmssSha2_20_256 => "XMSS-SHA2_20_256",
        }
    }

    pub fn oid(self) -> (r: u32)
        ensures
            self matches XmssParamSet::XmssSha2_10_256 ==> r == 1,
            self matches XmssParamSet::XmssSha2_16_256 ==> r == 2,
            self matches XmssParamSet::XmssSha2_20_256 ==> r == 3,
    {
        match self {
            Self::XmssSha2_10_256 => 0x0000_0001,
            Self::XmssSha2_16_256 => 0x0000_0002,
            Self::XmssSha2_20_256 => 0x0000_0003,
        }
    }

    /// Every supported parameter set, in OID order.
    pub fn all() -> (r: Vec<XmssParamSet>)
        ensures
            r@.len() == 3,
            r@[0] == XmssParamSet::XmssSha2_10_256,
            r@[1] == XmssParamSet::XmssSha2_16_256,
            r@[2] == XmssParamSet::XmssSha2_20_256,
    {
        let mut r: Vec<XmssParamSet> = Vec::new();
        r.push(Self::XmssSha2_10_256);
        r.push(Self::XmssSha2_16_256);
        r.push(Self::XmssSha2_20_256);
        r
    }
}

impl core::str::FromStr for XmssParamSet {
    type Err = XmssError;

    /// Parse a parameter-set name; exactly the three known names succeed.
    fn from_str(value: &str) -> (r: Result<Self, Self::Err>)
        ensures
            value@ == "XMSS-SHA2_10_256"@ ==> (r matches Ok(p) && p == XmssParamSet::XmssSha2_10_256),
            value@ == "XMSS-SHA2_16_256"@ ==> (r matches Ok(p) && p == XmssParamSet::XmssSha2_16_256),
            value@ == "XMSS-SHA2_20_256"@ ==> (r matches Ok(p) && p == XmssParamSet::XmssSha2_20_256),
            value@ != "XMSS-SHA2_10_256"@ && value@ != "XMSS-SHA2_16_256"@ && value@
                != "XMSS-SHA2_20_256"@ ==> (r matches Err(e) && e matches
                XmssError::UnsupportedParamSet(n) && n@ == value@),
    {
        proof {
            reveal_strlit("XMSS-SHA2_10_256");
            reveal_strlit("XMSS-SHA2_16_256");
            reveal_strlit("XMSS-SHA2_20_256");
            assert("XMSS-SHA2_10_256"@[11] == '0');
            assert("XMSS-SHA2_16_256"@[11] == '6');
            assert("XMSS-SHA2_10_256"@[10] == '1');
            assert("XMSS-SHA2_20_256"@[10] == '2');
            assert("XMSS-SHA2_16_256"@[10] == '1');
        }
        if str_eq(value, "XMSS-SHA2_10_256") {
            Ok(Self::XmssSha2_10_256)
        } else if str_eq(value, "XMSS-SHA2_16_256") {
            Ok(Self::XmssSha2_16_256)
        } else if str_eq(value, "XMSS-SHA2_20_256") {
            Ok(Self::XmssSha2_20_256)
        } else {
            Err(XmssError::UnsupportedParamSet(value.to_owned()))
        }
    }
}

/// An XMSS public key: raw bytes (OID followed by key material) plus the
/// parameter set they belong to.
pub struct XmssPublicKey {
    bytes: Vec<u8>,
    param_set: XmssParamSet,
}

impl XmssPublicKey {
    pub closed spec fn spec_bytes(&self) -> Seq<u8> {
        self.bytes@
    }

    pub closed spec fn spec_param_set(&self) -> XmssParamSet {
        self.param_set
    }

    pub fn param_set(&self) -> (r: XmssParamSet)
        ensures
            r == self.spec_param_set(),
    {
        self.param_set
    }

    /// Assemble a key from its raw bytes; the harness uses this for key
    /// material produced over FFI.
    pub fn from_bytes(bytes: Vec<u8>, param_set: XmssParamSet) -> (r: Self)
        ensures
            r.spec_bytes() == bytes@,
            r.spec_param_set() == param_set,
    {
        Self { bytes, param_set }
    }

    pub fn as_bytes(&self) -> (r: &[u8])
        ensures
            r@ == self.spec_bytes(),
    {
        self.bytes.as_slice()
    }

    pub fn len(&self) -> (r: usize)
        ensures
            r == self.spec_bytes().len(),
    {
        self.bytes.len()
    }

    pub fn is_empty(&self) -> (r: bool)
        ensures
            r == (self.spec_bytes().len() == 0),
    {
        self.bytes.is_empty()
    }
}

/// An XMSS secret key; stateful, advanced by every signature.
pub struct XmssSecretKey {
    bytes: Vec<u8>,
    param_set: XmssParamSet,
}

impl XmssSecretKey {
    pub closed spec fn spec_bytes(&self) -> Seq<u8> {
        self.bytes@
    }

    pub closed spec fn spec_param_set(&self) -> XmssParamSet {
        self.param_set
    }

    pub fn param_set(&self) -> (r: XmssParamSet)
        ensures
            r == self.spec_param_set(),
    {
        self.param_set
    }

    /// Assemble a key from its raw bytes; the harness uses this for key
    /// material produced over FFI.
    pub fn from_bytes(bytes: Vec<u8>, param_set: XmssParamSet) -> (r: Self)
        ensures
            r.spec_bytes() == bytes@,
            r.spec_param_set() == param_set,
    {
        Self { bytes, param_set }
    }

    /// The raw bytes, surrendered for an FFI signing call that mutates the
    /// key state; reassemble with `from_bytes` afterwards.
    pub fn into_bytes(self) -> (r: Vec<u8>)
        ensures
            r@ == self.spec_bytes(),
    {
        self.bytes
    }

    pub fn as_bytes(&self) -> (r: &[u8])
        ensures
            r@ == self.spec_bytes(),
    {
        self.bytes.as_slice()
    }

    pub fn len(&self) -> (r: usize)
        ensures
            r == self.spec_bytes().len(),
    {
        self.bytes.len()
    }

    pub fn is_empty(&self) -> (r: bool)
        ensures
            r == (self.spec_bytes().len() == 0),
    {
        self.bytes.is_empty()
    }
}

/// An XMSS signature: raw bytes plus the parameter set they belong to.
pub struct XmssSignature {
    bytes: Vec<u8>,
    param_set: XmssParamSet,
}

impl XmssSignature {
    pub closed spec fn spec_bytes(&self) -> Seq<u8> {
        self.bytes@
    }

    pub closed spec fn spec_param_set(&self) -> XmssParamSet {
        self.param_set
    }

    pub fn param_set(&self) -> (r: XmssParamSet)
        ensures
            r == self.spec_param_set(),
    {
        self.param_set
    }

    /// Assemble a signature from its raw bytes, as returned over FFI.
    pub fn from_bytes(bytes: Vec<u8>, param_set: XmssParamSet) -> (r: Self)
        ensures
            r.spec_bytes() == bytes@,
            r.spec_param_set() == param_set,
    {
        Self { bytes, param_set }
    }

    pub fn as_bytes(&self) -> (r: &[u8])
        ensures
            r@ == self.spec_bytes(),
    {
        self.bytes.as_slice()
    }

    pub fn len(&self) -> (r: usize)
        ensures
            r == self.spec_bytes().len(),
    {
        self.bytes.len()
    }

    pub fn is_empty(&self) -> (r: bool)
        ensures
            r == (self.spec_bytes().len() == 0),
    {
        self.bytes.is_empty()
    }
}

#[derive(Clone, Copy, Debug)]
pub struct XmssSizes {
    pub public_key_bytes: usize,
    pub secret_key_bytes: usize,
    pub signature_bytes: usize,
}

/// The XMSS facade; its sizes, key generation, signing and verification run
/// over FFI in the unverified harness.
#[derive(Clone, Copy, Debug)]
pub struct XmssScheme {
    param_set: XmssParamSet,
}

impl Default for XmssScheme {
    fn default() -> (r: Self)
        ensures
            r.spec_param_set() == XmssParamSet::XmssSha2_10_256,
    {
        Self { param_set: XmssParamSet::XmssSha2_10_256 }
    }
}

impl XmssScheme {
    pub closed spec fn spec_param_set(&self) -> XmssParamSet {
        self.param_set
    }

    pub fn new(param_set: XmssParamSet) -> (r: Self)
        ensures
            r.spec_param_set() == param_set,
    {
        Self { param_set }
    }

    pub fn param_set(self) -> (r: XmssParamSet)
        ensures
            r == self.spec_param_set(),
    {
        self.param_set
    }

    pub fn algorithm_name(self) -> (r: &'static str)
        ensures
            r@ == "XMSS"@,
    {
        "XMSS"
    }

    pub fn backend_name(self) -> (r: &'static str)
        ensures
            r@ == "xmss (RFC 8391, pure Rust)"@,
    {
        "xmss (RFC 8391, pure Rust)"
    }
}

/// Why an XMSS operation failed.
#[derive(Debug)]
pub enum XmssError {
    UnsupportedParamSet(String),
    InvalidHeight(u32),
    InvalidPublicKeySize { expected: usize, actual: usize },
    InvalidSecretKeySize { expected: usize, actual: usize },
    InvalidSignatureSize { expected: usize, actual: usize },
    MalformedSignedMessage { signed_message_len: usize, message_len: usize },
    MismatchedParamSet { expected: XmssParamSet, got: XmssParamSet },
    FfiCallFailed(&'static str),
}

/// Public key bytes of every supported parameter set (OID plus root and
/// public seed for n = 32).
pub open spec fn public_key_bytes_of(p: XmssParamSet) -> int {
    68
}

/// Secret key bytes of every supported parameter set (OID, index and four
/// 32-byte values).
pub open spec fn secret_key_bytes_of(p: XmssParamSet) -> int {
    136
}

/// Signature bytes of a parameter set: index, randomizer, WOTS chain and one
/// authentication-path node per tree level.
pub open spec fn signature_bytes_of(p: XmssParamSet) -> int {
    match p {
        XmssParamSet::XmssSha2_10_256 => 2500,
        XmssParamSet::XmssSha2_16_256 => 2692,
        XmssParamSet::XmssSha2_20_256 => 2820,
    }
}

/// One signature per leaf of the full-height tree.
pub open spec fn max_signatures_of(p: XmssParamSet) -> u64 {
    match p {
        XmssParamSet::XmssSha2_10_256 => 0x400,
        XmssParamSet::XmssSha2_16_256 => 0x1_0000,
        XmssParamSet::XmssSha2_20_256 => 0x10_0000,
    }
}

impl XmssScheme {
    /// The fixed byte sizes of this parameter set.
    pub fn sizes(self) -> (r: Result<XmssSizes, XmssError>)
        ensures
            r matches Ok(s) && s.public_key_bytes == public_key_bytes_of(self.spec_param_set())
                && s.secret_key_bytes == secret_key_bytes_of(self.spec_param_set())
                && s.signature_bytes == signature_bytes_of(self.spec_param_set()),
    {
        let lens: (usize, usize, usize) = match self.param_set {
            XmssParamSet::XmssSha2_10_256 => backend_lens_10(),
            XmssParamSet::XmssSha2_16_256 => backend_lens_16(),
            XmssParamSet::XmssSha2_20_256 => backend_lens_20(),
        };
        Ok(
            XmssSizes {
                public_key_bytes: lens.0,
                secret_key_bytes: lens.1,
                signature_bytes: lens.2,
            },
        )
    }

    /// How many one-time leaves a key of this parameter set carries.
    pub fn max_signatures_per_key(self) -> (r: Result<u64, XmssError>)
        ensures
            r matches Ok(m) && m == max_signatures_of(self.spec_param_set()),
    {
        match self.param_set {
            XmssParamSet::XmssSha2_10_256 => {
                proof {
                    assert(1u64 << 10u64 == 0x400u64) by (bit_vector);
                }
                Ok(1u64 << 10u64)
            },
            XmssParamSet::XmssSha2_16_256 => {
                proof {
                    assert(1u64 << 16u64 == 0x1_0000u64) by (bit_vector);
                }
                Ok(1u64 << 16u64)
            },
            XmssParamSet::XmssSha2_20_256 => {
                proof {
                    assert(1u64 << 20u64 == 0x10_0000u64) by (bit_vector);
                }
                Ok(1u64 << 20u64)
            },
        }
    }

    /// Key generation: a fresh backend seed is drawn from the clock-keyed
    /// generator and handed to the outside key generator.
    pub fn keypair(self) -> (r: Result<(XmssPublicKey, XmssSecretKey), XmssError>)
        ensures
            r matches Ok(p) ==> p.0.spec_param_set() == self.spec_param_set()
                && p.1.spec_param_set() == self.spec_param_set() && p.0.spec_bytes().len()
                == public_key_bytes_of(self.spec_param_set()) && p.1.spec_bytes().len()
                == secret_key_bytes_of(self.spec_param_set()),
            r matches Err(e) ==> e matches XmssError::FfiCallFailed(_),
    {
        let seed_value: u64 = crate::entropy::clock_entropy();
        let mut seed: Vec<u8> = zero_bytes(96);
        let mut rng = XorShift64::new(seed_value);
        rng.fill_bytes(&mut seed);
        proof {
            crate::lamport::lemma_squeeze_len(init_state(seed_value), 96);
        }
        let raw: Option<(Vec<u8>, Vec<u8>)> = match self.param_set {
            XmssParamSet::XmssSha2_10_256 => backend_keygen_10(&seed),
            XmssParamSet::XmssSha2_16_256 => backend_keygen_16(&seed),
            XmssParamSet::XmssSha2_20_256 => backend_keygen_20(&seed),
        };
        match raw {
            Some(pair) => Ok(
                (
                    XmssPublicKey { bytes: pair.0, param_set: self.param_set },
                    XmssSecretKey { bytes: pair.1, param_set: self.param_set },
                ),
            ),
            None => Err(XmssError::FfiCallFailed("xmss_keypair")),
        }
    }

    /// Sign a message, advancing the stateful secret key.  Keys of another
    /// parameter set or of the wrong length are rejected exactly; on success
    /// the signature has this parameter set's exact length.
    pub fn sign(self, message: &[u8], secret_key: &mut XmssSecretKey) -> (r: Result<
        XmssSignature,
        XmssError,
    >)
        ensures
            old(secret_key).spec_param_set() != self.spec_param_set() ==> (r matches Err(e) && e
                matches XmssError::MismatchedParamSet { expected, got } && expected
                == self.spec_param_set() && got == old(secret_key).spec_param_set() && *final(
                secret_key) == *old(secret_key)),
            old(secret_key).spec_param_set() == self.spec_param_set() && old(
                secret_key,
            ).spec_bytes().len() != secret_key_bytes_of(self.spec_param_set()) ==> (r matches Err(
                e) && e matches XmssError::InvalidSecretKeySize { expected, actual } && expected
                == secret_key_bytes_of(self.spec_param_set()) && actual == old(
                secret_key,
            ).spec_bytes().len() && *final(secret_key) == *old(secret_key)),
            old(secret_key).spec_param_set() == self.spec_param_set() && old(
                secret_key,
            ).spec_bytes().len() == secret_key_bytes_of(self.spec_param_set()) ==> (r matches Ok(
                sig) && sig.spec_param_set() == self.spec_param_set() && sig.spec_bytes().len()
                == signature_bytes_of(self.spec_param_set())) || (r matches Err(e) && (e matches
                XmssError::FfiCallFailed(_) || e matches XmssError::InvalidSignatureSize { .. })),
            final(secret_key).spec_param_set() == old(secret_key).spec_param_set(),
    {
        if !param_sets_equal(secret_key.param_set, self.param_set) {
            return Err(
                XmssError::MismatchedParamSet {
                    expected: self.param_set,
                    got: secret_key.param_set,
                },
            );
        }
        let sizes: XmssSizes = match self.sizes() {
            Ok(s) => s,
            Err(e) => {
                return Err(e);
            },
        };
        if secret_key.bytes.len() != sizes.secret_key_bytes {
            return Err(
                XmssError::InvalidSecretKeySize {
                    expected: sizes.secret_key_bytes,
                    actual: secret_key.bytes.len(),
                },
            );
        }
        let raw: Option<Vec<u8>> = match self.param_set {
            XmssParamSet::XmssSha2_10_256 => backend_sign_10(&mut secret_key.bytes, message),
            XmssParamSet::XmssSha2_16_256 => backend_sign_16(&mut secret_key.bytes, message),
            XmssParamSet::XmssSha2_20_256 => backend_sign_20(&mut secret_key.bytes, message),
        };
        let signature: Vec<u8> = match raw {
            Some(s) => s,
            None => {
                return Err(XmssError::FfiCallFailed("xmss_sign"));
            },
        };
        if signature.len() != sizes.signature_bytes {
            return Err(
                XmssError::InvalidSignatureSize {
                    expected: sizes.signature_bytes,
                    actual: signature.len(),
                },
            );
        }
        Ok(XmssSignature { bytes: signature, param_set: self.param_set })
    }

    /// Verify a signature; pure.  Mismatched parameter sets and wrong
    /// lengths are rejected exactly; otherwise the outside verifier decides.
    pub fn verify(
        self,
        message: &[u8],
        signature: &XmssSignature,
        public_key: &XmssPublicKey,
    ) -> (r: Result<bool, XmssError>)
        ensures
            signature.spec_param_set() != self.spec_param_set() ==> (r matches Err(e) && e matches
                XmssError::MismatchedParamSet { expected, got } && expected
                == self.spec_param_set() && got == signature.spec_param_set()),
            signature.spec_param_set() == self.spec_param_set() && public_key.spec_param_set()
                != self.spec_param_set() ==> (r matches Err(e) && e matches
                XmssError::MismatchedParamSet { expected, got } && expected
                == self.spec_param_set() && got == public_key.spec_param_set()),
            signature.spec_param_set() == self.spec_param_set() && public_key.spec_param_set()
                == self.spec_param_set() && public_key.spec_bytes().len() != public_key_bytes_of(
                self.spec_param_set(),
            ) ==> (r matches Err(e) && e matches XmssError::InvalidPublicKeySize {
                expected,
                actual,
            } && expected == public_key_bytes_of(self.spec_param_set()) && actual
                == public_key.spec_bytes().len()),
            signature.spec_param_set() == self.spec_param_set() && public_key.spec_param_set()
                == self.spec_param_set() && public_key.spec_bytes().len() == public_key_bytes_of(
                self.spec_param_set(),
            ) && signature.spec_bytes().len() != signature_bytes_of(self.spec_param_set()) ==> (
            r matches Err(e) && e matches XmssError::InvalidSignatureSize { expected, actual }
                && expected == signature_bytes_of(self.spec_param_set()) && actual
                == signature.spec_bytes().len()),
            signature.spec_param_set() == self.spec_param_set() && public_key.spec_param_set()
                == self.spec_param_set() && public_key.spec_bytes().len() == public_key_bytes_of(
                self.spec_param_set(),
            ) && signature.spec_bytes().len() == signature_bytes_of(self.spec_param_set())
                ==> r is Ok,
    {
        if !param_sets_equal(signature.param_set, self.param_set) {
            return Err(
                XmssError::MismatchedParamSet {
                    expected: self.param_set,
                    got: signature.param_set,
                },
            );
        }
        if !param_sets_equal(public_key.param_set, self.param_set) {
            return Err(
                XmssError::MismatchedParamSet {
                    expected: self.param_set,
                    got: public_key.param_set,
                },
            );
        }
        let sizes: XmssSizes = match self.sizes() {
            Ok(s) => s,
            Err(e) => {
                return Err(e);
            },
        };
        if public_key.bytes.len() != sizes.public_key_bytes {
            return Err(
                XmssError::InvalidPublicKeySize {
                    expected: sizes.public_key_bytes,
                    actual: public_key.bytes.len(),
                },
            );
        }
        if signature.bytes.len() != sizes.signature_bytes {
            return Err(
                XmssError::InvalidSignatureSize {
                    expected: sizes.signature_bytes,
                    actual: signature.bytes.len(),
                },
            );
        }
        let accepted: bool = match self.param_set {
            XmssParamSet::XmssSha2_10_256 => backend_verify_10(
                &public_key.bytes,
                message,
                &signature.bytes,
            ),
            XmssParamSet::XmssSha2_16_256 => backend_verify_16(
                &public_key.bytes,
                message,
                &signature.bytes,
            ),
            XmssParamSet::XmssSha2_20_256 => backend_verify_20(
                &public_key.bytes,
                message,
                &signature.bytes,
            ),
        };
        Ok(accepted)
    }
}

fn param_sets_equal(a: XmssParamSet, b: XmssParamSet) -> (r: bool)
    ensures
        r == (a == b),
{
    match (a, b) {
        (XmssParamSet::XmssSha2_10_256, XmssParamSet::XmssSha2_10_256) => true,
        (XmssParamSet::XmssSha2_16_256, XmssParamSet::XmssSha2_16_256) => true,
        (XmssParamSet::XmssSha2_20_256, XmssParamSet::XmssSha2_20_256) => true,
        _ => false,
    }
}

fn zero_bytes(len: usize) -> (r: Vec<u8>)
    ensures
        r@.len() == len,
{
    let mut r: Vec<u8> = Vec::new();
    let mut i: usize = 0;
    while i < len
        invariant
            i <= len,
            r@.len() == i,
        decreases len - i,
    {
        r.push(0u8);
        i = i + 1;
    }
    r
}

/// Relies on the VK_LEN, SK_LEN and SIG_LEN constants of
/// xmss::XmssSha2_10_256 (n = 32, height 10, one tree).
#[verifier::external_body]
fn backend_lens_10() -> (r: (usize, usize, usize))
    ensures
        r.0 == 68,
        r.1 == 136,
        r.2 == 2500,
{
    (
        <::xmss::XmssSha2_10_256 as ::xmss::XmssParameter>::VK_LEN,
        <::xmss::XmssSha2_10_256 as ::xmss::XmssParameter>::SK_LEN,
        <::xmss::XmssSha2_10_256 as ::xmss::XmssParameter>::SIG_LEN,
    )
}

/// Relies on the VK_LEN, SK_LEN and SIG_LEN constants of
/// xmss::XmssSha2_16_256 (n = 32, height 16, one tree).
#[verifier::external_body]
fn backend_lens_16() -> (r: (usize, usize, usize))
    ensures
        r.0 == 68,
        r.1 == 136,
        r.2 == 2692,
{
    (
        <::xmss::XmssSha2_16_256 as ::xmss::XmssParameter>::VK_LEN,
        <::xmss::XmssSha2_16_256 as ::xmss::XmssParameter>::SK_LEN,
        <::xmss::XmssSha2_16_256 as ::xmss::XmssParameter>::SIG_LEN,
    )
}

/// Relies on the VK_LEN, SK_LEN and SIG_LEN constants of
/// xmss::XmssSha2_20_256 (n = 32, height 20, one tree).
#[verifier::external_body]
fn backend_lens_20() -> (r: (usize, usize, usize))
    ensures
        r.0 == 68,
        r.1 == 136,
        r.2 == 2820,
{
    (
        <::xmss::XmssSha2_20_256 as ::xmss::XmssParameter>::VK_LEN,
        <::xmss::XmssSha2_20_256 as ::xmss::XmssParameter>::SK_LEN,
        <::xmss::XmssSha2_20_256 as ::xmss::XmssParameter>::SIG_LEN,
    )
}

/// Relies on xmss::KeyPair::from_seed for XMSS-SHA2_10_256: deterministic
/// key material for a 96-byte seed, with the documented key lengths.
#[verifier::external_body]
fn backend_keygen_10(seed: &Vec<u8>) -> (r: Option<(Vec<u8>, Vec<u8>)>)
    requires
        seed@.len() == 96,
    ensures
        r matches Some(p) ==> p.0@.len() == 68 && p.1@.len() == 136,
{
    match ::xmss::KeyPair::<::xmss::XmssSha2_10_256>::from_seed(seed.as_slice()) {
        Ok(mut kp) => {
            let vk = kp.verifying_key().as_ref().to_vec();
            let sk = kp.signing_key().as_ref().to_vec();
            Some((vk, sk))
        },
        Err(_) => None,
    }
}

/// Relies on xmss::KeyPair::from_seed for XMSS-SHA2_16_256: deterministic
/// key material for a 96-byte seed, with the documented key lengths.
#[verifier::external_body]
fn backend_keygen_16(seed: &Vec<u8>) -> (r: Option<(Vec<u8>, Vec<u8>)>)
    requires
        seed@.len() == 96,
    ensures
        r matches Some(p) ==> p.0@.len() == 68 && p.1@.len() == 136,
{
    match ::xmss::KeyPair::<::xmss::XmssSha2_16_256>::from_seed(seed.as_slice()) {
        Ok(mut kp) => {
            let vk = kp.verifying_key().as_ref().to_vec();
            let sk = kp.signing_key().as_ref().to_vec();
            Some((vk, sk))
        },
        Err(_) => None,
    }
}

/// Relies on xmss::KeyPair::from_seed for XMSS-SHA2_20_256: deterministic
/// key material for a 96-byte seed, with the documented key lengths.
#[verifier::external_body]
fn backend_keygen_20(seed: &Vec<u8>) -> (r: Option<(Vec<u8>, Vec<u8>)>)
    requires
        seed@.len() == 96,
    ensures
        r matches Some(p) ==> p.0@.len() == 68 && p.1@.len() == 136,
{
    match ::xmss::KeyPair::<::xmss::XmssSha2_20_256>::from_seed(seed.as_slice()) {
        Ok(mut kp) => {
            let vk = kp.verifying_key().as_ref().to_vec();
            let sk = kp.signing_key().as_ref().to_vec();
            Some((vk, sk))
        },
        Err(_) => None,
    }
}

/// Relies on xmss::SigningKey::sign_detached for XMSS-SHA2_10_256: signs and
/// advances the key state; the key bytes are written back on success and
/// left unchanged on failure.
#[verifier::external_body]
fn backend_sign_10(sk_bytes: &mut Vec<u8>, message: &[u8]) -> (r: Option<Vec<u8>>)
    ensures
        r is None ==> final(sk_bytes)@ == old(sk_bytes)@,
{
    let mut key = match ::xmss::SigningKey::<::xmss::XmssSha2_10_256>::try_from(&*sk_bytes) {
        Ok(k) => k,
        Err(_) => {
            return None;
        },
    };
    let sig = match key.sign_detached(message) {
        Ok(s) => s,
        Err(_) => {
            return None;
        },
    };
    *sk_bytes = key.as_ref().to_vec();
    Some(sig.as_ref().to_vec())
}

/// Relies on xmss::SigningKey::sign_detached for XMSS-SHA2_16_256: signs and
/// advances the key state; the key bytes are written back on success and
/// left unchanged on failure.
#[verifier::external_body]
fn backend_sign_16(sk_bytes: &mut Vec<u8>, message: &[u8]) -> (r: Option<Vec<u8>>)
    ensures
        r is None ==> final(sk_bytes)@ == old(sk_bytes)@,
{
    let mut key = match ::xmss::SigningKey::<::xmss::XmssSha2_16_256>::try_from(&*sk_bytes) {
        Ok(k) => k,
        Err(_) => {
            return None;
        },
    };
    let sig = match key.sign_detached(message) {
        Ok(s) => s,
        Err(_) => {
            return None;
        },
    };
    *sk_bytes = key.as_ref().to_vec();
    Some(sig.as_ref().to_vec())
}

/// Relies on xmss::SigningKey::sign_detached for XMSS-SHA2_20_256: signs and
/// advances the key state; the key bytes are written back on success and
/// left unchanged on failure.
#[verifier::external_body]
fn backend_sign_20(sk_bytes: &mut Vec<u8>, message: &[u8]) -> (r: Option<Vec<u8>>)
    ensures
        r is None ==> final(sk_bytes)@ == old(sk_bytes)@,
{
    let mut key = match ::xmss::SigningKey::<::xmss::XmssSha2_20_256>::try_from(&*sk_bytes) {
        Ok(k) => k,
        Err(_) => {
            return None;
        },
    };
    let sig = match key.sign_detached(message) {
        Ok(s) => s,
        Err(_) => {
            return None;
        },
    };
    *sk_bytes = key.as_ref().to_vec();
    Some(sig.as_ref().to_vec())
}

/// Relies on xmss::VerifyingKey::verify_detached for XMSS-SHA2_10_256: true
/// exactly when the backend accepts the signature; malformed key or
/// signature bytes are rejected.
#[verifier::external_body]
fn backend_verify_10(pk_bytes: &Vec<u8>, message: &[u8], sig_bytes: &Vec<u8>) -> (r: bool) {
    let key = match ::xmss::VerifyingKey::<::xmss::XmssSha2_10_256>::try_from(pk_bytes) {
        Ok(k) => k,
        Err(_) => {
            return false;
        },
    };
    let sig = match ::xmss::DetachedSignature::<::xmss::XmssSha2_10_256>::try_from(sig_bytes) {
        Ok(s) => s,
        Err(_) => {
            return false;
        },
    };
    key.verify_detached(&sig, message).is_ok()
}

/// Relies on xmss::VerifyingKey::verify_detached for XMSS-SHA2_16_256: true
/// exactly when the backend accepts the signature; malformed key or
/// signature bytes are rejected.
#[verifier::external_body]
fn backend_verify_16(pk_bytes: &Vec<u8>, message: &[u8], sig_bytes: &Vec<u8>) -> (r: bool) {
    let key = match ::xmss::VerifyingKey::<::xmss::XmssSha2_16_256>::try_from(pk_bytes) {
        Ok(k) => k,
        Err(_) => {
            return false;
        },
    };
    let sig = match ::xmss::DetachedSignature::<::xmss::XmssSha2_16_256>::try_from(sig_bytes) {
        Ok(s) => s,
        Err(_) => {
            return false;
        },
    };
    key.verify_detached(&sig, message).is_ok()
}

/// Relies on xmss::VerifyingKey::verify_detached for XMSS-SHA2_20_256: true
/// exactly when the backend accepts the signature; malformed key or
/// signature bytes are rejected.
#[verifier::external_body]
fn backend_verify_20(pk_bytes: &Vec<u8>, message: &[u8], sig_bytes: &Vec<u8>) -> (r: bool) {
    let key = match ::xmss::VerifyingKey::<::xmss::XmssSha2_20_256>::try_from(pk_bytes) {
        Ok(k) => k,
        Err(_) => {
            return false;
        },
    };
    let sig = match ::xmss::DetachedSignature::<::xmss::XmssSha2_20_256>::try_from(sig_bytes) {
        Ok(s) => s,
        Err(_) => {
            return false;
        },
    };
    key.verify_detached(&sig, message).is_ok()
}

} // verus!
