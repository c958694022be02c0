//! Facade over the HSS (hierarchical LMS) stateful hash-based scheme of an
//! outside crate.  Parameter handling, seeding and validation are verified;
//! key generation, signing and verification cross a trusted boundary into
//! the outside implementation, which works on the raw key bytes held here.

use vstd::prelude::*;
use crate::lamport::{init_state, squeeze, XorShift64};
use crate::strutil::str_eq;

verus! {

pub const BENCH_MESSAGE_BYTE: u8 = 0x42;

pub const DEFAULT_PARAM_SET_NAME: &'static str = "HSS-SHA256-H5-W2-L1";

#[derive(Clone, Copy, Debug, PartialEq, Eq, Structural)]
pub enum HssParamSet {
    L1H5W2,
    L2H5W2,
}

/// The number of LMS levels of a parameter set.
pub open spec fn levels_of(p: HssParamSet) -> int {
    match p {
        HssParamSet::L1H5W2 => 1,
        HssParamSet::L2H5W2 => 2,
    }
}

impl HssParamSet {
    pub fn name(self) -> (r: &'static str)
        ensures
            self matches HssParamSet::L1H5W2 ==> r@ == "HSS-SHA256-H5-W2-L1"@,
            self matches HssParamSet::L2H5W2 ==> r@ == "HSS-SHA256-H5-W2-L2"@,
    {
        match self {
            Self::L1H5W2 => "HSS-SHA256-H5-W2-L1",
            Self::L2H5W2 => "HSS-SHA256-H5-W2-L2",
        }
    }

    pub fn levels(self) -> (r: usize)
        ensures
            r == levels_of(self),
    {
        match self {
            Self::L1H5W2 => 1,
            Self::L2H5W2 => 2,
        }
    }
}

/// Resolve a parameter-set name; exactly the two known names succeed.
pub fn param_set_by_name(name: &str) -> (r: Option<HssParamSet>)
    ensures
        name@ == "HSS-SHA256-H5-W2-L1"@ ==> r == Some(HssParamSet::L1H5W2),
        name@ == "HSS-SHA256-H5-W2-L2"@ ==> r == Some(HssParamSet::L2H5W2),
        name@ != "HSS-SHA256-H5-W2-L1"@ && name@ != "HSS-SHA256-H5-W2-L2"@ ==> r is None,
{
    proof {
        reveal_strlit("HSS-SHA256-H5-W2-L1");
        reveal_strlit("HSS-SHA256-H5-W2-L2");
        assert("HSS-SHA256-H5-W2-L1"@[18] == '1');
        assert("HSS-SHA256-H5-W2-L2"@[18] == '2');
        assert("HSS-SHA256-H5-W2-L1"@ != "HSS-SHA256-H5-W2-L2"@);
    }
    if str_eq(name, "HSS-SHA256-H5-W2-L1") {
        Some(HssParamSet::L1H5W2)
    } else if str_eq(name, "HSS-SHA256-H5-W2-L2") {
        Some(HssParamSet::L2H5W2)
    } else {
        None
    }
}

/// An HSS public key: the outside crate's byte representation plus the
/// parameter set it was generated for.
pub struct HssPublicKey {
    bytes: Vec<u8>,
    params: HssParamSet,
}

impl HssPublicKey {
    pub closed spec fn spec_bytes(&self) -> Seq<u8> {
        self.bytes@
    }

    pub closed spec fn spec_params(&self) -> HssParamSet {
        self.params
    }

    pub fn as_bytes(&self) -> (r: &[u8])
        ensures
            r@ == self.spec_bytes(),
    {
        self.bytes.as_slice()
    }

    pub fn byte_len(&self) -> (r: usize)
        ensures
            r == self.spec_bytes().len(),
    {
        self.bytes.len()
    }
}

/// An HSS secret key; stateful, advanced by every signature.
pub struct HssSecretKey {
    bytes: Vec<u8>,
    params: HssParamSet,
}

impl HssSecretKey {
    pub closed spec fn spec_bytes(&self) -> Seq<u8> {
        self.bytes@
    }

    pub closed spec fn spec_params(&self) -> HssParamSet {
        self.params
    }

    pub fn as_bytes(&self) -> (r: &[u8])
        ensures
            r@ == self.spec_bytes(),
    {
        self.bytes.as_slice()
    }

    pub fn byte_len(&self) -> (r: usize)
        ensures
            r == self.spec_bytes().len(),
    {
        self.bytes.len()
    }

    /// How many signatures this key can still produce, as the outside crate
    /// reports it.
    pub fn lifetime(&self) -> (r: Result<u64, HssError>)
        ensures
            r matches Err(e) ==> e == HssError::LifetimeComputationFailed,
    {
        match hss_lifetime_raw(&self.bytes) {
            Some(n) => Ok(n),
            None => Err(HssError::LifetimeComputationFailed),
        }
    }
}

/// An HSS signature with the parameter set it was made under.
pub struct HssSignature {
    bytes: Vec<u8>,
    params: HssParamSet,
}

impl HssSignature {
    pub closed spec fn spec_bytes(&self) -> Seq<u8> {
        self.bytes@
    }

    pub closed spec fn spec_params(&self) -> HssParamSet {
        self.params
    }

    pub fn as_bytes(&self) -> (r: &[u8])
        ensures
            r@ == self.spec_bytes(),
    {
        self.bytes.as_slice()
    }

    pub fn byte_len(&self) -> (r: usize)
        ensures
            r == self.spec_bytes().len(),
    {
        self.bytes.len()
    }
}

#[derive(Clone, Copy, Debug, Default)]
pub struct HssSizes {
    pub public_key_bytes: usize,
    pub secret_key_bytes: usize,
    pub signature_bytes: usize,
}

#[derive(Debug, Clone, PartialEq, Eq)]
pub enum HssError {
    UnknownParamSet { name: String },
    ParamSetMismatch { expected: &'static str, actual: &'static str },
    KeygenFailed,
    SignFailed,
    LifetimeComputationFailed,
}

#[derive(Clone, Copy, Debug)]
pub struct HssScheme {
    params: HssParamSet,
}

impl HssScheme {
    pub closed spec fn spec_params(&self) -> HssParamSet {
        self.params
    }

    pub fn new(params: HssParamSet) -> (r: Self)
        ensures
            r.spec_params() == params,
    {
        Self { params }
    }

    pub fn from_param_set_name(name: &str) -> (r: Result<Self, HssError>)
        ensures
            name@ == "HSS-SHA256-H5-W2-L1"@ ==> (r matches Ok(s) && s.spec_params()
                == HssParamSet::L1H5W2),
            name@ == "HSS-SHA256-H5-W2-L2"@ ==> (r matches Ok(s) && s.spec_params()
                == HssParamSet::L2H5W2),
            name@ != "HSS-SHA256-H5-W2-L1"@ && name@ != "HSS-SHA256-H5-W2-L2"@ ==> (r matches Err(
            e) && e matches HssError::UnknownParamSet { name: n } && n@ == name@),
    {
        match param_set_by_name(name) {
            Some(params) => Ok(Self::new(params)),
            None => Err(HssError::UnknownParamSet { name: name.to_owned() }),
        }
    }

    pub fn algorithm_name(&self) -> (r: &'static str)
        ensures
            r@ == "HSS"@,
    {
        "HSS"
    }

    pub fn backend_name(&self) -> (r: &'static str)
        ensures
            r@ == "hbs-lms"@,
    {
        "hbs-lms"
    }

    pub fn param_set_name(&self) -> (r: &'static str)
        ensures
            self.spec_params() matches HssParamSet::L1H5W2 ==> r@ == "HSS-SHA256-H5-W2-L1"@,
            self.spec_params() matches HssParamSet::L2H5W2 ==> r@ == "HSS-SHA256-H5-W2-L2"@,
    {
        self.params.name()
    }

    pub fn levels(&self) -> (r: usize)
        ensures
            r == levels_of(self.spec_params()),
    {
        self.params.levels()
    }

    /// Measure the byte sizes of this parameter set by generating a key pair
    /// and signing a fixed message.
    pub fn sizes(&self) -> (r: Result<HssSizes, HssError>)
        ensures
            r matches Err(e) ==> e == HssError::KeygenFailed || e == HssError::SignFailed,
    {
        let keys: (HssPublicKey, HssSecretKey) = match self.keypair() {
            Ok(p) => p,
            Err(_) => {
                return Err(HssError::KeygenFailed);
            },
        };
        let public_key: HssPublicKey = keys.0;
        let mut secret_key: HssSecretKey = keys.1;
        let message: Vec<u8> = bench_message(32);
        let signature: HssSignature = match self.sign(message.as_slice(), &mut secret_key) {
            Ok(s) => s,
            Err(_) => {
                return Err(HssError::SignFailed);
            },
        };
        Ok(
            HssSizes {
                public_key_bytes: public_key.byte_len(),
                secret_key_bytes: secret_key.byte_len(),
                signature_bytes: signature.byte_len(),
            },
        )
    }

    /// Key generation seeded from the clock.
    pub fn keypair(&self) -> (r: Result<(HssPublicKey, HssSecretKey), HssError>)
        ensures
            r matches Ok(p) ==> p.0.spec_params() == self.spec_params() && p.1.spec_params()
                == self.spec_params(),
            r matches Err(e) ==> e == HssError::KeygenFailed,
    {
        let seed: u64 = default_seed();
        self.keypair_with_seed(seed)
    }

    /// Key generation from a 64-bit seed: the 32-byte backend seed is drawn
    /// deterministically from the xorshift generator, then handed to the
    /// outside key generator.
    pub fn keypair_with_seed(&self, seed_value: u64) -> (r: Result<
        (HssPublicKey, HssSecretKey),
        HssError,
    >)
        ensures
            r matches Ok(p) ==> p.0.spec_params() == self.spec_params() && p.1.spec_params()
                == self.spec_params(),
            r matches Err(e) ==> e == HssError::KeygenFailed,
    {
        let mut seed: Vec<u8> = bench_seed_buffer();
        let mut rng = XorShift64::new(seed_value);
        rng.fill_bytes(&mut seed);
        proof {
            crate::lamport::lemma_squeeze_len(init_state(seed_value), 32);
        }
        assert(seed@ == squeeze(init_state(seed_value), 32));
        let raw: Option<(Vec<u8>, Vec<u8>)> = match self.params {
            HssParamSet::L1H5W2 => hss_keygen_l1(&seed),
            HssParamSet::L2H5W2 => hss_keygen_l2(&seed),
        };
        match raw {
            Some(pair) => Ok(
                (
                    HssPublicKey { bytes: pair.1, params: self.params },
                    HssSecretKey { bytes: pair.0, params: self.params },
                ),
            ),
            None => Err(HssError::KeygenFailed),
        }
    }

    /// Sign a message, advancing the stateful secret key.  A key of another
    /// parameter set is rejected exactly; a backend failure (for instance an
    /// exhausted key) is reported as `SignFailed`.
    pub fn sign(&self, message: &[u8], secret_key: &mut HssSecretKey) -> (r: Result<
        HssSignature,
        HssError,
    >)
        ensures
            old(secret_key).spec_params() != self.spec_params() ==> (r matches Err(e) && e matches
                HssError::ParamSetMismatch { .. } && *final(secret_key) == *old(secret_key)),
            old(secret_key).spec_params() == self.spec_params() ==> (r matches Ok(s) && s.spec_params()
                == self.spec_params()) || (r matches Err(e) && e == HssError::SignFailed && final(
                secret_key).spec_bytes() == old(secret_key).spec_bytes()),
            final(secret_key).spec_params() == old(secret_key).spec_params(),
    {
        if !param_sets_equal(secret_key.params, self.params) {
            return Err(
                HssError::ParamSetMismatch {
                    expected: self.params.name(),
                    actual: secret_key.params.name(),
                },
            );
        }
        match hss_sign_raw(&mut secret_key.bytes, message) {
            Some(sig) => Ok(HssSignature { bytes: sig, params: self.params }),
            None => Err(HssError::SignFailed),
        }
    }

    /// Verify a signature; pure.  Mismatched parameter sets are rejected
    /// exactly; otherwise the outside verifier decides.
    pub fn verify(
        &self,
        message: &[u8],
        signature: &HssSignature,
        public_key: &HssPublicKey,
    ) -> (r: Result<bool, HssError>)
        ensures
            public_key.spec_params() != self.spec_params() ==> (r matches Err(e) && e matches
                HssError::ParamSetMismatch { .. }),
            public_key.spec_params() == self.spec_params() && signature.spec_params()
                != self.spec_params() ==> (r matches Err(e) && e matches HssError::ParamSetMismatch { .. }),
            public_key.spec_params() == self.spec_params() && signature.spec_params()
                == self.spec_params() ==> r is Ok,
    {
        if !param_sets_equal(public_key.params, self.params) {
            return Err(
                HssError::ParamSetMismatch {
                    expected: self.params.name(),
                    actual: public_key.params.name(),
                },
            );
        }
        if !param_sets_equal(signature.params, self.params) {
            return Err(
                HssError::ParamSetMismatch {
                    expected: self.params.name(),
                    actual: signature.params.name(),
                },
            );
        }
        Ok(hss_verify_raw(&public_key.bytes, message, &signature.bytes))
    }

    pub fn public_key_size(&self, public_key: &HssPublicKey) -> (r: usize)
        ensures
            r == public_key.spec_bytes().len(),
    {
        public_key.byte_len()
    }

    pub fn secret_key_size(&self, secret_key: &HssSecretKey) -> (r: usize)
        ensures
            r == secret_key.spec_bytes().len(),
    {
        secret_key.byte_len()
    }

    pub fn signature_size(&self, signature: &HssSignature) -> (r: usize)
        ensures
            r == signature.spec_bytes().len(),
    {
        signature.byte_len()
    }
}

fn param_sets_equal(a: HssParamSet, b: HssParamSet) -> (r: bool)
    ensures
        r == (a == b),
{
    match (a, b) {
        (HssParamSet::L1H5W2, HssParamSet::L1H5W2) => true,
        (HssParamSet::L2H5W2, HssParamSet::L2H5W2) => true,
        _ => false,
    }
}

fn bench_seed_buffer() -> (r: Vec<u8>)
    ensures
        r@.len() == 32,
{
    let mut r: Vec<u8> = Vec::new();
    let mut i: usize = 0;
    while i < 32
        invariant
            i <= 32,
            r@.len() == i,
        decreases 32 - i,
    {
        r.push(0u8);
        i = i + 1;
    }
    r
}

/// A benchmark message of the requested size, filled with the fixed byte.
pub fn bench_message(size: usize) -> (r: Vec<u8>)
    ensures
        r@.len() == size,
        forall|i: int| 0 <= i < size ==> r@[i] == BENCH_MESSAGE_BYTE,
{
    let mut r: Vec<u8> = Vec::new();
    let mut i: usize = 0;
    while i < size
        invariant
            i <= size,
            r@.len() == i,
            forall|k: int| 0 <= k < i ==> r@[k] == BENCH_MESSAGE_BYTE,
        decreases size - i,
    {
        r.push(BENCH_MESSAGE_BYTE);
        i = i + 1;
    }
    r
}

/// The size of a message plus its detached signature, saturating at the
/// machine limit.
pub fn signed_message_size(message_len: usize, signature_len: usize) -> (r: usize)
    ensures
        message_len + signature_len <= usize::MAX ==> r == message_len + signature_len,
        message_len + signature_len > usize::MAX ==> r == usize::MAX,
{
    message_len.saturating_add(signature_len)
}

/// A clock-derived seed for key generation without an explicit seed; nothing
/// is promised of its value.
pub fn default_seed() -> u64 {
    crate::entropy::clock_entropy()
}

/// Relies on hbs_lms::keygen with one SHA-256/H5/W2 level: deterministic key
/// material for the given 32-byte seed; None when the backend refuses.
#[verifier::external_body]
fn hss_keygen_l1(seed: &Vec<u8>) -> (r: Option<(Vec<u8>, Vec<u8>)>)
    requires
        seed@.len() == 32,
{
    let mut s = hbs_lms::Seed::<hbs_lms::Sha256_256>::default();
    s.as_mut_slice().copy_from_slice(seed.as_slice());
    let parameters = vec![
        hbs_lms::HssParameter::new(hbs_lms::LmotsAlgorithm::LmotsW2, hbs_lms::LmsAlgorithm::LmsH5),
    ];
    match hbs_lms::keygen::<hbs_lms::Sha256_256>(&parameters, &s, None) {
        Ok((sk, vk)) => Some((sk.as_slice().to_vec(), vk.as_slice().to_vec())),
        Err(_) => None,
    }
}

/// Relies on hbs_lms::keygen with two SHA-256/H5/W2 levels: deterministic
/// key material for the given 32-byte seed; None when the backend refuses.
#[verifier::external_body]
fn hss_keygen_l2(seed: &Vec<u8>) -> (r: Option<(Vec<u8>, Vec<u8>)>)
    requires
        seed@.len() == 32,
{
    let mut s = hbs_lms::Seed::<hbs_lms::Sha256_256>::default();
    s.as_mut_slice().copy_from_slice(seed.as_slice());
    let parameters = vec![
        hbs_lms::HssParameter::new(hbs_lms::LmotsAlgorithm::LmotsW2, hbs_lms::LmsAlgorithm::LmsH5),
        hbs_lms::HssParameter::new(hbs_lms::LmotsAlgorithm::LmotsW2, hbs_lms::LmsAlgorithm::LmsH5),
    ];
    match hbs_lms::keygen::<hbs_lms::Sha256_256>(&parameters, &s, None) {
        Ok((sk, vk)) => Some((sk.as_slice().to_vec(), vk.as_slice().to_vec())),
        Err(_) => None,
    }
}

/// Relies on hbs_lms::SigningKey::try_sign (through the SignerMut trait):
/// signs the message and advances the key state; the key bytes are written
/// back on success and left unchanged on failure.
#[verifier::external_body]
fn hss_sign_raw(sk_bytes: &mut Vec<u8>, message: &[u8]) -> (r: Option<Vec<u8>>)
    ensures
        r is None ==> final(sk_bytes)@ == old(sk_bytes)@,
{
    let mut key = match hbs_lms::SigningKey::<hbs_lms::Sha256_256>::from_bytes(sk_bytes.as_slice())
    {
        Ok(k) => k,
        Err(_) => {
            return None;
        },
    };
    let sig = match hbs_lms::signature::SignerMut::try_sign(&mut key, message) {
        Ok(s) => s,
        Err(_) => {
            return None;
        },
    };
    *sk_bytes = key.as_slice().to_vec();
    Some(sig.as_ref().to_vec())
}

/// Relies on hbs_lms::VerifyingKey::verify (through the Verifier trait):
/// true exactly when the backend accepts the signature for this message and
/// public key; malformed key or signature bytes are rejected.
#[verifier::external_body]
fn hss_verify_raw(pk_bytes: &Vec<u8>, message: &[u8], sig_bytes: &Vec<u8>) -> (r: bool) {
    let key = match hbs_lms::VerifyingKey::<hbs_lms::Sha256_256>::from_bytes(pk_bytes.as_slice()) {
        Ok(k) => k,
        Err(_) => {
            return false;
        },
    };
    let sig = match <hbs_lms::Signature as hbs_lms::signature::Signature>::from_bytes(
        sig_bytes.as_slice(),
    ) {
        Ok(s) => s,
        Err(_) => {
            return false;
        },
    };
    hbs_lms::signature::Verifier::verify(&key, message, &sig).is_ok()
}

/// Relies on hbs_lms::SigningKey::get_lifetime: the number of remaining
/// signatures the backend reports for these key bytes.
#[verifier::external_body]
fn hss_lifetime_raw(sk_bytes: &Vec<u8>) -> (r: Option<u64>) {
    let key = match hbs_lms::SigningKey::<hbs_lms::Sha256_256>::from_bytes(sk_bytes.as_slice()) {
        Ok(k) => k,
        Err(_) => {
            return None;
        },
    };
    match key.get_lifetime() {
        Ok(n) => Some(n),
        Err(_) => None,
    }
}

} // verus!
