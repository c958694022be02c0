//! Facade data for the multi-tree XMSS (XMSS-MT) scheme: parameter sets,
//! key and signature containers, and exact validation.  The backend crate
//! the original delegation used could not be carried here, so the
//! cryptographic operations themselves are absent; everything that can be
//! held and checked as plain values is verified below.

use vstd::prelude::*;
use crate::strutil::str_eq;

verus! {

pub const BENCH_MESSAGE_BYTE: u8 = 0x42;

pub const XMSSMT_L1_NAME: &'static str = "XMSSMT-L1";

pub const XMSSMT_L3_NAME: &'static str = "XMSSMT-L3";

pub const XMSSMT_L5_NAME: &'static str = "XMSSMT-L5";

pub const DEFAULT_PARAM_SET_NAME: &'static str = "XMSSMT-L1";

#[derive(Clone, Copy, Debug, PartialEq, Eq, Structural)]
pub enum XmssmtParamSet {
    Level1,
    Level3,
    Level5,
}

impl XmssmtParamSet {
    pub fn name(self) -> (r: &'static str)
        ensures
            self matches XmssmtParamSet::Level1 ==> r@ == "XMSSMT-L1"@,
            self matches XmssmtParamSet::Level3 ==> r@ == "XMSSMT-L3"@,
            self matches XmssmtParamSet::Level5 ==> r@ == "XMSSMT-L5"@,
    {
        match self {
            Self::Level1 => "XMSSMT-L1",
            Self::Level3 => "XMSSMT-L3",
            Self::Level5 => "XMSSMT-L5",
        }
    }
}

/// Resolve a parameter-set name; exactly the three known names succeed.
pub fn param_set_by_name(name: &str) -> (r: Option<XmssmtParamSet>)
    ensures
        name@ == "XMSSMT-L1"@ ==> r == Some(XmssmtParamSet::Level1),
        name@ == "XMSSMT-L3"@ ==> r == Some(XmssmtParamSet::Level3),
        name@ == "XMSSMT-L5"@ ==> r == Some(XmssmtParamSet::Level5),
        name@ != "XMSSMT-L1"@ && name@ != "XMSSMT-L3"@ && name@ != "XMSSMT-L5"@ ==> r is None,
{
    proof {
        reveal_strlit("XMSSMT-L1");
        reveal_strlit("XMSSMT-L3");
        reveal_strlit("XMSSMT-L5");
        assert("XMSSMT-L1"@[8] == '1');
        assert("XMSSMT-L3"@[8] == '3');
        assert("XMSSMT-L5"@[8] == '5');
    }
    if str_eq(name, "XMSSMT-L1") {
        Some(XmssmtParamSet::Level1)
    } else if str_eq(name, "XMSSMT-L3") {
        Some(XmssmtParamSet::Level3)
    } else if str_eq(name, "XMSSMT-L5") {
        Some(XmssmtParamSet::Level5)
    } else {
        None
    }
}

/// An XMSS-MT public key: raw bytes plus the parameter set they belong to.
pub struct XmssmtPublicKey {
    bytes: Vec<u8>,
    params: XmssmtParamSet,
}

impl XmssmtPublicKey {
    pub closed spec fn spec_bytes(&self) -> Seq<u8> {
        self.bytes@
    }

    pub closed spec fn spec_params(&self) -> XmssmtParamSet {
        self.params
    }

    /// Assemble a key from its raw bytes, as a backend hands them out.
    pub fn from_bytes(bytes: Vec<u8>, params: XmssmtParamSet) -> (r: Self)
        ensures
            r.spec_bytes() == bytes@,
            r.spec_params() == params,
    {
        Self { bytes, params }
    }

    pub fn as_bytes(&self) -> (r: &[u8])
        ensures
            r@ == self.spec_bytes(),
    {
        self.bytes.as_slice()
    }

    pub fn byte_len(&self) -> (r: usize)
        ensures
            r == self.spec_bytes().len(),
    {
        self.bytes.len()
    }
}

/// An XMSS-MT secret key; stateful, advanced by every signature.
pub struct XmssmtSecretKey {
    bytes: Vec<u8>,
    params: XmssmtParamSet,
}

impl XmssmtSecretKey {
    pub closed spec fn spec_bytes(&self) -> Seq<u8> {
        self.bytes@
    }

    pub closed spec fn spec_params(&self) -> XmssmtParamSet {
        self.params
    }

    /// Assemble a key from its raw bytes, as a backend hands them out.
    pub fn from_bytes(bytes: Vec<u8>, params: XmssmtParamSet) -> (r: Self)
        ensures
            r.spec_bytes() == bytes@,
            r.spec_params() == params,
    {
        Self { bytes, params }
    }

    pub fn as_bytes(&self) -> (r: &[u8])
        ensures
            r@ == self.spec_bytes(),
    {
        self.bytes.as_slice()
    }

    pub fn byte_len(&self) -> (r: usize)
        ensures
            r == self.spec_bytes().len(),
    {
        self.bytes.len()
    }
}

/// An XMSS-MT signature: raw bytes plus the parameter set they belong to.
pub struct XmssmtSignature {
    bytes: Vec<u8>,
    params: XmssmtParamSet,
}

impl XmssmtSignature {
    pub closed spec fn spec_bytes(&self) -> Seq<u8> {
        self.bytes@
    }

    pub closed spec fn spec_params(&self) -> XmssmtParamSet {
        self.params
    }

    /// Assemble a signature from its raw bytes, as a backend hands them out.
    pub fn from_bytes(bytes: Vec<u8>, params: XmssmtParamSet) -> (r: Self)
        ensures
            r.spec_bytes() == bytes@,
            r.spec_params() == params,
    {
        Self { bytes, params }
    }

    pub fn as_bytes(&self) -> (r: &[u8])
        ensures
            r@ == self.spec_bytes(),
    {
        self.bytes.as_slice()
    }

    pub fn byte_len(&self) -> (r: usize)
        ensures
            r == self.spec_bytes().len(),
    {
        self.bytes.len()
    }
}

#[derive(Clone, Copy, Debug, Default)]
pub struct XmssmtSizes {
    pub public_key_bytes: usize,
    pub secret_key_bytes: usize,
    pub signature_bytes: usize,
}

#[derive(Debug, Clone, PartialEq, Eq)]
pub enum XmssmtError {
    UnknownParamSet { name: String },
    ParamSetMismatch { expected: &'static str, actual: &'static str },
    InvalidPublicKeyLength { expected: usize, actual: usize },
    InvalidSecretKeyLength { expected: usize, actual: usize },
    InvalidSignatureLength { expected: usize, actual: usize },
}

/// The XMSS-MT facade.  Only the parameter-set surface is carried here; key
/// generation, signing and verification lived in an outside backend that is
/// not available to this library.
#[derive(Clone, Copy, Debug)]
pub struct XmssmtScheme {
    params: XmssmtParamSet,
}

impl XmssmtScheme {
    pub closed spec fn spec_params(&self) -> XmssmtParamSet {
        self.params
    }

    pub fn new(params: XmssmtParamSet) -> (r: Self)
        ensures
            r.spec_params() == params,
    {
        Self { params }
    }

    pub fn from_param_set_name(name: &str) -> (r: Result<Self, XmssmtError>)
        ensures
            name@ == "XMSSMT-L1"@ ==> (r matches Ok(s) && s.spec_params() == XmssmtParamSet::Level1),
            name@ == "XMSSMT-L3"@ ==> (r matches Ok(s) && s.spec_params() == XmssmtParamSet::Level3),
            name@ == "XMSSMT-L5"@ ==> (r matches Ok(s) && s.spec_params() == XmssmtParamSet::Level5),
            name@ != "XMSSMT-L1"@ && name@ != "XMSSMT-L3"@ && name@ != "XMSSMT-L5"@ ==> (r matches
                Err(e) && e matches XmssmtError::UnknownParamSet { name: n } && n@ == name@),
    {
        match param_set_by_name(name) {
            Some(params) => Ok(Self::new(params)),
            None => Err(XmssmtError::UnknownParamSet { name: name.to_owned() }),
        }
    }

    pub fn algorithm_name(&self) -> (r: &'static str)
        ensures
            r@ == "XMSSMT"@,
    {
        "XMSSMT"
    }

    pub fn backend_name(&self) -> (r: &'static str)
        ensures
            r@ == "thomwiggers/xmss-rs"@,
    {
        "thomwiggers/xmss-rs"
    }

    pub fn param_set_name(&self) -> (r: &'static str)
        ensures
            self.spec_params() matches XmssmtParamSet::Level1 ==> r@ == "XMSSMT-L1"@,
            self.spec_params() matches XmssmtParamSet::Level3 ==> r@ == "XMSSMT-L3"@,
            self.spec_params() matches XmssmtParamSet::Level5 ==> r@ == "XMSSMT-L5"@,
    {
        self.params.name()
    }

    pub fn signatures_per_key(&self) -> (r: u64)
        ensures
            r == 0x100_0000u64,
    {
        proof {
            assert(1u64 << 24u64 == 0x100_0000u64) by (bit_vector);
        }
        1u64 << 24u64
    }

    pub fn public_key_size(&self, public_key: &XmssmtPublicKey) -> (r: usize)
        ensures
            r == public_key.spec_bytes().len(),
    {
        public_key.byte_len()
    }

    pub fn secret_key_size(&self, secret_key: &XmssmtSecretKey) -> (r: usize)
        ensures
            r == secret_key.spec_bytes().len(),
    {
        secret_key.byte_len()
    }

    pub fn signature_size(&self, signature: &XmssmtSignature) -> (r: usize)
        ensures
            r == signature.spec_bytes().len(),
    {
        signature.byte_len()
    }
}

/// A benchmark message of the requested size, filled with the fixed byte.
pub fn bench_message(size: usize) -> (r: Vec<u8>)
    ensures
        r@.len() == size,
        forall|i: int| 0 <= i < size ==> r@[i] == BENCH_MESSAGE_BYTE,
{
    let mut r: Vec<u8> = Vec::new();
    let mut i: usize = 0;
    while i < size
        invariant
            i <= size,
            r@.len() == i,
            forall|k: int| 0 <= k < i ==> r@[k] == BENCH_MESSAGE_BYTE,
        decreases size - i,
    {
        r.push(BENCH_MESSAGE_BYTE);
        i = i + 1;
    }
    r
}

} // verus!
