//! Facade data for the LMS stateful hash-based scheme: parameter sets and
//! their names, with exact contracts.  The signing backend itself is an
//! outside crate that could not be carried here.

use vstd::prelude::*;
use crate::strutil::str_eq;

verus! {

pub const BENCH_MESSAGE_BYTE: u8 = 0x42;

pub const DEFAULT_PARAM_SET_NAME: &'static str = "LMS-SHA256-M32-H5+LMOTS-SHA256-N32-W4";

#[derive(Clone, Copy, Debug, PartialEq, Eq, Structural)]
pub enum LmsParamSet {
    H5W4,
    H10W4,
}

/// The Merkle tree height of a parameter set.
pub open spec fn tree_height_of(p: LmsParamSet) -> int {
    match p {
        LmsParamSet::H5W4 => 5,
        LmsParamSet::H10W4 => 10,
    }
}

impl LmsParamSet {
    pub fn name(self) -> (r: &'static str)
        ensures
            self matches LmsParamSet::H5W4 ==> r@ == "LMS-SHA256-M32-H5+LMOTS-SHA256-N32-W4"@,
            self matches LmsParamSet::H10W4 ==> r@ == "LMS-SHA256-M32-H10+LMOTS-SHA256-N32-W4"@,
    {
        match self {
            Self::H5W4 => "LMS-SHA256-M32-H5+LMOTS-SHA256-N32-W4",
            Self::H10W4 => "LMS-SHA256-M32-H10+LMOTS-SHA256-N32-W4",
        }
    }

    pub fn tree_height(self) -> (r: usize)
        ensures
            r == tree_height_of(self),
    {
        match self {
            Self::H5W4 => 5,
            Self::H10W4 => 10,
        }
    }
}

/// Resolve a parameter-set name; exactly the two known names succeed.
pub fn param_set_by_name(name: &str) -> (r: Option<LmsParamSet>)
    ensures
        name@ == "LMS-SHA256-M32-H5+LMOTS-SHA256-N32-W4"@ ==> r == Some(LmsParamSet::H5W4),
        name@ == "LMS-SHA256-M32-H10+LMOTS-SHA256-N32-W4"@ ==> r == Some(LmsParamSet::H10W4),
        name@ != "LMS-SHA256-M32-H5+LMOTS-SHA256-N32-W4"@ && name@
            != "LMS-SHA256-M32-H10+LMOTS-SHA256-N32-W4"@ ==> r is None,
{
    proof {
        reveal_strlit("LMS-SHA256-M32-H5+LMOTS-SHA256-N32-W4");
        reveal_strlit("LMS-SHA256-M32-H10+LMOTS-SHA256-N32-W4");
        assert("LMS-SHA256-M32-H5+LMOTS-SHA256-N32-W4"@.len() == 37);
        assert("LMS-SHA256-M32-H10+LMOTS-SHA256-N32-W4"@.len() == 38);
    }
    if str_eq(name, "LMS-SHA256-M32-H5+LMOTS-SHA256-N32-W4") {
        Some(LmsParamSet::H5W4)
    } else if str_eq(name, "LMS-SHA256-M32-H10+LMOTS-SHA256-N32-W4") {
        Some(LmsParamSet::H10W4)
    } else {
        None
    }
}

#[derive(Clone, Copy, Debug, Default)]
pub struct LmsSizes {
    pub public_key_bytes: usize,
    pub secret_key_bytes: usize,
    pub signature_bytes: usize,
}

#[derive(Debug, Clone, PartialEq, Eq)]
pub enum LmsError {
    UnknownParamSet { name: String },
    ParamSetMismatch { expected: &'static str, actual: &'static str },
    KeygenFailed,
    SignFailed,
    VerifyFailed,
}

/// The LMS facade.  Only the parameter-set surface is carried here; key
/// generation, signing and verification lived in an outside backend that is
/// not available to this library.
#[derive(Clone, Copy, Debug)]
pub struct LmsScheme {
    params: LmsParamSet,
}

impl LmsScheme {
    pub closed spec fn spec_params(&self) -> LmsParamSet {
        self.params
    }

    pub fn new(params: LmsParamSet) -> (r: Self)
        ensures
            r.spec_params() == params,
    {
        Self { params }
    }

    pub fn from_param_set_name(name: &str) -> (r: Result<Self, LmsError>)
        ensures
            name@ == "LMS-SHA256-M32-H5+LMOTS-SHA256-N32-W4"@ ==> (r matches Ok(s)
                && s.spec_params() == LmsParamSet::H5W4),
            name@ == "LMS-SHA256-M32-H10+LMOTS-SHA256-N32-W4"@ ==> (r matches Ok(s)
                && s.spec_params() == LmsParamSet::H10W4),
            name@ != "LMS-SHA256-M32-H5+LMOTS-SHA256-N32-W4"@ && name@
                != "LMS-SHA256-M32-H10+LMOTS-SHA256-N32-W4"@ ==> (r matches Err(e) && e matches
                LmsError::UnknownParamSet { name: n } && n@ == name@),
    {
        match param_set_by_name(name) {
            Some(params) => Ok(Self::new(params)),
            None => Err(LmsError::UnknownParamSet { name: name.to_owned() }),
        }
    }

    pub fn algorithm_name(&self) -> (r: &'static str)
        ensures
            r@ == "LMS"@,
    {
        "LMS"
    }

    pub fn backend_name(&self) -> (r: &'static str)
        ensures
            r@ == "lms-signature"@,
    {
        "lms-signature"
    }

    pub fn param_set_name(&self) -> (r: &'static str)
        ensures
            self.spec_params() matches LmsParamSet::H5W4 ==> r@
                == "LMS-SHA256-M32-H5+LMOTS-SHA256-N32-W4"@,
            self.spec_params() matches LmsParamSet::H10W4 ==> r@
                == "LMS-SHA256-M32-H10+LMOTS-SHA256-N32-W4"@,
    {
        self.params.name()
    }

    pub fn tree_height(&self) -> (r: usize)
        ensures
            r == tree_height_of(self.spec_params()),
    {
        self.params.tree_height()
    }
}

/// A benchmark message of the requested size, filled with the fixed byte.
pub fn bench_message(size: usize) -> (r: Vec<u8>)
    ensures
        r@.len() == size,
        forall|i: int| 0 <= i < size ==> r@[i] == BENCH_MESSAGE_BYTE,
{
    let mut r: Vec<u8> = Vec::new();
    let mut i: usize = 0;
    while i < size
        invariant
            i <= size,
            r@.len() == i,
            forall|k: int| 0 <= k < i ==> r@[k] == BENCH_MESSAGE_BYTE,
        decreases size - i,
    {
        r.push(BENCH_MESSAGE_BYTE);
        i = i + 1;
    }
    r
}

/// The size of a message plus its detached signature, saturating at the
/// machine limit.
pub fn signed_message_size(message_len: usize, signature_len: usize) -> (r: usize)
    ensures
        message_len + signature_len <= usize::MAX ==> r == message_len + signature_len,
        message_len + signature_len > usize::MAX ==> r == usize::MAX,
{
    message_len.saturating_add(signature_len)
}

/// A clock-derived seed for key generation without an explicit seed; nothing
/// is promised of its value.
pub fn default_seed() -> u64 {
    crate::entropy::clock_entropy()
}

} // verus!
