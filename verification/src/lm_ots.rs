//! Facade data for the LM-OTS one-time scheme: parameter-set handling and
//! the deterministic seed and identifier derivation used to drive it.  The
//! signing backend itself is an outside crate that could not be carried
//! here; the pure helpers it was driven with are verified below.

use vstd::prelude::*;
use vstd::string::StringSliceAdditionalSpecFns;
use vstd::string::StrSliceExecFns;
use crate::lamport::{init_state, squeeze, state_after, xorshift_step, XorShift64};

verus! {

pub const BENCH_MESSAGE_BYTE: u8 = 0x42;

pub const LMOTS_Q: u32 = 0;

#[derive(Clone, Copy, Debug, PartialEq, Eq, Structural)]
pub enum LmOtsParamSet {
    Sha256N32W1,
    Sha256N32W2,
    Sha256N32W4,
    Sha256N32W8,
}

impl LmOtsParamSet {
    pub fn as_str(self) -> (r: &'static str)
        ensures
            self matches LmOtsParamSet::Sha256N32W1 ==> r@ == "LMOTS_SHA256_N32_W1"@,
            self matches LmOtsParamSet::Sha256N32W2 ==> r@ == "LMOTS_SHA256_N32_W2"@,
            self matches LmOtsParamSet::Sha256N32W4 ==> r@ == "LMOTS_SHA256_N32_W4"@,
            self matches LmOtsParamSet::Sha256N32W8 ==> r@ == "LMOTS_SHA256_N32_W8"@,
    {
        match self {
            Self::Sha256N32W1 => "LMOTS_SHA256_N32_W1",
            Self::Sha256N32W2 => "LMOTS_SHA256_N32_W2",
            Self::Sha256N32W4 => "LMOTS_SHA256_N32_W4",
            Self::Sha256N32W8 => "LMOTS_SHA256_N32_W8",
        }
    }
}

impl Default for LmOtsParamSet {
    fn default() -> (r: Self)
        ensures
            r == LmOtsParamSet::Sha256N32W4,
    {
        Self::Sha256N32W4
    }
}

/// Parse failure, carrying the rejected input.
#[derive(Debug)]
pub struct LmOtsParseParamSetError(String);

impl LmOtsParseParamSetError {
    /// The rejected input, as a character sequence.
    pub closed spec fn spec_rejected(&self) -> Seq<char> {
        self.0@
    }

    /// The input that failed to parse.
    pub fn rejected(&self) -> (r: &str)
        ensures
            r@ == self.spec_rejected(),
    {
        self.0.as_str()
    }
}

/// ASCII whitespace, as the parameter-set parser trims it.
pub open spec fn spec_is_space(c: char) -> bool {
    c == ' ' || c == '\t' || c == '\n' || c == '\r'
}

/// How the parameter-set parser normalizes one character: `-` becomes `_`
/// and ASCII lower case becomes upper case.
pub open spec fn spec_norm_char(c: char) -> char {
    if c == '-' {
        '_'
    } else if c == 'a' {
        'A'
    } else if c == 'b' {
        'B'
    } else if c == 'c' {
        'C'
    } else if c == 'd' {
        'D'
    } else if c == 'e' {
        'E'
    } else if c == 'f' {
        'F'
    } else if c == 'g' {
        'G'
    } else if c == 'h' {
        'H'
    } else if c == 'i' {
        'I'
    } else if c == 'j' {
        'J'
    } else if c == 'k' {
        'K'
    } else if c == 'l' {
        'L'
    } else if c == 'm' {
        'M'
    } else if c == 'n' {
        'N'
    } else if c == 'o' {
        'O'
    } else if c == 'p' {
        'P'
    } else if c == 'q' {
        'Q'
    } else if c == 'r' {
        'R'
    } else if c == 's' {
        'S'
    } else if c == 't' {
        'T'
    } else if c == 'u' {
        'U'
    } else if c == 'v' {
        'V'
    } else if c == 'w' {
        'W'
    } else if c == 'x' {
        'X'
    } else if c == 'y' {
        'Y'
    } else if c == 'z' {
        'Z'
    } else {
        c
    }
}

/// A string with its leading ASCII whitespace removed.
pub open spec fn spec_trim_front(s: Seq<char>) -> Seq<char>
    decreases s.len(),
{
    if s.len() > 0 && spec_is_space(s[0]) {
        spec_trim_front(s.drop_first())
    } else {
        s
    }
}

/// A string with its trailing ASCII whitespace removed.
pub open spec fn spec_trim_back(s: Seq<char>) -> Seq<char>
    decreases s.len(),
{
    if s.len() > 0 && spec_is_space(s.last()) {
        spec_trim_back(s.drop_last())
    } else {
        s
    }
}

/// The form a parameter-set name is matched in: trimmed, upper-cased, and
/// with `-` replaced by `_`.
pub open spec fn spec_normalized(s: Seq<char>) -> Seq<char> {
    spec_trim_back(spec_trim_front(s)).map_values(|c: char| spec_norm_char(c))
}

fn ascii_upper_char(c: char) -> (r: char)
    ensures
        c != '-' ==> r == spec_norm_char(c),
{
    match c {
        'a' => 'A',
        'b' => 'B',
        'c' => 'C',
        'd' => 'D',
        'e' => 'E',
        'f' => 'F',
        'g' => 'G',
        'h' => 'H',
        'i' => 'I',
        'j' => 'J',
        'k' => 'K',
        'l' => 'L',
        'm' => 'M',
        'n' => 'N',
        'o' => 'O',
        'p' => 'P',
        'q' => 'Q',
        'r' => 'R',
        's' => 'S',
        't' => 'T',
        'u' => 'U',
        'v' => 'V',
        'w' => 'W',
        'x' => 'X',
        'y' => 'Y',
        'z' => 'Z',
        other => other,
    }
}

fn is_ascii_space(c: char) -> (r: bool)
    ensures
        r == spec_is_space(c),
{
    c == ' ' || c == '\t' || c == '\n' || c == '\r'
}

fn chars_match(v: &Vec<char>, s: &str) -> (r: bool)
    ensures
        r == (v@ == s@),
{
    let n: usize = s.unicode_len();
    if v.len() != n {
        return false;
    }
    let mut i: usize = 0;
    while i < n
        invariant
            i <= n,
            v@.len() == n,
            s@.len() == n,
            forall|k: int| 0 <= k < i ==> v@[k] == s@[k],
        decreases n - i,
    {
        if v[i] != s.get_char(i) {
            return false;
        }
        i = i + 1;
    }
    proof {
        assert(v@ =~= s@);
    }
    true
}

impl core::str::FromStr for LmOtsParamSet {
    type Err = LmOtsParseParamSetError;

    /// Parse a parameter-set name.  The input is trimmed of ASCII
    /// whitespace, upper-cased and `-` is replaced by `_`; the full RFC
    /// names, the `SHA256_N32_Wn` middles and the bare `Wn` widths are all
    /// accepted, and exactly those.
    fn from_str(value: &str) -> (r: Result<Self, Self::Err>)
        ensures
            spec_normalized(value@) == "LMOTS_SHA256_N32_W1"@ || spec_normalized(value@)
                == "SHA256_N32_W1"@ || spec_normalized(value@) == "W1"@ ==> (r matches Ok(p) && p
                == LmOtsParamSet::Sha256N32W1),
            spec_normalized(value@) == "LMOTS_SHA256_N32_W2"@ || spec_normalized(value@)
                == "SHA256_N32_W2"@ || spec_normalized(value@) == "W2"@ ==> (r matches Ok(p) && p
                == LmOtsParamSet::Sha256N32W2),
            spec_normalized(value@) == "LMOTS_SHA256_N32_W4"@ || spec_normalized(value@)
                == "SHA256_N32_W4"@ || spec_normalized(value@) == "W4"@ ==> (r matches Ok(p) && p
                == LmOtsParamSet::Sha256N32W4),
            spec_normalized(value@) == "LMOTS_SHA256_N32_W8"@ || spec_normalized(value@)
                == "SHA256_N32_W8"@ || spec_normalized(value@) == "W8"@ ==> (r matches Ok(p) && p
                == LmOtsParamSet::Sha256N32W8),
            spec_normalized(value@) != "LMOTS_SHA256_N32_W1"@ && spec_normalized(value@)
                != "SHA256_N32_W1"@ && spec_normalized(value@) != "W1"@ && spec_normalized(value@)
                != "LMOTS_SHA256_N32_W2"@ && spec_normalized(value@) != "SHA256_N32_W2"@
                && spec_normalized(value@) != "W2"@ && spec_normalized(value@)
                != "LMOTS_SHA256_N32_W4"@ && spec_normalized(value@) != "SHA256_N32_W4"@
                && spec_normalized(value@) != "W4"@ && spec_normalized(value@)
                != "LMOTS_SHA256_N32_W8"@ && spec_normalized(value@) != "SHA256_N32_W8"@
                && spec_normalized(value@) != "W8"@ ==> (r matches Err(e) && e.spec_rejected()
                == value@),
    {
        proof {
            reveal_strlit("LMOTS_SHA256_N32_W1");
            reveal_strlit("LMOTS_SHA256_N32_W2");
            reveal_strlit("LMOTS_SHA256_N32_W4");
            reveal_strlit("LMOTS_SHA256_N32_W8");
            reveal_strlit("SHA256_N32_W1");
            reveal_strlit("SHA256_N32_W2");
            reveal_strlit("SHA256_N32_W4");
            reveal_strlit("SHA256_N32_W8");
            reveal_strlit("W1");
            reveal_strlit("W2");
            reveal_strlit("W4");
            reveal_strlit("W8");
            assert("LMOTS_SHA256_N32_W1"@.len() == 19 && "LMOTS_SHA256_N32_W1"@[18] == '1');
            assert("LMOTS_SHA256_N32_W2"@.len() == 19 && "LMOTS_SHA256_N32_W2"@[18] == '2');
            assert("LMOTS_SHA256_N32_W4"@.len() == 19 && "LMOTS_SHA256_N32_W4"@[18] == '4');
            assert("LMOTS_SHA256_N32_W8"@.len() == 19 && "LMOTS_SHA256_N32_W8"@[18] == '8');
            assert("SHA256_N32_W1"@.len() == 13 && "SHA256_N32_W1"@[12] == '1');
            assert("SHA256_N32_W2"@.len() == 13 && "SHA256_N32_W2"@[12] == '2');
            assert("SHA256_N32_W4"@.len() == 13 && "SHA256_N32_W4"@[12] == '4');
            assert("SHA256_N32_W8"@.len() == 13 && "SHA256_N32_W8"@[12] == '8');
            assert("W1"@.len() == 2 && "W1"@[1] == '1');
            assert("W2"@.len() == 2 && "W2"@[1] == '2');
            assert("W4"@.len() == 2 && "W4"@[1] == '4');
            assert("W8"@.len() == 2 && "W8"@[1] == '8');
        }
        let ghost v: Seq<char> = value@;
        let n: usize = value.unicode_len();
        let mut normalized: Vec<char> = Vec::new();
        let mut start: usize = 0;
        let mut end: usize = n;
        proof {
            assert(v.skip(0) =~= v);
        }
        while start < end && is_ascii_space(value.get_char(start))
            invariant
                start <= end,
                end == n,
                value@.len() == n,
                v == value@,
                spec_trim_front(v) == spec_trim_front(v.skip(start as int)),
            decreases end - start,
        {
            proof {
                assert(v.skip(start as int).drop_first() =~= v.skip(start as int + 1));
            }
            start = start + 1;
        }
        proof {
            if start < n {
                assert(v.skip(start as int)[0] == v[start as int]);
                assert(!spec_is_space(v.skip(start as int)[0]));
            } else {
                assert(v.skip(start as int).len() == 0);
            }
            assert(spec_trim_front(v) == v.skip(start as int));
            assert(v.skip(start as int) =~= v.subrange(start as int, n as int));
        }
        while end > start && is_ascii_space(value.get_char(end - 1))
            invariant
                start <= end,
                end <= n,
                value@.len() == n,
                v == value@,
                spec_trim_back(spec_trim_front(v)) == spec_trim_back(
                    v.subrange(start as int, end as int),
                ),
            decreases end,
        {
            proof {
                assert(v.subrange(start as int, end as int).last() == v[end - 1]);
                assert(v.subrange(start as int, end as int).drop_last() =~= v.subrange(
                    start as int,
                    end as int - 1,
                ));
            }
            end = end - 1;
        }
        proof {
            let mid = v.subrange(start as int, end as int);
            if end > start {
                assert(mid.last() == v[end - 1]);
                assert(!spec_is_space(mid.last()));
            } else {
                assert(mid.len() == 0);
            }
            assert(spec_trim_back(spec_trim_front(v)) == mid);
        }
        let mut i: usize = start;
        while i < end
            invariant
                start <= i <= end,
                end <= n,
                value@.len() == n,
                v == value@,
                normalized@ == v.subrange(start as int, i as int).map_values(
                    |c: char| spec_norm_char(c),
                ),
            decreases end - i,
        {
            let c: char = value.get_char(i);
            let mapped: char = if c == '-' {
                '_'
            } else {
                ascii_upper_char(c)
            };
            assert(mapped == spec_norm_char(c));
            normalized.push(mapped);
            proof {
                assert(v.subrange(start as int, i as int + 1).map_values(
                    |c: char| spec_norm_char(c),
                ) =~= v.subrange(start as int, i as int).map_values(
                    |c: char| spec_norm_char(c),
                ).push(spec_norm_char(v[i as int])));
            }
            i = i + 1;
        }
        assert(normalized@ == spec_normalized(v));
        if chars_match(&normalized, "LMOTS_SHA256_N32_W1") || chars_match(
            &normalized,
            "SHA256_N32_W1",
        ) || chars_match(&normalized, "W1") {
            Ok(Self::Sha256N32W1)
        } else if chars_match(&normalized, "LMOTS_SHA256_N32_W2") || chars_match(
            &normalized,
            "SHA256_N32_W2",
        ) || chars_match(&normalized, "W2") {
            Ok(Self::Sha256N32W2)
        } else if chars_match(&normalized, "LMOTS_SHA256_N32_W4") || chars_match(
            &normalized,
            "SHA256_N32_W4",
        ) || chars_match(&normalized, "W4") {
            Ok(Self::Sha256N32W4)
        } else if chars_match(&normalized, "LMOTS_SHA256_N32_W8") || chars_match(
            &normalized,
            "SHA256_N32_W8",
        ) || chars_match(&normalized, "W8") {
            Ok(Self::Sha256N32W8)
        } else {
            Err(LmOtsParseParamSetError(value.to_owned()))
        }
    }
}

#[derive(Clone, Copy, Debug, Default)]
pub struct LmOtsSizes {
    pub public_key_bytes: usize,
    pub secret_key_bytes: usize,
    pub signature_bytes: usize,
}

/// The LM-OTS facade.  Only the parameter-set surface is carried here; key
/// generation, signing and verification lived in an outside backend that is
/// not available to this library.
#[derive(Clone, Copy, Debug)]
pub struct LmOtsScheme {
    param_set: LmOtsParamSet,
}

impl LmOtsScheme {
    pub closed spec fn spec_param_set(&self) -> LmOtsParamSet {
        self.param_set
    }

    pub fn new(param_set: LmOtsParamSet) -> (r: Self)
        ensures
            r.spec_param_set() == param_set,
    {
        Self { param_set }
    }

    pub fn algorithm_name(&self) -> (r: &'static str)
        ensures
            r@ == "LM-OTS"@,
    {
        "LM-OTS"
    }

    pub fn backend_name(&self) -> (r: &'static str)
        ensures
            r@ == "lms-signature-0.1.0-rc.2"@,
    {
        "lms-signature-0.1.0-rc.2"
    }

    pub fn param_set(&self) -> (r: LmOtsParamSet)
        ensures
            r == self.spec_param_set(),
    {
        self.param_set
    }

    pub fn max_signatures_per_key(&self) -> (r: usize)
        ensures
            r == 1,
    {
        1
    }

    pub fn param_set_name(&self) -> (r: &'static str)
        ensures
            self.spec_param_set() matches LmOtsParamSet::Sha256N32W1 ==> r@
                == "LMOTS_SHA256_N32_W1"@,
            self.spec_param_set() matches LmOtsParamSet::Sha256N32W2 ==> r@
                == "LMOTS_SHA256_N32_W2"@,
            self.spec_param_set() matches LmOtsParamSet::Sha256N32W4 ==> r@
                == "LMOTS_SHA256_N32_W4"@,
            self.spec_param_set() matches LmOtsParamSet::Sha256N32W8 ==> r@
                == "LMOTS_SHA256_N32_W8"@,
    {
        self.param_set.as_str()
    }
}

impl Default for LmOtsScheme {
    fn default() -> (r: Self)
        ensures
            r.spec_param_set() == LmOtsParamSet::Sha256N32W4,
    {
        Self { param_set: LmOtsParamSet::Sha256N32W4 }
    }
}

/// One step of 64-bit FNV-1a: fold one byte into the running hash.
pub open spec fn fnv1a_step(h: u64, b: u8) -> u64 {
    (((h ^ (b as u64)) * 0x0000_0100_0000_01b3) % 0x1_0000_0000_0000_0000) as u64
}

/// The 64-bit FNV-1a hash of a byte string.
pub open spec fn fnv1a(bytes: Seq<u8>) -> u64
    decreases bytes.len(),
{
    if bytes.len() == 0 {
        0xcbf2_9ce4_8422_2325u64
    } else {
        fnv1a_step(fnv1a(bytes.drop_last()), bytes.last())
    }
}

/// A stable 64-bit seed from a human-readable label (FNV-1a over its bytes).
pub fn seed_from_str(seed: &str) -> (r: u64)
    ensures
        r == fnv1a(seed.spec_bytes()),
{
    let bytes: &[u8] = seed.as_bytes();
    let n: usize = bytes.len();
    let mut hash: u64 = 0xcbf2_9ce4_8422_2325;
    let mut i: usize = 0;
    while i < n
        invariant
            i <= n,
            bytes@.len() == n,
            hash == fnv1a(bytes@.take(i as int)),
        decreases n - i,
    {
        let ghost prev: Seq<u8> = bytes@.take(i as int);
        let x: u64 = hash ^ (bytes[i] as u64);
        hash = (((x as u128) * 0x0000_0100_0000_01b3u128) % 0x1_0000_0000_0000_0000u128) as u64;
        proof {
            assert(bytes@.take(i + 1).drop_last() =~= prev);
            assert(bytes@.take(i + 1).last() == bytes@[i as int]);
        }
        i = i + 1;
    }
    proof {
        assert(bytes@.take(n as int) =~= bytes@);
    }
    hash
}

/// Deterministic generator in the shape the LM-OTS backend's rng trait
/// expects; the harness adapts it to that trait.
#[derive(Clone, Copy, Debug)]
pub struct XorShift64TryRng {
    rng: XorShift64,
}

impl View for XorShift64TryRng {
    type V = u64;

    closed spec fn view(&self) -> u64 {
        self.rng@
    }
}

impl XorShift64TryRng {
    pub fn new(seed: u64) -> (r: Self)
        ensures
            r@ == init_state(seed),
    {
        Self { rng: XorShift64::new(seed) }
    }

    pub fn next_u64(&mut self) -> (r: u64)
        ensures
            final(self)@ == xorshift_step(old(self)@),
            r == final(self)@,
    {
        self.rng.next_u64()
    }

    fn fill_bytes_infallible(&mut self, out: &mut Vec<u8>)
        ensures
            final(out)@ == squeeze(old(self)@, old(out)@.len() as nat),
            final(self)@ == state_after(old(self)@, old(out)@.len() as nat),
    {
        self.rng.fill_bytes(out)
    }
}

fn zero_buffer(len: usize) -> (r: Vec<u8>)
    ensures
        r@.len() == len,
{
    let mut r: Vec<u8> = Vec::new();
    let mut i: usize = 0;
    while i < len
        invariant
            i <= len,
            r@.len() == i,
        decreases len - i,
    {
        r.push(0u8);
        i = i + 1;
    }
    r
}

/// The default 16-byte key identifier, derived from a fixed label.
pub fn default_identifier() -> (r: Vec<u8>)
    ensures
        r@ == squeeze(init_state(fnv1a("lm-ots-default-id".spec_bytes())), 16),
        r@.len() == 16,
{
    let seed: u64 = seed_from_str("lm-ots-default-id");
    identifier_from_seed(seed)
}

/// A 16-byte key identifier drawn deterministically from a seed.
pub fn identifier_from_seed(seed: u64) -> (r: Vec<u8>)
    ensures
        r@ == squeeze(init_state(seed), 16),
        r@.len() == 16,
{
    let mut rng = XorShift64TryRng::new(seed);
    let mut out: Vec<u8> = zero_buffer(16);
    rng.fill_bytes_infallible(&mut out);
    proof {
        crate::lamport::lemma_squeeze_len(init_state(seed), 16);
    }
    out
}

/// A 32-byte backend seed drawn deterministically from a 64-bit seed.
pub fn seed_bytes_from_u64(seed: u64) -> (r: Vec<u8>)
    ensures
        r@ == squeeze(init_state(seed), 32),
        r@.len() == 32,
{
    let mut rng = XorShift64TryRng::new(seed);
    let mut out: Vec<u8> = zero_buffer(32);
    rng.fill_bytes_infallible(&mut out);
    proof {
        crate::lamport::lemma_squeeze_len(init_state(seed), 32);
    }
    out
}

/// A benchmark message of the requested size, filled with the fixed byte.
pub fn bench_message(size: usize) -> (r: Vec<u8>)
    ensures
        r@.len() == size,
        forall|i: int| 0 <= i < size ==> r@[i] == BENCH_MESSAGE_BYTE,
{
    let mut r: Vec<u8> = Vec::new();
    let mut i: usize = 0;
    while i < size
        invariant
            i <= size,
            r@.len() == i,
            forall|k: int| 0 <= k < i ==> r@[k] == BENCH_MESSAGE_BYTE,
        decreases size - i,
    {
        r.push(BENCH_MESSAGE_BYTE);
        i = i + 1;
    }
    r
}

} // verus!
