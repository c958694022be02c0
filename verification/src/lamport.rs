//! Lamport one-time signatures over a 256-bit digest.
//!
//! A secret key is 512 random 32-byte strings, one pair per digest bit; the
//! public key is their digests.  Signing reveals, for each bit of the message
//! digest, one element of the corresponding pair; verifying hashes the
//! revealed elements and compares them with the public key.  Each secret key
//! signs at most one message: `sign` consumes it by setting its `used` flag.

use vstd::prelude::*;
use vstd::string::StringSliceAdditionalSpecFns;

verus! {

pub const HASH_SIZE: usize = 32;

pub const BITS: usize = HASH_SIZE * 8;

pub const SECRET_ELEMENTS: usize = BITS * 2;

pub const SIGNATURE_ELEMENTS: usize = BITS;

/// One xorshift step: three shift/xor rounds on a 64-bit word.
pub open spec fn xorshift_step(x: u64) -> u64 {
    let a = x ^ (x << 13);
    let b = a ^ (a >> 7);
    b ^ (b << 17)
}

/// The state a generator starts from for a given seed: a zero seed is
/// remapped to a fixed odd constant, since the all-zero state never advances.
pub open spec fn init_state(seed: u64) -> u64 {
    if seed == 0 {
        0x9e37_79b9_7f4a_7c15u64
    } else {
        seed
    }
}

/// Byte `k` (little-endian) of a 64-bit word.
pub open spec fn le_byte(x: u64, k: int) -> u8 {
    ((x >> (8 * k)) & 0xff) as u8
}

/// The eight bytes of a 64-bit word, little-endian.
pub open spec fn le_bytes8(x: u64) -> Seq<u8> {
    Seq::new(8, |i: int| le_byte(x, i))
}

/// The byte stream a generator in state `state` produces when asked for
/// `len` bytes: successive 64-bit outputs packed little-endian.
pub open spec fn squeeze(state: u64, len: nat) -> Seq<u8>
    decreases len,
{
    if len == 0 {
        Seq::empty()
    } else {
        let s1 = xorshift_step(state);
        if len >= 8 {
            le_bytes8(s1) + squeeze(s1, (len - 8) as nat)
        } else {
            le_bytes8(s1).take(len as int)
        }
    }
}

/// The generator state after producing `len` bytes from state `state`.
pub open spec fn state_after(state: u64, len: nat) -> u64
    decreases len,
{
    if len == 0 {
        state
    } else {
        let s1 = xorshift_step(state);
        if len >= 8 {
            state_after(s1, (len - 8) as nat)
        } else {
            s1
        }
    }
}

pub broadcast proof fn lemma_squeeze_len(state: u64, len: nat)
    ensures
        (#[trigger] squeeze(state, len)).len() == len,
    decreases len,
{
    if len >= 8 {
        lemma_squeeze_len(xorshift_step(state), (len - 8) as nat);
    }
}

/// Deterministic xorshift64 generator; all secret material is derived from
/// it so that benchmarks can replay identical keys.  Not cryptographically
/// secure on its own.
#[derive(Clone, Copy, Debug)]
pub struct XorShift64 {
    state: u64,
}

impl View for XorShift64 {
    type V = u64;

    closed spec fn view(&self) -> u64 {
        self.state
    }
}

impl XorShift64 {
    pub fn new(seed: u64) -> (r: Self)
        ensures
            r@ == init_state(seed),
    {
        let state: u64 = if seed == 0 {
            0x9e37_79b9_7f4a_7c15
        } else {
            seed
        };
        Self { state }
    }

    pub fn next_u64(&mut self) -> (r: u64)
        ensures
            final(self)@ == xorshift_step(old(self)@),
            r == final(self)@,
    {
        let mut x: u64 = self.state;
        x = x ^ (x << 13u64);
        x = x ^ (x >> 7u64);
        x = x ^ (x << 17u64);
        self.state = x;
        x
    }

    /// Overwrite every byte of `out` with the next bytes of the stream.
    pub fn fill_bytes(&mut self, out: &mut Vec<u8>)
        ensures
            final(out)@ == squeeze(old(self)@, old(out)@.len() as nat),
            final(self)@ == state_after(old(self)@, old(out)@.len() as nat),
    {
        let ghost orig_state: u64 = self@;
        let len: usize = out.len();
        let mut offset: usize = 0;
        while offset < len
            invariant
                offset <= len,
                out@.len() == len,
                squeeze(orig_state, len as nat) =~= out@.take(offset as int) + squeeze(
                    self@,
                    (len - offset) as nat,
                ),
                state_after(orig_state, len as nat) == state_after(self@, (len - offset) as nat),
            decreases len - offset,
        {
            let ghost pre_state: u64 = self@;
            let ghost pre_out: Seq<u8> = out@;
            let chunk: u64 = self.next_u64();
            let remaining: usize = len - offset;
            let take: usize = if remaining < 8 {
                remaining
            } else {
                8
            };
            let mut k: usize = 0;
            while k < take
                invariant
                    k <= take,
                    take <= 8,
                    offset + take <= len,
                    out@.len() == len,
                    forall|j: int| 0 <= j < offset ==> out@[j] == pre_out[j],
                    forall|j: int|
                        offset <= j < offset + k ==> out@[j] == le_byte(chunk, j - offset),
                decreases take - k,
            {
                let b: u8 = ((chunk >> ((8 * k) as u64)) & 0xff) as u8;
                assert(b == le_byte(chunk, k as int));
                out.set(offset + k, b);
                k = k + 1;
            }
            proof {
                assert(squeeze(pre_state, (len - offset) as nat) == if len - offset >= 8 {
                    le_bytes8(chunk) + squeeze(chunk, (len - offset - 8) as nat)
                } else {
                    le_bytes8(chunk).take((len - offset) as int)
                });
                assert(state_after(pre_state, (len - offset) as nat) == if len - offset >= 8 {
                    state_after(chunk, (len - offset - 8) as nat)
                } else {
                    chunk
                });
                if len - offset < 8 {
                    assert(squeeze(chunk, ((len - offset) - take) as nat) == Seq::<u8>::empty());
                    assert(state_after(chunk, ((len - offset) - take) as nat) == chunk);
                }
                assert(out@.take((offset + take) as int) =~= pre_out.take(offset as int) + if len
                    - offset >= 8 {
                    le_bytes8(chunk)
                } else {
                    le_bytes8(chunk).take((len - offset) as int)
                });
                assert(squeeze(orig_state, len as nat) =~= out@.take((offset + take) as int)
                    + squeeze(self@, ((len - offset) - take) as nat));
            }
            offset = offset + take;
        }
        proof {
            assert(squeeze(self@, 0) == Seq::<u8>::empty());
            assert(out@.take(len as int) =~= out@);
        }
    }
}

/// The 32-byte SHA-256 digest of a byte string, named but not defined: it is
/// a function of its input alone, and the trusted wrapper below ties it to
/// the outside implementation.
pub uninterp spec fn sha256_of(data: Seq<u8>) -> Seq<u8>;

/// Relies on sha2::Sha256 (new/update/finalize): a 32-byte digest that
/// depends on the input bytes alone.
#[verifier::external_body]
fn hash_bytes(data: &[u8]) -> (r: Vec<u8>)
    ensures
        r@ == sha256_of(data@),
        r@.len() == 32,
{
    let mut hasher = <sha2::Sha256 as sha2::Digest>::new();
    sha2::Digest::update(&mut hasher, data);
    sha2::Digest::finalize(hasher).to_vec()
}

/// The generator state after deriving `i` key elements of 32 bytes each.
pub open spec fn gen_state(s0: u64, i: nat) -> u64
    decreases i,
{
    if i == 0 {
        s0
    } else {
        state_after(gen_state(s0, (i - 1) as nat), 32)
    }
}

/// The secret key derived from generator state `s0`: 512 strings of 32
/// bytes, drawn consecutively from the generator.
pub open spec fn keygen_secret(s0: u64) -> Seq<Seq<u8>> {
    Seq::new(SECRET_ELEMENTS as nat, |i: int| squeeze(gen_state(s0, i as nat), 32))
}

/// The public key that matches `keygen_secret(s0)`: the digest of each
/// secret element, in order.
pub open spec fn keygen_public(s0: u64) -> Seq<Seq<u8>> {
    Seq::new(SECRET_ELEMENTS as nat, |i: int| sha256_of(squeeze(gen_state(s0, i as nat), 32)))
}

/// A public key and a secret key belong together when each public element is
/// the digest of the secret element with the same index.
pub open spec fn keys_linked(pk: Seq<Seq<u8>>, sk: Seq<Seq<u8>>) -> bool {
    &&& pk.len() == SECRET_ELEMENTS
    &&& sk.len() == SECRET_ELEMENTS
    &&& forall|i: int| 0 <= i < SECRET_ELEMENTS ==> pk[i] == sha256_of(sk[i])
}

/// Ordered sequence of 512 hash outputs; immutable once created.
pub struct LamportPublicKey {
    elements: Vec<Vec<u8>>,
}

impl View for LamportPublicKey {
    type V = Seq<Seq<u8>>;

    closed spec fn view(&self) -> Seq<Seq<u8>> {
        self.elements@.map_values(|e: Vec<u8>| e@)
    }
}

impl LamportPublicKey {
    pub fn len(&self) -> (r: usize)
        ensures
            r == self@.len(),
    {
        self.elements.len()
    }

    pub fn is_empty(&self) -> (r: bool)
        ensures
            r == (self@.len() == 0),
    {
        self.elements.is_empty()
    }

    pub fn byte_len(&self) -> (r: usize)
        requires
            self@.len() * HASH_SIZE <= usize::MAX,
        ensures
            r == self@.len() * HASH_SIZE,
    {
        self.elements.len() * HASH_SIZE
    }
}

/// Ordered sequence of 512 secret 32-byte strings plus a one-time-use flag;
/// `sign` flips the flag from false to true exactly once.  The elements stay
/// resident after consumption: only the flag marks the key as spent.
pub struct LamportSecretKey {
    elements: Vec<Vec<u8>>,
    used: bool,
}

impl LamportSecretKey {
    /// The secret elements, as mathematical byte strings.
    pub closed spec fn elems(&self) -> Seq<Seq<u8>> {
        self.elements@.map_values(|e: Vec<u8>| e@)
    }

    /// Whether this key has already signed a message.
    pub closed spec fn spec_used(&self) -> bool {
        self.used
    }

    pub fn len(&self) -> (r: usize)
        ensures
            r == self.elems().len(),
    {
        self.elements.len()
    }

    pub fn is_empty(&self) -> (r: bool)
        ensures
            r == (self.elems().len() == 0),
    {
        self.elements.is_empty()
    }

    pub fn byte_len(&self) -> (r: usize)
        requires
            self.elems().len() * HASH_SIZE <= usize::MAX,
        ensures
            r == self.elems().len() * HASH_SIZE,
    {
        self.elements.len() * HASH_SIZE
    }

    pub fn used(&self) -> (r: bool)
        ensures
            r == self.spec_used(),
    {
        self.used
    }
}

/// Ordered sequence of 256 32-byte strings, each copied verbatim from one
/// secret-key element chosen by a digest bit; immutable once produced.
pub struct LamportSignature {
    elements: Vec<Vec<u8>>,
}

impl View for LamportSignature {
    type V = Seq<Seq<u8>>;

    closed spec fn view(&self) -> Seq<Seq<u8>> {
        self.elements@.map_values(|e: Vec<u8>| e@)
    }
}

impl LamportSignature {
    pub fn len(&self) -> (r: usize)
        ensures
            r == self@.len(),
    {
        self.elements.len()
    }

    pub fn is_empty(&self) -> (r: bool)
        ensures
            r == (self@.len() == 0),
    {
        self.elements.is_empty()
    }

    pub fn byte_len(&self) -> (r: usize)
        requires
            self@.len() * HASH_SIZE <= usize::MAX,
        ensures
            r == self@.len() * HASH_SIZE,
    {
        self.elements.len() * HASH_SIZE
    }
}

/// Bit `i` of a digest, most-significant-bit first within each byte.
pub open spec fn digest_bit(digest: Seq<u8>, i: int) -> u8 {
    (digest[i / 8] >> ((7 - (i % 8)) as u8)) & 1
}

/// The secret-key index that digest bit `i` selects: each bit addresses the
/// pair `(2*i, 2*i + 1)` and picks one of the two.
pub open spec fn selected_index(digest: Seq<u8>, i: int) -> int {
    2 * i + digest_bit(digest, i) as int
}

/// The signature for a digest under a secret key: for each of the 256 digest
/// bits, the selected secret element, copied verbatim.
pub open spec fn spec_signature(digest: Seq<u8>, sk: Seq<Seq<u8>>) -> Seq<Seq<u8>> {
    Seq::new(SIGNATURE_ELEMENTS as nat, |i: int| sk[selected_index(digest, i)])
}

/// Whether a signature passes verification for a digest under a public key:
/// every revealed element hashes to the selected public element.
pub open spec fn spec_verify_ok(digest: Seq<u8>, sig: Seq<Seq<u8>>, pk: Seq<Seq<u8>>) -> bool {
    forall|i: int|
        0 <= i < SIGNATURE_ELEMENTS ==> sha256_of(sig[i]) == pk[selected_index(digest, i)]
}

/// A digest bit is zero or one, so every selected index lands inside the key.
pub broadcast proof fn lemma_selected_index_in_range(digest: Seq<u8>, i: int)
    requires
        0 <= i < SIGNATURE_ELEMENTS,
    ensures
        2 * i <= #[trigger] selected_index(digest, i) < SECRET_ELEMENTS,
{
    let b = digest[i / 8];
    let s = (7 - (i % 8)) as u8;
    assert((b >> s) & 1 <= 1) by (bit_vector);
}

/// Why a signing or verifying call failed; all validation happens before any
/// cryptographic work.
#[derive(Debug)]
pub enum LamportError {
    KeyAlreadyUsed,
    InvalidSecretKeyLength { expected: usize, actual: usize },
    InvalidPublicKeyLength { expected: usize, actual: usize },
    InvalidSignatureLength { expected: usize, actual: usize },
}

/// Byte sizes of the fixed-parameter scheme.
#[derive(Clone, Copy, Debug, Default)]
pub struct LamportSizes {
    pub public_key_bytes: usize,
    pub secret_key_bytes: usize,
    pub signature_bytes: usize,
}

/// The scheme facade: one parameter set, one signature per key.
#[derive(Clone, Copy, Debug, Default)]
pub struct LamportOtsScheme;

pub const LAMPORT_OTS_SCHEME: LamportOtsScheme = LamportOtsScheme;

fn bytes_eq(a: &Vec<u8>, b: &Vec<u8>) -> (r: bool)
    ensures
        r == (a@ == b@),
{
    if a.len() != b.len() {
        return false;
    }
    let n: usize = a.len();
    let mut i: usize = 0;
    while i < n
        invariant
            i <= n,
            a@.len() == n,
            b@.len() == n,
            forall|k: int| 0 <= k < i ==> a@[k] == b@[k],
        decreases n - i,
    {
        if a[i] != b[i] {
            return false;
        }
        i = i + 1;
    }
    proof {
        assert(a@ =~= b@);
    }
    true
}

fn copy_bytes(v: &Vec<u8>) -> (r: Vec<u8>)
    ensures
        r@ == v@,
{
    let n: usize = v.len();
    let mut r: Vec<u8> = Vec::new();
    let mut i: usize = 0;
    while i < n
        invariant
            i <= n,
            v@.len() == n,
            r@ =~= v@.take(i as int),
        decreases n - i,
    {
        r.push(v[i]);
        i = i + 1;
    }
    proof {
        assert(v@.take(n as int) =~= v@);
    }
    r
}

fn selected_secret_index(digest: &Vec<u8>, bit_index: usize) -> (r: usize)
    requires
        digest@.len() == 32,
        bit_index < SIGNATURE_ELEMENTS,
    ensures
        r == selected_index(digest@, bit_index as int),
        r < SECRET_ELEMENTS,
{
    let byte: u8 = digest[bit_index / 8];
    let sh: u8 = 7 - ((bit_index % 8) as u8);
    let bit: u8 = (byte >> sh) & 1;
    assert((byte >> sh) & 1 <= 1) by (bit_vector);
    (bit_index * 2) + (bit as usize)
}

fn sign_digest(digest: &Vec<u8>, secret_elements: &Vec<Vec<u8>>) -> (r: Vec<Vec<u8>>)
    requires
        digest@.len() == 32,
        secret_elements@.len() == SECRET_ELEMENTS,
    ensures
        r@.map_values(|e: Vec<u8>| e@) == spec_signature(
            digest@,
            secret_elements@.map_values(|e: Vec<u8>| e@),
        ),
        r@.len() == SIGNATURE_ELEMENTS,
{
    let ghost sk_model: Seq<Seq<u8>> = secret_elements@.map_values(|e: Vec<u8>| e@);
    let mut signature: Vec<Vec<u8>> = Vec::new();
    let mut i: usize = 0;
    while i < SIGNATURE_ELEMENTS
        invariant
            i <= SIGNATURE_ELEMENTS,
            digest@.len() == 32,
            secret_elements@.len() == SECRET_ELEMENTS,
            sk_model == secret_elements@.map_values(|e: Vec<u8>| e@),
            signature@.len() == i,
            forall|k: int|
                0 <= k < i ==> signature@[k]@ == sk_model[selected_index(digest@, k)],
        decreases SIGNATURE_ELEMENTS - i,
    {
        let idx: usize = selected_secret_index(digest, i);
        signature.push(copy_bytes(&secret_elements[idx]));
        i = i + 1;
    }
    proof {
        assert(signature@.map_values(|e: Vec<u8>| e@) =~= spec_signature(digest@, sk_model));
    }
    signature
}

impl LamportOtsScheme {
    pub fn algorithm_name(&self) -> (r: &'static str)
        ensures
            r@ == "Lamport OTS"@,
    {
        "Lamport OTS"
    }

    pub fn backend_name(&self) -> (r: &'static str)
        ensures
            r@ == "custom-rust-sha2"@,
    {
        "custom-rust-sha2"
    }

    pub fn param_set_name(&self) -> (r: &'static str)
        ensures
            r@ == "Lamport-OTS-256"@,
    {
        "Lamport-OTS-256"
    }

    pub fn max_signatures_per_key(&self) -> (r: usize)
        ensures
            r == 1,
    {
        1
    }

    pub fn sizes(&self) -> (r: LamportSizes)
        ensures
            r.public_key_bytes == SECRET_ELEMENTS * HASH_SIZE,
            r.secret_key_bytes == SECRET_ELEMENTS * HASH_SIZE,
            r.signature_bytes == SIGNATURE_ELEMENTS * HASH_SIZE,
    {
        LamportSizes {
            public_key_bytes: SECRET_ELEMENTS * HASH_SIZE,
            secret_key_bytes: SECRET_ELEMENTS * HASH_SIZE,
            signature_bytes: SIGNATURE_ELEMENTS * HASH_SIZE,
        }
    }

    /// Key generation seeded from the clock; the keys are well formed and
    /// linked, but their contents are not pinned by any seed the caller knows.
    pub fn keypair(&self) -> (r: (LamportPublicKey, LamportSecretKey))
        ensures
            keys_linked(r.0@, r.1.elems()),
            !r.1.spec_used(),
            forall|i: int|
                0 <= i < SECRET_ELEMENTS ==> r.0@[i].len() == 32 && r.1.elems()[i].len() == 32,
    {
        let seed: u64 = default_seed();
        self.keypair_with_seed(seed)
    }

    pub fn keypair_with_seed(&self, seed: u64) -> (r: (LamportPublicKey, LamportSecretKey))
        ensures
            r.0@ == keygen_public(init_state(seed)),
            r.1.elems() == keygen_secret(init_state(seed)),
            !r.1.spec_used(),
            keys_linked(r.0@, r.1.elems()),
            forall|i: int|
                0 <= i < SECRET_ELEMENTS ==> r.0@[i].len() == 32 && r.1.elems()[i].len() == 32,
    {
        let mut rng = XorShift64::new(seed);
        self.keypair_with_rng(&mut rng)
    }

    /// Derive a fresh key pair from the generator: secret element `i` is the
    /// next 32 bytes of the stream, and public element `i` its digest.
    pub fn keypair_with_rng(&self, rng: &mut XorShift64) -> (r: (
        LamportPublicKey,
        LamportSecretKey,
    ))
        ensures
            r.0@ == keygen_public(old(rng)@),
            r.1.elems() == keygen_secret(old(rng)@),
            !r.1.spec_used(),
            final(rng)@ == gen_state(old(rng)@, SECRET_ELEMENTS as nat),
            keys_linked(r.0@, r.1.elems()),
            forall|i: int|
                0 <= i < SECRET_ELEMENTS ==> r.0@[i].len() == 32 && r.1.elems()[i].len() == 32,
    {
        let ghost orig: u64 = rng@;
        let mut secret_elements: Vec<Vec<u8>> = Vec::new();
        let mut public_elements: Vec<Vec<u8>> = Vec::new();
        let mut i: usize = 0;
        while i < SECRET_ELEMENTS
            invariant
                i <= SECRET_ELEMENTS,
                secret_elements@.len() == i,
                public_elements@.len() == i,
                rng@ == gen_state(orig, i as nat),
                forall|k: int|
                    0 <= k < i ==> secret_elements@[k]@ == squeeze(gen_state(orig, k as nat), 32),
                forall|k: int|
                    0 <= k < i ==> public_elements@[k]@ == sha256_of(
                        squeeze(gen_state(orig, k as nat), 32),
                    ),
                forall|k: int|
                    0 <= k < i ==> secret_elements@[k]@.len() == 32 && public_elements@[k]@.len()
                        == 32,
            decreases SECRET_ELEMENTS - i,
        {
            let mut secret: Vec<u8> = vec![0u8; HASH_SIZE];
            assert(secret@.len() == 32);
            rng.fill_bytes(&mut secret);
            proof {
                lemma_squeeze_len(gen_state(orig, i as nat), 32);
                assert(gen_state(orig, (i + 1) as nat) == state_after(gen_state(orig, i as nat), 32));
            }
            public_elements.push(hash_bytes(secret.as_slice()));
            secret_elements.push(secret);
            i = i + 1;
        }
        let public_key = LamportPublicKey { elements: public_elements };
        let secret_key = LamportSecretKey { elements: secret_elements, used: false };
        proof {
            assert(public_key@ =~= keygen_public(orig));
            assert(secret_key.elems() =~= keygen_secret(orig));
        }
        (public_key, secret_key)
    }

    /// Sign a message: defined only once per key.  Fails with
    /// `KeyAlreadyUsed` exactly when the key has signed before, and with
    /// `InvalidSecretKeyLength` exactly when the key is malformed; on
    /// success the signature is the digest-selected secret elements and the
    /// key is consumed.
    pub fn sign(&self, message: &[u8], secret_key: &mut LamportSecretKey) -> (r: Result<
        LamportSignature,
        LamportError,
    >)
        ensures
            old(secret_key).spec_used() ==> (r matches Err(e) && e matches
                LamportError::KeyAlreadyUsed && *final(secret_key) == *old(secret_key)),
            !old(secret_key).spec_used() && old(secret_key).elems().len() != SECRET_ELEMENTS ==> (
            r matches Err(e) && e matches LamportError::InvalidSecretKeyLength { expected, actual }
                && expected == SECRET_ELEMENTS && actual == old(secret_key).elems().len() && *final(
                secret_key) == *old(secret_key)),
            !old(secret_key).spec_used() && old(secret_key).elems().len() == SECRET_ELEMENTS ==> (
            r matches Ok(sig) && sig@ == spec_signature(sha256_of(message@), old(secret_key).elems())
                && sig@.len() == SIGNATURE_ELEMENTS && final(secret_key).spec_used() && final(
                secret_key).elems() == old(secret_key).elems()),
    {
        if secret_key.used {
            return Err(LamportError::KeyAlreadyUsed);
        }
        if secret_key.elements.len() != SECRET_ELEMENTS {
            return Err(
                LamportError::InvalidSecretKeyLength {
                    expected: SECRET_ELEMENTS,
                    actual: secret_key.elements.len(),
                },
            );
        }
        let digest: Vec<u8> = hash_bytes(message);
        let signature: Vec<Vec<u8>> = sign_digest(&digest, &secret_key.elements);
        secret_key.used = true;
        Ok(LamportSignature { elements: signature })
    }

    /// Verify a signature: pure, idempotent, no mutation.  Length errors are
    /// reported exactly; otherwise the result decides `spec_verify_ok` for
    /// the message digest.
    pub fn verify(
        &self,
        message: &[u8],
        signature: &LamportSignature,
        public_key: &LamportPublicKey,
    ) -> (r: Result<bool, LamportError>)
        ensures
            signature@.len() != SIGNATURE_ELEMENTS ==> (r matches Err(e) && e matches
                LamportError::InvalidSignatureLength { expected, actual } && expected
                == SIGNATURE_ELEMENTS && actual == signature@.len()),
            signature@.len() == SIGNATURE_ELEMENTS && public_key@.len() != SECRET_ELEMENTS ==> (
            r matches Err(e) && e matches LamportError::InvalidPublicKeyLength { expected, actual }
                && expected == SECRET_ELEMENTS && actual == public_key@.len()),
            signature@.len() == SIGNATURE_ELEMENTS && public_key@.len() == SECRET_ELEMENTS ==> (
            r matches Ok(b) && b == spec_verify_ok(sha256_of(message@), signature@, public_key@)),
    {
        if signature.elements.len() != SIGNATURE_ELEMENTS {
            return Err(
                LamportError::InvalidSignatureLength {
                    expected: SIGNATURE_ELEMENTS,
                    actual: signature.elements.len(),
                },
            );
        }
        if public_key.elements.len() != SECRET_ELEMENTS {
            return Err(
                LamportError::InvalidPublicKeyLength {
                    expected: SECRET_ELEMENTS,
                    actual: public_key.elements.len(),
                },
            );
        }
        let digest: Vec<u8> = hash_bytes(message);
        let mut i: usize = 0;
        while i < SIGNATURE_ELEMENTS
            invariant
                i <= SIGNATURE_ELEMENTS,
                digest@ == sha256_of(message@),
                digest@.len() == 32,
                signature@.len() == SIGNATURE_ELEMENTS,
                public_key@.len() == SECRET_ELEMENTS,
                signature.elements@.len() == SIGNATURE_ELEMENTS,
                public_key.elements@.len() == SECRET_ELEMENTS,
                forall|k: int|
                    0 <= k < i ==> sha256_of(signature@[k]) == public_key@[selected_index(
                        digest@,
                        k,
                    )],
            decreases SIGNATURE_ELEMENTS - i,
        {
            let idx: usize = selected_secret_index(&digest, i);
            let expected: Vec<u8> = hash_bytes(signature.elements[i].as_slice());
            if !bytes_eq(&expected, &public_key.elements[idx]) {
                proof {
                    assert(sha256_of(signature@[i as int]) != public_key@[selected_index(
                        digest@,
                        i as int,
                    )]);
                }
                return Ok(false);
            }
            i = i + 1;
        }
        Ok(true)
    }
}

/// Little-endian 64-bit value of the first eight bytes of a byte string.
pub open spec fn le64_of(b: Seq<u8>) -> u64 {
    (b[0] as u64) | ((b[1] as u64) << 8) | ((b[2] as u64) << 16) | ((b[3] as u64) << 24) | ((
    b[4] as u64) << 32) | ((b[5] as u64) << 40) | ((b[6] as u64) << 48) | ((b[7] as u64) << 56)
}

/// A stable 64-bit seed from a human-readable label: hash the label and read
/// the first eight digest bytes little-endian.
pub fn seed_from_str(seed: &str) -> (r: u64)
    ensures
        r == le64_of(sha256_of(seed.spec_bytes())),
{
    let digest: Vec<u8> = hash_bytes(seed.as_bytes());
    (digest[0] as u64) | ((digest[1] as u64) << 8u64) | ((digest[2] as u64) << 16u64) | ((
    digest[3] as u64) << 24u64) | ((digest[4] as u64) << 32u64) | ((digest[5] as u64) << 40u64) | ((
    digest[6] as u64) << 48u64) | ((digest[7] as u64) << 56u64)
}

fn default_seed() -> u64 {
    crate::entropy::clock_entropy()
}

/// Round trip: for every digest, the signature drawn from a linked key pair
/// verifies against the matching public key.  With `sign` and `verify`
/// pinned to `spec_signature` and `spec_verify_ok`, this is the statement
/// that signing then verifying the same message yields `Ok(true)`.
pub proof fn lemma_sign_verify_roundtrip(digest: Seq<u8>, pk: Seq<Seq<u8>>, sk: Seq<Seq<u8>>)
    requires
        keys_linked(pk, sk),
    ensures
        spec_verify_ok(digest, spec_signature(digest, sk), pk),
{
    let sig = spec_signature(digest, sk);
    assert forall|i: int|
        0 <= i < SIGNATURE_ELEMENTS implies sha256_of(sig[i]) == pk[selected_index(
        digest,
        i,
    )] by {
        lemma_selected_index_in_range(digest, i);
        assert(sig[i] == sk[selected_index(digest, i)]);
    }
}

/// Tamper detection: a signature made for one digest is rejected against
/// another digest whenever some position selects different pair members and
/// the two public elements there differ.  (When every differing position
/// collides in the public key the signature still passes; such inputs are
/// excluded here, and with a collision-resistant digest they are vanishingly
/// rare.)
pub proof fn lemma_tamper_detected(
    d1: Seq<u8>,
    d2: Seq<u8>,
    pk: Seq<Seq<u8>>,
    sk: Seq<Seq<u8>>,
    i: int,
)
    requires
        keys_linked(pk, sk),
        0 <= i < SIGNATURE_ELEMENTS,
        selected_index(d2, i) != selected_index(d1, i),
        pk[selected_index(d2, i)] != pk[selected_index(d1, i)],
    ensures
        !spec_verify_ok(d2, spec_signature(d1, sk), pk),
{
    let sig = spec_signature(d1, sk);
    lemma_selected_index_in_range(d1, i);
    lemma_selected_index_in_range(d2, i);
    assert(sig[i] == sk[selected_index(d1, i)]);
    assert(sha256_of(sig[i]) != pk[selected_index(d2, i)]);
}

} // verus!
