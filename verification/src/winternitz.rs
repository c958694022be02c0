//! Facade data for the Winternitz one-time signature scheme.  Keys and
//! signatures live in an outside crate driven from the unverified harness;
//! the library computes the message digest that the harness feeds to it.

use vstd::prelude::*;

verus! {

pub const BENCH_MESSAGE_BYTE: u8 = 0x42;

/// Marker for the Winternitz OTS backend; its cryptography runs in the
/// harness, outside the verified library.
#[derive(Clone, Copy, Debug, Default)]
pub struct WinternitzOtsScheme;

pub const WINTERNITZ_OTS: WinternitzOtsScheme = WinternitzOtsScheme;

/// The 32-byte BLAKE2b digest (empty key) of a byte string, named but not
/// defined: it is a function of its input alone, and the trusted wrapper
/// below ties it to the outside implementation.
pub uninterp spec fn blake2b32_of(data: Seq<u8>) -> Seq<u8>;

/// Relies on blake2_rfc::blake2b::blake2b with digest length 32 and an empty
/// key: a 32-byte digest that depends on the input bytes alone.
#[verifier::external_body]
fn blake2b_digest(data: &[u8]) -> (r: Vec<u8>)
    ensures
        r@ == blake2b32_of(data@),
        r@.len() == 32,
{
    blake2_rfc::blake2b::blake2b(32, &[], data).as_bytes().to_vec()
}

/// The uppercase hexadecimal digit for a nibble.
pub open spec fn hex_digit_upper(v: u8) -> char {
    if v == 0 {
        '0'
    } else if v == 1 {
        '1'
    } else if v == 2 {
        '2'
    } else if v == 3 {
        '3'
    } else if v == 4 {
        '4'
    } else if v == 5 {
        '5'
    } else if v == 6 {
        '6'
    } else if v == 7 {
        '7'
    } else if v == 8 {
        '8'
    } else if v == 9 {
        '9'
    } else if v == 10 {
        'A'
    } else if v == 11 {
        'B'
    } else if v == 12 {
        'C'
    } else if v == 13 {
        'D'
    } else if v == 14 {
        'E'
    } else {
        'F'
    }
}

/// Uppercase hexadecimal encoding of a byte string: two digits per byte,
/// high nibble first.
pub open spec fn hex_upper_of(b: Seq<u8>) -> Seq<char> {
    Seq::new(2 * b.len(), |i: int| if i % 2 == 0 {
        hex_digit_upper(b[i / 2] >> 4)
    } else {
        hex_digit_upper(b[i / 2] & 0xf)
    })
}

/// Relies on hex::encode_upper: each byte becomes its two uppercase
/// hexadecimal digits, high nibble first, in input order.
#[verifier::external_body]
fn hex_encode_upper(data: &Vec<u8>) -> (r: String)
    ensures
        r@ == hex_upper_of(data@),
{
    hex::encode_upper(data.as_slice())
}

/// The hex-encoded BLAKE2b digest that the Winternitz backend signs: 64
/// uppercase hexadecimal characters.
pub fn message_digest_hex(message: &[u8]) -> (r: String)
    ensures
        r@ == hex_upper_of(blake2b32_of(message@)),
        r@.len() == 64,
{
    let digest: Vec<u8> = blake2b_digest(message);
    hex_encode_upper(&digest)
}

/// A benchmark message of the requested size, filled with the fixed byte.
pub fn bench_message(size: usize) -> (r: Vec<u8>)
    ensures
        r@.len() == size,
        forall|i: int| 0 <= i < size ==> r@[i] == BENCH_MESSAGE_BYTE,
{
    let mut r: Vec<u8> = Vec::new();
    let mut i: usize = 0;
    while i < size
        invariant
            i <= size,
            r@.len() == i,
            forall|k: int| 0 <= k < i ==> r@[k] == BENCH_MESSAGE_BYTE,
        decreases size - i,
    {
        r.push(BENCH_MESSAGE_BYTE);
        i = i + 1;
    }
    r
}

} // verus!
