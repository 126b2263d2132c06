//! Decoding of remote replies against a caller-specified shape.
//!
//! Storage values and raw-procedure replies arrive as plain bytes in the
//! ledger's fixed-width little-endian encoding. The [`ScaleDecode`] trait
//! keeps the query facade shape-agnostic: each decodable shape states, as
//! spec functions, which byte strings are valid encodings and which value
//! each one stands for, proves that a byte string stands for at most one
//! value, and the executable decoder is proved to match those statements.
//! A shape decodes from the whole buffer or not at all.

use vstd::prelude::*;

use crate::primitives::{AccountId, Hash256};

verus! {

/// A value shape that can be decoded from a fetched byte string.
pub trait ScaleDecode: Sized {
    /// Whether the byte string is a valid encoding of some value of this
    /// shape.
    spec fn spec_decode_ok(bytes: Seq<u8>) -> bool;

    /// Whether the byte string is the encoding of exactly this value.
    spec fn spec_decodes(bytes: Seq<u8>, v: Self) -> bool;

    /// A byte string stands for at most one value of the shape.
    proof fn lemma_decode_deterministic(bytes: Seq<u8>, v1: Self, v2: Self)
        requires
            Self::spec_decodes(bytes, v1),
            Self::spec_decodes(bytes, v2),
        ensures
            v1 == v2,
    ;

    /// Decodes the whole buffer as this shape.
    fn decode_from(bytes: &[u8]) -> (r: Option<Self>)
        ensures
            r is Some <==> Self::spec_decode_ok(bytes@),
            r matches Some(v) ==> Self::spec_decodes(bytes@, v),
    ;
}

/// The value of a little-endian byte string, as a mathematical integer.
pub open spec fn le_value(bytes: Seq<u8>) -> nat
    decreases bytes.len(),
{
    if bytes.len() == 0 {
        0
    } else {
        (bytes[0] + 0x100 * le_value(bytes.subrange(1, bytes.len() as int))) as nat
    }
}

/// 256 to the given power.
pub open spec fn pow256(n: nat) -> nat
    decreases n,
{
    if n == 0 {
        1
    } else {
        0x100 * pow256((n - 1) as nat)
    }
}

/// The little-endian value of a byte string is below 256 to the power of
/// its length.
proof fn lemma_le_value_bound(bytes: Seq<u8>)
    ensures
        le_value(bytes) < pow256(bytes.len() as nat),
    decreases bytes.len(),
{
    if bytes.len() > 0 {
        let tail = bytes.subrange(1, bytes.len() as int);
        lemma_le_value_bound(tail);
    }
}

/// A power of 256 is at least one.
proof fn lemma_pow256_pos(n: nat)
    ensures
        pow256(n) >= 1,
    decreases n,
{
    if n > 0 {
        lemma_pow256_pos((n - 1) as nat);
    }
}

/// Powers of 256 grow with the exponent.
proof fn lemma_pow256_mono(a: nat, b: nat)
    requires
        a <= b,
    ensures
        pow256(a) <= pow256(b),
    decreases b,
{
    if a < b {
        lemma_pow256_mono(a, (b - 1) as nat);
        lemma_pow256_pos((b - 1) as nat);
    }
}

/// The concrete values of the powers of 256 the decoders need.
proof fn lemma_pow256_values()
    ensures
        pow256(4) == 0x1_0000_0000,
        pow256(8) == 0x1_0000_0000_0000_0000,
        pow256(15) == 0x100_0000_0000_0000_0000_0000_0000_0000,
        pow256(16) == 0x1_0000_0000_0000_0000_0000_0000_0000_0000,
{
    reveal_with_fuel(pow256, 17);
}

/// Reads a little-endian value of the given width from the front of a
/// buffer at least that long.
fn read_le(bytes: &[u8], width: usize) -> (r: u128)
    requires
        width <= 16,
        width <= bytes@.len(),
    ensures
        r == le_value(bytes@.subrange(0, width as int)),
{
    let mut acc: u128 = 0;
    let mut i: usize = width;
    while i > 0
        invariant
            i <= width,
            width <= 16,
            width <= bytes@.len(),
            acc == le_value(bytes@.subrange(i as int, width as int)),
            acc < pow256((width - i) as nat),
        decreases i,
    {
        proof {
            lemma_pow256_mono((width - i) as nat, 15);
            lemma_pow256_values();
            assert(bytes@.subrange(i - 1, width as int).subrange(
                1,
                bytes@.subrange(i - 1, width as int).len() as int,
            ) =~= bytes@.subrange(i as int, width as int));
        }
        i = i - 1;
        acc = bytes[i] as u128 + 0x100 * acc;
    }
    acc
}

impl ScaleDecode for bool {
    open spec fn spec_decode_ok(bytes: Seq<u8>) -> bool {
        bytes.len() == 1 && (bytes[0] == 0u8 || bytes[0] == 1u8)
    }

    open spec fn spec_decodes(bytes: Seq<u8>, v: bool) -> bool {
        bytes.len() == 1 && (if v {
            bytes[0] == 1u8
        } else {
            bytes[0] == 0u8
        })
    }

    proof fn lemma_decode_deterministic(bytes: Seq<u8>, v1: bool, v2: bool) {
    }

    fn decode_from(bytes: &[u8]) -> (r: Option<bool>) {
        if bytes.len() != 1 {
            None
        } else if bytes[0] == 0 {
            Some(false)
        } else if bytes[0] == 1 {
            Some(true)
        } else {
            None
        }
    }
}

impl ScaleDecode for u32 {
    open spec fn spec_decode_ok(bytes: Seq<u8>) -> bool {
        bytes.len() == 4
    }

    open spec fn spec_decodes(bytes: Seq<u8>, v: u32) -> bool {
        bytes.len() == 4 && v == le_value(bytes)
    }

    proof fn lemma_decode_deterministic(bytes: Seq<u8>, v1: u32, v2: u32) {
    }

    fn decode_from(bytes: &[u8]) -> (r: Option<u32>) {
        if bytes.len() != 4 {
            return None;
        }
        let wide = read_le(bytes, 4);
        proof {
            assert(bytes@.subrange(0, 4) =~= bytes@);
            lemma_le_value_bound(bytes@);
            lemma_pow256_values();
        }
        Some(wide as u32)
    }
}

impl ScaleDecode for u64 {
    open spec fn spec_decode_ok(bytes: Seq<u8>) -> bool {
        bytes.len() == 8
    }

    open spec fn spec_decodes(bytes: Seq<u8>, v: u64) -> bool {
        bytes.len() == 8 && v == le_value(bytes)
    }

    proof fn lemma_decode_deterministic(bytes: Seq<u8>, v1: u64, v2: u64) {
    }

    fn decode_from(bytes: &[u8]) -> (r: Option<u64>) {
        if bytes.len() != 8 {
            return None;
        }
        let wide = read_le(bytes, 8);
        proof {
            assert(bytes@.subrange(0, 8) =~= bytes@);
            lemma_le_value_bound(bytes@);
            lemma_pow256_values();
        }
        Some(wide as u64)
    }
}

impl ScaleDecode for u128 {
    open spec fn spec_decode_ok(bytes: Seq<u8>) -> bool {
        bytes.len() == 16
    }

    open spec fn spec_decodes(bytes: Seq<u8>, v: u128) -> bool {
        bytes.len() == 16 && v == le_value(bytes)
    }

    proof fn lemma_decode_deterministic(bytes: Seq<u8>, v1: u128, v2: u128) {
    }

    fn decode_from(bytes: &[u8]) -> (r: Option<u128>) {
        if bytes.len() != 16 {
            return None;
        }
        let wide = read_le(bytes, 16);
        proof {
            assert(bytes@.subrange(0, 16) =~= bytes@);
        }
        Some(wide)
    }
}

/// The value of one ASCII hexadecimal digit, upper or lower case; `None`
/// for any other byte.
pub open spec fn spec_hex_nibble(d: u8) -> Option<u8> {
    if 0x30 <= d <= 0x39 {
        Some((d - 0x30) as u8)
    } else if 0x61 <= d <= 0x66 {
        Some((d - 0x61 + 10) as u8)
    } else if 0x41 <= d <= 0x46 {
        Some((d - 0x41 + 10) as u8)
    } else {
        None
    }
}

/// Whether a byte string is a well-formed hexadecimal spelling: an even
/// number of digits, each one a hexadecimal digit.
pub open spec fn spec_hex_ok(digits: Seq<u8>) -> bool {
    &&& digits.len() % 2 == 0
    &&& forall|i: int| 0 <= i < digits.len() ==> spec_hex_nibble(#[trigger] digits[i]) is Some
}

/// The byte spelled by the hexadecimal digit pair at position `i`.
pub open spec fn spec_hex_byte(digits: Seq<u8>, i: int) -> u8
    recommends
        spec_hex_ok(digits),
        0 <= i < digits.len() / 2,
{
    (spec_hex_nibble(digits[2 * i])->Some_0 * 16 + spec_hex_nibble(digits[2 * i + 1])->Some_0) as u8
}

/// The value of one ASCII hexadecimal digit.
fn hex_nibble(d: u8) -> (r: Option<u8>)
    ensures
        r == spec_hex_nibble(d),
        r matches Some(v) ==> v < 16,
{
    if 0x30 <= d && d <= 0x39 {
        Some(d - 0x30)
    } else if 0x61 <= d && d <= 0x66 {
        Some(d - 0x61 + 10)
    } else if 0x41 <= d && d <= 0x46 {
        Some(d - 0x41 + 10)
    } else {
        None
    }
}

/// Decodes a hexadecimal spelling into the bytes it spells, or `None`
/// when the input is not a well-formed hexadecimal byte string. Raw
/// procedure replies often arrive spelled this way before they can be
/// decoded as a shape.
pub fn bytes_from_hex(digits: &[u8]) -> (r: Option<Vec<u8>>)
    ensures
        r is Some <==> spec_hex_ok(digits@),
        r matches Some(v) ==> v@.len() == digits@.len() / 2 && (forall|i: int|
            0 <= i < v@.len() ==> v@[i] == spec_hex_byte(digits@, i)),
{
    if digits.len() % 2 != 0 {
        return None;
    }
    let mut out: Vec<u8> = Vec::new();
    let mut i: usize = 0;
    while i < digits.len()
        invariant
            i % 2 == 0,
            i <= digits@.len(),
            digits@.len() % 2 == 0,
            out@.len() == i / 2,
            forall|j: int| 0 <= j < i ==> spec_hex_nibble(#[trigger] digits@[j]) is Some,
            forall|j: int| 0 <= j < out@.len() ==> out@[j] == spec_hex_byte(digits@, j),
        decreases digits@.len() - i,
    {
        let hi = match hex_nibble(digits[i]) {
            Some(v) => v,
            None => {
                return None;
            },
        };
        let lo = match hex_nibble(digits[i + 1]) {
            Some(v) => v,
            None => {
                return None;
            },
        };
        out.push(hi * 16 + lo);
        i += 2;
    }
    Some(out)
}

/// Copies a 32-byte buffer into an array.
fn copy_32_bytes(bytes: &[u8]) -> (r: [u8; 32])
    requires
        bytes@.len() == 32,
    ensures
        r@ == bytes@,
{
    let mut out = [0u8; 32];
    let mut i: usize = 0;
    while i < 32
        invariant
            i <= 32,
            bytes@.len() == 32,
            forall|j: int| 0 <= j < i ==> out@[j] == bytes@[j],
        decreases 32 - i,
    {
        out[i] = bytes[i];
        i += 1;
    }
    assert(out@ =~= bytes@);
    out
}

impl ScaleDecode for Hash256 {
    open spec fn spec_decode_ok(bytes: Seq<u8>) -> bool {
        bytes.len() == 32
    }

    open spec fn spec_decodes(bytes: Seq<u8>, v: Hash256) -> bool {
        bytes.len() == 32 && v@ == bytes
    }

    proof fn lemma_decode_deterministic(bytes: Seq<u8>, v1: Hash256, v2: Hash256) {
        assert(v1.bytes =~= v2.bytes);
    }

    fn decode_from(bytes: &[u8]) -> (r: Option<Hash256>) {
        if bytes.len() != 32 {
            return None;
        }
        Some(Hash256 { bytes: copy_32_bytes(bytes) })
    }
}

impl ScaleDecode for AccountId {
    open spec fn spec_decode_ok(bytes: Seq<u8>) -> bool {
        bytes.len() == 32
    }

    open spec fn spec_decodes(bytes: Seq<u8>, v: AccountId) -> bool {
        bytes.len() == 32 && v@ == bytes
    }

    proof fn lemma_decode_deterministic(bytes: Seq<u8>, v1: AccountId, v2: AccountId) {
        assert(v1.bytes =~= v2.bytes);
    }

    fn decode_from(bytes: &[u8]) -> (r: Option<AccountId>) {
        if bytes.len() != 32 {
            return None;
        }
        Some(AccountId { bytes: copy_32_bytes(bytes) })
    }
}

} // verus!
