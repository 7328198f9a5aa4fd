//! Codec: conversion between typed values (bounded-width unsigned integers
//! and boolean flags) and their little-endian byte images.
//!
//! All multi-byte integers of the record format are little-endian. Encoding
//! is keyed by the declared field length and never truncates: a value wider
//! than the declared length is rejected with `FieldWidthMismatch`.

use crate::errors::StateError;
use vstd::arithmetic::div_mod::lemma_fundamental_div_mod;
use vstd::prelude::*;

verus! {

/// 256 raised to the power `n`: the number of distinct values of an
/// `n`-byte field.
pub open spec fn pow256(n: nat) -> nat
    decreases n,
{
    if n == 0 {
        1
    } else {
        256 * pow256((n - 1) as nat)
    }
}

/// The `n`-byte little-endian image of `v`: the low byte comes first.
pub open spec fn le_bytes(v: nat, n: nat) -> Seq<u8>
    decreases n,
{
    if n == 0 {
        Seq::empty()
    } else {
        seq![(v % 256) as u8] + le_bytes(v / 256, (n - 1) as nat)
    }
}

/// The value of a little-endian byte string: the first byte is the lowest.
pub open spec fn le_value(s: Seq<u8>) -> nat
    decreases s.len(),
{
    if s.len() == 0 {
        0
    } else {
        (s[0] + 256 * le_value(s.skip(1))) as nat
    }
}

/// The byte stored for a boolean flag: 0xFF for true, 0x00 for false.
pub open spec fn flag_byte(b: bool) -> u8 {
    if b {
        0xFF
    } else {
        0x00
    }
}

/// The boolean read from a stored flag byte. Writes always normalize to
/// 0x00/0xFF; reads treat any nonzero byte as true.
pub open spec fn flag_value(byte: u8) -> bool {
    byte != 0
}

/// `pow256` grows monotonically with the width.
pub proof fn lemma_pow256_increases(m: nat, n: nat)
    requires
        m <= n,
    ensures
        pow256(m) <= pow256(n),
    decreases n,
{
    if m < n {
        lemma_pow256_increases(m, (n - 1) as nat);
    }
}

/// The little-endian image of a value has exactly the requested length.
pub proof fn lemma_le_bytes_len(v: nat, n: nat)
    ensures
        le_bytes(v, n).len() == n,
    decreases n,
{
    if n > 0 {
        lemma_le_bytes_len(v / 256, (n - 1) as nat);
    }
}

/// The value of an `n`-byte string is below `pow256(n)`.
pub proof fn lemma_le_value_bound(s: Seq<u8>)
    ensures
        le_value(s) < pow256(s.len()),
    decreases s.len(),
{
    if s.len() > 0 {
        lemma_le_value_bound(s.skip(1));
    }
}

/// Round trip: decoding the `n`-byte little-endian image of a value that
/// fits in `n` bytes yields the value back.
pub proof fn lemma_le_round_trip(v: nat, n: nat)
    requires
        v < pow256(n),
    ensures
        le_value(le_bytes(v, n)) == v,
    decreases n,
{
    if n > 0 {
        let head = seq![(v % 256) as u8];
        let tail = le_bytes(v / 256, (n - 1) as nat);
        assert((head + tail).skip(1) =~= tail);
        lemma_fundamental_div_mod(v as int, 256);
        lemma_le_round_trip(v / 256, (n - 1) as nat);
    }
}

/// A 1-byte little-endian image is just the byte itself.
pub proof fn lemma_le_bytes_single(v: u8)
    ensures
        le_bytes(v as nat, 1) == seq![v],
{
    assert(le_bytes((v as nat) / 256, 0) == Seq::<u8>::empty());
    assert(le_bytes(v as nat, 1) =~= seq![v]);
}

/// `pow256(8)` exceeds every u64, and the smaller fixed widths match their
/// integer types.
pub proof fn lemma_pow256_values()
    ensures
        pow256(1) == 0x100,
        pow256(2) == 0x1_0000,
        pow256(4) == 0x1_0000_0000,
        pow256(7) == 0x100_0000_0000_0000,
        pow256(8) == 0x1_0000_0000_0000_0000,
{
    assert(pow256(0) == 1);
    assert(pow256(1) == 0x100);
    assert(pow256(2) == 0x1_0000);
    assert(pow256(3) == 0x100_0000);
    assert(pow256(4) == 0x1_0000_0000);
    assert(pow256(5) == 0x100_0000_0000);
    assert(pow256(6) == 0x1_0000_0000_0000);
    assert(pow256(7) == 0x100_0000_0000_0000);
    assert(pow256(8) == 0x1_0000_0000_0000_0000);
}

/// Encodes `value` into exactly `length` little-endian bytes.
///
/// Fails with `FieldWidthMismatch` exactly when the value is too wide for
/// the declared length; it is never silently truncated.
pub fn encode_uint_le(value: u64, length: usize) -> (r: Result<Vec<u8>, StateError>)
    ensures
        match r {
            Ok(bytes) => value < pow256(length as nat) && bytes@ == le_bytes(
                value as nat,
                length as nat,
            ),
            Err(e) => e == StateError::FieldWidthMismatch && value >= pow256(length as nat),
        },
{
    let fits: bool = if length >= 8 {
        proof {
            lemma_pow256_values();
            lemma_pow256_increases(8, length as nat);
        }
        true
    } else {
        let mut p: u64 = 1;
        let mut i: usize = 0;
        while i < length
            invariant
                i <= length < 8,
                p == pow256(i as nat),
            decreases length - i,
        {
            proof {
                lemma_pow256_values();
                lemma_pow256_increases(i as nat, 6);
            }
            p = p * 256;
            i = i + 1;
        }
        value < p
    };
    if !fits {
        return Err(StateError::FieldWidthMismatch);
    }
    let mut out: Vec<u8> = Vec::new();
    let mut v: u64 = value;
    let mut i: usize = 0;
    proof {
        assert(Seq::<u8>::empty() + le_bytes(value as nat, length as nat) =~= le_bytes(
            value as nat,
            length as nat,
        ));
    }
    while i < length
        invariant
            i <= length,
            out@.len() == i,
            le_bytes(value as nat, length as nat) == out@ + le_bytes(
                v as nat,
                (length - i) as nat,
            ),
        decreases length - i,
    {
        let byte: u8 = (v % 256) as u8;
        proof {
            assert(out@ + le_bytes(v as nat, (length - i) as nat) =~= (out@ + seq![byte])
                + le_bytes((v / 256) as nat, (length - i - 1) as nat));
        }
        out.push(byte);
        v = v / 256;
        i = i + 1;
    }
    proof {
        assert(out@ + le_bytes(v as nat, 0) =~= out@);
    }
    Ok(out)
}

/// Decodes a little-endian byte string of at most 8 bytes into its value.
///
/// Fails with `FieldWidthMismatch` exactly when the string is longer than
/// the widest supported integer (8 bytes).
pub fn decode_uint_le(bytes: &[u8]) -> (r: Result<u64, StateError>)
    ensures
        match r {
            Ok(v) => bytes@.len() <= 8 && v == le_value(bytes@),
            Err(e) => e == StateError::FieldWidthMismatch && bytes@.len() > 8,
        },
{
    let length: usize = bytes.len();
    if length > 8 {
        return Err(StateError::FieldWidthMismatch);
    }
    let mut acc: u64 = 0;
    let mut i: usize = length;
    proof {
        assert(bytes@.skip(length as int) =~= Seq::<u8>::empty());
    }
    while i > 0
        invariant
            i <= length <= 8,
            bytes@.len() == length,
            acc == le_value(bytes@.skip(i as int)),
        decreases i,
    {
        proof {
            lemma_le_value_bound(bytes@.skip(i as int));
            lemma_pow256_increases(bytes@.skip(i as int).len(), 7);
            lemma_pow256_values();
            assert(bytes@.skip(i - 1).skip(1) =~= bytes@.skip(i as int));
            assert(bytes@.skip(i - 1)[0] == bytes@[i - 1]);
        }
        acc = acc * 256 + bytes[i - 1] as u64;
        i = i - 1;
    }
    proof {
        assert(bytes@.skip(0) =~= bytes@);
    }
    Ok(acc)
}

/// Encodes a u32 as its 4-byte little-endian image.
pub fn encode_u32_le(value: u32) -> (r: Vec<u8>)
    ensures
        r@ == le_bytes(value as nat, 4),
        r@.len() == 4,
{
    proof {
        lemma_pow256_values();
        lemma_le_bytes_len(value as nat, 4);
    }
    match encode_uint_le(value as u64, 4) {
        Ok(bytes) => bytes,
        Err(_) => {
            proof {
                assert(false);
            }
            Vec::new()
        },
    }
}

/// Decodes a 4-byte little-endian image into a u32.
///
/// Fails with `FieldWidthMismatch` exactly when the image is not 4 bytes.
pub fn decode_u32_le(bytes: &[u8]) -> (r: Result<u32, StateError>)
    ensures
        match r {
            Ok(v) => bytes@.len() == 4 && v == le_value(bytes@),
            Err(e) => e == StateError::FieldWidthMismatch && bytes@.len() != 4,
        },
{
    if bytes.len() != 4 {
        return Err(StateError::FieldWidthMismatch);
    }
    proof {
        lemma_le_value_bound(bytes@);
        lemma_pow256_values();
    }
    match decode_uint_le(bytes) {
        Ok(v) => Ok(v as u32),
        Err(_) => {
            proof {
                assert(false);
            }
            Err(StateError::FieldWidthMismatch)
        },
    }
}

/// Encodes a u8 as its 1-byte image.
pub fn encode_u8_le(value: u8) -> (r: Vec<u8>)
    ensures
        r@ == le_bytes(value as nat, 1),
        r@.len() == 1,
{
    proof {
        lemma_pow256_values();
        lemma_le_bytes_len(value as nat, 1);
    }
    match encode_uint_le(value as u64, 1) {
        Ok(bytes) => bytes,
        Err(_) => {
            proof {
                assert(false);
            }
            Vec::new()
        },
    }
}

/// Decodes a 1-byte image into a u8.
///
/// Fails with `FieldWidthMismatch` exactly when the image is not 1 byte.
pub fn decode_u8_le(bytes: &[u8]) -> (r: Result<u8, StateError>)
    ensures
        match r {
            Ok(v) => bytes@.len() == 1 && v == le_value(bytes@),
            Err(e) => e == StateError::FieldWidthMismatch && bytes@.len() != 1,
        },
{
    if bytes.len() != 1 {
        return Err(StateError::FieldWidthMismatch);
    }
    proof {
        lemma_le_value_bound(bytes@);
        lemma_pow256_values();
    }
    match decode_uint_le(bytes) {
        Ok(v) => Ok(v as u8),
        Err(_) => {
            proof {
                assert(false);
            }
            Err(StateError::FieldWidthMismatch)
        },
    }
}

/// Encodes a u16 as its 2-byte little-endian image.
pub fn encode_u16_le(value: u16) -> (r: Vec<u8>)
    ensures
        r@ == le_bytes(value as nat, 2),
        r@.len() == 2,
{
    proof {
        lemma_pow256_values();
        lemma_le_bytes_len(value as nat, 2);
    }
    match encode_uint_le(value as u64, 2) {
        Ok(bytes) => bytes,
        Err(_) => {
            proof {
                assert(false);
            }
            Vec::new()
        },
    }
}

/// Decodes a 2-byte little-endian image into a u16.
///
/// Fails with `FieldWidthMismatch` exactly when the image is not 2 bytes.
pub fn decode_u16_le(bytes: &[u8]) -> (r: Result<u16, StateError>)
    ensures
        match r {
            Ok(v) => bytes@.len() == 2 && v == le_value(bytes@),
            Err(e) => e == StateError::FieldWidthMismatch && bytes@.len() != 2,
        },
{
    if bytes.len() != 2 {
        return Err(StateError::FieldWidthMismatch);
    }
    proof {
        lemma_le_value_bound(bytes@);
        lemma_pow256_values();
    }
    match decode_uint_le(bytes) {
        Ok(v) => Ok(v as u16),
        Err(_) => {
            proof {
                assert(false);
            }
            Err(StateError::FieldWidthMismatch)
        },
    }
}

/// Encodes a u64 as its 8-byte little-endian image.
pub fn encode_u64_le(value: u64) -> (r: Vec<u8>)
    ensures
        r@ == le_bytes(value as nat, 8),
        r@.len() == 8,
{
    proof {
        lemma_pow256_values();
        lemma_le_bytes_len(value as nat, 8);
    }
    match encode_uint_le(value, 8) {
        Ok(bytes) => bytes,
        Err(_) => {
            proof {
                assert(false);
            }
            Vec::new()
        },
    }
}

/// Decodes an 8-byte little-endian image into a u64.
///
/// Fails with `FieldWidthMismatch` exactly when the image is not 8 bytes.
pub fn decode_u64_le(bytes: &[u8]) -> (r: Result<u64, StateError>)
    ensures
        match r {
            Ok(v) => bytes@.len() == 8 && v == le_value(bytes@),
            Err(e) => e == StateError::FieldWidthMismatch && bytes@.len() != 8,
        },
{
    if bytes.len() != 8 {
        return Err(StateError::FieldWidthMismatch);
    }
    decode_uint_le(bytes)
}

/// Encodes a boolean flag as its stored byte: 0xFF for true, 0x00 for false.
pub fn encode_flag(b: bool) -> (r: u8)
    ensures
        r == flag_byte(b),
{
    if b {
        0xFF
    } else {
        0x00
    }
}

/// Decodes a stored flag byte: any nonzero byte reads as true.
pub fn decode_flag(byte: u8) -> (r: bool)
    ensures
        r == flag_value(byte),
{
    byte != 0
}

} // verus!
