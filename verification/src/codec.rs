//! The primitives of the binary layout of records and instruction payloads:
//! little-endian integers, one-byte flags and raw 32-byte addresses.

use vstd::prelude::*;
use vstd::bytes::{
    spec_u32_from_le_bytes, spec_u32_to_le_bytes, spec_u64_from_le_bytes, spec_u64_to_le_bytes,
    u32_from_le_bytes, u32_to_le_bytes, u64_from_le_bytes, u64_to_le_bytes,
    lemma_auto_spec_u32_to_from_le_bytes, lemma_auto_spec_u64_to_from_le_bytes,
};
use vstd::slice::slice_subrange;
use crate::pubkey::{lemma_same_view_same_pubkey, Pubkey};

verus! {

/// The address whose bytes are `bytes`.
pub open spec fn pubkey_of(bytes: Seq<u8>) -> Pubkey {
    choose|key: Pubkey| key@ == bytes
}

/// The address whose bytes are those of `key` is `key`.
pub proof fn lemma_pubkey_of_view(key: Pubkey)
    ensures
        pubkey_of(key@) == key,
{
    let other = pubkey_of(key@);
    assert(other@ == key@);
    lemma_same_view_same_pubkey(other, key);
}

/// The little-endian `u64` in the eight bytes of `data` from `at` on.
pub open spec fn spec_u64_at(data: Seq<u8>, at: int) -> u64 {
    spec_u64_from_le_bytes(data.subrange(at, at + 8))
}

/// The little-endian `u32` in the four bytes of `data` from `at` on.
pub open spec fn spec_u32_at(data: Seq<u8>, at: int) -> u32 {
    spec_u32_from_le_bytes(data.subrange(at, at + 4))
}

/// The address in the 32 bytes of `data` from `at` on.
pub open spec fn spec_pubkey_at(data: Seq<u8>, at: int) -> Pubkey {
    pubkey_of(data.subrange(at, at + 32))
}

/// The byte that stands for a flag.
pub open spec fn spec_bool_byte(flag: bool) -> u8 {
    if flag {
        1
    } else {
        0
    }
}

/// Reads a little-endian `u64`.
pub fn u64_at(data: &[u8], at: usize) -> (value: u64)
    requires
        at + 8 <= data@.len(),
    ensures
        value == spec_u64_at(data@, at as int),
{
    let _len: usize = data.len();
    u64_from_le_bytes(slice_subrange(data, at, at + 8))
}

/// Reads a little-endian `u32`.
pub fn u32_at(data: &[u8], at: usize) -> (value: u32)
    requires
        at + 4 <= data@.len(),
    ensures
        value == spec_u32_at(data@, at as int),
{
    let _len: usize = data.len();
    u32_from_le_bytes(slice_subrange(data, at, at + 4))
}

/// Reads a raw 32-byte address.
pub fn pubkey_at(data: &[u8], at: usize) -> (key: Pubkey)
    requires
        at + 32 <= data@.len(),
    ensures
        key == spec_pubkey_at(data@, at as int),
        key@ == data@.subrange(at as int, at + 32),
{
    let _len: usize = data.len();
    let mut bytes = [0u8; 32];
    let mut i: usize = 0;
    while i < 32
        invariant
            i <= 32,
            at + 32 <= data@.len() <= usize::MAX,
            forall|j: int| 0 <= j < i ==> bytes@[j] == data@[at + j],
        decreases 32 - i,
    {
        bytes[i] = data[at + i];
        i += 1;
    }
    let key = Pubkey { bytes };
    proof {
        assert(key@ =~= data@.subrange(at as int, at + 32));
        lemma_pubkey_of_view(key);
    }
    key
}

/// Writes a little-endian `u64`.
pub fn put_u64(out: &mut Vec<u8>, value: u64)
    ensures
        final(out)@ == old(out)@ + spec_u64_to_le_bytes(value),
{
    let mut bytes = u64_to_le_bytes(value);
    out.append(&mut bytes);
}

/// Writes a little-endian `u32`.
pub fn put_u32(out: &mut Vec<u8>, value: u32)
    ensures
        final(out)@ == old(out)@ + spec_u32_to_le_bytes(value),
{
    let mut bytes = u32_to_le_bytes(value);
    out.append(&mut bytes);
}

/// Writes a flag as one byte.
pub fn put_bool(out: &mut Vec<u8>, flag: bool)
    ensures
        final(out)@ == old(out)@ + seq![spec_bool_byte(flag)],
{
    out.push(if flag { 1u8 } else { 0u8 });
    assert(out@ =~= old(out)@ + seq![spec_bool_byte(flag)]);
}

/// Writes one byte.
pub fn put_u8(out: &mut Vec<u8>, value: u8)
    ensures
        final(out)@ == old(out)@ + seq![value],
{
    out.push(value);
    assert(out@ =~= old(out)@ + seq![value]);
}

/// Writes a raw 32-byte address.
pub fn put_pubkey(out: &mut Vec<u8>, key: &Pubkey)
    ensures
        final(out)@ == old(out)@ + key@,
{
    let mut bytes = key.to_vec();
    out.append(&mut bytes);
}

/// The bytes of an address that may be missing: a zero byte, or a one byte
/// and the address.
pub open spec fn spec_option_pubkey_bytes(key: Option<Pubkey>) -> Seq<u8> {
    match key {
        None => seq![0u8],
        Some(key) => seq![1u8] + key@,
    }
}

/// The bytes of a `u64` that may be missing: a zero byte, or a one byte and
/// the number.
pub open spec fn spec_option_u64_bytes(value: Option<u64>) -> Seq<u8> {
    match value {
        None => seq![0u8],
        Some(value) => seq![1u8] + spec_u64_to_le_bytes(value),
    }
}

/// The address that may be missing in the bytes of `data` from `at` on, and
/// where the bytes behind it start.
pub open spec fn spec_option_pubkey_at(data: Seq<u8>, at: int) -> Option<(Option<Pubkey>, int)> {
    if at < 0 || at >= data.len() {
        None
    } else if data[at] == 0 {
        Some((None, at + 1))
    } else if data[at] == 1 && at + 33 <= data.len() {
        Some((Some(spec_pubkey_at(data, at + 1)), at + 33))
    } else {
        None
    }
}

/// The `u64` that may be missing in the bytes of `data` from `at` on, and
/// where the bytes behind it start.
pub open spec fn spec_option_u64_at(data: Seq<u8>, at: int) -> Option<(Option<u64>, int)> {
    if at < 0 || at >= data.len() {
        None
    } else if data[at] == 0 {
        Some((None, at + 1))
    } else if data[at] == 1 && at + 9 <= data.len() {
        Some((Some(spec_u64_at(data, at + 1)), at + 9))
    } else {
        None
    }
}

/// Writes an address that may be missing.
pub fn put_option_pubkey(out: &mut Vec<u8>, key: &Option<Pubkey>)
    ensures
        final(out)@ == old(out)@ + spec_option_pubkey_bytes(*key),
{
    match key {
        None => {
            put_u8(out, 0);
        },
        Some(key) => {
            put_u8(out, 1);
            put_pubkey(out, key);
            assert(out@ =~= old(out)@ + (seq![1u8] + key@));
        },
    }
}

/// Writes a `u64` that may be missing.
pub fn put_option_u64(out: &mut Vec<u8>, value: Option<u64>)
    ensures
        final(out)@ == old(out)@ + spec_option_u64_bytes(value),
{
    match value {
        None => {
            put_u8(out, 0);
        },
        Some(value) => {
            put_u8(out, 1);
            put_u64(out, value);
            assert(out@ =~= old(out)@ + (seq![1u8] + spec_u64_to_le_bytes(value)));
        },
    }
}

/// Reads an address that may be missing.
pub fn option_pubkey_at(data: &[u8], at: usize) -> (parsed: Option<(Option<Pubkey>, usize)>)
    ensures
        match parsed {
            Some((key, next)) => spec_option_pubkey_at(data@, at as int) == Some(
                (key, next as int),
            ),
            None => spec_option_pubkey_at(data@, at as int) is None,
        },
{
    let len = data.len();
    if at >= len {
        return None;
    }
    if data[at] == 0 {
        Some((None, at + 1))
    } else if data[at] == 1 && len - at >= 33 {
        Some((Some(pubkey_at(data, at + 1)), at + 33))
    } else {
        None
    }
}

/// Reads a `u64` that may be missing.
pub fn option_u64_at(data: &[u8], at: usize) -> (parsed: Option<(Option<u64>, usize)>)
    ensures
        match parsed {
            Some((value, next)) => spec_option_u64_at(data@, at as int) == Some(
                (value, next as int),
            ),
            None => spec_option_u64_at(data@, at as int) is None,
        },
{
    let len = data.len();
    if at >= len {
        return None;
    }
    if data[at] == 0 {
        Some((None, at + 1))
    } else if data[at] == 1 && len - at >= 9 {
        Some((Some(u64_at(data, at + 1)), at + 9))
    } else {
        None
    }
}

/// An address that may be missing and was written is read back.
pub proof fn lemma_option_pubkey_round_trip(before: Seq<u8>, key: Option<Pubkey>, after: Seq<u8>)
    ensures
        spec_option_pubkey_at(before + spec_option_pubkey_bytes(key) + after, before.len() as int)
            == Some((key, (before.len() + spec_option_pubkey_bytes(key).len()) as int)),
{
    let all = before + spec_option_pubkey_bytes(key) + after;
    match key {
        None => {
            assert(all[before.len() as int] == 0u8);
        },
        Some(key) => {
            assert(all[before.len() as int] == 1u8);
            assert(all =~= (before + seq![1u8]) + key@ + after);
            lemma_pubkey_round_trip(before + seq![1u8], key, after);
        },
    }
}

/// A `u64` that may be missing and was written is read back.
pub proof fn lemma_option_u64_round_trip(before: Seq<u8>, value: Option<u64>, after: Seq<u8>)
    ensures
        spec_option_u64_at(before + spec_option_u64_bytes(value) + after, before.len() as int)
            == Some((value, (before.len() + spec_option_u64_bytes(value).len()) as int)),
{
    let all = before + spec_option_u64_bytes(value) + after;
    match value {
        None => {
            assert(all[before.len() as int] == 0u8);
        },
        Some(value) => {
            lemma_u64_round_trip(Seq::empty(), value, Seq::empty());
            assert(all[before.len() as int] == 1u8);
            assert(all =~= (before + seq![1u8]) + spec_u64_to_le_bytes(value) + after);
            lemma_u64_round_trip(before + seq![1u8], value, after);
        },
    }
}

/// A `u64` that was written is read back.
pub proof fn lemma_u64_round_trip(before: Seq<u8>, value: u64, after: Seq<u8>)
    ensures
        spec_u64_at(before + spec_u64_to_le_bytes(value) + after, before.len() as int) == value,
        spec_u64_to_le_bytes(value).len() == 8,
{
    lemma_auto_spec_u64_to_from_le_bytes();
    let all = before + spec_u64_to_le_bytes(value) + after;
    let at = before.len() as int;
    assert(all.subrange(at, at + 8) =~= spec_u64_to_le_bytes(value));
}

/// A `u32` that was written is read back.
pub proof fn lemma_u32_round_trip(before: Seq<u8>, value: u32, after: Seq<u8>)
    ensures
        spec_u32_at(before + spec_u32_to_le_bytes(value) + after, before.len() as int) == value,
        spec_u32_to_le_bytes(value).len() == 4,
{
    lemma_auto_spec_u32_to_from_le_bytes();
    let all = before + spec_u32_to_le_bytes(value) + after;
    let at = before.len() as int;
    assert(all.subrange(at, at + 4) =~= spec_u32_to_le_bytes(value));
}

/// An address that was written is read back.
pub proof fn lemma_pubkey_round_trip(before: Seq<u8>, key: Pubkey, after: Seq<u8>)
    ensures
        spec_pubkey_at(before + key@ + after, before.len() as int) == key,
        key@.len() == 32,
{
    let all = before + key@ + after;
    assert(all.subrange(before.len() as int, before.len() as int + 32) =~= key@);
    lemma_pubkey_of_view(key);
}

} // verus!
