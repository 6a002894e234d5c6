//! The bit layout of a handle.
//!
//! A handle is a 64-bit word: its low 32 bits hold an address, its high 32 bits
//! a byte length. On the wire the word travels as a signed 64-bit integer, so a
//! length of 2^31 or more shows as a negative handle. The sign has no meaning
//! of its own.

use vstd::prelude::*;
use crate::state::Error;

verus! {

/// The largest address, and the largest length, that a handle can carry.
pub const FIELD_MAX: usize = 0xFFFF_FFFF;

/// Whether `value` fits into one 32-bit field of a handle.
pub open spec fn fits_field(value: int) -> bool {
    0 <= value <= 0xFFFF_FFFF
}

/// The unsigned 64-bit word with `address` in its low half and `length` in its
/// high half.
pub open spec fn word_of(address: int, length: int) -> int {
    address + length * 0x1_0000_0000
}

/// The unsigned 64-bit word that has the same bits as the signed `handle`.
pub open spec fn unsigned_word(handle: int) -> int {
    if handle < 0 {
        handle + 0x1_0000_0000_0000_0000
    } else {
        handle
    }
}

/// The signed 64-bit integer that has the same bits as the unsigned `word`.
pub open spec fn signed_word(word: int) -> int {
    if word < 0x8000_0000_0000_0000 {
        word
    } else {
        word - 0x1_0000_0000_0000_0000
    }
}

/// The handle for a buffer of `length` bytes at `address`, both within 32 bits.
pub open spec fn pack(address: int, length: int) -> int {
    signed_word(word_of(address, length))
}

/// The address that `handle` carries: its low 32 bits.
pub open spec fn address_of(handle: int) -> int {
    unsigned_word(handle) % 0x1_0000_0000
}

/// The length that `handle` carries: its high 32 bits.
pub open spec fn length_of(handle: int) -> int {
    unsigned_word(handle) / 0x1_0000_0000
}

/// Packs an address and a length into a handle.
///
/// Fails, without truncating anything, exactly when one of the two needs more
/// than 32 bits.
pub fn encode(address: usize, length: usize) -> (result: Result<i64, Error>)
    ensures
        match result {
            Ok(handle) => {
                &&& fits_field(address as int)
                &&& fits_field(length as int)
                &&& handle == pack(address as int, length as int)
            },
            Err(error) => {
                &&& error == Error::RangeExceeded
                &&& !(fits_field(address as int) && fits_field(length as int))
            },
        },
{
    if address > FIELD_MAX || length > FIELD_MAX {
        return Err(Error::RangeExceeded);
    }
    let low: u64 = address as u64;
    let high: u64 = length as u64;
    let word: u64 = low | (high << 32);
    assert(word == low + high * 0x1_0000_0000) by (bit_vector)
        requires
            word == low | (high << 32),
            low <= 0xFFFF_FFFF,
            high <= 0xFFFF_FFFF,
    ;
    let handle: i64 = #[verifier::truncate] (word as i64);
    assert(handle == (if word < 0x8000_0000_0000_0000 {
        word as int
    } else {
        word - 0x1_0000_0000_0000_0000
    })) by (bit_vector)
        requires
            handle == word as i64,
    ;
    Ok(handle)
}

/// Unpacks a handle into the address and the length that it carries.
///
/// Every 64-bit value unpacks to some pair; only a handle that `encode` made,
/// or that came over the boundary in the same layout, unpacks to a buffer.
pub fn decode(handle: i64) -> (fields: (usize, usize))
    ensures
        fields.0 == address_of(handle as int),
        fields.1 == length_of(handle as int),
        fits_field(fields.0 as int),
        fits_field(fields.1 as int),
{
    let word: u64 = #[verifier::truncate] (handle as u64);
    assert(word == (if handle < 0 {
        handle + 0x1_0000_0000_0000_0000
    } else {
        handle as int
    })) by (bit_vector)
        requires
            word == handle as u64,
    ;
    let low: u64 = word & 0xFFFF_FFFF;
    let high: u64 = word >> 32;
    assert(low == word % 0x1_0000_0000 && high == word / 0x1_0000_0000 && high <= 0xFFFF_FFFF)
        by (bit_vector)
        requires
            low == word & 0xFFFF_FFFF,
            high == word >> 32,
    ;
    (low as usize, high as usize)
}

/// The layout in bits: packing is the address or-ed with the length shifted
/// up by 32 bits, read as a signed integer; unpacking masks the low half and
/// shifts the high half down.
pub proof fn lemma_layout_in_bits(address: u32, length: u32, handle: i64)
    ensures
        pack(address as int, length as int) == (((address as u64) | ((length as u64) << 32)) as i64),
        address_of(handle as int) == (handle as u64) & 0xFFFF_FFFF,
        length_of(handle as int) == (handle as u64) >> 32,
{
    let word: u64 = (address as u64) | ((length as u64) << 32);
    assert(word == address + length * 0x1_0000_0000) by (bit_vector)
        requires
            word == (address as u64) | ((length as u64) << 32),
    ;
    assert(word as i64 == (if word < 0x8000_0000_0000_0000 {
        word as int
    } else {
        word - 0x1_0000_0000_0000_0000
    })) by (bit_vector);
    let bits: u64 = handle as u64;
    assert(bits == (if handle < 0 {
        handle + 0x1_0000_0000_0000_0000
    } else {
        handle as int
    })) by (bit_vector)
        requires
            bits == handle as u64,
    ;
    assert(bits & 0xFFFF_FFFF == bits % 0x1_0000_0000 && bits >> 32 == bits / 0x1_0000_0000)
        by (bit_vector);
}

/// Unpacking a packed pair gives the pair back: whatever address and length
/// fit into 32 bits each, the handle made of them carries exactly that address
/// and exactly that length.
pub proof fn lemma_pack_round_trip(address: int, length: int)
    requires
        fits_field(address),
        fits_field(length),
    ensures
        i64::MIN <= pack(address, length) <= i64::MAX,
        address_of(pack(address, length)) == address,
        length_of(pack(address, length)) == length,
{
}

/// Packing what a handle carries gives the handle back: no bit of a handle is
/// outside its two fields.
pub proof fn lemma_unpack_round_trip(handle: int)
    requires
        i64::MIN <= handle <= i64::MAX,
    ensures
        fits_field(address_of(handle)),
        fits_field(length_of(handle)),
        pack(address_of(handle), length_of(handle)) == handle,
{
}

/// Two pairs that pack to the same handle are the same pair.
pub proof fn lemma_pack_injective(a1: int, l1: int, a2: int, l2: int)
    requires
        fits_field(a1),
        fits_field(l1),
        fits_field(a2),
        fits_field(l2),
        pack(a1, l1) == pack(a2, l2),
    ensures
        a1 == a2,
        l1 == l2,
{
    lemma_pack_round_trip(a1, l1);
    lemma_pack_round_trip(a2, l2);
}

} // verus!
