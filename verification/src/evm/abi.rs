//! ABI word encoding.

use vstd::prelude::*;

use crate::word::{Address, B256, U256, address_word_bytes, append_bytes, be_bytes, u256_to_be_bytes};

verus! {

/// The 32-byte big-endian ABI word of a number.
pub open spec fn be32(v: nat) -> Seq<u8> {
    be_bytes(v, 32)
}

/// The ABI words of a sequence of numbers, one after the other.
pub open spec fn concat_words(vs: Seq<nat>) -> Seq<u8>
    decreases vs.len(),
{
    if vs.len() == 0 {
        Seq::empty()
    } else {
        concat_words(vs.drop_last()) + be32(vs.last())
    }
}

/// The bytes of a sequence of hashes, one after the other.
pub open spec fn concat_hashes(hs: Seq<Seq<u8>>) -> Seq<u8>
    decreases hs.len(),
{
    if hs.len() == 0 {
        Seq::empty()
    } else {
        concat_hashes(hs.drop_last()) + hs.last()
    }
}

/// Appends the ABI word of a word.
pub fn push_word(out: &mut Vec<u8>, w: &U256)
    ensures
        final(out)@ == old(out)@ + be32(w@),
{
    let bytes = u256_to_be_bytes(w);
    append_bytes(out, &bytes);
}

/// Appends the ABI word of a `u64`.
pub fn push_u64_word(out: &mut Vec<u8>, v: u64)
    ensures
        final(out)@ == old(out)@ + be32(v as nat),
{
    push_word(out, &U256::from_u64(v));
}

/// Appends the ABI word of an address (left-padded).
pub fn push_address_word(out: &mut Vec<u8>, a: &Address)
    ensures
        final(out)@ == old(out)@ + address_word_bytes(a.bytes@),
{
    let w = a.to_word_bytes();
    append_bytes(out, &w);
}

/// Appends the 32 bytes of a hash.
pub fn push_hash(out: &mut Vec<u8>, h: &B256)
    ensures
        final(out)@ == old(out)@ + h.bytes@,
{
    append_bytes(out, &h.bytes);
}

/// The 32-byte topic of an address: twelve zero bytes, then the address.
pub fn address_topic(a: &Address) -> (r: B256)
    ensures
        r.bytes@ == address_word_bytes(a.bytes@),
{
    B256 { bytes: a.to_word_bytes() }
}

/// The 32-byte ABI boolean word.
pub fn bool_word(b: bool) -> (r: [u8; 32])
    ensures
        r@ == Seq::new(32, |i: int| if i == 31 && b { 1u8 } else { 0u8 }),
{
    let mut out = [0u8; 32];
    if b {
        out[31] = 1;
    }
    assert(out@ =~= Seq::new(32, |i: int| if i == 31 && b { 1u8 } else { 0u8 }));
    out
}

} // verus!
