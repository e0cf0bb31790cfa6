//! Storage key computation for the session precompile.
//!
//! Every key is the Keccak-256 digest of an ASCII domain tag followed by the
//! key's parts, read as a big-endian word.

use vstd::prelude::*;

use crate::hash::{keccak256, keccak256_spec};
use crate::word::{Address, B256, U256, append_bytes, be_value, lemma_word_of, word_of};

verus! {

/// The `SessionRegistry` precompile address, `0x…0800`.
pub open spec fn registry_address() -> Address {
    Address { bytes: [0u8, 0, 0, 0, 0, 0, 0, 0, 0, 0, 0, 0, 0, 0, 0, 0, 0, 0, 0x08, 0x00] }
}

/// The `SessionRegistry` precompile address.
pub fn session_registry_address() -> (r: Address)
    ensures
        r == registry_address(),
{
    Address { bytes: [0u8, 0, 0, 0, 0, 0, 0, 0, 0, 0, 0, 0, 0, 0, 0, 0, 0, 0, 0x08, 0x00] }
}

/// The word that the Keccak-256 digest of `data` denotes, read big-endian.
pub open spec fn digest_word(data: Seq<u8>) -> U256 {
    word_of(be_value(keccak256_spec(data)))
}

/// ASCII `session_record`.
pub open spec fn record_tag() -> Seq<u8> {
    seq![0x73u8, 0x65, 0x73, 0x73, 0x69, 0x6f, 0x6e, 0x5f, 0x72, 0x65, 0x63, 0x6f, 0x72, 0x64]
}

/// ASCII `session_slots`.
pub open spec fn slots_tag() -> Seq<u8> {
    seq![0x73u8, 0x65, 0x73, 0x73, 0x69, 0x6f, 0x6e, 0x5f, 0x73, 0x6c, 0x6f, 0x74, 0x73]
}

/// ASCII `session_nonce`.
pub open spec fn nonce_tag() -> Seq<u8> {
    seq![0x73u8, 0x65, 0x73, 0x73, 0x69, 0x6f, 0x6e, 0x5f, 0x6e, 0x6f, 0x6e, 0x63, 0x65]
}

/// ASCII `limit_state`.
pub open spec fn limit_tag() -> Seq<u8> {
    seq![0x6cu8, 0x69, 0x6d, 0x69, 0x74, 0x5f, 0x73, 0x74, 0x61, 0x74, 0x65]
}

/// The first slot of a session record: `keccak256("session_record" ‖ hash)`.
pub open spec fn record_base(hash: Seq<u8>) -> U256 {
    digest_word(record_tag() + hash)
}

/// The first slot of an authorizer's session slot array:
/// `keccak256("session_slots" ‖ authorizer)`.
pub open spec fn slots_base(authorizer: Address) -> U256 {
    digest_word(slots_tag() + authorizer.bytes@)
}

/// The nonce slot of a session: `keccak256("session_nonce" ‖ authorizer ‖ hash)`.
pub open spec fn nonce_slot(authorizer: Address, hash: Seq<u8>) -> U256 {
    digest_word(nonce_tag() + authorizer.bytes@ + hash)
}

/// A limit state slot:
/// `keccak256("limit_state" ‖ owner_hash ‖ limit_context ‖ limit_index)`.
pub open spec fn limit_slot(owner_hash: Seq<u8>, context: Seq<u8>, index: u8) -> U256 {
    digest_word(limit_tag() + owner_hash + context + seq![index])
}

/// The word of the digest of `data`.
fn digest_to_word(data: &[u8]) -> (r: U256)
    ensures
        r == digest_word(data@),
{
    let h = keccak256(data);
    let w = h.to_u256();
    proof {
        lemma_word_of(w);
    }
    w
}

/// Computes the storage key for a session record.
pub fn session_record_key(session_hash: &B256) -> (r: U256)
    ensures
        r == record_base(session_hash.bytes@),
{
    let tag: [u8; 14] = [0x73, 0x65, 0x73, 0x73, 0x69, 0x6f, 0x6e, 0x5f, 0x72, 0x65, 0x63, 0x6f, 0x72, 0x64];
    assert(tag@ =~= record_tag());
    let mut data: Vec<u8> = Vec::new();
    append_bytes(&mut data, &tag);
    append_bytes(&mut data, &session_hash.bytes);
    assert(data@ =~= record_tag() + session_hash.bytes@);
    digest_to_word(data.as_slice())
}

/// Computes the storage key for session slots (per authorizer).
pub fn session_slots_key(authorizer: &Address) -> (r: U256)
    ensures
        r == slots_base(*authorizer),
{
    let tag: [u8; 13] = [0x73, 0x65, 0x73, 0x73, 0x69, 0x6f, 0x6e, 0x5f, 0x73, 0x6c, 0x6f, 0x74, 0x73];
    assert(tag@ =~= slots_tag());
    let mut data: Vec<u8> = Vec::new();
    append_bytes(&mut data, &tag);
    append_bytes(&mut data, &authorizer.bytes);
    assert(data@ =~= slots_tag() + authorizer.bytes@);
    digest_to_word(data.as_slice())
}

/// Computes the storage key for a session nonce.
pub fn session_nonce_key(authorizer: &Address, session_hash: &B256) -> (r: U256)
    ensures
        r == nonce_slot(*authorizer, session_hash.bytes@),
{
    let tag: [u8; 13] = [0x73, 0x65, 0x73, 0x73, 0x69, 0x6f, 0x6e, 0x5f, 0x6e, 0x6f, 0x6e, 0x63, 0x65];
    assert(tag@ =~= nonce_tag());
    let mut data: Vec<u8> = Vec::new();
    append_bytes(&mut data, &tag);
    append_bytes(&mut data, &authorizer.bytes);
    append_bytes(&mut data, &session_hash.bytes);
    assert(data@ =~= nonce_tag() + authorizer.bytes@ + session_hash.bytes@);
    digest_to_word(data.as_slice())
}

/// Computes a limit state storage key.
pub fn limit_state_key(owner_hash: &B256, limit_context: &[u8], limit_index: u8) -> (r: U256)
    ensures
        r == limit_slot(owner_hash.bytes@, limit_context@, limit_index),
{
    let tag: [u8; 11] = [0x6c, 0x69, 0x6d, 0x69, 0x74, 0x5f, 0x73, 0x74, 0x61, 0x74, 0x65];
    assert(tag@ =~= limit_tag());
    let mut data: Vec<u8> = Vec::new();
    append_bytes(&mut data, &tag);
    append_bytes(&mut data, &owner_hash.bytes);
    append_bytes(&mut data, limit_context);
    data.push(limit_index);
    assert(data@ =~= limit_tag() + owner_hash.bytes@ + limit_context@ + seq![limit_index]);
    digest_to_word(data.as_slice())
}

} // verus!
