//! Session record storage slot layout.
//!
//! A session record occupies five storage slots starting from its base slot:
//! status, authorizer, signer, expiry, creation time.

use vstd::prelude::*;

use crate::oracle_precompile::storage::small_word;
use crate::session::record::{SessionRecord, SessionStatus, status_of_code};
use crate::session::storage_keys::{
    record_base,
    registry_address,
    session_record_key,
    session_registry_address,
};
use crate::state::{PachiState, StorageMap, storage_read};
use crate::word::{
    Address,
    B256,
    U256,
    add_wrap,
    address_word_bytes,
    be_bytes,
    be_value,
    lemma_address_word_roundtrip,
    lemma_be_bytes_zero,
    lemma_be_value_bound,
    lemma_be_value_zeros,
    lemma_pow256_32,
    lemma_word_of,
    lemma_word_of_value,
    word_modulus,
    word_of,
};

verus! {

/// The slot `base + k` (the word `+`, which wraps at 2^256).
pub open spec fn offset_slot(base: U256, k: nat) -> U256 {
    word_of(add_wrap(base@, k))
}

/// Slot `k` of the record of a session hash (0 status, 1 authorizer, 2 signer,
/// 3 expiry, 4 creation time).
pub open spec fn record_slot(hash: Seq<u8>, k: nat) -> U256 {
    offset_slot(record_base(hash), k)
}

/// The word held in slot `k` of a session's record.
pub open spec fn record_word(m: StorageMap, hash: Seq<u8>, k: nat) -> U256 {
    storage_read(m, registry_address(), record_slot(hash, k))
}

/// The word an address is stored as: the address left-padded to 32 bytes.
pub open spec fn address_word(a: Address) -> U256 {
    word_of(be_value(address_word_bytes(a.bytes@)))
}

/// The address bytes a word holds: its low 20 bytes.
pub open spec fn word_address_bytes(w: U256) -> Seq<u8> {
    be_bytes(w@, 32).subrange(12, 32)
}

/// The bytes of the zero address.
pub open spec fn zero_address_bytes() -> Seq<u8> {
    Seq::new(20, |i: int| 0u8)
}

/// The status a stored word denotes: its low byte decoded, an unknown byte
/// reading as `Active`.
pub open spec fn status_of_word(w: U256) -> SessionStatus {
    match status_of_code((w.l0 % 256) as u8) {
        Some(s) => s,
        None => SessionStatus::Active,
    }
}

/// Whether a session record exists: its authorizer slot is non-zero.
pub open spec fn record_stored(m: StorageMap, hash: Seq<u8>) -> bool {
    record_word(m, hash, 1)@ != 0
}

/// Whether `r` is the record that the storage holds for a session hash.
pub open spec fn reads_as(m: StorageMap, hash: Seq<u8>, r: SessionRecord) -> bool {
    &&& r.status == status_of_word(record_word(m, hash, 0))
    &&& r.authorizer.bytes@ == word_address_bytes(record_word(m, hash, 1))
    &&& r.signer.bytes@ == word_address_bytes(record_word(m, hash, 2))
    &&& r.expires_at == record_word(m, hash, 3).l0
    &&& r.created_at == record_word(m, hash, 4).l0
}

/// The storage after a record has been written for a session hash.
pub open spec fn with_record(m: StorageMap, hash: Seq<u8>, r: SessionRecord) -> StorageMap {
    let a = registry_address();
    m.insert((a, record_slot(hash, 0)), small_word(r.status.code() as u64)).insert(
        (a, record_slot(hash, 1)),
        address_word(r.authorizer),
    ).insert((a, record_slot(hash, 2)), address_word(r.signer)).insert(
        (a, record_slot(hash, 3)),
        small_word(r.expires_at),
    ).insert((a, record_slot(hash, 4)), small_word(r.created_at))
}

/// The storage after the status slot of a session's record has been written.
pub open spec fn with_status(m: StorageMap, hash: Seq<u8>, s: SessionStatus) -> StorageMap {
    m.insert((registry_address(), record_slot(hash, 0)), small_word(s.code() as u64))
}

/// The slot `base + k`.
pub fn slot_at(base: &U256, k: u64) -> (r: U256)
    ensures
        r == offset_slot(*base, k as nat),
{
    let r = base.wrapping_add(&U256::from_u64(k));
    proof {
        lemma_word_of(r);
    }
    r
}

/// Offsets below 5 from one base are five distinct slots.
pub proof fn lemma_offsets_distinct(base: U256, j: nat, k: nat)
    requires
        j < 5,
        k < 5,
        j != k,
    ensures
        offset_slot(base, j) != offset_slot(base, k),
{
    lemma_word_of_value(add_wrap(base@, j));
    lemma_word_of_value(add_wrap(base@, k));
}

/// An address stored as a word reads back as the same address, and the word is
/// zero exactly for the zero address.
pub proof fn lemma_address_word(a: Address)
    ensures
        word_address_bytes(address_word(a)) == a.bytes@,
        (address_word(a)@ == 0) == (a.bytes@ == zero_address_bytes()),
{
    let bytes = address_word_bytes(a.bytes@);
    lemma_be_value_bound(bytes);
    lemma_pow256_32();
    lemma_word_of_value(be_value(bytes));
    lemma_address_word_roundtrip(a, address_word(a));
    if address_word(a)@ == 0 {
        lemma_be_bytes_zero(32);
        assert(a.bytes@ =~= zero_address_bytes());
    }
    if a.bytes@ == zero_address_bytes() {
        assert(bytes =~= Seq::new(32, |i: int| 0u8));
        lemma_be_value_zeros(32);
    }
}

/// A status stored as a word reads back as the same status.
pub proof fn lemma_status_word(s: SessionStatus)
    ensures
        status_of_word(small_word(s.code() as u64)) == s,
{
}

/// A written record reads back unchanged; it exists exactly when its authorizer
/// is not the zero address.
pub proof fn lemma_record_roundtrip(m: StorageMap, hash: Seq<u8>, r: SessionRecord)
    ensures
        reads_as(with_record(m, hash, r), hash, r),
        record_stored(with_record(m, hash, r), hash) == (r.authorizer.bytes@
            != zero_address_bytes()),
{
    let b = record_base(hash);
    lemma_offsets_distinct(b, 0, 1);
    lemma_offsets_distinct(b, 0, 2);
    lemma_offsets_distinct(b, 0, 3);
    lemma_offsets_distinct(b, 0, 4);
    lemma_offsets_distinct(b, 1, 2);
    lemma_offsets_distinct(b, 1, 3);
    lemma_offsets_distinct(b, 1, 4);
    lemma_offsets_distinct(b, 2, 3);
    lemma_offsets_distinct(b, 2, 4);
    lemma_offsets_distinct(b, 3, 4);
    lemma_address_word(r.authorizer);
    lemma_address_word(r.signer);
    lemma_status_word(r.status);
}

/// Writing the status slot changes the status that is read and nothing else
/// of the record.
pub proof fn lemma_status_update(m: StorageMap, hash: Seq<u8>, s: SessionStatus, r: SessionRecord)
    requires
        reads_as(m, hash, r),
    ensures
        reads_as(with_status(m, hash, s), hash, SessionRecord { status: s, ..r }),
        record_stored(with_status(m, hash, s), hash) == record_stored(m, hash),
{
    let b = record_base(hash);
    lemma_offsets_distinct(b, 0, 1);
    lemma_offsets_distinct(b, 0, 2);
    lemma_offsets_distinct(b, 0, 3);
    lemma_offsets_distinct(b, 0, 4);
    lemma_status_word(s);
}

/// Writes a session record to state.
pub fn write_session_record<S: PachiState>(state: &mut S, session_hash: &B256, record: &SessionRecord)
    ensures
        final(state).storage() == with_record(old(state).storage(), session_hash.bytes@, *record),
{
    let base = session_record_key(session_hash);
    let addr = session_registry_address();
    let authorizer = record.authorizer.to_u256();
    let signer = record.signer.to_u256();
    proof {
        lemma_word_of(authorizer);
        lemma_word_of(signer);
    }
    state.set_storage(addr, slot_at(&base, 0), U256::from_u64(record.status.as_u8() as u64));
    state.set_storage(addr, slot_at(&base, 1), authorizer);
    state.set_storage(addr, slot_at(&base, 2), signer);
    state.set_storage(addr, slot_at(&base, 3), U256::from_u64(record.expires_at));
    state.set_storage(addr, slot_at(&base, 4), U256::from_u64(record.created_at));
}

/// Reads a session record from state.
///
/// Returns `None` if the session doesn't exist (zero authorizer slot).
pub fn read_session_record<S: PachiState>(state: &S, session_hash: &B256) -> (r: Option<SessionRecord>)
    ensures
        (r is Some) == record_stored(state.storage(), session_hash.bytes@),
        r matches Some(rec) ==> reads_as(state.storage(), session_hash.bytes@, rec),
{
    let base = session_record_key(session_hash);
    let addr = session_registry_address();

    let authorizer_val = state.get_storage(addr, slot_at(&base, 1));
    if authorizer_val.is_zero() {
        return None;
    }
    let status_val = state.get_storage(addr, slot_at(&base, 0));
    let code: u8 = (status_val.l0 % 256) as u8;
    let status = match SessionStatus::from_u8(code) {
        Some(s) => s,
        None => SessionStatus::Active,
    };
    let authorizer = Address::from_u256(&authorizer_val);
    let signer_val = state.get_storage(addr, slot_at(&base, 2));
    let signer = Address::from_u256(&signer_val);
    let expires_at = state.get_storage(addr, slot_at(&base, 3)).l0;
    let created_at = state.get_storage(addr, slot_at(&base, 4)).l0;

    Some(SessionRecord { status, authorizer, signer, expires_at, created_at })
}

/// Updates only the status field of a session record.
pub fn write_session_status<S: PachiState>(state: &mut S, session_hash: &B256, status: SessionStatus)
    ensures
        final(state).storage() == with_status(old(state).storage(), session_hash.bytes@, status),
{
    let base = session_record_key(session_hash);
    state.set_storage(
        session_registry_address(),
        slot_at(&base, 0),
        U256::from_u64(status.as_u8() as u64),
    );
}

} // verus!
