//! Session nonce management.
//!
//! Each session has an independent nonce space from the authorizer's main nonce.

use vstd::prelude::*;

use crate::session::slots::slot_at;
use crate::session::storage_keys::{nonce_slot, registry_address, session_nonce_key, session_registry_address};
use crate::state::{PachiState, StorageMap, storage_read};
use crate::word::{Address, B256, U256, add_wrap, limb_base, limb_base2, limb_base3, lemma_word_of, lemma_word_of_value, word_modulus, word_of};

verus! {

/// The word held in the nonce slot of a session.
pub open spec fn nonce_word(m: StorageMap, authorizer: Address, hash: Seq<u8>) -> U256 {
    storage_read(m, registry_address(), nonce_slot(authorizer, hash))
}

/// The nonce of a session: the low 64 bits of its nonce word.
pub open spec fn nonce_of(m: StorageMap, authorizer: Address, hash: Seq<u8>) -> u64 {
    nonce_word(m, authorizer, hash).l0
}

/// The storage after the nonce word of a session has been incremented by one
/// (the word `+`, wrapping at 2^256).
pub open spec fn with_nonce_incremented(m: StorageMap, authorizer: Address, hash: Seq<u8>) -> StorageMap {
    m.insert(
        (registry_address(), nonce_slot(authorizer, hash)),
        word_of(add_wrap(nonce_word(m, authorizer, hash)@, 1)),
    )
}

/// Session nonce operations.
#[derive(Debug)]
pub struct SessionNonce;

impl SessionNonce {
    /// Reads the current session nonce.
    pub fn get<S: PachiState>(state: &S, authorizer: Address, session_hash: &B256) -> (r: u64)
        ensures
            r == nonce_of(state.storage(), authorizer, session_hash.bytes@),
    {
        let slot = session_nonce_key(&authorizer, session_hash);
        state.get_storage(session_registry_address(), slot).l0
    }

    /// Increments the session nonce by 1.
    pub fn increment<S: PachiState>(state: &mut S, authorizer: Address, session_hash: &B256)
        ensures
            final(state).storage() == with_nonce_incremented(
                old(state).storage(),
                authorizer,
                session_hash.bytes@,
            ),
    {
        let slot = session_nonce_key(&authorizer, session_hash);
        let current = state.get_storage(session_registry_address(), slot);
        let next = slot_at(&current, 1);
        state.set_storage(session_registry_address(), slot, next);
    }

    /// Checks that the provided nonce matches the current nonce.
    pub fn check<S: PachiState>(state: &S, authorizer: Address, session_hash: &B256, expected: u64) -> (r: bool)
        ensures
            r == (nonce_of(state.storage(), authorizer, session_hash.bytes@) == expected),
    {
        Self::get(state, authorizer, session_hash) == expected
    }
}

/// Incrementing a session's nonce makes the next read one more, modulo 2^64,
/// and leaves every other slot as it was.
pub proof fn lemma_nonce_increment(m: StorageMap, authorizer: Address, hash: Seq<u8>)
    ensures
        nonce_of(with_nonce_incremented(m, authorizer, hash), authorizer, hash) as nat == (
        nonce_of(m, authorizer, hash) as nat + 1) % limb_base(),
        forall|k: (Address, crate::word::U256)|
            k != (registry_address(), nonce_slot(authorizer, hash)) ==> storage_read(
                with_nonce_incremented(m, authorizer, hash),
                k.0,
                k.1,
            ) == storage_read(m, k.0, k.1),
{
    let w = nonce_word(m, authorizer, hash);
    let n = add_wrap(w@, 1);
    lemma_word_of_value(n);
    let hi = w.l1 as int + w.l2 as int * limb_base() + w.l3 as int * limb_base2();
    assert(w@ == w.l0 + limb_base() * hi) by (nonlinear_arith)
        requires
            w@ == w.l0 as nat + w.l1 as nat * limb_base() + w.l2 as nat * limb_base2() + w.l3 as nat
                * limb_base3(),
            hi == w.l1 as int + w.l2 as int * limb_base() + w.l3 as int * limb_base2(),
            limb_base2() == limb_base() * limb_base(),
            limb_base3() == limb_base2() * limb_base(),
    ;
    vstd::arithmetic::div_mod::lemma_mod_multiples_vanish(hi, w.l0 + 1, limb_base() as int);
    if w@ + 1 >= word_modulus() {
        assert(w.l0 == 0xffff_ffff_ffff_ffff);
    }
}

} // verus!
