//! `SessionRegistry`: session lifecycle management.
//!
//! Handles create, revoke, get, list and validity checks. Each authorizer has
//! an array of session slots at `keccak256("session_slots" ‖ authorizer) + i`,
//! each holding a session hash (zero when empty).

use vstd::prelude::*;

use crate::primitives::constants::DEFAULT_MAX_SESSIONS_PER_ACCOUNT;
use crate::session::error::SessionPrecompileError;
use crate::session::record::{SessionRecord, SessionStatus, effective_of};
use crate::session::slots::{
    lemma_offsets_distinct,
    lemma_record_roundtrip,
    lemma_status_word,
    offset_slot,
    read_session_record,
    record_slot,
    record_stored,
    record_word,
    reads_as,
    slot_at,
    status_of_word,
    with_record,
    with_status,
    write_session_record,
    write_session_status,
    zero_address_bytes,
};
use crate::session::storage_keys::{
    record_base,
    registry_address,
    session_registry_address,
    session_slots_key,
    slots_base,
};
use crate::state::{PachiState, StorageMap, storage_read};
use crate::word::{Address, B256, U256, add_wrap, be_bytes, be_value, lemma_word_bound, lemma_word_of, lemma_word_of_value, word_modulus, word_of};

verus! {

/// The session cap in force: `max_sessions`, or the default when it is 0.
pub open spec fn effective_max(max_sessions: u64) -> u64 {
    if max_sessions == 0 {
        DEFAULT_MAX_SESSIONS_PER_ACCOUNT
    } else {
        max_sessions
    }
}

/// Slot `i` of an authorizer's session slot array.
pub open spec fn list_slot(authorizer: Address, i: nat) -> U256 {
    offset_slot(slots_base(authorizer), i)
}

/// The session hash held in slot `i` of an authorizer's array.
pub open spec fn slot_hash(m: StorageMap, authorizer: Address, i: nat) -> Seq<u8> {
    be_bytes(storage_read(m, registry_address(), list_slot(authorizer, i))@, 32)
}

/// The all-zero hash, which marks an empty slot.
pub open spec fn zero_hash() -> Seq<u8> {
    Seq::new(32, |i: int| 0u8)
}

/// The effective status of the record stored for a session hash.
pub open spec fn stored_effective(m: StorageMap, hash: Seq<u8>, ts: u64) -> SessionStatus {
    effective_of(status_of_word(record_word(m, hash, 0)), record_word(m, hash, 3).l0, ts)
}

/// Whether slot `i` is empty.
pub open spec fn slot_empty(m: StorageMap, authorizer: Address, i: nat) -> bool {
    slot_hash(m, authorizer, i) == zero_hash()
}

/// Whether slot `i` holds the hash of a stored session whose effective status is `s`.
#[verifier::opaque]
pub open spec fn slot_in_state(m: StorageMap, authorizer: Address, i: nat, ts: u64, s: SessionStatus) -> bool {
    &&& !slot_empty(m, authorizer, i)
    &&& record_stored(m, slot_hash(m, authorizer, i))
    &&& stored_effective(m, slot_hash(m, authorizer, i), ts) == s
}

/// The ranking key of a slot: creation time for revoked sessions, expiry otherwise.
#[verifier::opaque]
pub open spec fn slot_key(m: StorageMap, authorizer: Address, i: nat, s: SessionStatus) -> u64 {
    if s == SessionStatus::Revoked {
        record_word(m, slot_hash(m, authorizer, i), 4).l0
    } else {
        record_word(m, slot_hash(m, authorizer, i), 3).l0
    }
}

/// `i` is, among the first `n` slots in status `s`, the one with the smallest
/// key, the first one on ties.
pub open spec fn best_slot(m: StorageMap, authorizer: Address, ts: u64, n: nat, s: SessionStatus, i: nat) -> bool {
    &&& i < n
    &&& slot_in_state(m, authorizer, i, ts, s)
    &&& forall|j: nat|
        j < n && #[trigger] slot_in_state(m, authorizer, j, ts, s) ==> slot_key(m, authorizer, i, s)
            <= slot_key(m, authorizer, j, s) && (j < i ==> slot_key(m, authorizer, i, s)
            < slot_key(m, authorizer, j, s))
}

/// None of the first `n` slots is in status `s`.
pub open spec fn none_in_state(m: StorageMap, authorizer: Address, ts: u64, n: nat, s: SessionStatus) -> bool {
    forall|j: nat| j < n ==> !#[trigger] slot_in_state(m, authorizer, j, ts, s)
}

/// None of the first `n` slots is empty.
pub open spec fn no_empty(m: StorageMap, authorizer: Address, n: nat) -> bool {
    forall|j: nat| j < n ==> !#[trigger] slot_empty(m, authorizer, j)
}

/// `i` is the first empty slot below `n`.
pub open spec fn first_empty(m: StorageMap, authorizer: Address, n: nat, i: nat) -> bool {
    i < n && slot_empty(m, authorizer, i) && no_empty(m, authorizer, i)
}

/// `i` is the slot a new session takes among the first `n`: the first empty one;
/// else the revoked one created first; else the expired one that expired first
/// (the lowest index on ties).
pub open spec fn slot_pick(m: StorageMap, authorizer: Address, ts: u64, n: nat, i: nat) -> bool {
    ||| first_empty(m, authorizer, n, i)
    ||| no_empty(m, authorizer, n) && best_slot(m, authorizer, ts, n, SessionStatus::Revoked, i)
    ||| no_empty(m, authorizer, n) && none_in_state(m, authorizer, ts, n, SessionStatus::Revoked)
        && best_slot(m, authorizer, ts, n, SessionStatus::Expired, i)
}

/// No slot among the first `n` can take a new session: none is empty, revoked or expired.
pub open spec fn slots_full(m: StorageMap, authorizer: Address, ts: u64, n: nat) -> bool {
    &&& no_empty(m, authorizer, n)
    &&& none_in_state(m, authorizer, ts, n, SessionStatus::Revoked)
    &&& none_in_state(m, authorizer, ts, n, SessionStatus::Expired)
}

/// The slot a new session takes.
pub open spec fn chosen_slot(m: StorageMap, authorizer: Address, ts: u64, n: nat) -> nat {
    choose|i: nat| slot_pick(m, authorizer, ts, n, i)
}

/// The record of a newly created session.
pub open spec fn new_record(authorizer: Address, signer: Address, expires_at: u64, created_at: u64) -> SessionRecord {
    SessionRecord { status: SessionStatus::Active, authorizer, signer, expires_at, created_at }
}

/// The storage after a session has been created in slot `i`: its record written,
/// and its hash put in the slot.
pub open spec fn with_session(m: StorageMap, authorizer: Address, i: nat, hash: Seq<u8>, r: SessionRecord) -> StorageMap {
    with_record(m, hash, r).insert((registry_address(), list_slot(authorizer, i)), word_of(be_value(hash)))
}

/// What `create_session` reports of the hash it replaced in slot `i`.
pub open spec fn replaced_hash(m: StorageMap, authorizer: Address, i: nat, replaced: Option<B256>) -> bool {
    match replaced {
        None => slot_empty(m, authorizer, i),
        Some(h) => !slot_empty(m, authorizer, i) && h.bytes@ == slot_hash(m, authorizer, i),
    }
}

/// Whether slot `i` holds an active session.
pub open spec fn slot_active(m: StorageMap, authorizer: Address, ts: u64, i: nat) -> bool {
    slot_in_state(m, authorizer, i, ts, SessionStatus::Active)
}

/// The hashes of the active sessions among the first `n` slots, in slot order.
pub open spec fn active_hashes(m: StorageMap, authorizer: Address, ts: u64, n: nat) -> Seq<Seq<u8>>
    decreases n,
{
    if n == 0 {
        Seq::empty()
    } else {
        let before = active_hashes(m, authorizer, ts, (n - 1) as nat);
        if slot_active(m, authorizer, ts, (n - 1) as nat) {
            before.push(slot_hash(m, authorizer, (n - 1) as nat))
        } else {
            before
        }
    }
}

/// The best-so-far candidate of a scan over the first `n` slots for status `s`.
#[verifier::opaque]
pub open spec fn best_so_far(m: StorageMap, authorizer: Address, ts: u64, n: nat, s: SessionStatus, best: Option<(u64, u64)>) -> bool {
    match best {
        None => none_in_state(m, authorizer, ts, n, s),
        Some((idx, key)) => best_slot(m, authorizer, ts, n, s, idx as nat) && key == slot_key(
            m,
            authorizer,
            idx as nat,
            s,
        ),
    }
}

/// At most one slot is the one a new session takes.
pub proof fn lemma_slot_pick_unique(m: StorageMap, authorizer: Address, ts: u64, n: nat, i: nat, j: nat)
    requires
        slot_pick(m, authorizer, ts, n, i),
        slot_pick(m, authorizer, ts, n, j),
    ensures
        i == j,
{
    if i < j {
        assert(slot_empty(m, authorizer, i) ==> !first_empty(m, authorizer, n, j));
        assert(slot_in_state(m, authorizer, i, ts, SessionStatus::Revoked) || slot_in_state(m, authorizer, i, ts, SessionStatus::Expired) || slot_empty(m, authorizer, i));
    } else if j < i {
        assert(slot_empty(m, authorizer, j) ==> !first_empty(m, authorizer, n, i));
        assert(slot_in_state(m, authorizer, j, ts, SessionStatus::Revoked) || slot_in_state(m, authorizer, j, ts, SessionStatus::Expired) || slot_empty(m, authorizer, j));
    }
}

/// A session that a pick exists for is not full.
pub proof fn lemma_pick_not_full(m: StorageMap, authorizer: Address, ts: u64, n: nat, i: nat)
    requires
        slot_pick(m, authorizer, ts, n, i),
    ensures
        !slots_full(m, authorizer, ts, n),
        chosen_slot(m, authorizer, ts, n) == i,
{
    let c = chosen_slot(m, authorizer, ts, n);
    lemma_slot_pick_unique(m, authorizer, ts, n, i, c);
}

/// A created session reads back as the record it was created with, and exists,
/// provided its authorizer is not the zero address and the array slot that
/// received its hash is none of the five slots of its record (distinct digests).
pub proof fn lemma_created_session_reads_back(
    m: StorageMap,
    authorizer: Address,
    i: nat,
    hash: Seq<u8>,
    r: SessionRecord,
)
    requires
        r.authorizer.bytes@ != zero_address_bytes(),
        forall|k: nat| k < 5 ==> list_slot(authorizer, i) != #[trigger] record_slot(hash, k),
    ensures
        record_stored(with_session(m, authorizer, i, hash, r), hash),
        reads_as(with_session(m, authorizer, i, hash, r), hash, r),
{
    lemma_record_roundtrip(m, hash, r);
    assert(list_slot(authorizer, i) != record_slot(hash, 0));
    assert(list_slot(authorizer, i) != record_slot(hash, 1));
    assert(list_slot(authorizer, i) != record_slot(hash, 2));
    assert(list_slot(authorizer, i) != record_slot(hash, 3));
    assert(list_slot(authorizer, i) != record_slot(hash, 4));
}

/// A revoked session stays stored and is revoked at every timestamp: it is
/// never valid again.
pub proof fn lemma_revoked_never_valid(m: StorageMap, hash: Seq<u8>, ts: u64)
    requires
        record_stored(m, hash),
    ensures
        record_stored(with_status(m, hash, SessionStatus::Revoked), hash),
        stored_effective(with_status(m, hash, SessionStatus::Revoked), hash, ts)
            == SessionStatus::Revoked,
{
    lemma_offsets_distinct(record_base(hash), 0, 1);
    lemma_status_word(SessionStatus::Revoked);
}

/// What a slot holding a stored session is: its effective status decides the
/// state it is in, and its creation time and expiry are its keys.
proof fn lemma_slot_stored(m: StorageMap, authorizer: Address, i: nat, ts: u64, r: SessionRecord)
    requires
        !slot_empty(m, authorizer, i),
        record_stored(m, slot_hash(m, authorizer, i)),
        reads_as(m, slot_hash(m, authorizer, i), r),
    ensures
        forall|s: SessionStatus|
            #[trigger] slot_in_state(m, authorizer, i, ts, s) == (effective_of(
                r.status,
                r.expires_at,
                ts,
            ) == s),
        slot_key(m, authorizer, i, SessionStatus::Revoked) == r.created_at,
        slot_key(m, authorizer, i, SessionStatus::Expired) == r.expires_at,
{
    reveal(slot_in_state);
    reveal(slot_key);
}

/// A slot that is empty, or holds the hash of no stored session, is in no state.
proof fn lemma_slot_unused(m: StorageMap, authorizer: Address, i: nat, ts: u64)
    requires
        slot_empty(m, authorizer, i) || !record_stored(m, slot_hash(m, authorizer, i)),
    ensures
        forall|s: SessionStatus| !#[trigger] slot_in_state(m, authorizer, i, ts, s),
{
    reveal(slot_in_state);
}

/// Whether slot `s` is none of the five record slots of a session hash.
pub open spec fn off_record(s: U256, hash: Seq<u8>) -> bool {
    forall|k: nat| k < 5 ==> s != #[trigger] record_slot(hash, k)
}

/// Whether creating the session `hash` in slot `i` leaves the slots that
/// describe slot `j` alone: the array slot `j` is none of the new record's
/// slots, and each record slot of the hash in slot `j` is neither array slot
/// `i` nor one of the new record's slots. (All of these are Keccak-256 digests
/// of different inputs, or small offsets from them.)
pub open spec fn slot_untouched(m: StorageMap, authorizer: Address, i: nat, hash: Seq<u8>, j: nat) -> bool {
    &&& off_record(list_slot(authorizer, j), hash)
    &&& forall|k: nat|
        k < 5 ==> #[trigger] record_slot(slot_hash(m, authorizer, j), k) != list_slot(authorizer, i)
            && off_record(record_slot(slot_hash(m, authorizer, j), k), hash)
}

/// Distinct offsets from one base below 2^256 are distinct slots.
proof fn lemma_offsets_apart(base: U256, j: nat, k: nat)
    requires
        j != k,
        j < word_modulus(),
        k < word_modulus(),
    ensures
        offset_slot(base, j) != offset_slot(base, k),
{
    lemma_word_bound(base);
    lemma_word_of_value(add_wrap(base@, j));
    lemma_word_of_value(add_wrap(base@, k));
}

/// A hash is among the active hashes of the first `n` slots exactly when some
/// active slot below `n` holds it.
proof fn lemma_active_hashes_contain(m: StorageMap, authorizer: Address, ts: u64, n: nat, h: Seq<u8>)
    ensures
        active_hashes(m, authorizer, ts, n).contains(h) <==> exists|j: nat|
            j < n && #[trigger] slot_active(m, authorizer, ts, j) && slot_hash(m, authorizer, j) == h,
    decreases n,
{
    if n > 0 {
        let before = active_hashes(m, authorizer, ts, (n - 1) as nat);
        lemma_active_hashes_contain(m, authorizer, ts, (n - 1) as nat, h);
        if slot_active(m, authorizer, ts, (n - 1) as nat) {
            let last = slot_hash(m, authorizer, (n - 1) as nat);
            assert(before.push(last).contains(h) <==> (before.contains(h) || last == h)) by {
                if before.push(last).contains(h) {
                    let x = choose|x: int| 0 <= x < before.push(last).len() && before.push(last)[x] == h;
                    if x < before.len() {
                        assert(before[x] == h);
                    }
                }
                if before.contains(h) {
                    let x = choose|x: int| 0 <= x < before.len() && before[x] == h;
                    assert(before.push(last)[x] == h);
                }
                if last == h {
                    assert(before.push(last)[before.len() as int] == h);
                }
            }
        }
    } else {
        assert(active_hashes(m, authorizer, ts, n) =~= Seq::<Seq<u8>>::empty());
    }
}

/// Creating a session never takes the slot of an active one: every session
/// active among an authorizer's first `n` slots before a successful creation is
/// still among them afterwards, provided the creation leaves the slots that
/// describe the other slots alone (distinct digests).
pub proof fn lemma_creation_keeps_active(
    before: StorageMap,
    after: StorageMap,
    authorizer: Address,
    signer: Address,
    expires_at: u64,
    session_hash: B256,
    ts: u64,
    n: nat,
    r: Result<(B256, Option<B256>), SessionPrecompileError>,
    h: Seq<u8>,
)
    requires
        n < word_modulus(),
        created(before, after, authorizer, signer, expires_at, session_hash, ts, n, r),
        forall|j: nat|
            j < n && j != chosen_slot(before, authorizer, ts, n) ==> #[trigger] slot_untouched(
                before,
                authorizer,
                chosen_slot(before, authorizer, ts, n),
                session_hash.bytes@,
                j,
            ),
        active_hashes(before, authorizer, ts, n).contains(h),
    ensures
        active_hashes(after, authorizer, ts, n).contains(h),
{
    let i = chosen_slot(before, authorizer, ts, n);
    let hash = session_hash.bytes@;
    lemma_active_hashes_contain(before, authorizer, ts, n, h);
    let j = choose|j: nat|
        j < n && #[trigger] slot_active(before, authorizer, ts, j) && slot_hash(before, authorizer, j) == h;
    reveal(slot_in_state);
    // The chosen slot is empty, revoked or expired: not active.
    assert(j != i);
    assert(slot_untouched(before, authorizer, i, hash, j));
    lemma_offsets_apart(slots_base(authorizer), i, j);
    let a = registry_address();
    let ls = list_slot(authorizer, j);
    assert(ls != record_slot(hash, 0));
    assert(ls != record_slot(hash, 1));
    assert(ls != record_slot(hash, 2));
    assert(ls != record_slot(hash, 3));
    assert(ls != record_slot(hash, 4));
    assert(storage_read(after, a, ls) == storage_read(before, a, ls));
    assert(slot_hash(after, authorizer, j) == h);
    assert forall|k: nat| k < 5 implies #[trigger] record_word(after, h, k) == record_word(before, h, k) by {
        let rs = record_slot(h, k);
        assert(rs != list_slot(authorizer, i) && off_record(rs, hash));
        assert(rs != record_slot(hash, 0));
        assert(rs != record_slot(hash, 1));
        assert(rs != record_slot(hash, 2));
        assert(rs != record_slot(hash, 3));
        assert(rs != record_slot(hash, 4));
    }
    assert(record_word(after, h, 0) == record_word(before, h, 0));
    assert(record_word(after, h, 1) == record_word(before, h, 1));
    assert(record_word(after, h, 3) == record_word(before, h, 3));
    assert(slot_active(after, authorizer, ts, j));
    lemma_active_hashes_contain(after, authorizer, ts, n, h);
}

/// `SessionRegistry`: manages the full session lifecycle.
#[derive(Debug)]
pub struct SessionRegistry;

impl SessionRegistry {
    /// Creates a new session.
    ///
    /// Finds an available slot (empty, revoked, or expired), writes the session
    /// record and puts the hash in the authorizer's slot array.
    ///
    /// Returns `(session_hash, replaced_old_hash)`: when a revoked or expired
    /// session's slot was reused, the second part holds that session's hash.
    pub fn create_session<S: PachiState>(
        state: &mut S,
        authorizer: Address,
        signer: Address,
        expires_at: u64,
        session_hash: B256,
        block_timestamp: u64,
        max_sessions: u64,
    ) -> (r: Result<(B256, Option<B256>), SessionPrecompileError>)
        ensures
            slots_full(old(state).storage(), authorizer, block_timestamp, effective_max(max_sessions) as nat)
                ==> r == Err::<(B256, Option<B256>), SessionPrecompileError>(
                SessionPrecompileError::MaxSessionsReached { authorizer },
            ) && final(state).storage() == old(state).storage(),
            !slots_full(old(state).storage(), authorizer, block_timestamp, effective_max(max_sessions) as nat)
                ==> created(
                old(state).storage(),
                final(state).storage(),
                authorizer,
                signer,
                expires_at,
                session_hash,
                block_timestamp,
                effective_max(max_sessions) as nat,
                r,
            ),
    {
        let max = if max_sessions == 0 {
            DEFAULT_MAX_SESSIONS_PER_ACCOUNT
        } else {
            max_sessions
        };
        let ghost m = state.storage();
        let slot_index = match Self::find_available_slot(state, authorizer, block_timestamp, max) {
            Ok(i) => i,
            Err(e) => return Err(e),
        };
        proof {
            lemma_pick_not_full(m, authorizer, block_timestamp, max as nat, slot_index as nat);
        }
        let old_hash = Self::read_slot(state, authorizer, slot_index);
        let replaced = if old_hash.is_zero() {
            None
        } else {
            Some(old_hash)
        };
        let record = SessionRecord {
            status: SessionStatus::Active,
            authorizer,
            signer,
            expires_at,
            created_at: block_timestamp,
        };
        write_session_record(state, &session_hash, &record);
        Self::write_slot(state, authorizer, slot_index, session_hash);
        Ok((session_hash, replaced))
    }

    /// Revokes a session (irreversible).
    pub fn revoke_session<S: PachiState>(state: &mut S, caller: Address, session_hash: &B256) -> (r: Result<(), SessionPrecompileError>)
        ensures
            !record_stored(old(state).storage(), session_hash.bytes@) ==> r == Err::<(), SessionPrecompileError>(
                SessionPrecompileError::SessionNotFound { hash: *session_hash },
            ) && final(state).storage() == old(state).storage(),
            record_stored(old(state).storage(), session_hash.bytes@) ==> revoked(
                old(state).storage(),
                final(state).storage(),
                caller,
                session_hash.bytes@,
                r,
            ),
    {
        let record = match read_session_record(state, session_hash) {
            Some(rec) => rec,
            None => return Err(SessionPrecompileError::SessionNotFound { hash: *session_hash }),
        };
        if record.authorizer != caller {
            return Err(
                SessionPrecompileError::NotAuthorizer { expected: record.authorizer, actual: caller },
            );
        }
        write_session_status(state, session_hash, SessionStatus::Revoked);
        Ok(())
    }

    /// Gets a session record.
    pub fn get_session<S: PachiState>(state: &S, session_hash: &B256) -> (r: Result<SessionRecord, SessionPrecompileError>)
        ensures
            match r {
                Ok(rec) => record_stored(state.storage(), session_hash.bytes@) && reads_as(
                    state.storage(),
                    session_hash.bytes@,
                    rec,
                ),
                Err(e) => !record_stored(state.storage(), session_hash.bytes@) && e
                    == SessionPrecompileError::SessionNotFound { hash: *session_hash },
            },
    {
        match read_session_record(state, session_hash) {
            Some(rec) => Ok(rec),
            None => Err(SessionPrecompileError::SessionNotFound { hash: *session_hash }),
        }
    }

    /// Gets all active sessions for an authorizer, in slot order.
    pub fn get_active_sessions<S: PachiState>(
        state: &S,
        authorizer: Address,
        block_timestamp: u64,
        max_sessions: u64,
    ) -> (r: Vec<B256>)
        ensures
            r@.map_values(|h: B256| h.bytes@) == active_hashes(
                state.storage(),
                authorizer,
                block_timestamp,
                effective_max(max_sessions) as nat,
            ),
    {
        let max = if max_sessions == 0 {
            DEFAULT_MAX_SESSIONS_PER_ACCOUNT
        } else {
            max_sessions
        };
        let ghost m = state.storage();
        let mut active: Vec<B256> = Vec::new();
        let mut i: u64 = 0;
        while i < max
            invariant
                i <= max,
                m == state.storage(),
                active@.map_values(|h: B256| h.bytes@) == active_hashes(m, authorizer, block_timestamp, i as nat),
            decreases max - i,
        {
            let hash = Self::read_slot(state, authorizer, i);
            let ghost before = active@;
            if hash.is_zero() {
                proof {
                    lemma_slot_unused(m, authorizer, i as nat, block_timestamp);
                }
            } else {
                match read_session_record(state, &hash) {
                    Some(record) => {
                        proof {
                            lemma_slot_stored(m, authorizer, i as nat, block_timestamp, record);
                        }
                        if record.is_active(block_timestamp) {
                            active.push(hash);
                            assert(active@.map_values(|h: B256| h.bytes@) =~= before.map_values(
                                |h: B256| h.bytes@,
                            ).push(hash.bytes@));
                        }
                    },
                    None => {
                        proof {
                            lemma_slot_unused(m, authorizer, i as nat, block_timestamp);
                        }
                    },
                }
            }
            i += 1;
        }
        active
    }

    /// Checks if a session is currently valid: it exists and is active.
    pub fn is_valid<S: PachiState>(state: &S, session_hash: &B256, block_timestamp: u64) -> (r: bool)
        ensures
            r == (record_stored(state.storage(), session_hash.bytes@) && stored_effective(
                state.storage(),
                session_hash.bytes@,
                block_timestamp,
            ) == SessionStatus::Active),
    {
        match read_session_record(state, session_hash) {
            Some(rec) => rec.is_active(block_timestamp),
            None => false,
        }
    }

    /// Finds an available slot for a new session.
    ///
    /// Priority: the first empty slot (zero hash); else the oldest revoked
    /// session; else the session that expired first.
    fn find_available_slot<S: PachiState>(
        state: &S,
        authorizer: Address,
        block_timestamp: u64,
        max_sessions: u64,
    ) -> (r: Result<u64, SessionPrecompileError>)
        ensures
            match r {
                Ok(i) => slot_pick(state.storage(), authorizer, block_timestamp, max_sessions as nat, i as nat),
                Err(e) => slots_full(state.storage(), authorizer, block_timestamp, max_sessions as nat)
                    && e == SessionPrecompileError::MaxSessionsReached { authorizer },
            },
    {
        let ghost m = state.storage();
        let mut first_revoked: Option<(u64, u64)> = None;
        let mut first_expired: Option<(u64, u64)> = None;
        let mut i: u64 = 0;
        proof {
            reveal(best_so_far);
        }
        while i < max_sessions
            invariant
                i <= max_sessions,
                m == state.storage(),
                no_empty(m, authorizer, i as nat),
                best_so_far(m, authorizer, block_timestamp, i as nat, SessionStatus::Revoked, first_revoked),
                best_so_far(m, authorizer, block_timestamp, i as nat, SessionStatus::Expired, first_expired),
            decreases max_sessions - i,
        {
            let empty = Self::scan_slot(state, authorizer, i, block_timestamp, &mut first_revoked, &mut first_expired);
            if empty {
                return Ok(i);
            }
            proof {
                assert forall|j: nat| j < i + 1 implies !#[trigger] slot_empty(m, authorizer, j) by {
                    if j < i {
                        assert(!slot_empty(m, authorizer, j));
                    }
                }
            }
            i += 1;
        }
        proof {
            reveal(best_so_far);
        }
        match first_revoked {
            Some((idx, _)) => {
                return Ok(idx);
            },
            None => {},
        }
        match first_expired {
            Some((idx, _)) => {
                return Ok(idx);
            },
            None => {},
        }
        Err(SessionPrecompileError::MaxSessionsReached { authorizer })
    }

    /// Looks at slot `i` during the search for an available slot: reports
    /// whether it is empty and, if not, offers it as the oldest revoked or the
    /// earliest expired candidate.
    fn scan_slot<S: PachiState>(
        state: &S,
        authorizer: Address,
        i: u64,
        block_timestamp: u64,
        first_revoked: &mut Option<(u64, u64)>,
        first_expired: &mut Option<(u64, u64)>,
    ) -> (empty: bool)
        requires
            i < u64::MAX,
            best_so_far(state.storage(), authorizer, block_timestamp, i as nat, SessionStatus::Revoked, *old(first_revoked)),
            best_so_far(state.storage(), authorizer, block_timestamp, i as nat, SessionStatus::Expired, *old(first_expired)),
        ensures
            empty == slot_empty(state.storage(), authorizer, i as nat),
            !empty ==> best_so_far(state.storage(), authorizer, block_timestamp, (i + 1) as nat, SessionStatus::Revoked, *final(first_revoked)),
            !empty ==> best_so_far(state.storage(), authorizer, block_timestamp, (i + 1) as nat, SessionStatus::Expired, *final(first_expired)),
    {
        let ghost m = state.storage();
        let ghost ts = block_timestamp;
        let hash = Self::read_slot(state, authorizer, i);
        if hash.is_zero() {
            return true;
        }
        let ghost revoked_before = *first_revoked;
        let ghost expired_before = *first_expired;
        match read_session_record(state, &hash) {
            Some(record) => {
                proof {
                    lemma_slot_stored(m, authorizer, i as nat, ts, record);
                }
                let effective = record.effective_status(block_timestamp);
                match effective {
                    SessionStatus::Revoked => offer_candidate(first_revoked, i, record.created_at),
                    SessionStatus::Expired => offer_candidate(first_expired, i, record.expires_at),
                    SessionStatus::Active => {},
                }
            },
            None => {
                proof {
                    lemma_slot_unused(m, authorizer, i as nat, ts);
                }
            },
        }
        proof {
            lemma_scan_step(m, authorizer, ts, i as nat, SessionStatus::Revoked, revoked_before, *first_revoked);
            lemma_scan_step(m, authorizer, ts, i as nat, SessionStatus::Expired, expired_before, *first_expired);
        }
        false
    }

    /// Reads a session hash from a slot.
    fn read_slot<S: PachiState>(state: &S, authorizer: Address, index: u64) -> (r: B256)
        ensures
            r.bytes@ == slot_hash(state.storage(), authorizer, index as nat),
    {
        let base = session_slots_key(&authorizer);
        let val = state.get_storage(session_registry_address(), slot_at(&base, index));
        B256::from_u256(&val)
    }

    /// Writes a session hash to a slot.
    fn write_slot<S: PachiState>(state: &mut S, authorizer: Address, index: u64, session_hash: B256)
        ensures
            final(state).storage() == old(state).storage().insert(
                (registry_address(), list_slot(authorizer, index as nat)),
                word_of(be_value(session_hash.bytes@)),
            ),
    {
        let base = session_slots_key(&authorizer);
        let v = session_hash.to_u256();
        proof {
            lemma_word_of(v);
        }
        state.set_storage(session_registry_address(), slot_at(&base, index), v);
    }
}

/// Offers slot `i` with key `key` as a candidate: it replaces the current one
/// only when there is none or its key is strictly smaller.
fn offer_candidate(best: &mut Option<(u64, u64)>, i: u64, key: u64)
    ensures
        *final(best) == match *old(best) {
            None => Some((i, key)),
            Some((idx, k)) => if key < k {
                Some((i, key))
            } else {
                *old(best)
            },
        },
{
    match *best {
        None => {
            *best = Some((i, key));
        },
        Some((_, k)) => {
            if key < k {
                *best = Some((i, key));
            }
        },
    }
}

/// What `create_session` does when a slot is available: it returns the hash and
/// the hash it replaced, and the storage holds the new record and the hash in
/// the chosen slot.
pub open spec fn created(
    before: StorageMap,
    after: StorageMap,
    authorizer: Address,
    signer: Address,
    expires_at: u64,
    session_hash: B256,
    ts: u64,
    n: nat,
    r: Result<(B256, Option<B256>), SessionPrecompileError>,
) -> bool {
    let i = chosen_slot(before, authorizer, ts, n);
    &&& slot_pick(before, authorizer, ts, n, i)
    &&& r matches Ok((h, replaced)) && h == session_hash && replaced_hash(before, authorizer, i, replaced)
    &&& after == with_session(
        before,
        authorizer,
        i,
        session_hash.bytes@,
        new_record(authorizer, signer, expires_at, ts),
    )
}

/// What `revoke_session` does with a stored session: the stored authorizer may
/// revoke it, which writes the revoked status; anyone else gets `NotAuthorizer`
/// and nothing changes.
pub open spec fn revoked(
    before: StorageMap,
    after: StorageMap,
    caller: Address,
    hash: Seq<u8>,
    r: Result<(), SessionPrecompileError>,
) -> bool {
    let stored = crate::session::slots::word_address_bytes(record_word(before, hash, 1));
    if stored == caller.bytes@ {
        r is Ok && after == with_status(before, hash, SessionStatus::Revoked)
    } else {
        &&& r matches Err(SessionPrecompileError::NotAuthorizer { expected, actual })
        &&& expected.bytes@ == stored
        &&& actual == caller
        &&& after == before
    }
}

/// One step of the scan for the best slot in status `s`: slot `i` is considered
/// and the candidate is replaced only by a strictly smaller key.
proof fn lemma_scan_step(
    m: StorageMap,
    authorizer: Address,
    ts: u64,
    i: nat,
    s: SessionStatus,
    before: Option<(u64, u64)>,
    after: Option<(u64, u64)>,
)
    requires
        best_so_far(m, authorizer, ts, i, s, before),
        !slot_in_state(m, authorizer, i, ts, s) ==> after == before,
        slot_in_state(m, authorizer, i, ts, s) ==> match before {
            None => after == Some((i as u64, slot_key(m, authorizer, i, s))),
            Some((idx, key)) => if slot_key(m, authorizer, i, s) < key {
                after == Some((i as u64, slot_key(m, authorizer, i, s)))
            } else {
                after == before
            },
        },
        i < u64::MAX,
    ensures
        best_so_far(m, authorizer, ts, i + 1, s, after),
{
    reveal(best_so_far);
}

} // verus!
