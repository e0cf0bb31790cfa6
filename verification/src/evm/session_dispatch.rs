//! `SessionRegistry` precompile dispatch (0x0800).
//!
//! Selectors (first four bytes of the Keccak-256 of the signature):
//! - `createSession(address,uint64,bytes32)`: `0xaad64115` (authorizer = caller)
//! - `revokeSession(bytes32)`: `0xa7fed385`
//! - `getSession(bytes32)`: `0x39b240bd`
//! - `getActiveSessions(address)`: `0x80ea53de`
//! - `isValid(bytes32)`: `0x6a938567`

use vstd::prelude::*;

use crate::evm::abi::{be32, bool_word, concat_hashes, push_address_word, push_hash, push_u64_word};
use crate::evm::events::{log_is, address_topic_bytes, session_created_log, session_replaced_log, session_revoked_log};
use crate::evm::outcome::{LogRecord, PrecompileOutcome, RevertReason, reverted_with, succeeded_with};
use crate::hash::keccak256_spec;
use crate::primitives::constants::DEFAULT_MAX_SESSIONS_PER_ACCOUNT;
use crate::session::error::SessionPrecompileError;
use crate::session::gas::{GAS_SESSION_CREATE, GAS_SESSION_GET, GAS_SESSION_IS_VALID, GAS_SESSION_LIST_BASE, GAS_SESSION_LIST_PER, GAS_SESSION_REVOKE};
use crate::session::registry::{SessionRegistry, active_hashes, lemma_created_session_reads_back, chosen_slot, list_slot, new_record, revoked, slot_empty, slot_hash, slot_pick, slots_full, stored_effective, with_session};
use crate::session::record::SessionStatus;
use crate::session::slots::{record_slot, record_stored, record_word, reads_as, status_of_word, word_address_bytes, zero_address_bytes};
use crate::session::storage_keys::{registry_address, session_registry_address};
use crate::state::{PachiState, StorageMap};
use crate::word::{Address, B256, address_from_subslice, address_word_bytes, b256_from_subslice, be_value};
use vstd::string::StringSliceAdditionalSpecFns;

verus! {

/// `createSession(address,uint64,bytes32)`.
pub open spec fn create_session_selector() -> Seq<u8> {
    seq![0xaau8, 0xd6, 0x41, 0x15]
}

/// `revokeSession(bytes32)`.
pub open spec fn revoke_session_selector() -> Seq<u8> {
    seq![0xa7u8, 0xfe, 0xd3, 0x85]
}

/// `getSession(bytes32)`.
pub open spec fn get_session_selector() -> Seq<u8> {
    seq![0x39u8, 0xb2, 0x40, 0xbd]
}

/// `getActiveSessions(address)`.
pub open spec fn get_active_sessions_selector() -> Seq<u8> {
    seq![0x80u8, 0xea, 0x53, 0xde]
}

/// `isValid(bytes32)`.
pub open spec fn is_valid_selector() -> Seq<u8> {
    seq![0x6au8, 0x93, 0x85, 0x67]
}

/// A `uint64` argument word, saturated to a `u64`.
pub open spec fn saturated_u64(word: Seq<u8>) -> u64 {
    let v = be_value(word);
    if v > u64::MAX {
        u64::MAX
    } else {
        v as u64
    }
}

/// The logs of a created session: `SessionReplaced` first when a session's
/// slot was reused, then `SessionCreated`.
pub open spec fn creation_logs(
    logs: Seq<LogRecord>,
    before: StorageMap,
    authorizer: Address,
    signer: Address,
    expires_at: u64,
    hash: Seq<u8>,
    i: nat,
) -> bool {
    let created_topics = seq![
        keccak256_spec("SessionCreated(bytes32,address,address,uint64)".spec_bytes()),
        hash,
        address_topic_bytes(authorizer),
    ];
    let created_data = address_word_bytes(signer.bytes@) + be32(expires_at as nat);
    if slot_empty(before, authorizer, i) {
        logs.len() == 1 && log_is(logs[0], registry_address(), created_topics, created_data)
    } else {
        &&& logs.len() == 2
        &&& log_is(
            logs[0],
            registry_address(),
            seq![
                keccak256_spec("SessionReplaced(bytes32,bytes32,address)".spec_bytes()),
                slot_hash(before, authorizer, i),
                hash,
                address_topic_bytes(authorizer),
            ],
            Seq::empty(),
        )
        &&& log_is(logs[1], registry_address(), created_topics, created_data)
    }
}

/// The outcome of `createSession` once decoded: the registry creates the
/// session for the caller with the default cap, or reports why it cannot.
pub open spec fn create_effect(
    before: StorageMap,
    after: StorageMap,
    caller: Address,
    signer: Address,
    expires_at: u64,
    hash: B256,
    ts: u64,
    r: PrecompileOutcome,
) -> bool {
    let n = DEFAULT_MAX_SESSIONS_PER_ACCOUNT as nat;
    if slots_full(before, caller, ts, n) {
        &&& r == PrecompileOutcome::Reverted {
            gas_used: GAS_SESSION_CREATE,
            reason: RevertReason::Session(SessionPrecompileError::MaxSessionsReached { authorizer: caller }),
        }
        &&& after == before
    } else {
        let i = chosen_slot(before, caller, ts, n);
        &&& slot_pick(before, caller, ts, n, i)
        &&& after == with_session(before, caller, i, hash.bytes@, new_record(caller, signer, expires_at, ts))
        &&& r matches PrecompileOutcome::Success { gas_used, output, logs }
        &&& gas_used == GAS_SESSION_CREATE
        &&& output@ == hash.bytes@
        &&& creation_logs(logs@, before, caller, signer, expires_at, hash.bytes@, i)
    }
}

/// The outcome of a `createSession` call.
pub open spec fn create_outcome(before: StorageMap, after: StorageMap, args: Seq<u8>, caller: Address, ts: u64, r: PrecompileOutcome) -> bool {
    if args.len() < 96 {
        reverted_with(r, GAS_SESSION_CREATE, "input too short for createSession") && after == before
    } else {
        forall|signer: Address, hash: B256|
            signer.bytes@ == args.subrange(12, 32) && hash.bytes@ == args.subrange(64, 96) ==> #[trigger]
            create_effect(before, after, caller, signer, saturated_u64(args.subrange(32, 64)), hash, ts, r)
    }
}

/// The outcome of a `revokeSession` call.
pub open spec fn revoke_outcome(before: StorageMap, after: StorageMap, args: Seq<u8>, caller: Address, r: PrecompileOutcome) -> bool {
    let hash = args.subrange(0, 32);
    if args.len() < 32 {
        reverted_with(r, GAS_SESSION_REVOKE, "input too short for revokeSession") && after == before
    } else if !record_stored(before, hash) {
        &&& r matches PrecompileOutcome::Reverted { gas_used, reason: RevertReason::Session(SessionPrecompileError::SessionNotFound { hash: h }) }
        &&& gas_used == GAS_SESSION_REVOKE
        &&& h.bytes@ == hash
        &&& after == before
    } else if word_address_bytes(record_word(before, hash, 1)) != caller.bytes@ {
        &&& r matches PrecompileOutcome::Reverted { gas_used, reason: RevertReason::Session(SessionPrecompileError::NotAuthorizer { expected, actual }) }
        &&& gas_used == GAS_SESSION_REVOKE
        &&& expected.bytes@ == word_address_bytes(record_word(before, hash, 1))
        &&& actual == caller
        &&& after == before
    } else {
        &&& revoked(before, after, caller, hash, Ok(()))
        &&& r matches PrecompileOutcome::Success { gas_used, output, logs }
        &&& gas_used == GAS_SESSION_REVOKE
        &&& output@.len() == 0
        &&& logs@.len() == 1
        &&& log_is(
            logs@[0],
            registry_address(),
            seq![
                keccak256_spec("SessionRevoked(bytes32,address)".spec_bytes()),
                hash,
                address_topic_bytes(caller),
            ],
            Seq::empty(),
        )
    }
}

/// The ABI encoding of a record: `(uint8 status, address authorizer, address
/// signer, uint64 expiresAt, uint64 createdAt)` as stored.
pub open spec fn record_words(m: StorageMap, hash: Seq<u8>) -> Seq<u8> {
    be32(
        crate::session::slots::status_of_word(record_word(m, hash, 0)).code() as nat,
    ) + address_word_bytes(word_address_bytes(record_word(m, hash, 1))) + address_word_bytes(
        word_address_bytes(record_word(m, hash, 2)),
    ) + be32(record_word(m, hash, 3).l0 as nat) + be32(record_word(m, hash, 4).l0 as nat)
}

/// The outcome of a `getSession` call.
pub open spec fn get_outcome(m: StorageMap, args: Seq<u8>, gas: u64, r: PrecompileOutcome) -> bool {
    let hash = args.subrange(0, 32);
    if gas < GAS_SESSION_GET {
        r is OutOfGas
    } else if args.len() < 32 {
        reverted_with(r, GAS_SESSION_GET, "input too short for getSession")
    } else if !record_stored(m, hash) {
        r matches PrecompileOutcome::Reverted { gas_used, reason: RevertReason::Session(SessionPrecompileError::SessionNotFound { hash: h }) }
            && gas_used == GAS_SESSION_GET && h.bytes@ == hash
    } else {
        succeeded_with(r, GAS_SESSION_GET, record_words(m, hash))
    }
}

/// The outcome of a `getActiveSessions` call: gas grows with the number of
/// active sessions returned.
pub open spec fn list_outcome(m: StorageMap, args: Seq<u8>, gas: u64, ts: u64, r: PrecompileOutcome) -> bool {
    if gas < GAS_SESSION_LIST_BASE {
        r is OutOfGas
    } else if args.len() < 32 {
        reverted_with(r, GAS_SESSION_LIST_BASE, "input too short for getActiveSessions")
    } else {
        forall|authorizer: Address| authorizer.bytes@ == args.subrange(12, 32) ==> {
            let hashes = #[trigger] active_hashes(m, authorizer, ts, DEFAULT_MAX_SESSIONS_PER_ACCOUNT as nat);
            let cost = GAS_SESSION_LIST_BASE + GAS_SESSION_LIST_PER * hashes.len();
            if gas < cost {
                r is OutOfGas
            } else {
                succeeded_with(r, cost as u64, be32(32) + be32(hashes.len()) + concat_hashes(hashes))
            }
        }
    }
}

/// The outcome of an `isValid` call.
pub open spec fn is_valid_outcome(m: StorageMap, args: Seq<u8>, gas: u64, ts: u64, r: PrecompileOutcome) -> bool {
    let hash = args.subrange(0, 32);
    let valid = record_stored(m, hash) && stored_effective(m, hash, ts) == SessionStatus::Active;
    if gas < GAS_SESSION_IS_VALID {
        r is OutOfGas
    } else if args.len() < 32 {
        reverted_with(r, GAS_SESSION_IS_VALID, "input too short for isValid")
    } else {
        succeeded_with(r, GAS_SESSION_IS_VALID, Seq::new(32, |i: int| if i == 31 && valid { 1u8 } else { 0u8 }))
    }
}

/// The outcome of a `SessionRegistry` call, routed by the 4-byte selector;
/// state-modifying calls revert in a static context, and every call needs at
/// least its base gas.
pub open spec fn session_outcome(
    before: StorageMap,
    after: StorageMap,
    data: Seq<u8>,
    gas: u64,
    caller: Address,
    is_static: bool,
    ts: u64,
    r: PrecompileOutcome,
) -> bool {
    let selector = data.subrange(0, 4);
    let args = data.subrange(4, data.len() as int);
    if data.len() < 4 {
        reverted_with(r, 0, "input too short") && after == before
    } else if selector == create_session_selector() {
        if is_static {
            reverted_with(r, GAS_SESSION_CREATE, "state-modifying call in static context") && after == before
        } else if gas < GAS_SESSION_CREATE {
            r is OutOfGas && after == before
        } else {
            create_outcome(before, after, args, caller, ts, r)
        }
    } else if selector == revoke_session_selector() {
        if is_static {
            reverted_with(r, GAS_SESSION_REVOKE, "state-modifying call in static context") && after == before
        } else if gas < GAS_SESSION_REVOKE {
            r is OutOfGas && after == before
        } else {
            revoke_outcome(before, after, args, caller, r)
        }
    } else if selector == get_session_selector() {
        get_outcome(before, args, gas, r) && after == before
    } else if selector == get_active_sessions_selector() {
        list_outcome(before, args, gas, ts, r) && after == before
    } else if selector == is_valid_selector() {
        is_valid_outcome(before, args, gas, ts, r) && after == before
    } else {
        reverted_with(r, 0, "unknown selector") && after == before
    }
}

/// Whether `data` starts with the 4 bytes of `selector`.
fn starts_with(data: &[u8], selector: [u8; 4]) -> (r: bool)
    requires
        data@.len() >= 4,
    ensures
        r == (data@.subrange(0, 4) == selector@),
{
    let r = data[0] == selector[0] && data[1] == selector[1] && data[2] == selector[2] && data[3]
        == selector[3];
    proof {
        let head = data@.subrange(0, 4);
        if r {
            assert(head =~= selector@);
        } else if head == selector@ {
            assert(head[0] == selector@[0]);
            assert(head[1] == selector@[1]);
            assert(head[2] == selector@[2]);
            assert(head[3] == selector@[3]);
        }
    }
    r
}

/// `SessionRegistry` precompile entry point.
pub fn session_registry_precompile<S: PachiState>(
    state: &mut S,
    data: &[u8],
    gas: u64,
    caller: Address,
    is_static: bool,
    block_timestamp: u64,
) -> (r: PrecompileOutcome)
    ensures
        session_outcome(old(state).storage(), final(state).storage(), data@, gas, caller, is_static, block_timestamp, r),
{
    if data.len() < 4 {
        return PrecompileOutcome::Reverted { gas_used: 0, reason: RevertReason::Message("input too short") };
    }
    let args = vstd::slice::slice_subrange(data, 4, data.len());
    assert([0xaau8, 0xd6, 0x41, 0x15]@ =~= create_session_selector());
    assert([0xa7u8, 0xfe, 0xd3, 0x85]@ =~= revoke_session_selector());
    assert([0x39u8, 0xb2, 0x40, 0xbd]@ =~= get_session_selector());
    assert([0x80u8, 0xea, 0x53, 0xde]@ =~= get_active_sessions_selector());
    assert([0x6au8, 0x93, 0x85, 0x67]@ =~= is_valid_selector());
    if starts_with(data, [0xaa, 0xd6, 0x41, 0x15]) {
        if is_static {
            return PrecompileOutcome::Reverted {
                gas_used: GAS_SESSION_CREATE,
                reason: RevertReason::Message("state-modifying call in static context"),
            };
        }
        if gas < GAS_SESSION_CREATE {
            return PrecompileOutcome::OutOfGas;
        }
        handle_create_session(state, args, caller, block_timestamp)
    } else if starts_with(data, [0xa7, 0xfe, 0xd3, 0x85]) {
        if is_static {
            return PrecompileOutcome::Reverted {
                gas_used: GAS_SESSION_REVOKE,
                reason: RevertReason::Message("state-modifying call in static context"),
            };
        }
        if gas < GAS_SESSION_REVOKE {
            return PrecompileOutcome::OutOfGas;
        }
        handle_revoke_session(state, args, caller)
    } else if starts_with(data, [0x39, 0xb2, 0x40, 0xbd]) {
        handle_get_session(state, args, gas)
    } else if starts_with(data, [0x80, 0xea, 0x53, 0xde]) {
        handle_get_active_sessions(state, args, block_timestamp, gas)
    } else if starts_with(data, [0x6a, 0x93, 0x85, 0x67]) {
        handle_is_valid(state, args, block_timestamp, gas)
    } else {
        PrecompileOutcome::Reverted { gas_used: 0, reason: RevertReason::Message("unknown selector") }
    }
}

/// `createSession(address signer, uint64 expiresAt, bytes32 sessionHash)`.
fn handle_create_session<S: PachiState>(state: &mut S, args: &[u8], caller: Address, block_timestamp: u64) -> (r: PrecompileOutcome)
    ensures
        create_outcome(old(state).storage(), final(state).storage(), args@, caller, block_timestamp, r),
{
    if args.len() < 96 {
        return PrecompileOutcome::Reverted {
            gas_used: GAS_SESSION_CREATE,
            reason: RevertReason::Message("input too short for createSession"),
        };
    }
    let ghost before = state.storage();
    let signer = address_from_subslice(args, 12);
    let expires_at = b256_from_subslice(args, 32).to_u256().saturating_to_u64();
    let session_hash = b256_from_subslice(args, 64);
    let ghost n = DEFAULT_MAX_SESSIONS_PER_ACCOUNT as nat;
    let result = SessionRegistry::create_session(
        state,
        caller,
        signer,
        expires_at,
        session_hash,
        block_timestamp,
        DEFAULT_MAX_SESSIONS_PER_ACCOUNT,
    );
    let r = match result {
        Ok((hash, replaced)) => {
            let precompile_addr = session_registry_address();
            let mut logs: Vec<LogRecord> = Vec::new();
            match replaced {
                Some(old_hash) => {
                    logs.push(session_replaced_log(precompile_addr, old_hash, hash, caller));
                },
                None => {},
            }
            logs.push(session_created_log(precompile_addr, hash, caller, signer, expires_at));
            let mut output: Vec<u8> = Vec::new();
            push_hash(&mut output, &hash);
            assert(output@ =~= hash.bytes@);
            PrecompileOutcome::Success { gas_used: GAS_SESSION_CREATE, output, logs }
        },
        Err(e) => PrecompileOutcome::Reverted { gas_used: GAS_SESSION_CREATE, reason: RevertReason::Session(e) },
    };
    proof {
        assert forall|s: Address, h: B256|
            s.bytes@ == args@.subrange(12, 32) && h.bytes@ == args@.subrange(64, 96) implies #[trigger]
            create_effect(before, state.storage(), caller, s, saturated_u64(args@.subrange(32, 64)), h, block_timestamp, r) by {
            assert(s.bytes =~= signer.bytes);
            assert(h.bytes =~= session_hash.bytes);
        }
    }
    r
}

/// `revokeSession(bytes32 sessionHash)`.
fn handle_revoke_session<S: PachiState>(state: &mut S, args: &[u8], caller: Address) -> (r: PrecompileOutcome)
    ensures
        revoke_outcome(old(state).storage(), final(state).storage(), args@, caller, r),
{
    if args.len() < 32 {
        return PrecompileOutcome::Reverted {
            gas_used: GAS_SESSION_REVOKE,
            reason: RevertReason::Message("input too short for revokeSession"),
        };
    }
    let session_hash = b256_from_subslice(args, 0);
    match SessionRegistry::revoke_session(state, caller, &session_hash) {
        Ok(()) => {
            let mut logs: Vec<LogRecord> = Vec::new();
            logs.push(session_revoked_log(session_registry_address(), session_hash, caller));
            PrecompileOutcome::Success { gas_used: GAS_SESSION_REVOKE, output: Vec::new(), logs }
        },
        Err(e) => PrecompileOutcome::Reverted { gas_used: GAS_SESSION_REVOKE, reason: RevertReason::Session(e) },
    }
}

/// `getSession(bytes32 sessionHash) -> (uint8, address, address, uint64, uint64)`.
fn handle_get_session<S: PachiState>(state: &S, args: &[u8], gas: u64) -> (r: PrecompileOutcome)
    ensures
        get_outcome(state.storage(), args@, gas, r),
{
    if gas < GAS_SESSION_GET {
        return PrecompileOutcome::OutOfGas;
    }
    if args.len() < 32 {
        return PrecompileOutcome::Reverted {
            gas_used: GAS_SESSION_GET,
            reason: RevertReason::Message("input too short for getSession"),
        };
    }
    let session_hash = b256_from_subslice(args, 0);
    match SessionRegistry::get_session(state, &session_hash) {
        Ok(record) => {
            let mut output: Vec<u8> = Vec::new();
            push_u64_word(&mut output, record.status.as_u8() as u64);
            push_address_word(&mut output, &record.authorizer);
            push_address_word(&mut output, &record.signer);
            push_u64_word(&mut output, record.expires_at);
            push_u64_word(&mut output, record.created_at);
            assert(output@ =~= record_words(state.storage(), args@.subrange(0, 32)));
            PrecompileOutcome::Success { gas_used: GAS_SESSION_GET, output, logs: Vec::new() }
        },
        Err(e) => PrecompileOutcome::Reverted { gas_used: GAS_SESSION_GET, reason: RevertReason::Session(e) },
    }
}

/// `getActiveSessions(address authorizer) -> bytes32[]`.
fn handle_get_active_sessions<S: PachiState>(state: &S, args: &[u8], block_timestamp: u64, gas: u64) -> (r: PrecompileOutcome)
    ensures
        list_outcome(state.storage(), args@, gas, block_timestamp, r),
{
    if gas < GAS_SESSION_LIST_BASE {
        return PrecompileOutcome::OutOfGas;
    }
    if args.len() < 32 {
        return PrecompileOutcome::Reverted {
            gas_used: GAS_SESSION_LIST_BASE,
            reason: RevertReason::Message("input too short for getActiveSessions"),
        };
    }
    let authorizer = address_from_subslice(args, 12);
    let sessions = SessionRegistry::get_active_sessions(
        state,
        authorizer,
        block_timestamp,
        DEFAULT_MAX_SESSIONS_PER_ACCOUNT,
    );
    let ghost hashes = sessions@.map_values(|h: B256| h.bytes@);
    proof {
        lemma_active_len(state.storage(), authorizer, block_timestamp, DEFAULT_MAX_SESSIONS_PER_ACCOUNT as nat);
    }
    let count = sessions.len() as u64;
    let gas_cost = GAS_SESSION_LIST_BASE + GAS_SESSION_LIST_PER * count;
    let r = if gas < gas_cost {
        PrecompileOutcome::OutOfGas
    } else {
        let mut output: Vec<u8> = Vec::new();
        push_u64_word(&mut output, 32);
        push_u64_word(&mut output, count);
        let ghost head = output@;
        let mut j: usize = 0;
        while j < sessions.len()
            invariant
                j <= sessions@.len(),
                hashes == sessions@.map_values(|h: B256| h.bytes@),
                output@ == head + concat_hashes(hashes.subrange(0, j as int)),
            decreases sessions@.len() - j,
        {
            push_hash(&mut output, &sessions[j]);
            assert(hashes.subrange(0, j + 1).drop_last() =~= hashes.subrange(0, j as int));
            j += 1;
        }
        assert(hashes.subrange(0, j as int) =~= hashes);
        PrecompileOutcome::Success { gas_used: gas_cost, output, logs: Vec::new() }
    };
    proof {
        assert forall|a: Address| a.bytes@ == args@.subrange(12, 32) implies {
            let hs = #[trigger] active_hashes(state.storage(), a, block_timestamp, DEFAULT_MAX_SESSIONS_PER_ACCOUNT as nat);
            let cost = GAS_SESSION_LIST_BASE + GAS_SESSION_LIST_PER * hs.len();
            if gas < cost {
                r is OutOfGas
            } else {
                succeeded_with(r, cost as u64, be32(32) + be32(hs.len()) + concat_hashes(hs))
            }
        } by {
            assert(a.bytes =~= authorizer.bytes);
        }
    }
    r
}

/// `isValid(bytes32 sessionHash) -> bool`.
fn handle_is_valid<S: PachiState>(state: &S, args: &[u8], block_timestamp: u64, gas: u64) -> (r: PrecompileOutcome)
    ensures
        is_valid_outcome(state.storage(), args@, gas, block_timestamp, r),
{
    if gas < GAS_SESSION_IS_VALID {
        return PrecompileOutcome::OutOfGas;
    }
    if args.len() < 32 {
        return PrecompileOutcome::Reverted {
            gas_used: GAS_SESSION_IS_VALID,
            reason: RevertReason::Message("input too short for isValid"),
        };
    }
    let session_hash = b256_from_subslice(args, 0);
    let valid = SessionRegistry::is_valid(state, &session_hash, block_timestamp);
    let word = bool_word(valid);
    let mut output: Vec<u8> = Vec::new();
    crate::word::append_bytes(&mut output, &word);
    assert(output@ =~= word@);
    PrecompileOutcome::Success { gas_used: GAS_SESSION_IS_VALID, output, logs: Vec::new() }
}

/// The active sessions among `n` slots number at most `n`.
proof fn lemma_active_len(m: StorageMap, authorizer: Address, ts: u64, n: nat)
    ensures
        active_hashes(m, authorizer, ts, n).len() <= n,
    decreases n,
{
    if n > 0 {
        lemma_active_len(m, authorizer, ts, (n - 1) as nat);
    }
}

/// `isValid(bytes32)` reads and never writes, and answers with one word that
/// is 1 exactly when the session is stored, its stored status is Active and
/// the block time has not passed its stored expiry, and 0 otherwise: the same
/// answer as `SessionRegistry::is_valid` at that block time. In particular a
/// session is reported invalid at every block time after its expiry.
#[verifier::rlimit(40)]
pub proof fn lemma_is_valid_answers(
    before: StorageMap,
    after: StorageMap,
    data: Seq<u8>,
    gas: u64,
    caller: Address,
    is_static: bool,
    ts: u64,
    r: PrecompileOutcome,
)
    requires
        session_outcome(before, after, data, gas, caller, is_static, ts, r),
        data.len() >= 36,
        data.subrange(0, 4) == seq![0x6au8, 0x93, 0x85, 0x67],
        gas >= GAS_SESSION_IS_VALID,
    ensures
        after == before,
        r is Success,
        ({
            let hash = data.subrange(4, 36);
            let output = r->Success_output@;
            &&& output.len() == 32
            &&& forall|i: int| 0 <= i < 31 ==> output[i] == 0
            &&& output[31] == 0 || output[31] == 1
            &&& output[31] == 1 <==> (record_stored(before, hash) && status_of_word(record_word(before, hash, 0))
                == SessionStatus::Active && ts <= record_word(before, hash, 3).l0)
            &&& output[31] == 1 <==> (record_stored(before, hash) && stored_effective(before, hash, ts)
                == SessionStatus::Active)
            &&& ts > record_word(before, hash, 3).l0 ==> output[31] == 0
        }),
{
    let args = data.subrange(4, data.len() as int);
    assert(args.subrange(0, 32) =~= data.subrange(4, 36));
    assert(data.subrange(0, 4) != create_session_selector());
    assert(data.subrange(0, 4) != revoke_session_selector());
    assert(data.subrange(0, 4) != get_session_selector());
    assert(data.subrange(0, 4) != get_active_sessions_selector());
    assert(data.subrange(0, 4) =~= is_valid_selector());
    assert(is_valid_outcome(before, args, gas, ts, r) && after == before);
}

/// Each `SessionRegistry` selector runs its own function:
/// `createSession(address,uint64,bytes32)` (`0xaad64115`) and
/// `revokeSession(bytes32)` (`0xa7fed385`), which revert in a static context;
/// `getSession(bytes32)` (`0x39b240bd`), `getActiveSessions(address)`
/// (`0x80ea53de`) and `isValid(bytes32)` (`0x6a938567`), which leave storage
/// as it was. Any other selector reverts, charging nothing and writing nothing.
pub proof fn lemma_session_routes(
    before: StorageMap,
    after: StorageMap,
    data: Seq<u8>,
    gas: u64,
    caller: Address,
    is_static: bool,
    ts: u64,
    r: PrecompileOutcome,
)
    requires
        session_outcome(before, after, data, gas, caller, is_static, ts, r),
        data.len() >= 4,
    ensures
        ({
            let sel = data.subrange(0, 4);
            let args = data.subrange(4, data.len() as int);
            &&& sel == seq![0xaau8, 0xd6, 0x41, 0x15] ==> (is_static ==> reverted_with(
                r,
                GAS_SESSION_CREATE,
                "state-modifying call in static context",
            ) && after == before) && (!is_static && gas >= GAS_SESSION_CREATE ==> create_outcome(
                before,
                after,
                args,
                caller,
                ts,
                r,
            ))
            &&& sel == seq![0xa7u8, 0xfe, 0xd3, 0x85] ==> (is_static ==> reverted_with(
                r,
                GAS_SESSION_REVOKE,
                "state-modifying call in static context",
            ) && after == before) && (!is_static && gas >= GAS_SESSION_REVOKE ==> revoke_outcome(
                before,
                after,
                args,
                caller,
                r,
            ))
            &&& sel == seq![0x39u8, 0xb2, 0x40, 0xbd] ==> get_outcome(before, args, gas, r) && after == before
            &&& sel == seq![0x80u8, 0xea, 0x53, 0xde] ==> list_outcome(before, args, gas, ts, r) && after == before
            &&& sel == seq![0x6au8, 0x93, 0x85, 0x67] ==> is_valid_outcome(before, args, gas, ts, r) && after == before
            &&& sel != seq![0xaau8, 0xd6, 0x41, 0x15] && sel != seq![0xa7u8, 0xfe, 0xd3, 0x85] && sel != seq![
                0x39u8,
                0xb2,
                0x40,
                0xbd,
            ] && sel != seq![0x80u8, 0xea, 0x53, 0xde] && sel != seq![0x6au8, 0x93, 0x85, 0x67]
                ==> reverted_with(r, 0, "unknown selector") && after == before
        }),
{
    assert(create_session_selector() =~= seq![0xaau8, 0xd6, 0x41, 0x15]);
    assert(revoke_session_selector() =~= seq![0xa7u8, 0xfe, 0xd3, 0x85]);
    assert(get_session_selector() =~= seq![0x39u8, 0xb2, 0x40, 0xbd]);
    assert(get_active_sessions_selector() =~= seq![0x80u8, 0xea, 0x53, 0xde]);
    assert(is_valid_selector() =~= seq![0x6au8, 0x93, 0x85, 0x67]);
}

/// What a `getSession` and an `isValid` call answer of a session that a
/// successful `createSession` call just created: `getSession` returns the ABI
/// words of status Active (0), the caller as authorizer, the signer argument,
/// the expiry argument and the creation time; `isValid` holds exactly while the
/// block time has not passed the expiry. This holds provided the caller is not
/// the zero address and no slot of the caller's session array is one of the new
/// record's slots (distinct digests).
pub proof fn lemma_create_then_read(
    before: StorageMap,
    after: StorageMap,
    args: Seq<u8>,
    caller: Address,
    ts: u64,
    r: PrecompileOutcome,
    signer: Address,
    hash: B256,
    read_args: Seq<u8>,
    read_gas: u64,
    read: PrecompileOutcome,
    later: u64,
)
    requires
        create_outcome(before, after, args, caller, ts, r),
        args.len() >= 96,
        r is Success,
        signer.bytes@ == args.subrange(12, 32),
        hash.bytes@ == args.subrange(64, 96),
        caller.bytes@ != zero_address_bytes(),
        forall|i: nat, k: nat| k < 5 ==> #[trigger] list_slot(caller, i) != #[trigger] record_slot(hash.bytes@, k),
        get_outcome(after, read_args, read_gas, read),
        read_args.len() >= 32,
        read_args.subrange(0, 32) == hash.bytes@,
        read_gas >= GAS_SESSION_GET,
    ensures
        read matches PrecompileOutcome::Success { output, .. } && output@ == be32(0) + address_word_bytes(
            caller.bytes@,
        ) + address_word_bytes(args.subrange(12, 32)) + be32(saturated_u64(args.subrange(32, 64)) as nat) + be32(
            ts as nat,
        ),
        record_stored(after, hash.bytes@) && stored_effective(after, hash.bytes@, later) == SessionStatus::Active
            <==> later <= saturated_u64(args.subrange(32, 64)),
{
    let expires_at = saturated_u64(args.subrange(32, 64));
    assert(create_effect(before, after, caller, signer, expires_at, hash, ts, r));
    let n = DEFAULT_MAX_SESSIONS_PER_ACCOUNT as nat;
    let i = chosen_slot(before, caller, ts, n);
    let rec = new_record(caller, signer, expires_at, ts);
    lemma_created_session_reads_back(before, caller, i, hash.bytes@, rec);
}

} // verus!
