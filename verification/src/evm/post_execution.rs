//! Post-execution handling of session transactions: after EVM execution, the
//! session nonce is incremented and the fee, value and constraint limit states
//! are updated with what the transaction actually spent.

use vstd::prelude::*;

use crate::oracle_precompile::storage::small_word;
use crate::primitives::constraint::{Constraint, ConstraintEngine, argument_end, constraint_argument};
use crate::primitives::limit::{Limit, LimitEngine, LimitState, limit_step};
use crate::primitives::policy::{CallPolicy, TransferPolicy};
use crate::session::nonce::{SessionNonce, lemma_nonce_increment, nonce_of, with_nonce_incremented};
use crate::session::slots::{offset_slot, slot_at};
use crate::session::storage_keys::{limit_slot, limit_state_key, nonce_slot, registry_address, session_registry_address};
use crate::session::validation::{call_context, call_policy_matches, constraint_context, fee_context, is_first_call_policy, is_first_transfer_policy, transfer_context, transfer_policy_matches};
use crate::state::{PachiState, StorageMap, storage_read};
use crate::word::{Address, B256, U256, append_bytes, be_value, lemma_word_of, limb_base, selector_from_subslice, word_of};

verus! {

/// The limit state held at a slot and the next one (`used`, then the last window).
pub open spec fn post_limit_state(m: StorageMap, slot: U256) -> LimitState {
    LimitState {
        used: storage_read(m, registry_address(), slot),
        last_window: storage_read(m, registry_address(), offset_slot(slot, 1)).l0,
    }
}

/// The storage after a limit state is written at a slot and the next one.
pub open spec fn with_limit_state(m: StorageMap, slot: U256, s: LimitState) -> StorageMap {
    m.insert((registry_address(), slot), s.used).insert(
        (registry_address(), offset_slot(slot, 1)),
        small_word(s.last_window),
    )
}

/// The storage after the limit state at a slot is checked against `amount`
/// and written back, whether the check passed or not.
#[verifier::opaque]
pub open spec fn limit_updated(m: StorageMap, slot: U256, limit: Limit, amount: nat, ts: u64) -> StorageMap {
    let step = limit_step(limit, post_limit_state(m, slot), amount, ts);
    with_limit_state(m, slot, LimitState { used: word_of(step.1), last_window: step.2 })
}

/// The storage after the first `n` constraints of a call have their limit
/// states updated with their argument values; a constraint whose argument is
/// missing from the calldata is skipped.
#[verifier::opaque]
pub open spec fn constraints_updated(
    m: StorageMap,
    hash: Seq<u8>,
    to: Address,
    selector: Seq<u8>,
    cs: Seq<Constraint>,
    calldata: Seq<u8>,
    ts: u64,
    n: nat,
) -> StorageMap
    decreases n,
{
    if n == 0 {
        m
    } else {
        let before = constraints_updated(m, hash, to, selector, cs, calldata, ts, (n - 1) as nat);
        let c = cs[n - 1];
        let slot = limit_slot(hash, constraint_context(to, selector, ((n - 1) % 256) as u8), 0);
        if calldata.len() >= argument_end(c.index) {
            limit_updated(before, slot, c.limit, be_value(constraint_argument(c.index, calldata)), ts)
        } else {
            before
        }
    }
}

/// The storage after the call limits of a policy are updated: its value limit,
/// then each of its constraints.
#[verifier::opaque]
pub open spec fn call_limits_updated(
    m: StorageMap,
    hash: Seq<u8>,
    to: Address,
    selector: Seq<u8>,
    p: CallPolicy,
    calldata: Seq<u8>,
    value: U256,
    ts: u64,
) -> StorageMap {
    let after_value = limit_updated(m, limit_slot(hash, call_context(to, selector), 0), p.value_limit, value@, ts);
    constraints_updated(after_value, hash, to, selector, p.constraints@, calldata, ts, p.constraints@.len())
}

/// The storage after the nonce and fee limit of a session transaction are updated.
#[verifier::opaque]
pub open spec fn nonce_and_fee_updated(
    m: StorageMap,
    authorizer: Address,
    hash: Seq<u8>,
    gas_cost: U256,
    ts: u64,
    fee_limit: Limit,
) -> StorageMap {
    let m1 = with_nonce_incremented(m, authorizer, hash);
    limit_updated(m1, limit_slot(hash, fee_context(), 0), fee_limit, gas_cost@, ts)
}

/// Whether `after` is the storage that finalizing a session transaction leaves
/// behind, starting from `m`: the nonce and fee limit are updated; then, for a
/// call (calldata of 4 bytes or more), the limits of the first call policy
/// covering its target and selector, if any; for a transfer, the value limit of
/// the first transfer policy covering its recipient, if any.
pub open spec fn session_finalized(
    m: StorageMap,
    authorizer: Address,
    hash: Seq<u8>,
    gas_cost: U256,
    ts: u64,
    fee_limit: Limit,
    to: Address,
    calldata: Seq<u8>,
    value: U256,
    call_policies: Seq<CallPolicy>,
    transfer_policies: Seq<TransferPolicy>,
    after: StorageMap,
) -> bool {
    let m2 = nonce_and_fee_updated(m, authorizer, hash, gas_cost, ts, fee_limit);
    let selector = calldata.subrange(0, 4);
    if calldata.len() >= 4 {
        &&& (forall|j: int| 0 <= j < call_policies.len() ==> !#[trigger] call_policy_matches(call_policies[j], to, selector))
            ==> after == m2
        &&& forall|i: int| #[trigger] is_first_call_policy(call_policies, to, selector, i)
            ==> after == call_limits_updated(m2, hash, to, selector, call_policies[i], calldata, value, ts)
    } else {
        &&& (forall|j: int| 0 <= j < transfer_policies.len() ==> !#[trigger] transfer_policy_matches(transfer_policies[j], to))
            ==> after == m2
        &&& forall|i: int| #[trigger] is_first_transfer_policy(transfer_policies, to, i)
            ==> after == limit_updated(
            m2,
            limit_slot(hash, transfer_context(to), 0),
            transfer_policies[i].value_limit,
            value@,
            ts,
        )
    }
}

/// Post-execution handling of Pachi transaction types.
#[derive(Debug)]
pub struct PostExecutionHandler;

impl PostExecutionHandler {
    /// Post-execution for a session transaction:
    /// 1. increment the session nonce;
    /// 2. update the fee limit state with the actual gas cost;
    /// 3. for a call (calldata of 4 bytes or more) covered by a call policy,
    ///    update its value limit state and each constraint's limit state; for a
    ///    transfer covered by a transfer policy, update its value limit state.
    ///
    /// Limit states are written back whether the checks pass or not; no
    /// sponsor settlement is involved.
    pub fn finalize_session_tx<S: PachiState>(
        state: &mut S,
        authorizer: Address,
        session_hash: &B256,
        actual_gas_cost: U256,
        block_timestamp: u64,
        fee_limit: &Limit,
        to: Address,
        calldata: &[u8],
        value: U256,
        call_policies: &[CallPolicy],
        transfer_policies: &[TransferPolicy],
    )
        ensures
            session_finalized(
                old(state).storage(),
                authorizer,
                session_hash.bytes@,
                actual_gas_cost,
                block_timestamp,
                *fee_limit,
                to,
                calldata@,
                value,
                call_policies@,
                transfer_policies@,
                final(state).storage(),
            ),
    {
        let ghost hash = session_hash.bytes@;
        // 1. Session nonce.
        SessionNonce::increment(state, authorizer, session_hash);

        // 2. Fee limit.
        let fee_tag: [u8; 3] = [0x66, 0x65, 0x65];
        assert(fee_tag@ =~= fee_context());
        let fee_slot = limit_state_key(session_hash, &fee_tag, 0);
        update_limit(state, fee_slot, fee_limit, actual_gas_cost, block_timestamp);
        let ghost m2 = state.storage();
        proof {
            reveal(nonce_and_fee_updated);
            assert(m2 == nonce_and_fee_updated(
                old(state).storage(),
                authorizer,
                hash,
                actual_gas_cost,
                block_timestamp,
                *fee_limit,
            ));
        }

        // 3. Call or transfer limits.
        if calldata.len() >= 4 {
            let selector = selector_from_subslice(calldata, 0);
            let ghost sel = calldata@.subrange(0, 4);
            let ghost ps = call_policies@;
            let mut i: usize = 0;
            while i < call_policies.len()
                invariant
                    0 <= i <= ps.len(),
                    ps == call_policies@,
                    selector.bytes@ == sel,
                    sel == calldata@.subrange(0, 4),
                    calldata@.len() >= 4,
                    state.storage() == m2,
                    m2 == nonce_and_fee_updated(
                        old(state).storage(),
                        authorizer,
                        session_hash.bytes@,
                        actual_gas_cost,
                        block_timestamp,
                        *fee_limit,
                    ),
                    forall|j: int| 0 <= j < i ==> !#[trigger] call_policy_matches(ps[j], to, sel),
                decreases ps.len() - i,
            {
                let p = &call_policies[i];
                if p.target == to && p.selector == selector {
                    update_call_limits(state, session_hash, to, &selector, p, calldata, value, block_timestamp);
                    assert(call_policy_matches(ps[i as int], to, sel));
                    assert(is_first_call_policy(ps, to, sel, i as int));
                    assert forall|k: int| #[trigger] is_first_call_policy(ps, to, sel, k) implies k == i by {
                        if k > i {
                            assert(call_policy_matches(ps[i as int], to, sel));
                        }
                    }
                    return;
                }
                i += 1;
            }
        } else {
            let ghost ps = transfer_policies@;
            let mut i: usize = 0;
            while i < transfer_policies.len()
                invariant
                    0 <= i <= ps.len(),
                    ps == transfer_policies@,
                    calldata@.len() < 4,
                    state.storage() == m2,
                    m2 == nonce_and_fee_updated(
                        old(state).storage(),
                        authorizer,
                        session_hash.bytes@,
                        actual_gas_cost,
                        block_timestamp,
                        *fee_limit,
                    ),
                    forall|j: int| 0 <= j < i ==> !#[trigger] transfer_policy_matches(ps[j], to),
                decreases ps.len() - i,
            {
                let p = &transfer_policies[i];
                if p.target == to {
                    let tag: [u8; 8] = [0x74, 0x72, 0x61, 0x6e, 0x73, 0x66, 0x65, 0x72];
                    let mut context: Vec<u8> = Vec::new();
                    append_bytes(&mut context, &tag);
                    append_bytes(&mut context, &to.bytes);
                    assert(context@ =~= transfer_context(to));
                    let slot = limit_state_key(session_hash, context.as_slice(), 0);
                    update_limit(state, slot, &p.value_limit, value, block_timestamp);
                    assert(transfer_policy_matches(ps[i as int], to));
                    assert(is_first_transfer_policy(ps, to, i as int));
                    assert forall|k: int| #[trigger] is_first_transfer_policy(ps, to, k) implies k == i by {
                        if k > i {
                            assert(transfer_policy_matches(ps[i as int], to));
                        }
                    }
                    return;
                }
                i += 1;
            }
        }
    }
}

/// Updates the call limits of a policy: the value limit, then each constraint.
fn update_call_limits<S: PachiState>(
    state: &mut S,
    session_hash: &B256,
    to: Address,
    selector: &crate::word::Selector,
    policy: &CallPolicy,
    calldata: &[u8],
    value: U256,
    block_timestamp: u64,
)
    ensures
        final(state).storage() == call_limits_updated(
            old(state).storage(),
            session_hash.bytes@,
            to,
            selector.bytes@,
            *policy,
            calldata@,
            value,
            block_timestamp,
        ),
{
    let tag: [u8; 4] = [0x63, 0x61, 0x6c, 0x6c];
    let mut value_context: Vec<u8> = Vec::new();
    append_bytes(&mut value_context, &tag);
    append_bytes(&mut value_context, &to.bytes);
    append_bytes(&mut value_context, &selector.bytes);
    assert(value_context@ =~= call_context(to, selector.bytes@));
    let value_slot = limit_state_key(session_hash, value_context.as_slice(), 0);
    update_limit(state, value_slot, &policy.value_limit, value, block_timestamp);

    let ghost start = state.storage();
    let ghost cs = policy.constraints@;
    proof {
        reveal(constraints_updated);
    }
    let ctag: [u8; 15] = [0x63, 0x61, 0x6c, 0x6c, 0x5f, 0x63, 0x6f, 0x6e, 0x73, 0x74, 0x72, 0x61, 0x69, 0x6e, 0x74];
    let mut idx: usize = 0;
    while idx < policy.constraints.len()
        invariant
            0 <= idx <= cs.len(),
            cs == policy.constraints@,
            ctag@ == seq![0x63u8, 0x61, 0x6c, 0x6c, 0x5f, 0x63, 0x6f, 0x6e, 0x73, 0x74, 0x72, 0x61, 0x69, 0x6e, 0x74],
            state.storage() == constraints_updated(
                start,
                session_hash.bytes@,
                to,
                selector.bytes@,
                cs,
                calldata@,
                block_timestamp,
                idx as nat,
            ),
        decreases cs.len() - idx,
    {
        let constraint = &policy.constraints[idx];
        let idx_byte: u8 = (idx % 256) as u8;
        let mut context: Vec<u8> = Vec::new();
        append_bytes(&mut context, &ctag);
        append_bytes(&mut context, &to.bytes);
        append_bytes(&mut context, &selector.bytes);
        context.push(idx_byte);
        assert(context@ =~= constraint_context(to, selector.bytes@, idx_byte));
        let slot = limit_state_key(session_hash, context.as_slice(), 0);
        match ConstraintEngine::extract_argument(calldata, constraint.index) {
            Ok(arg) => {
                let amount = arg.to_u256();
                update_limit(state, slot, &constraint.limit, amount, block_timestamp);
            },
            Err(_) => {},
        }
        proof {
            reveal(constraints_updated);
        }
        idx += 1;
    }
    proof {
        reveal(call_limits_updated);
    }
}

/// Reads the limit state at a slot, checks `amount` against the limit, and
/// writes the resulting state back.
fn update_limit<S: PachiState>(state: &mut S, slot: U256, limit: &Limit, amount: U256, block_timestamp: u64)
    ensures
        final(state).storage() == limit_updated(old(state).storage(), slot, *limit, amount@, block_timestamp),
{
    let mut limit_state = read_limit_state(state, slot);
    let _ = LimitEngine::check_and_update(limit, &mut limit_state, amount, block_timestamp);
    proof {
        lemma_word_of(limit_state.used);
        reveal(limit_updated);
    }
    write_limit_state(state, slot, &limit_state);
}

/// Reads a limit state from two consecutive storage slots.
fn read_limit_state<S: PachiState>(state: &S, slot: U256) -> (r: LimitState)
    ensures
        r == post_limit_state(state.storage(), slot),
{
    let used = state.get_storage(session_registry_address(), slot);
    let last_window_val = state.get_storage(session_registry_address(), slot_at(&slot, 1));
    LimitState { used, last_window: last_window_val.l0 }
}

/// Writes a limit state to two consecutive storage slots.
fn write_limit_state<S: PachiState>(state: &mut S, slot: U256, limit_state: &LimitState)
    ensures
        final(state).storage() == with_limit_state(old(state).storage(), slot, *limit_state),
{
    state.set_storage(session_registry_address(), slot, limit_state.used);
    state.set_storage(session_registry_address(), slot_at(&slot, 1), U256::from_u64(limit_state.last_window));
}

/// Whether the limit slots of a session (each `limit_slot(hash, context, 0)`
/// and the slot after it) all differ from the session's nonce slot.
pub open spec fn limit_slots_clear_of_nonce(authorizer: Address, hash: Seq<u8>) -> bool {
    forall|context: Seq<u8>|
        #![trigger limit_slot(hash, context, 0)]
        limit_slot(hash, context, 0) != nonce_slot(authorizer, hash) && offset_slot(
            limit_slot(hash, context, 0),
            1,
        ) != nonce_slot(authorizer, hash)
}

/// Updating a limit state away from the nonce slot leaves the nonce as it was.
proof fn lemma_limit_update_keeps_nonce(
    m: StorageMap,
    slot: U256,
    limit: Limit,
    amount: nat,
    ts: u64,
    authorizer: Address,
    hash: Seq<u8>,
)
    requires
        slot != nonce_slot(authorizer, hash),
        offset_slot(slot, 1) != nonce_slot(authorizer, hash),
    ensures
        nonce_of(limit_updated(m, slot, limit, amount, ts), authorizer, hash) == nonce_of(m, authorizer, hash),
{
    reveal(limit_updated);
}

/// Updating constraint limit states leaves the nonce as it was.
proof fn lemma_constraints_keep_nonce(
    m: StorageMap,
    hash: Seq<u8>,
    to: Address,
    selector: Seq<u8>,
    cs: Seq<Constraint>,
    calldata: Seq<u8>,
    ts: u64,
    n: nat,
    authorizer: Address,
)
    requires
        limit_slots_clear_of_nonce(authorizer, hash),
    ensures
        nonce_of(constraints_updated(m, hash, to, selector, cs, calldata, ts, n), authorizer, hash)
            == nonce_of(m, authorizer, hash),
    decreases n,
{
    reveal(constraints_updated);
    if n > 0 {
        lemma_constraints_keep_nonce(m, hash, to, selector, cs, calldata, ts, (n - 1) as nat, authorizer);
        let before = constraints_updated(m, hash, to, selector, cs, calldata, ts, (n - 1) as nat);
        let c = cs[n - 1];
        let slot = limit_slot(hash, constraint_context(to, selector, ((n - 1) % 256) as u8), 0);
        if calldata.len() >= argument_end(c.index) {
            lemma_limit_update_keeps_nonce(
                before,
                slot,
                c.limit,
                be_value(constraint_argument(c.index, calldata)),
                ts,
                authorizer,
                hash,
            );
        }
    }
}

/// A matching call policy means there is a first one.
proof fn lemma_first_call_policy(ps: Seq<CallPolicy>, to: Address, selector: Seq<u8>, j: int) -> (i: int)
    requires
        0 <= j < ps.len(),
        call_policy_matches(ps[j], to, selector),
    ensures
        is_first_call_policy(ps, to, selector, i),
    decreases j,
{
    if exists|k: int| 0 <= k < j && #[trigger] call_policy_matches(ps[k], to, selector) {
        let k = choose|k: int| 0 <= k < j && #[trigger] call_policy_matches(ps[k], to, selector);
        lemma_first_call_policy(ps, to, selector, k)
    } else {
        j
    }
}

/// A matching transfer policy means there is a first one.
proof fn lemma_first_transfer_policy(ps: Seq<TransferPolicy>, to: Address, j: int) -> (i: int)
    requires
        0 <= j < ps.len(),
        transfer_policy_matches(ps[j], to),
    ensures
        is_first_transfer_policy(ps, to, i),
    decreases j,
{
    if exists|k: int| 0 <= k < j && #[trigger] transfer_policy_matches(ps[k], to) {
        let k = choose|k: int| 0 <= k < j && #[trigger] transfer_policy_matches(ps[k], to);
        lemma_first_transfer_policy(ps, to, k)
    } else {
        j
    }
}

/// Finalizing a session transaction raises its session nonce by exactly one
/// (modulo 2^64), whatever the gas cost, fee limit, calldata, value and
/// policies are, provided that none of the session's limit slots is its nonce
/// slot (the slots are Keccak-256 digests of different inputs).
pub proof fn lemma_finalize_increments_nonce(
    m: StorageMap,
    authorizer: Address,
    hash: Seq<u8>,
    gas_cost: U256,
    ts: u64,
    fee_limit: Limit,
    to: Address,
    calldata: Seq<u8>,
    value: U256,
    call_policies: Seq<CallPolicy>,
    transfer_policies: Seq<TransferPolicy>,
    after: StorageMap,
)
    requires
        session_finalized(
            m,
            authorizer,
            hash,
            gas_cost,
            ts,
            fee_limit,
            to,
            calldata,
            value,
            call_policies,
            transfer_policies,
            after,
        ),
        limit_slots_clear_of_nonce(authorizer, hash),
    ensures
        nonce_of(after, authorizer, hash) as nat == (nonce_of(m, authorizer, hash) as nat + 1) % limb_base(),
{
    reveal(nonce_and_fee_updated);
    let m1 = with_nonce_incremented(m, authorizer, hash);
    lemma_nonce_increment(m, authorizer, hash);
    let fee_slot = limit_slot(hash, fee_context(), 0);
    lemma_limit_update_keeps_nonce(m1, fee_slot, fee_limit, gas_cost@, ts, authorizer, hash);
    let m2 = nonce_and_fee_updated(m, authorizer, hash, gas_cost, ts, fee_limit);
    assert(nonce_of(m2, authorizer, hash) == nonce_of(m1, authorizer, hash));
    let selector = calldata.subrange(0, 4);
    if calldata.len() >= 4 {
        if exists|j: int| 0 <= j < call_policies.len() && #[trigger] call_policy_matches(call_policies[j], to, selector) {
            let j = choose|j: int| 0 <= j < call_policies.len() && #[trigger] call_policy_matches(call_policies[j], to, selector);
            let i = lemma_first_call_policy(call_policies, to, selector, j);
            let p = call_policies[i];
            reveal(call_limits_updated);
            let value_slot = limit_slot(hash, call_context(to, selector), 0);
            lemma_limit_update_keeps_nonce(m2, value_slot, p.value_limit, value@, ts, authorizer, hash);
            let after_value = limit_updated(m2, value_slot, p.value_limit, value@, ts);
            lemma_constraints_keep_nonce(
                after_value,
                hash,
                to,
                selector,
                p.constraints@,
                calldata,
                ts,
                p.constraints@.len(),
                authorizer,
            );
            assert(after == call_limits_updated(m2, hash, to, selector, p, calldata, value, ts));
        }
    } else {
        if exists|j: int| 0 <= j < transfer_policies.len() && #[trigger] transfer_policy_matches(transfer_policies[j], to) {
            let j = choose|j: int| 0 <= j < transfer_policies.len() && #[trigger] transfer_policy_matches(transfer_policies[j], to);
            let i = lemma_first_transfer_policy(transfer_policies, to, j);
            let slot = limit_slot(hash, transfer_context(to), 0);
            lemma_limit_update_keeps_nonce(m2, slot, transfer_policies[i].value_limit, value@, ts, authorizer, hash);
        }
    }
}

} // verus!
