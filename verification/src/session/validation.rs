//! Full session validation flow.
//!
//! Used during `SessionTx` execution to validate the transaction against the
//! session's policy:
//! 1. the session hash exists;
//! 2. its status is neither revoked nor expired;
//! 3. (signer verification is done by the caller);
//! 4. the nonce matches;
//! 5. (policy hash verification is done by the caller);
//! 6. the fee fits the fee limit;
//! 7. the call or transfer is allowed by a policy and fits its limits.
//!
//! Validation only reads state: limit states are checked against copies, and
//! the updates are applied after execution.

use vstd::prelude::*;

use crate::primitives::constraint::{Constraint, ConstraintEngine, constraint_error, constraint_passes};
use crate::primitives::limit::{Limit, LimitEngine, LimitState, limit_step};
use crate::primitives::policy::{CallPolicy, TransferPolicy};
use crate::session::error::SessionPrecompileError;
use crate::session::nonce::{SessionNonce, nonce_of};
use crate::session::record::SessionStatus;
use crate::session::registry::{SessionRegistry, stored_effective};
use crate::session::slots::{offset_slot, record_stored, slot_at};
use crate::session::storage_keys::{limit_slot, limit_state_key, registry_address, session_registry_address};
use crate::state::{PachiState, StorageMap, storage_read};
use crate::word::{Address, B256, Selector, U256, append_bytes, selector_from_subslice};

verus! {

/// Session validation context.
#[derive(Debug)]
pub struct SessionValidationInput<'a> {
    /// The session hash.
    pub session_hash: &'a B256,
    /// The authorizer address.
    pub authorizer: Address,
    /// Transaction nonce (session nonce).
    pub nonce: u64,
    /// Transaction target address.
    pub to: Address,
    /// Transaction calldata.
    pub calldata: &'a [u8],
    /// Transaction value (native token).
    pub value: U256,
    /// Estimated gas cost for fee limit checking.
    pub estimated_gas_cost: U256,
    /// Current block timestamp.
    pub block_timestamp: u64,
    /// Call policies from the session config.
    pub call_policies: &'a [CallPolicy],
    /// Transfer policies from the session config.
    pub transfer_policies: &'a [TransferPolicy],
    /// Fee limit from the session config.
    pub fee_limit: &'a Limit,
}

/// ASCII `fee`: the limit context of the fee limit.
pub open spec fn fee_context() -> Seq<u8> {
    seq![0x66u8, 0x65, 0x65]
}

/// The limit context of a call's value limit: ASCII `call` ‖ target ‖ selector.
pub open spec fn call_context(to: Address, selector: Seq<u8>) -> Seq<u8> {
    seq![0x63u8, 0x61, 0x6c, 0x6c] + to.bytes@ + selector
}

/// The limit context of a call's constraint `idx`:
/// ASCII `call_constraint` ‖ target ‖ selector ‖ idx.
pub open spec fn constraint_context(to: Address, selector: Seq<u8>, idx: u8) -> Seq<u8> {
    seq![0x63u8, 0x61, 0x6c, 0x6c, 0x5f, 0x63, 0x6f, 0x6e, 0x73, 0x74, 0x72, 0x61, 0x69, 0x6e, 0x74]
        + to.bytes@ + selector + seq![idx]
}

/// The limit context of a transfer's value limit: ASCII `transfer` ‖ target.
pub open spec fn transfer_context(to: Address) -> Seq<u8> {
    seq![0x74u8, 0x72, 0x61, 0x6e, 0x73, 0x66, 0x65, 0x72] + to.bytes@
}

/// The limit state stored at a slot: `used` in the slot, the last window in
/// the next one. A zero first slot reads as the fresh state, whatever the
/// second slot holds.
pub open spec fn stored_limit_state(m: StorageMap, slot: U256) -> LimitState {
    let used = storage_read(m, registry_address(), slot);
    if used@ == 0 {
        LimitState { used: U256 { l0: 0, l1: 0, l2: 0, l3: 0 }, last_window: 0 }
    } else {
        LimitState {
            used,
            last_window: storage_read(m, registry_address(), offset_slot(slot, 1)).l0,
        }
    }
}

/// The limit state of a session for a limit context (limit index 0).
pub open spec fn context_state(m: StorageMap, hash: Seq<u8>, context: Seq<u8>) -> LimitState {
    stored_limit_state(m, limit_slot(hash, context, 0))
}

/// Whether a call policy covers a target and selector.
pub open spec fn call_policy_matches(p: CallPolicy, to: Address, selector: Seq<u8>) -> bool {
    p.target.bytes@ == to.bytes@ && p.selector.bytes@ == selector
}

/// `i` is the first call policy covering a target and selector.
pub open spec fn is_first_call_policy(ps: Seq<CallPolicy>, to: Address, selector: Seq<u8>, i: int) -> bool {
    &&& 0 <= i < ps.len()
    &&& call_policy_matches(ps[i], to, selector)
    &&& forall|j: int| 0 <= j < i ==> !#[trigger] call_policy_matches(ps[j], to, selector)
}

/// Whether a transfer policy covers a recipient.
pub open spec fn transfer_policy_matches(p: TransferPolicy, to: Address) -> bool {
    p.target.bytes@ == to.bytes@
}

/// `i` is the first transfer policy covering a recipient.
pub open spec fn is_first_transfer_policy(ps: Seq<TransferPolicy>, to: Address, i: int) -> bool {
    &&& 0 <= i < ps.len()
    &&& transfer_policy_matches(ps[i], to)
    &&& forall|j: int| 0 <= j < i ==> !#[trigger] transfer_policy_matches(ps[j], to)
}

/// The limit state that constraint `i` of a call is checked against.
pub open spec fn constraint_state(m: StorageMap, input: SessionValidationInput, selector: Seq<u8>, i: int) -> LimitState {
    context_state(
        m,
        input.session_hash.bytes@,
        constraint_context(input.to, selector, (i % 256) as u8),
    )
}

/// Whether constraint `i` of a call passes.
pub open spec fn constraint_ok(
    m: StorageMap,
    input: SessionValidationInput,
    selector: Seq<u8>,
    cs: Seq<Constraint>,
    i: int,
) -> bool {
    constraint_passes(cs[i], input.calldata@, constraint_state(m, input, selector, i), input.block_timestamp)
}

/// The outcome of checking a call's constraints in order: success when all
/// pass, else the error of the first that fails.
pub open spec fn constraints_outcome(
    m: StorageMap,
    input: SessionValidationInput,
    selector: Seq<u8>,
    cs: Seq<Constraint>,
    r: Result<(), SessionPrecompileError>,
) -> bool {
    &&& (r is Ok) == (forall|i: int| 0 <= i < cs.len() ==> #[trigger] constraint_ok(m, input, selector, cs, i))
    &&& r is Err ==> exists|i: int|
        {
            &&& 0 <= i < cs.len()
            &&& !#[trigger] constraint_ok(m, input, selector, cs, i)
            &&& forall|j: int| 0 <= j < i ==> constraint_ok(m, input, selector, cs, j)
            &&& r matches Err(SessionPrecompileError::ConstraintError(e))
            &&& constraint_error(cs[i], input.calldata@, constraint_state(m, input, selector, i), input.block_timestamp, e)
        }
}

/// The outcome of checking a call against the policy that covers it: the
/// per-use cap, then the value limit, then the constraints.
#[verifier::opaque]
pub open spec fn call_policy_outcome(
    m: StorageMap,
    input: SessionValidationInput,
    selector: Seq<u8>,
    p: CallPolicy,
    r: Result<(), SessionPrecompileError>,
) -> bool {
    if input.value@ > p.max_value_per_use@ {
        r == Err::<(), SessionPrecompileError>(
            SessionPrecompileError::ValuePerUseExceeded { max: p.max_value_per_use, actual: input.value },
        )
    } else {
        let state = context_state(m, input.session_hash.bytes@, call_context(input.to, selector));
        match limit_step(p.value_limit, state, input.value@, input.block_timestamp).0 {
            Err(e) => r == Err::<(), SessionPrecompileError>(SessionPrecompileError::LimitError(e)),
            Ok(_) => constraints_outcome(m, input, selector, p.constraints@, r),
        }
    }
}

/// The outcome of validating a contract call (calldata of at least 4 bytes).
pub open spec fn call_outcome(m: StorageMap, input: SessionValidationInput, r: Result<(), SessionPrecompileError>) -> bool {
    let selector = input.calldata@.subrange(0, 4);
    let ps = input.call_policies@;
    &&& (forall|j: int| 0 <= j < ps.len() ==> !#[trigger] call_policy_matches(ps[j], input.to, selector))
        ==> (r matches Err(SessionPrecompileError::CallNotAllowed { target, selector: s })
        && target == input.to && s.bytes@ == selector)
    &&& forall|i: int| #[trigger]
        is_first_call_policy(ps, input.to, selector, i) ==> call_policy_outcome(m, input, selector, ps[i], r)
}

/// The outcome of validating a native transfer (calldata shorter than 4 bytes).
pub open spec fn transfer_outcome(m: StorageMap, input: SessionValidationInput, r: Result<(), SessionPrecompileError>) -> bool {
    let ps = input.transfer_policies@;
    &&& (forall|j: int| 0 <= j < ps.len() ==> !#[trigger] transfer_policy_matches(ps[j], input.to))
        ==> r == Err::<(), SessionPrecompileError>(SessionPrecompileError::TransferNotAllowed { target: input.to })
    &&& forall|i: int| #[trigger]
        is_first_transfer_policy(ps, input.to, i) ==> transfer_policy_outcome(m, input, ps[i], r)
}

/// The outcome of checking a transfer against the policy that covers it: the
/// per-use cap, then the value limit.
#[verifier::opaque]
pub open spec fn transfer_policy_outcome(
    m: StorageMap,
    input: SessionValidationInput,
    p: TransferPolicy,
    r: Result<(), SessionPrecompileError>,
) -> bool {
    if input.value@ > p.max_value_per_use@ {
        r == Err::<(), SessionPrecompileError>(
            SessionPrecompileError::ValuePerUseExceeded { max: p.max_value_per_use, actual: input.value },
        )
    } else {
        let state = context_state(m, input.session_hash.bytes@, transfer_context(input.to));
        match limit_step(p.value_limit, state, input.value@, input.block_timestamp).0 {
            Err(e) => r == Err::<(), SessionPrecompileError>(SessionPrecompileError::LimitError(e)),
            Ok(_) => r is Ok,
        }
    }
}

/// The outcome of validating a session transaction, step by step: existence,
/// status, nonce, fee limit, then the call or transfer policy.
#[verifier::opaque]
pub open spec fn validation_outcome(m: StorageMap, input: SessionValidationInput, r: Result<(), SessionPrecompileError>) -> bool {
    let hash = input.session_hash.bytes@;
    let ts = input.block_timestamp;
    if !record_stored(m, hash) {
        r == Err::<(), SessionPrecompileError>(SessionPrecompileError::SessionNotFound { hash: *input.session_hash })
    } else if stored_effective(m, hash, ts) == SessionStatus::Revoked {
        r == Err::<(), SessionPrecompileError>(SessionPrecompileError::SessionRevoked { hash: *input.session_hash })
    } else if stored_effective(m, hash, ts) == SessionStatus::Expired {
        r == Err::<(), SessionPrecompileError>(SessionPrecompileError::SessionExpired { hash: *input.session_hash })
    } else if nonce_of(m, input.authorizer, hash) != input.nonce {
        r == Err::<(), SessionPrecompileError>(
            SessionPrecompileError::NonceMismatch { expected: nonce_of(m, input.authorizer, hash), actual: input.nonce },
        )
    } else if limit_step(*input.fee_limit, context_state(m, hash, fee_context()), input.estimated_gas_cost@, ts).0 is Err {
        r == Err::<(), SessionPrecompileError>(SessionPrecompileError::FeeLimitExceeded)
    } else if input.calldata@.len() >= 4 {
        call_outcome(m, input, r)
    } else {
        transfer_outcome(m, input, r)
    }
}

/// Session validator implementing the validation flow.
#[derive(Debug)]
pub struct SessionValidator;

impl SessionValidator {
    /// Validates a session transaction against the session's policy.
    pub fn validate<S: PachiState>(state: &S, input: &SessionValidationInput<'_>) -> (r: Result<(), SessionPrecompileError>)
        ensures
            validation_outcome(state.storage(), *input, r),
    {
        proof {
            reveal(validation_outcome);
        }
        // Existence and status.
        let record = match SessionRegistry::get_session(state, input.session_hash) {
            Ok(rec) => rec,
            Err(e) => return Err(e),
        };
        let effective = record.effective_status(input.block_timestamp);
        match effective {
            SessionStatus::Active => {},
            SessionStatus::Revoked => {
                return Err(SessionPrecompileError::SessionRevoked { hash: *input.session_hash });
            },
            SessionStatus::Expired => {
                return Err(SessionPrecompileError::SessionExpired { hash: *input.session_hash });
            },
        }

        // Nonce.
        if !SessionNonce::check(state, input.authorizer, input.session_hash, input.nonce) {
            let expected = SessionNonce::get(state, input.authorizer, input.session_hash);
            return Err(SessionPrecompileError::NonceMismatch { expected, actual: input.nonce });
        }

        // Fee limit.
        match Self::check_fee_limit(state, input) {
            Ok(()) => {},
            Err(e) => return Err(e),
        }

        // Call or transfer.
        if input.calldata.len() >= 4 {
            Self::validate_call(state, input)
        } else {
            Self::validate_transfer(state, input)
        }
    }

    /// Checks the fee limit against the estimated gas cost.
    fn check_fee_limit<S: PachiState>(state: &S, input: &SessionValidationInput<'_>) -> (r: Result<(), SessionPrecompileError>)
        ensures
            r == if limit_step(
                *input.fee_limit,
                context_state(state.storage(), input.session_hash.bytes@, fee_context()),
                input.estimated_gas_cost@,
                input.block_timestamp,
            ).0 is Err {
                Err::<(), SessionPrecompileError>(SessionPrecompileError::FeeLimitExceeded)
            } else {
                Ok(())
            },
    {
        let context: [u8; 3] = [0x66, 0x65, 0x65];
        assert(context@ =~= fee_context());
        let slot = limit_state_key(input.session_hash, &context, 0);
        let mut limit_state = read_limit_state(state, slot);
        match LimitEngine::check_and_update(
            input.fee_limit,
            &mut limit_state,
            input.estimated_gas_cost,
            input.block_timestamp,
        ) {
            Ok(()) => Ok(()),
            Err(_) => Err(SessionPrecompileError::FeeLimitExceeded),
        }
    }

    /// Validates a contract call against the call policies.
    fn validate_call<S: PachiState>(state: &S, input: &SessionValidationInput<'_>) -> (r: Result<(), SessionPrecompileError>)
        requires
            input.calldata@.len() >= 4,
        ensures
            call_outcome(state.storage(), *input, r),
    {
        let selector = selector_from_subslice(input.calldata, 0);
        let ghost sel = input.calldata@.subrange(0, 4);
        let ghost ps = input.call_policies@;
        let mut i: usize = 0;
        while i < input.call_policies.len()
            invariant
                0 <= i <= ps.len(),
                ps == input.call_policies@,
                selector.bytes@ == sel,
                sel == input.calldata@.subrange(0, 4),
                forall|j: int| 0 <= j < i ==> !#[trigger] call_policy_matches(ps[j], input.to, sel),
            decreases ps.len() - i,
        {
            let p = &input.call_policies[i];
            if p.target == input.to && p.selector == selector {
                let r = Self::check_call_policy(state, input, &selector, p);
                assert(call_policy_matches(ps[i as int], input.to, sel));
                assert(is_first_call_policy(ps, input.to, sel, i as int));
                assert forall|k: int| #[trigger] is_first_call_policy(ps, input.to, sel, k) implies k == i by {
                    if k < i {
                    } else if k > i {
                        assert(call_policy_matches(ps[i as int], input.to, sel));
                    }
                }
                return r;
            }
            i += 1;
        }
        Err(SessionPrecompileError::CallNotAllowed { target: input.to, selector })
    }

    /// Checks a call against the call policy that covers it.
    fn check_call_policy<S: PachiState>(
        state: &S,
        input: &SessionValidationInput<'_>,
        selector: &Selector,
        policy: &CallPolicy,
    ) -> (r: Result<(), SessionPrecompileError>)
        ensures
            call_policy_outcome(state.storage(), *input, selector.bytes@, *policy, r),
    {
        proof {
            reveal(call_policy_outcome);
        }
        // Per-use value cap.
        if input.value.gt(&policy.max_value_per_use) {
            return Err(
                SessionPrecompileError::ValuePerUseExceeded {
                    max: policy.max_value_per_use,
                    actual: input.value,
                },
            );
        }

        // Value limit.
        let tag: [u8; 4] = [0x63, 0x61, 0x6c, 0x6c];
        let mut value_context: Vec<u8> = Vec::new();
        append_bytes(&mut value_context, &tag);
        append_bytes(&mut value_context, &input.to.bytes);
        append_bytes(&mut value_context, &selector.bytes);
        assert(value_context@ =~= call_context(input.to, selector.bytes@));
        let value_slot = limit_state_key(input.session_hash, value_context.as_slice(), 0);
        let mut value_limit_state = read_limit_state(state, value_slot);
        match LimitEngine::check_and_update(
            &policy.value_limit,
            &mut value_limit_state,
            input.value,
            input.block_timestamp,
        ) {
            Ok(()) => {},
            Err(e) => return Err(SessionPrecompileError::LimitError(e)),
        }

        // Constraints, in order.
        Self::check_constraints(state, input, selector, &policy.constraints)
    }

    /// Checks a call's constraints in order, stopping at the first that fails.
    fn check_constraints<S: PachiState>(
        state: &S,
        input: &SessionValidationInput<'_>,
        selector: &Selector,
        constraints: &Vec<Constraint>,
    ) -> (r: Result<(), SessionPrecompileError>)
        ensures
            constraints_outcome(state.storage(), *input, selector.bytes@, constraints@, r),
    {
        let ghost m = state.storage();
        let ghost sel = selector.bytes@;
        let ghost cs = constraints@;
        let tag: [u8; 15] = [0x63, 0x61, 0x6c, 0x6c, 0x5f, 0x63, 0x6f, 0x6e, 0x73, 0x74, 0x72, 0x61, 0x69, 0x6e, 0x74];
        let mut idx: usize = 0;
        while idx < constraints.len()
            invariant
                0 <= idx <= cs.len(),
                cs == constraints@,
                m == state.storage(),
                sel == selector.bytes@,
                tag@ == seq![0x63u8, 0x61, 0x6c, 0x6c, 0x5f, 0x63, 0x6f, 0x6e, 0x73, 0x74, 0x72, 0x61, 0x69, 0x6e, 0x74],
                forall|j: int| 0 <= j < idx ==> #[trigger] constraint_ok(m, *input, sel, cs, j),
            decreases cs.len() - idx,
        {
            let idx_byte: u8 = (idx % 256) as u8;
            let mut context: Vec<u8> = Vec::new();
            append_bytes(&mut context, &tag);
            append_bytes(&mut context, &input.to.bytes);
            append_bytes(&mut context, &selector.bytes);
            context.push(idx_byte);
            assert(context@ =~= constraint_context(input.to, sel, idx_byte));
            let slot = limit_state_key(input.session_hash, context.as_slice(), 0);
            let mut limit_state = read_limit_state(state, slot);
            assert(limit_state == constraint_state(m, *input, sel, idx as int));
            match ConstraintEngine::verify_constraint(
                &constraints[idx],
                input.calldata,
                &mut limit_state,
                input.block_timestamp,
            ) {
                Ok(()) => {},
                Err(e) => {
                    let r = Err(SessionPrecompileError::ConstraintError(e));
                    assert(!constraint_ok(m, *input, sel, cs, idx as int));
                    return r;
                },
            }
            idx += 1;
        }
        Ok(())
    }

    /// Validates a native transfer against the transfer policies.
    fn validate_transfer<S: PachiState>(state: &S, input: &SessionValidationInput<'_>) -> (r: Result<(), SessionPrecompileError>)
        ensures
            transfer_outcome(state.storage(), *input, r),
    {
        let ghost ps = input.transfer_policies@;
        let mut i: usize = 0;
        while i < input.transfer_policies.len()
            invariant
                0 <= i <= ps.len(),
                ps == input.transfer_policies@,
                forall|j: int| 0 <= j < i ==> !#[trigger] transfer_policy_matches(ps[j], input.to),
            decreases ps.len() - i,
        {
            let p = &input.transfer_policies[i];
            if p.target == input.to {
                let r = Self::check_transfer_policy(state, input, p);
                assert(transfer_policy_matches(ps[i as int], input.to));
                assert(is_first_transfer_policy(ps, input.to, i as int));
                assert forall|k: int| #[trigger] is_first_transfer_policy(ps, input.to, k) implies k == i by {
                    if k > i {
                        assert(transfer_policy_matches(ps[i as int], input.to));
                    }
                }
                return r;
            }
            i += 1;
        }
        Err(SessionPrecompileError::TransferNotAllowed { target: input.to })
    }

    /// Checks a transfer against the transfer policy that covers it.
    fn check_transfer_policy<S: PachiState>(
        state: &S,
        input: &SessionValidationInput<'_>,
        policy: &TransferPolicy,
    ) -> (r: Result<(), SessionPrecompileError>)
        ensures
            transfer_policy_outcome(state.storage(), *input, *policy, r),
    {
        proof {
            reveal(transfer_policy_outcome);
        }
        if input.value.gt(&policy.max_value_per_use) {
            return Err(
                SessionPrecompileError::ValuePerUseExceeded {
                    max: policy.max_value_per_use,
                    actual: input.value,
                },
            );
        }
        let tag: [u8; 8] = [0x74, 0x72, 0x61, 0x6e, 0x73, 0x66, 0x65, 0x72];
        let mut context: Vec<u8> = Vec::new();
        append_bytes(&mut context, &tag);
        append_bytes(&mut context, &input.to.bytes);
        assert(context@ =~= transfer_context(input.to));
        let slot = limit_state_key(input.session_hash, context.as_slice(), 0);
        let mut limit_state = read_limit_state(state, slot);
        match LimitEngine::check_and_update(
            &policy.value_limit,
            &mut limit_state,
            input.value,
            input.block_timestamp,
        ) {
            Ok(()) => Ok(()),
            Err(e) => Err(SessionPrecompileError::LimitError(e)),
        }
    }
}

/// Reads a limit state from storage.
fn read_limit_state<S: PachiState>(state: &S, slot: U256) -> (r: LimitState)
    ensures
        r == stored_limit_state(state.storage(), slot),
{
    let addr = session_registry_address();
    let packed = state.get_storage(addr, slot);
    if packed.is_zero() {
        return LimitState { used: U256 { l0: 0, l1: 0, l2: 0, l3: 0 }, last_window: 0 };
    }
    let used = state.get_storage(addr, slot);
    let last_window_val = state.get_storage(addr, slot_at(&slot, 1));
    LimitState { used, last_window: last_window_val.l0 }
}

} // verus!
