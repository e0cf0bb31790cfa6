//! `SponsorHub` precompile dispatch (0x0801): decoding of calls and the
//! checks made before the sponsor state machine is entered.
//!
//! The sponsor state machine itself (policies, balances, governance) lives
//! outside this library; [`sponsor_dispatch_plan`] decides, from the raw call,
//! whether the call reverts, runs out of gas, or which sponsor operation runs
//! with which decoded arguments and gas charge.
//!
//! Selectors (first four bytes of the Keccak-256 of the signature):
//! `registerPolicy(bytes)` `0xa2ea1376`, `deactivatePolicy()` `0x8634f7a8`,
//! `deposit()` `0xd0e30db0`, `withdraw(uint256)` `0x2e1a7d4d`,
//! `getBalance(address)` `0xf8b2cb4f`, `isActive(address)` `0x9f8a13d7`,
//! `getValidUntil(address)` `0x7beec939`, `getSponsorType(address)` `0xe498e7fd`,
//! `getPolicy(address)` `0x3791dc6a`, `canSponsor(address,address,address,bytes4)`
//! `0xfc5c31a0`, `owner()` `0x8da5cb5b`, `approveMint(address)` `0x0e801ee1`,
//! `revokeMint(address)` `0x3935bac6`, `transferOwnership(address)` `0xf2fde38b`.

use vstd::prelude::*;
use vstd::string::StringSliceAdditionalSpecFns;

use crate::evm::abi::{be32, push_address_word, push_u64_word, push_word};
use crate::evm::events::{
    address_topic_bytes,
    deposited_log,
    log_is,
    mint_approved_log,
    mint_revoked_log,
    ownership_transferred_log,
    policy_deactivated_log,
    policy_registered_log,
    withdrawn_log,
};
use crate::evm::outcome::{LogRecord, PrecompileOutcome, RevertReason, reverted_with};
use crate::hash::keccak256_spec;
use crate::word::{
    Address,
    Selector,
    U256,
    address_from_subslice,
    address_word_bytes,
    b256_from_subslice,
    be_value,
    selector_from_subslice,
};

verus! {

/// The gas charged by each kind of `SponsorHub` call.
#[derive(Debug, Clone, Copy)]
pub struct SponsorGasSchedule {
    /// `registerPolicy`.
    pub register: u64,
    /// `deactivatePolicy`.
    pub deactivate: u64,
    /// `deposit`.
    pub deposit: u64,
    /// `withdraw`.
    pub withdraw: u64,
    /// `approveMint`, `revokeMint`.
    pub mint_toggle: u64,
    /// `transferOwnership`.
    pub transfer_ownership: u64,
    /// The views: `getBalance`, `isActive`, `getValidUntil`, `getSponsorType`,
    /// `getPolicy`, `owner`.
    pub view: u64,
    /// `canSponsor`.
    pub can_sponsor: u64,
}

/// A decoded `SponsorHub` operation with its arguments.
#[derive(Debug, Clone, Copy)]
pub enum SponsorCall {
    /// Register the caller's policy from the RLP-encoded config (the call arguments).
    RegisterPolicy,
    /// Deactivate the caller's policy.
    DeactivatePolicy,
    /// Deposit the call value to the caller's balance.
    Deposit,
    /// Withdraw from the caller's balance.
    Withdraw {
        /// Amount to withdraw.
        amount: U256,
    },
    /// Approve a sponsor for mint mode (owner only).
    ApproveMint {
        /// The sponsor.
        sponsor: Address,
    },
    /// Revoke a sponsor's mint approval (owner only).
    RevokeMint {
        /// The sponsor.
        sponsor: Address,
    },
    /// Transfer the hub's ownership (owner only).
    TransferOwnership {
        /// The new owner.
        new_owner: Address,
    },
    /// The balance of a sponsor.
    GetBalance {
        /// The sponsor.
        sponsor: Address,
    },
    /// Whether a sponsor is active.
    IsActive {
        /// The sponsor.
        sponsor: Address,
    },
    /// The expiry of a sponsor's policy.
    GetValidUntil {
        /// The sponsor.
        sponsor: Address,
    },
    /// The type of a sponsor.
    GetSponsorType {
        /// The sponsor.
        sponsor: Address,
    },
    /// The RLP-encoded policy of a sponsor.
    GetPolicy {
        /// The sponsor.
        sponsor: Address,
    },
    /// Whether a sponsor would sponsor a call.
    CanSponsor {
        /// The sponsor.
        sponsor: Address,
        /// The transaction sender.
        sender: Address,
        /// The call target.
        to: Address,
        /// The function selector.
        selector: Selector,
    },
    /// The hub's owner.
    Owner,
}

/// What a `SponsorHub` call does.
#[derive(Debug, Clone, Copy)]
pub enum SponsorPlan {
    /// The call reverts with a fixed message.
    Reverted {
        /// Gas charged.
        gas_used: u64,
        /// The revert message.
        message: &'static str,
    },
    /// The gas limit is below the call's cost.
    OutOfGas,
    /// The sponsor operation runs, charged `gas_used`.
    Run {
        /// Gas charged.
        gas_used: u64,
        /// The operation.
        call: SponsorCall,
    },
}

/// The 4-byte selectors, in the order of [`selector_index`].
pub open spec fn sponsor_selectors() -> Seq<Seq<u8>> {
    seq![
        seq![0xa2u8, 0xea, 0x13, 0x76],
        seq![0x86u8, 0x34, 0xf7, 0xa8],
        seq![0xd0u8, 0xe3, 0x0d, 0xb0],
        seq![0x2eu8, 0x1a, 0x7d, 0x4d],
        seq![0x0eu8, 0x80, 0x1e, 0xe1],
        seq![0x39u8, 0x35, 0xba, 0xc6],
        seq![0xf2u8, 0xfd, 0xe3, 0x8b],
        seq![0xf8u8, 0xb2, 0xcb, 0x4f],
        seq![0x9fu8, 0x8a, 0x13, 0xd7],
        seq![0x7bu8, 0xee, 0xc9, 0x39],
        seq![0xe4u8, 0x98, 0xe7, 0xfd],
        seq![0x37u8, 0x91, 0xdc, 0x6a],
        seq![0xfcu8, 0x5c, 0x31, 0xa0],
        seq![0x8du8, 0xa5, 0xcb, 0x5b],
    ]
}

/// Whether a plan reverts with a message and gas charge.
pub open spec fn plan_reverts(p: SponsorPlan, gas: u64, message: &str) -> bool {
    p matches SponsorPlan::Reverted { gas_used, message: m } && gas_used == gas && m@ == message@
}

/// The address held in an argument word starting at `start`.
pub open spec fn arg_address(args: Seq<u8>, start: int) -> Seq<u8> {
    args.subrange(start + 12, start + 32)
}

/// The plan of a state-modifying call: static calls revert, then the gas
/// check, then the arguments.
pub open spec fn modifying_plan(p: SponsorPlan, is_static: bool, gas: u64, cost: u64, args_ok: bool, short_message: &str, run: bool) -> bool {
    if is_static {
        plan_reverts(p, cost, "state-modifying call in static context")
    } else if gas < cost {
        p is OutOfGas
    } else if !args_ok {
        plan_reverts(p, cost, short_message)
    } else {
        run
    }
}

/// The plan of a view taking one address: the gas check, then the argument.
pub open spec fn view_plan(p: SponsorPlan, gas: u64, cost: u64, args: Seq<u8>, run: bool) -> bool {
    if gas < cost {
        p is OutOfGas
    } else if args.len() < 32 {
        plan_reverts(p, cost, "input too short")
    } else {
        run
    }
}

/// The plan of a `SponsorHub` call.
pub open spec fn sponsor_plan_spec(data: Seq<u8>, gas: u64, is_static: bool, g: SponsorGasSchedule, p: SponsorPlan) -> bool {
    let sel = data.subrange(0, 4);
    let args = data.subrange(4, data.len() as int);
    let ss = sponsor_selectors();
    if data.len() < 4 {
        plan_reverts(p, 0, "input too short")
    } else if sel == ss[0] {
        modifying_plan(p, is_static, gas, g.register, args.len() > 0, "empty config",
            p matches SponsorPlan::Run { gas_used, call: SponsorCall::RegisterPolicy } && gas_used == g.register)
    } else if sel == ss[1] {
        modifying_plan(p, is_static, gas, g.deactivate, true, "",
            p matches SponsorPlan::Run { gas_used, call: SponsorCall::DeactivatePolicy } && gas_used == g.deactivate)
    } else if sel == ss[2] {
        modifying_plan(p, is_static, gas, g.deposit, true, "",
            p matches SponsorPlan::Run { gas_used, call: SponsorCall::Deposit } && gas_used == g.deposit)
    } else if sel == ss[3] {
        modifying_plan(p, is_static, gas, g.withdraw, args.len() >= 32, "input too short for withdraw",
            p matches SponsorPlan::Run { gas_used, call: SponsorCall::Withdraw { amount } } && gas_used == g.withdraw
                && amount@ == be_value(args.subrange(0, 32)))
    } else if sel == ss[4] || sel == ss[5] || sel == ss[6] {
        let cost = if sel == ss[6] { g.transfer_ownership } else { g.mint_toggle };
        modifying_plan(p, is_static, gas, cost, args.len() >= 32, "input too short",
            p matches SponsorPlan::Run { gas_used, call } && gas_used == cost && call_address(call, if sel == ss[4] { 4 } else if sel == ss[5] { 5 } else { 6 }) == Some(arg_address(args, 0)))
    } else if sel == ss[7] || sel == ss[8] || sel == ss[9] || sel == ss[10] || sel == ss[11] {
        let k: int = if sel == ss[7] { 7 } else if sel == ss[8] { 8 } else if sel == ss[9] { 9 } else if sel == ss[10] { 10 } else { 11 };
        view_plan(p, gas, g.view, args,
            p matches SponsorPlan::Run { gas_used, call } && gas_used == g.view && call_address(call, k) == Some(arg_address(args, 0)))
    } else if sel == ss[12] {
        if gas < g.can_sponsor {
            p is OutOfGas
        } else if args.len() < 128 {
            plan_reverts(p, g.can_sponsor, "input too short for canSponsor")
        } else {
            &&& p matches SponsorPlan::Run { gas_used, call: SponsorCall::CanSponsor { sponsor, sender, to, selector } }
            &&& gas_used == g.can_sponsor
            &&& sponsor.bytes@ == arg_address(args, 0)
            &&& sender.bytes@ == arg_address(args, 32)
            &&& to.bytes@ == arg_address(args, 64)
            &&& selector.bytes@ == args.subrange(124, 128)
        }
    } else if sel == ss[13] {
        if gas < g.view {
            p is OutOfGas
        } else {
            p matches SponsorPlan::Run { gas_used, call: SponsorCall::Owner } && gas_used == g.view
        }
    } else {
        plan_reverts(p, 0, "unknown selector")
    }
}

/// The address argument of an operation of kind `k` (the index of its
/// selector), if it is that kind.
pub open spec fn call_address(c: SponsorCall, k: int) -> Option<Seq<u8>> {
    match c {
        SponsorCall::ApproveMint { sponsor } => if k == 4 { Some(sponsor.bytes@) } else { None },
        SponsorCall::RevokeMint { sponsor } => if k == 5 { Some(sponsor.bytes@) } else { None },
        SponsorCall::TransferOwnership { new_owner } => if k == 6 { Some(new_owner.bytes@) } else { None },
        SponsorCall::GetBalance { sponsor } => if k == 7 { Some(sponsor.bytes@) } else { None },
        SponsorCall::IsActive { sponsor } => if k == 8 { Some(sponsor.bytes@) } else { None },
        SponsorCall::GetValidUntil { sponsor } => if k == 9 { Some(sponsor.bytes@) } else { None },
        SponsorCall::GetSponsorType { sponsor } => if k == 10 { Some(sponsor.bytes@) } else { None },
        SponsorCall::GetPolicy { sponsor } => if k == 11 { Some(sponsor.bytes@) } else { None },
        _ => None,
    }
}

/// The index of a selector among [`sponsor_selectors`], or 14 when unknown.
fn selector_index(data: &[u8]) -> (r: usize)
    requires
        data@.len() >= 4,
    ensures
        r <= 14,
        r < 14 ==> data@.subrange(0, 4) == sponsor_selectors()[r as int],
        r == 14 ==> forall|k: int| 0 <= k < 14 ==> data@.subrange(0, 4) != #[trigger] sponsor_selectors()[k],
{
    let table: [[u8; 4]; 14] = [
        [0xa2, 0xea, 0x13, 0x76],
        [0x86, 0x34, 0xf7, 0xa8],
        [0xd0, 0xe3, 0x0d, 0xb0],
        [0x2e, 0x1a, 0x7d, 0x4d],
        [0x0e, 0x80, 0x1e, 0xe1],
        [0x39, 0x35, 0xba, 0xc6],
        [0xf2, 0xfd, 0xe3, 0x8b],
        [0xf8, 0xb2, 0xcb, 0x4f],
        [0x9f, 0x8a, 0x13, 0xd7],
        [0x7b, 0xee, 0xc9, 0x39],
        [0xe4, 0x98, 0xe7, 0xfd],
        [0x37, 0x91, 0xdc, 0x6a],
        [0xfc, 0x5c, 0x31, 0xa0],
        [0x8d, 0xa5, 0xcb, 0x5b],
    ];
    assert forall|k: int| 0 <= k < 14 implies #[trigger] table@[k]@ == sponsor_selectors()[k] by {
        assert(table@[k]@ =~= sponsor_selectors()[k]);
    }
    let ghost head = data@.subrange(0, 4);
    let mut i: usize = 0;
    while i < 14
        invariant
            0 <= i <= 14,
            head == data@.subrange(0, 4),
            data@.len() >= 4,
            forall|k: int| 0 <= k < 14 ==> #[trigger] table@[k]@ == sponsor_selectors()[k],
            forall|k: int| 0 <= k < i ==> head != #[trigger] sponsor_selectors()[k],
        decreases 14 - i,
    {
        let s = table[i];
        if data[0] == s[0] && data[1] == s[1] && data[2] == s[2] && data[3] == s[3] {
            assert(head =~= s@);
            return i;
        }
        proof {
            if head == sponsor_selectors()[i as int] {
                assert(head[0] == s@[0]);
                assert(head[1] == s@[1]);
                assert(head[2] == s@[2]);
                assert(head[3] == s@[3]);
            }
        }
        i += 1;
    }
    14
}

/// Decides what a `SponsorHub` call does: the checks on the call (length,
/// static context, gas, argument lengths), and the operation to run with
/// its decoded arguments.
pub fn sponsor_dispatch_plan(data: &[u8], gas: u64, is_static: bool, schedule: &SponsorGasSchedule) -> (r: SponsorPlan)
    ensures
        sponsor_plan_spec(data@, gas, is_static, *schedule, r),
{
    if data.len() < 4 {
        return SponsorPlan::Reverted { gas_used: 0, message: "input too short" };
    }
    let args = vstd::slice::slice_subrange(data, 4, data.len());
    let k = selector_index(data);
    let ghost ss = sponsor_selectors();
    proof {
        assert(ss[0] != ss[1] && ss[0] != ss[2] && ss[0] != ss[3]);
        assert forall|a: int, b: int| 0 <= a < 14 && 0 <= b < 14 && a != b implies ss[a] != ss[b] by {
            assert(ss[a][0] != ss[b][0] || ss[a][1] != ss[b][1]);
        }
    }
    let g = schedule;
    let run_modifying = k <= 6;
    if run_modifying {
        let cost = if k == 0 {
            g.register
        } else if k == 1 {
            g.deactivate
        } else if k == 2 {
            g.deposit
        } else if k == 3 {
            g.withdraw
        } else if k == 6 {
            g.transfer_ownership
        } else {
            g.mint_toggle
        };
        if is_static {
            return SponsorPlan::Reverted { gas_used: cost, message: "state-modifying call in static context" };
        }
        if gas < cost {
            return SponsorPlan::OutOfGas;
        }
        if k == 0 {
            if args.len() == 0 {
                return SponsorPlan::Reverted { gas_used: cost, message: "empty config" };
            }
            return SponsorPlan::Run { gas_used: cost, call: SponsorCall::RegisterPolicy };
        } else if k == 1 {
            return SponsorPlan::Run { gas_used: cost, call: SponsorCall::DeactivatePolicy };
        } else if k == 2 {
            return SponsorPlan::Run { gas_used: cost, call: SponsorCall::Deposit };
        } else if k == 3 {
            if args.len() < 32 {
                return SponsorPlan::Reverted { gas_used: cost, message: "input too short for withdraw" };
            }
            let amount = b256_from_subslice(args, 0).to_u256();
            return SponsorPlan::Run { gas_used: cost, call: SponsorCall::Withdraw { amount } };
        } else {
            if args.len() < 32 {
                return SponsorPlan::Reverted { gas_used: cost, message: "input too short" };
            }
            let a = address_from_subslice(args, 12);
            let call = if k == 4 {
                SponsorCall::ApproveMint { sponsor: a }
            } else if k == 5 {
                SponsorCall::RevokeMint { sponsor: a }
            } else {
                SponsorCall::TransferOwnership { new_owner: a }
            };
            return SponsorPlan::Run { gas_used: cost, call };
        }
    }
    if k <= 11 {
        if gas < g.view {
            return SponsorPlan::OutOfGas;
        }
        if args.len() < 32 {
            return SponsorPlan::Reverted { gas_used: g.view, message: "input too short" };
        }
        let a = address_from_subslice(args, 12);
        let call = if k == 7 {
            SponsorCall::GetBalance { sponsor: a }
        } else if k == 8 {
            SponsorCall::IsActive { sponsor: a }
        } else if k == 9 {
            SponsorCall::GetValidUntil { sponsor: a }
        } else if k == 10 {
            SponsorCall::GetSponsorType { sponsor: a }
        } else {
            SponsorCall::GetPolicy { sponsor: a }
        };
        return SponsorPlan::Run { gas_used: g.view, call };
    }
    if k == 12 {
        if gas < g.can_sponsor {
            return SponsorPlan::OutOfGas;
        }
        if args.len() < 128 {
            return SponsorPlan::Reverted { gas_used: g.can_sponsor, message: "input too short for canSponsor" };
        }
        let sponsor = address_from_subslice(args, 12);
        let sender = address_from_subslice(args, 44);
        let to = address_from_subslice(args, 76);
        let selector = selector_from_subslice(args, 124);
        return SponsorPlan::Run {
            gas_used: g.can_sponsor,
            call: SponsorCall::CanSponsor { sponsor, sender, to, selector },
        };
    }
    if k == 13 {
        if gas < g.view {
            return SponsorPlan::OutOfGas;
        }
        return SponsorPlan::Run { gas_used: g.view, call: SponsorCall::Owner };
    }
    SponsorPlan::Reverted { gas_used: 0, message: "unknown selector" }
}

/// The output word of `getSponsorType`: the type's number, or 255 when the
/// sponsor has no type.
pub fn sponsor_type_output(sponsor_type: Option<u8>) -> (r: Vec<u8>)
    ensures
        r@ == be32(
            match sponsor_type {
                Some(t) => t as nat,
                None => 255,
            },
        ),
{
    let v: u8 = match sponsor_type {
        Some(t) => t,
        None => 255,
    };
    let mut out: Vec<u8> = Vec::new();
    crate::evm::abi::push_u64_word(&mut out, v as u64);
    out
}

/// What the sponsor state machine answered for an operation that ran.
#[derive(Debug, Clone)]
pub enum SponsorReply {
    /// A state-modifying operation failed; the error's message.
    Failed(String),
    /// `registerPolicy` succeeded; the policy's expiry.
    Registered {
        /// The policy's `valid_until`.
        valid_until: u64,
    },
    /// `deactivatePolicy`, `approveMint`, `revokeMint` or `transferOwnership` succeeded.
    Done,
    /// `deposit` or `withdraw` succeeded; the caller's balance afterwards.
    BalanceAfter(U256),
    /// `getBalance`.
    Balance(U256),
    /// `isActive` or `canSponsor`.
    Flag(bool),
    /// `getValidUntil`.
    ValidUntil(u64),
    /// `getSponsorType`: the type's number, if the sponsor has a type.
    SponsorType(Option<u8>),
    /// `getPolicy`: the RLP encoding of the policy, if one is registered.
    Policy(Option<Vec<u8>>),
    /// `owner`.
    Owner(Address),
}

/// Whether a reply is of the kind the operation gives.
pub open spec fn reply_fits(call: SponsorCall, reply: SponsorReply) -> bool {
    match call {
        SponsorCall::RegisterPolicy => reply is Failed || reply is Registered,
        SponsorCall::Deposit => reply is Failed || reply is BalanceAfter,
        SponsorCall::Withdraw { .. } => reply is Failed || reply is BalanceAfter,
        SponsorCall::DeactivatePolicy => reply is Failed || reply is Done,
        SponsorCall::ApproveMint { .. } => reply is Failed || reply is Done,
        SponsorCall::RevokeMint { .. } => reply is Failed || reply is Done,
        SponsorCall::TransferOwnership { .. } => reply is Failed || reply is Done,
        SponsorCall::GetBalance { .. } => reply is Balance,
        SponsorCall::IsActive { .. } => reply is Flag,
        SponsorCall::CanSponsor { .. } => reply is Flag,
        SponsorCall::GetValidUntil { .. } => reply is ValidUntil,
        SponsorCall::GetSponsorType { .. } => reply is SponsorType,
        SponsorCall::GetPolicy { .. } => reply is Policy,
        SponsorCall::Owner => reply is Owner,
    }
}

/// The topic of an event signature.
pub open spec fn event_topic(signature: &str) -> Seq<u8> {
    keccak256_spec(signature.spec_bytes())
}

/// The event a successful operation emits, as topics and data.
pub open spec fn sponsor_event(caller: Address, value: U256, call: SponsorCall, reply: SponsorReply) -> Option<
    (Seq<Seq<u8>>, Seq<u8>),
> {
    match (call, reply) {
        (SponsorCall::RegisterPolicy, SponsorReply::Registered { valid_until }) => Some(
            (
                seq![event_topic("PolicyRegistered(address,uint8,uint64)"), address_topic_bytes(caller)],
                be32(0) + be32(valid_until as nat),
            ),
        ),
        (SponsorCall::DeactivatePolicy, SponsorReply::Done) => Some(
            (seq![event_topic("PolicyDeactivated(address)"), address_topic_bytes(caller)], Seq::empty()),
        ),
        (SponsorCall::Deposit, SponsorReply::BalanceAfter(nb)) => Some(
            (
                seq![event_topic("Deposited(address,uint256,uint256)"), address_topic_bytes(caller)],
                be32(value@) + be32(nb@),
            ),
        ),
        (SponsorCall::Withdraw { amount }, SponsorReply::BalanceAfter(nb)) => Some(
            (
                seq![event_topic("Withdrawn(address,uint256,uint256)"), address_topic_bytes(caller)],
                be32(amount@) + be32(nb@),
            ),
        ),
        (SponsorCall::ApproveMint { sponsor }, SponsorReply::Done) => Some(
            (
                seq![
                    event_topic("MintApproved(address,address)"),
                    address_topic_bytes(sponsor),
                    address_topic_bytes(caller),
                ],
                Seq::empty(),
            ),
        ),
        (SponsorCall::RevokeMint { sponsor }, SponsorReply::Done) => Some(
            (
                seq![
                    event_topic("MintRevoked(address,address)"),
                    address_topic_bytes(sponsor),
                    address_topic_bytes(caller),
                ],
                Seq::empty(),
            ),
        ),
        (SponsorCall::TransferOwnership { new_owner }, SponsorReply::Done) => Some(
            (
                seq![
                    event_topic("OwnershipTransferred(address,address)"),
                    address_topic_bytes(caller),
                    address_topic_bytes(new_owner),
                ],
                Seq::empty(),
            ),
        ),
        _ => None,
    }
}

/// The returned data of a successful operation.
pub open spec fn reply_output(reply: SponsorReply) -> Seq<u8> {
    match reply {
        SponsorReply::Balance(b) => be32(b@),
        SponsorReply::Flag(f) => be32(if f { 1 } else { 0 }),
        SponsorReply::ValidUntil(t) => be32(t as nat),
        SponsorReply::SponsorType(o) => be32(
            match o {
                Some(t) => t as nat,
                None => 255,
            },
        ),
        SponsorReply::Policy(Some(rlp)) => rlp@,
        SponsorReply::Owner(a) => address_word_bytes(a.bytes@),
        _ => Seq::empty(),
    }
}

/// What the precompile answers once the operation has run: a failure reverts
/// with its message and a missing policy with `no policy registered`, both
/// charged `gas`; otherwise the call succeeds with the reply's data and the
/// operation's event, emitted by `hub`.
pub open spec fn sponsor_result(
    hub: Address,
    caller: Address,
    value: U256,
    gas: u64,
    call: SponsorCall,
    reply: SponsorReply,
    r: PrecompileOutcome,
) -> bool {
    match reply {
        SponsorReply::Failed(m) => r matches PrecompileOutcome::Reverted {
            gas_used,
            reason: RevertReason::Text(t),
        } && gas_used == gas && t@ == m@,
        SponsorReply::Policy(None) => reverted_with(r, gas, "no policy registered"),
        _ => r matches PrecompileOutcome::Success { gas_used, output, logs } && gas_used == gas
            && output@ == reply_output(reply) && match sponsor_event(caller, value, call, reply) {
            None => logs@.len() == 0,
            Some(ev) => logs@.len() == 1 && log_is(logs@[0], hub, ev.0, ev.1),
        },
    }
}

/// Composes the precompile's answer once the sponsor operation `call`
/// (charged `gas_used`) has run and the state machine has replied.
pub fn sponsor_outcome(
    hub: Address,
    caller: Address,
    value: U256,
    gas_used: u64,
    call: SponsorCall,
    reply: SponsorReply,
) -> (r: PrecompileOutcome)
    requires
        reply_fits(call, reply),
    ensures
        sponsor_result(hub, caller, value, gas_used, call, reply, r),
{
    let mut output: Vec<u8> = Vec::new();
    let mut logs: Vec<LogRecord> = Vec::new();
    match reply {
        SponsorReply::Failed(m) => {
            return PrecompileOutcome::Reverted { gas_used, reason: RevertReason::Text(m) };
        },
        SponsorReply::Policy(None) => {
            return PrecompileOutcome::Reverted {
                gas_used,
                reason: RevertReason::Message("no policy registered"),
            };
        },
        SponsorReply::Policy(Some(rlp)) => {
            output = rlp;
        },
        SponsorReply::Balance(b) => {
            push_word(&mut output, &b);
        },
        SponsorReply::Flag(f) => {
            push_u64_word(&mut output, if f { 1 } else { 0 });
        },
        SponsorReply::ValidUntil(t) => {
            push_u64_word(&mut output, t);
        },
        SponsorReply::SponsorType(o) => {
            output = sponsor_type_output(o);
        },
        SponsorReply::Owner(a) => {
            push_address_word(&mut output, &a);
        },
        SponsorReply::Registered { valid_until } => {
            logs.push(policy_registered_log(hub, caller, 0, valid_until));
        },
        SponsorReply::BalanceAfter(nb) => {
            match call {
                SponsorCall::Withdraw { amount } => {
                    logs.push(withdrawn_log(hub, caller, amount, nb));
                },
                _ => {
                    logs.push(deposited_log(hub, caller, value, nb));
                },
            }
        },
        SponsorReply::Done => {
            match call {
                SponsorCall::DeactivatePolicy => {
                    logs.push(policy_deactivated_log(hub, caller));
                },
                SponsorCall::ApproveMint { sponsor } => {
                    logs.push(mint_approved_log(hub, sponsor, caller));
                },
                SponsorCall::RevokeMint { sponsor } => {
                    logs.push(mint_revoked_log(hub, sponsor, caller));
                },
                _ => {
                    match call {
                        SponsorCall::TransferOwnership { new_owner } => {
                            logs.push(ownership_transferred_log(hub, caller, new_owner));
                        },
                        _ => {},
                    }
                },
            }
        },
    }
    PrecompileOutcome::Success { gas_used, output, logs }
}

/// Whether `data` is a call of a function: its first four bytes are
/// `selector` and it holds `words` full argument words after them.
pub open spec fn call_of(data: Seq<u8>, selector: Seq<u8>, words: nat) -> bool {
    data.len() >= 4 + 32 * words && data.subrange(0, 4) == selector
}

/// The address in argument word `k` of a call (its low twenty bytes).
pub open spec fn address_arg(data: Seq<u8>, k: int) -> Seq<u8> {
    data.subrange(4 + 32 * k + 12, 4 + 32 * k + 32)
}

/// Which operation each `SponsorHub` function runs, with which argument, when
/// the call is well formed, has the gas, and (for the state-modifying ones) is
/// not static: the selector of each signature picks exactly its operation.
pub proof fn lemma_sponsor_operations(data: Seq<u8>, gas: u64, is_static: bool, g: SponsorGasSchedule, p: SponsorPlan)
    requires
        sponsor_plan_spec(data, gas, is_static, g, p),
    ensures
        // registerPolicy(bytes)
        call_of(data, seq![0xa2u8, 0xea, 0x13, 0x76], 0) && data.len() > 4 && !is_static && gas >= g.register
            ==> (p matches SponsorPlan::Run { gas_used, call: SponsorCall::RegisterPolicy } && gas_used == g.register),
        // deactivatePolicy()
        call_of(data, seq![0x86u8, 0x34, 0xf7, 0xa8], 0) && !is_static && gas >= g.deactivate
            ==> (p matches SponsorPlan::Run { gas_used, call: SponsorCall::DeactivatePolicy } && gas_used == g.deactivate),
        // deposit()
        call_of(data, seq![0xd0u8, 0xe3, 0x0d, 0xb0], 0) && !is_static && gas >= g.deposit
            ==> (p matches SponsorPlan::Run { gas_used, call: SponsorCall::Deposit } && gas_used == g.deposit),
        // withdraw(uint256)
        call_of(data, seq![0x2eu8, 0x1a, 0x7d, 0x4d], 1) && !is_static && gas >= g.withdraw
            ==> (p matches SponsorPlan::Run { gas_used, call: SponsorCall::Withdraw { amount } } && gas_used == g.withdraw
                && amount@ == be_value(data.subrange(4, 36))),
        // approveMint(address)
        call_of(data, seq![0x0eu8, 0x80, 0x1e, 0xe1], 1) && !is_static && gas >= g.mint_toggle
            ==> (p matches SponsorPlan::Run { gas_used, call: SponsorCall::ApproveMint { sponsor } } && gas_used
                == g.mint_toggle && sponsor.bytes@ == address_arg(data, 0)),
        // revokeMint(address)
        call_of(data, seq![0x39u8, 0x35, 0xba, 0xc6], 1) && !is_static && gas >= g.mint_toggle
            ==> (p matches SponsorPlan::Run { gas_used, call: SponsorCall::RevokeMint { sponsor } } && gas_used
                == g.mint_toggle && sponsor.bytes@ == address_arg(data, 0)),
        // transferOwnership(address)
        call_of(data, seq![0xf2u8, 0xfd, 0xe3, 0x8b], 1) && !is_static && gas >= g.transfer_ownership
            ==> (p matches SponsorPlan::Run { gas_used, call: SponsorCall::TransferOwnership { new_owner } }
                && gas_used == g.transfer_ownership && new_owner.bytes@ == address_arg(data, 0)),
        // getBalance(address)
        call_of(data, seq![0xf8u8, 0xb2, 0xcb, 0x4f], 1) && gas >= g.view
            ==> (p matches SponsorPlan::Run { gas_used, call: SponsorCall::GetBalance { sponsor } } && gas_used == g.view
                && sponsor.bytes@ == address_arg(data, 0)),
        // isActive(address)
        call_of(data, seq![0x9fu8, 0x8a, 0x13, 0xd7], 1) && gas >= g.view
            ==> (p matches SponsorPlan::Run { gas_used, call: SponsorCall::IsActive { sponsor } } && gas_used == g.view
                && sponsor.bytes@ == address_arg(data, 0)),
        // getValidUntil(address)
        call_of(data, seq![0x7bu8, 0xee, 0xc9, 0x39], 1) && gas >= g.view
            ==> (p matches SponsorPlan::Run { gas_used, call: SponsorCall::GetValidUntil { sponsor } } && gas_used
                == g.view && sponsor.bytes@ == address_arg(data, 0)),
        // getSponsorType(address)
        call_of(data, seq![0xe4u8, 0x98, 0xe7, 0xfd], 1) && gas >= g.view
            ==> (p matches SponsorPlan::Run { gas_used, call: SponsorCall::GetSponsorType { sponsor } } && gas_used
                == g.view && sponsor.bytes@ == address_arg(data, 0)),
        // getPolicy(address)
        call_of(data, seq![0x37u8, 0x91, 0xdc, 0x6a], 1) && gas >= g.view
            ==> (p matches SponsorPlan::Run { gas_used, call: SponsorCall::GetPolicy { sponsor } } && gas_used == g.view
                && sponsor.bytes@ == address_arg(data, 0)),
        // canSponsor(address,address,address,bytes4)
        call_of(data, seq![0xfcu8, 0x5c, 0x31, 0xa0], 4) && gas >= g.can_sponsor
            ==> (p matches SponsorPlan::Run {
                gas_used,
                call: SponsorCall::CanSponsor { sponsor, sender, to, selector },
            } && gas_used == g.can_sponsor && sponsor.bytes@ == address_arg(data, 0) && sender.bytes@
                == address_arg(data, 1) && to.bytes@ == address_arg(data, 2) && selector.bytes@
                == data.subrange(128, 132)),
        // owner()
        call_of(data, seq![0x8du8, 0xa5, 0xcb, 0x5b], 0) && gas >= g.view
            ==> (p matches SponsorPlan::Run { gas_used, call: SponsorCall::Owner } && gas_used == g.view),
{
    let sel = data.subrange(0, 4);
    let args = data.subrange(4, data.len() as int);
    let ss = sponsor_selectors();
    if data.len() >= 4 {
        if data.len() >= 36 {
            assert(args.subrange(0, 32) =~= data.subrange(4, 36));
            assert(arg_address(args, 0) =~= address_arg(data, 0));
        }
        if data.len() >= 4 + 32 * 4 {
            assert(arg_address(args, 32) =~= address_arg(data, 1));
            assert(arg_address(args, 64) =~= address_arg(data, 2));
            assert(args.subrange(124, 128) =~= data.subrange(128, 132));
        }
        assert(ss[0] != ss[1] && ss[0] != ss[2] && ss[0] != ss[3]);
        assert forall|a: int, b: int| 0 <= a < 14 && 0 <= b < 14 && a != b implies ss[a] != ss[b] by {
            assert(ss[a][0] != ss[b][0] || ss[a][1] != ss[b][1]);
        }
    }
}

/// The checks before any `SponsorHub` operation runs: each state-modifying
/// function reverts in a static context, charging its cost, and every function
/// runs out of gas when the gas limit is below its cost.
pub proof fn lemma_sponsor_guards(data: Seq<u8>, gas: u64, is_static: bool, g: SponsorGasSchedule, p: SponsorPlan)
    requires
        sponsor_plan_spec(data, gas, is_static, g, p),
    ensures
        // registerPolicy(bytes)
        data.len() >= 4 && data.subrange(0, 4) == seq![0xa2u8, 0xea, 0x13, 0x76] ==> (is_static ==> plan_reverts(
            p,
            g.register,
            "state-modifying call in static context",
        )) && (!is_static && gas < g.register ==> p is OutOfGas),
        // deactivatePolicy()
        data.len() >= 4 && data.subrange(0, 4) == seq![0x86u8, 0x34, 0xf7, 0xa8] ==> (is_static ==> plan_reverts(
            p,
            g.deactivate,
            "state-modifying call in static context",
        )) && (!is_static && gas < g.deactivate ==> p is OutOfGas),
        // deposit()
        data.len() >= 4 && data.subrange(0, 4) == seq![0xd0u8, 0xe3, 0x0d, 0xb0] ==> (is_static ==> plan_reverts(
            p,
            g.deposit,
            "state-modifying call in static context",
        )) && (!is_static && gas < g.deposit ==> p is OutOfGas),
        // withdraw(uint256)
        data.len() >= 4 && data.subrange(0, 4) == seq![0x2eu8, 0x1a, 0x7d, 0x4d] ==> (is_static ==> plan_reverts(
            p,
            g.withdraw,
            "state-modifying call in static context",
        )) && (!is_static && gas < g.withdraw ==> p is OutOfGas),
        // approveMint(address)
        data.len() >= 4 && data.subrange(0, 4) == seq![0x0eu8, 0x80, 0x1e, 0xe1] ==> (is_static ==> plan_reverts(
            p,
            g.mint_toggle,
            "state-modifying call in static context",
        )) && (!is_static && gas < g.mint_toggle ==> p is OutOfGas),
        // revokeMint(address)
        data.len() >= 4 && data.subrange(0, 4) == seq![0x39u8, 0x35, 0xba, 0xc6] ==> (is_static ==> plan_reverts(
            p,
            g.mint_toggle,
            "state-modifying call in static context",
        )) && (!is_static && gas < g.mint_toggle ==> p is OutOfGas),
        // transferOwnership(address)
        data.len() >= 4 && data.subrange(0, 4) == seq![0xf2u8, 0xfd, 0xe3, 0x8b] ==> (is_static ==> plan_reverts(
            p,
            g.transfer_ownership,
            "state-modifying call in static context",
        )) && (!is_static && gas < g.transfer_ownership ==> p is OutOfGas),
        // getBalance(address)
        data.len() >= 4 && data.subrange(0, 4) == seq![0xf8u8, 0xb2, 0xcb, 0x4f] && gas < g.view ==> p is OutOfGas,
        // isActive(address)
        data.len() >= 4 && data.subrange(0, 4) == seq![0x9fu8, 0x8a, 0x13, 0xd7] && gas < g.view ==> p is OutOfGas,
        // getValidUntil(address)
        data.len() >= 4 && data.subrange(0, 4) == seq![0x7bu8, 0xee, 0xc9, 0x39] && gas < g.view ==> p is OutOfGas,
        // getSponsorType(address)
        data.len() >= 4 && data.subrange(0, 4) == seq![0xe4u8, 0x98, 0xe7, 0xfd] && gas < g.view ==> p is OutOfGas,
        // getPolicy(address)
        data.len() >= 4 && data.subrange(0, 4) == seq![0x37u8, 0x91, 0xdc, 0x6a] && gas < g.view ==> p is OutOfGas,
        // canSponsor(address,address,address,bytes4)
        data.len() >= 4 && data.subrange(0, 4) == seq![0xfcu8, 0x5c, 0x31, 0xa0] && gas < g.can_sponsor ==> p is OutOfGas,
        // owner()
        data.len() >= 4 && data.subrange(0, 4) == seq![0x8du8, 0xa5, 0xcb, 0x5b] && gas < g.view ==> p is OutOfGas,
{
    let ss = sponsor_selectors();
    if data.len() >= 4 {
        assert forall|a: int, b: int| 0 <= a < 14 && 0 <= b < 14 && a != b implies ss[a] != ss[b] by {
            assert(ss[a][0] != ss[b][0] || ss[a][1] != ss[b][1]);
        }
    }
}

/// The event each successful state-modifying `SponsorHub` operation emits
/// from the hub, with its indexed topics and data.
pub proof fn lemma_sponsor_events(
    hub: Address,
    caller: Address,
    value: U256,
    gas: u64,
    who: Address,
    amount: U256,
    balance: U256,
    valid_until: u64,
    r: PrecompileOutcome,
)
    ensures
        // approveMint: the sponsor, then the owner
        sponsor_result(hub, caller, value, gas, SponsorCall::ApproveMint { sponsor: who }, SponsorReply::Done, r) ==> (r matches PrecompileOutcome::Success {
            gas_used,
            logs,
            ..
        } && gas_used == gas && logs@.len() == 1 && log_is(
            logs@[0],
            hub,
            seq![keccak256_spec("MintApproved(address,address)".spec_bytes()), address_word_bytes(who.bytes@), address_word_bytes(caller.bytes@)],
            Seq::empty(),
        )),
        // revokeMint: the sponsor, then the owner
        sponsor_result(hub, caller, value, gas, SponsorCall::RevokeMint { sponsor: who }, SponsorReply::Done, r) ==> (r matches PrecompileOutcome::Success {
            gas_used,
            logs,
            ..
        } && gas_used == gas && logs@.len() == 1 && log_is(
            logs@[0],
            hub,
            seq![keccak256_spec("MintRevoked(address,address)".spec_bytes()), address_word_bytes(who.bytes@), address_word_bytes(caller.bytes@)],
            Seq::empty(),
        )),
        // transferOwnership: the old owner, then the new one
        sponsor_result(hub, caller, value, gas, SponsorCall::TransferOwnership { new_owner: who }, SponsorReply::Done, r) ==> (r matches PrecompileOutcome::Success {
            gas_used,
            logs,
            ..
        } && gas_used == gas && logs@.len() == 1 && log_is(
            logs@[0],
            hub,
            seq![keccak256_spec("OwnershipTransferred(address,address)".spec_bytes()), address_word_bytes(caller.bytes@), address_word_bytes(who.bytes@)],
            Seq::empty(),
        )),
        // deactivatePolicy
        sponsor_result(hub, caller, value, gas, SponsorCall::DeactivatePolicy, SponsorReply::Done, r) ==> (r matches PrecompileOutcome::Success {
            gas_used,
            logs,
            ..
        } && gas_used == gas && logs@.len() == 1 && log_is(
            logs@[0],
            hub,
            seq![keccak256_spec("PolicyDeactivated(address)".spec_bytes()), address_word_bytes(caller.bytes@)],
            Seq::empty(),
        )),
        // deposit: the amount, then the new balance
        sponsor_result(hub, caller, value, gas, SponsorCall::Deposit, SponsorReply::BalanceAfter(balance), r) ==> (r matches PrecompileOutcome::Success {
            gas_used,
            logs,
            ..
        } && gas_used == gas && logs@.len() == 1 && log_is(
            logs@[0],
            hub,
            seq![keccak256_spec("Deposited(address,uint256,uint256)".spec_bytes()), address_word_bytes(caller.bytes@)],
            be32(value@) + be32(balance@),
        )),
        // withdraw: the amount, then the new balance
        sponsor_result(hub, caller, value, gas, SponsorCall::Withdraw { amount }, SponsorReply::BalanceAfter(balance), r) ==> (r matches PrecompileOutcome::Success {
            gas_used,
            logs,
            ..
        } && gas_used == gas && logs@.len() == 1 && log_is(
            logs@[0],
            hub,
            seq![keccak256_spec("Withdrawn(address,uint256,uint256)".spec_bytes()), address_word_bytes(caller.bytes@)],
            be32(amount@) + be32(balance@),
        )),
        // registerPolicy
        sponsor_result(hub, caller, value, gas, SponsorCall::RegisterPolicy, SponsorReply::Registered { valid_until }, r) ==> (r matches PrecompileOutcome::Success {
            gas_used,
            logs,
            ..
        } && gas_used == gas && logs@.len() == 1 && log_is(
            logs@[0],
            hub,
            seq![keccak256_spec("PolicyRegistered(address,uint8,uint64)".spec_bytes()), address_word_bytes(caller.bytes@)],
            be32(0) + be32(valid_until as nat),
        )),
{
}

} // verus!
