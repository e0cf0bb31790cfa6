//! `PriceOracle` precompile dispatch (0x0802). All functions are read-only.
//!
//! Selectors (first four bytes of the Keccak-256 of the signature):
//! - `getPrice(uint8)`: `0x37f1e7f2`
//! - `getPriceBatch(uint8[])`: `0xbc348364`
//! - `isSupported(uint8)`: `0x5a803a54`

use vstd::prelude::*;

use crate::evm::abi::{be32, bool_word, concat_words, push_u64_word, push_word};
use crate::evm::outcome::{PrecompileOutcome, RevertReason, reverted_with, succeeded_with};
use crate::oracle_precompile::error::OraclePrecompileError;
use crate::oracle_precompile::gas::{GAS_GET_PRICE, GAS_GET_PRICE_BATCH_BASE, GAS_GET_PRICE_BATCH_PER_ASSET, GAS_IS_SUPPORTED, gas_get_price_batch};
use crate::oracle_precompile::storage::{all_supported, get_price, get_price_batch, is_supported, price_answer, reports_first_unsupported};
use crate::primitives::asset::asset_of_code;
use crate::primitives::confidence::Confidence;
use crate::state::{PachiState, StorageMap};
use crate::word::{U256, b256_from_subslice, be_value};

verus! {

/// `getPrice(uint8)`.
pub open spec fn get_price_selector() -> Seq<u8> {
    seq![0x37u8, 0xf1, 0xe7, 0xf2]
}

/// `getPriceBatch(uint8[])`.
pub open spec fn get_price_batch_selector() -> Seq<u8> {
    seq![0xbcu8, 0x34, 0x83, 0x64]
}

/// `isSupported(uint8)`.
pub open spec fn is_supported_selector() -> Seq<u8> {
    seq![0x5au8, 0x80, 0x3a, 0x54]
}

/// The ABI encoding of one price answer: `(uint256 price, uint64 timestamp, uint8 confidence)`.
pub open spec fn price_words(p: (U256, u64, Confidence)) -> Seq<u8> {
    be32(p.0@) + be32(p.1 as nat) + be32(p.2.code() as nat)
}

/// The ABI encoding of batch answers: three dynamic arrays
/// `(uint256[] prices, uint64[] timestamps, uint8[] confidences)`.
pub open spec fn batch_words(v: Seq<(U256, u64, Confidence)>) -> Seq<u8> {
    let n = v.len();
    be32(96) + be32(96 + 32 + 32 * n) + be32(96 + 2 * (32 + 32 * n)) + be32(n) + concat_words(
        v.map_values(|p: (U256, u64, Confidence)| p.0@),
    ) + be32(n) + concat_words(v.map_values(|p: (U256, u64, Confidence)| p.1 as nat)) + be32(n)
        + concat_words(v.map_values(|p: (U256, u64, Confidence)| p.2.code() as nat))
}

/// The array length word of a `getPriceBatch` call, saturated to a `u64`.
pub open spec fn batch_length(args: Seq<u8>) -> nat {
    let v = be_value(args.subrange(32, 64));
    if v > u64::MAX {
        u64::MAX as nat
    } else {
        v
    }
}

/// The asset ids of a `getPriceBatch` call: the last byte of each element word.
pub open spec fn batch_ids(args: Seq<u8>, n: nat) -> Seq<u8> {
    Seq::new(n, |i: int| args[64 + 32 * i + 31])
}

/// Whether the gas cost of a call can be computed without overflow: a
/// `getPriceBatch` length whose cost fits in a `u64`.
pub open spec fn oracle_call_in_range(data: Seq<u8>) -> bool {
    let args = data.subrange(4, data.len() as int);
    data.len() >= 4 && data.subrange(0, 4) == get_price_batch_selector() && args.len() >= 64
        ==> GAS_GET_PRICE_BATCH_BASE + GAS_GET_PRICE_BATCH_PER_ASSET * batch_length(args) <= u64::MAX
}

/// The outcome of a `getPrice` call.
pub open spec fn get_price_outcome(m: StorageMap, args: Seq<u8>, gas: u64, ts: u64, r: PrecompileOutcome) -> bool {
    if gas < GAS_GET_PRICE {
        r is OutOfGas
    } else if args.len() < 32 {
        reverted_with(r, GAS_GET_PRICE, "input too short for getPrice")
    } else {
        match price_answer(m, args[31], ts) {
            Ok(p) => succeeded_with(r, GAS_GET_PRICE, price_words(p)),
            Err(e) => r == PrecompileOutcome::Reverted {
                gas_used: GAS_GET_PRICE,
                reason: RevertReason::Oracle(e),
            },
        }
    }
}

/// The outcome of a `getPriceBatch` call.
pub open spec fn get_price_batch_outcome(m: StorageMap, args: Seq<u8>, gas: u64, ts: u64, r: PrecompileOutcome) -> bool {
    let n = batch_length(args);
    let cost = GAS_GET_PRICE_BATCH_BASE + GAS_GET_PRICE_BATCH_PER_ASSET * n;
    let ids = batch_ids(args, n);
    if args.len() < 64 {
        reverted_with(r, GAS_GET_PRICE_BATCH_BASE, "input too short for getPriceBatch")
    } else if gas < cost {
        r is OutOfGas
    } else if args.len() < 64 + 32 * n {
        reverted_with(r, cost as u64, "input too short for batch elements")
    } else if all_supported(ids) {
        succeeded_with(
            r,
            cost as u64,
            batch_words(Seq::new(n, |i: int| price_answer(m, ids[i], ts)->Ok_0)),
        )
    } else {
        r matches PrecompileOutcome::Reverted { gas_used, reason: RevertReason::Oracle(e) }
            && gas_used == cost && reports_first_unsupported(ids, e)
    }
}

/// The outcome of an `isSupported` call.
pub open spec fn is_supported_outcome(args: Seq<u8>, gas: u64, r: PrecompileOutcome) -> bool {
    if gas < GAS_IS_SUPPORTED {
        r is OutOfGas
    } else if args.len() < 32 {
        reverted_with(r, GAS_IS_SUPPORTED, "input too short for isSupported")
    } else {
        succeeded_with(
            r,
            GAS_IS_SUPPORTED,
            Seq::new(32, |i: int| if i == 31 && asset_of_code(args[31]) is Some { 1u8 } else { 0u8 }),
        )
    }
}

/// The outcome of a `PriceOracle` call: routed by the 4-byte selector.
pub open spec fn oracle_outcome(m: StorageMap, data: Seq<u8>, gas: u64, ts: u64, r: PrecompileOutcome) -> bool {
    let selector = data.subrange(0, 4);
    let args = data.subrange(4, data.len() as int);
    if data.len() < 4 {
        reverted_with(r, 0, "input too short")
    } else if selector == get_price_selector() {
        get_price_outcome(m, args, gas, ts, r)
    } else if selector == get_price_batch_selector() {
        get_price_batch_outcome(m, args, gas, ts, r)
    } else if selector == is_supported_selector() {
        is_supported_outcome(args, gas, r)
    } else {
        reverted_with(r, 0, "unknown selector")
    }
}

/// Whether `data` starts with the 4 bytes of `selector`.
fn selector_is(data: &[u8], selector: [u8; 4]) -> (r: bool)
    requires
        data@.len() >= 4,
    ensures
        r == (data@.subrange(0, 4) == selector@),
{
    let r = data[0] == selector[0] && data[1] == selector[1] && data[2] == selector[2] && data[3]
        == selector[3];
    proof {
        let head = data@.subrange(0, 4);
        if r {
            assert(head =~= selector@);
        } else if head == selector@ {
            assert(head[0] == selector@[0]);
            assert(head[1] == selector@[1]);
            assert(head[2] == selector@[2]);
            assert(head[3] == selector@[3]);
        }
    }
    r
}

/// Whether a call's gas cost can be computed: the check that callers make
/// before [`oracle_precompile`].
pub fn oracle_call_fits(data: &[u8]) -> (r: bool)
    ensures
        r == oracle_call_in_range(data@),
{
    if data.len() < 4 || !selector_is(data, [0xbc, 0x34, 0x83, 0x64]) {
        proof {
            if data@.len() >= 4 {
                assert([0xbcu8, 0x34, 0x83, 0x64]@ =~= get_price_batch_selector());
            }
        }
        return true;
    }
    assert([0xbcu8, 0x34, 0x83, 0x64]@ =~= get_price_batch_selector());
    let args = vstd::slice::slice_subrange(data, 4, data.len());
    if args.len() < 64 {
        return true;
    }
    let length: u64 = b256_from_subslice(args, 32).to_u256().saturating_to_u64();
    assert(length == batch_length(args@));
    length <= (u64::MAX - GAS_GET_PRICE_BATCH_BASE) / GAS_GET_PRICE_BATCH_PER_ASSET
}

/// `PriceOracle` precompile entry point.
pub fn oracle_precompile<S: PachiState>(state: &S, data: &[u8], gas: u64, block_timestamp: u64) -> (r: PrecompileOutcome)
    requires
        oracle_call_in_range(data@),
    ensures
        oracle_outcome(state.storage(), data@, gas, block_timestamp, r),
{
    if data.len() < 4 {
        return PrecompileOutcome::Reverted { gas_used: 0, reason: RevertReason::Message("input too short") };
    }
    let args = vstd::slice::slice_subrange(data, 4, data.len());
    if selector_is(data, [0x37, 0xf1, 0xe7, 0xf2]) {
        assert([0x37u8, 0xf1, 0xe7, 0xf2]@ =~= get_price_selector());
        handle_get_price(state, args, gas, block_timestamp)
    } else if selector_is(data, [0xbc, 0x34, 0x83, 0x64]) {
        assert([0xbcu8, 0x34, 0x83, 0x64]@ =~= get_price_batch_selector());
        assert([0x37u8, 0xf1, 0xe7, 0xf2]@ =~= get_price_selector());
        handle_get_price_batch(state, args, gas, block_timestamp)
    } else if selector_is(data, [0x5a, 0x80, 0x3a, 0x54]) {
        assert([0x5au8, 0x80, 0x3a, 0x54]@ =~= is_supported_selector());
        assert([0xbcu8, 0x34, 0x83, 0x64]@ =~= get_price_batch_selector());
        assert([0x37u8, 0xf1, 0xe7, 0xf2]@ =~= get_price_selector());
        handle_is_supported(args, gas)
    } else {
        assert([0x5au8, 0x80, 0x3a, 0x54]@ =~= is_supported_selector());
        assert([0xbcu8, 0x34, 0x83, 0x64]@ =~= get_price_batch_selector());
        assert([0x37u8, 0xf1, 0xe7, 0xf2]@ =~= get_price_selector());
        PrecompileOutcome::Reverted { gas_used: 0, reason: RevertReason::Message("unknown selector") }
    }
}

/// `getPrice(uint8)`: the price, timestamp and confidence of an asset.
fn handle_get_price<S: PachiState>(state: &S, args: &[u8], gas: u64, block_timestamp: u64) -> (r: PrecompileOutcome)
    ensures
        get_price_outcome(state.storage(), args@, gas, block_timestamp, r),
{
    if gas < GAS_GET_PRICE {
        return PrecompileOutcome::OutOfGas;
    }
    if args.len() < 32 {
        return PrecompileOutcome::Reverted {
            gas_used: GAS_GET_PRICE,
            reason: RevertReason::Message("input too short for getPrice"),
        };
    }
    let asset_id = args[31];
    match get_price(state, asset_id, block_timestamp) {
        Ok((price, timestamp, confidence)) => {
            let mut output: Vec<u8> = Vec::new();
            push_word(&mut output, &price);
            push_u64_word(&mut output, timestamp);
            push_u64_word(&mut output, confidence.as_u8() as u64);
            assert(output@ =~= price_words((price, timestamp, confidence)));
            PrecompileOutcome::Success { gas_used: GAS_GET_PRICE, output, logs: Vec::new() }
        },
        Err(e) => PrecompileOutcome::Reverted { gas_used: GAS_GET_PRICE, reason: RevertReason::Oracle(e) },
    }
}

/// `isSupported(uint8)`: whether an asset id is supported.
fn handle_is_supported(args: &[u8], gas: u64) -> (r: PrecompileOutcome)
    ensures
        is_supported_outcome(args@, gas, r),
{
    if gas < GAS_IS_SUPPORTED {
        return PrecompileOutcome::OutOfGas;
    }
    if args.len() < 32 {
        return PrecompileOutcome::Reverted {
            gas_used: GAS_IS_SUPPORTED,
            reason: RevertReason::Message("input too short for isSupported"),
        };
    }
    let supported = is_supported(args[31]);
    let word = bool_word(supported);
    let mut output: Vec<u8> = Vec::new();
    crate::word::append_bytes(&mut output, &word);
    assert(output@ =~= word@);
    PrecompileOutcome::Success { gas_used: GAS_IS_SUPPORTED, output, logs: Vec::new() }
}

/// `getPriceBatch(uint8[])`: the answers for several assets, ABI-encoded as
/// three arrays; the first unsupported id reverts the call.
fn handle_get_price_batch<S: PachiState>(state: &S, args: &[u8], gas: u64, block_timestamp: u64) -> (r: PrecompileOutcome)
    requires
        args@.len() >= 64 ==> GAS_GET_PRICE_BATCH_BASE + GAS_GET_PRICE_BATCH_PER_ASSET * batch_length(args@)
            <= u64::MAX,
    ensures
        get_price_batch_outcome(state.storage(), args@, gas, block_timestamp, r),
{
    if args.len() < 64 {
        return PrecompileOutcome::Reverted {
            gas_used: GAS_GET_PRICE_BATCH_BASE,
            reason: RevertReason::Message("input too short for getPriceBatch"),
        };
    }
    let length_word = b256_from_subslice(args, 32).to_u256();
    let length: u64 = length_word.saturating_to_u64();
    assert(length == batch_length(args@));
    let gas_cost = gas_get_price_batch(length);
    if gas < gas_cost {
        return PrecompileOutcome::OutOfGas;
    }
    let ghost ids = batch_ids(args@, length as nat);
    let mut asset_ids: Vec<u8> = Vec::new();
    let mut i: u64 = 0;
    while i < length
        invariant
            i <= length,
            length == batch_length(args@),
            args@.len() >= 64,
            ids == batch_ids(args@, length as nat),
            asset_ids@ == ids.subrange(0, i as int),
            args@.len() >= 64 + 32 * i,
            gas_cost == GAS_GET_PRICE_BATCH_BASE + GAS_GET_PRICE_BATCH_PER_ASSET * length,
            gas >= gas_cost,
        decreases length - i,
    {
        let need: u128 = 64 + 32 * (i as u128 + 1);
        if (args.len() as u128) < need {
            assert(args@.len() < 64 + 32 * length);
            return PrecompileOutcome::Reverted {
                gas_used: gas_cost,
                reason: RevertReason::Message("input too short for batch elements"),
            };
        }
        let start: usize = 64 + (i as usize) * 32;
        asset_ids.push(args[start + 31]);
        assert(asset_ids@ =~= ids.subrange(0, i + 1));
        i += 1;
    }
    assert(asset_ids@ =~= ids);
    match get_price_batch(state, asset_ids.as_slice(), block_timestamp) {
        Ok(results) => {
            let n = results.len();
            let mut output: Vec<u8> = Vec::new();
            proof {
                assert(n == length);
            }
            let words: u64 = n as u64 * 32;
            push_u64_word(&mut output, 96);
            push_u64_word(&mut output, 96 + 32 + words);
            push_u64_word(&mut output, 96 + 2 * (32 + words));
            let ghost head = output@;
            push_u64_word(&mut output, n as u64);
            let ghost v = results@;
            let ghost p0 = output@;
            let mut j: usize = 0;
            while j < n
                invariant
                    j <= n == v.len(),
                    results@ == v,
                    output@ == p0 + concat_words(
                        v.subrange(0, j as int).map_values(|p: (U256, u64, Confidence)| p.0@),
                    ),
                decreases n - j,
            {
                push_word(&mut output, &results[j].0);
                assert(v.subrange(0, j + 1).map_values(|p: (U256, u64, Confidence)| p.0@).drop_last()
                    =~= v.subrange(0, j as int).map_values(|p: (U256, u64, Confidence)| p.0@));
                j += 1;
            }
            assert(v.subrange(0, n as int) =~= v);
            push_u64_word(&mut output, n as u64);
            let ghost p1 = output@;
            let mut j: usize = 0;
            while j < n
                invariant
                    j <= n == v.len(),
                    results@ == v,
                    output@ == p1 + concat_words(
                        v.subrange(0, j as int).map_values(|p: (U256, u64, Confidence)| p.1 as nat),
                    ),
                decreases n - j,
            {
                push_u64_word(&mut output, results[j].1);
                assert(v.subrange(0, j + 1).map_values(|p: (U256, u64, Confidence)| p.1 as nat).drop_last()
                    =~= v.subrange(0, j as int).map_values(|p: (U256, u64, Confidence)| p.1 as nat));
                j += 1;
            }
            push_u64_word(&mut output, n as u64);
            let ghost p2 = output@;
            let mut j: usize = 0;
            while j < n
                invariant
                    j <= n == v.len(),
                    results@ == v,
                    output@ == p2 + concat_words(
                        v.subrange(0, j as int).map_values(
                            |p: (U256, u64, Confidence)| p.2.code() as nat,
                        ),
                    ),
                decreases n - j,
            {
                push_u64_word(&mut output, results[j].2.as_u8() as u64);
                assert(v.subrange(0, j + 1).map_values(|p: (U256, u64, Confidence)| p.2.code() as nat).drop_last()
                    =~= v.subrange(0, j as int).map_values(
                    |p: (U256, u64, Confidence)| p.2.code() as nat,
                ));
                j += 1;
            }
            proof {
                let answers = Seq::new(length as nat, |k: int| price_answer(state.storage(), ids[k], block_timestamp)->Ok_0);
                assert(v =~= answers);
                assert(output@ =~= batch_words(answers));
            }
            PrecompileOutcome::Success { gas_used: gas_cost, output, logs: Vec::new() }
        },
        Err(e) => PrecompileOutcome::Reverted { gas_used: gas_cost, reason: RevertReason::Oracle(e) },
    }
}

/// Every `PriceOracle` call is read-only: it takes the state by shared
/// reference, so no storage slot can change, and whatever it answers carries
/// no log.
pub proof fn lemma_oracle_read_only(m: StorageMap, data: Seq<u8>, gas: u64, ts: u64, r: PrecompileOutcome)
    requires
        oracle_outcome(m, data, gas, ts, r),
    ensures
        r matches PrecompileOutcome::Success { logs, .. } ==> logs@.len() == 0,
{
}

/// Each `PriceOracle` selector runs its own function: `getPrice(uint8)`
/// (`0x37f1e7f2`), `getPriceBatch(uint8[])` (`0xbc348364`) and
/// `isSupported(uint8)` (`0x5a803a54`); any other selector reverts, charging
/// nothing. `isSupported` answers 1 exactly for the asset ids 1 to 6.
pub proof fn lemma_oracle_routes(m: StorageMap, data: Seq<u8>, gas: u64, ts: u64, r: PrecompileOutcome)
    requires
        oracle_outcome(m, data, gas, ts, r),
        data.len() >= 4,
    ensures
        data.subrange(0, 4) == seq![0x37u8, 0xf1, 0xe7, 0xf2] ==> get_price_outcome(
            m,
            data.subrange(4, data.len() as int),
            gas,
            ts,
            r,
        ),
        data.subrange(0, 4) == seq![0xbcu8, 0x34, 0x83, 0x64] ==> get_price_batch_outcome(
            m,
            data.subrange(4, data.len() as int),
            gas,
            ts,
            r,
        ),
        data.subrange(0, 4) == seq![0x5au8, 0x80, 0x3a, 0x54] && data.len() >= 36 && gas >= GAS_IS_SUPPORTED
            ==> (r matches PrecompileOutcome::Success { output, .. } && output@.len() == 32
            && (forall|i: int| 0 <= i < 31 ==> output@[i] == 0) && (output@[31] == 1 <==> 1 <= data[35] <= 6)
            && (output@[31] == 0 || output@[31] == 1)),
        data.subrange(0, 4) != seq![0x37u8, 0xf1, 0xe7, 0xf2] && data.subrange(0, 4) != seq![0xbcu8, 0x34, 0x83, 0x64]
            && data.subrange(0, 4) != seq![0x5au8, 0x80, 0x3a, 0x54] ==> reverted_with(r, 0, "unknown selector"),
{
    assert(get_price_selector() =~= seq![0x37u8, 0xf1, 0xe7, 0xf2]);
    assert(get_price_batch_selector() =~= seq![0xbcu8, 0x34, 0x83, 0x64]);
    assert(is_supported_selector() =~= seq![0x5au8, 0x80, 0x3a, 0x54]);
    if data.len() >= 36 {
        assert(data.subrange(4, data.len() as int)[31] == data[35]);
    }
}

} // verus!
