//! Genesis configuration extensions for Pachi-specific parameters.
//!
//! Embedded in the genesis `extra_fields` under `"pachiConfig"`; the JSON
//! form (camel-case names, the minimum deposit as a decimal or `0x` string)
//! is read and written outside this library.

use vstd::prelude::*;
use vstd::string::StringSliceAdditionalSpecFns;

use crate::oracle_engine::price_parse::unsigned_digits;
use crate::word::Address;

verus! {

/// Pachi-specific genesis configuration.
#[derive(Debug, Clone, PartialEq, Eq)]
pub struct PachiGenesisConfig {
    /// Session key system configuration.
    pub session_config: SessionGenesisConfig,
    /// Gas sponsor system configuration.
    pub sponsor_config: SponsorGenesisConfig,
    /// Oracle system configuration.
    pub oracle_config: OracleGenesisConfig,
    /// Block number or timestamp at which Phase 1 activates.
    pub phase1_block: u64,
    /// Block number or timestamp at which Phase 2 activates (0 = not scheduled).
    pub phase2_block: u64,
}

/// Session key system genesis parameters.
#[derive(Debug, Clone, Copy, PartialEq, Eq, Structural)]
pub struct SessionGenesisConfig {
    /// Max concurrent sessions per account.
    pub max_sessions_per_account: u64,
    /// Max session duration in seconds.
    pub max_session_duration: u64,
    /// Max call policies per session.
    pub max_call_policies_per_session: u64,
    /// Max constraints per call policy.
    pub max_constraints_per_call_policy: u64,
    /// Max transfer policies per session.
    pub max_transfer_policies_per_session: u64,
    /// Max policy size in bytes.
    pub max_policy_size: u64,
}

impl Default for SessionGenesisConfig {
    fn default() -> (r: SessionGenesisConfig)
        ensures
            r == (SessionGenesisConfig {
                max_sessions_per_account: 10,
                max_session_duration: 2_592_000,
                max_call_policies_per_session: 20,
                max_constraints_per_call_policy: 10,
                max_transfer_policies_per_session: 10,
                max_policy_size: 4096,
            }),
    {
        SessionGenesisConfig {
            max_sessions_per_account: 10,
            max_session_duration: 2_592_000,  // 30 days
            max_call_policies_per_session: 20,
            max_constraints_per_call_policy: 10,
            max_transfer_policies_per_session: 10,
            max_policy_size: 4096,
        }
    }
}

/// Gas sponsor system genesis parameters.
#[derive(Debug, Clone, Copy, PartialEq, Eq)]
pub struct SponsorGenesisConfig {
    /// Minimum initial deposit for deposit-mode sponsors (wei).
    pub min_deposit_sponsor_deposit: u128,
    /// Additional gas overhead charged per sponsored tx.
    pub sponsor_gas_overhead: u64,
    /// Max call policies per sponsor.
    pub max_call_policies_per_sponsor: u64,
    /// Max constraints per call policy.
    pub max_constraints_per_call_policy: u64,
    /// Max entries in `allowed_senders`.
    pub max_allowed_senders: u64,
    /// Initial owner of the `SponsorHub`.
    pub sponsor_hub_owner: Address,
}

impl Default for SponsorGenesisConfig {
    fn default() -> (r: SponsorGenesisConfig)
        ensures
            r.min_deposit_sponsor_deposit == 100_000_000_000_000_000,
            r.sponsor_gas_overhead == 20_000,
            r.max_call_policies_per_sponsor == 50,
            r.max_constraints_per_call_policy == 10,
            r.max_allowed_senders == 10_000,
            r.sponsor_hub_owner.bytes@ == Seq::new(20, |i: int| 0u8),
    {
        SponsorGenesisConfig {
            min_deposit_sponsor_deposit: 100_000_000_000_000_000,  // 0.1 ETH
            sponsor_gas_overhead: 20_000,
            max_call_policies_per_sponsor: 50,
            max_constraints_per_call_policy: 10,
            max_allowed_senders: 10_000,
            sponsor_hub_owner: Address::zero(),
        }
    }
}

/// Oracle system genesis parameters.
#[derive(Debug, Clone, Copy, PartialEq, Eq, Structural)]
pub struct OracleGenesisConfig {
    /// Oracle engine version expected at genesis.
    pub engine_version: u16,
}

impl Default for OracleGenesisConfig {
    fn default() -> (r: OracleGenesisConfig)
        ensures
            r.engine_version == 1,
    {
        OracleGenesisConfig { engine_version: 1 }
    }
}

impl Default for PachiGenesisConfig {
    fn default() -> (r: PachiGenesisConfig)
        ensures
            r.session_config.max_sessions_per_account == 10,
            r.session_config.max_session_duration == 2_592_000,
            r.sponsor_config.min_deposit_sponsor_deposit == 100_000_000_000_000_000,
            r.sponsor_config.sponsor_gas_overhead == 20_000,
            r.oracle_config.engine_version == 1,
            r.phase1_block == 0,
            r.phase2_block == 0,
    {
        PachiGenesisConfig {
            session_config: SessionGenesisConfig::default(),
            sponsor_config: SponsorGenesisConfig::default(),
            oracle_config: OracleGenesisConfig::default(),
            phase1_block: 0,
            phase2_block: 0,
        }
    }
}

/// The value of a digit character in a radix (10 or 16), if it is one.
pub open spec fn digit_value(c: u8, radix: nat) -> Option<nat> {
    if 0x30 <= c <= 0x39 && (c - 0x30) < radix {
        Some((c - 0x30) as nat)
    } else if radix == 16 && 0x61 <= c <= 0x66 {
        Some((c - 0x61 + 10) as nat)
    } else if radix == 16 && 0x41 <= c <= 0x46 {
        Some((c - 0x41 + 10) as nat)
    } else {
        None
    }
}

/// The number that a string of digits denotes in a radix.
pub open spec fn radix_value(b: Seq<u8>, radix: nat) -> nat
    decreases b.len(),
{
    if b.len() == 0 {
        0
    } else {
        radix_value(b.drop_last(), radix) * radix + match digit_value(b.last(), radix) {
            Some(d) => d,
            None => 0,
        }
    }
}

/// Whether every byte is a digit of the radix.
pub open spec fn all_radix_digits(d: Seq<u8>, radix: nat) -> bool {
    forall|i: int| 0 <= i < d.len() ==> #[trigger] digit_value(d[i], radix) is Some
}

/// What `u128::from_str_radix` accepts: an optional `+`, then one or more
/// digits of the radix, denoting a value below 2^128.
pub open spec fn parse_radix_spec(b: Seq<u8>, radix: nat) -> Option<nat> {
    let d = unsigned_digits(b);
    if d.len() > 0 && all_radix_digits(d, radix) && radix_value(d, radix) <= u128::MAX {
        Some(radix_value(d, radix))
    } else {
        None
    }
}

/// What a `u128` amount text denotes: hexadecimal after a `0x` or `0X`
/// prefix, decimal otherwise.
pub open spec fn amount_text_value(b: Seq<u8>) -> Option<nat> {
    if b.len() >= 2 && b[0] == 0x30 && (b[1] == 0x78 || b[1] == 0x58) {
        parse_radix_spec(b.subrange(2, b.len() as int), 16)
    } else {
        parse_radix_spec(b, 10)
    }
}

/// A prefix of a digit string denotes at most what the whole string does.
proof fn lemma_radix_prefix(b: Seq<u8>, j: int, radix: nat)
    requires
        0 <= j <= b.len(),
        radix > 0,
    ensures
        radix_value(b.subrange(0, j), radix) <= radix_value(b, radix),
    decreases b.len() - j,
{
    if j < b.len() {
        lemma_radix_prefix(b, j + 1, radix);
        assert(b.subrange(0, j + 1).drop_last() =~= b.subrange(0, j));
        let v = radix_value(b.subrange(0, j), radix);
        assert(v <= v * radix) by (nonlinear_arith)
            requires
                radix > 0,
        ;
    } else {
        assert(b.subrange(0, j) =~= b);
    }
}

/// The value of a digit byte in a radix (10 or 16).
fn digit_of(c: u8, radix: u32) -> (r: Option<u8>)
    requires
        radix == 10 || radix == 16,
    ensures
        match digit_value(c, radix as nat) {
            Some(d) => r == Some(d as u8),
            None => r is None,
        },
{
    if 0x30 <= c && c <= 0x39 && ((c - 0x30) as u32) < radix {
        Some(c - 0x30)
    } else if radix == 16 && 0x61 <= c && c <= 0x66 {
        Some(c - 0x61 + 10)
    } else if radix == 16 && 0x41 <= c && c <= 0x46 {
        Some(c - 0x41 + 10)
    } else {
        None
    }
}

/// `u128::from_str_radix` on bytes, for radix 10 or 16.
pub fn parse_u128_radix(b: &[u8], radix: u32) -> (r: Option<u128>)
    requires
        radix == 10 || radix == 16,
    ensures
        match parse_radix_spec(b@, radix as nat) {
            Some(v) => r == Some(v as u128),
            None => r is None,
        },
{
    let start: usize = if b.len() > 0 && b[0] == 0x2b {
        1
    } else {
        0
    };
    let ghost d = if b@.len() > 0 && b@[0] == 0x2b {
        b@.drop_first()
    } else {
        b@
    };
    assert(d =~= b@.subrange(start as int, b@.len() as int));
    if start >= b.len() {
        return None;
    }
    let mut value: u128 = 0;
    let mut i: usize = start;
    while i < b.len()
        invariant
            start <= i <= b@.len(),
            radix == 10 || radix == 16,
            d == b@.subrange(start as int, b@.len() as int),
            d == unsigned_digits(b@),
            forall|k: int| start <= k < i ==> #[trigger] digit_value(b@[k], radix as nat) is Some,
            value == radix_value(b@.subrange(start as int, i as int), radix as nat),
        decreases b@.len() - i,
    {
        let digit = match digit_of(b[i], radix) {
            Some(v) => v,
            None => {
                assert(digit_value(d[i - start], radix as nat) is None);
                return None;
            },
        };
        let ghost prefix = b@.subrange(start as int, i + 1);
        assert(prefix.drop_last() =~= b@.subrange(start as int, i as int));
        match value.checked_mul(radix as u128) {
            Some(scaled) => match scaled.checked_add(digit as u128) {
                Some(next) => {
                    value = next;
                },
                None => {
                    proof {
                        assert(prefix =~= d.subrange(0, i + 1 - start));
                        lemma_radix_prefix(d, i + 1 - start, radix as nat);
                    }
                    return None;
                },
            },
            None => {
                proof {
                    assert(prefix =~= d.subrange(0, i + 1 - start));
                    lemma_radix_prefix(d, i + 1 - start, radix as nat);
                }
                return None;
            },
        }
        i += 1;
    }
    assert(b@.subrange(start as int, i as int) =~= d);
    Some(value)
}

/// Reads a `u128` amount text: hexadecimal after `0x` or `0X`, decimal otherwise.
pub fn parse_amount_text(s: &str) -> (r: Option<u128>)
    ensures
        match amount_text_value(s.spec_bytes()) {
            Some(v) => r == Some(v as u128),
            None => r is None,
        },
{
    let b = s.as_bytes();
    if b.len() >= 2 && b[0] == 0x30 && (b[1] == 0x78 || b[1] == 0x58) {
        parse_u128_radix(vstd::slice::slice_subrange(b, 2, b.len()), 16)
    } else {
        parse_u128_radix(b, 10)
    }
}

} // verus!
