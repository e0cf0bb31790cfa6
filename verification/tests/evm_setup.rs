use pachi::evm::precompiles::{pachi_custom_precompiles, PachiEvmFactory};
use pachi::evm::vrf_dispatch::{vrf_compute_address, vrf_verify_address};
use pachi::hardforks::config::{SessionGenesisConfig, SponsorGenesisConfig};
use pachi::hardforks::hardfork::PachiHardfork;
use pachi::oracle_precompile::storage::oracle_precompile_address;
use pachi::pool::validator::sponsor_hub_precompile_address;
use pachi::session::storage_keys::session_registry_address;
use pachi::word::Address;

fn parse_address(text: &str) -> Address {
    let a: alloy_primitives::Address = text.parse().unwrap();
    Address::from(a.0 .0)
}

fn registered(addr: &Address) -> bool {
    pachi_custom_precompiles().iter().any(|p| p.address == *addr)
}

#[test]
fn hardfork_names() {
    assert_eq!(PachiHardfork::Phase1.name(), "Phase1");
    assert_eq!(PachiHardfork::Phase2.name(), "Phase2");
}

#[test]
fn hardfork_display() {
    assert_eq!(PachiHardfork::Phase1.name().to_string(), "Phase1");
    assert_eq!(PachiHardfork::Phase2.name().to_string(), "Phase2");
}

#[test]
fn default_session_values() {
    let config = SessionGenesisConfig::default();
    assert_eq!(config.max_sessions_per_account, 10);
    assert_eq!(config.max_session_duration, 2_592_000);
    assert_eq!(config.max_call_policies_per_session, 20);
    assert_eq!(config.max_constraints_per_call_policy, 10);
    assert_eq!(config.max_transfer_policies_per_session, 10);
    assert_eq!(config.max_policy_size, 4096);
}

#[test]
fn default_sponsor_values() {
    let config = SponsorGenesisConfig::default();
    assert_eq!(config.min_deposit_sponsor_deposit, 100_000_000_000_000_000);
    assert_eq!(config.sponsor_gas_overhead, 20_000);
    assert_eq!(config.sponsor_hub_owner, Address::zero());
}

#[test]
fn pachi_evm_factory_is_default() {
    let factory = PachiEvmFactory::default();
    // Just verify it can be created and is Debug
    let _ = format!("{factory:?}");
}

#[test]
fn pachi_precompiles_contains_all_five() {
    assert!(registered(&vrf_compute_address()), "VRF_COMPUTE (0x0101) not registered");
    assert!(registered(&vrf_verify_address()), "VRF_VERIFY (0x0102) not registered");
    assert!(registered(&session_registry_address()), "SessionRegistry (0x0800) not registered");
    assert!(registered(&sponsor_hub_precompile_address()), "SponsorHub (0x0801) not registered");
    assert!(registered(&oracle_precompile_address()), "PriceOracle (0x0802) not registered");
}

#[test]
fn pachi_precompiles_ids_in_order() {
    let ids: Vec<&str> = pachi_custom_precompiles().iter().map(|p| p.id).collect();
    assert_eq!(
        ids,
        vec![
            "pachi-vrf-compute",
            "pachi-vrf-verify",
            "pachi-session-registry",
            "pachi-sponsor-hub",
            "pachi-price-oracle"
        ]
    );
}

#[test]
fn pachi_precompiles_addresses_are_correct() {
    assert_eq!(vrf_compute_address(), parse_address("0x0000000000000000000000000000000000000101"));
    assert_eq!(vrf_verify_address(), parse_address("0x0000000000000000000000000000000000000102"));
    assert_eq!(
        session_registry_address(),
        parse_address("0x0000000000000000000000000000000000000800")
    );
    assert_eq!(
        sponsor_hub_precompile_address(),
        parse_address("0x0000000000000000000000000000000000000801")
    );
    assert_eq!(
        oracle_precompile_address(),
        parse_address("0x0000000000000000000000000000000000000802")
    );
}

#[test]
fn selector_owner_matches_solidity_standard() {
    let h = alloy_primitives::keccak256(b"owner()");
    assert_eq!(&h[..4], &[0x8d, 0xa5, 0xcb, 0x5b]);

    let h = alloy_primitives::keccak256(b"deposit()");
    assert_eq!(&h[..4], &[0xd0, 0xe3, 0x0d, 0xb0]);

    let h = alloy_primitives::keccak256(b"transferOwnership(address)");
    assert_eq!(&h[..4], &[0xf2, 0xfd, 0xe3, 0x8b]);
}
