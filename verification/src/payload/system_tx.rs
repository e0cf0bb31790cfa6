//! System transactions for VRF fulfillment and oracle updates: who they go
//! to, what they carry, and the typed envelope around their encoding.

use vstd::prelude::*;

use crate::consensus::validation::SystemTxSubtype;
use crate::evm::vrf_dispatch::{vrf_compute_addr, vrf_compute_address};
use crate::oracle_precompile::storage::{oracle_address, oracle_precompile_address};
use crate::word::{Address, B256, U256, append_bytes};

verus! {

/// The EIP-2718 type byte of a Pachi system transaction.
pub const SYSTEM_TX_TYPE: u8 = 0x50;

/// The fields of a Pachi system transaction.
#[derive(Debug, Clone)]
pub struct SystemTxFields {
    pub chain_id: u64,
    pub nonce: u64,
    pub to: Address,
    pub value: U256,
    pub input: Vec<u8>,
    pub system_tx_type: SystemTxSubtype,
}

/// Generates system transactions for block building.
#[derive(Debug, Clone, Copy)]
pub struct SystemTxGenerator {
    /// Chain ID for system transactions.
    chain_id: u64,
    /// VRF secret key for computing random values (Phase 1: single key held in process).
    vrf_secret_key: Option<[u8; 32]>,
}

/// The fulfill call data: `key ‖ random_value ‖ proof`.
pub open spec fn fulfill_input(key: B256, random_value: B256, proof: Seq<u8>) -> Seq<u8> {
    key.bytes@ + random_value.bytes@ + proof
}

/// Encodes the fulfill call data: `key ‖ random_value ‖ proof`.
pub fn vrf_fulfill_input(key: &B256, random_value: &B256, proof: &[u8]) -> (r: Vec<u8>)
    ensures
        r@ == fulfill_input(*key, *random_value, proof@),
{
    let mut data: Vec<u8> = Vec::new();
    append_bytes(&mut data, &key.bytes);
    append_bytes(&mut data, &random_value.bytes);
    append_bytes(&mut data, proof);
    assert(data@ =~= fulfill_input(*key, *random_value, proof@));
    data
}

/// The typed envelope of an encoded system transaction: its type byte, then
/// the encoding.
pub fn typed_envelope(encoded: &[u8]) -> (r: Vec<u8>)
    ensures
        r@ == seq![SYSTEM_TX_TYPE] + encoded@,
{
    let mut buf: Vec<u8> = Vec::new();
    buf.push(SYSTEM_TX_TYPE);
    append_bytes(&mut buf, encoded);
    assert(buf@ =~= seq![SYSTEM_TX_TYPE] + encoded@);
    buf
}

impl SystemTxGenerator {
    /// The chain the generator signs for.
    pub closed spec fn chain(self) -> u64 {
        self.chain_id
    }

    /// The VRF secret key, if one is set.
    pub closed spec fn secret(self) -> Option<[u8; 32]> {
        self.vrf_secret_key
    }

    /// Creates a new generator with the given chain ID and no VRF key.
    pub fn new(chain_id: u64) -> (r: SystemTxGenerator)
        ensures
            r.chain() == chain_id,
            r.secret() is None,
    {
        SystemTxGenerator { chain_id, vrf_secret_key: None }
    }

    /// Sets the VRF secret key (Phase 1: single sequencer holds the key).
    pub fn with_vrf_secret_key(self, key: [u8; 32]) -> (r: SystemTxGenerator)
        ensures
            r.chain() == self.chain(),
            r.secret() == Some(key),
    {
        let mut g = self;
        g.vrf_secret_key = Some(key);
        g
    }

    /// The chain ID.
    pub fn chain_id(&self) -> (r: u64)
        ensures
            r == self.chain(),
    {
        self.chain_id
    }

    /// The VRF secret key, if one is set.
    pub fn vrf_secret_key(&self) -> (r: Option<[u8; 32]>)
        ensures
            r == self.secret(),
    {
        self.vrf_secret_key
    }

    /// The `OracleUpdate` system transaction carrying an encoded snapshot: to
    /// the price oracle, with no value.
    pub fn oracle_update_fields(&self, data: Vec<u8>, nonce: u64) -> (r: SystemTxFields)
        ensures
            r.chain_id == self.chain(),
            r.nonce == nonce,
            r.to == oracle_address(),
            r.value@ == 0,
            r.input@ == data@,
            r.system_tx_type == SystemTxSubtype::OracleUpdate,
    {
        SystemTxFields {
            chain_id: self.chain_id,
            nonce,
            to: oracle_precompile_address(),
            value: U256::zero(),
            input: data,
            system_tx_type: SystemTxSubtype::OracleUpdate,
        }
    }

    /// The VRF fulfill system transaction for a computed random value and
    /// proof: to `VRF_COMPUTE`, with no value, carrying
    /// `key ‖ random_value ‖ proof`.
    pub fn vrf_fulfill_fields(
        &self,
        key: &B256,
        random_value: &B256,
        proof: &[u8],
        nonce: u64,
    ) -> (r: SystemTxFields)
        ensures
            r.chain_id == self.chain(),
            r.nonce == nonce,
            r.to == vrf_compute_addr(),
            r.value@ == 0,
            r.input@ == fulfill_input(*key, *random_value, proof@),
            r.system_tx_type == SystemTxSubtype::VrfFulfill,
    {
        SystemTxFields {
            chain_id: self.chain_id,
            nonce,
            to: vrf_compute_address(),
            value: U256::zero(),
            input: vrf_fulfill_input(key, random_value, proof),
            system_tx_type: SystemTxSubtype::VrfFulfill,
        }
    }
}

} // verus!
