//! Pachi consensus error types.

use vstd::prelude::*;

use vstd::string::StringExecFns;

use crate::primitives::asset::{AssetId, asset_name};
use crate::text::{append_decimal, append_hex, decimal, hex_bytes};

verus! {

/// Pachi-specific consensus validation errors.
#[derive(Debug, Clone, Copy, PartialEq, Eq)]
pub enum PachiConsensusError {
    /// Block is missing the mandatory `OracleUpdate` system transaction.
    MissingOracleUpdate,
    /// `OracleUpdate` is not the last transaction in the block.
    OracleUpdateNotLast,
    /// A supported asset is missing from the `OracleUpdate` snapshot.
    MissingAsset(AssetId),
    /// An unsupported asset is present in the `OracleUpdate` snapshot.
    UnsupportedAsset(u8),
    /// Engine version in the `OracleUpdate` does not match the node's version.
    EngineVersionMismatch {
        /// Expected engine version.
        expected: u16,
        /// Actual engine version in the block.
        got: u16,
    },
    /// VRF fulfill system tx appears after the `OracleUpdate` (must come before).
    VrfFulfillAfterOracleUpdate {
        /// Index of the fulfill tx in the block.
        fulfill_idx: usize,
    },
    /// `OracleUpdate` has an invalid price entry for an asset.
    InvalidAssetPrice {
        /// The asset with the invalid price.
        asset: AssetId,
        /// Description of what's wrong.
        reason: &'static str,
    },
    /// A system transaction appears before a user transaction.
    SystemTxBeforeUserTx(usize, usize),
    /// Multiple `OracleUpdate` system transactions in one block.
    MultipleOracleUpdates,
}

/// The message of a consensus error.
pub open spec fn consensus_error_text(e: PachiConsensusError) -> Seq<char> {
    match e {
        PachiConsensusError::MissingOracleUpdate => "missing OracleUpdate system transaction"@,
        PachiConsensusError::OracleUpdateNotLast => "OracleUpdate must be the last transaction in the block"@,
        PachiConsensusError::MissingAsset(a) => "missing asset "@ + asset_name(a) + " in OracleUpdate"@,
        PachiConsensusError::UnsupportedAsset(id) => "unsupported asset ID 0x"@ + hex_bytes(seq![id])
            + " in OracleUpdate"@,
        PachiConsensusError::EngineVersionMismatch { expected, got } => "engine version mismatch: expected "@
            + decimal(expected as nat) + ", got "@ + decimal(got as nat),
        PachiConsensusError::VrfFulfillAfterOracleUpdate { fulfill_idx } => "VRF fulfill at index "@
            + decimal(fulfill_idx as nat) + " appears after OracleUpdate"@,
        PachiConsensusError::InvalidAssetPrice { asset, reason } => "invalid price for asset "@
            + asset_name(asset) + ": "@ + reason@,
        PachiConsensusError::SystemTxBeforeUserTx(i, j) => "system transaction at index "@ + decimal(
            i as nat,
        ) + " appears before user transactions end at "@ + decimal(j as nat),
        PachiConsensusError::MultipleOracleUpdates => "multiple OracleUpdate system transactions"@,
    }
}

impl PachiConsensusError {
    /// The error's message.
    pub fn message(&self) -> (r: String)
        ensures
            r@ == consensus_error_text(*self),
    {
        match self {
            PachiConsensusError::MissingOracleUpdate => String::from_str("missing OracleUpdate system transaction"),
            PachiConsensusError::OracleUpdateNotLast => String::from_str(
                "OracleUpdate must be the last transaction in the block",
            ),
            PachiConsensusError::MissingAsset(a) => {
                let mut m = String::from_str("missing asset ");
                m.append(a.name());
                m.append(" in OracleUpdate");
                m
            },
            PachiConsensusError::UnsupportedAsset(id) => {
                let mut m = String::from_str("unsupported asset ID 0x");
                let b = [*id];
                assert(b@ =~= seq![*id]);
                append_hex(&mut m, &b);
                m.append(" in OracleUpdate");
                m
            },
            PachiConsensusError::EngineVersionMismatch { expected, got } => {
                let mut m = String::from_str("engine version mismatch: expected ");
                append_decimal(&mut m, *expected as u64);
                m.append(", got ");
                append_decimal(&mut m, *got as u64);
                m
            },
            PachiConsensusError::VrfFulfillAfterOracleUpdate { fulfill_idx } => {
                let mut m = String::from_str("VRF fulfill at index ");
                append_decimal(&mut m, *fulfill_idx as u64);
                m.append(" appears after OracleUpdate");
                m
            },
            PachiConsensusError::InvalidAssetPrice { asset, reason } => {
                let mut m = String::from_str("invalid price for asset ");
                m.append(asset.name());
                m.append(": ");
                m.append(reason);
                m
            },
            PachiConsensusError::SystemTxBeforeUserTx(i, j) => {
                let mut m = String::from_str("system transaction at index ");
                append_decimal(&mut m, *i as u64);
                m.append(" appears before user transactions end at ");
                append_decimal(&mut m, *j as u64);
                m
            },
            PachiConsensusError::MultipleOracleUpdates => String::from_str(
                "multiple OracleUpdate system transactions",
            ),
        }
    }
}

} // verus!
