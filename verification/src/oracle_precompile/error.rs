//! Oracle precompile errors.

use vstd::prelude::*;

use vstd::string::StringExecFns;

use crate::primitives::asset::{AssetId, asset_name};
use crate::text::{append_hex, hex_bytes};

verus! {

/// Errors returned by oracle precompile operations.
#[derive(Debug, Clone, Copy, PartialEq, Eq, Structural)]
pub enum OraclePrecompileError {
    /// Asset ID is not in the supported set.
    UnsupportedAsset {
        /// The raw asset ID byte.
        asset_id: u8,
    },
    /// Snapshot is missing an entry for a supported asset.
    MissingAsset(AssetId),
    /// Snapshot contains an unsupported asset.
    SnapshotUnsupportedAsset {
        /// The raw asset ID byte.
        asset_id: u8,
    },
}

/// The message of an oracle precompile error; an asset id prints as `0x` and
/// two hexadecimal digits.
pub open spec fn oracle_error_text(e: OraclePrecompileError) -> Seq<char> {
    match e {
        OraclePrecompileError::UnsupportedAsset { asset_id } => "unsupported asset: 0x"@ + hex_bytes(
            seq![asset_id],
        ),
        OraclePrecompileError::MissingAsset(a) => "snapshot missing asset: "@ + asset_name(a),
        OraclePrecompileError::SnapshotUnsupportedAsset {
            asset_id,
        } => "snapshot contains unsupported asset: 0x"@ + hex_bytes(seq![asset_id]),
    }
}

impl OraclePrecompileError {
    /// The error's message.
    pub fn message(&self) -> (r: String)
        ensures
            r@ == oracle_error_text(*self),
    {
        match self {
            OraclePrecompileError::UnsupportedAsset { asset_id } => {
                let mut m = String::from_str("unsupported asset: 0x");
                let b = [*asset_id];
                assert(b@ =~= seq![*asset_id]);
                append_hex(&mut m, &b);
                m
            },
            OraclePrecompileError::MissingAsset(a) => {
                let mut m = String::from_str("snapshot missing asset: ");
                m.append(a.name());
                m
            },
            OraclePrecompileError::SnapshotUnsupportedAsset { asset_id } => {
                let mut m = String::from_str("snapshot contains unsupported asset: 0x");
                let b = [*asset_id];
                assert(b@ =~= seq![*asset_id]);
                append_hex(&mut m, &b);
                m
            },
        }
    }
}

} // verus!
