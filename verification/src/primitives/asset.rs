//! Supported asset identifiers.

use vstd::prelude::*;

use crate::word::U256;

verus! {

/// Supported asset identifier for the native price oracle.
///
/// Hard-coded: additions require a hard fork.
#[derive(Debug, Clone, Copy, PartialEq, Eq, Structural, PartialOrd, Ord, Hash)]
pub enum AssetId {
    /// BTC/USD
    BTC,
    /// ETH/USD
    ETH,
    /// SOL/USD
    SOL,
    /// USDC/USD (depeg detection)
    USDC,
    /// USDT/USD (depeg detection)
    USDT,
    /// DAI/USD (depeg detection)
    DAI,
}

/// The asset with wire code `v`, if any (codes 0x01 to 0x06).
pub open spec fn asset_of_code(v: u8) -> Option<AssetId> {
    if v == 1 {
        Some(AssetId::BTC)
    } else if v == 2 {
        Some(AssetId::ETH)
    } else if v == 3 {
        Some(AssetId::SOL)
    } else if v == 4 {
        Some(AssetId::USDC)
    } else if v == 5 {
        Some(AssetId::USDT)
    } else if v == 6 {
        Some(AssetId::DAI)
    } else {
        None
    }
}

/// The supported assets, in order.
pub open spec fn all_assets() -> Seq<AssetId> {
    seq![AssetId::BTC, AssetId::ETH, AssetId::SOL, AssetId::USDC, AssetId::USDT, AssetId::DAI]
}

/// The asset's name as `Debug` prints it.
pub open spec fn asset_name(a: AssetId) -> Seq<char> {
    match a {
        AssetId::BTC => "BTC"@,
        AssetId::ETH => "ETH"@,
        AssetId::SOL => "SOL"@,
        AssetId::USDC => "USDC"@,
        AssetId::USDT => "USDT"@,
        AssetId::DAI => "DAI"@,
    }
}

impl AssetId {
    /// The asset's name as `Debug` prints it.
    pub fn name(&self) -> (r: &'static str)
        ensures
            r@ == asset_name(*self),
    {
        match self {
            AssetId::BTC => "BTC",
            AssetId::ETH => "ETH",
            AssetId::SOL => "SOL",
            AssetId::USDC => "USDC",
            AssetId::USDT => "USDT",
            AssetId::DAI => "DAI",
        }
    }

    /// The wire code of the asset.
    pub open spec fn code(self) -> u8 {
        match self {
            AssetId::BTC => 1,
            AssetId::ETH => 2,
            AssetId::SOL => 3,
            AssetId::USDC => 4,
            AssetId::USDT => 5,
            AssetId::DAI => 6,
        }
    }

    /// All supported assets in order.
    pub fn all() -> (r: [AssetId; 6])
        ensures
            r@ == all_assets(),
    {
        let r = [AssetId::BTC, AssetId::ETH, AssetId::SOL, AssetId::USDC, AssetId::USDT, AssetId::DAI];
        assert(r@ =~= all_assets());
        r
    }

    /// Try to convert a `u8` to an [`AssetId`].
    pub fn from_u8(v: u8) -> (r: Option<AssetId>)
        ensures
            r == asset_of_code(v),
    {
        match v {
            1 => Some(AssetId::BTC),
            2 => Some(AssetId::ETH),
            3 => Some(AssetId::SOL),
            4 => Some(AssetId::USDC),
            5 => Some(AssetId::USDT),
            6 => Some(AssetId::DAI),
            _ => None,
        }
    }

    /// Returns true if the given `u8` is a supported asset ID.
    pub fn is_supported(v: u8) -> (r: bool)
        ensures
            r == (asset_of_code(v) is Some),
            r == (1 <= v <= 6),
    {
        AssetId::from_u8(v).is_some()
    }

    /// Returns the `u8` value.
    pub fn as_u8(self) -> (r: u8)
        ensures
            r == self.code(),
    {
        match self {
            AssetId::BTC => 1,
            AssetId::ETH => 2,
            AssetId::SOL => 3,
            AssetId::USDC => 4,
            AssetId::USDT => 5,
            AssetId::DAI => 6,
        }
    }

    /// Returns the storage base slot for this asset in the oracle precompile.
    ///
    /// Each asset uses 2 slots: `base` for price, `base + 1` for packed timestamp/confidence.
    pub fn storage_base_slot(self) -> (r: U256)
        ensures
            r@ == 2 * self.code(),
    {
        U256::from_u64(self.as_u8() as u64 * 2)
    }
}

/// Converting an asset to its code and back gives the asset; every supported
/// code names a distinct asset.
pub proof fn lemma_asset_code_roundtrip(a: AssetId)
    ensures
        asset_of_code(a.code()) == Some(a),
        1 <= a.code() <= 6,
{
}

/// Distinct assets have distinct codes, so their oracle slots never overlap.
pub proof fn lemma_asset_codes_distinct(a: AssetId, b: AssetId)
    requires
        a != b,
    ensures
        a.code() != b.code(),
        2 * a.code() + 1 < 2 * b.code() || 2 * b.code() + 1 < 2 * a.code(),
{
}

} // verus!
