use vstd::prelude::*;

use crate::address::Address;

verus! {

/// What a vault reports about itself.
#[derive(Clone, Debug)]
pub struct VaultInfo {
    /// The underlying asset.
    pub asset: Address,
    /// Assets under management.
    pub total_assets: i128,
    /// Shares outstanding.
    pub total_shares: i128,
    pub name: String,
    pub symbol: String,
    /// Decimals of a share.
    pub decimals: u32,
    /// Management fee, in basis points.
    pub fee: u32,
    /// The active strategy.
    pub strategy: Address,
}

/// A route the aggregator may offer for a multi-hop swap.
#[derive(Clone, Debug)]
pub struct SwapRoute {
    /// Assets along the route.
    pub path: Vec<Address>,
    /// Pools along the route.
    pub pools: Vec<Address>,
    /// Weight of each route.
    pub distribution: Vec<u32>,
    pub expected_amount: i128,
    pub minimum_amount: i128,
    /// Price impact, in basis points.
    pub price_impact: u32,
}

} // verus!
