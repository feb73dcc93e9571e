use vstd::prelude::*;

use crate::address::Address;

verus! {

/// What the fixed-rate aggregator pays out, and quotes, for `amount_in`:
/// ninety-five hundredths of it, rounded down.
pub open spec fn fixed_rate_out(amount_in: int) -> int {
    amount_in * 95 / 100
}

/// An aggregator that trades every pair at a fixed rate along a single
/// direct route, to exercise zap sessions.
#[derive(Clone, Copy, Debug)]
pub struct MockSoroswapAggregator;

impl MockSoroswapAggregator {
    /// Swaps at the fixed rate, whatever the route.
    pub fn swap(
        _token_in: Address,
        _token_out: Address,
        amount_in: i128,
        _amount_out_min: i128,
        _path: Vec<Address>,
        _distribution: Vec<u32>,
    ) -> (r: i128)
        requires
            0 <= amount_in <= i128::MAX / 95,
        ensures
            r == fixed_rate_out(amount_in as int),
    {
        amount_in * 95 / 100
    }

    /// Quotes the fixed rate, whatever the route.
    pub fn get_amounts_out(
        _token_in: Address,
        _token_out: Address,
        amount_in: i128,
        _path: Vec<Address>,
        _distribution: Vec<u32>,
    ) -> (r: i128)
        requires
            0 <= amount_in <= i128::MAX / 95,
        ensures
            r == fixed_rate_out(amount_in as int),
    {
        amount_in * 95 / 100
    }

    /// The direct route from `token_in` to `token_out`, taking all of the
    /// amount.
    pub fn get_best_route(token_in: Address, token_out: Address, _amount_in: i128) -> (r: (
        Vec<Address>,
        Vec<u32>,
    ))
        ensures
            r.0@ == seq![token_in, token_out],
            r.1@ == seq![100u32],
    {
        let mut path: Vec<Address> = Vec::new();
        path.push(token_in);
        path.push(token_out);
        let mut distribution: Vec<u32> = Vec::new();
        distribution.push(100);
        assert(path@ =~= seq![token_in, token_out]);
        assert(distribution@ =~= seq![100u32]);
        (path, distribution)
    }
}

/// A vault that credits one share for every two units deposited, to
/// exercise zap sessions.
#[derive(Clone, Copy, Debug)]
pub struct MockVault;

impl MockVault {
    /// Credits half the amount, rounded down, as shares.
    pub fn deposit(_asset: Address, amount: i128, _receiver: Address) -> (r: i128)
        requires
            amount >= 0,
        ensures
            r == amount / 2,
    {
        amount / 2
    }

    /// Pays out two units for every share.
    pub fn withdraw(shares: i128, _receiver: Address) -> (r: i128)
        requires
            i128::MIN <= shares * 2 <= i128::MAX,
        ensures
            r == shares * 2,
    {
        shares * 2
    }

    /// Total assets, then total shares.
    pub fn get_info() -> (r: Vec<i128>)
        ensures
            r@ == seq![1000000i128, 500000i128],
    {
        let mut info: Vec<i128> = Vec::new();
        info.push(1000000);
        info.push(500000);
        assert(info@ =~= seq![1000000i128, 500000i128]);
        info
    }

    /// The shares a deposit of `assets` would credit.
    pub fn preview_deposit(assets: i128) -> (r: i128)
        requires
            assets >= 0,
        ensures
            r == assets / 2,
    {
        assets / 2
    }

    /// Every holder's share balance.
    pub fn balance_of(_user: Address) -> (r: i128)
        ensures
            r == 100,
    {
        100
    }
}

} // verus!
