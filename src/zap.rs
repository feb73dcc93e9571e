use vstd::prelude::*;

use crate::address::Address;
use crate::config::ContractAddresses;

verus! {

/// Ledgers for which the aggregator may spend the input it was allowed.
pub const AGGREGATOR_ALLOWANCE_LEDGERS: u32 = 100;

/// Ledgers for which the vault may spend the swapped amount it was allowed.
pub const VAULT_ALLOWANCE_LEDGERS: u32 = 1000;

/// Why an operation was rejected. Every rejection aborts the whole
/// invocation, so nothing done before it is kept.
#[derive(Clone, Copy, Debug, PartialEq, Eq, Structural)]
pub enum ZapError {
    /// The input amount is not strictly positive.
    InvalidAmount,
    /// The swap paid out less than the caller's floor.
    InsufficientOutput,
    /// The caller did not authorize the invocation.
    Unauthorized,
    /// An outside contract aborted.
    ExternalCallFailure,
    /// An outside contract answered with a value of an unexpected shape.
    DecodeMismatch,
}

/// The arguments handed to the aggregator's `swap` and `get_amounts_out`.
#[derive(Clone, Debug)]
pub struct SwapPath {
    pub token_in: Address,
    pub token_out: Address,
    pub amount_in: i128,
    pub amount_out_min: i128,
    /// Weight of each route.
    pub distribution: Vec<u32>,
    /// Assets along the route.
    pub path: Vec<Address>,
}

/// What a completed zap credited.
#[derive(Clone, Debug)]
pub struct ZapResult {
    /// The swap's output, or the input amount when no swap was needed.
    pub amount_swapped: i128,
    /// Vault shares credited to the depositor.
    pub vault_shares: i128,
    pub vault_address: Address,
}

/// One thing for the host to do on behalf of a zap session.
#[derive(Debug)]
pub enum Action {
    /// Demand the address's authorization of this invocation.
    RequireAuth { address: Address },
    /// Move `amount` of `token` from `from` into this contract's custody.
    PullIn { token: Address, from: Address, amount: i128 },
    /// Let `spender` move `amount` of this contract's `token` for the next
    /// `ledgers` ledgers.
    Approve { token: Address, spender: Address, amount: i128, ledgers: u32 },
    /// Ask the aggregator's `get_best_route` for a path and distribution.
    FindRoute { aggregator: Address, token_in: Address, token_out: Address, amount_in: i128 },
    /// Call the aggregator's `swap`.
    Swap { aggregator: Address, swap: SwapPath },
    /// Call the vault's `deposit(asset, amount, receiver)`.
    Deposit { vault: Address, asset: Address, amount: i128, receiver: Address },
    /// The zap succeeded: publish the result and return it.
    Complete(ZapResult),
    /// The zap failed: abort the invocation with this error.
    Abort(ZapError),
    /// The session is over; nothing is left to do.
    Idle,
}

/// The host's answer to the last action.
#[derive(Debug)]
pub enum Reply {
    /// The action was carried out and returned nothing.
    Done,
    /// The call returned a signed amount.
    Amount(i128),
    /// The route query returned a path and a distribution.
    Route { path: Vec<Address>, distribution: Vec<u32> },
    /// The authorization was refused.
    Denied,
    /// The outside contract aborted.
    Failed,
    /// The outside contract returned a value of another shape.
    Malformed,
}

/// Where a zap session stands: the action it last handed out.
#[derive(Debug)]
pub enum Stage {
    Authorizing { path: Vec<Address>, distribution: Vec<u32> },
    PullingIn { path: Vec<Address>, distribution: Vec<u32> },
    ApprovingAggregator { path: Vec<Address>, distribution: Vec<u32> },
    FindingRoute,
    Swapping,
    ApprovingVault { swapped: i128 },
    Depositing { swapped: i128 },
    Closed,
}

/// A zap session: swap `amount_in` of `from_token` into `to_token`
/// (when they differ) and deposit the proceeds into `vault_address` on
/// behalf of `user`.
#[derive(Debug)]
pub struct Zap {
    pub user: Address,
    pub from_token: Address,
    pub amount_in: i128,
    pub to_token: Address,
    pub vault_address: Address,
    pub min_amount_out: i128,
    pub aggregator: Address,
    pub stage: Stage,
}

/// The error that an unexpected reply aborts a session with.
pub open spec fn failure_of(reply: Reply) -> ZapError {
    match reply {
        Reply::Denied => ZapError::Unauthorized,
        Reply::Failed => ZapError::ExternalCallFailure,
        _ => ZapError::DecodeMismatch,
    }
}

/// The signed amount a reply carries, or why it carries none.
pub open spec fn decode_amount(reply: Reply) -> Result<i128, ZapError> {
    match reply {
        Reply::Amount(a) => Ok(a),
        _ => Err(failure_of(reply)),
    }
}

impl Zap {
    pub open spec fn at(self, stage: Stage) -> Zap {
        Zap { stage, ..self }
    }

    pub open spec fn needs_swap(self) -> bool {
        self.from_token@ != self.to_token@
    }

    pub open spec fn swap_request(self, path: Vec<Address>, distribution: Vec<u32>) -> SwapPath {
        SwapPath {
            token_in: self.from_token,
            token_out: self.to_token,
            amount_in: self.amount_in,
            amount_out_min: self.min_amount_out,
            distribution,
            path,
        }
    }

    /// The step after the swap (or in place of it): the slippage check, then
    /// the vault's allowance.
    pub open spec fn settle(self, swapped: i128) -> (Zap, Action) {
        if swapped < self.min_amount_out {
            (self.at(Stage::Closed), Action::Abort(ZapError::InsufficientOutput))
        } else {
            (
                self.at(Stage::ApprovingVault { swapped }),
                Action::Approve {
                    token: self.to_token,
                    spender: self.vault_address,
                    amount: swapped,
                    ledgers: VAULT_ALLOWANCE_LEDGERS,
                },
            )
        }
    }

    /// The call to the aggregator's `swap` along the given route.
    pub open spec fn swap_along(self, path: Vec<Address>, distribution: Vec<u32>) -> (Zap, Action) {
        (
            self.at(Stage::Swapping),
            Action::Swap { aggregator: self.aggregator, swap: self.swap_request(path, distribution) },
        )
    }

    /// The session closed with the error an unexpected reply stands for.
    pub open spec fn abort_on(self, reply: Reply) -> (Zap, Action) {
        (self.at(Stage::Closed), Action::Abort(failure_of(reply)))
    }

    /// The next session state and action after `reply`.
    pub open spec fn transition(self, reply: Reply) -> (Zap, Action) {
        match self.stage {
            Stage::Authorizing { path, distribution } => match reply {
                Reply::Done => if self.amount_in <= 0 {
                    (self.at(Stage::Closed), Action::Abort(ZapError::InvalidAmount))
                } else {
                    (
                        self.at(Stage::PullingIn { path, distribution }),
                        Action::PullIn { token: self.from_token, from: self.user, amount: self.amount_in },
                    )
                },
                _ => self.abort_on(reply),
            },
            Stage::PullingIn { path, distribution } => match reply {
                Reply::Done => if !self.needs_swap() {
                    self.settle(self.amount_in)
                } else {
                    (
                        self.at(Stage::ApprovingAggregator { path, distribution }),
                        Action::Approve {
                            token: self.from_token,
                            spender: self.aggregator,
                            amount: self.amount_in,
                            ledgers: AGGREGATOR_ALLOWANCE_LEDGERS,
                        },
                    )
                },
                _ => self.abort_on(reply),
            },
            Stage::ApprovingAggregator { path, distribution } => match reply {
                Reply::Done => if path@.len() == 0 {
                    (
                        self.at(Stage::FindingRoute),
                        Action::FindRoute {
                            aggregator: self.aggregator,
                            token_in: self.from_token,
                            token_out: self.to_token,
                            amount_in: self.amount_in,
                        },
                    )
                } else {
                    self.swap_along(path, distribution)
                },
                _ => self.abort_on(reply),
            },
            Stage::FindingRoute => match reply {
                Reply::Route { path, distribution } => self.swap_along(path, distribution),
                _ => self.abort_on(reply),
            },
            Stage::Swapping => match reply {
                Reply::Amount(out) => self.settle(out),
                _ => self.abort_on(reply),
            },
            Stage::ApprovingVault { swapped } => match reply {
                Reply::Done => (
                    self.at(Stage::Depositing { swapped }),
                    Action::Deposit {
                        vault: self.vault_address,
                        asset: self.to_token,
                        amount: swapped,
                        receiver: self.user,
                    },
                ),
                _ => self.abort_on(reply),
            },
            Stage::Depositing { swapped } => match reply {
                Reply::Amount(shares) => (
                    self.at(Stage::Closed),
                    Action::Complete(
                        ZapResult {
                            amount_swapped: swapped,
                            vault_shares: shares,
                            vault_address: self.vault_address,
                        },
                    ),
                ),
                _ => self.abort_on(reply),
            },
            Stage::Closed => (self, Action::Idle),
        }
    }

    /// What every reachable session state satisfies.
    pub open spec fn wf(self) -> bool {
        &&& self.amount_in <= 0 ==> (self.stage is Authorizing || self.stage is Closed)
        &&& (self.stage is ApprovingAggregator || self.stage is FindingRoute
            || self.stage is Swapping) ==> self.needs_swap()
        &&& match self.stage {
            Stage::ApprovingVault { swapped } | Stage::Depositing { swapped } => {
                &&& swapped >= self.min_amount_out
                &&& !self.needs_swap() ==> swapped == self.amount_in
            },
            _ => true,
        }
    }
}

/// The error that an unexpected reply aborts a session with.
fn failure(reply: &Reply) -> (e: ZapError)
    ensures
        e == failure_of(*reply),
{
    match reply {
        Reply::Denied => ZapError::Unauthorized,
        Reply::Failed => ZapError::ExternalCallFailure,
        _ => ZapError::DecodeMismatch,
    }
}

impl Zap {
    /// Opens a zap session for `user`. Its first action demands the user's
    /// authorization; each later one comes from `resume`. An empty
    /// `swap_path` lets the aggregator choose the route.
    pub fn zap_and_deposit(
        contracts: &ContractAddresses,
        user: Address,
        from_token: Address,
        amount_in: i128,
        to_token: Address,
        vault_address: Address,
        min_amount_out: i128,
        swap_path: Vec<Address>,
        distribution: Vec<u32>,
    ) -> (r: (Zap, Action))
        ensures
            r.0 == (Zap {
                user,
                from_token,
                amount_in,
                to_token,
                vault_address,
                min_amount_out,
                aggregator: contracts.soroswap_aggregator,
                stage: Stage::Authorizing { path: swap_path, distribution },
            }),
            r.1 == (Action::RequireAuth { address: user }),
            r.0.wf(),
    {
        let address = user.copied();
        let zap = Zap {
            user,
            from_token,
            amount_in,
            to_token,
            vault_address,
            min_amount_out,
            aggregator: contracts.soroswap_aggregator.copied(),
            stage: Stage::Authorizing { path: swap_path, distribution },
        };
        (zap, Action::RequireAuth { address })
    }

    /// Takes the host's reply to the last action and hands out the next one.
    /// A session never moves funds for a non-positive amount, never deposits
    /// less than the caller's floor, and stays closed once it has aborted or
    /// completed.
    pub fn resume(self, reply: Reply) -> (r: (Zap, Action))
        ensures
            r == self.transition(reply),
            self.wf() ==> r.0.wf(),
            r.1 is PullIn ==> self.amount_in > 0,
            self.stage is Authorizing && reply is Done && self.amount_in <= 0 ==> {
                &&& r.1 == Action::Abort(ZapError::InvalidAmount)
                &&& r.0.stage is Closed
            },
            self.stage is Swapping ==> (reply matches Reply::Amount(out) && out < self.min_amount_out
                ==> {
                &&& r.1 == Action::Abort(ZapError::InsufficientOutput)
                &&& r.0.stage is Closed
            }),
            self.wf() ==> (r.1 matches Action::Deposit { amount, .. } ==> amount >= self.min_amount_out),
            self.wf() ==> (r.1 matches Action::Complete(res) ==> {
                &&& res.amount_swapped >= self.min_amount_out
                &&& !self.needs_swap() ==> res.amount_swapped == self.amount_in
            }),
            self.stage is Closed ==> r.1 is Idle,
    {
        match self.stage {
            Stage::Authorizing { path, distribution } => match reply {
                Reply::Done => {
                    if self.amount_in <= 0 {
                        (Zap { stage: Stage::Closed, ..self }, Action::Abort(ZapError::InvalidAmount))
                    } else {
                        let action = Action::PullIn {
                            token: self.from_token.copied(),
                            from: self.user.copied(),
                            amount: self.amount_in,
                        };
                        (Zap { stage: Stage::PullingIn { path, distribution }, ..self }, action)
                    }
                },
                _ => Zap { stage: Stage::Closed, ..self }.close_on(reply),
            },
            Stage::PullingIn { path, distribution } => match reply {
                Reply::Done => {
                    if self.from_token.same_as(&self.to_token) {
                        let amount_in = self.amount_in;
                        Zap { stage: Stage::Closed, ..self }.settle_with(amount_in)
                    } else {
                        let action = Action::Approve {
                            token: self.from_token.copied(),
                            spender: self.aggregator.copied(),
                            amount: self.amount_in,
                            ledgers: AGGREGATOR_ALLOWANCE_LEDGERS,
                        };
                        (Zap { stage: Stage::ApprovingAggregator { path, distribution }, ..self }, action)
                    }
                },
                _ => Zap { stage: Stage::Closed, ..self }.close_on(reply),
            },
            Stage::ApprovingAggregator { path, distribution } => match reply {
                Reply::Done => {
                    if path.len() == 0 {
                        let action = Action::FindRoute {
                            aggregator: self.aggregator.copied(),
                            token_in: self.from_token.copied(),
                            token_out: self.to_token.copied(),
                            amount_in: self.amount_in,
                        };
                        (Zap { stage: Stage::FindingRoute, ..self }, action)
                    } else {
                        Zap { stage: Stage::Closed, ..self }.swap_with(path, distribution)
                    }
                },
                _ => Zap { stage: Stage::Closed, ..self }.close_on(reply),
            },
            Stage::FindingRoute => match reply {
                Reply::Route { path, distribution } => self.swap_with(path, distribution),
                _ => self.close_on(reply),
            },
            Stage::Swapping => match reply {
                Reply::Amount(out) => self.settle_with(out),
                _ => self.close_on(reply),
            },
            Stage::ApprovingVault { swapped } => match reply {
                Reply::Done => {
                    let action = Action::Deposit {
                        vault: self.vault_address.copied(),
                        asset: self.to_token.copied(),
                        amount: swapped,
                        receiver: self.user.copied(),
                    };
                    (Zap { stage: Stage::Depositing { swapped }, ..self }, action)
                },
                _ => self.close_on(reply),
            },
            Stage::Depositing { swapped } => match reply {
                Reply::Amount(shares) => {
                    let result = ZapResult {
                        amount_swapped: swapped,
                        vault_shares: shares,
                        vault_address: self.vault_address.copied(),
                    };
                    (Zap { stage: Stage::Closed, ..self }, Action::Complete(result))
                },
                _ => self.close_on(reply),
            },
            Stage::Closed => (self, Action::Idle),
        }
    }

    fn settle_with(self, swapped: i128) -> (r: (Zap, Action))
        ensures
            r == self.settle(swapped),
    {
        if swapped < self.min_amount_out {
            (Zap { stage: Stage::Closed, ..self }, Action::Abort(ZapError::InsufficientOutput))
        } else {
            let action = Action::Approve {
                token: self.to_token.copied(),
                spender: self.vault_address.copied(),
                amount: swapped,
                ledgers: VAULT_ALLOWANCE_LEDGERS,
            };
            (Zap { stage: Stage::ApprovingVault { swapped }, ..self }, action)
        }
    }

    fn swap_with(self, path: Vec<Address>, distribution: Vec<u32>) -> (r: (Zap, Action))
        ensures
            r == self.swap_along(path, distribution),
    {
        let swap = SwapPath {
            token_in: self.from_token.copied(),
            token_out: self.to_token.copied(),
            amount_in: self.amount_in,
            amount_out_min: self.min_amount_out,
            distribution,
            path,
        };
        let aggregator = self.aggregator.copied();
        (Zap { stage: Stage::Swapping, ..self }, Action::Swap { aggregator, swap })
    }

    fn close_on(self, reply: Reply) -> (r: (Zap, Action))
        ensures
            r == self.abort_on(reply),
    {
        let e = failure(&reply);
        (Zap { stage: Stage::Closed, ..self }, Action::Abort(e))
    }
}

/// A read-only call for the host to make.
#[derive(Debug)]
pub enum Query {
    /// The aggregator's `get_amounts_out(token_in, token_out, amount_in, path,
    /// distribution)`.
    Quote {
        aggregator: Address,
        token_in: Address,
        token_out: Address,
        amount_in: i128,
        path: Vec<Address>,
        distribution: Vec<u32>,
    },
    /// The vault's `preview_deposit(amount)`.
    PreviewDeposit { vault: Address, amount: i128 },
    /// The vault's `get_info()`, whose records are handed back as they are.
    VaultInfo { vault: Address },
}

impl Zap {
    /// The aggregator's estimate of what a swap of `amount_in` along the
    /// given route would pay out.
    pub fn get_swap_quote(
        contracts: &ContractAddresses,
        token_in: Address,
        token_out: Address,
        amount_in: i128,
        path: Vec<Address>,
        distribution: Vec<u32>,
    ) -> (q: Query)
        ensures
            q == (Query::Quote {
                aggregator: contracts.soroswap_aggregator,
                token_in,
                token_out,
                amount_in,
                path,
                distribution,
            }),
    {
        Query::Quote {
            aggregator: contracts.soroswap_aggregator.copied(),
            token_in,
            token_out,
            amount_in,
            path,
            distribution,
        }
    }

    /// The shares a vault would credit for a deposit of `amount`.
    pub fn preview_vault_deposit(vault_address: Address, amount: i128) -> (q: Query)
        ensures
            q == (Query::PreviewDeposit { vault: vault_address, amount }),
    {
        Query::PreviewDeposit { vault: vault_address, amount }
    }

    /// The records a vault publishes about itself.
    pub fn get_vault_info(vault_address: Address) -> (q: Query)
        ensures
            q == (Query::VaultInfo { vault: vault_address }),
    {
        Query::VaultInfo { vault: vault_address }
    }

    /// The signed amount an outside call answered with, or the error its
    /// reply stands for.
    pub fn read_amount(reply: Reply) -> (r: Result<i128, ZapError>)
        ensures
            r == decode_amount(reply),
    {
        match reply {
            Reply::Amount(a) => Ok(a),
            _ => Err(failure(&reply)),
        }
    }
}

/// A quote and a zap that meet the same aggregator agree. When the swap of a
/// session pays out what the aggregator quoted and that clears the floor,
/// the quote reads back as that amount and the completed zap reports it as
/// the amount swapped.
pub proof fn lemma_quote_matches_zap(z: Zap, quote: i128, shares: i128)
    requires
        z.wf(),
        z.stage is Swapping,
        quote >= z.min_amount_out,
    ensures
        decode_amount(Reply::Amount(quote)) == Ok::<i128, ZapError>(quote),
        ({
            let (z1, a1) = z.transition(Reply::Amount(quote));
            let (z2, a2) = z1.transition(Reply::Done);
            let (z3, a3) = z2.transition(Reply::Amount(shares));
            a3 == Action::Complete(
                ZapResult { amount_swapped: quote, vault_shares: shares, vault_address: z.vault_address },
            )
        }),
{
}

/// A zap between one asset and itself swaps nothing. Once authorized and
/// funded, it grants the vault an allowance over the whole input, deposits
/// the whole input, and completes with the input amount as the amount
/// swapped, whenever the input clears the floor.
pub proof fn lemma_same_asset_run(z: Zap, shares: i128)
    requires
        z.stage is Authorizing,
        z.amount_in > 0,
        z.from_token@ == z.to_token@,
        z.amount_in >= z.min_amount_out,
    ensures
        ({
            let (z1, a1) = z.transition(Reply::Done);
            let (z2, a2) = z1.transition(Reply::Done);
            let (z3, a3) = z2.transition(Reply::Done);
            let (z4, a4) = z3.transition(Reply::Amount(shares));
            &&& a1 == Action::PullIn { token: z.from_token, from: z.user, amount: z.amount_in }
            &&& a2 == Action::Approve {
                token: z.to_token,
                spender: z.vault_address,
                amount: z.amount_in,
                ledgers: VAULT_ALLOWANCE_LEDGERS,
            }
            &&& a3 == Action::Deposit {
                vault: z.vault_address,
                asset: z.to_token,
                amount: z.amount_in,
                receiver: z.user,
            }
            &&& a4 == Action::Complete(
                ZapResult {
                    amount_swapped: z.amount_in,
                    vault_shares: shares,
                    vault_address: z.vault_address,
                },
            )
        }),
{
}

/// A non-positive amount is refused as invalid right after the
/// authorization check. No reply ever draws a transfer out of such a
/// session, and once refused it hands out nothing more.
pub proof fn lemma_non_positive_amount_run(z: Zap, first: Reply, later: Reply)
    requires
        z.stage is Authorizing,
        z.amount_in <= 0,
    ensures
        z.transition(Reply::Done).1 == Action::Abort(ZapError::InvalidAmount),
        !(z.transition(first).1 is PullIn),
        z.transition(first).0.transition(later).1 is Idle,
{
}

} // verus!
