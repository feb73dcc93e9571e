use vstd::prelude::*;

use crate::address::Address;
use crate::zap::{Zap, ZapError};

verus! {

/// The administrator, recorded once at initialization and kept for the
/// deployment's lifetime.
#[derive(Clone, Debug)]
pub struct AdminRecord {
    pub admin: Address,
}

/// A drain of this contract's custody that the administrator may make:
/// once `admin` has authorized it, move `amount` of `token` to `to`.
#[derive(Clone, Debug)]
pub struct Withdrawal {
    pub admin: Address,
    pub token: Address,
    pub amount: i128,
    pub to: Address,
}

/// The record that initialization with `admin` stores.
pub open spec fn recorded(admin: Address) -> AdminRecord {
    AdminRecord { admin }
}

/// The drain presented by `admin`, granted only to the recorded
/// administrator.
pub open spec fn withdrawal_of(
    record: Option<AdminRecord>,
    admin: Address,
    token: Address,
    amount: i128,
    to: Address,
) -> Result<Withdrawal, ZapError> {
    match record {
        Some(rec) => if admin@ == rec.admin@ {
            Ok(Withdrawal { admin, token, amount, to })
        } else {
            Err(ZapError::Unauthorized)
        },
        None => Err(ZapError::Unauthorized),
    }
}

impl Zap {
    /// The administrator record for `admin`.
    pub fn initialize(admin: Address) -> (r: AdminRecord)
        ensures
            r == recorded(admin),
    {
        AdminRecord { admin }
    }

    /// Checks a drain presented by `admin` against the stored record (none
    /// before initialization). Only the recorded administrator is granted
    /// it; the host must still demand that address's authorization.
    pub fn emergency_withdraw(
        record: &Option<AdminRecord>,
        admin: Address,
        token: Address,
        amount: i128,
        to: Address,
    ) -> (r: Result<Withdrawal, ZapError>)
        ensures
            r == withdrawal_of(*record, admin, token, amount, to),
    {
        match record {
            Some(rec) => {
                if admin.same_as(&rec.admin) {
                    Ok(Withdrawal { admin, token, amount, to })
                } else {
                    Err(ZapError::Unauthorized)
                }
            },
            None => Err(ZapError::Unauthorized),
        }
    }
}

/// After initialization with `admin`, a drain presented by that address
/// moves exactly the amount asked, of the token asked, to the recipient
/// asked; one presented by any other address is refused as unauthorized.
pub proof fn lemma_admin_drain(
    admin: Address,
    caller: Address,
    token: Address,
    amount: i128,
    to: Address,
)
    ensures
        caller@ == admin@ ==> withdrawal_of(Some(recorded(admin)), caller, token, amount, to)
            == Ok::<Withdrawal, ZapError>(Withdrawal { admin: caller, token, amount, to }),
        caller@ != admin@ ==> withdrawal_of(Some(recorded(admin)), caller, token, amount, to)
            == Err::<Withdrawal, ZapError>(ZapError::Unauthorized),
{
}

} // verus!
