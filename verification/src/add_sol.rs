use vstd::prelude::*;

use crate::errors::VaultError;

verus! {

/// Account set a deposit declares: the paying caller and the escrow
/// account of the targeted vault. A deposit needs no vault record, only
/// a valid escrow reference, and it leaves `locked_amount` and the
/// claim-receipt supply untouched: deposited lamports are not matched by
/// newly minted claim receipts.
pub struct AddSol {
    pub user: u64,
    pub user_lamports: u64,
    /// Address of the escrow account.
    pub vault_pda: u64,
    /// Balance of the escrow account.
    pub vault_pda_lamports: u64,
}

/// Event emitted by a successful deposit.
#[derive(Clone, Copy, Debug, PartialEq, Eq, Structural)]
pub struct AddSolEvent {
    pub vault: u64,
    pub from: u64,
    pub amount: u64,
    pub timestamp: i64,
}

/// First error a deposit runs into, or `None` when it succeeds.
pub open spec fn add_sol_check(ctx: AddSol, amount_lamports: u64) -> Option<VaultError> {
    if ctx.user_lamports < amount_lamports {
        Some(VaultError::InsufficientFunds)
    } else {
        None
    }
}

/// Deposit: moves `amount_lamports` from the caller into the escrow
/// account, atomically, and reports the move as an event.
pub fn handler(ctx: &mut AddSol, amount_lamports: u64, now: i64) -> (r: Result<
    AddSolEvent,
    VaultError,
>)
    requires
        old(ctx).vault_pda_lamports + amount_lamports <= u64::MAX,
    ensures
        match r {
            Ok(ev) => {
                &&& add_sol_check(*old(ctx), amount_lamports) is None
                &&& final(ctx).user_lamports == old(ctx).user_lamports - amount_lamports
                &&& final(ctx).vault_pda_lamports == old(ctx).vault_pda_lamports
                    + amount_lamports
                &&& final(ctx).user == old(ctx).user
                &&& final(ctx).vault_pda == old(ctx).vault_pda
                &&& ev == (AddSolEvent {
                    vault: old(ctx).vault_pda,
                    from: old(ctx).user,
                    amount: amount_lamports,
                    timestamp: now,
                })
            },
            Err(e) => {
                &&& add_sol_check(*old(ctx), amount_lamports) == Some(e)
                &&& *final(ctx) == *old(ctx)
            },
        },
{
    if ctx.user_lamports < amount_lamports {
        return Err(VaultError::InsufficientFunds);
    }
    ctx.user_lamports = ctx.user_lamports - amount_lamports;
    ctx.vault_pda_lamports = ctx.vault_pda_lamports + amount_lamports;
    Ok(AddSolEvent { vault: ctx.vault_pda, from: ctx.user, amount: amount_lamports, timestamp: now })
}

} // verus!
