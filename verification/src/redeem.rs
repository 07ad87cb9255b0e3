use vstd::prelude::*;

use vstd::arithmetic::div_mod::lemma_fundamental_div_mod;
use vstd::arithmetic::div_mod::lemma_mod_bound;

use crate::errors::VaultError;
use crate::state::Mint;
use crate::state::Payout;
use crate::state::TokenAccount;
use crate::state::VaultState;

verus! {

/// Account set a redemption declares: the redeemer (any holder of the
/// claim receipt, not only the vault owner), the vault record, the
/// escrow account, the claim-receipt mint, the redeemer's claim-receipt
/// account, and the minimum-balance floor used to decide full closure.
pub struct Redeem {
    pub redeemer: u64,
    pub redeemer_lamports: u64,
    pub vault_state: Option<VaultState>,
    /// Balance of the escrow account.
    pub vault_pda_lamports: u64,
    pub lvsol_mint: Mint,
    pub redeemer_lvsol_account: TokenAccount,
    /// The ledger's minimum-balance floor for the escrow account.
    pub rent_exempt_minimum: u64,
}

/// Event emitted by a successful redemption.
#[derive(Clone, Copy, Debug, PartialEq, Eq, Structural)]
pub struct Redeemed {
    pub redeemer: u64,
    pub amount: u64,
}

/// Everything a successful redemption reports: the event, the lamport
/// transfers made to the beneficiaries when the vault closed, and
/// whether it closed.
#[derive(Clone, Debug, PartialEq)]
pub struct RedeemOutcome {
    pub event: Redeemed,
    pub payouts: Vec<Payout>,
    /// True when the escrow drained to the floor and the vault closed.
    pub closed: bool,
}

/// First error a redemption runs into, or `None` when it succeeds.
pub open spec fn redeem_check(ctx: Redeem, redeem_amount: u64) -> Option<VaultError> {
    match ctx.vault_state {
        None => Some(VaultError::RecordNotFound),
        Some(v) => if ctx.redeemer_lvsol_account.amount < redeem_amount {
            Some(VaultError::InsufficientFunds)
        } else if ctx.vault_pda_lamports < redeem_amount {
            Some(VaultError::InsufficientFunds)
        } else {
            None
        },
    }
}

/// Escrow balance left once the redeemed lamports have moved out.
pub open spec fn remaining_after(ctx: Redeem, redeem_amount: u64) -> int {
    ctx.vault_pda_lamports - redeem_amount
}

/// Whether the redemption drains the escrow to the minimum-balance
/// floor, which closes the vault.
pub open spec fn closes_vault(ctx: Redeem, redeem_amount: u64) -> bool {
    remaining_after(ctx, redeem_amount) <= ctx.rent_exempt_minimum
}

/// Redemption: burns `redeem_amount` claim receipts from the redeemer
/// (self-authorized, no delegation involved) and pays out the same
/// amount of reserve from the escrow, decreasing `locked_amount`
/// saturating at zero. If the escrow balance is thereby drained to the
/// minimum-balance floor, the remainder is split equally across the
/// beneficiaries (integer division, dust left unmoved), the escrow
/// balance is forced to zero, and the record is destroyed. All checks
/// precede all mutation: a rejected redemption changes nothing.
pub fn handler(ctx: &mut Redeem, redeem_amount: u64) -> (r: Result<RedeemOutcome, VaultError>)
    requires
        old(ctx).vault_state matches Some(v) ==> {
            &&& old(ctx).lvsol_mint.key == v.lvsol_mint
            &&& old(ctx).redeemer_lvsol_account.mint == old(ctx).lvsol_mint.key
            &&& old(ctx).redeemer_lvsol_account.owner == old(ctx).redeemer
            &&& old(ctx).lvsol_mint.supply >= old(ctx).redeemer_lvsol_account.amount
            &&& old(ctx).redeemer_lamports + redeem_amount <= u64::MAX
        },
    ensures
        match r {
            Ok(out) => {
                let v0 = old(ctx).vault_state->Some_0;
                let remaining = remaining_after(*old(ctx), redeem_amount);
                &&& redeem_check(*old(ctx), redeem_amount) is None
                &&& out.event == (Redeemed { redeemer: old(ctx).redeemer, amount: redeem_amount })
                &&& final(ctx).redeemer == old(ctx).redeemer
                &&& final(ctx).redeemer_lamports == old(ctx).redeemer_lamports + redeem_amount
                &&& final(ctx).rent_exempt_minimum == old(ctx).rent_exempt_minimum
                &&& final(ctx).lvsol_mint.key == old(ctx).lvsol_mint.key
                &&& final(ctx).lvsol_mint.owner_program == old(ctx).lvsol_mint.owner_program
                &&& final(ctx).lvsol_mint.supply == old(ctx).lvsol_mint.supply - redeem_amount
                &&& final(ctx).redeemer_lvsol_account.mint == old(
                    ctx,
                ).redeemer_lvsol_account.mint
                &&& final(ctx).redeemer_lvsol_account.owner == old(
                    ctx,
                ).redeemer_lvsol_account.owner
                &&& final(ctx).redeemer_lvsol_account.amount == old(
                    ctx,
                ).redeemer_lvsol_account.amount - redeem_amount
                &&& final(ctx).redeemer_lvsol_account.delegate == old(
                    ctx,
                ).redeemer_lvsol_account.delegate
                &&& final(ctx).redeemer_lvsol_account.delegated_amount == old(
                    ctx,
                ).redeemer_lvsol_account.delegated_amount
                &&& out.closed == closes_vault(*old(ctx), redeem_amount)
                &&& if closes_vault(*old(ctx), redeem_amount) {
                    &&& final(ctx).vault_pda_lamports == 0
                    &&& final(ctx).vault_state is None
                    &&& out.payouts@.len() == v0.inheritors@.len()
                    &&& v0.inheritors@.len() > 0 ==> {
                        let share_each = remaining / v0.inheritors@.len() as int;
                        &&& forall|j: int|
                            0 <= j < v0.inheritors@.len() ==> {
                                &&& out.payouts@[j].to == v0.inheritors@[j].address
                                &&& out.payouts@[j].lamports == share_each
                            }
                        &&& share_each * v0.inheritors@.len() <= remaining
                    }
                } else {
                    &&& final(ctx).vault_pda_lamports == remaining
                    &&& out.payouts@.len() == 0
                    &&& final(ctx).vault_state matches Some(v1) && {
                        &&& v1.owner == v0.owner
                        &&& v1.vault_pda_bump == v0.vault_pda_bump
                        &&& v1.lvsol_mint == v0.lvsol_mint
                        &&& v1.locked_amount == (if v0.locked_amount >= redeem_amount {
                            (v0.locked_amount - redeem_amount) as int
                        } else {
                            0int
                        })
                        &&& v1.reward_lamports == v0.reward_lamports
                        &&& v1.last_active_timestamp == v0.last_active_timestamp
                        &&& v1.inactivity_duration == v0.inactivity_duration
                        &&& v1.inheritors == v0.inheritors
                    }
                }
            },
            Err(e) => {
                &&& redeem_check(*old(ctx), redeem_amount) == Some(e)
                &&& *final(ctx) == *old(ctx)
            },
        },
{
    let vault_opt = ctx.vault_state.take();
    let mut v = match vault_opt {
        None => {
            return Err(VaultError::RecordNotFound);
        },
        Some(v) => v,
    };

    // The burn and the escrow transfer must both be able to succeed
    // before anything moves.
    if ctx.redeemer_lvsol_account.amount < redeem_amount {
        ctx.vault_state = Some(v);
        return Err(VaultError::InsufficientFunds);
    }
    if ctx.vault_pda_lamports < redeem_amount {
        ctx.vault_state = Some(v);
        return Err(VaultError::InsufficientFunds);
    }

    // Burn the claim receipts, self-authorized by the redeemer, and pay
    // out the same amount of reserve.
    ctx.redeemer_lvsol_account.amount = ctx.redeemer_lvsol_account.amount - redeem_amount;
    ctx.lvsol_mint.supply = ctx.lvsol_mint.supply - redeem_amount;
    ctx.redeemer_lamports = ctx.redeemer_lamports + redeem_amount;
    let remaining = ctx.vault_pda_lamports - redeem_amount;
    v.locked_amount = if v.locked_amount >= redeem_amount {
        v.locked_amount - redeem_amount
    } else {
        0
    };

    if remaining <= ctx.rent_exempt_minimum {
        // Drained to the floor: split what is left equally, zero the
        // escrow, and destroy the record.
        let n = v.inheritors.len();
        let mut payouts: Vec<Payout> = Vec::new();
        if n > 0 {
            let share_each = remaining / (n as u64);
            proof {
                lemma_fundamental_div_mod(remaining as int, n as int);
                lemma_mod_bound(remaining as int, n as int);
            }
            let mut i: usize = 0;
            #[verifier::loop_isolation(false)]
            while i < n
                invariant
                    0 <= i <= n,
                    payouts@.len() == i,
                    forall|j: int|
                        0 <= j < i ==> {
                            &&& payouts@[j].to == v.inheritors@[j].address
                            &&& payouts@[j].lamports == share_each
                        },
                decreases n - i,
            {
                payouts.push(Payout { to: v.inheritors[i].address, lamports: share_each });
                i = i + 1;
            }
        }
        ctx.vault_pda_lamports = 0;
        ctx.vault_state = None;
        Ok(RedeemOutcome {
            event: Redeemed { redeemer: ctx.redeemer, amount: redeem_amount },
            payouts,
            closed: true,
        })
    } else {
        ctx.vault_pda_lamports = remaining;
        ctx.vault_state = Some(v);
        Ok(RedeemOutcome {
            event: Redeemed { redeemer: ctx.redeemer, amount: redeem_amount },
            payouts: Vec::new(),
            closed: false,
        })
    }
}

} // verus!
