use vstd::prelude::*;

use vstd::arithmetic::div_mod::lemma_div_nonincreasing;
use vstd::arithmetic::mul::lemma_mul_upper_bound;

use crate::distribution::lemma_distribution_bounds;
use crate::distribution::lemma_sum_shares_prefix_le;
use crate::distribution::share_amount;
use crate::distribution::sum_bps;
use crate::distribution::sum_shares;
use crate::errors::VaultError;
use crate::state::BPS_DENOMINATOR;
use crate::state::InheritorShare;
use crate::state::Mint;
use crate::state::Payout;
use crate::state::TokenAccount;
use crate::state::VaultState;

verus! {

/// Account set an inheritance trigger declares: the rewarded caller, the
/// vault record, the escrow account, the claim-receipt mint, and the
/// owner's claim-receipt account (delegated to the escrow authority).
pub struct TriggerInheritance {
    pub caller: u64,
    pub caller_lamports: u64,
    pub vault_state: Option<VaultState>,
    /// Address of the escrow account; its program-derived authority is
    /// the delegate the burn is authorized by.
    pub vault_pda: u64,
    /// Balance of the escrow account.
    pub vault_pda_lamports: u64,
    pub lvsol_mint: Mint,
    pub owner_lvsol_account: TokenAccount,
}

/// Event emitted by a successful inheritance trigger.
#[derive(Clone, Copy, Debug, PartialEq, Eq, Structural)]
pub struct InheritanceTriggered {
    pub owner: u64,
    pub triggered_by: u64,
    pub timestamp: i64,
}

/// Everything a successful trigger reports: the event, the reward
/// actually paid to the caller, and the lamport transfers made to the
/// beneficiaries, in table order.
#[derive(Clone, Debug, PartialEq)]
pub struct InheritanceOutcome {
    pub event: InheritanceTriggered,
    pub reward_paid: u64,
    pub payouts: Vec<Payout>,
}

/// Whether the inactivity window has elapsed at `now`.
pub open spec fn expired(v: VaultState, now: i64) -> bool {
    now >= v.last_active_timestamp + v.inactivity_duration
}

/// The reward actually paid: the configured reward, capped at the escrow
/// total so the payment cannot underflow the escrow.
pub open spec fn reward_paid(ctx: TriggerInheritance) -> int {
    let v = ctx.vault_state->Some_0;
    if v.reward_lamports <= ctx.vault_pda_lamports {
        v.reward_lamports as int
    } else {
        ctx.vault_pda_lamports as int
    }
}

/// What is left for the beneficiaries once the reward is paid.
pub open spec fn available_for_inheritors(ctx: TriggerInheritance) -> int {
    ctx.vault_pda_lamports - reward_paid(ctx)
}

/// First error an inheritance trigger runs into, or `None` when it
/// succeeds.
pub open spec fn trigger_check(ctx: TriggerInheritance, now: i64) -> Option<VaultError> {
    match ctx.vault_state {
        None => Some(VaultError::RecordNotFound),
        Some(v) => if !expired(v, now) {
            Some(VaultError::VaultStillActive)
        } else if ctx.owner_lvsol_account.delegate != Some(ctx.vault_pda) {
            Some(VaultError::MissingDelegate)
        } else if ctx.owner_lvsol_account.amount < v.locked_amount
            || ctx.owner_lvsol_account.delegated_amount < v.locked_amount {
            Some(VaultError::InsufficientFunds)
        } else if sum_shares(available_for_inheritors(ctx), v.inheritors@)
            > available_for_inheritors(ctx) {
            Some(VaultError::InsufficientFunds)
        } else {
            None
        },
    }
}

/// Inheritance trigger: once the owner has been inactive past the
/// window, any caller may burn the outstanding claim-receipt supply via
/// the delegated authority, collect the fixed reward, and have the
/// remaining escrow distributed to the beneficiaries by basis-point
/// share, each share truncated independently; the dust stays in escrow.
/// `last_active_timestamp` is never updated here. All checks precede all
/// mutation: a rejected trigger changes nothing.
pub fn handler(ctx: &mut TriggerInheritance, now: i64) -> (r: Result<
    InheritanceOutcome,
    VaultError,
>)
    requires
        old(ctx).vault_state matches Some(v) ==> {
            &&& old(ctx).lvsol_mint.key == v.lvsol_mint
            &&& old(ctx).owner_lvsol_account.mint == old(ctx).lvsol_mint.key
            &&& old(ctx).owner_lvsol_account.owner == v.owner
            &&& old(ctx).lvsol_mint.supply >= old(ctx).owner_lvsol_account.amount
            &&& old(ctx).caller_lamports + v.reward_lamports <= u64::MAX
        },
    ensures
        match r {
            Ok(out) => {
                let v0 = old(ctx).vault_state->Some_0;
                let paid = reward_paid(*old(ctx));
                let available = available_for_inheritors(*old(ctx));
                let distributed = sum_shares(available, v0.inheritors@);
                &&& trigger_check(*old(ctx), now) is None
                &&& paid + distributed <= old(ctx).vault_pda_lamports
                &&& sum_bps(v0.inheritors@) == BPS_DENOMINATOR as int ==> available - distributed
                    < v0.inheritors@.len()
                &&& out.reward_paid == paid
                &&& out.event == (InheritanceTriggered {
                    owner: v0.owner,
                    triggered_by: old(ctx).caller,
                    timestamp: now,
                })
                &&& out.payouts@.len() == v0.inheritors@.len()
                &&& forall|j: int|
                    0 <= j < v0.inheritors@.len() ==> {
                        &&& out.payouts@[j].to == v0.inheritors@[j].address
                        &&& out.payouts@[j].lamports == share_amount(
                            available,
                            v0.inheritors@[j].amount as int,
                        )
                    }
                &&& final(ctx).caller == old(ctx).caller
                &&& final(ctx).caller_lamports == old(ctx).caller_lamports + paid
                &&& final(ctx).vault_pda == old(ctx).vault_pda
                &&& final(ctx).vault_pda_lamports == old(ctx).vault_pda_lamports - paid
                    - distributed
                &&& final(ctx).lvsol_mint.key == old(ctx).lvsol_mint.key
                &&& final(ctx).lvsol_mint.owner_program == old(ctx).lvsol_mint.owner_program
                &&& final(ctx).lvsol_mint.supply == old(ctx).lvsol_mint.supply
                    - v0.locked_amount
                &&& final(ctx).owner_lvsol_account.mint == old(ctx).owner_lvsol_account.mint
                &&& final(ctx).owner_lvsol_account.owner == old(ctx).owner_lvsol_account.owner
                &&& final(ctx).owner_lvsol_account.amount == old(
                    ctx,
                ).owner_lvsol_account.amount - v0.locked_amount
                &&& final(ctx).owner_lvsol_account.delegate == old(
                    ctx,
                ).owner_lvsol_account.delegate
                &&& final(ctx).owner_lvsol_account.delegated_amount == old(
                    ctx,
                ).owner_lvsol_account.delegated_amount - v0.locked_amount
                &&& final(ctx).vault_state matches Some(v1) && {
                    &&& v1.owner == v0.owner
                    &&& v1.vault_pda_bump == v0.vault_pda_bump
                    &&& v1.lvsol_mint == v0.lvsol_mint
                    &&& v1.locked_amount == 0
                    &&& v1.reward_lamports == v0.reward_lamports
                    &&& v1.last_active_timestamp == v0.last_active_timestamp
                    &&& v1.inactivity_duration == v0.inactivity_duration
                    &&& v1.inheritors == v0.inheritors
                }
            },
            Err(e) => {
                &&& trigger_check(*old(ctx), now) == Some(e)
                &&& *final(ctx) == *old(ctx)
            },
        },
{
    let vault_opt = ctx.vault_state.take();
    let mut v = match vault_opt {
        None => {
            return Err(VaultError::RecordNotFound);
        },
        Some(v) => v,
    };

    // Inactivity check, widened so the expiry sum cannot overflow.
    let still_active = (now as i128) < (v.last_active_timestamp as i128) + (
    v.inactivity_duration as i128);
    if still_active {
        ctx.vault_state = Some(v);
        return Err(VaultError::VaultStillActive);
    }

    // The escrow authority must already hold delegate rights over the
    // owner's claim-receipt account, with enough allowance and balance
    // to burn the whole locked amount.
    let delegate_ok = match ctx.owner_lvsol_account.delegate {
        Some(d) => d == ctx.vault_pda,
        None => false,
    };
    if !delegate_ok {
        ctx.vault_state = Some(v);
        return Err(VaultError::MissingDelegate);
    }
    let locked = v.locked_amount;
    if ctx.owner_lvsol_account.amount < locked || ctx.owner_lvsol_account.delegated_amount
        < locked {
        ctx.vault_state = Some(v);
        return Err(VaultError::InsufficientFunds);
    }

    let total = ctx.vault_pda_lamports;
    let reward = if v.reward_lamports <= total {
        v.reward_lamports
    } else {
        total
    };
    let available = total - reward;

    // Stage the beneficiary transfers: every share is computed before
    // anything moves, so an infeasible table rejects the whole trigger.
    let ghost inh = v.inheritors@;
    let n = v.inheritors.len();
    let mut payouts: Vec<Payout> = Vec::new();
    let mut distributed: u128 = 0;
    let mut i: usize = 0;
    #[verifier::loop_isolation(false)]
    while i < n
        invariant
            ctx.caller == old(ctx).caller,
            ctx.caller_lamports == old(ctx).caller_lamports,
            ctx.vault_state is None,
            ctx.vault_pda == old(ctx).vault_pda,
            ctx.vault_pda_lamports == old(ctx).vault_pda_lamports,
            ctx.lvsol_mint == old(ctx).lvsol_mint,
            ctx.owner_lvsol_account == old(ctx).owner_lvsol_account,
            0 <= i <= n,
            payouts@.len() == i,
            forall|j: int|
                0 <= j < i ==> {
                    &&& payouts@[j].to == inh[j].address
                    &&& payouts@[j].lamports == share_amount(available as int, inh[j].amount as int)
                },
            distributed == sum_shares(available as int, inh.subrange(0, i as int)),
            distributed <= available,
        decreases n - i,
    {
        let bps = v.inheritors[i].amount;
        let addr = v.inheritors[i].address;
        proof {
            lemma_mul_upper_bound(available as int, u64::MAX as int, bps as int, u64::MAX as int);
            lemma_div_nonincreasing(available as int * bps as int, BPS_DENOMINATOR as int);
            vstd::arithmetic::mul::lemma_mul_nonnegative(available as int, bps as int);
        }
        let share_wide: u128 = (available as u128) * (bps as u128) / (BPS_DENOMINATOR as u128);
        proof {
            assert(inh.subrange(0, i as int + 1).drop_last() =~= inh.subrange(0, i as int));
            assert(inh.subrange(0, i as int + 1).last() == inh[i as int]);
        }
        if distributed + share_wide > available as u128 {
            proof {
                lemma_sum_shares_prefix_le(available as int, inh, i as int + 1);
            }
            ctx.vault_state = Some(v);
            return Err(VaultError::InsufficientFunds);
        }
        payouts.push(Payout { to: addr, lamports: share_wide as u64 });
        distributed = distributed + share_wide;
        i = i + 1;
    }
    proof {
        assert(inh.subrange(0, n as int) =~= inh);
        if sum_bps(inh) == BPS_DENOMINATOR as int {
            lemma_distribution_bounds(total, v.reward_lamports, inh);
        }
    }

    // Apply the staged effects: burn through the delegate, pay the
    // reward, move the shares, and zero the vault's bookkeeping.
    ctx.owner_lvsol_account.amount = ctx.owner_lvsol_account.amount - locked;
    ctx.owner_lvsol_account.delegated_amount = ctx.owner_lvsol_account.delegated_amount - locked;
    ctx.lvsol_mint.supply = ctx.lvsol_mint.supply - locked;
    ctx.caller_lamports = ctx.caller_lamports + reward;
    ctx.vault_pda_lamports = available - (distributed as u64);
    let owner_id = v.owner;
    v.locked_amount = 0;
    ctx.vault_state = Some(v);
    Ok(InheritanceOutcome {
        event: InheritanceTriggered { owner: owner_id, triggered_by: ctx.caller, timestamp: now },
        reward_paid: reward,
        payouts,
    })
}

} // verus!
