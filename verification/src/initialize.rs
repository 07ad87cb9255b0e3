use vstd::prelude::*;

use crate::errors::VaultError;
use crate::state::InheritorShare;
use crate::state::Mint;
use crate::state::TOKEN_PROGRAM_ID;
use crate::state::TokenAccount;
use crate::state::VaultState;

verus! {

/// Account set vault creation declares: the depositor, the (absent)
/// vault record, the freshly created escrow account with its derivation
/// bump, the claim-receipt mint, and the depositor's freshly created
/// claim-receipt account.
pub struct Initialize {
    pub user: u64,
    pub user_lamports: u64,
    pub vault_state: Option<VaultState>,
    /// Address of the escrow account, derived from the depositor.
    pub vault_pda: u64,
    /// Derivation parameter recreating the escrow's program-derived
    /// signing authority.
    pub vault_pda_bump: u8,
    /// Balance of the escrow account; zero at creation.
    pub vault_pda_lamports: u64,
    pub lvsol_mint: Mint,
    /// The depositor's claim-receipt account; empty and undelegated at
    /// creation.
    pub user_lvsol_ata: TokenAccount,
}

/// First error vault creation runs into, or `None` when it succeeds.
pub open spec fn initialize_check(ctx: Initialize, amount_sol: u64) -> Option<VaultError> {
    if ctx.vault_state is Some {
        Some(VaultError::AlreadyInitialized)
    } else if ctx.lvsol_mint.owner_program != TOKEN_PROGRAM_ID {
        Some(VaultError::InvalidMint)
    } else if ctx.user_lamports < amount_sol {
        Some(VaultError::InsufficientFunds)
    } else {
        None
    }
}

/// Mints `amount` claim receipts to the depositor's account, signed by
/// the escrow's program-derived authority, and approves that authority
/// as delegate over the account for the full minted amount, so that an
/// inheritance trigger can later burn it.
pub fn mint_lvsol_to_user(ctx: &mut Initialize, amount: u64) -> (r: Result<(), VaultError>)
    requires
        old(ctx).lvsol_mint.supply + amount <= u64::MAX,
        old(ctx).user_lvsol_ata.amount + amount <= u64::MAX,
    ensures
        r is Ok,
        final(ctx).lvsol_mint.key == old(ctx).lvsol_mint.key,
        final(ctx).lvsol_mint.owner_program == old(ctx).lvsol_mint.owner_program,
        final(ctx).lvsol_mint.supply == old(ctx).lvsol_mint.supply + amount,
        final(ctx).user_lvsol_ata.mint == old(ctx).user_lvsol_ata.mint,
        final(ctx).user_lvsol_ata.owner == old(ctx).user_lvsol_ata.owner,
        final(ctx).user_lvsol_ata.amount == old(ctx).user_lvsol_ata.amount + amount,
        final(ctx).user_lvsol_ata.delegate == Some(old(ctx).vault_pda),
        final(ctx).user_lvsol_ata.delegated_amount == amount,
        final(ctx).user == old(ctx).user,
        final(ctx).user_lamports == old(ctx).user_lamports,
        final(ctx).vault_state == old(ctx).vault_state,
        final(ctx).vault_pda == old(ctx).vault_pda,
        final(ctx).vault_pda_bump == old(ctx).vault_pda_bump,
        final(ctx).vault_pda_lamports == old(ctx).vault_pda_lamports,
{
    ctx.lvsol_mint.supply = ctx.lvsol_mint.supply + amount;
    ctx.user_lvsol_ata.amount = ctx.user_lvsol_ata.amount + amount;
    ctx.user_lvsol_ata.delegate = Some(ctx.vault_pda);
    ctx.user_lvsol_ata.delegated_amount = amount;
    Ok(())
}

/// Vault creation, a one-shot atomic unit: moves the deposit from the
/// depositor into the fresh escrow account, mints the same amount of
/// claim receipts to the depositor with the escrow authority approved as
/// delegate over them, and persists a new vault record with
/// `last_active_timestamp` set to the clock reading taken for this call.
pub fn handler(
    ctx: &mut Initialize,
    amount_sol: u64,
    reward_lamports: u64,
    inactivity_duration: i64,
    inheritors: Vec<InheritorShare>,
    now: i64,
) -> (r: Result<(), VaultError>)
    requires
        old(ctx).user_lvsol_ata.amount == 0,
        old(ctx).user_lvsol_ata.delegate is None,
        old(ctx).user_lvsol_ata.delegated_amount == 0,
        old(ctx).user_lvsol_ata.mint == old(ctx).lvsol_mint.key,
        old(ctx).user_lvsol_ata.owner == old(ctx).user,
        old(ctx).vault_pda_lamports == 0,
        old(ctx).lvsol_mint.supply + amount_sol <= u64::MAX,
    ensures
        match r {
            Ok(_) => {
                &&& initialize_check(*old(ctx), amount_sol) is None
                &&& final(ctx).user == old(ctx).user
                &&& final(ctx).user_lamports == old(ctx).user_lamports - amount_sol
                &&& final(ctx).vault_pda == old(ctx).vault_pda
                &&& final(ctx).vault_pda_bump == old(ctx).vault_pda_bump
                &&& final(ctx).vault_pda_lamports == amount_sol
                &&& final(ctx).lvsol_mint.key == old(ctx).lvsol_mint.key
                &&& final(ctx).lvsol_mint.owner_program == old(ctx).lvsol_mint.owner_program
                &&& final(ctx).lvsol_mint.supply == old(ctx).lvsol_mint.supply + amount_sol
                &&& final(ctx).user_lvsol_ata.mint == old(ctx).user_lvsol_ata.mint
                &&& final(ctx).user_lvsol_ata.owner == old(ctx).user_lvsol_ata.owner
                &&& final(ctx).user_lvsol_ata.amount == amount_sol
                &&& final(ctx).user_lvsol_ata.delegate == Some(old(ctx).vault_pda)
                &&& final(ctx).user_lvsol_ata.delegated_amount == amount_sol
                &&& final(ctx).vault_state matches Some(v) && {
                    &&& v.owner == old(ctx).user
                    &&& v.vault_pda_bump == old(ctx).vault_pda_bump
                    &&& v.lvsol_mint == old(ctx).lvsol_mint.key
                    &&& v.locked_amount == amount_sol
                    &&& v.reward_lamports == reward_lamports
                    &&& v.last_active_timestamp == now
                    &&& v.inactivity_duration == inactivity_duration
                    &&& v.inheritors == inheritors
                }
            },
            Err(e) => {
                &&& initialize_check(*old(ctx), amount_sol) == Some(e)
                &&& *final(ctx) == *old(ctx)
            },
        },
{
    if ctx.vault_state.is_some() {
        return Err(VaultError::AlreadyInitialized);
    }
    if ctx.lvsol_mint.owner_program != TOKEN_PROGRAM_ID {
        return Err(VaultError::InvalidMint);
    }
    if ctx.user_lamports < amount_sol {
        return Err(VaultError::InsufficientFunds);
    }

    // Move the deposit from the depositor into the fresh escrow.
    ctx.user_lamports = ctx.user_lamports - amount_sol;
    ctx.vault_pda_lamports = ctx.vault_pda_lamports + amount_sol;

    // Mint the claim receipts 1:1 and delegate them back to the escrow
    // authority.
    mint_lvsol_to_user(ctx, amount_sol)?;

    // Persist the vault record.
    ctx.vault_state = Some(
        VaultState {
            owner: ctx.user,
            vault_pda_bump: ctx.vault_pda_bump,
            lvsol_mint: ctx.lvsol_mint.key,
            locked_amount: amount_sol,
            reward_lamports,
            last_active_timestamp: now,
            inactivity_duration,
            inheritors,
        },
    );
    Ok(())
}

} // verus!
