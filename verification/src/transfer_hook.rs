use vstd::prelude::*;

use crate::state::SYSTEM_PROGRAM_ID;
use crate::state::TokenAccount;

verus! {

/// Rejections of the transfer policy guard. Either check failing aborts
/// the enclosing transfer with no partial effect.
#[derive(Clone, Copy, Debug, PartialEq, Eq, Structural)]
pub enum TransferError {
    /// The destination is itself a token account.
    InvalidDestination,
    /// The source account's delegate is not the controlling authority.
    InvalidDelegate,
}

/// Account set the policy guard declares: the claim-receipt mint, the
/// source and destination of the attempted transfer, and the identity
/// asserted as the controlling authority program.
pub struct Execute {
    pub mint: u64,
    pub from: TokenAccount,
    pub to: TokenAccount,
    /// The program owning the destination account. Only a destination
    /// owned by the base ledger's native-account program is accepted.
    pub to_owner_program: u64,
    /// The controlling authority: the vault manager program.
    pub vault_manager_program: u64,
}

/// The guard's decision: the first failing check, or `None` when the
/// transfer is sanctioned.
pub open spec fn execute_check(ctx: Execute) -> Option<TransferError> {
    if ctx.to_owner_program != SYSTEM_PROGRAM_ID {
        Some(TransferError::InvalidDestination)
    } else if ctx.from.delegate != Some(ctx.vault_manager_program) {
        Some(TransferError::InvalidDelegate)
    } else {
        None
    }
}

/// Transfer policy guard, invoked before every transfer of the
/// claim-receipt token. It accepts the transfer only when the
/// destination is a plain ledger account and the source is already
/// delegated to the controlling authority; on acceptance it reassigns
/// ownership authority of the destination to that same authority. On
/// rejection nothing is reassigned.
pub fn execute(ctx: &mut Execute) -> (r: Result<(), TransferError>)
    ensures
        match r {
            Ok(_) => {
                &&& execute_check(*old(ctx)) is None
                &&& final(ctx).to.owner == old(ctx).vault_manager_program
                &&& final(ctx).to.mint == old(ctx).to.mint
                &&& final(ctx).to.amount == old(ctx).to.amount
                &&& final(ctx).to.delegate == old(ctx).to.delegate
                &&& final(ctx).to.delegated_amount == old(ctx).to.delegated_amount
                &&& final(ctx).from == old(ctx).from
                &&& final(ctx).mint == old(ctx).mint
                &&& final(ctx).to_owner_program == old(ctx).to_owner_program
                &&& final(ctx).vault_manager_program == old(ctx).vault_manager_program
            },
            Err(e) => {
                &&& execute_check(*old(ctx)) == Some(e)
                &&& *final(ctx) == *old(ctx)
            },
        },
{
    if ctx.to_owner_program != SYSTEM_PROGRAM_ID {
        return Err(TransferError::InvalidDestination);
    }
    let delegated = match ctx.from.delegate {
        Some(d) => d == ctx.vault_manager_program,
        None => false,
    };
    if !delegated {
        return Err(TransferError::InvalidDelegate);
    }
    ctx.to.owner = ctx.vault_manager_program;
    Ok(())
}

} // verus!
