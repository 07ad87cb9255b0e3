use vstd::prelude::*;

use crate::errors::VaultError;
use crate::state::VaultState;

verus! {

/// Account set a heartbeat declares: the signing caller and the vault
/// record looked up for them (`None` when no record exists).
pub struct Ping {
    /// The signing caller, asserted to be the vault's owner.
    pub owner: u64,
    pub vault_state: Option<VaultState>,
}

/// Event emitted by a successful heartbeat.
#[derive(Clone, Copy, Debug, PartialEq, Eq, Structural)]
pub struct PingEvent {
    pub owner: u64,
    pub timestamp: i64,
}

/// First error a heartbeat runs into, or `None` when it succeeds.
pub open spec fn ping_check(ctx: Ping) -> Option<VaultError> {
    match ctx.vault_state {
        None => Some(VaultError::RecordNotFound),
        Some(v) => if v.owner != ctx.owner {
            Some(VaultError::Unauthorized)
        } else {
            None
        },
    }
}

/// How a successful heartbeat at `now` relates the account set after the
/// call to the one before: `last_active_timestamp` becomes `now` and
/// every other part of the state is kept.
pub open spec fn ping_applied(pre: Ping, now: i64, post: Ping) -> bool {
    &&& pre.vault_state is Some
    &&& post.vault_state is Some
    &&& post.owner == pre.owner
    &&& {
        let v0 = pre.vault_state->Some_0;
        let v1 = post.vault_state->Some_0;
        &&& v1.owner == v0.owner
        &&& v1.vault_pda_bump == v0.vault_pda_bump
        &&& v1.lvsol_mint == v0.lvsol_mint
        &&& v1.locked_amount == v0.locked_amount
        &&& v1.reward_lamports == v0.reward_lamports
        &&& v1.last_active_timestamp == now
        &&& v1.inactivity_duration == v0.inactivity_duration
        &&& v1.inheritors == v0.inheritors
    }
}

/// Heartbeat: the owner proves activity, which sets
/// `last_active_timestamp` to the clock reading taken for this call.
/// A caller other than the owner is rejected with `Unauthorized` and
/// nothing changes.
pub fn handler(ctx: &mut Ping, now: i64) -> (r: Result<PingEvent, VaultError>)
    ensures
        match r {
            Ok(ev) => {
                &&& ping_check(*old(ctx)) is None
                &&& ping_applied(*old(ctx), now, *final(ctx))
                &&& ev == (PingEvent { owner: old(ctx).owner, timestamp: now })
            },
            Err(e) => {
                &&& ping_check(*old(ctx)) == Some(e)
                &&& *final(ctx) == *old(ctx)
            },
        },
{
    match &mut ctx.vault_state {
        None => Err(VaultError::RecordNotFound),
        Some(v) => {
            if v.owner != ctx.owner {
                return Err(VaultError::Unauthorized);
            }
            v.last_active_timestamp = now;
            Ok(PingEvent { owner: ctx.owner, timestamp: now })
        },
    }
}

/// Repeating a heartbeat changes nothing beyond what the last heartbeat
/// alone would have done: after pinging at `t1` and again at `t2`, the
/// state is exactly a single ping at `t2`, the repeated ping is still
/// authorized, and `last_active_timestamp` strictly increases whenever
/// real time has advanced.
pub proof fn lemma_ping_idempotent(s0: Ping, s1: Ping, s2: Ping, t1: i64, t2: i64)
    requires
        ping_check(s0) is None,
        ping_applied(s0, t1, s1),
        ping_applied(s1, t2, s2),
    ensures
        ping_check(s1) is None,
        ping_applied(s0, t2, s2),
        t1 < t2 ==> s1.vault_state->Some_0.last_active_timestamp
            < s2.vault_state->Some_0.last_active_timestamp,
{
}

} // verus!
