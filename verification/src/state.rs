use vstd::prelude::*;

verus! {

/// Identity of the base ledger's native-account program. An account
/// whose owning program is this one is a plain ledger account, not a
/// token account.
pub const SYSTEM_PROGRAM_ID: u64 = 1;

/// Identity of the token engine that claim-receipt mints must belong to.
pub const TOKEN_PROGRAM_ID: u64 = 2;

/// Share denominator: beneficiary shares are expressed in basis points,
/// proportional units out of 10,000.
pub const BPS_DENOMINATOR: u64 = 10_000;

/// One beneficiary of a vault: an address and its share of the reserve
/// in basis points.
#[derive(Clone, Copy, Debug, PartialEq, Eq, Structural)]
pub struct InheritorShare {
    pub address: u64,
    /// Share in basis points out of [`BPS_DENOMINATOR`].
    pub amount: u64,
}

/// Persistent record describing one depositor's vault.
#[derive(Clone, Debug, PartialEq)]
pub struct VaultState {
    /// The depositor; immutable after creation.
    pub owner: u64,
    /// Derivation parameter recreating the program-derived signing
    /// authority for the escrow account; fixed at creation.
    pub vault_pda_bump: u8,
    /// The claim-receipt mint associated with this vault; fixed at
    /// creation.
    pub lvsol_mint: u64,
    /// Reserve currently backing outstanding claim-receipt supply.
    pub locked_amount: u64,
    /// Fixed reward paid to whoever successfully triggers inheritance.
    pub reward_lamports: u64,
    /// Last time the owner proved activity; updated by creation and
    /// heartbeat, never by the inheritance trigger.
    pub last_active_timestamp: i64,
    /// Inheritance becomes eligible once
    /// `now >= last_active_timestamp + inactivity_duration`.
    pub inactivity_duration: i64,
    /// Ordered distribution plan; shares need not sum to the
    /// denominator and the list may be empty.
    pub inheritors: Vec<InheritorShare>,
}

/// The claim-receipt mint, modeled at the token engine's interface.
#[derive(Clone, Copy, Debug, PartialEq, Eq, Structural)]
pub struct Mint {
    /// Address of the mint itself.
    pub key: u64,
    /// The program owning the mint account; must equal
    /// [`TOKEN_PROGRAM_ID`] for a claim-receipt mint.
    pub owner_program: u64,
    /// Total outstanding supply of the token.
    pub supply: u64,
}

/// A token account of the claim-receipt mint, modeled at the token
/// engine's interface.
#[derive(Clone, Copy, Debug, PartialEq, Eq)]
pub struct TokenAccount {
    /// The mint this account holds tokens of.
    pub mint: u64,
    /// The wallet with ownership authority over the account.
    pub owner: u64,
    /// Token balance.
    pub amount: u64,
    /// A second party granted limited rights over the account, if any.
    pub delegate: Option<u64>,
    /// How much the delegate may still move or burn.
    pub delegated_amount: u64,
}

/// One lamport transfer out of the escrow account, as an operation
/// reports it: destination address and amount moved.
#[derive(Clone, Copy, Debug, PartialEq, Eq, Structural)]
pub struct Payout {
    pub to: u64,
    pub lamports: u64,
}

} // verus!
