use vstd::prelude::*;

verus! {

/// Errors surfaced by the vault lifecycle operations. Every error is
/// detected before any mutation is applied, so a failing operation
/// leaves all accounts exactly as it found them.
#[derive(Clone, Copy, Debug, PartialEq, Eq, Structural)]
pub enum VaultError {
    /// A vault record already exists for this depositor.
    AlreadyInitialized,
    /// The targeted vault record does not exist.
    RecordNotFound,
    /// The caller is not the owner where ownership is required.
    Unauthorized,
    /// A lamport or token balance is too small for the requested move.
    InsufficientFunds,
    /// The program-derived authority has not been delegated over the
    /// account it must act on.
    MissingDelegate,
    /// The inactivity window has not yet elapsed.
    VaultStillActive,
    /// The claim-receipt mint does not belong to the expected token
    /// standard.
    InvalidMint,
}

} // verus!
