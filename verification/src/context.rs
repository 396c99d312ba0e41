//! The records and plain values that each transition works on.

use vstd::prelude::*;
use crate::identity::Identity;
use crate::state::{EscrowVault, GlobalState};

verus! {

/// What the one-time set-up of the registry works on.
#[derive(Clone, Copy, Debug, PartialEq, Eq)]
pub struct InitializeGlobalState {
    /// Who pays for the new records.
    pub payer: Identity,
    /// The registry, if the deployment has one already.
    pub global_state: Option<GlobalState>,
    /// The pooled value vault created with the registry.
    pub sol_vault: Identity,
    /// The share mint created with the registry.
    pub token_mint: Identity,
    /// The bump of the registry's derived capability.
    pub bump: u8,
}

/// What the creation of a vault works on.
#[derive(Clone, Copy, Debug, PartialEq, Eq)]
pub struct CreateEscrow {
    /// The depositor, who signs.
    pub owner: Identity,
    /// The freshly allocated record, filled in by the creation.
    pub escrow_vault: EscrowVault,
    /// Who may claim after inactivity.
    pub beneficiary: Identity,
    /// The bump of the vault's derived capability.
    pub bump: u8,
}

/// What a deposit works on.
#[derive(Clone, Copy, Debug, PartialEq, Eq)]
pub struct DepositSol {
    /// The caller, who signs.
    pub owner: Identity,
    pub global_state: GlobalState,
    pub escrow_vault: EscrowVault,
}

/// What a check-in works on.
#[derive(Clone, Copy, Debug, PartialEq, Eq)]
pub struct CheckIn {
    /// The caller, who signs.
    pub owner: Identity,
    pub escrow_vault: EscrowVault,
}

/// What a redemption works on.
#[derive(Clone, Copy, Debug, PartialEq, Eq)]
pub struct RedeemToken {
    /// The caller, who signs.
    pub owner: Identity,
    pub global_state: GlobalState,
    pub escrow_vault: EscrowVault,
    /// The caller's share balance as the share service reports it.
    pub token_amount: u64,
}

/// What an inheritance claim works on.
#[derive(Clone, Copy, Debug, PartialEq, Eq)]
pub struct ClaimInheritaince {
    pub escrow_vault: EscrowVault,
    /// The caller, who signs.
    pub beneficiary: Identity,
    pub global_state: GlobalState,
    /// The share balance of the vault's owner as the share service reports it.
    pub token_amount: u64,
}

} // verus!
