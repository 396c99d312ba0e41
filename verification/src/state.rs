//! The persistent records: the global registry and the per-depositor vault.

use vstd::prelude::*;
use crate::identity::Identity;

verus! {

/// Lifecycle of an escrow vault.
#[derive(Clone, Copy, Debug, PartialEq, Eq, Structural)]
pub enum VaultStatus {
    /// Accepting deposits and redemptions.
    Active,
    /// The inactivity window has lapsed and nothing was claimed yet. Advisory:
    /// whether a vault can be claimed is always decided from the timestamps.
    Claimable,
    /// Claimed; terminal.
    Finished,
}

/// The named failures of the transitions.
#[derive(Clone, Copy, Debug, PartialEq, Eq, Structural)]
pub enum ErrorCode {
    InvalidAmount,
    InvalidInactivityPeriod,
    EscrowNotActive,
    EscrowNotClaimable,
    EscrowAlreadyFinished,
    InactivityPeriodNotPassed,
    InvalidEscrowOwner,
    InvalidBeneficiary,
    InvalidDepositAmount,
    InsufficientSolBalance,
    InsufficientTokenBalance,
    RedemptionNotAllowed,
    GlobalStateAlreadyInitialized,
    ClockUnavailable,
}

/// The text that goes with each failure.
pub open spec fn message_of(code: ErrorCode) -> Seq<char> {
    match code {
        ErrorCode::InvalidAmount => "Invalid Amount"@,
        ErrorCode::InvalidInactivityPeriod => "Inactivity period should be greater than 0"@,
        ErrorCode::EscrowNotActive => "Escrow vault is not active"@,
        ErrorCode::EscrowNotClaimable => "Escrow vault is not claimable yet"@,
        ErrorCode::EscrowAlreadyFinished => "Escrow vault is already finished"@,
        ErrorCode::InactivityPeriodNotPassed => "Inactivity period has not passed"@,
        ErrorCode::InvalidEscrowOwner => "Invalid escrow owner"@,
        ErrorCode::InvalidBeneficiary => "Invalid beneficiary"@,
        ErrorCode::InvalidDepositAmount => "Deposit amount must be greater than zero"@,
        ErrorCode::InsufficientSolBalance => "Insufficient SOL balance"@,
        ErrorCode::InsufficientTokenBalance => "Insufficient token balance"@,
        ErrorCode::RedemptionNotAllowed => "Redemption is not allowed in current vault status"@,
        ErrorCode::GlobalStateAlreadyInitialized => "Global state is already initialized"@,
        ErrorCode::ClockUnavailable => "Ledger clock is unavailable"@,
    }
}

impl ErrorCode {
    /// The text that goes with this failure.
    pub fn message(&self) -> (text: &'static str)
        ensures
            text@ == message_of(*self),
    {
        match self {
            ErrorCode::InvalidAmount => "Invalid Amount",
            ErrorCode::InvalidInactivityPeriod => "Inactivity period should be greater than 0",
            ErrorCode::EscrowNotActive => "Escrow vault is not active",
            ErrorCode::EscrowNotClaimable => "Escrow vault is not claimable yet",
            ErrorCode::EscrowAlreadyFinished => "Escrow vault is already finished",
            ErrorCode::InactivityPeriodNotPassed => "Inactivity period has not passed",
            ErrorCode::InvalidEscrowOwner => "Invalid escrow owner",
            ErrorCode::InvalidBeneficiary => "Invalid beneficiary",
            ErrorCode::InvalidDepositAmount => "Deposit amount must be greater than zero",
            ErrorCode::InsufficientSolBalance => "Insufficient SOL balance",
            ErrorCode::InsufficientTokenBalance => "Insufficient token balance",
            ErrorCode::RedemptionNotAllowed => "Redemption is not allowed in current vault status",
            ErrorCode::GlobalStateAlreadyInitialized => "Global state is already initialized",
            ErrorCode::ClockUnavailable => "Ledger clock is unavailable",
        }
    }
}

/// The registry of a deployment: one share mint, one pooled value vault, and
/// the number of shares outstanding over all vaults that are not finished.
#[derive(Clone, Copy, Debug, PartialEq, Eq)]
pub struct GlobalState {
    pub sol_vault: Identity,
    pub token_mint: Identity,
    pub total_shares: u64,
    pub bump: u8,
}

/// The record of one depositor.
#[derive(Clone, Copy, Debug, PartialEq, Eq)]
pub struct EscrowVault {
    pub owner: Identity,
    pub beneficiary: Identity,
    pub shares: u64,
    pub last_check_in: i64,
    pub inactivity_period: i64,
    pub status: VaultStatus,
    pub bump: u8,
}

/// The pooled value vault. It holds native value only and has no fields.
#[derive(Clone, Copy, Debug, PartialEq, Eq, Structural)]
pub struct SolVault {}

} // verus!
