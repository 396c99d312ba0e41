//! Authorization and timing guards shared by the transitions.

use vstd::prelude::*;
use crate::identity::Identity;
use crate::state::{ErrorCode, EscrowVault, VaultStatus};

verus! {

/// Whether `caller` is the depositor who controls `vault`.
pub open spec fn owner_matches(vault: EscrowVault, caller: Identity) -> bool {
    vault.owner == caller
}

/// Whether `caller` is the party entitled to claim `vault`.
pub open spec fn beneficiary_matches(vault: EscrowVault, caller: Identity) -> bool {
    vault.beneficiary == caller
}

/// Whether `vault` has been claimed.
pub open spec fn is_finished(vault: EscrowVault) -> bool {
    vault.status == VaultStatus::Finished
}

/// The end of the liveness window of `vault`, as an unbounded integer.
pub open spec fn deadline(vault: EscrowVault) -> int {
    vault.last_check_in + vault.inactivity_period
}

/// The inactivity predicate: the ledger time `now` lies strictly after the
/// end of the liveness window.
pub open spec fn inactivity_passed(vault: EscrowVault, now: i64) -> bool {
    deadline(vault) < now
}

/// Whether an inactivity period is acceptable for a vault created at `now`:
/// positive, and short enough for the first deadline to be a 64-bit time.
pub open spec fn period_valid(inactivity_period: i64, now: i64) -> bool {
    inactivity_period > 0 && now + inactivity_period <= i64::MAX
}

/// Identity guard for the owner's operations.
pub fn ensure_owner(vault: &EscrowVault, caller: &Identity) -> (r: Result<(), ErrorCode>)
    ensures
        r == (if owner_matches(*vault, *caller) {
            Ok::<(), ErrorCode>(())
        } else {
            Err::<(), ErrorCode>(ErrorCode::InvalidEscrowOwner)
        }),
{
    if vault.owner.matches(caller) {
        Ok(())
    } else {
        Err(ErrorCode::InvalidEscrowOwner)
    }
}

/// Identity guard for the claim.
pub fn ensure_beneficiary(vault: &EscrowVault, caller: &Identity) -> (r: Result<(), ErrorCode>)
    ensures
        r == (if beneficiary_matches(*vault, *caller) {
            Ok::<(), ErrorCode>(())
        } else {
            Err::<(), ErrorCode>(ErrorCode::InvalidBeneficiary)
        }),
{
    if vault.beneficiary.matches(caller) {
        Ok(())
    } else {
        Err(ErrorCode::InvalidBeneficiary)
    }
}

/// Status guard: a finished vault accepts no further operation.
pub fn ensure_not_finished(vault: &EscrowVault) -> (r: Result<(), ErrorCode>)
    ensures
        r == (if is_finished(*vault) {
            Err::<(), ErrorCode>(ErrorCode::EscrowAlreadyFinished)
        } else {
            Ok::<(), ErrorCode>(())
        }),
{
    match vault.status {
        VaultStatus::Finished => Err(ErrorCode::EscrowAlreadyFinished),
        _ => Ok(()),
    }
}

/// Decides the inactivity predicate in 64-bit arithmetic, for every pair of
/// timestamps and every period: a deadline beyond the last representable time
/// has not passed, one before the first has.
pub fn inactivity_elapsed(vault: &EscrowVault, now: i64) -> (elapsed: bool)
    ensures
        elapsed == inactivity_passed(*vault, now),
{
    let last: i64 = vault.last_check_in;
    let period: i64 = vault.inactivity_period;
    if period >= 0 {
        if last > i64::MAX - period {
            false
        } else {
            last + period < now
        }
    } else {
        if last < i64::MIN - period {
            true
        } else {
            last + period < now
        }
    }
}

/// Timing guard for the claim.
pub fn ensure_inactive(vault: &EscrowVault, now: i64) -> (r: Result<(), ErrorCode>)
    ensures
        r == (if inactivity_passed(*vault, now) {
            Ok::<(), ErrorCode>(())
        } else {
            Err::<(), ErrorCode>(ErrorCode::InactivityPeriodNotPassed)
        }),
{
    if inactivity_elapsed(vault, now) {
        Ok(())
    } else {
        Err(ErrorCode::InactivityPeriodNotPassed)
    }
}

/// Configuration guard for a new vault.
pub fn ensure_period(inactivity_period: i64, now: i64) -> (r: Result<(), ErrorCode>)
    ensures
        r == (if period_valid(inactivity_period, now) {
            Ok::<(), ErrorCode>(())
        } else {
            Err::<(), ErrorCode>(ErrorCode::InvalidInactivityPeriod)
        }),
{
    if inactivity_period > 0 && now <= i64::MAX - inactivity_period {
        Ok(())
    } else {
        Err(ErrorCode::InvalidInactivityPeriod)
    }
}

} // verus!
