//! The dead-man's switch seen over time: what a vault's status is at a given
//! time, how a proof of liveness holds a claim off, and that a claim is final.

use vstd::prelude::*;
use crate::context::{CheckIn, ClaimInheritaince, DepositSol};
use crate::engine::{
    check_in_error, claim_amount, claim_error, claim_next, deposit_error, deposit_next, refreshed,
};
use crate::guard::{beneficiary_matches, inactivity_elapsed, inactivity_passed, is_finished};
use crate::state::{ErrorCode, EscrowVault, VaultStatus};

verus! {

/// The status that the time `now` shows: a claimed vault is finished; one
/// whose deadline has passed can be claimed, whatever status it has stored;
/// any other is active.
pub open spec fn status_as_of(vault: EscrowVault, now: i64) -> VaultStatus {
    if is_finished(vault) {
        VaultStatus::Finished
    } else if inactivity_passed(vault, now) {
        VaultStatus::Claimable
    } else {
        VaultStatus::Active
    }
}

/// Computes the status that the time `now` shows.
pub fn status_at(vault: &EscrowVault, now: i64) -> (status: VaultStatus)
    ensures
        status == status_as_of(*vault, now),
{
    match vault.status {
        VaultStatus::Finished => VaultStatus::Finished,
        _ => if inactivity_elapsed(vault, now) {
            VaultStatus::Claimable
        } else {
            VaultStatus::Active
        },
    }
}

/// The beneficiary's claim goes through exactly on a vault that the time
/// shows as claimable, as long as the registry counts what is to be moved.
pub proof fn claim_follows_status(ctx: ClaimInheritaince, now: i64)
    requires
        beneficiary_matches(ctx.escrow_vault, ctx.beneficiary),
        claim_amount(ctx) <= ctx.global_state.total_shares,
    ensures
        claim_error(ctx, now) is None <==> status_as_of(ctx.escrow_vault, now)
            == VaultStatus::Claimable,
        status_as_of(ctx.escrow_vault, now) == VaultStatus::Active ==> claim_error(ctx, now)
            == Some(ErrorCode::InactivityPeriodNotPassed),
{
}

/// A check-in at `now` holds every claim off for the whole inactivity
/// period from `now` on, whenever the vault was checked in before.
pub proof fn check_in_defers_claim(ctx: CheckIn, now: i64, claim: ClaimInheritaince, later: i64)
    requires
        check_in_error(ctx) is None,
        claim.escrow_vault == refreshed(ctx.escrow_vault, now),
        later <= now + ctx.escrow_vault.inactivity_period,
    ensures
        claim_error(claim, later) is Some,
        beneficiary_matches(claim.escrow_vault, claim.beneficiary) ==> claim_error(claim, later)
            == Some(ErrorCode::InactivityPeriodNotPassed),
{
}

/// A deposit at `now` holds every claim off as a check-in at `now` does.
pub proof fn deposit_defers_claim(
    ctx: DepositSol,
    shares: u64,
    now: i64,
    claim: ClaimInheritaince,
    later: i64,
)
    requires
        deposit_error(ctx, shares) is None,
        claim.escrow_vault == deposit_next(ctx, shares, now).escrow_vault,
        later <= now + ctx.escrow_vault.inactivity_period,
    ensures
        claim_error(claim, later) is Some,
        beneficiary_matches(claim.escrow_vault, claim.beneficiary) ==> claim_error(claim, later)
            == Some(ErrorCode::InactivityPeriodNotPassed),
{
}

/// A vault is claimed at most once. After a claim has gone through, every
/// further claim on that vault is refused, whoever makes it, at whatever time
/// and whatever the owner then holds; the claimed vault has nothing locked,
/// so that nothing is left that a further claim could move.
pub proof fn claim_only_once(first: ClaimInheritaince, now: i64, second: ClaimInheritaince, later: i64)
    requires
        claim_error(first, now) is None,
        second.escrow_vault == claim_next(first).escrow_vault,
    ensures
        claim_next(first).escrow_vault.shares == 0,
        claim_amount(second) == 0,
        claim_error(second, later) is Some,
        beneficiary_matches(second.escrow_vault, second.beneficiary) && inactivity_passed(
            second.escrow_vault,
            later,
        ) ==> claim_error(second, later) == Some(ErrorCode::EscrowAlreadyFinished),
{
}

} // verus!
