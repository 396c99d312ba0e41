//! The accounting invariant of a deployment: the registry counts exactly the
//! shares that the vaults which are not finished have locked. It holds of the
//! fresh registry and every transition keeps it.

use vstd::prelude::*;
use crate::context::{CheckIn, ClaimInheritaince, CreateEscrow, DepositSol, InitializeGlobalState, RedeemToken};
use crate::engine::{
    check_in_error, claim_error, claim_next, create_error, created_vault, deposit_error,
    deposit_next, initial_registry, initialize_error, redeem_error, redeem_next, refreshed,
};
use crate::guard::is_finished;
use crate::identity::Identity;
use crate::state::{ErrorCode, EscrowVault, GlobalState};

verus! {

/// What one vault adds to the registry's count: its shares, unless it is
/// finished.
pub open spec fn locked(vault: EscrowVault) -> int {
    if is_finished(vault) {
        0
    } else {
        vault.shares as int
    }
}

/// The shares locked over all the vaults of a deployment.
pub open spec fn live_shares(vaults: Seq<EscrowVault>) -> int
    decreases vaults.len(),
{
    if vaults.len() == 0 {
        0
    } else {
        live_shares(vaults.drop_last()) + locked(vaults.last())
    }
}

/// The invariant: the registry's count is the sum over the vaults.
pub open spec fn balanced(registry: GlobalState, vaults: Seq<EscrowVault>) -> bool {
    registry.total_shares == live_shares(vaults)
}

/// A further vault adds what it has locked.
pub proof fn live_shares_push(vaults: Seq<EscrowVault>, vault: EscrowVault)
    ensures
        live_shares(vaults.push(vault)) == live_shares(vaults) + locked(vault),
{
    assert(vaults.push(vault).drop_last() =~= vaults);
}

/// Replacing one vault changes the sum by the difference of what the two
/// have locked.
pub proof fn live_shares_update(vaults: Seq<EscrowVault>, i: int, vault: EscrowVault)
    requires
        0 <= i < vaults.len(),
    ensures
        live_shares(vaults.update(i, vault)) == live_shares(vaults) - locked(vaults[i]) + locked(
            vault,
        ),
    decreases vaults.len(),
{
    let after = vaults.update(i, vault);
    if i == vaults.len() - 1 {
        assert(after.drop_last() =~= vaults.drop_last());
    } else {
        live_shares_update(vaults.drop_last(), i, vault);
        assert(after.drop_last() =~= vaults.drop_last().update(i, vault));
    }
}

/// No vault has more locked than the sum over all of them.
pub proof fn live_shares_covers(vaults: Seq<EscrowVault>, i: int)
    requires
        0 <= i < vaults.len(),
    ensures
        0 <= locked(vaults[i]) <= live_shares(vaults),
    decreases vaults.len(),
{
    live_shares_nonnegative(vaults.drop_last());
    if i < vaults.len() - 1 {
        live_shares_covers(vaults.drop_last(), i);
    }
}

/// The sum is never negative.
pub proof fn live_shares_nonnegative(vaults: Seq<EscrowVault>)
    ensures
        0 <= live_shares(vaults),
    decreases vaults.len(),
{
    if vaults.len() > 0 {
        live_shares_nonnegative(vaults.drop_last());
    }
}

/// The fresh registry of a deployment without vaults is balanced.
pub proof fn initialize_balanced(ctx: InitializeGlobalState)
    requires
        initialize_error(ctx) is None,
    ensures
        balanced(initial_registry(ctx), Seq::<EscrowVault>::empty()),
{
}

/// Creating a vault keeps the deployment balanced: the new vault is empty.
pub proof fn create_keeps_balance(
    registry: GlobalState,
    vaults: Seq<EscrowVault>,
    ctx: CreateEscrow,
    inactivity_period: i64,
    now: i64,
)
    requires
        balanced(registry, vaults),
        create_error(inactivity_period, now) is None,
    ensures
        balanced(registry, vaults.push(created_vault(ctx, inactivity_period, now))),
{
    live_shares_push(vaults, created_vault(ctx, inactivity_period, now));
}

/// A check-in on the vault at place `i` keeps the deployment balanced.
pub proof fn check_in_keeps_balance(
    registry: GlobalState,
    vaults: Seq<EscrowVault>,
    i: int,
    ctx: CheckIn,
    now: i64,
)
    requires
        balanced(registry, vaults),
        0 <= i < vaults.len(),
        vaults[i] == ctx.escrow_vault,
        check_in_error(ctx) is None,
    ensures
        balanced(registry, vaults.update(i, refreshed(ctx.escrow_vault, now))),
{
    live_shares_update(vaults, i, refreshed(ctx.escrow_vault, now));
}

/// A deposit into the vault at place `i` keeps the deployment balanced.
pub proof fn deposit_keeps_balance(vaults: Seq<EscrowVault>, i: int, ctx: DepositSol, shares: u64, now: i64)
    requires
        balanced(ctx.global_state, vaults),
        0 <= i < vaults.len(),
        vaults[i] == ctx.escrow_vault,
        deposit_error(ctx, shares) is None,
    ensures
        balanced(
            deposit_next(ctx, shares, now).global_state,
            vaults.update(i, deposit_next(ctx, shares, now).escrow_vault),
        ),
{
    live_shares_update(vaults, i, deposit_next(ctx, shares, now).escrow_vault);
}

/// A redemption from the vault at place `i` keeps the deployment balanced.
pub proof fn redeem_keeps_balance(vaults: Seq<EscrowVault>, i: int, ctx: RedeemToken, shares: u64)
    requires
        balanced(ctx.global_state, vaults),
        0 <= i < vaults.len(),
        vaults[i] == ctx.escrow_vault,
        redeem_error(ctx, shares) is None,
    ensures
        balanced(
            redeem_next(ctx, shares).global_state,
            vaults.update(i, redeem_next(ctx, shares).escrow_vault),
        ),
{
    live_shares_update(vaults, i, redeem_next(ctx, shares).escrow_vault);
}

/// A claim on the vault at place `i` keeps the deployment balanced, provided
/// the owner still holds a share for every share that the vault has locked.
/// Where the owner holds fewer, the claim moves fewer than the vault gives up,
/// and the registry goes on counting the difference.
pub proof fn claim_keeps_balance(vaults: Seq<EscrowVault>, i: int, ctx: ClaimInheritaince, now: i64)
    requires
        balanced(ctx.global_state, vaults),
        0 <= i < vaults.len(),
        vaults[i] == ctx.escrow_vault,
        claim_error(ctx, now) is None,
        ctx.escrow_vault.shares <= ctx.token_amount,
    ensures
        balanced(claim_next(ctx).global_state, vaults.update(i, claim_next(ctx).escrow_vault)),
{
    live_shares_update(vaults, i, claim_next(ctx).escrow_vault);
}

/// In a balanced deployment the pool covers every redemption and every
/// claim: neither is ever refused for want of pooled value.
pub proof fn balanced_pool_covers(
    vaults: Seq<EscrowVault>,
    i: int,
    redeem: RedeemToken,
    shares: u64,
    claim: ClaimInheritaince,
    now: i64,
)
    requires
        0 <= i < vaults.len(),
        balanced(redeem.global_state, vaults),
        balanced(claim.global_state, vaults),
        vaults[i] == redeem.escrow_vault,
        vaults[i] == claim.escrow_vault,
    ensures
        redeem_error(redeem, shares) != Some(ErrorCode::InsufficientSolBalance),
        claim_error(claim, now) != Some(ErrorCode::InsufficientSolBalance),
{
    live_shares_covers(vaults, i);
}

/// A whole deployment: the registry and every vault that was ever created, in
/// the order of their creation.
pub struct Deployment {
    pub registry: GlobalState,
    pub vaults: Seq<EscrowVault>,
}

/// One request to a deployment. `place` says which vault it is made on.
pub enum Step {
    Create { ctx: CreateEscrow, inactivity_period: i64, now: i64 },
    CheckIn { place: int, caller: Identity, now: i64 },
    Deposit { place: int, caller: Identity, shares: u64, now: i64 },
    Redeem { place: int, caller: Identity, shares: u64, token_amount: u64 },
    Claim { place: int, caller: Identity, token_amount: u64, now: i64 },
}

/// The deployment right after its set-up: the fresh registry and no vault.
pub open spec fn fresh_deployment(ctx: InitializeGlobalState) -> Deployment {
    Deployment { registry: initial_registry(ctx), vaults: Seq::<EscrowVault>::empty() }
}

/// The deployment after one request. A request that is refused, or that
/// names no vault, changes nothing.
pub open spec fn step(d: Deployment, s: Step) -> Deployment {
    match s {
        Step::Create { ctx, inactivity_period, now } => {
            if create_error(inactivity_period, now) is None {
                Deployment {
                    registry: d.registry,
                    vaults: d.vaults.push(created_vault(ctx, inactivity_period, now)),
                }
            } else {
                d
            }
        },
        Step::CheckIn { place, caller, now } => {
            let ctx = CheckIn { owner: caller, escrow_vault: d.vaults[place] };
            if 0 <= place < d.vaults.len() && check_in_error(ctx) is None {
                Deployment {
                    registry: d.registry,
                    vaults: d.vaults.update(place, refreshed(ctx.escrow_vault, now)),
                }
            } else {
                d
            }
        },
        Step::Deposit { place, caller, shares, now } => {
            let ctx = DepositSol {
                owner: caller,
                global_state: d.registry,
                escrow_vault: d.vaults[place],
            };
            if 0 <= place < d.vaults.len() && deposit_error(ctx, shares) is None {
                Deployment {
                    registry: deposit_next(ctx, shares, now).global_state,
                    vaults: d.vaults.update(place, deposit_next(ctx, shares, now).escrow_vault),
                }
            } else {
                d
            }
        },
        Step::Redeem { place, caller, shares, token_amount } => {
            let ctx = RedeemToken {
                owner: caller,
                global_state: d.registry,
                escrow_vault: d.vaults[place],
                token_amount,
            };
            if 0 <= place < d.vaults.len() && redeem_error(ctx, shares) is None {
                Deployment {
                    registry: redeem_next(ctx, shares).global_state,
                    vaults: d.vaults.update(place, redeem_next(ctx, shares).escrow_vault),
                }
            } else {
                d
            }
        },
        Step::Claim { place, caller, token_amount, now } => {
            let ctx = ClaimInheritaince {
                escrow_vault: d.vaults[place],
                beneficiary: caller,
                global_state: d.registry,
                token_amount,
            };
            if 0 <= place < d.vaults.len() && claim_error(ctx, now) is None {
                Deployment {
                    registry: claim_next(ctx).global_state,
                    vaults: d.vaults.update(place, claim_next(ctx).escrow_vault),
                }
            } else {
                d
            }
        },
    }
}

/// Whether, if the request is a claim that goes through, the owner of the
/// claimed vault still holds a share for every share that the vault has
/// locked.
pub open spec fn claim_covered(d: Deployment, s: Step) -> bool {
    match s {
        Step::Claim { place, caller, token_amount, now } => {
            let ctx = ClaimInheritaince {
                escrow_vault: d.vaults[place],
                beneficiary: caller,
                global_state: d.registry,
                token_amount,
            };
            0 <= place < d.vaults.len() && claim_error(ctx, now) is None ==> d.vaults[place].shares
                <= token_amount
        },
        _ => true,
    }
}

/// The deployment after a history of requests, oldest first.
pub open spec fn run(d: Deployment, history: Seq<Step>) -> Deployment
    decreases history.len(),
{
    if history.len() == 0 {
        d
    } else {
        step(run(d, history.drop_last()), history.last())
    }
}

/// Whether every claim of a history that went through was covered when it
/// was made.
pub open spec fn claims_covered(d: Deployment, history: Seq<Step>) -> bool
    decreases history.len(),
{
    if history.len() == 0 {
        true
    } else {
        claims_covered(d, history.drop_last()) && claim_covered(
            run(d, history.drop_last()),
            history.last(),
        )
    }
}

/// One request keeps a balanced deployment balanced, a claim provided that
/// it is covered.
pub proof fn step_keeps_balance(d: Deployment, s: Step)
    requires
        balanced(d.registry, d.vaults),
        claim_covered(d, s),
    ensures
        balanced(step(d, s).registry, step(d, s).vaults),
{
    match s {
        Step::Create { ctx, inactivity_period, now } => {
            if create_error(inactivity_period, now) is None {
                create_keeps_balance(d.registry, d.vaults, ctx, inactivity_period, now);
            }
        },
        Step::CheckIn { place, caller, now } => {
            let ctx = CheckIn { owner: caller, escrow_vault: d.vaults[place] };
            if 0 <= place < d.vaults.len() && check_in_error(ctx) is None {
                check_in_keeps_balance(d.registry, d.vaults, place, ctx, now);
            }
        },
        Step::Deposit { place, caller, shares, now } => {
            let ctx = DepositSol {
                owner: caller,
                global_state: d.registry,
                escrow_vault: d.vaults[place],
            };
            if 0 <= place < d.vaults.len() && deposit_error(ctx, shares) is None {
                deposit_keeps_balance(d.vaults, place, ctx, shares, now);
            }
        },
        Step::Redeem { place, caller, shares, token_amount } => {
            let ctx = RedeemToken {
                owner: caller,
                global_state: d.registry,
                escrow_vault: d.vaults[place],
                token_amount,
            };
            if 0 <= place < d.vaults.len() && redeem_error(ctx, shares) is None {
                redeem_keeps_balance(d.vaults, place, ctx, shares);
            }
        },
        Step::Claim { place, caller, token_amount, now } => {
            let ctx = ClaimInheritaince {
                escrow_vault: d.vaults[place],
                beneficiary: caller,
                global_state: d.registry,
                token_amount,
            };
            if 0 <= place < d.vaults.len() && claim_error(ctx, now) is None {
                claim_keeps_balance(d.vaults, place, ctx, now);
            }
        },
    }
}

/// Every state that a deployment reaches is balanced: after the set-up and
/// any history of requests whose claims were covered, the registry counts
/// exactly the shares locked in the vaults that are not finished. A claim on
/// a vault whose owner has parted with some of the shares is left out: it
/// finishes the vault and takes off the count only what it moves.
pub proof fn reachable_balanced(ctx: InitializeGlobalState, history: Seq<Step>)
    requires
        initialize_error(ctx) is None,
        claims_covered(fresh_deployment(ctx), history),
    ensures
        balanced(
            run(fresh_deployment(ctx), history).registry,
            run(fresh_deployment(ctx), history).vaults,
        ),
    decreases history.len(),
{
    if history.len() > 0 {
        reachable_balanced(ctx, history.drop_last());
        step_keeps_balance(run(fresh_deployment(ctx), history.drop_last()), history.last());
    }
}

} // verus!
