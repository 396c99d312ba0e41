//! What the movements of a transition add up to. One share stands for one
//! unit of pooled value: whatever a transition adds to the registry's count,
//! its movements bring into the pool and issue in shares.

use vstd::prelude::*;
use crate::action::Action;
use crate::context::{ClaimInheritaince, DepositSol, RedeemToken};
use crate::engine::{
    claim_actions, claim_amount, claim_error, claim_next, deposit_actions, deposit_error,
    deposit_next, redeem_actions, redeem_error, redeem_next,
};
use crate::identity::Identity;

verus! {

/// The native value that one movement brings into `account`; negative where
/// it takes value out.
pub open spec fn inflow(action: Action, account: Identity) -> int {
    match action {
        Action::Transfer { from, to, amount } => (if to == account {
            amount as int
        } else {
            0
        }) - (if from == account {
            amount as int
        } else {
            0
        }),
        _ => 0,
    }
}

/// The shares of `mint` that one movement issues; negative where it burns.
pub open spec fn issue(action: Action, mint: Identity) -> int {
    match action {
        Action::Mint { mint: of, amount, .. } => if of == mint {
            amount as int
        } else {
            0
        },
        Action::Burn { mint: of, amount, .. } => if of == mint {
            -(amount as int)
        } else {
            0
        },
        _ => 0,
    }
}

/// The native value that a list of movements brings into `account`.
pub open spec fn value_into(actions: Seq<Action>, account: Identity) -> int
    decreases actions.len(),
{
    if actions.len() == 0 {
        0
    } else {
        value_into(actions.drop_last(), account) + inflow(actions.last(), account)
    }
}

/// The shares of `mint` that a list of movements issues.
pub open spec fn shares_issued(actions: Seq<Action>, mint: Identity) -> int
    decreases actions.len(),
{
    if actions.len() == 0 {
        0
    } else {
        shares_issued(actions.drop_last(), mint) + issue(actions.last(), mint)
    }
}

/// Both sums go movement by movement.
pub proof fn sums_push(actions: Seq<Action>, action: Action, account: Identity, mint: Identity)
    ensures
        value_into(actions.push(action), account) == value_into(actions, account) + inflow(
            action,
            account,
        ),
        shares_issued(actions.push(action), mint) == shares_issued(actions, mint) + issue(
            action,
            mint,
        ),
{
    assert(actions.push(action).drop_last() =~= actions);
}

/// The sums of two movements.
pub proof fn sums_of_two(a: Action, b: Action, account: Identity, mint: Identity)
    ensures
        value_into(seq![a, b], account) == inflow(a, account) + inflow(b, account),
        shares_issued(seq![a, b], mint) == issue(a, mint) + issue(b, mint),
{
    let none = Seq::<Action>::empty();
    sums_push(none, a, account, mint);
    sums_push(none.push(a), b, account, mint);
    assert(seq![a, b] =~= none.push(a).push(b));
}

/// The sums of three movements.
pub proof fn sums_of_three(a: Action, b: Action, c: Action, account: Identity, mint: Identity)
    ensures
        value_into(seq![a, b, c], account) == inflow(a, account) + inflow(b, account) + inflow(
            c,
            account,
        ),
        shares_issued(seq![a, b, c], mint) == issue(a, mint) + issue(b, mint) + issue(c, mint),
{
    sums_of_two(a, b, account, mint);
    sums_push(seq![a, b], c, account, mint);
    assert(seq![a, b, c] =~= seq![a, b].push(c));
}

/// A deposit brings into the pool, and issues in shares, exactly what it
/// adds to the registry's count. The depositor is not the pool.
pub proof fn deposit_conserves(ctx: DepositSol, shares: u64, now: i64)
    requires
        deposit_error(ctx, shares) is None,
        ctx.owner != ctx.global_state.sol_vault,
    ensures
        deposit_next(ctx, shares, now).global_state.total_shares - ctx.global_state.total_shares
            == shares,
        value_into(deposit_actions(ctx, shares), ctx.global_state.sol_vault) == shares,
        value_into(deposit_actions(ctx, shares), ctx.owner) == -shares,
        shares_issued(deposit_actions(ctx, shares), ctx.global_state.token_mint) == shares,
{
    let actions = deposit_actions(ctx, shares);
    sums_of_three(
        actions[0],
        actions[1],
        actions[2],
        ctx.global_state.sol_vault,
        ctx.global_state.token_mint,
    );
    sums_of_three(actions[0], actions[1], actions[2], ctx.owner, ctx.global_state.token_mint);
    assert(actions =~= seq![actions[0], actions[1], actions[2]]);
}

/// A redemption takes out of the pool, and burns in shares, exactly what it
/// takes off the registry's count, and the value goes to the owner. The owner
/// is not the pool.
pub proof fn redeem_conserves(ctx: RedeemToken, shares: u64)
    requires
        redeem_error(ctx, shares) is None,
        ctx.owner != ctx.global_state.sol_vault,
    ensures
        ctx.global_state.total_shares - redeem_next(ctx, shares).global_state.total_shares
            == shares,
        value_into(redeem_actions(ctx, shares), ctx.global_state.sol_vault) == -shares,
        value_into(redeem_actions(ctx, shares), ctx.owner) == shares,
        shares_issued(redeem_actions(ctx, shares), ctx.global_state.token_mint) == -shares,
{
    let actions = redeem_actions(ctx, shares);
    sums_of_two(actions[0], actions[1], ctx.global_state.sol_vault, ctx.global_state.token_mint);
    sums_of_two(actions[0], actions[1], ctx.owner, ctx.global_state.token_mint);
    assert(actions =~= seq![actions[0], actions[1]]);
}

/// A claim takes out of the pool, and burns in shares, exactly what it takes
/// off the registry's count, and the value goes to the beneficiary. The
/// beneficiary is not the pool.
pub proof fn claim_conserves(ctx: ClaimInheritaince, now: i64)
    requires
        claim_error(ctx, now) is None,
        ctx.beneficiary != ctx.global_state.sol_vault,
    ensures
        ctx.global_state.total_shares - claim_next(ctx).global_state.total_shares == claim_amount(
            ctx,
        ),
        value_into(claim_actions(ctx), ctx.global_state.sol_vault) == -claim_amount(ctx),
        value_into(claim_actions(ctx), ctx.beneficiary) == claim_amount(ctx),
        shares_issued(claim_actions(ctx), ctx.global_state.token_mint) == -claim_amount(ctx),
{
    let actions = claim_actions(ctx);
    sums_of_two(actions[0], actions[1], ctx.global_state.sol_vault, ctx.global_state.token_mint);
    sums_of_two(actions[0], actions[1], ctx.beneficiary, ctx.global_state.token_mint);
    assert(actions =~= seq![actions[0], actions[1]]);
}

} // verus!
