//! The transitions of the escrow. Each one validates first, then updates the
//! records, and hands back the movements that the outside services have to
//! perform. A transition that fails leaves every record as it was and asks for
//! no movement.
//!
//! A transition that depends on the time comes twice. The function with the
//! plain name reads the ledger's clock; the one whose name ends in `_at` takes
//! the time as an argument and is what the rules are stated of.

use vstd::prelude::*;
use crate::action::{Action, Authority};
use crate::clock::ledger_time;
use crate::context::{CheckIn, ClaimInheritaince, CreateEscrow, DepositSol, InitializeGlobalState, RedeemToken};
use crate::guard::{
    beneficiary_matches, ensure_beneficiary, ensure_inactive, ensure_not_finished, ensure_owner,
    ensure_period, inactivity_passed, is_finished, owner_matches, period_valid,
};
use crate::state::{ErrorCode, EscrowVault, GlobalState, VaultStatus};

verus! {

/// A vault after a proof of liveness at `now`.
pub open spec fn refreshed(vault: EscrowVault, now: i64) -> EscrowVault {
    EscrowVault { last_check_in: now, status: VaultStatus::Active, ..vault }
}

/// Why the set-up of the registry is refused, if it is.
pub open spec fn initialize_error(ctx: InitializeGlobalState) -> Option<ErrorCode> {
    if ctx.global_state is Some {
        Some(ErrorCode::GlobalStateAlreadyInitialized)
    } else {
        None
    }
}

/// The registry that the set-up creates.
pub open spec fn initial_registry(ctx: InitializeGlobalState) -> GlobalState {
    GlobalState { sol_vault: ctx.sol_vault, token_mint: ctx.token_mint, total_shares: 0, bump: ctx.bump }
}

/// Why the creation of a vault at `now` is refused, if it is.
pub open spec fn create_error(inactivity_period: i64, now: i64) -> Option<ErrorCode> {
    if period_valid(inactivity_period, now) {
        None
    } else {
        Some(ErrorCode::InvalidInactivityPeriod)
    }
}

/// The vault that a creation at `now` fills in.
pub open spec fn created_vault(ctx: CreateEscrow, inactivity_period: i64, now: i64) -> EscrowVault {
    EscrowVault {
        owner: ctx.owner,
        beneficiary: ctx.beneficiary,
        shares: 0,
        last_check_in: now,
        inactivity_period,
        status: VaultStatus::Active,
        bump: ctx.bump,
    }
}

/// Why a check-in is refused, if it is.
pub open spec fn check_in_error(ctx: CheckIn) -> Option<ErrorCode> {
    if !owner_matches(ctx.escrow_vault, ctx.owner) {
        Some(ErrorCode::InvalidEscrowOwner)
    } else if is_finished(ctx.escrow_vault) {
        Some(ErrorCode::EscrowAlreadyFinished)
    } else {
        None
    }
}

/// Why a deposit of `shares` is refused, if it is. An amount that one of the
/// two counters cannot hold is an invalid amount.
pub open spec fn deposit_error(ctx: DepositSol, shares: u64) -> Option<ErrorCode> {
    if !owner_matches(ctx.escrow_vault, ctx.owner) {
        Some(ErrorCode::InvalidEscrowOwner)
    } else if is_finished(ctx.escrow_vault) {
        Some(ErrorCode::EscrowAlreadyFinished)
    } else if ctx.escrow_vault.shares + shares > u64::MAX || ctx.global_state.total_shares + shares
        > u64::MAX {
        Some(ErrorCode::InvalidAmount)
    } else {
        None
    }
}

/// The records after a deposit of `shares` at `now`.
pub open spec fn deposit_next(ctx: DepositSol, shares: u64, now: i64) -> DepositSol {
    DepositSol {
        owner: ctx.owner,
        global_state: GlobalState {
            total_shares: (ctx.global_state.total_shares + shares) as u64,
            ..ctx.global_state
        },
        escrow_vault: refreshed(
            EscrowVault { shares: (ctx.escrow_vault.shares + shares) as u64, ..ctx.escrow_vault },
            now,
        ),
    }
}

/// The movements of a deposit of `shares`: the value goes from the owner to
/// the pool, the registry mints as many shares to the owner, and the owner
/// lets the vault dispose of all shares that it then has locked.
pub open spec fn deposit_actions(ctx: DepositSol, shares: u64) -> Seq<Action> {
    seq![
        Action::Transfer { from: ctx.owner, to: ctx.global_state.sol_vault, amount: shares },
        Action::Mint {
            mint: ctx.global_state.token_mint,
            to: ctx.owner,
            amount: shares,
            authority: Authority::Registry { bump: ctx.global_state.bump },
        },
        Action::Approve {
            holder: ctx.owner,
            delegate: Authority::Vault { owner: ctx.owner, bump: ctx.escrow_vault.bump },
            amount: (ctx.escrow_vault.shares + shares) as u64,
            authority: Authority::Signer(ctx.owner),
        },
    ]
}

/// Why a redemption of `shares` is refused, if it is. Neither the caller's
/// share balance nor the vault's locked shares may be overdrawn, and the pool
/// must hold what is paid out.
pub open spec fn redeem_error(ctx: RedeemToken, shares: u64) -> Option<ErrorCode> {
    if !owner_matches(ctx.escrow_vault, ctx.owner) {
        Some(ErrorCode::InvalidEscrowOwner)
    } else if is_finished(ctx.escrow_vault) {
        Some(ErrorCode::EscrowAlreadyFinished)
    } else if ctx.token_amount < shares || ctx.escrow_vault.shares < shares {
        Some(ErrorCode::InsufficientTokenBalance)
    } else if ctx.global_state.total_shares < shares {
        Some(ErrorCode::InsufficientSolBalance)
    } else {
        None
    }
}

/// The records after a redemption of `shares`: the vault and the registry
/// both give them up.
pub open spec fn redeem_next(ctx: RedeemToken, shares: u64) -> RedeemToken {
    RedeemToken {
        owner: ctx.owner,
        global_state: GlobalState {
            total_shares: (ctx.global_state.total_shares - shares) as u64,
            ..ctx.global_state
        },
        escrow_vault: EscrowVault {
            shares: (ctx.escrow_vault.shares - shares) as u64,
            ..ctx.escrow_vault
        },
        token_amount: ctx.token_amount,
    }
}

/// The movements of a redemption: the owner's shares are burnt under the
/// owner's signature, and the pool pays the owner.
pub open spec fn redeem_actions(ctx: RedeemToken, shares: u64) -> Seq<Action> {
    seq![
        Action::Burn {
            mint: ctx.global_state.token_mint,
            from: ctx.owner,
            amount: shares,
            authority: Authority::Signer(ctx.owner),
        },
        Action::Transfer { from: ctx.global_state.sol_vault, to: ctx.owner, amount: shares },
    ]
}

/// What a claim moves: the locked shares, as far as the owner still holds
/// them.
pub open spec fn claim_amount(ctx: ClaimInheritaince) -> u64 {
    if ctx.escrow_vault.shares <= ctx.token_amount {
        ctx.escrow_vault.shares
    } else {
        ctx.token_amount
    }
}

/// Why a claim at `now` is refused, if it is. The caller's identity is
/// tested before the time, the time before the vault's status.
pub open spec fn claim_error(ctx: ClaimInheritaince, now: i64) -> Option<ErrorCode> {
    if !beneficiary_matches(ctx.escrow_vault, ctx.beneficiary) {
        Some(ErrorCode::InvalidBeneficiary)
    } else if !inactivity_passed(ctx.escrow_vault, now) {
        Some(ErrorCode::InactivityPeriodNotPassed)
    } else if is_finished(ctx.escrow_vault) {
        Some(ErrorCode::EscrowAlreadyFinished)
    } else if ctx.global_state.total_shares < claim_amount(ctx) {
        Some(ErrorCode::InsufficientSolBalance)
    } else {
        None
    }
}

/// The records after a claim: the vault is emptied and finished, the
/// registry gives up what was moved.
pub open spec fn claim_next(ctx: ClaimInheritaince) -> ClaimInheritaince {
    ClaimInheritaince {
        escrow_vault: EscrowVault { shares: 0, status: VaultStatus::Finished, ..ctx.escrow_vault },
        beneficiary: ctx.beneficiary,
        global_state: GlobalState {
            total_shares: (ctx.global_state.total_shares - claim_amount(ctx)) as u64,
            ..ctx.global_state
        },
        token_amount: ctx.token_amount,
    }
}

/// The movements of a claim: the owner's shares are burnt under the vault's
/// own capability, so that the owner need not sign, and the pool pays the
/// beneficiary.
pub open spec fn claim_actions(ctx: ClaimInheritaince) -> Seq<Action> {
    seq![
        Action::Burn {
            mint: ctx.global_state.token_mint,
            from: ctx.escrow_vault.owner,
            amount: claim_amount(ctx),
            authority: Authority::Vault {
                owner: ctx.escrow_vault.owner,
                bump: ctx.escrow_vault.bump,
            },
        },
        Action::Transfer {
            from: ctx.global_state.sol_vault,
            to: ctx.escrow_vault.beneficiary,
            amount: claim_amount(ctx),
        },
    ]
}

/// Records a proof of liveness at `now`: the inactivity clock starts anew
/// and the vault is active.
pub fn reset_last_check_in_at(escrow: &mut EscrowVault, now: i64)
    ensures
        *final(escrow) == refreshed(*old(escrow), now),
{
    escrow.last_check_in = now;
    escrow.status = VaultStatus::Active;
}

/// Records a proof of liveness at the ledger time. Fails only where the
/// ledger gives no time, and then changes nothing.
pub fn reset_last_check_in(escrow: &mut EscrowVault) -> (r: Result<(), ErrorCode>)
    ensures
        match r {
            Ok(_) => *final(escrow) == refreshed(*old(escrow), final(escrow).last_check_in),
            Err(e) => e == ErrorCode::ClockUnavailable && *final(escrow) == *old(escrow),
        },
{
    match ledger_time() {
        Ok(now) => {
            reset_last_check_in_at(escrow, now);
            Ok(())
        },
        Err(e) => Err(e),
    }
}

/// Sets the registry up, once: it names the pool and the mint and counts no
/// share. Refused when the deployment has a registry already.
pub fn initialize_global_state(ctx: &mut InitializeGlobalState) -> (r: Result<(), ErrorCode>)
    ensures
        match r {
            Ok(_) => initialize_error(*old(ctx)) is None && *final(ctx) == (InitializeGlobalState {
                global_state: Some(initial_registry(*old(ctx))),
                ..*old(ctx)
            }),
            Err(e) => initialize_error(*old(ctx)) == Some(e) && *final(ctx) == *old(ctx),
        },
{
    if ctx.global_state.is_some() {
        return Err(ErrorCode::GlobalStateAlreadyInitialized);
    }
    ctx.global_state = Some(
        GlobalState { sol_vault: ctx.sol_vault, token_mint: ctx.token_mint, total_shares: 0, bump: ctx.bump },
    );
    Ok(())
}

/// Creates the vault of `ctx.owner` at the time `now`: active, empty,
/// checked in at `now`. Refused unless the inactivity period is positive and
/// the first deadline is a 64-bit time.
pub fn create_escrow_at(ctx: &mut CreateEscrow, inactivity_period: i64, now: i64) -> (r: Result<
    (),
    ErrorCode,
>)
    ensures
        match r {
            Ok(_) => create_error(inactivity_period, now) is None && *final(ctx) == (CreateEscrow {
                escrow_vault: created_vault(*old(ctx), inactivity_period, now),
                ..*old(ctx)
            }),
            Err(e) => create_error(inactivity_period, now) == Some(e) && *final(ctx) == *old(ctx),
        },
        r is Err <==> inactivity_period <= 0 || now + inactivity_period > i64::MAX,
{
    if let Err(e) = ensure_period(inactivity_period, now) {
        return Err(e);
    }
    ctx.escrow_vault = EscrowVault {
        owner: ctx.owner,
        beneficiary: ctx.beneficiary,
        shares: 0,
        last_check_in: now,
        inactivity_period,
        status: VaultStatus::Active,
        bump: ctx.bump,
    };
    Ok(())
}

/// Creates the vault of `ctx.owner` at the ledger time. A period that is
/// not positive is refused before the clock is read; after that the creation
/// is that of `create_escrow_at` at the time read, which the new vault records
/// as its last check-in.
pub fn create_escrow(ctx: &mut CreateEscrow, inactivity_period: i64) -> (r: Result<(), ErrorCode>)
    ensures
        match r {
            Ok(_) => create_error(inactivity_period, final(ctx).escrow_vault.last_check_in) is None
                && *final(ctx) == (CreateEscrow {
                escrow_vault: created_vault(
                    *old(ctx),
                    inactivity_period,
                    final(ctx).escrow_vault.last_check_in,
                ),
                ..*old(ctx)
            }),
            Err(e) => *final(ctx) == *old(ctx) && (e == ErrorCode::InvalidInactivityPeriod || (
            inactivity_period > 0 && e == ErrorCode::ClockUnavailable)),
        },
        inactivity_period <= 0 ==> r == Err::<(), ErrorCode>(ErrorCode::InvalidInactivityPeriod),
{
    if inactivity_period <= 0 {
        return Err(ErrorCode::InvalidInactivityPeriod);
    }
    match ledger_time() {
        Ok(now) => create_escrow_at(ctx, inactivity_period, now),
        Err(e) => Err(e),
    }
}

/// The guards of a check-in: the caller's identity, then the vault's status.
pub fn check_in_guard(ctx: &CheckIn) -> (r: Result<(), ErrorCode>)
    ensures
        r is Ok <==> check_in_error(*ctx) is None,
        r is Err ==> check_in_error(*ctx) == Some(r->Err_0),
{
    if let Err(e) = ensure_owner(&ctx.escrow_vault, &ctx.owner) {
        return Err(e);
    }
    ensure_not_finished(&ctx.escrow_vault)
}

/// A proof of liveness by the owner at the time `now`. No value moves.
pub fn check_in_at(ctx: &mut CheckIn, now: i64) -> (r: Result<(), ErrorCode>)
    ensures
        match r {
            Ok(_) => check_in_error(*old(ctx)) is None && *final(ctx) == (CheckIn {
                escrow_vault: refreshed(old(ctx).escrow_vault, now),
                ..*old(ctx)
            }),
            Err(e) => check_in_error(*old(ctx)) == Some(e) && *final(ctx) == *old(ctx),
        },
        r is Ok ==> final(ctx).escrow_vault.last_check_in == now && final(ctx).escrow_vault.status
            == VaultStatus::Active,
{
    if let Err(e) = check_in_guard(ctx) {
        return Err(e);
    }
    reset_last_check_in_at(&mut ctx.escrow_vault, now);
    Ok(())
}

/// A proof of liveness by the owner at the ledger time. The guards come
/// before the clock: a caller whom they refuse gets their error. Otherwise the
/// check-in is that of `check_in_at` at the time read, which the vault records,
/// unless the ledger gives no time.
pub fn check_in(ctx: &mut CheckIn) -> (r: Result<(), ErrorCode>)
    ensures
        match r {
            Ok(_) => check_in_error(*old(ctx)) is None && *final(ctx) == (CheckIn {
                escrow_vault: refreshed(old(ctx).escrow_vault, final(ctx).escrow_vault.last_check_in),
                ..*old(ctx)
            }),
            Err(e) => *final(ctx) == *old(ctx) && (if check_in_error(*old(ctx)) is Some {
                check_in_error(*old(ctx)) == Some(e)
            } else {
                e == ErrorCode::ClockUnavailable
            }),
        },
        r is Ok ==> final(ctx).escrow_vault.status == VaultStatus::Active,
{
    if let Err(e) = check_in_guard(ctx) {
        return Err(e);
    }
    match ledger_time() {
        Ok(now) => check_in_at(ctx, now),
        Err(e) => Err(e),
    }
}

/// The guards of a deposit: the caller's identity, the vault's status, then
/// the room in the two counters.
pub fn deposit_guard(ctx: &DepositSol, shares: u64) -> (r: Result<(), ErrorCode>)
    ensures
        r is Ok <==> deposit_error(*ctx, shares) is None,
        r is Err ==> deposit_error(*ctx, shares) == Some(r->Err_0),
{
    if let Err(e) = ensure_owner(&ctx.escrow_vault, &ctx.owner) {
        return Err(e);
    }
    if let Err(e) = ensure_not_finished(&ctx.escrow_vault) {
        return Err(e);
    }
    if shares > u64::MAX - ctx.escrow_vault.shares || shares > u64::MAX
        - ctx.global_state.total_shares {
        return Err(ErrorCode::InvalidAmount);
    }
    Ok(())
}

/// Deposits `shares` units of value at the time `now`: both counters grow
/// by `shares`, the vault is checked in, and the movements are those of
/// `deposit_actions`, in that order.
pub fn deposite_sol_at(ctx: &mut DepositSol, shares: u64, now: i64) -> (r: Result<
    Vec<Action>,
    ErrorCode,
>)
    ensures
        match r {
            Ok(actions) => deposit_error(*old(ctx), shares) is None && *final(ctx) == deposit_next(
                *old(ctx),
                shares,
                now,
            ) && actions@ == deposit_actions(*old(ctx), shares),
            Err(e) => deposit_error(*old(ctx), shares) == Some(e) && *final(ctx) == *old(ctx),
        },
        r is Ok ==> final(ctx).escrow_vault.last_check_in == now && final(ctx).escrow_vault.status
            == VaultStatus::Active,
        r is Ok ==> final(ctx).escrow_vault.shares == old(ctx).escrow_vault.shares + shares
            && final(ctx).global_state.total_shares == old(ctx).global_state.total_shares + shares,
{
    if let Err(e) = deposit_guard(ctx, shares) {
        return Err(e);
    }
    let locked: u64 = ctx.escrow_vault.shares + shares;
    let mut actions: Vec<Action> = Vec::new();
    actions.push(Action::Transfer { from: ctx.owner, to: ctx.global_state.sol_vault, amount: shares });
    actions.push(
        Action::Mint {
            mint: ctx.global_state.token_mint,
            to: ctx.owner,
            amount: shares,
            authority: Authority::Registry { bump: ctx.global_state.bump },
        },
    );
    actions.push(
        Action::Approve {
            holder: ctx.owner,
            delegate: Authority::Vault { owner: ctx.owner, bump: ctx.escrow_vault.bump },
            amount: locked,
            authority: Authority::Signer(ctx.owner),
        },
    );
    ctx.escrow_vault.shares = locked;
    ctx.global_state.total_shares = ctx.global_state.total_shares + shares;
    reset_last_check_in_at(&mut ctx.escrow_vault, now);
    assert(actions@ =~= deposit_actions(*old(ctx), shares));
    Ok(actions)
}

/// Deposits `shares` units of value at the ledger time. The guards come
/// before the clock: a deposit that they refuse gets their error. Otherwise
/// the deposit is that of `deposite_sol_at` at the time read, which the vault
/// records, unless the ledger gives no time.
pub fn deposite_sol(ctx: &mut DepositSol, shares: u64) -> (r: Result<Vec<Action>, ErrorCode>)
    ensures
        match r {
            Ok(actions) => deposit_error(*old(ctx), shares) is None && *final(ctx) == deposit_next(
                *old(ctx),
                shares,
                final(ctx).escrow_vault.last_check_in,
            ) && actions@ == deposit_actions(*old(ctx), shares),
            Err(e) => *final(ctx) == *old(ctx) && (if deposit_error(*old(ctx), shares) is Some {
                deposit_error(*old(ctx), shares) == Some(e)
            } else {
                e == ErrorCode::ClockUnavailable
            }),
        },
        r is Ok ==> final(ctx).escrow_vault.status == VaultStatus::Active,
        r is Ok ==> final(ctx).escrow_vault.shares == old(ctx).escrow_vault.shares + shares
            && final(ctx).global_state.total_shares == old(ctx).global_state.total_shares + shares,
{
    if let Err(e) = deposit_guard(ctx, shares) {
        return Err(e);
    }
    match ledger_time() {
        Ok(now) => deposite_sol_at(ctx, shares, now),
        Err(e) => Err(e),
    }
}

/// Redeems `shares` units of value: both counters shrink by `shares`, and
/// the movements are those of `redeem_actions`, in that order. The liveness
/// clock is left alone.
pub fn redeem_token(ctx: &mut RedeemToken, shares: u64) -> (r: Result<Vec<Action>, ErrorCode>)
    ensures
        match r {
            Ok(actions) => redeem_error(*old(ctx), shares) is None && *final(ctx) == redeem_next(
                *old(ctx),
                shares,
            ) && actions@ == redeem_actions(*old(ctx), shares),
            Err(e) => redeem_error(*old(ctx), shares) == Some(e) && *final(ctx) == *old(ctx),
        },
        r is Ok ==> final(ctx).escrow_vault.shares == old(ctx).escrow_vault.shares - shares >= 0
            && final(ctx).global_state.total_shares == old(ctx).global_state.total_shares - shares
            >= 0,
{
    if let Err(e) = ensure_owner(&ctx.escrow_vault, &ctx.owner) {
        return Err(e);
    }
    if let Err(e) = ensure_not_finished(&ctx.escrow_vault) {
        return Err(e);
    }
    if ctx.token_amount < shares || ctx.escrow_vault.shares < shares {
        return Err(ErrorCode::InsufficientTokenBalance);
    }
    if ctx.global_state.total_shares < shares {
        return Err(ErrorCode::InsufficientSolBalance);
    }
    let mut actions: Vec<Action> = Vec::new();
    actions.push(
        Action::Burn {
            mint: ctx.global_state.token_mint,
            from: ctx.owner,
            amount: shares,
            authority: Authority::Signer(ctx.owner),
        },
    );
    actions.push(Action::Transfer { from: ctx.global_state.sol_vault, to: ctx.owner, amount: shares });
    ctx.escrow_vault.shares = ctx.escrow_vault.shares - shares;
    ctx.global_state.total_shares = ctx.global_state.total_shares - shares;
    assert(actions@ =~= redeem_actions(*old(ctx), shares));
    Ok(actions)
}

/// The beneficiary's claim at the time `now`: everything that is still
/// locked, as far as the owner holds the shares for it, goes to the
/// beneficiary, and the vault is finished. A caller who is not the
/// beneficiary is refused whatever the time; the beneficiary is refused until
/// `now` lies strictly after the deadline, and after that on a vault that was
/// claimed before.
pub fn claim_inheritance_at(ctx: &mut ClaimInheritaince, now: i64) -> (r: Result<
    Vec<Action>,
    ErrorCode,
>)
    ensures
        match r {
            Ok(actions) => claim_error(*old(ctx), now) is None && *final(ctx) == claim_next(*old(ctx))
                && actions@ == claim_actions(*old(ctx)),
            Err(e) => claim_error(*old(ctx), now) == Some(e) && *final(ctx) == *old(ctx),
        },
        old(ctx).escrow_vault.beneficiary != old(ctx).beneficiary ==> r == Err::<Vec<Action>, ErrorCode>(
            ErrorCode::InvalidBeneficiary,
        ),
        old(ctx).escrow_vault.beneficiary == old(ctx).beneficiary && now <= old(
            ctx,
        ).escrow_vault.last_check_in + old(ctx).escrow_vault.inactivity_period ==> r == Err::<
            Vec<Action>,
            ErrorCode,
        >(ErrorCode::InactivityPeriodNotPassed),
        r is Ok ==> final(ctx).escrow_vault.shares == 0 && final(ctx).escrow_vault.status
            == VaultStatus::Finished,
{
    if let Err(e) = ensure_beneficiary(&ctx.escrow_vault, &ctx.beneficiary) {
        return Err(e);
    }
    if let Err(e) = ensure_inactive(&ctx.escrow_vault, now) {
        return Err(e);
    }
    if let Err(e) = ensure_not_finished(&ctx.escrow_vault) {
        return Err(e);
    }
    let amount: u64 = if ctx.escrow_vault.shares <= ctx.token_amount {
        ctx.escrow_vault.shares
    } else {
        ctx.token_amount
    };
    if ctx.global_state.total_shares < amount {
        return Err(ErrorCode::InsufficientSolBalance);
    }
    let mut actions: Vec<Action> = Vec::new();
    actions.push(
        Action::Burn {
            mint: ctx.global_state.token_mint,
            from: ctx.escrow_vault.owner,
            amount,
            authority: Authority::Vault { owner: ctx.escrow_vault.owner, bump: ctx.escrow_vault.bump },
        },
    );
    actions.push(
        Action::Transfer {
            from: ctx.global_state.sol_vault,
            to: ctx.escrow_vault.beneficiary,
            amount,
        },
    );
    ctx.escrow_vault.shares = 0;
    ctx.escrow_vault.status = VaultStatus::Finished;
    ctx.global_state.total_shares = ctx.global_state.total_shares - amount;
    assert(actions@ =~= claim_actions(*old(ctx)));
    Ok(actions)
}

/// The beneficiary's claim at the ledger time. A caller who is not the
/// beneficiary is refused before the clock is read. Otherwise the claim is
/// that of `claim_inheritance_at` at the time read, unless the ledger gives no
/// time: it goes through only if it would at some time, and is refused only
/// with an error that some time gives.
pub fn claim_inheritance(ctx: &mut ClaimInheritaince) -> (r: Result<Vec<Action>, ErrorCode>)
    ensures
        match r {
            Ok(actions) => (exists|now: i64| claim_error(*old(ctx), now) is None) && *final(ctx)
                == claim_next(*old(ctx)) && actions@ == claim_actions(*old(ctx)),
            Err(e) => *final(ctx) == *old(ctx) && (if !beneficiary_matches(
                old(ctx).escrow_vault,
                old(ctx).beneficiary,
            ) {
                e == ErrorCode::InvalidBeneficiary
            } else {
                e == ErrorCode::ClockUnavailable || exists|now: i64|
                    claim_error(*old(ctx), now) == Some(e)
            }),
        },
        r is Ok ==> final(ctx).escrow_vault.shares == 0 && final(ctx).escrow_vault.status
            == VaultStatus::Finished,
{
    if let Err(e) = ensure_beneficiary(&ctx.escrow_vault, &ctx.beneficiary) {
        return Err(e);
    }
    match ledger_time() {
        Ok(now) => claim_inheritance_at(ctx, now),
        Err(e) => Err(e),
    }
}

} // verus!
