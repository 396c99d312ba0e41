use std::collections::HashMap;

use reclaim::action::{Action, Authority};
use reclaim::context::{CheckIn, ClaimInheritaince, CreateEscrow, DepositSol, InitializeGlobalState, RedeemToken};
use reclaim::engine::{
    check_in_at, claim_inheritance_at, create_escrow_at, deposite_sol_at, initialize_global_state,
    redeem_token,
};
use reclaim::identity::Identity;
use reclaim::state::{ErrorCode, EscrowVault, GlobalState, VaultStatus};

const PERIOD: i64 = 86400;
const START: i64 = 1_700_000_000;

fn id(tag: u8) -> Identity {
    Identity::new([tag; 32])
}

fn owner() -> Identity {
    id(1)
}

fn heir() -> Identity {
    id(2)
}

fn pool() -> Identity {
    id(3)
}

fn mint() -> Identity {
    id(4)
}

/// Stands in for the value-transfer and share services.
struct Services {
    value: HashMap<[u8; 32], u64>,
    tokens: HashMap<[u8; 32], u64>,
}

impl Services {
    fn new() -> Services {
        let mut value = HashMap::new();
        value.insert(owner().to_bytes(), 10_000);
        value.insert(heir().to_bytes(), 0);
        value.insert(pool().to_bytes(), 0);
        Services { value, tokens: HashMap::new() }
    }

    fn value_of(&self, who: Identity) -> u64 {
        *self.value.get(&who.to_bytes()).unwrap_or(&0)
    }

    fn tokens_of(&self, who: Identity) -> u64 {
        *self.tokens.get(&who.to_bytes()).unwrap_or(&0)
    }

    fn perform(&mut self, actions: &[Action]) {
        for action in actions {
            match *action {
                Action::Transfer { from, to, amount } => {
                    let have = self.value_of(from);
                    assert!(have >= amount);
                    self.value.insert(from.to_bytes(), have - amount);
                    let had = self.value_of(to);
                    self.value.insert(to.to_bytes(), had + amount);
                }
                Action::Mint { to, amount, .. } => {
                    let had = self.tokens_of(to);
                    self.tokens.insert(to.to_bytes(), had + amount);
                }
                Action::Burn { from, amount, .. } => {
                    let have = self.tokens_of(from);
                    assert!(have >= amount);
                    self.tokens.insert(from.to_bytes(), have - amount);
                }
                Action::Approve { .. } => {}
            }
        }
    }
}

fn registry() -> GlobalState {
    let mut ctx = InitializeGlobalState {
        payer: owner(),
        global_state: None,
        sol_vault: pool(),
        token_mint: mint(),
        bump: 254,
    };
    assert_eq!(initialize_global_state(&mut ctx), Ok(()));
    ctx.global_state.unwrap()
}

fn blank() -> EscrowVault {
    EscrowVault {
        owner: id(0),
        beneficiary: id(0),
        shares: 0,
        last_check_in: 0,
        inactivity_period: 0,
        status: VaultStatus::Active,
        bump: 0,
    }
}

fn vault(period: i64, now: i64) -> EscrowVault {
    let mut ctx = CreateEscrow { owner: owner(), escrow_vault: blank(), beneficiary: heir(), bump: 253 };
    assert_eq!(create_escrow_at(&mut ctx, period, now), Ok(()));
    ctx.escrow_vault
}

struct World {
    registry: GlobalState,
    vault: EscrowVault,
    services: Services,
}

fn world() -> World {
    World { registry: registry(), vault: vault(PERIOD, START), services: Services::new() }
}

fn deposit(w: &mut World, amount: u64, now: i64) -> Result<Vec<Action>, ErrorCode> {
    let mut ctx = DepositSol { owner: owner(), global_state: w.registry, escrow_vault: w.vault };
    let r = deposite_sol_at(&mut ctx, amount, now);
    w.registry = ctx.global_state;
    w.vault = ctx.escrow_vault;
    if let Ok(actions) = &r {
        w.services.perform(actions);
    }
    r
}

fn redeem(w: &mut World, amount: u64) -> Result<Vec<Action>, ErrorCode> {
    let mut ctx = RedeemToken {
        owner: owner(),
        global_state: w.registry,
        escrow_vault: w.vault,
        token_amount: w.services.tokens_of(owner()),
    };
    let r = redeem_token(&mut ctx, amount);
    w.registry = ctx.global_state;
    w.vault = ctx.escrow_vault;
    if let Ok(actions) = &r {
        w.services.perform(actions);
    }
    r
}

fn claim(w: &mut World, caller: Identity, now: i64) -> Result<Vec<Action>, ErrorCode> {
    let mut ctx = ClaimInheritaince {
        escrow_vault: w.vault,
        beneficiary: caller,
        global_state: w.registry,
        token_amount: w.services.tokens_of(owner()),
    };
    let r = claim_inheritance_at(&mut ctx, now);
    w.registry = ctx.global_state;
    w.vault = ctx.escrow_vault;
    if let Ok(actions) = &r {
        w.services.perform(actions);
    }
    r
}

fn refresh(w: &mut World, caller: Identity, now: i64) -> Result<(), ErrorCode> {
    let mut ctx = CheckIn { owner: caller, escrow_vault: w.vault };
    let r = check_in_at(&mut ctx, now);
    w.vault = ctx.escrow_vault;
    r
}

#[test]
fn deposit_then_check_in_counts_the_shares() {
    let mut w = world();
    assert_eq!(w.vault.inactivity_period, 86400);
    assert!(deposit(&mut w, 1000, START + 5).is_ok());
    assert_eq!(refresh(&mut w, owner(), START + 9), Ok(()));
    assert_eq!(w.vault.shares, 1000);
    assert_eq!(w.registry.total_shares, 1000);
    assert_eq!(w.vault.last_check_in, START + 9);
    assert_eq!(w.vault.status, VaultStatus::Active);
}

#[test]
fn redeem_pays_the_owner_back() {
    let mut w = world();
    assert!(deposit(&mut w, 1000, START).is_ok());
    let before = w.services.value_of(owner());
    let actions = redeem(&mut w, 400).unwrap();
    assert_eq!(w.services.value_of(owner()), before + 400);
    assert_eq!(w.registry.total_shares, 600);
    assert_eq!(w.vault.shares, 600);
    assert_eq!(w.services.tokens_of(owner()), 600);
    assert_eq!(w.services.value_of(pool()), 600);
    assert_eq!(
        actions,
        vec![
            Action::Burn { mint: mint(), from: owner(), amount: 400, authority: Authority::Signer(owner()) },
            Action::Transfer { from: pool(), to: owner(), amount: 400 },
        ]
    );
}

#[test]
fn beneficiary_claims_after_the_window() {
    let mut w = world();
    assert!(deposit(&mut w, 1000, START).is_ok());
    let before = w.services.value_of(heir());
    let actions = claim(&mut w, heir(), START + PERIOD + 1).unwrap();
    assert_eq!(w.services.value_of(heir()), before + 1000);
    assert_eq!(w.vault.status, VaultStatus::Finished);
    assert_eq!(w.vault.shares, 0);
    assert_eq!(w.registry.total_shares, 0);
    assert_eq!(w.services.tokens_of(owner()), 0);
    assert_eq!(
        actions,
        vec![
            Action::Burn {
                mint: mint(),
                from: owner(),
                amount: 1000,
                authority: Authority::Vault { owner: owner(), bump: 253 },
            },
            Action::Transfer { from: pool(), to: heir(), amount: 1000 },
        ]
    );
}

#[test]
fn check_in_pushes_the_deadline_back() {
    let mut w = world();
    assert!(deposit(&mut w, 1000, START).is_ok());
    assert_eq!(refresh(&mut w, owner(), START + PERIOD - 1), Ok(()));
    let vault = w.vault;
    let registry = w.registry;
    assert_eq!(claim(&mut w, heir(), START + PERIOD + 1), Err(ErrorCode::InactivityPeriodNotPassed));
    assert_eq!(w.vault, vault);
    assert_eq!(w.registry, registry);
    assert_eq!(w.services.value_of(heir()), 0);
    assert_eq!(w.vault.shares, 1000);
}

#[test]
fn deposit_asks_for_transfer_mint_and_delegation() {
    let mut w = world();
    assert!(deposit(&mut w, 300, START).is_ok());
    let actions = deposit(&mut w, 700, START + 1).unwrap();
    assert_eq!(
        actions,
        vec![
            Action::Transfer { from: owner(), to: pool(), amount: 700 },
            Action::Mint { mint: mint(), to: owner(), amount: 700, authority: Authority::Registry { bump: 254 } },
            Action::Approve {
                holder: owner(),
                delegate: Authority::Vault { owner: owner(), bump: 253 },
                amount: 1000,
                authority: Authority::Signer(owner()),
            },
        ]
    );
    assert_eq!(w.services.value_of(pool()), 1000);
    assert_eq!(w.services.value_of(owner()), 9000);
    assert_eq!(w.services.tokens_of(owner()), 1000);
}

#[test]
fn deposit_resets_liveness() {
    let mut w = world();
    w.vault.status = VaultStatus::Claimable;
    assert!(deposit(&mut w, 1, START + 77).is_ok());
    assert_eq!(w.vault.last_check_in, START + 77);
    assert_eq!(w.vault.status, VaultStatus::Active);
}

#[test]
fn check_in_resets_liveness() {
    let mut w = world();
    w.vault.status = VaultStatus::Claimable;
    assert_eq!(refresh(&mut w, owner(), START + 3 * PERIOD), Ok(()));
    assert_eq!(w.vault.last_check_in, START + 3 * PERIOD);
    assert_eq!(w.vault.status, VaultStatus::Active);
    assert_eq!(w.vault.shares, 0);
}

#[test]
fn claim_is_refused_until_strictly_after_the_deadline() {
    let mut w = world();
    assert!(deposit(&mut w, 1000, START).is_ok());
    assert_eq!(claim(&mut w, heir(), START), Err(ErrorCode::InactivityPeriodNotPassed));
    assert_eq!(claim(&mut w, heir(), START + PERIOD - 1), Err(ErrorCode::InactivityPeriodNotPassed));
    assert_eq!(claim(&mut w, heir(), START + PERIOD), Err(ErrorCode::InactivityPeriodNotPassed));
    assert_eq!(w.vault.shares, 1000);
    assert_eq!(w.registry.total_shares, 1000);
    assert!(claim(&mut w, heir(), START + PERIOD + 1).is_ok());
}

#[test]
fn claim_by_a_stranger_is_refused_whatever_the_time() {
    let mut w = world();
    assert!(deposit(&mut w, 1000, START).is_ok());
    assert_eq!(claim(&mut w, id(9), START), Err(ErrorCode::InvalidBeneficiary));
    assert_eq!(claim(&mut w, id(9), START + PERIOD + 1), Err(ErrorCode::InvalidBeneficiary));
    assert_eq!(claim(&mut w, owner(), START + 10 * PERIOD), Err(ErrorCode::InvalidBeneficiary));
    assert_eq!(w.vault.shares, 1000);
    assert_eq!(w.vault.status, VaultStatus::Active);
    assert_eq!(w.registry.total_shares, 1000);
    assert_eq!(w.services.value_of(pool()), 1000);
}

#[test]
fn second_claim_moves_nothing() {
    let mut w = world();
    assert!(deposit(&mut w, 1000, START).is_ok());
    assert!(claim(&mut w, heir(), START + PERIOD + 1).is_ok());
    let vault = w.vault;
    let registry = w.registry;
    assert_eq!(claim(&mut w, heir(), START + PERIOD + 2), Err(ErrorCode::EscrowAlreadyFinished));
    assert_eq!(w.vault, vault);
    assert_eq!(w.registry, registry);
    assert_eq!(w.vault.shares, 0);
    assert_eq!(w.services.value_of(heir()), 1000);
    assert_eq!(w.services.value_of(pool()), 0);
}

#[test]
fn claim_moves_no_more_than_the_owner_holds() {
    let mut w = world();
    assert!(deposit(&mut w, 1000, START).is_ok());
    // The owner gave 250 shares away.
    w.services.tokens.insert(owner().to_bytes(), 750);
    let actions = claim(&mut w, heir(), START + PERIOD + 1).unwrap();
    assert_eq!(actions[1], Action::Transfer { from: pool(), to: heir(), amount: 750 });
    assert_eq!(w.services.value_of(heir()), 750);
    assert_eq!(w.vault.shares, 0);
    assert_eq!(w.vault.status, VaultStatus::Finished);
    assert_eq!(w.registry.total_shares, 250);
}

#[test]
fn finished_vault_accepts_nothing() {
    let mut w = world();
    assert!(deposit(&mut w, 1000, START).is_ok());
    assert!(claim(&mut w, heir(), START + PERIOD + 1).is_ok());
    let vault = w.vault;
    assert_eq!(deposit(&mut w, 5, START + PERIOD + 2), Err(ErrorCode::EscrowAlreadyFinished));
    assert_eq!(refresh(&mut w, owner(), START + PERIOD + 2), Err(ErrorCode::EscrowAlreadyFinished));
    assert_eq!(redeem(&mut w, 0), Err(ErrorCode::EscrowAlreadyFinished));
    assert_eq!(w.vault, vault);
    assert_eq!(w.registry.total_shares, 0);
}

#[test]
fn counters_follow_deposits_and_redemptions() {
    let mut w = world();
    assert!(deposit(&mut w, 1000, START).is_ok());
    assert!(redeem(&mut w, 1000).is_ok());
    assert_eq!(w.vault.shares, 0);
    assert_eq!(w.registry.total_shares, 0);
    assert_eq!(redeem(&mut w, 1), Err(ErrorCode::InsufficientTokenBalance));
    assert_eq!(w.vault.shares, 0);
    assert!(deposit(&mut w, 7, START).is_ok());
    assert!(redeem(&mut w, 0).is_ok());
    assert_eq!(w.vault.shares, 7);
    assert_eq!(w.registry.total_shares, 7);
}

#[test]
fn registry_counts_the_live_vaults() {
    let mut registry = registry();
    let mut vaults: Vec<EscrowVault> = Vec::new();
    for tag in 10u8..14 {
        let mut ctx = CreateEscrow { owner: id(tag), escrow_vault: blank(), beneficiary: id(tag + 100), bump: tag };
        assert_eq!(create_escrow_at(&mut ctx, PERIOD, START), Ok(()));
        vaults.push(ctx.escrow_vault);
    }
    let live = |vaults: &Vec<EscrowVault>| -> u64 {
        vaults.iter().filter(|v| v.status != VaultStatus::Finished).map(|v| v.shares).sum()
    };
    assert_eq!(registry.total_shares, live(&vaults));
    for (i, amount) in [500u64, 20, 0, 77].iter().enumerate() {
        let mut ctx = DepositSol { owner: vaults[i].owner, global_state: registry, escrow_vault: vaults[i] };
        assert!(deposite_sol_at(&mut ctx, *amount, START + 1).is_ok());
        registry = ctx.global_state;
        vaults[i] = ctx.escrow_vault;
        assert_eq!(registry.total_shares, live(&vaults));
    }
    assert_eq!(registry.total_shares, 597);
    let mut ctx = RedeemToken { owner: vaults[0].owner, global_state: registry, escrow_vault: vaults[0], token_amount: 500 };
    assert!(redeem_token(&mut ctx, 120).is_ok());
    registry = ctx.global_state;
    vaults[0] = ctx.escrow_vault;
    assert_eq!(registry.total_shares, live(&vaults));
    let mut ctx = ClaimInheritaince {
        escrow_vault: vaults[3],
        beneficiary: vaults[3].beneficiary,
        global_state: registry,
        token_amount: 77,
    };
    assert!(claim_inheritance_at(&mut ctx, START + PERIOD + 2).is_ok());
    registry = ctx.global_state;
    vaults[3] = ctx.escrow_vault;
    assert_eq!(registry.total_shares, live(&vaults));
    assert_eq!(registry.total_shares, 400);
    let mut ctx = CheckIn { owner: vaults[1].owner, escrow_vault: vaults[1] };
    assert_eq!(check_in_at(&mut ctx, START + 50), Ok(()));
    vaults[1] = ctx.escrow_vault;
    assert_eq!(registry.total_shares, live(&vaults));
}
