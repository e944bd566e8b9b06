use anchor_vault::derivation::{derive_at, DomainTag};
use anchor_vault::engine::transfer;
use anchor_vault::errors::{TransferError, VaultError};
use anchor_vault::state::{Account, VaultState};
use anchor_vault::vault::{deposit, initialize, withdraw, Initialize, InitializeBumps, Payment};

/// A context for `initialize`, before anything is derived or filled.
fn fresh_context(user: u64, vault_reserve: u64) -> Initialize {
    Initialize {
        user,
        state_address: 0,
        state: VaultState { vault_bump: 0, state_bump: 0, amount: 0 },
        vault_address: 0,
        vault: Account { balance: 0, min_reserve: vault_reserve },
    }
}

/// An initialized vault turned into a payment context for its owner,
/// with the caller's external account beside it.
fn payment_after(ctx: &Initialize, user_balance: u64, user_reserve: u64) -> Payment {
    Payment {
        user: ctx.user,
        owner: ctx.user,
        user_funds: Account { balance: user_balance, min_reserve: user_reserve },
        state_address: ctx.state_address,
        state: ctx.state,
        vault_address: ctx.vault_address,
        vault: ctx.vault,
    }
}

#[test]
fn derive_is_deterministic() {
    let first = anchor_vault::derivation::derive(DomainTag::State, 42);
    let second = anchor_vault::derivation::derive(DomainTag::State, 42);
    assert_eq!(first, second);
    let (addr, bump) = first.expect("derivation should find a disambiguator for this seed");
    assert_eq!(derive_at(DomainTag::State, 42, bump), addr);
    assert_eq!(derive_at(DomainTag::State, 42, bump), derive_at(DomainTag::State, 42, bump));
}

#[test]
fn derive_matches_the_mixing_formula_exactly() {
    // Folding the tag word for `State`, the seed 42 and the byte 255
    // through the FNV-1a rounds by hand gives this address, and 255 is
    // already validly formed, so the downward search stops there.
    assert_eq!(derive_at(DomainTag::State, 42, 255), 0x9402_7301_08c5_a4d3);
    assert_eq!(
        anchor_vault::derivation::derive(DomainTag::State, 42),
        Ok((0x9402_7301_08c5_a4d3, 255))
    );
}

#[test]
fn derive_distinguishes_tags_and_seeds() {
    let state = anchor_vault::derivation::derive(DomainTag::State, 7).unwrap();
    let vault = anchor_vault::derivation::derive(DomainTag::Vault, 7).unwrap();
    let other = anchor_vault::derivation::derive(DomainTag::State, 8).unwrap();
    assert_ne!(state.0, vault.0);
    assert_ne!(state.0, other.0);
}

#[test]
fn initialize_zeroes_ledger_and_caches_bumps() {
    let mut ctx = fresh_context(7, 100);
    let r = initialize(&mut ctx, false);
    assert_eq!(r, Ok(()));
    assert_eq!(ctx.state.amount, 0);
    assert_eq!(ctx.vault.balance, ctx.vault.min_reserve);
    // Both cached disambiguators re-derive their addresses.
    assert_eq!(derive_at(DomainTag::State, ctx.user, ctx.state.state_bump), ctx.state_address);
    assert_eq!(derive_at(DomainTag::Vault, ctx.state_address, ctx.state.vault_bump), ctx.vault_address);
}

#[test]
fn reinitialize_is_rejected_and_changes_nothing() {
    let mut ctx = fresh_context(7, 100);
    initialize(&mut ctx, false).unwrap();
    let before = ctx;
    let r = initialize(&mut ctx, true);
    assert_eq!(r, Err(VaultError::AlreadyInitialized));
    assert_eq!(ctx, before);
}

#[test]
fn record_fill_caches_bumps() {
    let mut ctx = fresh_context(9, 5);
    ctx.state.amount = 77;
    let bumps = InitializeBumps { state: 250, vault: 251 };
    let r = ctx.initialize(&bumps);
    assert_eq!(r, Ok(()));
    assert_eq!(ctx.state.state_bump, 250);
    assert_eq!(ctx.state.vault_bump, 251);
    assert_eq!(ctx.state.amount, 0);
}

#[test]
fn deposit_then_withdraw_restores_everything() {
    let mut ctx = fresh_context(11, 100);
    initialize(&mut ctx, false).unwrap();
    let mut pay = payment_after(&ctx, 1_000, 10);
    let before = pay;
    assert_eq!(deposit(&mut pay, 250), Ok(()));
    assert_eq!(pay.state.amount, 250);
    assert_eq!(withdraw(&mut pay, 250), Ok(()));
    assert_eq!(pay, before);
}

#[test]
fn overdraw_is_rejected_and_changes_nothing() {
    let mut ctx = fresh_context(13, 100);
    initialize(&mut ctx, false).unwrap();
    let mut pay = payment_after(&ctx, 1_000, 10);
    deposit(&mut pay, 100).unwrap();
    let before = pay;
    let r = withdraw(&mut pay, 101);
    assert_eq!(r, Err(VaultError::InsufficientVaultBalance));
    assert_eq!(pay, before);
}

#[test]
fn deposit_overflow_is_rejected_and_changes_nothing() {
    let mut ctx = fresh_context(17, 100);
    initialize(&mut ctx, false).unwrap();
    let mut pay = payment_after(&ctx, 1_000, 10);
    pay.state.amount = u64::MAX - 4;
    let before = pay;
    let r = deposit(&mut pay, 5);
    assert_eq!(r, Err(VaultError::AmountOverflow));
    assert_eq!(pay, before);
}

#[test]
fn full_scenario() {
    let mut ctx = fresh_context(19, 100);
    initialize(&mut ctx, false).unwrap();
    assert_eq!(ctx.state.amount, 0);
    let mut pay = payment_after(&ctx, 10_000, 10);
    let vault_start = pay.vault.balance;

    assert_eq!(deposit(&mut pay, 100), Ok(()));
    assert_eq!(pay.state.amount, 100);
    assert_eq!(pay.vault.balance, vault_start + 100);

    assert_eq!(withdraw(&mut pay, 40), Ok(()));
    assert_eq!(pay.state.amount, 60);
    assert_eq!(pay.vault.balance, vault_start + 60);

    assert_eq!(withdraw(&mut pay, 1_000), Err(VaultError::InsufficientVaultBalance));
    assert_eq!(pay.state.amount, 60);
    assert_eq!(pay.vault.balance, vault_start + 60);
}

#[test]
fn wrong_caller_is_unauthorized() {
    let mut ctx = fresh_context(23, 100);
    initialize(&mut ctx, false).unwrap();
    let mut pay = payment_after(&ctx, 1_000, 10);
    pay.user = 24;
    let before = pay;
    assert_eq!(deposit(&mut pay, 5), Err(VaultError::Unauthorized));
    assert_eq!(withdraw(&mut pay, 5), Err(VaultError::Unauthorized));
    assert_eq!(pay, before);
}

#[test]
fn tampered_addresses_are_a_derivation_mismatch() {
    let mut ctx = fresh_context(29, 100);
    initialize(&mut ctx, false).unwrap();

    let mut pay = payment_after(&ctx, 1_000, 10);
    pay.state_address = pay.state_address.wrapping_add(1);
    let before = pay;
    assert_eq!(deposit(&mut pay, 5), Err(VaultError::DerivationMismatch));
    assert_eq!(pay, before);

    let mut pay = payment_after(&ctx, 1_000, 10);
    pay.state.vault_bump = pay.state.vault_bump.wrapping_add(1);
    let before = pay;
    assert_eq!(withdraw(&mut pay, 5), Err(VaultError::DerivationMismatch));
    assert_eq!(pay, before);
}

#[test]
fn zero_amount_is_rejected() {
    let mut ctx = fresh_context(31, 100);
    initialize(&mut ctx, false).unwrap();
    let mut pay = payment_after(&ctx, 1_000, 10);
    deposit(&mut pay, 50).unwrap();
    let before = pay;
    assert_eq!(deposit(&mut pay, 0), Err(VaultError::ZeroAmount));
    assert_eq!(withdraw(&mut pay, 0), Err(VaultError::ZeroAmount));
    assert_eq!(pay, before);
}

#[test]
fn deposit_needs_source_funds_above_reserve() {
    let mut ctx = fresh_context(37, 100);
    initialize(&mut ctx, false).unwrap();
    // 90 in the caller's account, 10 reserved: at most 80 can leave.
    let mut pay = payment_after(&ctx, 90, 10);
    let before = pay;
    assert_eq!(deposit(&mut pay, 81), Err(VaultError::InsufficientSourceFunds));
    assert_eq!(pay, before);
    assert_eq!(deposit(&mut pay, 80), Ok(()));
    assert_eq!(pay.user_funds.balance, 10);
    assert_eq!(pay.state.amount, 80);
}

#[test]
fn withdraw_honors_the_holding_reserve() {
    let mut ctx = fresh_context(41, 100);
    initialize(&mut ctx, false).unwrap();
    let mut pay = payment_after(&ctx, 1_000, 10);
    deposit(&mut pay, 50).unwrap();
    // A drifted ledger: it claims more than the holdings above reserve.
    pay.vault.balance -= 20;
    let before = pay;
    assert_eq!(withdraw(&mut pay, 50), Err(VaultError::InsufficientSourceFunds));
    assert_eq!(pay, before);
}

#[test]
fn withdraw_into_a_full_account_overflows() {
    let mut ctx = fresh_context(43, 100);
    initialize(&mut ctx, false).unwrap();
    let mut pay = payment_after(&ctx, 1_000, 10);
    deposit(&mut pay, 50).unwrap();
    pay.user_funds.balance = u64::MAX - 4;
    let before = pay;
    assert_eq!(withdraw(&mut pay, 5), Err(VaultError::AmountOverflow));
    assert_eq!(pay, before);
}

#[test]
fn transfer_moves_value_atomically() {
    let mut from = Account { balance: 100, min_reserve: 30 };
    let mut to = Account { balance: 7, min_reserve: 3 };
    assert_eq!(transfer(&mut from, &mut to, 70), Ok(()));
    assert_eq!(from.balance, 30);
    assert_eq!(to.balance, 77);

    // The source may not dip below its reserve.
    let r = transfer(&mut from, &mut to, 1);
    assert_eq!(r, Err(TransferError::InsufficientFunds));
    assert_eq!(from.balance, 30);
    assert_eq!(to.balance, 77);

    // The destination balance may not leave 64 bits.
    let mut rich = Account { balance: u64::MAX - 1, min_reserve: 0 };
    let mut source = Account { balance: 10, min_reserve: 0 };
    let r = transfer(&mut source, &mut rich, 5);
    assert_eq!(r, Err(TransferError::DestinationOverflow));
    assert_eq!(source.balance, 10);
    assert_eq!(rich.balance, u64::MAX - 1);
}
