//! The vault controller: the `initialize`, `deposit` and `withdraw`
//! operations over the derived sub-accounts.
//!
//! Every operation validates all of its preconditions before any state is
//! touched; the first violated precondition aborts the whole call with the
//! accounts and the ledger record exactly as they were.

use vstd::prelude::*;

verus! {

use crate::derivation::{DomainTag, derive_at, spec_derive, spec_derive_at};
use crate::engine::transfer;
use crate::errors::{TransferError, VaultError};
use crate::state::{Account, VaultState, account_funded, ledger_consistent};

/// The disambiguator bytes found while validating an `Initialize`
/// context, handed on for caching in the fresh ledger record.
#[derive(Clone, Copy, PartialEq, Eq, Structural, Debug)]
pub struct InitializeBumps {
    /// Byte that derives the state record's address from the owner.
    pub state: u8,
    /// Byte that derives the holding account from the state address.
    pub vault: u8,
}

/// The accounts an `initialize` call touches: the owner, the fresh
/// ledger record with the address it will live at, and the holding
/// account with the address it will live at.
#[derive(Clone, Copy, PartialEq, Eq, Structural, Debug)]
#[verifier::ext_equal]
pub struct Initialize {
    /// Authenticated identity of the owner being set up.
    pub user: u64,
    /// Where the ledger record is filed; set by `initialize`.
    pub state_address: u64,
    /// The freshly allocated ledger record; filled by `initialize`.
    pub state: VaultState,
    /// Where the holding account lives; set by `initialize`.
    pub vault_address: u64,
    /// The holding account, funded to its minimum reserve on success.
    pub vault: Account,
}

/// The accounts a `deposit` or `withdraw` call touches.
#[derive(Clone, Copy, PartialEq, Eq, Structural, Debug)]
#[verifier::ext_equal]
pub struct Payment {
    /// Authenticated identity of the caller.
    pub user: u64,
    /// Identity the vault was initialized for.
    pub owner: u64,
    /// The caller's external account that value enters or leaves.
    pub user_funds: Account,
    /// Caller-supplied address of the ledger record.
    pub state_address: u64,
    /// The ledger record found at that address.
    pub state: VaultState,
    /// Caller-supplied address of the holding account.
    pub vault_address: u64,
    /// The holding account found at that address.
    pub vault: Account,
}

/// The two derivations a successful `initialize` performs: the state
/// address from the owner identity, then the holding address seeded by
/// the state address. The tuple is (state address, state disambiguator,
/// vault address, vault disambiguator).
pub open spec fn spec_initialize(user: u64) -> Result<(u64, u8, u64, u8), VaultError> {
    match spec_derive(DomainTag::State, user) {
        Ok(sd) => match spec_derive(DomainTag::Vault, sd.0) {
            Ok(vd) => Ok((sd.0, sd.1, vd.0, vd.1)),
            Err(e) => Err(e),
        },
        Err(e) => Err(e),
    }
}

/// The caller presents the identity the vault is bound to.
pub open spec fn payment_authorized(p: Payment) -> bool {
    p.user == p.owner
}

/// Both supplied addresses re-derive from the cached disambiguator
/// bytes: the state address from the owner identity, the holding address
/// from the state address.
pub open spec fn payment_derivation_ok(p: Payment) -> bool {
    &&& p.state_address == spec_derive_at(DomainTag::State, p.owner, p.state.state_bump)
    &&& p.vault_address == spec_derive_at(DomainTag::Vault, p.state_address, p.state.vault_bump)
}

/// The first precondition a deposit of `amount` violates, if any, in the
/// order the checks run: authorization, derivation, a nonzero amount,
/// tracked-amount overflow, then the transfer itself (source funds, then
/// destination overflow).
pub open spec fn deposit_error(p: Payment, amount: u64) -> Option<VaultError> {
    if !payment_authorized(p) {
        Some(VaultError::Unauthorized)
    } else if !payment_derivation_ok(p) {
        Some(VaultError::DerivationMismatch)
    } else if amount == 0 {
        Some(VaultError::ZeroAmount)
    } else if p.state.amount + amount > u64::MAX {
        Some(VaultError::AmountOverflow)
    } else if p.user_funds.balance < p.user_funds.min_reserve + amount {
        Some(VaultError::InsufficientSourceFunds)
    } else if p.vault.balance + amount > u64::MAX {
        Some(VaultError::AmountOverflow)
    } else {
        None
    }
}

/// The context after a successful deposit: `amount` has moved from the
/// caller's account into the holding account, and the tracked amount has
/// grown by the same `amount`. Everything else is untouched.
pub open spec fn deposit_applied(p: Payment, amount: u64) -> Payment {
    Payment {
        user: p.user,
        owner: p.owner,
        user_funds: Account {
            balance: (p.user_funds.balance - amount) as u64,
            min_reserve: p.user_funds.min_reserve,
        },
        state_address: p.state_address,
        state: VaultState {
            vault_bump: p.state.vault_bump,
            state_bump: p.state.state_bump,
            amount: (p.state.amount + amount) as u64,
        },
        vault_address: p.vault_address,
        vault: Account {
            balance: (p.vault.balance + amount) as u64,
            min_reserve: p.vault.min_reserve,
        },
    }
}

/// The first precondition a withdrawal of `amount` violates, if any, in
/// the order the checks run: authorization, derivation, a nonzero
/// amount, the ledger's own balance policy, then the transfer itself
/// (the holding account's reserve, then destination overflow).
pub open spec fn withdraw_error(p: Payment, amount: u64) -> Option<VaultError> {
    if !payment_authorized(p) {
        Some(VaultError::Unauthorized)
    } else if !payment_derivation_ok(p) {
        Some(VaultError::DerivationMismatch)
    } else if amount == 0 {
        Some(VaultError::ZeroAmount)
    } else if amount > p.state.amount {
        Some(VaultError::InsufficientVaultBalance)
    } else if p.vault.balance < p.vault.min_reserve + amount {
        Some(VaultError::InsufficientSourceFunds)
    } else if p.user_funds.balance + amount > u64::MAX {
        Some(VaultError::AmountOverflow)
    } else {
        None
    }
}

/// The context after a successful withdrawal: `amount` has moved from
/// the holding account back to the caller's account, and the tracked
/// amount has shrunk by the same `amount`. Everything else is untouched.
pub open spec fn withdraw_applied(p: Payment, amount: u64) -> Payment {
    Payment {
        user: p.user,
        owner: p.owner,
        user_funds: Account {
            balance: (p.user_funds.balance + amount) as u64,
            min_reserve: p.user_funds.min_reserve,
        },
        state_address: p.state_address,
        state: VaultState {
            vault_bump: p.state.vault_bump,
            state_bump: p.state.state_bump,
            amount: (p.state.amount - amount) as u64,
        },
        vault_address: p.vault_address,
        vault: Account {
            balance: (p.vault.balance - amount) as u64,
            min_reserve: p.vault.min_reserve,
        },
    }
}

impl Initialize {
    /// Fill the freshly allocated ledger record: cache both
    /// disambiguator bytes and start the tracked amount at zero.
    pub fn initialize(&mut self, bumps: &InitializeBumps) -> (r: Result<(), VaultError>)
        ensures
            r is Ok,
            final(self).state.state_bump == bumps.state,
            final(self).state.vault_bump == bumps.vault,
            final(self).state.amount == 0,
            final(self).user == old(self).user,
            final(self).state_address == old(self).state_address,
            final(self).vault_address == old(self).vault_address,
            final(self).vault == old(self).vault,
    {
        self.state.vault_bump = bumps.vault;
        self.state.state_bump = bumps.state;
        self.state.amount = 0;
        Ok(())
    }
}

/// Set a vault up for `ctx.user`: derive and record both addresses,
/// cache both disambiguator bytes, fund the holding account to exactly
/// its minimum reserve, and start the tracked amount at zero. `existing`
/// says whether a ledger record already exists for this owner; a second
/// initialization is refused and changes nothing, as is an owner for
/// which the disambiguator search is exhausted.
pub fn initialize(ctx: &mut Initialize, existing: bool) -> (r: Result<(), VaultError>)
    ensures
        (r is Ok) <==> (!existing && spec_initialize(old(ctx).user) is Ok),
        r is Err ==> *final(ctx) == *old(ctx),
        existing ==> r == Err::<(), VaultError>(VaultError::AlreadyInitialized),
        !existing ==> (spec_initialize(old(ctx).user) matches Err(e) ==> r == Err::<(
            ),
            VaultError,
        >(e)),
        r is Ok ==> ({
            let d = spec_initialize(old(ctx).user)->Ok_0;
            &&& final(ctx).state_address == d.0
            &&& final(ctx).state.state_bump == d.1
            &&& final(ctx).vault_address == d.2
            &&& final(ctx).state.vault_bump == d.3
            &&& final(ctx).state.amount == 0
            &&& final(ctx).user == old(ctx).user
            &&& final(ctx).vault.min_reserve == old(ctx).vault.min_reserve
            &&& final(ctx).vault.balance == final(ctx).vault.min_reserve
        }),
{
    if existing {
        return Err(VaultError::AlreadyInitialized);
    }
    match crate::derivation::derive(DomainTag::State, ctx.user) {
        Err(e) => Err(e),
        Ok((state_address, state_bump)) => match crate::derivation::derive(
            DomainTag::Vault,
            state_address,
        ) {
            Err(e) => Err(e),
            Ok((vault_address, vault_bump)) => {
                ctx.state_address = state_address;
                ctx.vault_address = vault_address;
                ctx.vault.balance = ctx.vault.min_reserve;
                let bumps = InitializeBumps { state: state_bump, vault: vault_bump };
                ctx.initialize(&bumps)
            },
        },
    }
}

impl Payment {
    /// Move `amount` from the caller's account into the holding account
    /// and grow the tracked amount by the same `amount`, atomically: the
    /// first violated precondition aborts the call with every account
    /// and the ledger record unchanged.
    pub fn deposit(&mut self, amount: u64) -> (r: Result<(), VaultError>)
        ensures
            deposit_error(*old(self), amount) matches Some(e) ==> r == Err::<(), VaultError>(e)
                && *final(self) == *old(self),
            deposit_error(*old(self), amount) is None ==> r is Ok && *final(self)
                == deposit_applied(*old(self), amount),
    {
        if self.user != self.owner {
            return Err(VaultError::Unauthorized);
        }
        let expect_state: u64 = derive_at(DomainTag::State, self.owner, self.state.state_bump);
        if expect_state != self.state_address {
            return Err(VaultError::DerivationMismatch);
        }
        let expect_vault: u64 = derive_at(DomainTag::Vault, self.state_address, self.state.vault_bump);
        if expect_vault != self.vault_address {
            return Err(VaultError::DerivationMismatch);
        }
        if amount == 0 {
            return Err(VaultError::ZeroAmount);
        }
        if amount > u64::MAX - self.state.amount {
            return Err(VaultError::AmountOverflow);
        }
        match transfer(&mut self.user_funds, &mut self.vault, amount) {
            Err(TransferError::InsufficientFunds) => Err(VaultError::InsufficientSourceFunds),
            Err(TransferError::DestinationOverflow) => Err(VaultError::AmountOverflow),
            Ok(()) => {
                self.state.amount = self.state.amount + amount;
                Ok(())
            },
        }
    }

    /// Move `amount` from the holding account back to the caller's
    /// account and shrink the tracked amount by the same `amount`,
    /// atomically. The ledger's own balance is the authoritative policy:
    /// a withdrawal beyond the tracked amount is refused before the
    /// runtime's reserve rule is even consulted.
    pub fn withdraw(&mut self, amount: u64) -> (r: Result<(), VaultError>)
        ensures
            withdraw_error(*old(self), amount) matches Some(e) ==> r == Err::<(), VaultError>(e)
                && *final(self) == *old(self),
            withdraw_error(*old(self), amount) is None ==> r is Ok && *final(self)
                == withdraw_applied(*old(self), amount),
    {
        if self.user != self.owner {
            return Err(VaultError::Unauthorized);
        }
        let expect_state: u64 = derive_at(DomainTag::State, self.owner, self.state.state_bump);
        if expect_state != self.state_address {
            return Err(VaultError::DerivationMismatch);
        }
        let expect_vault: u64 = derive_at(DomainTag::Vault, self.state_address, self.state.vault_bump);
        if expect_vault != self.vault_address {
            return Err(VaultError::DerivationMismatch);
        }
        if amount == 0 {
            return Err(VaultError::ZeroAmount);
        }
        if amount > self.state.amount {
            return Err(VaultError::InsufficientVaultBalance);
        }
        match transfer(&mut self.vault, &mut self.user_funds, amount) {
            Err(TransferError::InsufficientFunds) => Err(VaultError::InsufficientSourceFunds),
            Err(TransferError::DestinationOverflow) => Err(VaultError::AmountOverflow),
            Ok(()) => {
                self.state.amount = self.state.amount - amount;
                Ok(())
            },
        }
    }
}

/// Dispatch a deposit to the payment context, unchanged in meaning.
pub fn deposit(ctx: &mut Payment, amount: u64) -> (r: Result<(), VaultError>)
    ensures
        deposit_error(*old(ctx), amount) matches Some(e) ==> r == Err::<(), VaultError>(e)
            && *final(ctx) == *old(ctx),
        deposit_error(*old(ctx), amount) is None ==> r is Ok && *final(ctx) == deposit_applied(
            *old(ctx),
            amount,
        ),
{
    ctx.deposit(amount)
}

/// Dispatch a withdrawal to the payment context, unchanged in meaning.
pub fn withdraw(ctx: &mut Payment, amount: u64) -> (r: Result<(), VaultError>)
    ensures
        withdraw_error(*old(ctx), amount) matches Some(e) ==> r == Err::<(), VaultError>(e)
            && *final(ctx) == *old(ctx),
        withdraw_error(*old(ctx), amount) is None ==> r is Ok && *final(ctx) == withdraw_applied(
            *old(ctx),
            amount,
        ),
{
    ctx.withdraw(amount)
}

/// Law: both addresses recorded by a successful `initialize` re-derive
/// from the cached disambiguator bytes — the state address from the
/// owner identity, the holding address from the state address.
pub proof fn lemma_initialize_rederives(user: u64, d: (u64, u8, u64, u8))
    requires
        spec_initialize(user) == Ok::<(u64, u8, u64, u8), VaultError>(d),
    ensures
        d.0 == spec_derive_at(DomainTag::State, user, d.1),
        d.2 == spec_derive_at(DomainTag::Vault, d.0, d.3),
{
}

/// Law: a payment context assembled from a successful `initialize` —
/// same owner calling, the recorded addresses, the filled record —
/// passes both the authorization and the derivation check.
pub proof fn lemma_initialized_payment_accepted(user: u64, d: (u64, u8, u64, u8), p: Payment)
    requires
        spec_initialize(user) == Ok::<(u64, u8, u64, u8), VaultError>(d),
        p.user == user,
        p.owner == user,
        p.state_address == d.0,
        p.state.state_bump == d.1,
        p.vault_address == d.2,
        p.state.vault_bump == d.3,
    ensures
        payment_authorized(p),
        payment_derivation_ok(p),
{
}

/// Law: a fresh vault is consistent — with the tracked amount at zero
/// and the holding account funded to exactly its minimum reserve, the
/// ledger invariant holds before the first payment.
pub proof fn lemma_initialized_ledger_consistent(state: VaultState, vault: Account)
    requires
        state.amount == 0,
        vault.balance == vault.min_reserve,
    ensures
        ledger_consistent(state, vault),
{
}

/// Law: round trip. A deposit followed by a withdrawal of the same
/// amount is always accepted (given a funded holding account) and
/// restores the whole payment context — the tracked amount and both
/// balances — to its pre-deposit value.
pub proof fn lemma_deposit_withdraw_roundtrip(p: Payment, amount: u64)
    requires
        deposit_error(p, amount) is None,
        account_funded(p.vault),
    ensures
        withdraw_error(deposit_applied(p, amount), amount) is None,
        withdraw_applied(deposit_applied(p, amount), amount) == p,
{
    assert(withdraw_applied(deposit_applied(p, amount), amount) =~= p);
}

/// Law: a withdrawal of more than the tracked amount is refused with
/// `InsufficientVaultBalance`; by `withdraw`'s contract the refusal
/// leaves the ledger and both accounts unchanged.
pub proof fn lemma_overdraw_rejected(p: Payment, amount: u64)
    requires
        payment_authorized(p),
        payment_derivation_ok(p),
        amount > p.state.amount,
    ensures
        withdraw_error(p, amount) == Some(VaultError::InsufficientVaultBalance),
{
}

/// Law: a deposit that would push the tracked amount past 64 bits is
/// refused with `AmountOverflow`; by `deposit`'s contract the refusal
/// leaves the ledger and both accounts unchanged.
pub proof fn lemma_deposit_overflow_rejected(p: Payment, amount: u64)
    requires
        payment_authorized(p),
        payment_derivation_ok(p),
        amount > 0,
        p.state.amount + amount > u64::MAX,
    ensures
        deposit_error(p, amount) == Some(VaultError::AmountOverflow),
{
}

/// Law: payments never touch the derivation chain. After any successful
/// deposit or withdrawal the cached disambiguator bytes and both
/// addresses are exactly as they were, so they still re-derive.
pub proof fn lemma_payment_preserves_derivation(p: Payment, amount: u64)
    requires
        payment_derivation_ok(p),
    ensures
        payment_derivation_ok(deposit_applied(p, amount)),
        payment_derivation_ok(withdraw_applied(p, amount)),
{
}

/// Law: a successful deposit preserves the ledger invariant — the
/// tracked amount and the holding account's balance move by the same
/// `amount`, so the tracked amount still equals the holdings above the
/// reserve.
pub proof fn lemma_deposit_preserves_consistency(p: Payment, amount: u64)
    requires
        ledger_consistent(p.state, p.vault),
        deposit_error(p, amount) is None,
    ensures
        ledger_consistent(deposit_applied(p, amount).state, deposit_applied(p, amount).vault),
{
}

/// Law: a successful withdrawal preserves the ledger invariant.
pub proof fn lemma_withdraw_preserves_consistency(p: Payment, amount: u64)
    requires
        ledger_consistent(p.state, p.vault),
        withdraw_error(p, amount) is None,
    ensures
        ledger_consistent(withdraw_applied(p, amount).state, withdraw_applied(p, amount).vault),
{
}

} // verus!
