//! The persisted ledger record and the account model.

use vstd::prelude::*;

verus! {

/// The ledger record persisted for one owner: the two cached
/// disambiguator bytes and the tracked balance.
#[derive(Clone, Copy, PartialEq, Eq, Structural, Debug)]
#[verifier::ext_equal]
pub struct VaultState {
    /// Disambiguator that, with tag `Vault` and the state address as
    /// seed, re-derives the holding account's address.
    pub vault_bump: u8,
    /// Disambiguator that, with tag `State` and the owner identity as
    /// seed, re-derives this record's own address.
    pub state_bump: u8,
    /// What the ledger believes the holding account contains above its
    /// mandatory minimum reserve.
    pub amount: u64,
}

/// An account as the surrounding runtime presents it: its balance and the
/// minimum reserve the runtime obliges it to keep.
#[derive(Clone, Copy, PartialEq, Eq, Structural, Debug)]
#[verifier::ext_equal]
pub struct Account {
    /// Value currently held.
    pub balance: u64,
    /// Floor the balance may never drop below.
    pub min_reserve: u64,
}

/// An account is funded when its balance covers its minimum reserve.
pub open spec fn account_funded(a: Account) -> bool {
    a.balance >= a.min_reserve
}

/// The central ledger invariant: the tracked amount equals the holding
/// account's actual balance minus its mandatory minimum reserve.
pub open spec fn ledger_consistent(state: VaultState, vault: Account) -> bool {
    &&& account_funded(vault)
    &&& state.amount == vault.balance - vault.min_reserve
}

} // verus!
