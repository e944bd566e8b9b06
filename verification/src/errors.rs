//! Error taxonomy for the vault operations and the transfer engine.

use vstd::prelude::*;

verus! {

/// Everything an `initialize`, `deposit` or `withdraw` call can fail with.
///
/// Every operation checks its preconditions before touching any state, so
/// returning one of these always leaves the caller's accounts and the
/// ledger record exactly as they were.
#[derive(Clone, Copy, PartialEq, Eq, Structural, Debug)]
pub enum VaultError {
    /// A ledger record already exists for this owner; `initialize` is
    /// performed at most once per owner.
    AlreadyInitialized,
    /// The authenticated caller is not the owner the vault is bound to.
    Unauthorized,
    /// A supplied address does not recompute from the cached
    /// disambiguator byte; nothing is moved on a mismatch.
    DerivationMismatch,
    /// The update would push a 64-bit balance or the tracked amount past
    /// its range.
    AmountOverflow,
    /// A withdrawal asked for more than the ledger says the vault holds.
    InsufficientVaultBalance,
    /// The account value is drawn from cannot cover the amount and still
    /// keep its mandatory minimum reserve.
    InsufficientSourceFunds,
    /// A zero amount is a caller error for both deposit and withdraw.
    ZeroAmount,
    /// No disambiguator byte in the whole search range produced a validly
    /// formed address; the owner identity cannot be initialized.
    DerivationExhausted,
}

/// Failures of the value-transfer primitive itself.
#[derive(Clone, Copy, PartialEq, Eq, Structural, Debug)]
pub enum TransferError {
    /// The source account cannot cover the amount plus its own minimum
    /// reserve.
    InsufficientFunds,
    /// The destination balance would leave the 64-bit range.
    DestinationOverflow,
}

} // verus!
