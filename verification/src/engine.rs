//! The transfer engine: atomic value movement between two accounts.

use vstd::prelude::*;

verus! {

use crate::errors::TransferError;
use crate::state::Account;

/// Whether a transfer of `amount` out of `from` into `to` can go through:
/// the source must cover the amount on top of its own minimum reserve,
/// and the destination balance must stay within 64 bits.
pub open spec fn transfer_allowed(from: Account, to: Account, amount: u64) -> bool {
    &&& from.balance >= from.min_reserve + amount
    &&& to.balance + amount <= u64::MAX
}

/// Which failure a refused transfer reports; the source check comes
/// first.
pub open spec fn transfer_failure(from: Account, to: Account, amount: u64) -> TransferError {
    if from.balance < from.min_reserve + amount {
        TransferError::InsufficientFunds
    } else {
        TransferError::DestinationOverflow
    }
}

/// Move `amount` from one account to the other, all or nothing: on any
/// failure both balances are exactly as they were. Reserves never change;
/// the source is left with at least its minimum reserve.
pub fn transfer(from: &mut Account, to: &mut Account, amount: u64) -> (r: Result<
    (),
    TransferError,
>)
    ensures
        (r is Ok) <==> transfer_allowed(*old(from), *old(to), amount),
        r is Ok ==> final(from).balance == old(from).balance - amount,
        r is Ok ==> final(to).balance == old(to).balance + amount,
        r is Err ==> r == Err::<(), TransferError>(
            transfer_failure(*old(from), *old(to), amount),
        ),
        r is Err ==> *final(from) == *old(from) && *final(to) == *old(to),
        final(from).min_reserve == old(from).min_reserve,
        final(to).min_reserve == old(to).min_reserve,
{
    if amount > from.balance || from.balance - amount < from.min_reserve {
        return Err(TransferError::InsufficientFunds);
    }
    if amount > u64::MAX - to.balance {
        return Err(TransferError::DestinationOverflow);
    }
    from.balance = from.balance - amount;
    to.balance = to.balance + amount;
    Ok(())
}

} // verus!
