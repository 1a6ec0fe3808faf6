use vstd::prelude::*;
use crate::state::{ErrorCode, Faucet, Transaction};

verus! {

/// Whether the requester's window has run out at time `now`.
pub open spec fn window_expired(faucet: Faucet, record: Transaction, now: int) -> bool {
    now - record.timestamp >= faucet.interval
}

/// The quantity already taken in the window that is current at `now`.
pub open spec fn effective_count(faucet: Faucet, record: Transaction, now: int) -> int {
    if window_expired(faucet, record, now) {
        0
    } else {
        record.count as int
    }
}

/// The outcome of the quota checks for a payout of `quantity` at `now`,
/// in the order in which they are made.
pub open spec fn limit_outcome(quantity: int, faucet: Faucet, record: Transaction, now: int) -> Result<
    (),
    ErrorCode,
> {
    let count = effective_count(faucet, record, now);
    if quantity < 1 {
        Err(ErrorCode::MinQuantity)
    } else if faucet.max_quantity == 0 {
        Err(ErrorCode::FaucetClosed)
    } else if faucet.max_quantity - count <= 0 {
        Err(ErrorCode::PayoutLimit)
    } else if quantity > faucet.max_quantity - count {
        Err(ErrorCode::MaxQuantity)
    } else {
        Ok(())
    }
}

/// The record after a payout of `quantity` at `now` that the quota admitted:
/// an expired window restarts at `now`, a current one adds to its count.
pub open spec fn next_record(faucet: Faucet, record: Transaction, now: i64, quantity: u16) -> Transaction {
    if window_expired(faucet, record, now as int) {
        Transaction { timestamp: now, count: quantity }
    } else {
        Transaction { timestamp: record.timestamp, count: (record.count + quantity) as u16 }
    }
}

/// Whether the requester's window has run out at `now`; the difference of the
/// two times is taken without overflow.
pub fn expired(faucet: &Faucet, transaction: &Transaction, now: i64) -> (r: bool)
    ensures
        r == window_expired(*faucet, *transaction, now as int),
{
    let elapsed: i128 = now as i128 - transaction.timestamp as i128;
    elapsed >= faucet.interval as i128
}

/// The quantity the requester has taken in the window that is current at `now`:
/// zero once the window has run out.
pub fn transaction_count(faucet: &Faucet, transaction: &Transaction, now: i64) -> (r: u16)
    ensures
        r as int == effective_count(*faucet, *transaction, now as int),
{
    if expired(faucet, transaction, now) {
        0
    } else {
        transaction.count
    }
}

/// Checks a payout of `quantity` at `now` against the faucet's quota: at least
/// one unit, an open faucet, and no more than what is left of the window's quota.
pub fn payout_limit(quantity: u16, faucet: &Faucet, transaction: &Transaction, now: i64) -> (r: Result<
    (),
    ErrorCode,
>)
    ensures
        r == limit_outcome(quantity as int, *faucet, *transaction, now as int),
{
    if quantity == 0 {
        return Err(ErrorCode::MinQuantity);
    }
    if faucet.max_quantity == 0 {
        return Err(ErrorCode::FaucetClosed);
    }
    let count = transaction_count(faucet, transaction, now);
    if faucet.max_quantity <= count {
        return Err(ErrorCode::PayoutLimit);
    }
    let remaining: u16 = faucet.max_quantity - count;
    if quantity > remaining {
        return Err(ErrorCode::MaxQuantity);
    }
    Ok(())
}

/// The record after a payout of `quantity` at `now` that the quota admitted.
pub fn record_payout(faucet: &Faucet, transaction: &mut Transaction, now: i64, quantity: u16)
    requires
        limit_outcome(quantity as int, *faucet, *old(transaction), now as int) is Ok,
    ensures
        *final(transaction) == next_record(*faucet, *old(transaction), now, quantity),
{
    if expired(faucet, transaction, now) {
        transaction.timestamp = now;
        transaction.count = quantity;
    } else {
        transaction.count = transaction.count + quantity;
    }
}

} // verus!
