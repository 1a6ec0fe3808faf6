use vstd::prelude::*;
use crate::state::{ErrorCode, TokenAccount};

verus! {

/// The two accounts after moving `amount` tokens from `from` to `to`, or the
/// reason the move is refused: a token type mismatch, a short balance, or a
/// destination balance that would overflow.
pub open spec fn token_transfer(from: TokenAccount, to: TokenAccount, amount: u64) -> Result<
    (TokenAccount, TokenAccount),
    ErrorCode,
> {
    if from.mint != to.mint {
        Err(ErrorCode::MintMismatch)
    } else if from.amount < amount {
        Err(ErrorCode::InsufficientFunds)
    } else if to.amount + amount > u64::MAX {
        Err(ErrorCode::Overflow)
    } else {
        Ok(
            (
                TokenAccount { amount: (from.amount - amount) as u64, ..from },
                TokenAccount { amount: (to.amount + amount) as u64, ..to },
            ),
        )
    }
}

/// The two balances after moving `amount` of the fee asset from `from` to
/// `to`, or the reason the move is refused.
pub open spec fn lamport_transfer(from: u64, to: u64, amount: u64) -> Result<(u64, u64), ErrorCode> {
    if from < amount {
        Err(ErrorCode::InsufficientFunds)
    } else if to + amount > u64::MAX {
        Err(ErrorCode::Overflow)
    } else {
        Ok(((from - amount) as u64, (to + amount) as u64))
    }
}

/// Tells whether `token_transfer` would succeed, without moving anything.
pub fn check_token_transfer(from: &TokenAccount, to: &TokenAccount, amount: u64) -> (r: Result<
    (),
    ErrorCode,
>)
    ensures
        match r {
            Ok(_) => token_transfer(*from, *to, amount) is Ok,
            Err(e) => token_transfer(*from, *to, amount) == Err::<(TokenAccount, TokenAccount), ErrorCode>(e),
        },
{
    if from.mint != to.mint {
        Err(ErrorCode::MintMismatch)
    } else if from.amount < amount {
        Err(ErrorCode::InsufficientFunds)
    } else if to.amount > u64::MAX - amount {
        Err(ErrorCode::Overflow)
    } else {
        Ok(())
    }
}

/// Moves `amount` tokens from `from` to `to` where `token_transfer` allows it.
pub fn apply_token_transfer(from: &mut TokenAccount, to: &mut TokenAccount, amount: u64)
    requires
        token_transfer(*old(from), *old(to), amount) is Ok,
    ensures
        token_transfer(*old(from), *old(to), amount) == Ok::<_, ErrorCode>((*final(from), *final(to))),
{
    from.amount = from.amount - amount;
    to.amount = to.amount + amount;
}

/// Tells whether `lamport_transfer` would succeed, without moving anything.
pub fn check_lamport_transfer(from: u64, to: u64, amount: u64) -> (r: Result<(), ErrorCode>)
    ensures
        match r {
            Ok(_) => lamport_transfer(from, to, amount) is Ok,
            Err(e) => lamport_transfer(from, to, amount) == Err::<(u64, u64), ErrorCode>(e),
        },
{
    if from < amount {
        Err(ErrorCode::InsufficientFunds)
    } else if to > u64::MAX - amount {
        Err(ErrorCode::Overflow)
    } else {
        Ok(())
    }
}

} // verus!
