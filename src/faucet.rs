use vstd::prelude::*;
use crate::ledger::{
    apply_token_transfer, check_lamport_transfer, check_token_transfer, lamport_transfer,
    token_transfer,
};
use crate::state::{ErrorCode, Faucet, Pubkey, TokenAccount, Transaction};
use crate::throttle::{limit_outcome, next_record, payout_limit, record_payout};

verus! {

/// The accounts of a faucet's creation: the creator, the custody account's
/// own address, and the token type to hand out.
#[derive(Clone, Copy, Debug, PartialEq, Eq)]
pub struct Create {
    pub authority: Pubkey,
    pub token_account: Pubkey,
    pub token_mint: Pubkey,
}

/// Creates a faucet, closed (every number zero), owned by the creator, who
/// also receives the fees; and its empty custody account of the faucet's
/// token type, which is its own owner.
pub fn create(ctx: &Create, token_bump: u8) -> (r: (Faucet, TokenAccount))
    ensures
        r.0 == (Faucet {
            price: 0,
            amount: 0,
            interval: 0,
            max_quantity: 0,
            authority: ctx.authority,
            beneficiary: ctx.authority,
            token_mint: ctx.token_mint,
            token_bump,
        }),
        r.1 == (TokenAccount {
            mint: ctx.token_mint,
            owner: ctx.token_account,
            amount: 0,
            lamports: 0,
        }),
{
    let faucet = Faucet {
        price: 0,
        amount: 0,
        interval: 0,
        max_quantity: 0,
        authority: ctx.authority,
        beneficiary: ctx.authority,
        token_mint: ctx.token_mint,
        token_bump,
    };
    let custody = TokenAccount { mint: ctx.token_mint, owner: ctx.token_account, amount: 0, lamports: 0 };
    (faucet, custody)
}

/// The accounts of an update: the faucet and the signer.
#[derive(Clone, Copy, Debug, PartialEq, Eq)]
pub struct Update {
    pub faucet: Faucet,
    pub authority: Pubkey,
}

/// `value` where it is given, `current` where it is not.
pub open spec fn patched<T>(current: T, value: Option<T>) -> T {
    match value {
        Some(v) => v,
        None => current,
    }
}

/// The accounts after an update, or why it is refused.
pub open spec fn update_outcome(
    ctx: Update,
    price: Option<u64>,
    amount: Option<u64>,
    interval: Option<i64>,
    max_quantity: Option<u16>,
    authority: Option<Pubkey>,
    beneficiary: Option<Pubkey>,
    token_mint: Option<Pubkey>,
    token_bump: Option<u8>,
) -> Result<Update, ErrorCode> {
    if ctx.authority != ctx.faucet.authority {
        Err(ErrorCode::Unauthorized)
    } else {
        Ok(
            Update {
                faucet: Faucet {
                    price: patched(ctx.faucet.price, price),
                    amount: patched(ctx.faucet.amount, amount),
                    interval: patched(ctx.faucet.interval, interval),
                    max_quantity: patched(ctx.faucet.max_quantity, max_quantity),
                    authority: patched(ctx.faucet.authority, authority),
                    beneficiary: patched(ctx.faucet.beneficiary, beneficiary),
                    token_mint: patched(ctx.faucet.token_mint, token_mint),
                    token_bump: patched(ctx.faucet.token_bump, token_bump),
                },
                ..ctx
            },
        )
    }
}

/// Replaces each field of the faucet for which a value is given and leaves
/// the others. Only the faucet's authority may do so.
pub fn update(
    ctx: &mut Update,
    price: Option<u64>,
    amount: Option<u64>,
    interval: Option<i64>,
    max_quantity: Option<u16>,
    authority: Option<Pubkey>,
    beneficiary: Option<Pubkey>,
    token_mint: Option<Pubkey>,
    token_bump: Option<u8>,
) -> (r: Result<(), ErrorCode>)
    ensures
        match update_outcome(
            *old(ctx),
            price,
            amount,
            interval,
            max_quantity,
            authority,
            beneficiary,
            token_mint,
            token_bump,
        ) {
            Ok(after) => r is Ok && *final(ctx) == after,
            Err(e) => r == Err::<(), ErrorCode>(e) && *final(ctx) == *old(ctx),
        },
{
    if ctx.authority != ctx.faucet.authority {
        return Err(ErrorCode::Unauthorized);
    }
    if let Some(v) = price {
        ctx.faucet.price = v;
    }
    if let Some(v) = amount {
        ctx.faucet.amount = v;
    }
    if let Some(v) = interval {
        ctx.faucet.interval = v;
    }
    if let Some(v) = max_quantity {
        ctx.faucet.max_quantity = v;
    }
    if let Some(v) = authority {
        ctx.faucet.authority = v;
    }
    if let Some(v) = beneficiary {
        ctx.faucet.beneficiary = v;
    }
    if let Some(v) = token_mint {
        ctx.faucet.token_mint = v;
    }
    if let Some(v) = token_bump {
        ctx.faucet.token_bump = v;
    }
    Ok(())
}

/// The accounts of a deposit: the faucet, the signer, the account the tokens
/// come from and the custody account.
#[derive(Clone, Copy, Debug, PartialEq, Eq)]
pub struct Deposit {
    pub faucet: Faucet,
    pub authority: Pubkey,
    pub from_token_account: TokenAccount,
    pub to_token_account: TokenAccount,
}

/// What a deposit of `amount` leaves behind, or why it is refused.
pub open spec fn deposit_outcome(ctx: Deposit, amount: u64) -> Result<Deposit, ErrorCode> {
    if ctx.faucet.token_mint != ctx.from_token_account.mint || ctx.faucet.token_mint
        != ctx.to_token_account.mint {
        Err(ErrorCode::MintMismatch)
    } else if ctx.authority != ctx.from_token_account.owner {
        Err(ErrorCode::OwnerMismatch)
    } else {
        match token_transfer(ctx.from_token_account, ctx.to_token_account, amount) {
            Err(e) => Err(e),
            Ok((from, to)) => Ok(Deposit { from_token_account: from, to_token_account: to, ..ctx }),
        }
    }
}

/// Moves `amount` tokens from the signer's account into custody. Anyone may
/// fund a faucet, from an account of its token type that the signer owns.
pub fn deposit(ctx: &mut Deposit, amount: u64) -> (r: Result<(), ErrorCode>)
    ensures
        match deposit_outcome(*old(ctx), amount) {
            Ok(after) => r is Ok && *final(ctx) == after,
            Err(e) => r == Err::<(), ErrorCode>(e) && *final(ctx) == *old(ctx),
        },
{
    if ctx.faucet.token_mint != ctx.from_token_account.mint || ctx.faucet.token_mint
        != ctx.to_token_account.mint {
        return Err(ErrorCode::MintMismatch);
    }
    if ctx.authority != ctx.from_token_account.owner {
        return Err(ErrorCode::OwnerMismatch);
    }
    check_token_transfer(&ctx.from_token_account, &ctx.to_token_account, amount)?;
    apply_token_transfer(&mut ctx.from_token_account, &mut ctx.to_token_account, amount);
    Ok(())
}

/// The accounts of a withdrawal: the faucet, the signer, the custody account
/// and the account the tokens go to.
#[derive(Clone, Copy, Debug, PartialEq, Eq)]
pub struct Withdraw {
    pub faucet: Faucet,
    pub authority: Pubkey,
    pub from_token_account: TokenAccount,
    pub to_token_account: TokenAccount,
}

/// What a withdrawal of `amount` leaves behind, or why it is refused.
pub open spec fn withdraw_outcome(ctx: Withdraw, amount: u64) -> Result<Withdraw, ErrorCode> {
    if ctx.authority != ctx.faucet.authority {
        Err(ErrorCode::Unauthorized)
    } else if ctx.faucet.token_mint != ctx.from_token_account.mint || ctx.faucet.token_mint
        != ctx.to_token_account.mint {
        Err(ErrorCode::MintMismatch)
    } else {
        match token_transfer(ctx.from_token_account, ctx.to_token_account, amount) {
            Err(e) => Err(e),
            Ok((from, to)) => Ok(Withdraw { from_token_account: from, to_token_account: to, ..ctx }),
        }
    }
}

/// Moves `amount` tokens out of custody. Only the faucet's authority may do so;
/// custody signs for itself.
pub fn withdraw(ctx: &mut Withdraw, amount: u64) -> (r: Result<(), ErrorCode>)
    ensures
        match withdraw_outcome(*old(ctx), amount) {
            Ok(after) => r is Ok && *final(ctx) == after,
            Err(e) => r == Err::<(), ErrorCode>(e) && *final(ctx) == *old(ctx),
        },
{
    if ctx.authority != ctx.faucet.authority {
        return Err(ErrorCode::Unauthorized);
    }
    if ctx.faucet.token_mint != ctx.from_token_account.mint || ctx.faucet.token_mint
        != ctx.to_token_account.mint {
        return Err(ErrorCode::MintMismatch);
    }
    check_token_transfer(&ctx.from_token_account, &ctx.to_token_account, amount)?;
    apply_token_transfer(&mut ctx.from_token_account, &mut ctx.to_token_account, amount);
    Ok(())
}

/// The accounts of a closure: the faucet, the signer and the fee balance it
/// gets the custody account's reserve back into, the custody account, and the
/// account its tokens go to.
#[derive(Clone, Copy, Debug, PartialEq, Eq)]
pub struct Close {
    pub faucet: Faucet,
    pub authority: Pubkey,
    pub authority_lamports: u64,
    pub from_token_account: TokenAccount,
    pub to_token_account: TokenAccount,
}

/// What closing the custody account leaves behind, or why it is refused:
/// every token moves to the destination, and the reserve to the authority.
pub open spec fn close_outcome(ctx: Close) -> Result<Close, ErrorCode> {
    if ctx.authority != ctx.faucet.authority {
        Err(ErrorCode::Unauthorized)
    } else if ctx.faucet.token_mint != ctx.from_token_account.mint || ctx.faucet.token_mint
        != ctx.to_token_account.mint {
        Err(ErrorCode::MintMismatch)
    } else {
        match token_transfer(ctx.from_token_account, ctx.to_token_account, ctx.from_token_account.amount) {
            Err(e) => Err(e),
            Ok((from, to)) => match lamport_transfer(from.lamports, ctx.authority_lamports, from.lamports) {
                Err(e) => Err(e),
                Ok((reserve, authority)) => Ok(
                    Close {
                        authority_lamports: authority,
                        from_token_account: TokenAccount { lamports: reserve, ..from },
                        to_token_account: to,
                        ..ctx
                    },
                ),
            },
        }
    }
}

/// Empties custody into the authority's token account and closes it, handing
/// its reserve back to the authority. Only the faucet's authority may do so.
pub fn close(ctx: &mut Close) -> (r: Result<(), ErrorCode>)
    ensures
        match close_outcome(*old(ctx)) {
            Ok(after) => r is Ok && *final(ctx) == after,
            Err(e) => r == Err::<(), ErrorCode>(e) && *final(ctx) == *old(ctx),
        },
{
    if ctx.authority != ctx.faucet.authority {
        return Err(ErrorCode::Unauthorized);
    }
    if ctx.faucet.token_mint != ctx.from_token_account.mint || ctx.faucet.token_mint
        != ctx.to_token_account.mint {
        return Err(ErrorCode::MintMismatch);
    }
    let balance = ctx.from_token_account.amount;
    check_token_transfer(&ctx.from_token_account, &ctx.to_token_account, balance)?;
    let reserve = ctx.from_token_account.lamports;
    check_lamport_transfer(reserve, ctx.authority_lamports, reserve)?;
    apply_token_transfer(&mut ctx.from_token_account, &mut ctx.to_token_account, balance);
    ctx.from_token_account.lamports = 0;
    ctx.authority_lamports = ctx.authority_lamports + reserve;
    Ok(())
}

/// The accounts of a payout: the faucet, the requester's throttle record and
/// fee balance, the fee recipient, the custody account and the requester's
/// token account.
#[derive(Clone, Copy, Debug, PartialEq, Eq)]
pub struct Payout {
    pub faucet: Faucet,
    pub transaction: Transaction,
    pub payer_lamports: u64,
    pub beneficiary: Pubkey,
    pub beneficiary_lamports: u64,
    pub from_token_account: TokenAccount,
    pub to_token_account: TokenAccount,
}

/// The fee of a payout of `quantity`.
pub open spec fn fee_of(faucet: Faucet, quantity: u16) -> int {
    faucet.price * quantity
}

/// The tokens handed out by a payout of `quantity`.
pub open spec fn tokens_of(faucet: Faucet, quantity: u16) -> int {
    faucet.amount * quantity
}

/// The fee and the tokens of a payout of `quantity`, or `Overflow` where
/// either does not fit in 64 bits.
pub fn payout_amounts(faucet: &Faucet, quantity: u16) -> (r: Result<(u64, u64), ErrorCode>)
    ensures
        r is Ok <==> fee_of(*faucet, quantity) <= u64::MAX && tokens_of(*faucet, quantity)
            <= u64::MAX,
        r is Ok ==> r->Ok_0.0 == fee_of(*faucet, quantity) && r->Ok_0.1 == tokens_of(
            *faucet,
            quantity,
        ),
        r is Err ==> r->Err_0 == ErrorCode::Overflow,
{
    let fee = match faucet.price.checked_mul(quantity as u64) {
        Some(v) => v,
        None => return Err(ErrorCode::Overflow),
    };
    let tokens = match faucet.amount.checked_mul(quantity as u64) {
        Some(v) => v,
        None => return Err(ErrorCode::Overflow),
    };
    Ok((fee, tokens))
}

/// What a payout of `quantity` at `now` leaves behind: every account after
/// the fee, the tokens and the throttle record have moved, or the first
/// check that refuses it. A refused payout changes nothing.
pub open spec fn payout_outcome(ctx: Payout, quantity: u16, now: i64) -> Result<Payout, ErrorCode> {
    let f = ctx.faucet;
    let limit = limit_outcome(quantity as int, f, ctx.transaction, now as int);
    if limit is Err {
        Err(limit->Err_0)
    } else if fee_of(f, quantity) > u64::MAX || tokens_of(f, quantity) > u64::MAX {
        Err(ErrorCode::Overflow)
    } else if f.token_mint != ctx.from_token_account.mint || f.token_mint
        != ctx.to_token_account.mint {
        Err(ErrorCode::MintMismatch)
    } else if ctx.beneficiary != f.beneficiary {
        Err(ErrorCode::BeneficiaryMismatch)
    } else {
        match lamport_transfer(ctx.payer_lamports, ctx.beneficiary_lamports, fee_of(f, quantity) as u64) {
            Err(e) => Err(e),
            Ok((payer, beneficiary)) => match token_transfer(
                ctx.from_token_account,
                ctx.to_token_account,
                tokens_of(f, quantity) as u64,
            ) {
                Err(e) => Err(e),
                Ok((from, to)) => Ok(
                    Payout {
                        transaction: next_record(f, ctx.transaction, now, quantity),
                        payer_lamports: payer,
                        beneficiary_lamports: beneficiary,
                        from_token_account: from,
                        to_token_account: to,
                        ..ctx
                    },
                ),
            },
        }
    }
}

/// Pays `faucet.amount * quantity` tokens out of custody to the requester for
/// a fee of `faucet.price * quantity`, and records the quantity against the
/// requester's window. `now` is the one reading of the clock that both the
/// checks and the record use. All of it happens, or none of it.
pub fn payout(ctx: &mut Payout, quantity: u16, now: i64) -> (r: Result<(), ErrorCode>)
    ensures
        match payout_outcome(*old(ctx), quantity, now) {
            Ok(after) => r is Ok && *final(ctx) == after,
            Err(e) => r == Err::<(), ErrorCode>(e) && *final(ctx) == *old(ctx),
        },
{
    payout_limit(quantity, &ctx.faucet, &ctx.transaction, now)?;
    let (fee, tokens) = payout_amounts(&ctx.faucet, quantity)?;
    if ctx.faucet.token_mint != ctx.from_token_account.mint || ctx.faucet.token_mint
        != ctx.to_token_account.mint {
        return Err(ErrorCode::MintMismatch);
    }
    if ctx.beneficiary != ctx.faucet.beneficiary {
        return Err(ErrorCode::BeneficiaryMismatch);
    }
    check_lamport_transfer(ctx.payer_lamports, ctx.beneficiary_lamports, fee)?;
    check_token_transfer(&ctx.from_token_account, &ctx.to_token_account, tokens)?;

    ctx.payer_lamports = ctx.payer_lamports - fee;
    ctx.beneficiary_lamports = ctx.beneficiary_lamports + fee;
    apply_token_transfer(&mut ctx.from_token_account, &mut ctx.to_token_account, tokens);
    record_payout(&ctx.faucet, &mut ctx.transaction, now, quantity);
    Ok(())
}

} // verus!
