use vstd::prelude::*;
use crate::faucet::{
    close_outcome, fee_of, payout_outcome, update_outcome, withdraw_outcome, Close, Payout, Update,
    Withdraw,
};
use crate::state::Pubkey;
use crate::state::{ErrorCode, Faucet, Transaction};
use crate::throttle::{effective_count, limit_outcome, next_record, window_expired};

verus! {

/// The record after a requester's payouts `steps` (each a time and a
/// quantity), in order, against one faucet: a payout the quota refuses leaves
/// the record as it was.
pub open spec fn throttle_run(faucet: Faucet, record: Transaction, steps: Seq<(i64, u16)>) -> Transaction
    decreases steps.len(),
{
    if steps.len() == 0 {
        record
    } else {
        let prev = throttle_run(faucet, record, steps.drop_last());
        let (now, quantity) = steps.last();
        if limit_outcome(quantity as int, faucet, prev, now as int) is Ok {
            next_record(faucet, prev, now, quantity)
        } else {
            prev
        }
    }
}

/// The total quantity that the quota admits over `steps`.
pub open spec fn accepted_total(faucet: Faucet, record: Transaction, steps: Seq<(i64, u16)>) -> int
    decreases steps.len(),
{
    if steps.len() == 0 {
        0
    } else {
        let prev = throttle_run(faucet, record, steps.drop_last());
        let (now, quantity) = steps.last();
        accepted_total(faucet, record, steps.drop_last()) + if limit_outcome(
            quantity as int,
            faucet,
            prev,
            now as int,
        ) is Ok {
            quantity as int
        } else {
            0
        }
    }
}

/// Quota: over any payouts by one requester that all fall inside the window
/// the record has open, the window stays where it is, the record counts all
/// that was admitted, and what the window holds in all never exceeds
/// `max_quantity`; a window already over it admits nothing more.
pub proof fn lemma_quota_within_window(faucet: Faucet, record: Transaction, steps: Seq<(i64, u16)>)
    requires
        forall|i: int| 0 <= i < steps.len() ==> !window_expired(faucet, record, steps[i].0 as int),
    ensures
        throttle_run(faucet, record, steps).timestamp == record.timestamp,
        throttle_run(faucet, record, steps).count == record.count + accepted_total(faucet, record, steps),
        record.count <= faucet.max_quantity ==> record.count + accepted_total(faucet, record, steps)
            <= faucet.max_quantity,
        record.count > faucet.max_quantity ==> accepted_total(faucet, record, steps) == 0,
    decreases steps.len(),
{
    if steps.len() > 0 {
        let init = steps.drop_last();
        assert forall|i: int| 0 <= i < init.len() implies !window_expired(
            faucet,
            record,
            init[i].0 as int,
        ) by {
            assert(init[i] == steps[i]);
        }
        lemma_quota_within_window(faucet, record, init);
        assert(steps.last() == steps[steps.len() - 1]);
    }
}

/// A payout that goes through is one the quota admits, and leaves the record
/// as `next_record` says; so `throttle_run` follows a requester's payouts.
pub proof fn lemma_payout_follows_quota(ctx: Payout, quantity: u16, now: i64)
    requires
        payout_outcome(ctx, quantity, now) is Ok,
    ensures
        limit_outcome(quantity as int, ctx.faucet, ctx.transaction, now as int) is Ok,
        payout_outcome(ctx, quantity, now)->Ok_0.transaction == next_record(
            ctx.faucet,
            ctx.transaction,
            now,
            quantity,
        ),
        payout_outcome(ctx, quantity, now)->Ok_0.faucet == ctx.faucet,
{
}

/// Window reset: once `interval` has passed since the window opened, a payout
/// of anything from one unit up to the full `max_quantity` passes the quota,
/// and the window reopens at that payout's time with its quantity.
pub proof fn lemma_window_reset(faucet: Faucet, record: Transaction, now: i64, quantity: u16)
    requires
        record.timestamp <= now - faucet.interval,
        1 <= quantity <= faucet.max_quantity,
    ensures
        effective_count(faucet, record, now as int) == 0,
        limit_outcome(quantity as int, faucet, record, now as int) is Ok,
        next_record(faucet, record, now, quantity) == (Transaction { timestamp: now, count: quantity }),
{
}

/// Rollback: a payout whose fee the requester cannot cover is refused, so
/// (by `payout`'s contract) neither custody nor the throttle record moves.
pub proof fn lemma_fee_overdraw_rolls_back(ctx: Payout, quantity: u16, now: i64)
    requires
        ctx.payer_lamports < fee_of(ctx.faucet, quantity),
    ensures
        payout_outcome(ctx, quantity, now) is Err,
{
}

/// A payout of zero units is refused as `MinQuantity`, whatever is left of the
/// quota and whatever the accounts hold.
pub proof fn lemma_zero_quantity(ctx: Payout, now: i64)
    ensures
        limit_outcome(0, ctx.faucet, ctx.transaction, now as int) == Err::<(), ErrorCode>(
            ErrorCode::MinQuantity,
        ),
        payout_outcome(ctx, 0, now) == Err::<Payout, ErrorCode>(ErrorCode::MinQuantity),
{
}

/// Authority gating: an update, a withdrawal or a closure signed by anyone
/// but the faucet's authority is refused as `Unauthorized`, whatever it asks.
pub proof fn lemma_authority_gating(
    u: Update,
    price: Option<u64>,
    amount_per_unit: Option<u64>,
    interval: Option<i64>,
    max_quantity: Option<u16>,
    authority: Option<Pubkey>,
    beneficiary: Option<Pubkey>,
    token_mint: Option<Pubkey>,
    token_bump: Option<u8>,
    w: Withdraw,
    amount: u64,
    c: Close,
)
    requires
        u.authority != u.faucet.authority,
        w.authority != w.faucet.authority,
        c.authority != c.faucet.authority,
    ensures
        update_outcome(
            u,
            price,
            amount_per_unit,
            interval,
            max_quantity,
            authority,
            beneficiary,
            token_mint,
            token_bump,
        ) == Err::<Update, ErrorCode>(ErrorCode::Unauthorized),
        withdraw_outcome(w, amount) == Err::<Withdraw, ErrorCode>(ErrorCode::Unauthorized),
        close_outcome(c) == Err::<Close, ErrorCode>(ErrorCode::Unauthorized),
{
}

} // verus!
