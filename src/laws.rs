use vstd::prelude::*;

use crate::buy_tokens::pool_after_buy;
use crate::create_pool::CreatePool;
use crate::error::IdoError;
use crate::ledger::{
    find_pool,
    find_purchase,
    lemma_buy_preserves_wf,
    lemma_find_pool,
    lemma_find_pool_update,
    lemma_find_purchase,
    lemma_find_purchase_update,
    owed_in,
    pool_balanced,
    raised_in,
    PlatformModel,
};
use crate::state::{Address, TokenAccount, UserPurchase};

verus! {

/// The arguments of one purchase in a given pool.
pub struct BuyCall {
    pub buyer: Address,
    pub buyer_currency_account: TokenAccount,
    pub pool_currency_account: TokenAccount,
    pub currency_amount: u64,
    pub now: i64,
}

/// The records after applying the purchases `calls`, in order, to pool `pool_id`.
pub open spec fn run_buys(m: PlatformModel, pool_id: u64, calls: Seq<BuyCall>) -> PlatformModel
    decreases calls.len(),
{
    if calls.len() == 0 {
        m
    } else {
        let c = calls.last();
        run_buys(m, pool_id, calls.drop_last()).after_buy(
            c.buyer,
            c.buyer_currency_account,
            c.pool_currency_account,
            pool_id,
            c.currency_amount,
        )
    }
}

/// Each of the purchases `calls` succeeds on the records that the earlier ones left.
pub open spec fn buys_succeed(m: PlatformModel, pool_id: u64, calls: Seq<BuyCall>) -> bool
    decreases calls.len(),
{
    calls.len() == 0 || {
        let c = calls.last();
        &&& buys_succeed(m, pool_id, calls.drop_last())
        &&& run_buys(m, pool_id, calls.drop_last()).buy_tokens_error(
            c.buyer,
            c.buyer_currency_account,
            c.pool_currency_account,
            pool_id,
            c.currency_amount,
            c.now,
        ) is None
    }
}

/// The sum of the payments of `calls`.
pub open spec fn sum_payments(calls: Seq<BuyCall>) -> int
    decreases calls.len(),
{
    if calls.len() == 0 {
        0
    } else {
        sum_payments(calls.drop_last()) + calls.last().currency_amount
    }
}

/// A pool's collected payment is exactly the sum of what its buyers' records say
/// they paid.
pub proof fn lemma_total_raised_is_sum_of_purchases(m: PlatformModel, pool_id: u64)
    requires
        m.wf(),
        m.pool(pool_id) is Some,
    ensures
        m.pool(pool_id)->0.total_raised == raised_in(m.purchases, pool_id),
{
    lemma_find_pool(m.pools, pool_id);
    assert(pool_balanced(m.pools[find_pool(m.pools, pool_id)], m.purchases));
}

/// After any sequence of successful purchases in a pool, its collected payment
/// has grown by exactly the sum of their payments.
pub proof fn lemma_total_raised_after_buys(m: PlatformModel, pool_id: u64, calls: Seq<BuyCall>)
    requires
        m.wf(),
        m.pool(pool_id) is Some,
        buys_succeed(m, pool_id, calls),
    ensures
        run_buys(m, pool_id, calls).wf(),
        run_buys(m, pool_id, calls).pool(pool_id) is Some,
        run_buys(m, pool_id, calls).pool(pool_id)->0.total_raised == m.pool(pool_id)->0.total_raised
            + sum_payments(calls),
    decreases calls.len(),
{
    if calls.len() > 0 {
        let c = calls.last();
        let m1 = run_buys(m, pool_id, calls.drop_last());
        lemma_total_raised_after_buys(m, pool_id, calls.drop_last());
        lemma_buy_preserves_wf(
            m1,
            c.buyer,
            c.buyer_currency_account,
            c.pool_currency_account,
            pool_id,
            c.currency_amount,
            c.now,
        );
        lemma_find_pool(m1.pools, pool_id);
        let i = find_pool(m1.pools, pool_id);
        lemma_find_pool_update(
            m1.pools,
            i,
            pool_after_buy(m1.pools[i], c.currency_amount),
            pool_id,
        );
    }
}

/// The sale asset owed to a pool's buyers never exceeds its supply, nor what
/// the collected payment buys at the pool's price.
pub proof fn lemma_supply_never_oversold(m: PlatformModel, pool_id: u64)
    requires
        m.wf(),
        m.pool(pool_id) is Some,
    ensures
        owed_in(m.purchases, pool_id) <= m.pool(pool_id)->0.sale_amount,
        owed_in(m.purchases, pool_id) <= m.pool(pool_id)->0.total_raised as int / m.pool(
            pool_id,
        )->0.price_per_token as int,
{
    lemma_find_pool(m.pools, pool_id);
    assert(pool_balanced(m.pools[find_pool(m.pools, pool_id)], m.purchases));
}

/// After a successful claim, every later claim by the same buyer in the same
/// pool is refused as already claimed, whatever accounts and time it names.
pub proof fn lemma_claim_succeeds_once(
    m: PlatformModel,
    claimer: Address,
    claimer_token_account: TokenAccount,
    pool_token_account: TokenAccount,
    pool_id: u64,
    now: i64,
    later_claimer_token_account: TokenAccount,
    later_pool_token_account: TokenAccount,
    later: i64,
)
    requires
        m.wf(),
        m.claim_tokens_error(claimer, claimer_token_account, pool_token_account, pool_id, now)
            is None,
    ensures
        m.after_claim(claimer, pool_id).claim_tokens_error(
            claimer,
            later_claimer_token_account,
            later_pool_token_account,
            pool_id,
            later,
        ) == Some(IdoError::AlreadyClaimed),
{
    lemma_find_pool(m.pools, pool_id);
    lemma_find_purchase(m.purchases, claimer, pool_id);
    let k = find_purchase(m.purchases, claimer, pool_id);
    lemma_find_purchase_update(
        m.purchases,
        k,
        UserPurchase { has_claimed: true, ..m.purchases[k] },
        claimer,
        pool_id,
    );
}

/// Opening a pool whose start is not strictly after the current time is always
/// refused, and with `InvalidStartTime` once the caller, identifier and
/// accounts are in order.
pub proof fn lemma_past_start_rejected(
    m: PlatformModel,
    ctx: CreatePool,
    pool_id: u64,
    start_time: i64,
    end_time: i64,
    claim_time: i64,
    sale_amount: u64,
    price_per_token: u64,
    now: i64,
)
    requires
        start_time <= now,
    ensures
        m.create_pool_error(
            ctx,
            pool_id,
            start_time,
            end_time,
            claim_time,
            sale_amount,
            price_per_token,
            now,
        ) is Some,
        m.config is Some && m.config->0.creator == ctx.creator && m.pool(pool_id) is None
            && ctx.creator_token_account.mint == ctx.token_mint
            && ctx.creator_token_account.owner == ctx.creator ==> m.create_pool_error(
            ctx,
            pool_id,
            start_time,
            end_time,
            claim_time,
            sale_amount,
            price_per_token,
            now,
        ) == Some(IdoError::InvalidStartTime),
{
}

/// Opening a pool under an identifier that is taken is always refused, and with
/// `PoolAlreadyExists` once the caller is the configured creator: the existing
/// record is never overwritten.
pub proof fn lemma_duplicate_pool_rejected(
    m: PlatformModel,
    ctx: CreatePool,
    pool_id: u64,
    start_time: i64,
    end_time: i64,
    claim_time: i64,
    sale_amount: u64,
    price_per_token: u64,
    now: i64,
)
    requires
        m.pool(pool_id) is Some,
    ensures
        m.create_pool_error(
            ctx,
            pool_id,
            start_time,
            end_time,
            claim_time,
            sale_amount,
            price_per_token,
            now,
        ) is Some,
        m.config is Some && m.config->0.creator == ctx.creator ==> m.create_pool_error(
            ctx,
            pool_id,
            start_time,
            end_time,
            claim_time,
            sale_amount,
            price_per_token,
            now,
        ) == Some(IdoError::PoolAlreadyExists),
{
}

} // verus!
