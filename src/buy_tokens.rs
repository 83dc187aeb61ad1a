use vstd::prelude::*;

use crate::error::IdoError;
use crate::state::{Address, Authority, PoolAccount, TokenAccount, TokenTransfer, UserPurchase};

verus! {

/// The records and holding accounts that a purchase reads and writes.
#[derive(Clone, Copy, Debug)]
pub struct BuyTokens {
    pub buyer: Address,
    pub pool_account: PoolAccount,
    /// The buyer's purchase record in this pool, if one exists yet.
    pub user_purchase: Option<UserPurchase>,
    pub buyer_currency_account: TokenAccount,
    pub pool_currency_account: TokenAccount,
}

/// Whole tokens that `currency_amount` buys; a remainder below one token is kept as payment.
pub open spec fn tokens_bought(currency_amount: u64, price_per_token: u64) -> int {
    currency_amount as int / price_per_token as int
}

/// Tokens not yet allocated, as the sale counts them: the supply less what the
/// payment collected so far would buy at the pool's price.
pub open spec fn remaining_supply(p: PoolAccount) -> int {
    p.sale_amount - p.total_raised as int / p.price_per_token as int
}

/// Why a purchase of `currency_amount` at time `now` is refused, checked in this order;
/// `None` when it succeeds.
pub open spec fn buy_error(ctx: BuyTokens, pool_id: u64, currency_amount: u64, now: i64) -> Option<IdoError> {
    let p = ctx.pool_account;
    if p.pool_id != pool_id {
        Some(IdoError::InvalidAccount)
    } else if !p.is_active {
        Some(IdoError::PoolNotActive)
    } else if ctx.user_purchase is Some && (ctx.user_purchase->0.user != ctx.buyer
        || ctx.user_purchase->0.pool_id != pool_id) {
        Some(IdoError::InvalidAccount)
    } else if ctx.buyer_currency_account.mint != p.currency_mint
        || ctx.buyer_currency_account.owner != ctx.buyer
        || ctx.pool_currency_account.mint != p.currency_mint {
        Some(IdoError::InvalidAccount)
    } else if now < p.start_time {
        Some(IdoError::SaleNotStarted)
    } else if now > p.end_time {
        Some(IdoError::SaleEnded)
    } else if p.price_per_token == 0 {
        Some(IdoError::InvalidPrice)
    } else if tokens_bought(currency_amount, p.price_per_token) == 0 {
        Some(IdoError::InsufficientPayment)
    } else if tokens_bought(currency_amount, p.price_per_token) > remaining_supply(p) {
        Some(IdoError::InsufficientTokenBalance)
    } else if p.total_raised + currency_amount > u64::MAX {
        Some(IdoError::ArithmeticOverflow)
    } else if ctx.user_purchase is Some && (ctx.user_purchase->0.amount_purchased
        + currency_amount > u64::MAX || ctx.user_purchase->0.tokens_to_claim + tokens_bought(
        currency_amount,
        p.price_per_token,
    ) > u64::MAX) {
        Some(IdoError::ArithmeticOverflow)
    } else {
        None
    }
}

/// The pool after a successful purchase: only the payment collected grows.
pub open spec fn pool_after_buy(p: PoolAccount, currency_amount: u64) -> PoolAccount {
    PoolAccount { total_raised: (p.total_raised + currency_amount) as u64, ..p }
}

/// The buyer's record after a successful purchase: created on the first one,
/// otherwise accumulated.
pub open spec fn purchase_after_buy(ctx: BuyTokens, pool_id: u64, currency_amount: u64) -> UserPurchase {
    let t = tokens_bought(currency_amount, ctx.pool_account.price_per_token);
    match ctx.user_purchase {
        None => UserPurchase {
            user: ctx.buyer,
            pool_id,
            amount_purchased: currency_amount,
            tokens_to_claim: t as u64,
            has_claimed: false,
        },
        Some(u) => UserPurchase {
            amount_purchased: (u.amount_purchased + currency_amount) as u64,
            tokens_to_claim: (u.tokens_to_claim + t) as u64,
            ..u
        },
    }
}

/// The payment that a successful purchase moves into the pool's escrow.
pub open spec fn buy_transfer(ctx: BuyTokens, currency_amount: u64) -> TokenTransfer {
    TokenTransfer {
        amount: currency_amount,
        from: ctx.buyer_currency_account.key,
        to: ctx.pool_currency_account.key,
        authority: Authority::Signer(ctx.buyer),
    }
}

/// Records a purchase of `currency_amount` at time `now`.
/// On success the records are updated and the payment transfer is returned;
/// on failure nothing changes.
pub fn process_buy_tokens(ctx: &mut BuyTokens, pool_id: u64, currency_amount: u64, now: i64) -> (r:
    Result<TokenTransfer, IdoError>)
    ensures
        match r {
            Ok(t) => {
                &&& buy_error(*old(ctx), pool_id, currency_amount, now) is None
                &&& t == buy_transfer(*old(ctx), currency_amount)
                &&& *final(ctx) == (BuyTokens {
                    pool_account: pool_after_buy(old(ctx).pool_account, currency_amount),
                    user_purchase: Some(purchase_after_buy(*old(ctx), pool_id, currency_amount)),
                    ..*old(ctx)
                })
            },
            Err(e) => {
                &&& buy_error(*old(ctx), pool_id, currency_amount, now) == Some(e)
                &&& *final(ctx) == *old(ctx)
            },
        },
{
    let p = ctx.pool_account;
    if p.pool_id != pool_id {
        return Err(IdoError::InvalidAccount);
    }
    if !p.is_active {
        return Err(IdoError::PoolNotActive);
    }
    if let Some(u) = ctx.user_purchase {
        if u.user != ctx.buyer || u.pool_id != pool_id {
            return Err(IdoError::InvalidAccount);
        }
    }
    if ctx.buyer_currency_account.mint != p.currency_mint || ctx.buyer_currency_account.owner
        != ctx.buyer || ctx.pool_currency_account.mint != p.currency_mint {
        return Err(IdoError::InvalidAccount);
    }
    if now < p.start_time {
        return Err(IdoError::SaleNotStarted);
    }
    if now > p.end_time {
        return Err(IdoError::SaleEnded);
    }
    let tokens_to_receive = match currency_amount.checked_div(p.price_per_token) {
        Some(t) => t,
        None => return Err(IdoError::InvalidPrice),
    };
    if tokens_to_receive == 0 {
        return Err(IdoError::InsufficientPayment);
    }
    let already_sold = p.total_raised / p.price_per_token;
    let remaining_tokens = match p.sale_amount.checked_sub(already_sold) {
        Some(rem) => rem,
        None => return Err(IdoError::InsufficientTokenBalance),
    };
    if tokens_to_receive > remaining_tokens {
        return Err(IdoError::InsufficientTokenBalance);
    }
    let total_raised = match p.total_raised.checked_add(currency_amount) {
        Some(v) => v,
        None => return Err(IdoError::ArithmeticOverflow),
    };
    let purchase = match ctx.user_purchase {
        None => UserPurchase {
            user: ctx.buyer,
            pool_id,
            amount_purchased: currency_amount,
            tokens_to_claim: tokens_to_receive,
            has_claimed: false,
        },
        Some(u) => {
            let amount_purchased = match u.amount_purchased.checked_add(currency_amount) {
                Some(v) => v,
                None => return Err(IdoError::ArithmeticOverflow),
            };
            let tokens_to_claim = match u.tokens_to_claim.checked_add(tokens_to_receive) {
                Some(v) => v,
                None => return Err(IdoError::ArithmeticOverflow),
            };
            UserPurchase { amount_purchased, tokens_to_claim, ..u }
        },
    };
    ctx.pool_account.total_raised = total_raised;
    ctx.user_purchase = Some(purchase);
    Ok(
        TokenTransfer {
            amount: currency_amount,
            from: ctx.buyer_currency_account.key,
            to: ctx.pool_currency_account.key,
            authority: Authority::Signer(ctx.buyer),
        },
    )
}

} // verus!
