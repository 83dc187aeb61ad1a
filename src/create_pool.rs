use vstd::prelude::*;

use crate::error::IdoError;
use crate::state::{Address, ConfigAccount, PoolAccount, TokenAccount};

verus! {

/// The signer and accounts that opening a pool reads.
#[derive(Clone, Copy, Debug)]
pub struct CreatePool {
    pub creator: Address,
    /// The payment asset.
    pub currency_mint: Address,
    /// The sale asset.
    pub token_mint: Address,
    /// The creator's holding of the sale asset.
    pub creator_token_account: TokenAccount,
}

/// Why opening a pool at time `now` is refused, checked in this order; `None`
/// when it succeeds.
pub open spec fn create_error(
    config: ConfigAccount,
    ctx: CreatePool,
    start_time: i64,
    end_time: i64,
    claim_time: i64,
    sale_amount: u64,
    price_per_token: u64,
    now: i64,
) -> Option<IdoError> {
    if config.creator != ctx.creator {
        Some(IdoError::UnauthorizedCreator)
    } else if ctx.creator_token_account.mint != ctx.token_mint
        || ctx.creator_token_account.owner != ctx.creator {
        Some(IdoError::InvalidAccount)
    } else if start_time <= now {
        Some(IdoError::InvalidStartTime)
    } else if end_time <= start_time {
        Some(IdoError::InvalidEndTime)
    } else if claim_time < end_time {
        Some(IdoError::InvalidClaimTime)
    } else if sale_amount == 0 {
        Some(IdoError::InvalidSaleAmount)
    } else if price_per_token == 0 {
        Some(IdoError::InvalidPrice)
    } else if ctx.creator_token_account.amount < sale_amount {
        Some(IdoError::InsufficientTokenBalance)
    } else {
        None
    }
}

/// The record of a freshly opened pool: nothing raised yet, and active.
pub open spec fn new_pool(
    ctx: CreatePool,
    pool_id: u64,
    start_time: i64,
    end_time: i64,
    claim_time: i64,
    sale_amount: u64,
    price_per_token: u64,
) -> PoolAccount {
    PoolAccount {
        pool_id,
        creator: ctx.creator,
        start_time,
        end_time,
        claim_time,
        sale_amount,
        price_per_token,
        currency_mint: ctx.currency_mint,
        token_mint: ctx.token_mint,
        total_raised: 0,
        is_active: true,
    }
}

/// Validates the opening of a pool at time `now` and returns its record.
pub fn process_create_pool(
    config: &ConfigAccount,
    ctx: &CreatePool,
    pool_id: u64,
    start_time: i64,
    end_time: i64,
    claim_time: i64,
    sale_amount: u64,
    price_per_token: u64,
    now: i64,
) -> (r: Result<PoolAccount, IdoError>)
    ensures
        match r {
            Ok(p) => {
                &&& create_error(
                    *config,
                    *ctx,
                    start_time,
                    end_time,
                    claim_time,
                    sale_amount,
                    price_per_token,
                    now,
                ) is None
                &&& p == new_pool(
                    *ctx,
                    pool_id,
                    start_time,
                    end_time,
                    claim_time,
                    sale_amount,
                    price_per_token,
                )
            },
            Err(e) => create_error(
                *config,
                *ctx,
                start_time,
                end_time,
                claim_time,
                sale_amount,
                price_per_token,
                now,
            ) == Some(e),
        },
{
    if config.creator != ctx.creator {
        return Err(IdoError::UnauthorizedCreator);
    }
    if ctx.creator_token_account.mint != ctx.token_mint || ctx.creator_token_account.owner
        != ctx.creator {
        return Err(IdoError::InvalidAccount);
    }
    if start_time <= now {
        return Err(IdoError::InvalidStartTime);
    }
    if end_time <= start_time {
        return Err(IdoError::InvalidEndTime);
    }
    if claim_time < end_time {
        return Err(IdoError::InvalidClaimTime);
    }
    if sale_amount == 0 {
        return Err(IdoError::InvalidSaleAmount);
    }
    if price_per_token == 0 {
        return Err(IdoError::InvalidPrice);
    }
    if ctx.creator_token_account.amount < sale_amount {
        return Err(IdoError::InsufficientTokenBalance);
    }
    Ok(
        PoolAccount {
            pool_id,
            creator: ctx.creator,
            start_time,
            end_time,
            claim_time,
            sale_amount,
            price_per_token,
            currency_mint: ctx.currency_mint,
            token_mint: ctx.token_mint,
            total_raised: 0,
            is_active: true,
        },
    )
}

} // verus!
