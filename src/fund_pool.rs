use vstd::prelude::*;

use crate::error::IdoError;
use crate::state::{Address, Authority, PoolAccount, TokenAccount, TokenTransfer};

verus! {

/// The records and holding accounts that funding a pool reads.
#[derive(Clone, Copy, Debug)]
pub struct FundPool {
    pub creator: Address,
    pub pool_account: PoolAccount,
    pub creator_token_account: TokenAccount,
    /// The pool's escrow of the sale asset.
    pub pool_token_account: TokenAccount,
}

/// Why funding the pool with `amount` is refused, checked in this order; `None`
/// when it succeeds.
pub open spec fn fund_error(ctx: FundPool, pool_id: u64, amount: u64) -> Option<IdoError> {
    let p = ctx.pool_account;
    if p.pool_id != pool_id {
        Some(IdoError::InvalidAccount)
    } else if p.creator != ctx.creator {
        Some(IdoError::UnauthorizedCreator)
    } else if ctx.creator_token_account.mint != p.token_mint
        || ctx.creator_token_account.owner != ctx.creator
        || ctx.pool_token_account.mint != p.token_mint {
        Some(IdoError::InvalidAccount)
    } else if amount != p.sale_amount {
        Some(IdoError::InvalidSaleAmount)
    } else {
        None
    }
}

/// The movement of the whole sale supply from the creator into escrow.
pub open spec fn fund_transfer(ctx: FundPool, amount: u64) -> TokenTransfer {
    TokenTransfer {
        amount,
        from: ctx.creator_token_account.key,
        to: ctx.pool_token_account.key,
        authority: Authority::Signer(ctx.creator),
    }
}

/// Checks a funding of the pool's escrow by its creator and returns the transfer
/// to perform. Only the exact sale amount is accepted.
pub fn process_fund_pool(ctx: &FundPool, pool_id: u64, amount: u64) -> (r: Result<
    TokenTransfer,
    IdoError,
>)
    ensures
        match r {
            Ok(t) => fund_error(*ctx, pool_id, amount) is None && t == fund_transfer(*ctx, amount),
            Err(e) => fund_error(*ctx, pool_id, amount) == Some(e),
        },
{
    let p = ctx.pool_account;
    if p.pool_id != pool_id {
        return Err(IdoError::InvalidAccount);
    }
    if p.creator != ctx.creator {
        return Err(IdoError::UnauthorizedCreator);
    }
    if ctx.creator_token_account.mint != p.token_mint || ctx.creator_token_account.owner
        != ctx.creator || ctx.pool_token_account.mint != p.token_mint {
        return Err(IdoError::InvalidAccount);
    }
    if amount != p.sale_amount {
        return Err(IdoError::InvalidSaleAmount);
    }
    Ok(
        TokenTransfer {
            amount,
            from: ctx.creator_token_account.key,
            to: ctx.pool_token_account.key,
            authority: Authority::Signer(ctx.creator),
        },
    )
}

} // verus!
