use vstd::prelude::*;

use crate::error::IdoError;
use crate::state::{Address, Authority, PoolAccount, TokenAccount, TokenTransfer, UserPurchase};

verus! {

/// The records and holding accounts that a claim reads and writes.
#[derive(Clone, Copy, Debug)]
pub struct ClaimTokens {
    pub claimer: Address,
    pub pool_account: PoolAccount,
    pub user_purchase: UserPurchase,
    pub claimer_token_account: TokenAccount,
    /// The pool's escrow of the sale asset.
    pub pool_token_account: TokenAccount,
}

/// Why a claim at time `now` is refused, checked in this order; `None` when it succeeds.
pub open spec fn claim_error(ctx: ClaimTokens, pool_id: u64, now: i64) -> Option<IdoError> {
    let p = ctx.pool_account;
    let u = ctx.user_purchase;
    if p.pool_id != pool_id || u.user != ctx.claimer || u.pool_id != pool_id {
        Some(IdoError::InvalidAccount)
    } else if u.has_claimed {
        Some(IdoError::AlreadyClaimed)
    } else if u.tokens_to_claim == 0 {
        Some(IdoError::NothingToClaim)
    } else if ctx.claimer_token_account.mint != p.token_mint
        || ctx.claimer_token_account.owner != ctx.claimer
        || ctx.pool_token_account.mint != p.token_mint {
        Some(IdoError::InvalidAccount)
    } else if now < p.claim_time {
        Some(IdoError::ClaimNotAvailable)
    } else {
        None
    }
}

/// The release that a successful claim makes from escrow, signed by the pool's
/// derived authority.
pub open spec fn claim_transfer(ctx: ClaimTokens, pool_id: u64) -> TokenTransfer {
    TokenTransfer {
        amount: ctx.user_purchase.tokens_to_claim,
        from: ctx.pool_token_account.key,
        to: ctx.claimer_token_account.key,
        authority: Authority::PoolAuthority(pool_id),
    }
}

/// Settles the claimer's balance at time `now`: on success the record is marked
/// claimed and the release from escrow is returned; on failure nothing changes.
pub fn process_claim_tokens(ctx: &mut ClaimTokens, pool_id: u64, now: i64) -> (r: Result<
    TokenTransfer,
    IdoError,
>)
    ensures
        match r {
            Ok(t) => {
                &&& claim_error(*old(ctx), pool_id, now) is None
                &&& t == claim_transfer(*old(ctx), pool_id)
                &&& *final(ctx) == (ClaimTokens {
                    user_purchase: UserPurchase { has_claimed: true, ..old(ctx).user_purchase },
                    ..*old(ctx)
                })
            },
            Err(e) => {
                &&& claim_error(*old(ctx), pool_id, now) == Some(e)
                &&& *final(ctx) == *old(ctx)
            },
        },
{
    let p = ctx.pool_account;
    let u = ctx.user_purchase;
    if p.pool_id != pool_id || u.user != ctx.claimer || u.pool_id != pool_id {
        return Err(IdoError::InvalidAccount);
    }
    if u.has_claimed {
        return Err(IdoError::AlreadyClaimed);
    }
    if u.tokens_to_claim == 0 {
        return Err(IdoError::NothingToClaim);
    }
    if ctx.claimer_token_account.mint != p.token_mint || ctx.claimer_token_account.owner
        != ctx.claimer || ctx.pool_token_account.mint != p.token_mint {
        return Err(IdoError::InvalidAccount);
    }
    if now < p.claim_time {
        return Err(IdoError::ClaimNotAvailable);
    }
    let transfer = TokenTransfer {
        amount: u.tokens_to_claim,
        from: ctx.pool_token_account.key,
        to: ctx.claimer_token_account.key,
        authority: Authority::PoolAuthority(pool_id),
    };
    ctx.user_purchase.has_claimed = true;
    Ok(transfer)
}

} // verus!
