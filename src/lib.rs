//! A timed primary token sale: pools are opened by the configured creator,
//! funded with their whole supply, bought into during the sale window and
//! settled once per buyer during the claim window. Token movements are returned
//! as `TokenTransfer` values for the host ledger to perform.
use vstd::prelude::*;

pub mod buy_tokens;
pub mod claim_tokens;
pub mod create_pool;
pub mod error;
pub mod fund_pool;
pub mod laws;
pub mod ledger;
pub mod state;

pub use buy_tokens::{process_buy_tokens, BuyTokens};
pub use claim_tokens::{process_claim_tokens, ClaimTokens};
pub use create_pool::{process_create_pool, CreatePool};
pub use error::IdoError;
pub use fund_pool::{process_fund_pool, FundPool};
pub use ledger::{buy_tokens, claim_tokens, create_pool, fund_pool, initialize, Platform};
pub use state::{
    Address,
    Authority,
    ConfigAccount,
    PoolAccount,
    TokenAccount,
    TokenTransfer,
    UserPurchase,
};

verus! {

} // verus!
