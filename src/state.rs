use vstd::prelude::*;

verus! {

/// A 32-byte account address (a public key).
#[derive(Clone, Copy, Debug)]
pub struct Address {
    pub bytes: [u8; 32],
}

impl PartialEq for Address {
    fn eq(&self, o: &Address) -> (r: bool) {
        let mut i: usize = 0;
        while i < 32
            invariant
                0 <= i <= 32,
                forall|j: int| 0 <= j < i ==> self.bytes[j] == o.bytes[j],
            decreases 32 - i,
        {
            if self.bytes[i] != o.bytes[i] {
                return false;
            }
            i = i + 1;
        }
        assert(self.bytes =~= o.bytes);
        true
    }
}

impl vstd::std_specs::cmp::PartialEqSpecImpl for Address {
    open spec fn obeys_eq_spec() -> bool {
        true
    }

    open spec fn eq_spec(&self, o: &Address) -> bool {
        *self == *o
    }
}

impl Eq for Address {
}

/// The platform's one-time configuration: its owner and the sole pool creator.
#[derive(Clone, Copy, Debug, PartialEq, Eq)]
pub struct ConfigAccount {
    pub owner: Address,
    pub creator: Address,
}

/// What the instructions read of a token holding account.
#[derive(Clone, Copy, Debug, PartialEq, Eq)]
pub struct TokenAccount {
    /// The holding account's own address.
    pub key: Address,
    /// The asset that the account holds.
    pub mint: Address,
    /// The address allowed to move the account's funds.
    pub owner: Address,
    pub amount: u64,
}

/// One sale: its schedule, supply, price and the payment collected so far.
#[derive(Clone, Copy, Debug, PartialEq, Eq)]
pub struct PoolAccount {
    pub pool_id: u64,
    pub creator: Address,
    pub start_time: i64,
    pub end_time: i64,
    pub claim_time: i64,
    /// Total units of the sale asset offered.
    pub sale_amount: u64,
    /// Payment-asset units per sale-asset unit.
    pub price_per_token: u64,
    /// The payment asset.
    pub currency_mint: Address,
    /// The sale asset.
    pub token_mint: Address,
    /// Total payment received.
    pub total_raised: u64,
    pub is_active: bool,
}

/// What one buyer has paid into one pool and is owed from it.
#[derive(Clone, Copy, Debug, PartialEq, Eq)]
pub struct UserPurchase {
    pub user: Address,
    pub pool_id: u64,
    /// Payment-asset units paid in.
    pub amount_purchased: u64,
    /// Sale-asset units owed.
    pub tokens_to_claim: u64,
    pub has_claimed: bool,
}

/// Who signs a token transfer.
#[derive(Clone, Copy, Debug, PartialEq, Eq)]
pub enum Authority {
    /// An ordinary signer of the transaction.
    Signer(Address),
    /// The pool's derived authority, computed from its identifier and a fixed tag.
    PoolAuthority(u64),
}

/// A movement of `amount` units between two holding accounts that an
/// instruction asks the token ledger to perform.
#[derive(Clone, Copy, Debug, PartialEq, Eq)]
pub struct TokenTransfer {
    pub amount: u64,
    pub from: Address,
    pub to: Address,
    pub authority: Authority,
}

/// A pool's well-formedness: the schedule is ordered and supply and price are positive.
pub open spec fn pool_wf(p: PoolAccount) -> bool {
    &&& p.start_time < p.end_time
    &&& p.end_time <= p.claim_time
    &&& p.sale_amount > 0
    &&& p.price_per_token > 0
}

} // verus!
