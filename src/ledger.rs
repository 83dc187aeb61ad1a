use vstd::prelude::*;

use crate::buy_tokens::{
    buy_error,
    buy_transfer,
    pool_after_buy,
    process_buy_tokens,
    purchase_after_buy,
    remaining_supply,
    tokens_bought,
    BuyTokens,
};
use crate::claim_tokens::{claim_error, claim_transfer, process_claim_tokens, ClaimTokens};
use crate::create_pool::{create_error, new_pool, process_create_pool, CreatePool};
use crate::error::IdoError;
use crate::fund_pool::{fund_error, fund_transfer, process_fund_pool, FundPool};
use crate::state::{pool_wf, Address, ConfigAccount, PoolAccount, TokenAccount, TokenTransfer, UserPurchase};

verus! {

/// Payment collected from the records of pool `pool_id` in `s`.
pub open spec fn raised_in(s: Seq<UserPurchase>, pool_id: u64) -> int
    decreases s.len(),
{
    if s.len() == 0 {
        0
    } else {
        raised_in(s.drop_last(), pool_id) + if s.last().pool_id == pool_id {
            s.last().amount_purchased as int
        } else {
            0
        }
    }
}

/// Sale-asset units owed by the records of pool `pool_id` in `s`.
pub open spec fn owed_in(s: Seq<UserPurchase>, pool_id: u64) -> int
    decreases s.len(),
{
    if s.len() == 0 {
        0
    } else {
        owed_in(s.drop_last(), pool_id) + if s.last().pool_id == pool_id {
            s.last().tokens_to_claim as int
        } else {
            0
        }
    }
}

/// Index of the pool `pool_id` in `pools`, or -1 when there is none.
pub open spec fn find_pool(pools: Seq<PoolAccount>, pool_id: u64) -> int
    decreases pools.len(),
{
    if pools.len() == 0 {
        -1
    } else if pools.last().pool_id == pool_id {
        pools.len() - 1
    } else {
        find_pool(pools.drop_last(), pool_id)
    }
}

/// Index of `user`'s record in pool `pool_id`, or -1 when there is none.
pub open spec fn find_purchase(s: Seq<UserPurchase>, user: Address, pool_id: u64) -> int
    decreases s.len(),
{
    if s.len() == 0 {
        -1
    } else if s.last().user == user && s.last().pool_id == pool_id {
        s.len() - 1
    } else {
        find_purchase(s.drop_last(), user, pool_id)
    }
}

/// The accounting of one pool agrees with the purchase records: the payment
/// collected is their sum, and what they are owed fits both the supply and what
/// the payment buys at the pool's price.
pub open spec fn pool_balanced(p: PoolAccount, s: Seq<UserPurchase>) -> bool {
    &&& pool_wf(p)
    &&& p.total_raised == raised_in(s, p.pool_id)
    &&& owed_in(s, p.pool_id) <= p.total_raised as int / p.price_per_token as int
    &&& owed_in(s, p.pool_id) <= p.sale_amount
}

pub(crate) proof fn lemma_find_pool(pools: Seq<PoolAccount>, pool_id: u64)
    ensures
        -1 <= find_pool(pools, pool_id) < pools.len(),
        find_pool(pools, pool_id) >= 0 ==> pools[find_pool(pools, pool_id)].pool_id == pool_id,
        find_pool(pools, pool_id) == -1 ==> forall|j: int|
            0 <= j < pools.len() ==> pools[j].pool_id != pool_id,
    decreases pools.len(),
{
    if pools.len() > 0 {
        lemma_find_pool(pools.drop_last(), pool_id);
        if find_pool(pools, pool_id) == -1 {
            assert forall|j: int| 0 <= j < pools.len() implies pools[j].pool_id != pool_id by {
                if j < pools.len() - 1 {
                    assert(pools[j] == pools.drop_last()[j]);
                }
            }
        }
    }
}

pub(crate) proof fn lemma_find_purchase(s: Seq<UserPurchase>, user: Address, pool_id: u64)
    ensures
        -1 <= find_purchase(s, user, pool_id) < s.len(),
        find_purchase(s, user, pool_id) >= 0 ==> s[find_purchase(s, user, pool_id)].user == user
            && s[find_purchase(s, user, pool_id)].pool_id == pool_id,
        find_purchase(s, user, pool_id) == -1 ==> forall|j: int|
            0 <= j < s.len() ==> !(s[j].user == user && s[j].pool_id == pool_id),
    decreases s.len(),
{
    if s.len() > 0 {
        lemma_find_purchase(s.drop_last(), user, pool_id);
        if find_purchase(s, user, pool_id) == -1 {
            assert forall|j: int| 0 <= j < s.len() implies !(s[j].user == user && s[j].pool_id
                == pool_id) by {
                if j < s.len() - 1 {
                    assert(s[j] == s.drop_last()[j]);
                }
            }
        }
    }
}

pub(crate) proof fn lemma_find_purchase_update(
    s: Seq<UserPurchase>,
    k: int,
    v: UserPurchase,
    user: Address,
    pool_id: u64,
)
    requires
        0 <= k < s.len(),
        v.user == s[k].user,
        v.pool_id == s[k].pool_id,
    ensures
        find_purchase(s.update(k, v), user, pool_id) == find_purchase(s, user, pool_id),
    decreases s.len(),
{
    let t = s.update(k, v);
    if k == s.len() - 1 {
        assert(t.drop_last() =~= s.drop_last());
    } else {
        assert(t.drop_last() =~= s.drop_last().update(k, v));
        lemma_find_purchase_update(s.drop_last(), k, v, user, pool_id);
    }
}

proof fn lemma_sums_update(s: Seq<UserPurchase>, k: int, v: UserPurchase, pool_id: u64)
    requires
        0 <= k < s.len(),
    ensures
        raised_in(s.update(k, v), pool_id) == raised_in(s, pool_id) - (if s[k].pool_id == pool_id {
            s[k].amount_purchased as int
        } else {
            0
        }) + (if v.pool_id == pool_id {
            v.amount_purchased as int
        } else {
            0
        }),
        owed_in(s.update(k, v), pool_id) == owed_in(s, pool_id) - (if s[k].pool_id == pool_id {
            s[k].tokens_to_claim as int
        } else {
            0
        }) + (if v.pool_id == pool_id {
            v.tokens_to_claim as int
        } else {
            0
        }),
    decreases s.len(),
{
    let t = s.update(k, v);
    if k == s.len() - 1 {
        assert(t.drop_last() =~= s.drop_last());
    } else {
        assert(t.drop_last() =~= s.drop_last().update(k, v));
        lemma_sums_update(s.drop_last(), k, v, pool_id);
    }
}

proof fn lemma_sums_push(s: Seq<UserPurchase>, v: UserPurchase, pool_id: u64)
    ensures
        raised_in(s.push(v), pool_id) == raised_in(s, pool_id) + (if v.pool_id == pool_id {
            v.amount_purchased as int
        } else {
            0
        }),
        owed_in(s.push(v), pool_id) == owed_in(s, pool_id) + (if v.pool_id == pool_id {
            v.tokens_to_claim as int
        } else {
            0
        }),
{
    assert(s.push(v).drop_last() =~= s);
}

proof fn lemma_sums_absent(s: Seq<UserPurchase>, pool_id: u64)
    requires
        forall|k: int| 0 <= k < s.len() ==> #[trigger] s[k].pool_id != pool_id,
    ensures
        raised_in(s, pool_id) == 0,
        owed_in(s, pool_id) == 0,
    decreases s.len(),
{
    if s.len() > 0 {
        assert(s.last().pool_id != pool_id);
        assert forall|k: int| 0 <= k < s.drop_last().len() implies #[trigger] s.drop_last()[k].pool_id
            != pool_id by {
            assert(s.drop_last()[k] == s[k]);
        }
        lemma_sums_absent(s.drop_last(), pool_id);
    }
}

proof fn lemma_find_pool_push(pools: Seq<PoolAccount>, p: PoolAccount, pool_id: u64)
    ensures
        find_pool(pools.push(p), pool_id) == if p.pool_id == pool_id {
            pools.len() as int
        } else {
            find_pool(pools, pool_id)
        },
{
    assert(pools.push(p).drop_last() =~= pools);
}

pub(crate) proof fn lemma_find_pool_update(pools: Seq<PoolAccount>, i: int, p: PoolAccount, pool_id: u64)
    requires
        0 <= i < pools.len(),
        p.pool_id == pools[i].pool_id,
    ensures
        find_pool(pools.update(i, p), pool_id) == find_pool(pools, pool_id),
    decreases pools.len(),
{
    let t = pools.update(i, p);
    if i == pools.len() - 1 {
        assert(t.drop_last() =~= pools.drop_last());
    } else {
        assert(t.drop_last() =~= pools.drop_last().update(i, p));
        lemma_find_pool_update(pools.drop_last(), i, p, pool_id);
    }
}

/// Whole tokens bought separately never exceed what the combined payment buys.
proof fn lemma_floor_sum(owed: int, total: int, amount: int, price: int)
    requires
        price > 0,
        total >= 0,
        amount >= 0,
        owed <= total / price,
    ensures
        owed + amount / price <= (total + amount) / price,
{
    assert(price * (total / price) <= total) by (nonlinear_arith)
        requires
            price > 0,
            total >= 0,
    ;
    assert(price * (amount / price) <= amount) by (nonlinear_arith)
        requires
            price > 0,
            amount >= 0,
    ;
    let q = total / price + amount / price;
    assert(price * q <= total + amount) by (nonlinear_arith)
        requires
            price * (total / price) <= total,
            price * (amount / price) <= amount,
            q == total / price + amount / price,
    ;
    assert(q <= (total + amount) / price) by (nonlinear_arith)
        requires
            price > 0,
            price * q <= total + amount,
            total + amount >= 0,
    ;
}

/// Every record that the sale program keeps: the configuration, one record per
/// pool, and one purchase record per buyer and pool.
pub struct Platform {
    pub config: Option<ConfigAccount>,
    pub pools: Vec<PoolAccount>,
    pub purchases: Vec<UserPurchase>,
}

/// The records of a `Platform` as mathematical sequences.
pub struct PlatformModel {
    pub config: Option<ConfigAccount>,
    pub pools: Seq<PoolAccount>,
    pub purchases: Seq<UserPurchase>,
}

impl View for Platform {
    type V = PlatformModel;

    open spec fn view(&self) -> PlatformModel {
        PlatformModel { config: self.config, pools: self.pools@, purchases: self.purchases@ }
    }
}

impl PlatformModel {
    /// Pool identifiers are unique, a buyer has at most one record per pool, and
    /// every pool's accounting agrees with its purchase records.
    pub open spec fn wf(self) -> bool {
        &&& forall|i: int, j: int|
            0 <= i < j < self.pools.len() ==> self.pools[i].pool_id != self.pools[j].pool_id
        &&& forall|i: int, j: int|
            0 <= i < j < self.purchases.len() ==> !(self.purchases[i].user
                == self.purchases[j].user && self.purchases[i].pool_id
                == self.purchases[j].pool_id)
        &&& forall|i: int|
            0 <= i < self.pools.len() ==> pool_balanced(#[trigger] self.pools[i], self.purchases)
        &&& forall|k: int|
            0 <= k < self.purchases.len() ==> find_pool(
                self.pools,
                #[trigger] self.purchases[k].pool_id,
            ) >= 0
    }

    /// The record of pool `pool_id`, if it exists.
    pub open spec fn pool(self, pool_id: u64) -> Option<PoolAccount> {
        let i = find_pool(self.pools, pool_id);
        if i >= 0 {
            Some(self.pools[i])
        } else {
            None
        }
    }

    /// `user`'s record in pool `pool_id`, if it exists.
    pub open spec fn purchase(self, user: Address, pool_id: u64) -> Option<UserPurchase> {
        let k = find_purchase(self.purchases, user, pool_id);
        if k >= 0 {
            Some(self.purchases[k])
        } else {
            None
        }
    }

    /// Why opening pool `pool_id` is refused, checked in this order; `None` when
    /// it succeeds.
    pub open spec fn create_pool_error(
        self,
        ctx: CreatePool,
        pool_id: u64,
        start_time: i64,
        end_time: i64,
        claim_time: i64,
        sale_amount: u64,
        price_per_token: u64,
        now: i64,
    ) -> Option<IdoError> {
        match self.config {
            None => Some(IdoError::ConfigNotInitialized),
            Some(config) => if config.creator != ctx.creator {
                Some(IdoError::UnauthorizedCreator)
            } else if self.pool(pool_id) is Some {
                Some(IdoError::PoolAlreadyExists)
            } else {
                create_error(
                    config,
                    ctx,
                    start_time,
                    end_time,
                    claim_time,
                    sale_amount,
                    price_per_token,
                    now,
                )
            },
        }
    }
}

impl PlatformModel {
    /// The records and accounts that funding pool `pool_id` reads.
    pub open spec fn fund_context(
        self,
        creator: Address,
        creator_token_account: TokenAccount,
        pool_token_account: TokenAccount,
        pool_id: u64,
    ) -> FundPool {
        FundPool {
            creator,
            pool_account: self.pool(pool_id)->0,
            creator_token_account,
            pool_token_account,
        }
    }

    /// Why funding pool `pool_id` with `amount` is refused; `None` when it succeeds.
    pub open spec fn fund_pool_error(
        self,
        creator: Address,
        creator_token_account: TokenAccount,
        pool_token_account: TokenAccount,
        pool_id: u64,
        amount: u64,
    ) -> Option<IdoError> {
        if self.pool(pool_id) is None {
            Some(IdoError::PoolNotFound)
        } else {
            fund_error(
                self.fund_context(creator, creator_token_account, pool_token_account, pool_id),
                pool_id,
                amount,
            )
        }
    }

    /// The records and accounts that a purchase in pool `pool_id` reads.
    pub open spec fn buy_context(
        self,
        buyer: Address,
        buyer_currency_account: TokenAccount,
        pool_currency_account: TokenAccount,
        pool_id: u64,
    ) -> BuyTokens {
        BuyTokens {
            buyer,
            pool_account: self.pool(pool_id)->0,
            user_purchase: self.purchase(buyer, pool_id),
            buyer_currency_account,
            pool_currency_account,
        }
    }

    /// Why a purchase in pool `pool_id` is refused; `None` when it succeeds.
    pub open spec fn buy_tokens_error(
        self,
        buyer: Address,
        buyer_currency_account: TokenAccount,
        pool_currency_account: TokenAccount,
        pool_id: u64,
        currency_amount: u64,
        now: i64,
    ) -> Option<IdoError> {
        if self.pool(pool_id) is None {
            Some(IdoError::PoolNotFound)
        } else {
            buy_error(
                self.buy_context(buyer, buyer_currency_account, pool_currency_account, pool_id),
                pool_id,
                currency_amount,
                now,
            )
        }
    }

    /// The records after a successful purchase: the pool's payment grows and the
    /// buyer's record is created or accumulated.
    pub open spec fn after_buy(
        self,
        buyer: Address,
        buyer_currency_account: TokenAccount,
        pool_currency_account: TokenAccount,
        pool_id: u64,
        currency_amount: u64,
    ) -> PlatformModel {
        let ctx = self.buy_context(buyer, buyer_currency_account, pool_currency_account, pool_id);
        let u = purchase_after_buy(ctx, pool_id, currency_amount);
        let k = find_purchase(self.purchases, buyer, pool_id);
        PlatformModel {
            pools: self.pools.update(
                find_pool(self.pools, pool_id),
                pool_after_buy(ctx.pool_account, currency_amount),
            ),
            purchases: if k >= 0 {
                self.purchases.update(k, u)
            } else {
                self.purchases.push(u)
            },
            ..self
        }
    }

    /// The records and accounts that a claim in pool `pool_id` reads.
    pub open spec fn claim_context(
        self,
        claimer: Address,
        claimer_token_account: TokenAccount,
        pool_token_account: TokenAccount,
        pool_id: u64,
    ) -> ClaimTokens {
        ClaimTokens {
            claimer,
            pool_account: self.pool(pool_id)->0,
            user_purchase: self.purchase(claimer, pool_id)->0,
            claimer_token_account,
            pool_token_account,
        }
    }

    /// Why a claim in pool `pool_id` is refused; `None` when it succeeds.
    pub open spec fn claim_tokens_error(
        self,
        claimer: Address,
        claimer_token_account: TokenAccount,
        pool_token_account: TokenAccount,
        pool_id: u64,
        now: i64,
    ) -> Option<IdoError> {
        if self.pool(pool_id) is None {
            Some(IdoError::PoolNotFound)
        } else if self.purchase(claimer, pool_id) is None {
            Some(IdoError::PurchaseNotFound)
        } else {
            claim_error(
                self.claim_context(claimer, claimer_token_account, pool_token_account, pool_id),
                pool_id,
                now,
            )
        }
    }

    /// The records after a successful claim: the claimer's record is marked claimed.
    pub open spec fn after_claim(self, claimer: Address, pool_id: u64) -> PlatformModel {
        let k = find_purchase(self.purchases, claimer, pool_id);
        PlatformModel {
            purchases: self.purchases.update(
                k,
                UserPurchase { has_claimed: true, ..self.purchases[k] },
            ),
            ..self
        }
    }
}

pub(crate) proof fn lemma_buy_preserves_wf(
    m: PlatformModel,
    buyer: Address,
    buyer_currency_account: TokenAccount,
    pool_currency_account: TokenAccount,
    pool_id: u64,
    currency_amount: u64,
    now: i64,
)
    requires
        m.wf(),
        m.buy_tokens_error(
            buyer,
            buyer_currency_account,
            pool_currency_account,
            pool_id,
            currency_amount,
            now,
        ) is None,
    ensures
        m.after_buy(buyer, buyer_currency_account, pool_currency_account, pool_id, currency_amount).wf(),
{
    let i = find_pool(m.pools, pool_id);
    let k = find_purchase(m.purchases, buyer, pool_id);
    lemma_find_pool(m.pools, pool_id);
    lemma_find_purchase(m.purchases, buyer, pool_id);
    let ctx = m.buy_context(buyer, buyer_currency_account, pool_currency_account, pool_id);
    let p = m.pools[i];
    let p2 = pool_after_buy(p, currency_amount);
    let u2 = purchase_after_buy(ctx, pool_id, currency_amount);
    let t = tokens_bought(currency_amount, p.price_per_token);
    let m2 = m.after_buy(buyer, buyer_currency_account, pool_currency_account, pool_id, currency_amount);
    assert(u2.pool_id == pool_id && u2.user == buyer);
    assert forall|id: u64| id != pool_id implies raised_in(m2.purchases, id) == raised_in(
        m.purchases,
        id,
    ) && owed_in(m2.purchases, id) == owed_in(m.purchases, id) by {
        if k >= 0 {
            lemma_sums_update(m.purchases, k, u2, id);
        } else {
            lemma_sums_push(m.purchases, u2, id);
        }
    }
    if k >= 0 {
        lemma_sums_update(m.purchases, k, u2, pool_id);
    } else {
        lemma_sums_push(m.purchases, u2, pool_id);
    }
    assert(raised_in(m2.purchases, pool_id) == raised_in(m.purchases, pool_id) + currency_amount);
    assert(owed_in(m2.purchases, pool_id) == owed_in(m.purchases, pool_id) + t);
    assert(pool_balanced(p, m.purchases));
    lemma_floor_sum(
        owed_in(m.purchases, pool_id),
        p.total_raised as int,
        currency_amount as int,
        p.price_per_token as int,
    );
    assert(t <= remaining_supply(p));
    assert(pool_balanced(p2, m2.purchases));
    assert forall|j: int| 0 <= j < m2.pools.len() implies pool_balanced(
        #[trigger] m2.pools[j],
        m2.purchases,
    ) by {
        if j != i {
            assert(m2.pools[j] == m.pools[j]);
            assert(pool_balanced(m.pools[j], m.purchases));
        }
    }
    assert forall|a: int, b: int| 0 <= a < b < m2.purchases.len() implies !(m2.purchases[a].user
        == m2.purchases[b].user && m2.purchases[a].pool_id == m2.purchases[b].pool_id) by {
        if k < 0 && b == m.purchases.len() {
            assert(m2.purchases[a] == m.purchases[a]);
        }
    }
    assert forall|c: int| 0 <= c < m2.purchases.len() implies find_pool(
        m2.pools,
        #[trigger] m2.purchases[c].pool_id,
    ) >= 0 by {
        lemma_find_pool_update(m.pools, i, p2, m2.purchases[c].pool_id);
        if c < m.purchases.len() && c != k {
            assert(m2.purchases[c] == m.purchases[c]);
        }
    }
}

proof fn lemma_claim_preserves_wf(m: PlatformModel, claimer: Address, pool_id: u64)
    requires
        m.wf(),
        m.purchase(claimer, pool_id) is Some,
    ensures
        m.after_claim(claimer, pool_id).wf(),
{
    let k = find_purchase(m.purchases, claimer, pool_id);
    lemma_find_purchase(m.purchases, claimer, pool_id);
    let m2 = m.after_claim(claimer, pool_id);
    let u2 = UserPurchase { has_claimed: true, ..m.purchases[k] };
    assert forall|id: u64| raised_in(m2.purchases, id) == raised_in(m.purchases, id) && owed_in(
        m2.purchases,
        id,
    ) == owed_in(m.purchases, id) by {
        lemma_sums_update(m.purchases, k, u2, id);
    }
    assert forall|j: int| 0 <= j < m2.pools.len() implies pool_balanced(
        #[trigger] m2.pools[j],
        m2.purchases,
    ) by {
        assert(pool_balanced(m.pools[j], m.purchases));
    }
    assert forall|c: int| 0 <= c < m2.purchases.len() implies find_pool(
        m2.pools,
        #[trigger] m2.purchases[c].pool_id,
    ) >= 0 by {
        if c != k {
            assert(m2.purchases[c] == m.purchases[c]);
        }
    }
}

impl Platform {
    /// A platform with no configuration and no records.
    pub fn new() -> (r: Platform)
        ensures
            r@.config is None,
            r@.pools.len() == 0,
            r@.purchases.len() == 0,
            r@.wf(),
    {
        Platform { config: None, pools: Vec::new(), purchases: Vec::new() }
    }

    fn pool_index(&self, pool_id: u64) -> (r: Option<usize>)
        ensures
            match r {
                Some(i) => i as int == find_pool(self.pools@, pool_id),
                None => find_pool(self.pools@, pool_id) == -1,
            },
    {
        let mut i: usize = self.pools.len();
        assert(self.pools@.subrange(0, i as int) =~= self.pools@);
        while i > 0
            invariant
                i <= self.pools.len(),
                find_pool(self.pools@, pool_id) == find_pool(
                    self.pools@.subrange(0, i as int),
                    pool_id,
                ),
            decreases i,
        {
            let ghost s = self.pools@.subrange(0, i as int);
            assert(s.drop_last() =~= self.pools@.subrange(0, i - 1));
            if self.pools[i - 1].pool_id == pool_id {
                return Some(i - 1);
            }
            i = i - 1;
        }
        None
    }

    fn purchase_index(&self, user: Address, pool_id: u64) -> (r: Option<usize>)
        ensures
            match r {
                Some(k) => k as int == find_purchase(self.purchases@, user, pool_id),
                None => find_purchase(self.purchases@, user, pool_id) == -1,
            },
    {
        let mut k: usize = self.purchases.len();
        assert(self.purchases@.subrange(0, k as int) =~= self.purchases@);
        while k > 0
            invariant
                k <= self.purchases.len(),
                find_purchase(self.purchases@, user, pool_id) == find_purchase(
                    self.purchases@.subrange(0, k as int),
                    user,
                    pool_id,
                ),
            decreases k,
        {
            let ghost s = self.purchases@.subrange(0, k as int);
            assert(s.drop_last() =~= self.purchases@.subrange(0, k - 1));
            let u = self.purchases[k - 1];
            if u.user == user && u.pool_id == pool_id {
                return Some(k - 1);
            }
            k = k - 1;
        }
        None
    }

    /// The record of pool `pool_id`, if it exists.
    pub fn pool(&self, pool_id: u64) -> (r: Option<PoolAccount>)
        ensures
            r == self@.pool(pool_id),
    {
        proof {
            lemma_find_pool(self.pools@, pool_id);
        }
        match self.pool_index(pool_id) {
            Some(i) => Some(self.pools[i]),
            None => None,
        }
    }

    /// `user`'s purchase record in pool `pool_id`, if it exists.
    pub fn user_purchase(&self, user: Address, pool_id: u64) -> (r: Option<UserPurchase>)
        ensures
            r == self@.purchase(user, pool_id),
    {
        proof {
            lemma_find_purchase(self.purchases@, user, pool_id);
        }
        match self.purchase_index(user, pool_id) {
            Some(k) => Some(self.purchases[k]),
            None => None,
        }
    }
}

/// Records the platform's configuration, once.
pub fn initialize(platform: &mut Platform, owner: Address, creator: Address) -> (r: Result<
    (),
    IdoError,
>)
    ensures
        match r {
            Ok(()) => old(platform).config is None && final(platform)@ == (PlatformModel {
                config: Some(ConfigAccount { owner, creator }),
                ..old(platform)@
            }),
            Err(e) => old(platform).config is Some && e == IdoError::ConfigAlreadyInitialized
                && final(platform)@ == old(platform)@,
        },
        old(platform)@.wf() ==> final(platform)@.wf(),
{
    if platform.config.is_some() {
        return Err(IdoError::ConfigAlreadyInitialized);
    }
    platform.config = Some(ConfigAccount { owner, creator });
    Ok(())
}

/// Opens pool `pool_id` at time `now`. On success its record is added; on
/// failure, including when the identifier is taken, nothing changes.
pub fn create_pool(
    platform: &mut Platform,
    ctx: &CreatePool,
    pool_id: u64,
    start_time: i64,
    end_time: i64,
    claim_time: i64,
    sale_amount: u64,
    price_per_token: u64,
    now: i64,
) -> (r: Result<(), IdoError>)
    requires
        old(platform)@.wf(),
    ensures
        final(platform)@.wf(),
        match r {
            Ok(()) => {
                &&& old(platform)@.create_pool_error(
                    *ctx,
                    pool_id,
                    start_time,
                    end_time,
                    claim_time,
                    sale_amount,
                    price_per_token,
                    now,
                ) is None
                &&& final(platform)@ == (PlatformModel {
                    pools: old(platform)@.pools.push(
                        new_pool(
                            *ctx,
                            pool_id,
                            start_time,
                            end_time,
                            claim_time,
                            sale_amount,
                            price_per_token,
                        ),
                    ),
                    ..old(platform)@
                })
            },
            Err(e) => {
                &&& old(platform)@.create_pool_error(
                    *ctx,
                    pool_id,
                    start_time,
                    end_time,
                    claim_time,
                    sale_amount,
                    price_per_token,
                    now,
                ) == Some(e)
                &&& final(platform)@ == old(platform)@
            },
        },
{
    let config = match platform.config {
        Some(c) => c,
        None => return Err(IdoError::ConfigNotInitialized),
    };
    if config.creator != ctx.creator {
        return Err(IdoError::UnauthorizedCreator);
    }
    if platform.pool_index(pool_id).is_some() {
        return Err(IdoError::PoolAlreadyExists);
    }
    let pool = process_create_pool(
        &config,
        ctx,
        pool_id,
        start_time,
        end_time,
        claim_time,
        sale_amount,
        price_per_token,
        now,
    )?;
    proof {
        let m = platform@;
        lemma_find_pool(m.pools, pool_id);
        assert forall|k: int| 0 <= k < m.purchases.len() implies #[trigger] m.purchases[k].pool_id
            != pool_id by {
            lemma_find_pool(m.pools, m.purchases[k].pool_id);
        }
        lemma_sums_absent(m.purchases, pool_id);
    }
    platform.pools.push(pool);
    proof {
        let m = platform@;
        assert forall|k: int| 0 <= k < m.purchases.len() implies find_pool(
            m.pools,
            #[trigger] m.purchases[k].pool_id,
        ) >= 0 by {
            lemma_find_pool_push(old(platform)@.pools, pool, m.purchases[k].pool_id);
        }
        assert forall|i: int| 0 <= i < m.pools.len() implies pool_balanced(
            #[trigger] m.pools[i],
            m.purchases,
        ) by {
            if i < m.pools.len() - 1 {
                assert(m.pools[i] == old(platform)@.pools[i]);
            }
        }
    }
    Ok(())
}

/// Checks that the creator funds pool `pool_id`'s escrow with exactly its sale
/// amount and returns the transfer to perform. The records do not change.
pub fn fund_pool(
    platform: &Platform,
    creator: Address,
    creator_token_account: TokenAccount,
    pool_token_account: TokenAccount,
    pool_id: u64,
    amount: u64,
) -> (r: Result<TokenTransfer, IdoError>)
    ensures
        match r {
            Ok(t) => {
                &&& platform@.fund_pool_error(
                    creator,
                    creator_token_account,
                    pool_token_account,
                    pool_id,
                    amount,
                ) is None
                &&& t == fund_transfer(
                    platform@.fund_context(
                        creator,
                        creator_token_account,
                        pool_token_account,
                        pool_id,
                    ),
                    amount,
                )
            },
            Err(e) => platform@.fund_pool_error(
                creator,
                creator_token_account,
                pool_token_account,
                pool_id,
                amount,
            ) == Some(e),
        },
{
    let pool_account = match platform.pool(pool_id) {
        Some(p) => p,
        None => return Err(IdoError::PoolNotFound),
    };
    let ctx = FundPool { creator, pool_account, creator_token_account, pool_token_account };
    process_fund_pool(&ctx, pool_id, amount)
}

/// Records a purchase of `currency_amount` in pool `pool_id` at time `now`. On
/// success the payment transfer is returned; on failure nothing changes.
pub fn buy_tokens(
    platform: &mut Platform,
    buyer: Address,
    buyer_currency_account: TokenAccount,
    pool_currency_account: TokenAccount,
    pool_id: u64,
    currency_amount: u64,
    now: i64,
) -> (r: Result<TokenTransfer, IdoError>)
    requires
        old(platform)@.wf(),
    ensures
        final(platform)@.wf(),
        match r {
            Ok(t) => {
                &&& old(platform)@.buy_tokens_error(
                    buyer,
                    buyer_currency_account,
                    pool_currency_account,
                    pool_id,
                    currency_amount,
                    now,
                ) is None
                &&& t == buy_transfer(
                    old(platform)@.buy_context(
                        buyer,
                        buyer_currency_account,
                        pool_currency_account,
                        pool_id,
                    ),
                    currency_amount,
                )
                &&& final(platform)@ == old(platform)@.after_buy(
                    buyer,
                    buyer_currency_account,
                    pool_currency_account,
                    pool_id,
                    currency_amount,
                )
            },
            Err(e) => {
                &&& old(platform)@.buy_tokens_error(
                    buyer,
                    buyer_currency_account,
                    pool_currency_account,
                    pool_id,
                    currency_amount,
                    now,
                ) == Some(e)
                &&& final(platform)@ == old(platform)@
            },
        },
{
    proof {
        lemma_find_pool(platform.pools@, pool_id);
        lemma_find_purchase(platform.purchases@, buyer, pool_id);
    }
    let i = match platform.pool_index(pool_id) {
        Some(i) => i,
        None => return Err(IdoError::PoolNotFound),
    };
    let k = platform.purchase_index(buyer, pool_id);
    let user_purchase = match k {
        Some(k) => Some(platform.purchases[k]),
        None => None,
    };
    let mut ctx = BuyTokens {
        buyer,
        pool_account: platform.pools[i],
        user_purchase,
        buyer_currency_account,
        pool_currency_account,
    };
    let transfer = process_buy_tokens(&mut ctx, pool_id, currency_amount, now)?;
    proof {
        lemma_buy_preserves_wf(
            platform@,
            buyer,
            buyer_currency_account,
            pool_currency_account,
            pool_id,
            currency_amount,
            now,
        );
    }
    platform.pools.set(i, ctx.pool_account);
    if let Some(u) = ctx.user_purchase {
        match k {
            Some(k) => platform.purchases.set(k, u),
            None => platform.purchases.push(u),
        }
    }
    Ok(transfer)
}

/// Releases the claimer's balance in pool `pool_id` at time `now`. On success the
/// release from escrow is returned and the record is marked claimed; on failure
/// nothing changes.
pub fn claim_tokens(
    platform: &mut Platform,
    claimer: Address,
    claimer_token_account: TokenAccount,
    pool_token_account: TokenAccount,
    pool_id: u64,
    now: i64,
) -> (r: Result<TokenTransfer, IdoError>)
    requires
        old(platform)@.wf(),
    ensures
        final(platform)@.wf(),
        match r {
            Ok(t) => {
                &&& old(platform)@.claim_tokens_error(
                    claimer,
                    claimer_token_account,
                    pool_token_account,
                    pool_id,
                    now,
                ) is None
                &&& t == claim_transfer(
                    old(platform)@.claim_context(
                        claimer,
                        claimer_token_account,
                        pool_token_account,
                        pool_id,
                    ),
                    pool_id,
                )
                &&& final(platform)@ == old(platform)@.after_claim(claimer, pool_id)
            },
            Err(e) => {
                &&& old(platform)@.claim_tokens_error(
                    claimer,
                    claimer_token_account,
                    pool_token_account,
                    pool_id,
                    now,
                ) == Some(e)
                &&& final(platform)@ == old(platform)@
            },
        },
{
    proof {
        lemma_find_pool(platform.pools@, pool_id);
        lemma_find_purchase(platform.purchases@, claimer, pool_id);
    }
    let i = match platform.pool_index(pool_id) {
        Some(i) => i,
        None => return Err(IdoError::PoolNotFound),
    };
    let k = match platform.purchase_index(claimer, pool_id) {
        Some(k) => k,
        None => return Err(IdoError::PurchaseNotFound),
    };
    let mut ctx = ClaimTokens {
        claimer,
        pool_account: platform.pools[i],
        user_purchase: platform.purchases[k],
        claimer_token_account,
        pool_token_account,
    };
    let transfer = process_claim_tokens(&mut ctx, pool_id, now)?;
    proof {
        lemma_claim_preserves_wf(platform@, claimer, pool_id);
    }
    platform.purchases.set(k, ctx.user_purchase);
    Ok(transfer)
}

} // verus!
