use solana_ido::{
    buy_tokens, claim_tokens, create_pool, fund_pool, initialize, process_buy_tokens,
    process_claim_tokens, process_create_pool, process_fund_pool, Address, Authority, BuyTokens,
    ClaimTokens, ConfigAccount, CreatePool, FundPool, IdoError, Platform, PoolAccount,
    TokenAccount, UserPurchase,
};

const T: i64 = 1_700_000_000;

fn addr(n: u8) -> Address {
    Address { bytes: [n; 32] }
}

fn owner() -> Address {
    addr(1)
}
fn creator() -> Address {
    addr(2)
}
fn currency_mint() -> Address {
    addr(3)
}
fn token_mint() -> Address {
    addr(4)
}
fn alice() -> Address {
    addr(10)
}
fn bob() -> Address {
    addr(11)
}

fn holding(key: u8, mint: Address, owner: Address, amount: u64) -> TokenAccount {
    TokenAccount { key: addr(key), mint, owner, amount }
}

fn creator_tokens() -> TokenAccount {
    holding(20, token_mint(), creator(), 1_000_000)
}
fn pool_tokens() -> TokenAccount {
    holding(21, token_mint(), addr(99), 0)
}
fn pool_currency() -> TokenAccount {
    holding(22, currency_mint(), addr(99), 0)
}
fn currency_of(user: Address) -> TokenAccount {
    holding(user.bytes[0] + 100, currency_mint(), user, 1_000_000)
}
fn tokens_of(user: Address) -> TokenAccount {
    holding(user.bytes[0] + 150, token_mint(), user, 0)
}

fn create_ctx() -> CreatePool {
    CreatePool {
        creator: creator(),
        currency_mint: currency_mint(),
        token_mint: token_mint(),
        creator_token_account: creator_tokens(),
    }
}

fn platform_with_pool(pool_id: u64, sale_amount: u64, price: u64) -> Platform {
    let mut p = Platform::new();
    initialize(&mut p, owner(), creator()).unwrap();
    create_pool(&mut p, &create_ctx(), pool_id, T + 10, T + 100, T + 100, sale_amount, price, T)
        .unwrap();
    p
}

fn buy(p: &mut Platform, user: Address, pool_id: u64, amount: u64, now: i64) -> Result<(), IdoError> {
    buy_tokens(p, user, currency_of(user), pool_currency(), pool_id, amount, now).map(|_| ())
}

fn claim(p: &mut Platform, user: Address, pool_id: u64, now: i64) -> Result<u64, IdoError> {
    claim_tokens(p, user, tokens_of(user), pool_tokens(), pool_id, now).map(|t| t.amount)
}

fn sample_pool() -> PoolAccount {
    PoolAccount {
        pool_id: 7,
        creator: creator(),
        start_time: T + 10,
        end_time: T + 100,
        claim_time: T + 100,
        sale_amount: 1000,
        price_per_token: 10,
        currency_mint: currency_mint(),
        token_mint: token_mint(),
        total_raised: 0,
        is_active: true,
    }
}

#[test]
fn scenario_create_fund_buy_claim() {
    let mut p = platform_with_pool(1, 1000, 10);
    let pool = p.pool(1).unwrap();
    assert_eq!(pool.total_raised, 0);
    assert!(pool.is_active);
    let funding = fund_pool(&p, creator(), creator_tokens(), pool_tokens(), 1, 1000).unwrap();
    assert_eq!(funding.amount, 1000);
    assert_eq!(funding.from, creator_tokens().key);
    assert_eq!(funding.to, pool_tokens().key);
    assert_eq!(funding.authority, Authority::Signer(creator()));

    assert_eq!(buy(&mut p, alice(), 1, 250, T + 5), Err(IdoError::SaleNotStarted));
    let payment =
        buy_tokens(&mut p, alice(), currency_of(alice()), pool_currency(), 1, 250, T + 50).unwrap();
    assert_eq!(payment.amount, 250);
    assert_eq!(payment.from, currency_of(alice()).key);
    assert_eq!(payment.to, pool_currency().key);
    assert_eq!(payment.authority, Authority::Signer(alice()));
    let record = p.user_purchase(alice(), 1).unwrap();
    assert_eq!(record.tokens_to_claim, 25);
    assert_eq!(record.amount_purchased, 250);
    assert!(!record.has_claimed);
    assert_eq!(p.pool(1).unwrap().total_raised, 250);

    let release = claim_tokens(&mut p, alice(), tokens_of(alice()), pool_tokens(), 1, T + 100).unwrap();
    assert_eq!(release.amount, 25);
    assert_eq!(release.from, pool_tokens().key);
    assert_eq!(release.to, tokens_of(alice()).key);
    assert_eq!(release.authority, Authority::PoolAuthority(1));
    assert!(p.user_purchase(alice(), 1).unwrap().has_claimed);
}

#[test]
fn total_raised_is_sum_of_payments() {
    let mut p = platform_with_pool(1, 1000, 10);
    buy(&mut p, alice(), 1, 250, T + 50).unwrap();
    buy(&mut p, bob(), 1, 37, T + 60).unwrap();
    buy(&mut p, alice(), 1, 105, T + 70).unwrap();
    assert_eq!(p.pool(1).unwrap().total_raised, 250 + 37 + 105);
    let a = p.user_purchase(alice(), 1).unwrap();
    assert_eq!(a.amount_purchased, 355);
    assert_eq!(a.tokens_to_claim, 25 + 10);
    let b = p.user_purchase(bob(), 1).unwrap();
    assert_eq!(b.amount_purchased, 37);
    assert_eq!(b.tokens_to_claim, 3);
}

#[test]
fn payment_below_price_buys_nothing() {
    let mut p = platform_with_pool(1, 2, 3);
    for _ in 0..5 {
        assert_eq!(buy(&mut p, alice(), 1, 2, T + 50), Err(IdoError::InsufficientPayment));
        assert_eq!(buy(&mut p, bob(), 1, 2, T + 50), Err(IdoError::InsufficientPayment));
    }
    assert_eq!(p.pool(1).unwrap().total_raised, 0);
    assert!(p.user_purchase(alice(), 1).is_none());
    assert!(p.user_purchase(bob(), 1).is_none());
}

#[test]
fn remainders_never_oversell_supply() {
    let mut p = platform_with_pool(1, 2, 3);
    buy(&mut p, alice(), 1, 5, T + 50).unwrap();
    buy(&mut p, bob(), 1, 5, T + 50).unwrap();
    assert_eq!(buy(&mut p, alice(), 1, 5, T + 50), Err(IdoError::InsufficientTokenBalance));
    assert_eq!(buy(&mut p, bob(), 1, 3, T + 50), Err(IdoError::InsufficientTokenBalance));
    let owed = p.user_purchase(alice(), 1).unwrap().tokens_to_claim
        + p.user_purchase(bob(), 1).unwrap().tokens_to_claim;
    assert_eq!(owed, 2);
    assert_eq!(p.pool(1).unwrap().total_raised, 10);
}

#[test]
fn purchase_beyond_remaining_supply_is_refused() {
    let mut p = platform_with_pool(1, 10, 10);
    assert_eq!(buy(&mut p, alice(), 1, 110, T + 50), Err(IdoError::InsufficientTokenBalance));
    buy(&mut p, alice(), 1, 100, T + 50).unwrap();
    assert_eq!(buy(&mut p, bob(), 1, 10, T + 50), Err(IdoError::InsufficientTokenBalance));
}

#[test]
fn second_claim_is_refused() {
    let mut p = platform_with_pool(1, 1000, 10);
    buy(&mut p, alice(), 1, 250, T + 50).unwrap();
    assert_eq!(claim(&mut p, alice(), 1, T + 100), Ok(25));
    let before = p.user_purchase(alice(), 1).unwrap();
    assert_eq!(claim(&mut p, alice(), 1, T + 200), Err(IdoError::AlreadyClaimed));
    assert_eq!(p.user_purchase(alice(), 1).unwrap(), before);
}

#[test]
fn start_not_in_future_is_refused() {
    let mut p = Platform::new();
    initialize(&mut p, owner(), creator()).unwrap();
    assert_eq!(
        create_pool(&mut p, &create_ctx(), 1, T, T + 100, T + 100, 1000, 10, T),
        Err(IdoError::InvalidStartTime)
    );
    assert_eq!(
        create_pool(&mut p, &create_ctx(), 1, T - 5, T + 100, T + 100, 1000, 10, T),
        Err(IdoError::InvalidStartTime)
    );
    assert!(p.pool(1).is_none());
}

#[test]
fn duplicate_pool_is_refused() {
    let mut p = platform_with_pool(1, 1000, 10);
    let first = p.pool(1).unwrap();
    for _ in 0..2 {
        assert_eq!(
            create_pool(&mut p, &create_ctx(), 1, T + 20, T + 200, T + 300, 5, 1, T),
            Err(IdoError::PoolAlreadyExists)
        );
    }
    assert_eq!(p.pool(1).unwrap(), first);
}

#[test]
fn create_pool_errors() {
    let mut p = Platform::new();
    let ctx = create_ctx();
    assert_eq!(
        create_pool(&mut p, &ctx, 1, T + 10, T + 100, T + 100, 1000, 10, T),
        Err(IdoError::ConfigNotInitialized)
    );
    initialize(&mut p, owner(), creator()).unwrap();
    assert_eq!(initialize(&mut p, owner(), owner()), Err(IdoError::ConfigAlreadyInitialized));
    let stranger = CreatePool { creator: bob(), ..ctx };
    assert_eq!(
        create_pool(&mut p, &stranger, 1, T + 10, T + 100, T + 100, 1000, 10, T),
        Err(IdoError::UnauthorizedCreator)
    );
    let wrong_mint = CreatePool { creator_token_account: holding(20, currency_mint(), creator(), 5000), ..ctx };
    assert_eq!(
        create_pool(&mut p, &wrong_mint, 1, T + 10, T + 100, T + 100, 1000, 10, T),
        Err(IdoError::InvalidAccount)
    );
    let cases: [(i64, i64, i64, u64, u64, IdoError); 5] = [
        (T + 10, T + 10, T + 100, 1000, 10, IdoError::InvalidEndTime),
        (T + 10, T + 100, T + 99, 1000, 10, IdoError::InvalidClaimTime),
        (T + 10, T + 100, T + 100, 0, 10, IdoError::InvalidSaleAmount),
        (T + 10, T + 100, T + 100, 1000, 0, IdoError::InvalidPrice),
        (T + 10, T + 100, T + 100, 1_000_001, 10, IdoError::InsufficientTokenBalance),
    ];
    for (start, end, claim_at, sale, price, err) in cases {
        assert_eq!(create_pool(&mut p, &ctx, 1, start, end, claim_at, sale, price, T), Err(err));
    }
    assert!(p.pool(1).is_none());
    assert_eq!(create_pool(&mut p, &ctx, 1, T + 10, T + 100, T + 100, 1_000_000, 10, T), Ok(()));
}

#[test]
fn fund_pool_errors() {
    let p = platform_with_pool(1, 1000, 10);
    assert_eq!(
        fund_pool(&p, creator(), creator_tokens(), pool_tokens(), 2, 1000),
        Err(IdoError::PoolNotFound)
    );
    assert_eq!(
        fund_pool(&p, bob(), holding(30, token_mint(), bob(), 1000), pool_tokens(), 1, 1000),
        Err(IdoError::UnauthorizedCreator)
    );
    assert_eq!(
        fund_pool(&p, creator(), creator_tokens(), pool_tokens(), 1, 999),
        Err(IdoError::InvalidSaleAmount)
    );
    assert_eq!(
        fund_pool(&p, creator(), creator_tokens(), pool_currency(), 1, 1000),
        Err(IdoError::InvalidAccount)
    );
}

#[test]
fn buy_tokens_errors() {
    let mut p = platform_with_pool(1, 1000, 10);
    assert_eq!(buy(&mut p, alice(), 2, 100, T + 50), Err(IdoError::PoolNotFound));
    assert_eq!(buy(&mut p, alice(), 1, 100, T + 9), Err(IdoError::SaleNotStarted));
    assert_eq!(buy(&mut p, alice(), 1, 100, T + 101), Err(IdoError::SaleEnded));
    assert_eq!(buy(&mut p, alice(), 1, 9, T + 50), Err(IdoError::InsufficientPayment));
    assert_eq!(
        buy_tokens(&mut p, alice(), currency_of(bob()), pool_currency(), 1, 100, T + 50),
        Err(IdoError::InvalidAccount)
    );
    assert_eq!(buy(&mut p, alice(), 1, 100, T + 10), Ok(()));
    assert_eq!(buy(&mut p, alice(), 1, 100, T + 100), Ok(()));
    assert_eq!(p.pool(1).unwrap().total_raised, 200);
}

#[test]
fn inactive_pool_refuses_purchase() {
    let mut ctx = BuyTokens {
        buyer: alice(),
        pool_account: PoolAccount { is_active: false, ..sample_pool() },
        user_purchase: None,
        buyer_currency_account: currency_of(alice()),
        pool_currency_account: pool_currency(),
    };
    let before = ctx;
    assert_eq!(process_buy_tokens(&mut ctx, 7, 100, T + 50), Err(IdoError::PoolNotActive));
    assert_eq!(ctx.pool_account, before.pool_account);
    assert!(ctx.user_purchase.is_none());
}

#[test]
fn purchase_overflow_is_refused() {
    let mut ctx = BuyTokens {
        buyer: alice(),
        pool_account: PoolAccount {
            sale_amount: u64::MAX,
            price_per_token: 1,
            total_raised: u64::MAX - 5,
            ..sample_pool()
        },
        user_purchase: None,
        buyer_currency_account: currency_of(alice()),
        pool_currency_account: pool_currency(),
    };
    assert_eq!(process_buy_tokens(&mut ctx, 7, 5, T + 50), Ok(process_buy_tokens_transfer(5)));
    assert_eq!(ctx.pool_account.total_raised, u64::MAX);
    assert_eq!(ctx.user_purchase.unwrap().tokens_to_claim, 5);
    let mut again = BuyTokens {
        pool_account: PoolAccount {
            price_per_token: 2,
            total_raised: u64::MAX - 1,
            ..ctx.pool_account
        },
        user_purchase: None,
        ..ctx
    };
    let before = again;
    assert_eq!(process_buy_tokens(&mut again, 7, 4, T + 50), Err(IdoError::ArithmeticOverflow));
    assert_eq!(again.pool_account, before.pool_account);
}

fn process_buy_tokens_transfer(amount: u64) -> solana_ido::TokenTransfer {
    solana_ido::TokenTransfer {
        amount,
        from: currency_of(alice()).key,
        to: pool_currency().key,
        authority: Authority::Signer(alice()),
    }
}

#[test]
fn purchase_record_overflow_is_refused() {
    let record = UserPurchase {
        user: alice(),
        pool_id: 7,
        amount_purchased: u64::MAX,
        tokens_to_claim: 3,
        has_claimed: false,
    };
    let mut ctx = BuyTokens {
        buyer: alice(),
        pool_account: sample_pool(),
        user_purchase: Some(record),
        buyer_currency_account: currency_of(alice()),
        pool_currency_account: pool_currency(),
    };
    assert_eq!(process_buy_tokens(&mut ctx, 7, 10, T + 50), Err(IdoError::ArithmeticOverflow));
    assert_eq!(ctx.user_purchase, Some(record));
    assert_eq!(ctx.pool_account.total_raised, 0);
}

#[test]
fn claim_tokens_errors() {
    let mut p = platform_with_pool(1, 1000, 10);
    buy(&mut p, alice(), 1, 250, T + 50).unwrap();
    assert_eq!(claim(&mut p, alice(), 2, T + 100), Err(IdoError::PoolNotFound));
    assert_eq!(claim(&mut p, bob(), 1, T + 100), Err(IdoError::PurchaseNotFound));
    assert_eq!(claim(&mut p, alice(), 1, T + 99), Err(IdoError::ClaimNotAvailable));
    assert_eq!(
        claim_tokens(&mut p, alice(), tokens_of(bob()), pool_tokens(), 1, T + 100),
        Err(IdoError::InvalidAccount)
    );
    assert!(!p.user_purchase(alice(), 1).unwrap().has_claimed);
}

#[test]
fn nothing_to_claim_is_refused() {
    let mut ctx = ClaimTokens {
        claimer: alice(),
        pool_account: sample_pool(),
        user_purchase: UserPurchase {
            user: alice(),
            pool_id: 7,
            amount_purchased: 0,
            tokens_to_claim: 0,
            has_claimed: false,
        },
        claimer_token_account: tokens_of(alice()),
        pool_token_account: pool_tokens(),
    };
    assert_eq!(process_claim_tokens(&mut ctx, 7, T + 100), Err(IdoError::NothingToClaim));
    assert!(!ctx.user_purchase.has_claimed);
    ctx.user_purchase.tokens_to_claim = 4;
    let release = process_claim_tokens(&mut ctx, 7, T + 100).unwrap();
    assert_eq!(release.amount, 4);
    assert_eq!(release.authority, Authority::PoolAuthority(7));
    assert!(ctx.user_purchase.has_claimed);
}

#[test]
fn process_create_and_fund() {
    let config = ConfigAccount { owner: owner(), creator: creator() };
    let pool = process_create_pool(&config, &create_ctx(), 7, T + 10, T + 100, T + 100, 1000, 10, T).unwrap();
    assert_eq!(pool, sample_pool());
    let ctx = FundPool {
        creator: creator(),
        pool_account: pool,
        creator_token_account: creator_tokens(),
        pool_token_account: pool_tokens(),
    };
    assert_eq!(process_fund_pool(&ctx, 7, 1001), Err(IdoError::InvalidSaleAmount));
    assert_eq!(process_fund_pool(&ctx, 8, 1000), Err(IdoError::InvalidAccount));
    assert_eq!(process_fund_pool(&ctx, 7, 1000).unwrap().amount, 1000);
}

#[test]
fn error_messages() {
    assert_eq!(IdoError::AlreadyClaimed.message(), "Already claimed");
    assert_eq!(IdoError::ClaimNotAvailable.message(), "Claim not available yet");
    assert_ne!(addr(1), addr(2));
    assert_eq!(addr(5), addr(5));
}
