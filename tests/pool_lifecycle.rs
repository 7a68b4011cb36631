use plp::{
    apply_buy, apply_graduate, apply_lock, apply_sell, buy, check_address, derive_pool_address,
    graduate, init_pool, keys_equal, lock_liquidity, make_pool_seeds, pool_address_with_bump,
    sell, GraduationDex, InitPool, InitPoolArgs, PlpError, Pool, Pubkey, Trade, UpdateState,
};

fn key(b: u8) -> Pubkey {
    Pubkey { bytes: [b; 32] }
}

fn program_id() -> Pubkey {
    let mut bytes = [0u8; 32];
    for (i, b) in bytes.iter_mut().enumerate() {
        *b = (i + 1) as u8;
    }
    Pubkey { bytes }
}

fn authority() -> Pubkey {
    key(1)
}

fn stranger() -> Pubkey {
    key(2)
}

fn mint() -> Pubkey {
    key(7)
}

const MINT_POOL_ADDRESS: [u8; 32] = [
    29, 155, 19, 35, 2, 126, 44, 208, 101, 197, 124, 25, 180, 219, 153, 186, 62, 197, 148, 174,
    196, 112, 57, 0, 238, 229, 65, 125, 200, 249, 72, 194,
];

const OTHER_MINT_POOL_ADDRESS: [u8; 32] = [
    32, 139, 219, 213, 10, 135, 214, 114, 44, 64, 237, 97, 110, 112, 87, 38, 135, 122, 110, 243,
    18, 105, 155, 4, 122, 8, 90, 174, 84, 40, 170, 198,
];

fn init_ctx(address: Pubkey) -> InitPool {
    InitPool {
        pool: None,
        pool_address: address,
        authority: authority(),
        vault_sol: key(3),
        vault_token: key(4),
        program_id: program_id(),
    }
}

fn created_pool(curve_type: u8) -> (Pool, Pubkey) {
    let (address, _) = derive_pool_address(&mint(), &program_id()).unwrap();
    let mut ctx = init_ctx(address);
    init_pool(&mut ctx, InitPoolArgs { mint: mint(), curve_type }).unwrap();
    (ctx.pool.unwrap(), address)
}

fn trade_ctx(pool: Pool, address: Pubkey) -> Trade {
    Trade { pool, pool_address: address, user: key(5), program_id: program_id() }
}

fn update_ctx(pool: Pool, address: Pubkey, signer: Pubkey) -> UpdateState {
    UpdateState { pool, pool_address: address, authority: signer, program_id: program_id() }
}

fn open_pool(total_sol: u64, total_tokens: u64) -> Pool {
    Pool {
        authority: authority(),
        mint: mint(),
        vault_sol: key(3),
        vault_token: key(4),
        curve_type: 0,
        locked: false,
        graduated: false,
        graduation_dex: 0,
        total_sol,
        total_tokens,
        bump: 254,
    }
}

#[test]
fn scenario_full_lifecycle() {
    let (pool, address) = created_pool(0);
    let mut trade = trade_ctx(pool, address);
    assert_eq!(buy(&mut trade, 100, 50), Ok(()));
    assert_eq!(trade.pool.total_tokens, 100);
    assert_eq!(trade.pool.total_sol, 50);
    assert!(!trade.pool.locked);
    assert!(!trade.pool.graduated);

    assert_eq!(sell(&mut trade, 40, 10), Ok(()));
    assert_eq!(trade.pool.total_tokens, 60);
    assert_eq!(trade.pool.total_sol, 40);

    let mut admin = update_ctx(trade.pool, address, authority());
    assert_eq!(lock_liquidity(&mut admin, true), Ok(()));
    assert!(admin.pool.locked);
    let mut trade = trade_ctx(admin.pool, address);
    let before = trade;
    assert_eq!(buy(&mut trade, 1, 1), Err(PlpError::LiquidityLocked));
    assert_eq!(trade, before);

    let mut intruder = update_ctx(trade.pool, address, stranger());
    let before = intruder;
    assert_eq!(graduate(&mut intruder, GraduationDex::Orca), Err(PlpError::Unauthorized));
    assert_eq!(intruder, before);

    let mut admin = update_ctx(intruder.pool, address, authority());
    assert_eq!(graduate(&mut admin, GraduationDex::Orca), Ok(()));
    assert!(admin.pool.graduated);
    assert_eq!(admin.pool.graduation_dex, 1);

    let mut trade = trade_ctx(admin.pool, address);
    let before = trade;
    assert_eq!(buy(&mut trade, 1, 1), Err(PlpError::PoolGraduated));
    assert_eq!(trade, before);
}

#[test]
fn init_records_every_field() {
    let (pool, _) = created_pool(3);
    assert_eq!(pool.authority, authority());
    assert_eq!(pool.mint, mint());
    assert_eq!(pool.vault_sol, key(3));
    assert_eq!(pool.vault_token, key(4));
    assert_eq!(pool.curve_type, 3);
    assert!(!pool.locked);
    assert!(!pool.graduated);
    assert_eq!(pool.graduation_dex, GraduationDex::default().code());
    assert_eq!(pool.graduation_dex, 0);
    assert_eq!(pool.total_sol, 0);
    assert_eq!(pool.total_tokens, 0);
    assert_eq!(pool.bump, 254);
}

#[test]
fn init_twice_fails_and_keeps_first_record() {
    let (address, _) = derive_pool_address(&mint(), &program_id()).unwrap();
    let mut ctx = init_ctx(address);
    assert_eq!(init_pool(&mut ctx, InitPoolArgs { mint: mint(), curve_type: 0 }), Ok(()));
    let first = ctx;
    ctx.authority = stranger();
    assert_eq!(
        init_pool(&mut ctx, InitPoolArgs { mint: mint(), curve_type: 9 }),
        Err(PlpError::AlreadyInitialized)
    );
    assert_eq!(ctx.pool, first.pool);
}

#[test]
fn init_at_foreign_address_fails() {
    let mut ctx = init_ctx(key(8));
    assert_eq!(
        init_pool(&mut ctx, InitPoolArgs { mint: mint(), curve_type: 0 }),
        Err(PlpError::AddressMismatch)
    );
    assert_eq!(ctx.pool, None);
}

#[test]
fn derived_address_is_the_program_derived_address() {
    let (address, bump) = derive_pool_address(&mint(), &program_id()).unwrap();
    assert_eq!(address.bytes, MINT_POOL_ADDRESS);
    assert_eq!(bump, 254);
    let (other, other_bump) = derive_pool_address(&key(9), &program_id()).unwrap();
    assert_eq!(other.bytes, OTHER_MINT_POOL_ADDRESS);
    assert_eq!(other_bump, 254);
}

#[test]
fn stored_bump_re_derives_the_address() {
    let (address, bump) = derive_pool_address(&mint(), &program_id()).unwrap();
    assert_eq!(pool_address_with_bump(&mint(), bump, &program_id()), Some(address));
    assert_ne!(pool_address_with_bump(&mint(), bump.wrapping_sub(1), &program_id()), Some(address));
}

#[test]
fn pool_seeds_are_tag_and_mint() {
    let seeds = make_pool_seeds(&mint());
    assert_eq!(seeds, vec![b"pool".to_vec(), vec![7u8; 32]]);
}

#[test]
fn trade_at_foreign_address_fails() {
    let (pool, _) = created_pool(0);
    let mut trade = trade_ctx(pool, key(8));
    let before = trade;
    assert_eq!(buy(&mut trade, 1, 1), Err(PlpError::AddressMismatch));
    assert_eq!(sell(&mut trade, 0, 0), Err(PlpError::AddressMismatch));
    assert_eq!(trade, before);
}

#[test]
fn trade_with_spoofed_bump_fails() {
    let (mut pool, address) = created_pool(0);
    pool.bump = 253;
    let mut trade = trade_ctx(pool, address);
    assert_eq!(buy(&mut trade, 1, 1), Err(PlpError::AddressMismatch));
}

#[test]
fn admin_at_foreign_address_fails() {
    let (pool, _) = created_pool(0);
    let mut admin = update_ctx(pool, key(8), authority());
    let before = admin;
    assert_eq!(lock_liquidity(&mut admin, true), Err(PlpError::AddressMismatch));
    assert_eq!(graduate(&mut admin, GraduationDex::Jupiter), Err(PlpError::AddressMismatch));
    assert_eq!(admin, before);
}

#[test]
fn lock_by_stranger_is_unauthorized() {
    let (pool, address) = created_pool(0);
    let mut admin = update_ctx(pool, address, stranger());
    let before = admin;
    assert_eq!(lock_liquidity(&mut admin, true), Err(PlpError::Unauthorized));
    assert_eq!(admin, before);
}

#[test]
fn unlock_restores_trading() {
    let (pool, address) = created_pool(0);
    let mut admin = update_ctx(pool, address, authority());
    lock_liquidity(&mut admin, true).unwrap();
    lock_liquidity(&mut admin, false).unwrap();
    let mut trade = trade_ctx(admin.pool, address);
    assert_eq!(buy(&mut trade, 5, 6), Ok(()));
    assert_eq!((trade.pool.total_tokens, trade.pool.total_sol), (5, 6));
}

#[test]
fn second_graduation_overwrites_venue() {
    let (pool, address) = created_pool(0);
    let mut admin = update_ctx(pool, address, authority());
    graduate(&mut admin, GraduationDex::Orca).unwrap();
    assert_eq!(graduate(&mut admin, GraduationDex::Jupiter), Ok(()));
    assert!(admin.pool.graduated);
    assert_eq!(admin.pool.graduation_dex, 2);
    assert_eq!(admin.pool.total_sol, 0);
}

#[test]
fn graduated_pool_rejects_sell_even_when_unlocked() {
    let mut pool = open_pool(10, 10);
    pool.graduated = true;
    let before = pool;
    assert_eq!(apply_sell(&mut pool, 1, 1), Err(PlpError::PoolGraduated));
    assert_eq!(pool, before);
}

#[test]
fn graduation_takes_precedence_over_lock() {
    let mut pool = open_pool(10, 10);
    pool.graduated = true;
    pool.locked = true;
    let before = pool;
    assert_eq!(apply_buy(&mut pool, 1, 1), Err(PlpError::PoolGraduated));
    assert_eq!(apply_sell(&mut pool, 1, 1), Err(PlpError::PoolGraduated));
    assert_eq!(pool, before);
}

#[test]
fn locked_pool_rejects_sell() {
    let mut pool = open_pool(10, 10);
    pool.locked = true;
    let before = pool;
    assert_eq!(apply_sell(&mut pool, 1, 1), Err(PlpError::LiquidityLocked));
    assert_eq!(pool, before);
}

#[test]
fn buy_value_overflow_changes_nothing() {
    let mut pool = open_pool(u64::MAX, 0);
    let before = pool;
    assert_eq!(apply_buy(&mut pool, 1, 1), Err(PlpError::ValueOverflow));
    assert_eq!(pool, before);
}

#[test]
fn buy_token_overflow_changes_nothing() {
    let mut pool = open_pool(0, u64::MAX - 1);
    let before = pool;
    assert_eq!(apply_buy(&mut pool, 2, 5), Err(PlpError::TokenOverflow));
    assert_eq!(pool, before);
}

#[test]
fn buy_up_to_the_largest_total() {
    let mut pool = open_pool(u64::MAX - 3, u64::MAX - 4);
    assert_eq!(apply_buy(&mut pool, 4, 3), Ok(()));
    assert_eq!((pool.total_sol, pool.total_tokens), (u64::MAX, u64::MAX));
}

#[test]
fn sell_more_value_than_held_fails() {
    let mut pool = open_pool(10, 10);
    let before = pool;
    assert_eq!(apply_sell(&mut pool, 1, 11), Err(PlpError::InsufficientValue));
    assert_eq!(pool, before);
}

#[test]
fn sell_more_tokens_than_held_fails() {
    let mut pool = open_pool(10, 10);
    let before = pool;
    assert_eq!(apply_sell(&mut pool, 11, 10), Err(PlpError::InsufficientTokens));
    assert_eq!(pool, before);
}

#[test]
fn sell_everything_reaches_zero() {
    let mut pool = open_pool(10, 20);
    assert_eq!(apply_sell(&mut pool, 20, 10), Ok(()));
    assert_eq!((pool.total_sol, pool.total_tokens), (0, 0));
}

#[test]
fn trade_sequence_sums_signed_deltas() {
    let mut pool = open_pool(0, 0);
    apply_buy(&mut pool, 100, 50).unwrap();
    apply_sell(&mut pool, 30, 20).unwrap();
    apply_buy(&mut pool, 7, 9).unwrap();
    apply_sell(&mut pool, 77, 39).unwrap();
    assert_eq!(pool.total_tokens, 100 - 30 + 7 - 77);
    assert_eq!(pool.total_sol, 50 - 20 + 9 - 39);
    let mut expected = open_pool(0, 0);
    expected.total_sol = 0;
    expected.total_tokens = 0;
    assert_eq!(pool, expected);
}

#[test]
fn zero_deltas_are_accepted() {
    let mut pool = open_pool(0, 0);
    assert_eq!(apply_buy(&mut pool, 0, 0), Ok(()));
    assert_eq!(apply_sell(&mut pool, 0, 0), Ok(()));
    assert_eq!(pool, open_pool(0, 0));
}

#[test]
fn lock_and_graduate_need_the_authority() {
    let mut pool = open_pool(1, 1);
    let before = pool;
    assert_eq!(apply_lock(&mut pool, &stranger(), true), Err(PlpError::Unauthorized));
    assert_eq!(apply_graduate(&mut pool, &stranger(), GraduationDex::Orca), Err(PlpError::Unauthorized));
    assert_eq!(pool, before);
    assert_eq!(apply_lock(&mut pool, &authority(), true), Ok(()));
    assert!(pool.locked);
    assert_eq!(apply_graduate(&mut pool, &authority(), GraduationDex::Jupiter), Ok(()));
    assert!(pool.graduated);
    assert_eq!(pool.graduation_dex, 2);
    assert_eq!((pool.total_sol, pool.total_tokens), (1, 1));
}

#[test]
fn venue_codes() {
    assert_eq!(GraduationDex::Raydium.code(), 0);
    assert_eq!(GraduationDex::Orca.code(), 1);
    assert_eq!(GraduationDex::Jupiter.code(), 2);
    assert_eq!(GraduationDex::default(), GraduationDex::Raydium);
}

#[test]
fn key_comparison() {
    let mut a = key(1);
    assert!(keys_equal(&a, &key(1)));
    a.bytes[31] = 0;
    assert!(!keys_equal(&a, &key(1)));
}

#[test]
fn address_check_outcomes() {
    assert_eq!(check_address(&Some(key(1)), &key(1)), Ok(()));
    assert_eq!(check_address(&Some(key(1)), &key(2)), Err(PlpError::AddressMismatch));
    assert_eq!(check_address(&None, &key(1)), Err(PlpError::AddressMismatch));
}

#[test]
fn record_size() {
    assert_eq!(Pool::LEN, 4 * 32 + 4 + 2 * 8 + 1);
    assert_eq!(PlpError::Unauthorized.message(), "Signer is not the pool authority");
}
