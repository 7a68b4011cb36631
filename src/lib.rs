//! Bookkeeping core of a single-asset bonding-curve liquidity pool.
pub mod address;
pub mod instructions;
pub mod laws;
pub mod pool;

pub use address::{
    check_address, derive_pool_address, make_pool_seeds, make_pool_seeds_with_bump,
    pool_address_with_bump,
};
pub use instructions::{
    buy, create_pool, graduate, init_pool, lock_liquidity, sell, InitPool, Trade, UpdateState,
};
pub use laws::{lemma_init_only_once, lemma_trade_sequence_totals, lemma_transitions_keep_identity};
pub use pool::{
    apply_buy, apply_graduate, apply_lock, apply_sell, keys_equal, GraduationDex, InitPoolArgs,
    PlpError, Pool, Pubkey,
};
