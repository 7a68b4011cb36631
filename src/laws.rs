//! Properties that hold across sequences of calls.
use crate::instructions::{init_commits, init_pool_outcome, InitPool};
use crate::pool::{
    buy_outcome, graduate_outcome, lock_outcome, sell_outcome, GraduationDex, InitPoolArgs,
    PlpError, Pool, Pubkey,
};
use vstd::prelude::*;

verus! {

/// One trade in a sequence: a purchase or a sale of `tokens` for `lamports`.
pub enum TradeStep {
    Buy { tokens: u64, lamports: u64 },
    Sell { tokens: u64, lamports: u64 },
}

/// The result of one trade on `pool`.
pub open spec fn step_outcome(pool: Pool, step: TradeStep) -> Result<Pool, PlpError> {
    match step {
        TradeStep::Buy { tokens, lamports } => buy_outcome(pool, tokens, lamports),
        TradeStep::Sell { tokens, lamports } => sell_outcome(pool, tokens, lamports),
    }
}

/// The result of the trades of `steps` applied in order to `pool`, stopping at
/// the first failure.
pub open spec fn run_trades(pool: Pool, steps: Seq<TradeStep>) -> Result<Pool, PlpError>
    decreases steps.len(),
{
    if steps.len() == 0 {
        Ok(pool)
    } else {
        match step_outcome(pool, steps[0]) {
            Ok(next) => run_trades(next, steps.drop_first()),
            Err(e) => Err(e),
        }
    }
}

/// The signed sum of the value deltas of `steps`: purchases add, sales subtract.
pub open spec fn value_delta(steps: Seq<TradeStep>) -> int
    decreases steps.len(),
{
    if steps.len() == 0 {
        0
    } else {
        (match steps[0] {
            TradeStep::Buy { lamports, .. } => lamports as int,
            TradeStep::Sell { lamports, .. } => -(lamports as int),
        }) + value_delta(steps.drop_first())
    }
}

/// The signed sum of the token deltas of `steps`: purchases add, sales subtract.
pub open spec fn token_delta(steps: Seq<TradeStep>) -> int
    decreases steps.len(),
{
    if steps.len() == 0 {
        0
    } else {
        (match steps[0] {
            TradeStep::Buy { tokens, .. } => tokens as int,
            TradeStep::Sell { tokens, .. } => -(tokens as int),
        }) + token_delta(steps.drop_first())
    }
}

/// The fields of a pool other than its two totals.
pub open spec fn same_but_totals(a: Pool, b: Pool) -> bool {
    a == (Pool { total_sol: a.total_sol, total_tokens: a.total_tokens, ..b })
}

/// After any sequence of trades that all succeed, each total equals its
/// starting value plus the exact signed sum of the deltas applied (so no step
/// wrapped around), and nothing else in the record changed.
pub proof fn lemma_trade_sequence_totals(pool: Pool, steps: Seq<TradeStep>)
    requires
        run_trades(pool, steps) is Ok,
    ensures
        run_trades(pool, steps)->Ok_0.total_sol == pool.total_sol + value_delta(steps),
        run_trades(pool, steps)->Ok_0.total_tokens == pool.total_tokens + token_delta(steps),
        same_but_totals(run_trades(pool, steps)->Ok_0, pool),
    decreases steps.len(),
{
    if steps.len() > 0 {
        let next = step_outcome(pool, steps[0])->Ok_0;
        lemma_trade_sequence_totals(next, steps.drop_first());
    }
}

/// Once a pool is created, a second creation for the same asset at the same
/// address fails with `AlreadyInitialized`, and the first record is kept.
pub proof fn lemma_init_only_once(first: InitPool, args: InitPoolArgs, second: InitPool, again: InitPoolArgs)
    requires
        init_pool_outcome(first, args) is Ok,
        second.pool == Some(init_pool_outcome(first, args)->Ok_0),
        second.pool_address == first.pool_address,
        second.program_id == first.program_id,
        again.mint == args.mint,
    ensures
        init_pool_outcome(second, again) == Err::<Pool, PlpError>(PlpError::AlreadyInitialized),
        forall|r: Result<(), PlpError>, after: InitPool|
            init_commits(r, second, after, init_pool_outcome(second, again)) ==> after.pool == second.pool,
{
}

/// No transition changes a pool's authority, asset, vaults, curve or bump,
/// and none turns a graduated pool back into a trading one.
pub proof fn lemma_transitions_keep_identity(
    pool: Pool,
    tokens: u64,
    lamports: u64,
    signer: Pubkey,
    locked: bool,
    dex: GraduationDex,
    after: Pool,
)
    requires
        buy_outcome(pool, tokens, lamports) == Ok::<Pool, PlpError>(after)
            || sell_outcome(pool, tokens, lamports) == Ok::<Pool, PlpError>(after)
            || lock_outcome(pool, signer, locked) == Ok::<Pool, PlpError>(after)
            || graduate_outcome(pool, signer, dex) == Ok::<Pool, PlpError>(after),
    ensures
        after.authority == pool.authority,
        after.mint == pool.mint,
        after.vault_sol == pool.vault_sol,
        after.vault_token == pool.vault_token,
        after.curve_type == pool.curve_type,
        after.bump == pool.bump,
        pool.graduated ==> after.graduated,
{
}

} // verus!
