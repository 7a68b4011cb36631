//! The five instructions, each one atomic transition of a pool account.
use crate::address::{
    address_matches, check_address, derive_pool_address, found_program_address, found_view,
    pool_address_with_bump, pool_seeds, pool_seeds_with_bump, program_address,
};
use crate::pool::{
    apply_buy, apply_graduate, apply_lock, apply_sell, buy_outcome, commits, dex_code,
    graduate_outcome, keys_equal, lemma_key_view_injective, lock_outcome, sell_outcome,
    GraduationDex, InitPoolArgs, PlpError, Pool, Pubkey,
};
use vstd::prelude::*;

verus! {

/// Accounts of pool creation: the slot at the pool's address (`None` while it
/// holds no data) and the identities recorded in the new pool.
#[derive(Clone, Copy, Debug, PartialEq, Eq)]
pub struct InitPool {
    pub pool: Option<Pool>,
    pub pool_address: Pubkey,
    pub authority: Pubkey,
    pub vault_sol: Pubkey,
    pub vault_token: Pubkey,
    pub program_id: Pubkey,
}

/// Accounts of a trade: the pool, the address it was presented at, and the trader.
#[derive(Clone, Copy, Debug, PartialEq, Eq)]
pub struct Trade {
    pub pool: Pool,
    pub pool_address: Pubkey,
    pub user: Pubkey,
    pub program_id: Pubkey,
}

/// Accounts of an administrative change: the pool, the address it was
/// presented at, and the identity that signed.
#[derive(Clone, Copy, Debug, PartialEq, Eq)]
pub struct UpdateState {
    pub pool: Pool,
    pub pool_address: Pubkey,
    pub authority: Pubkey,
    pub program_id: Pubkey,
}

/// The record that creation writes, with the bump byte `bump`.
pub open spec fn new_pool(ctx: InitPool, args: InitPoolArgs, bump: u8) -> Pool {
    Pool {
        authority: ctx.authority,
        mint: args.mint,
        vault_sol: ctx.vault_sol,
        vault_token: ctx.vault_token,
        curve_type: args.curve_type,
        locked: false,
        graduated: false,
        graduation_dex: dex_code(GraduationDex::Raydium),
        total_sol: 0,
        total_tokens: 0,
        bump,
    }
}

/// The result of creation, given what address derivation `found` for the seeds.
pub open spec fn init_outcome(ctx: InitPool, found: Option<(Seq<u8>, u8)>, args: InitPoolArgs) -> Result<Pool, PlpError> {
    match found {
        None => Err(PlpError::AddressMismatch),
        Some((address, bump)) => if address != ctx.pool_address.bytes@ {
            Err(PlpError::AddressMismatch)
        } else if ctx.pool is Some {
            Err(PlpError::AlreadyInitialized)
        } else {
            Ok(new_pool(ctx, args, bump))
        },
    }
}

/// The result of `init_pool` on `ctx` and `args`.
pub open spec fn init_pool_outcome(ctx: InitPool, args: InitPoolArgs) -> Result<Pool, PlpError> {
    init_outcome(ctx, found_program_address(pool_seeds(args.mint), ctx.program_id.bytes@), args)
}

/// How creation leaves its result and accounts: the slot is filled on
/// success, and nothing changes on failure.
pub open spec fn init_commits(r: Result<(), PlpError>, before: InitPool, after: InitPool, outcome: Result<Pool, PlpError>) -> bool {
    match outcome {
        Ok(p) => r is Ok && after == (InitPool { pool: Some(p), ..before }),
        Err(e) => r == Err::<(), PlpError>(e) && after == before,
    }
}

/// Whether `address` re-derives from the mint and bump stored in `pool`.
pub open spec fn pool_address_valid(pool: Pool, address: Pubkey, program_id: Pubkey) -> bool {
    address_matches(program_address(pool_seeds_with_bump(pool.mint, pool.bump), program_id.bytes@), address)
}

/// The result of a trade whose effect on a pool at a valid address is `inner`.
pub open spec fn trade_outcome(ctx: Trade, inner: Result<Pool, PlpError>) -> Result<Pool, PlpError> {
    if !pool_address_valid(ctx.pool, ctx.pool_address, ctx.program_id) {
        Err(PlpError::AddressMismatch)
    } else {
        inner
    }
}

/// The result of an administrative change whose effect, once authority and
/// address are checked, is `inner`.
pub open spec fn update_outcome(ctx: UpdateState, inner: Result<Pool, PlpError>) -> Result<Pool, PlpError> {
    if ctx.authority != ctx.pool.authority {
        Err(PlpError::Unauthorized)
    } else if !pool_address_valid(ctx.pool, ctx.pool_address, ctx.program_id) {
        Err(PlpError::AddressMismatch)
    } else {
        inner
    }
}

/// Creates the pool in the slot of `ctx`, given the address and bump that
/// derivation found for the pool's seeds.
pub fn create_pool(ctx: &mut InitPool, found: Option<(Pubkey, u8)>, args: &InitPoolArgs) -> (r: Result<(), PlpError>)
    ensures
        init_commits(r, *old(ctx), *final(ctx), init_outcome(*old(ctx), found_view(found), *args)),
{
    let bump = match found {
        None => return Err(PlpError::AddressMismatch),
        Some((address, bump)) => {
            proof {
                if address.bytes@ == ctx.pool_address.bytes@ {
                    lemma_key_view_injective(address, ctx.pool_address);
                }
            }
            if !keys_equal(&address, &ctx.pool_address) {
                return Err(PlpError::AddressMismatch);
            }
            bump
        },
    };
    if ctx.pool.is_some() {
        return Err(PlpError::AlreadyInitialized);
    }
    let dex = GraduationDex::default();
    ctx.pool = Some(
        Pool {
            authority: ctx.authority,
            mint: args.mint,
            vault_sol: ctx.vault_sol,
            vault_token: ctx.vault_token,
            curve_type: args.curve_type,
            locked: false,
            graduated: false,
            graduation_dex: dex.code(),
            total_sol: 0,
            total_tokens: 0,
            bump,
        },
    );
    Ok(())
}

/// Creates the pool of `args.mint` at its canonical address, exactly once.
pub fn init_pool(ctx: &mut InitPool, args: InitPoolArgs) -> (r: Result<(), PlpError>)
    ensures
        init_commits(r, *old(ctx), *final(ctx), init_pool_outcome(*old(ctx), args)),
        r is Ok ==> (final(ctx).pool matches Some(p) && pool_address_valid(p, old(ctx).pool_address, old(ctx).program_id)),
{
    let found = derive_pool_address(&args.mint, &ctx.program_id);
    create_pool(ctx, found, &args)
}

/// Checks that the pool of `ctx` sits at the address its stored seeds derive.
fn check_trade_address(ctx: &Trade) -> (r: Result<(), PlpError>)
    ensures
        r is Ok <==> pool_address_valid(ctx.pool, ctx.pool_address, ctx.program_id),
        r is Err ==> r == Err::<(), PlpError>(PlpError::AddressMismatch),
{
    let derived = pool_address_with_bump(&ctx.pool.mint, ctx.pool.bump, &ctx.program_id);
    check_address(&derived, &ctx.pool_address)
}

/// Checks the signer and then the address of the pool of `ctx`.
fn check_update(ctx: &UpdateState) -> (r: Result<(), PlpError>)
    ensures
        r is Ok <==> ctx.authority == ctx.pool.authority
            && pool_address_valid(ctx.pool, ctx.pool_address, ctx.program_id),
        ctx.authority != ctx.pool.authority ==> r == Err::<(), PlpError>(PlpError::Unauthorized),
        ctx.authority == ctx.pool.authority && r is Err ==> r == Err::<(), PlpError>(PlpError::AddressMismatch),
{
    if !keys_equal(&ctx.authority, &ctx.pool.authority) {
        return Err(PlpError::Unauthorized);
    }
    let derived = pool_address_with_bump(&ctx.pool.mint, ctx.pool.bump, &ctx.program_id);
    check_address(&derived, &ctx.pool_address)
}

/// Adds `lamports` to the value total and `tokens` to the token total.
pub fn buy(ctx: &mut Trade, tokens: u64, lamports: u64) -> (r: Result<(), PlpError>)
    ensures
        commits(r, old(ctx).pool, final(ctx).pool, trade_outcome(*old(ctx), buy_outcome(old(ctx).pool, tokens, lamports))),
        *final(ctx) == (Trade { pool: final(ctx).pool, ..*old(ctx) }),
        r is Err ==> *final(ctx) == *old(ctx),
        old(ctx).pool.locked || old(ctx).pool.graduated ==> r is Err && *final(ctx) == *old(ctx),
{
    check_trade_address(ctx)?;
    apply_buy(&mut ctx.pool, tokens, lamports)
}

/// Subtracts `lamports` from the value total and `tokens` from the token total.
pub fn sell(ctx: &mut Trade, tokens: u64, lamports: u64) -> (r: Result<(), PlpError>)
    ensures
        commits(r, old(ctx).pool, final(ctx).pool, trade_outcome(*old(ctx), sell_outcome(old(ctx).pool, tokens, lamports))),
        *final(ctx) == (Trade { pool: final(ctx).pool, ..*old(ctx) }),
        r is Err ==> *final(ctx) == *old(ctx),
        old(ctx).pool.locked || old(ctx).pool.graduated ==> r is Err && *final(ctx) == *old(ctx),
{
    check_trade_address(ctx)?;
    apply_sell(&mut ctx.pool, tokens, lamports)
}

/// Sets the lock flag; only the pool's authority may.
pub fn lock_liquidity(ctx: &mut UpdateState, locked: bool) -> (r: Result<(), PlpError>)
    ensures
        commits(r, old(ctx).pool, final(ctx).pool, update_outcome(*old(ctx), lock_outcome(old(ctx).pool, old(ctx).authority, locked))),
        *final(ctx) == (UpdateState { pool: final(ctx).pool, ..*old(ctx) }),
        old(ctx).authority != old(ctx).pool.authority ==> r == Err::<(), PlpError>(PlpError::Unauthorized)
            && *final(ctx) == *old(ctx),
{
    check_update(ctx)?;
    let signer = ctx.authority;
    apply_lock(&mut ctx.pool, &signer, locked)
}

/// Graduates the pool to `dex`; only the pool's authority may.
pub fn graduate(ctx: &mut UpdateState, dex: GraduationDex) -> (r: Result<(), PlpError>)
    ensures
        commits(r, old(ctx).pool, final(ctx).pool, update_outcome(*old(ctx), graduate_outcome(old(ctx).pool, old(ctx).authority, dex))),
        *final(ctx) == (UpdateState { pool: final(ctx).pool, ..*old(ctx) }),
        old(ctx).authority != old(ctx).pool.authority ==> r == Err::<(), PlpError>(PlpError::Unauthorized)
            && *final(ctx) == *old(ctx),
        old(ctx).pool.graduated ==> final(ctx).pool.graduated,
{
    check_update(ctx)?;
    let signer = ctx.authority;
    apply_graduate(&mut ctx.pool, &signer, dex)
}

} // verus!
