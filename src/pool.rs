use vstd::prelude::*;

verus! {

/// A 32-byte account identity (an authority, a vault or a pool address).
#[derive(Clone, Copy, Debug, PartialEq, Eq)]
pub struct Pubkey {
    pub bytes: [u8; 32],
}

/// Two identities with the same bytes are the same identity.
pub proof fn lemma_key_view_injective(a: Pubkey, b: Pubkey)
    requires
        a.bytes@ == b.bytes@,
    ensures
        a == b,
{
    assert forall|i: int| 0 <= i < 32 implies a.bytes[i] == b.bytes[i] by {
        assert(a.bytes@[i] == b.bytes@[i]);
    }
    assert(a.bytes =~= b.bytes);
}

/// Compares two identities byte by byte.
pub fn keys_equal(a: &Pubkey, b: &Pubkey) -> (r: bool)
    ensures
        r == (*a == *b),
{
    let mut i: usize = 0;
    while i < 32
        invariant
            0 <= i <= 32,
            forall|j: int| 0 <= j < i ==> a.bytes[j] == b.bytes[j],
        decreases 32 - i,
    {
        if a.bytes[i] != b.bytes[i] {
            return false;
        }
        i = i + 1;
    }
    assert(a.bytes =~= b.bytes);
    true
}

} // verus!

verus! {

/// Venue a pool migrates to when it graduates.
#[derive(Clone, Copy, Debug, PartialEq, Eq, Structural)]
pub enum GraduationDex {
    Raydium,
    Orca,
    Jupiter,
}

/// The byte under which a venue is recorded in a pool.
pub open spec fn dex_code(dex: GraduationDex) -> u8 {
    match dex {
        GraduationDex::Raydium => 0,
        GraduationDex::Orca => 1,
        GraduationDex::Jupiter => 2,
    }
}

impl GraduationDex {
    /// The byte stored in `Pool::graduation_dex` for this venue.
    pub fn code(&self) -> (r: u8)
        ensures
            r == dex_code(*self),
    {
        match self {
            GraduationDex::Raydium => 0,
            GraduationDex::Orca => 1,
            GraduationDex::Jupiter => 2,
        }
    }
}

impl Default for GraduationDex {
    /// A pool that has not graduated records the first venue.
    fn default() -> (r: GraduationDex)
        ensures
            r == GraduationDex::Raydium,
    {
        GraduationDex::Raydium
    }
}

/// Every way an instruction can be rejected.
#[derive(Clone, Copy, Debug, PartialEq, Eq, Structural)]
pub enum PlpError {
    LiquidityLocked,
    PoolGraduated,
    ValueOverflow,
    TokenOverflow,
    InsufficientValue,
    InsufficientTokens,
    Unauthorized,
    AlreadyInitialized,
    AddressMismatch,
}

impl PlpError {
    /// Human-readable description of the failure.
    pub fn message(&self) -> (r: &'static str) {
        match self {
            PlpError::LiquidityLocked => "Liquidity is locked",
            PlpError::PoolGraduated => "Pool already graduated",
            PlpError::ValueOverflow => "Value total overflow",
            PlpError::TokenOverflow => "Token total overflow",
            PlpError::InsufficientValue => "Insufficient value",
            PlpError::InsufficientTokens => "Insufficient tokens",
            PlpError::Unauthorized => "Signer is not the pool authority",
            PlpError::AlreadyInitialized => "Pool already initialized",
            PlpError::AddressMismatch => "Pool address does not match its seeds",
        }
    }
}

/// The persisted record of one pool.
#[derive(Clone, Copy, Debug, PartialEq, Eq)]
pub struct Pool {
    pub authority: Pubkey,
    pub mint: Pubkey,
    pub vault_sol: Pubkey,
    pub vault_token: Pubkey,
    pub curve_type: u8,
    pub locked: bool,
    pub graduated: bool,
    pub graduation_dex: u8,
    pub total_sol: u64,
    pub total_tokens: u64,
    pub bump: u8,
}

impl Pool {
    /// Serialized size of the record: four identities, four single bytes,
    /// two counters and the bump byte.
    pub const LEN: usize = 32 + 32 + 32 + 32 + 1 + 1 + 1 + 1 + 8 + 8 + 1;
}

/// Arguments of pool creation.
#[derive(Clone, Copy, Debug, PartialEq, Eq)]
pub struct InitPoolArgs {
    pub mint: Pubkey,
    pub curve_type: u8,
}

/// How a call that either commits `outcome` or fails leaves its result and record.
pub open spec fn commits(r: Result<(), PlpError>, before: Pool, after: Pool, outcome: Result<Pool, PlpError>) -> bool {
    match outcome {
        Ok(p) => r is Ok && after == p,
        Err(e) => r == Err::<(), PlpError>(e) && after == before,
    }
}

/// Trading is allowed on a pool that is neither locked nor graduated.
pub open spec fn trading_open(pool: Pool) -> bool {
    !pool.locked && !pool.graduated
}

/// The result of a purchase of `tokens` for `lamports` on `pool`.
pub open spec fn buy_outcome(pool: Pool, tokens: u64, lamports: u64) -> Result<Pool, PlpError> {
    if pool.graduated {
        Err(PlpError::PoolGraduated)
    } else if pool.locked {
        Err(PlpError::LiquidityLocked)
    } else if pool.total_sol + lamports > u64::MAX {
        Err(PlpError::ValueOverflow)
    } else if pool.total_tokens + tokens > u64::MAX {
        Err(PlpError::TokenOverflow)
    } else {
        Ok(Pool {
            total_sol: (pool.total_sol + lamports) as u64,
            total_tokens: (pool.total_tokens + tokens) as u64,
            ..pool
        })
    }
}

/// The result of a sale of `tokens` for `lamports` on `pool`.
pub open spec fn sell_outcome(pool: Pool, tokens: u64, lamports: u64) -> Result<Pool, PlpError> {
    if pool.graduated {
        Err(PlpError::PoolGraduated)
    } else if pool.locked {
        Err(PlpError::LiquidityLocked)
    } else if lamports > pool.total_sol {
        Err(PlpError::InsufficientValue)
    } else if tokens > pool.total_tokens {
        Err(PlpError::InsufficientTokens)
    } else {
        Ok(Pool {
            total_sol: (pool.total_sol - lamports) as u64,
            total_tokens: (pool.total_tokens - tokens) as u64,
            ..pool
        })
    }
}

/// The result of `signer` setting the lock flag of `pool` to `locked`.
pub open spec fn lock_outcome(pool: Pool, signer: Pubkey, locked: bool) -> Result<Pool, PlpError> {
    if signer != pool.authority {
        Err(PlpError::Unauthorized)
    } else {
        Ok(Pool { locked, ..pool })
    }
}

/// The result of `signer` graduating `pool` to `dex`.
pub open spec fn graduate_outcome(pool: Pool, signer: Pubkey, dex: GraduationDex) -> Result<Pool, PlpError> {
    if signer != pool.authority {
        Err(PlpError::Unauthorized)
    } else {
        Ok(Pool { graduated: true, graduation_dex: dex_code(dex), ..pool })
    }
}

/// Records a purchase: both totals grow by the deltas, or nothing changes.
pub fn apply_buy(pool: &mut Pool, tokens: u64, lamports: u64) -> (r: Result<(), PlpError>)
    ensures
        commits(r, *old(pool), *final(pool), buy_outcome(*old(pool), tokens, lamports)),
        r is Err ==> *final(pool) == *old(pool),
        old(pool).graduated ==> r == Err::<(), PlpError>(PlpError::PoolGraduated),
        old(pool).locked && !old(pool).graduated ==> r == Err::<(), PlpError>(PlpError::LiquidityLocked),
        r is Ok ==> final(pool).total_sol == old(pool).total_sol + lamports
            && final(pool).total_tokens == old(pool).total_tokens + tokens,
{
    if pool.graduated {
        return Err(PlpError::PoolGraduated);
    }
    if pool.locked {
        return Err(PlpError::LiquidityLocked);
    }
    let total_sol = match pool.total_sol.checked_add(lamports) {
        Some(v) => v,
        None => return Err(PlpError::ValueOverflow),
    };
    let total_tokens = match pool.total_tokens.checked_add(tokens) {
        Some(v) => v,
        None => return Err(PlpError::TokenOverflow),
    };
    pool.total_sol = total_sol;
    pool.total_tokens = total_tokens;
    Ok(())
}

/// Records a sale: both totals shrink by the deltas, or nothing changes.
pub fn apply_sell(pool: &mut Pool, tokens: u64, lamports: u64) -> (r: Result<(), PlpError>)
    ensures
        commits(r, *old(pool), *final(pool), sell_outcome(*old(pool), tokens, lamports)),
        r is Err ==> *final(pool) == *old(pool),
        old(pool).graduated ==> r == Err::<(), PlpError>(PlpError::PoolGraduated),
        old(pool).locked && !old(pool).graduated ==> r == Err::<(), PlpError>(PlpError::LiquidityLocked),
        trading_open(*old(pool)) && lamports > old(pool).total_sol
            ==> r == Err::<(), PlpError>(PlpError::InsufficientValue),
        trading_open(*old(pool)) && lamports <= old(pool).total_sol && tokens > old(pool).total_tokens
            ==> r == Err::<(), PlpError>(PlpError::InsufficientTokens),
        r is Ok ==> final(pool).total_sol == old(pool).total_sol - lamports
            && final(pool).total_tokens == old(pool).total_tokens - tokens,
{
    if pool.graduated {
        return Err(PlpError::PoolGraduated);
    }
    if pool.locked {
        return Err(PlpError::LiquidityLocked);
    }
    let total_sol = match pool.total_sol.checked_sub(lamports) {
        Some(v) => v,
        None => return Err(PlpError::InsufficientValue),
    };
    let total_tokens = match pool.total_tokens.checked_sub(tokens) {
        Some(v) => v,
        None => return Err(PlpError::InsufficientTokens),
    };
    pool.total_sol = total_sol;
    pool.total_tokens = total_tokens;
    Ok(())
}

/// Sets the lock flag when `signer` is the pool's authority.
pub fn apply_lock(pool: &mut Pool, signer: &Pubkey, locked: bool) -> (r: Result<(), PlpError>)
    ensures
        commits(r, *old(pool), *final(pool), lock_outcome(*old(pool), *signer, locked)),
        *signer != old(pool).authority ==> r == Err::<(), PlpError>(PlpError::Unauthorized)
            && *final(pool) == *old(pool),
{
    if !keys_equal(signer, &pool.authority) {
        return Err(PlpError::Unauthorized);
    }
    pool.locked = locked;
    Ok(())
}

/// Marks the pool graduated to `dex` when `signer` is the pool's authority.
pub fn apply_graduate(pool: &mut Pool, signer: &Pubkey, dex: GraduationDex) -> (r: Result<(), PlpError>)
    ensures
        commits(r, *old(pool), *final(pool), graduate_outcome(*old(pool), *signer, dex)),
        *signer != old(pool).authority ==> r == Err::<(), PlpError>(PlpError::Unauthorized)
            && *final(pool) == *old(pool),
        old(pool).graduated ==> final(pool).graduated,
{
    if !keys_equal(signer, &pool.authority) {
        return Err(PlpError::Unauthorized);
    }
    pool.graduated = true;
    pool.graduation_dex = dex.code();
    Ok(())
}

} // verus!
