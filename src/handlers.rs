use vstd::prelude::*;

use crate::authority::{
    derive_program_signer, derived_signer, find_program_address, program_address, signer_matches, signer_view,
    verify_derived_signer,
};
use crate::key::Key;
use crate::math::{safe_add, safe_sub};
use crate::state::{Pool, PoolError, UserState, INIT_MAGIC_NUMBER};

verus! {

/// Accounts presented to create a pool.
#[derive(Clone, Copy, Debug)]
pub struct Initialize {
    pub pool: Key,
    pub mint: Key,
    /// The mint's minting authority, if it has one.
    pub mint_authority: Option<Key>,
    /// The mint's freeze authority, if it has one.
    pub freeze_authority: Option<Key>,
    pub program_signer: Key,
    pub vault: Key,
    /// The mint of the tokens that `vault` holds.
    pub vault_mint: Key,
    /// The owner of `vault`.
    pub vault_owner: Key,
    pub authority: Key,
}

impl Initialize {
    /// The program signer mints the tokens and the signing authority may
    /// freeze them.
    pub open spec fn mint_authorities_ok(&self) -> bool {
        &&& self.mint_authority matches Some(a) && a@ == self.program_signer@
        &&& self.freeze_authority matches Some(f) && f@ == self.authority@
    }

    /// The vault holds the mint and belongs to the program signer.
    pub open spec fn vault_ok(&self) -> bool {
        self.vault_mint@ == self.mint@ && self.vault_owner@ == self.program_signer@
    }
}

/// Whether an optional identity is present and equal to `k`.
fn holds_key(o: &Option<Key>, k: &Key) -> (r: bool)
    ensures
        r == (*o matches Some(x) && x@ == k@),
{
    match o {
        Some(x) => x.same(k),
        None => false,
    }
}

/// The first check that a pool initialization fails, or `None` when all
/// pass.
pub open spec fn initialize_error(ctx: Initialize, pool: Pool, program_id: Seq<u8>, nonce: u8) -> Option<PoolError> {
    if !signer_matches(derived_signer(ctx.mint@, ctx.pool@, program_id), ctx.program_signer@, nonce) {
        Some(PoolError::InvalidProgramSigner)
    } else if !ctx.mint_authorities_ok() {
        Some(PoolError::InvalidMintAuthority)
    } else if !ctx.vault_ok() {
        Some(PoolError::InvalidVault)
    } else if pool.is_valid() {
        Some(PoolError::PoolAlreadyInitialized)
    } else {
        None
    }
}

/// The seeds with which the program signs for the vault's owner.
#[derive(Clone, Copy, Debug)]
pub struct SignerSeeds {
    pub mint: Key,
    pub pool: Key,
    pub nonce: u8,
}

/// A token transfer for the ledger to carry out. Without seeds it is
/// authorized by the signature of `authority`; with seeds, by the program
/// signer that they derive.
#[derive(Clone, Copy, Debug)]
pub struct TokenTransfer {
    pub from: Key,
    pub to: Key,
    pub authority: Key,
    pub amount: u64,
    pub signer_seeds: Option<SignerSeeds>,
}

/// The state left after a successful initialization of `pool`.
pub open spec fn initialized_pool(ctx: Initialize, nonce: u8, pool: Pool) -> bool {
    &&& pool.magic == INIT_MAGIC_NUMBER
    &&& pool.mint@ == ctx.mint@
    &&& pool.vault@ == ctx.vault@
    &&& pool.program_signer@ == ctx.program_signer@
    &&& pool.nonce == nonce
    &&& pool.staked_total == 0
}

/// Creates a pool: the claimed program signer and nonce must be what
/// `[mint, pool]` derives under `program_id`, the mint and vault must be
/// under that signer, and the pool record must not carry the
/// initialization marker yet. A pool is initialized once only.
pub fn initialize(ctx: &Initialize, pool: &mut Pool, program_id: &Key, nonce: u8) -> (r: Result<(), PoolError>)
    ensures
        r is Ok <==> initialize_error(*ctx, *old(pool), program_id@, nonce) is None,
        r is Err ==> Some(r->Err_0) == initialize_error(*ctx, *old(pool), program_id@, nonce),
        r is Ok ==> initialized_pool(*ctx, nonce, *final(pool)),
        !(derived_signer(ctx.mint@, ctx.pool@, program_id@) matches Some(d) && d.0 == ctx.program_signer@)
            ==> r == Err::<(), PoolError>(PoolError::InvalidProgramSigner),
        old(pool).is_valid() ==> r is Err,
        r is Err ==> *final(pool) == *old(pool),
{
    let derived = derive_program_signer(&ctx.mint, &ctx.pool, program_id);
    if !verify_derived_signer(&derived, &ctx.program_signer, nonce) {
        return Err(PoolError::InvalidProgramSigner);
    }
    if !(holds_key(&ctx.mint_authority, &ctx.program_signer) && holds_key(&ctx.freeze_authority, &ctx.authority)) {
        return Err(PoolError::InvalidMintAuthority);
    }
    if !(ctx.vault_mint.same(&ctx.mint) && ctx.vault_owner.same(&ctx.program_signer)) {
        return Err(PoolError::InvalidVault);
    }
    if pool.is_initialized() {
        return Err(PoolError::PoolAlreadyInitialized);
    }
    pool.magic = INIT_MAGIC_NUMBER;
    pool.mint = ctx.mint;
    pool.vault = ctx.vault;
    pool.program_signer = ctx.program_signer;
    pool.nonce = nonce;
    pool.staked_total = 0;
    Ok(())
}

/// Accounts presented to deposit into a pool.
#[derive(Clone, Copy, Debug)]
pub struct EnterStaking {
    pub pool: Key,
    pub mint: Key,
    pub vault: Key,
    pub user_mint_acc: Key,
    /// The owner of `user_mint_acc`.
    pub user_mint_acc_owner: Key,
    /// The mint of the tokens that `user_mint_acc` holds.
    pub user_mint_acc_mint: Key,
    pub authority: Key,
}

impl EnterStaking {
    /// The user's token account belongs to the signing user and holds the
    /// presented mint.
    pub open spec fn user_account_ok(&self) -> bool {
        self.user_mint_acc_owner@ == self.authority@ && self.user_mint_acc_mint@ == self.mint@
    }
}

/// Accounts presented to withdraw from a pool.
#[derive(Clone, Copy, Debug)]
pub struct LeaveStaking {
    pub pool: Key,
    pub program_signer: Key,
    pub mint: Key,
    pub vault: Key,
    pub user_mint_acc: Key,
    /// The owner of `user_mint_acc`.
    pub user_mint_acc_owner: Key,
    /// The mint of the tokens that `user_mint_acc` holds.
    pub user_mint_acc_mint: Key,
    pub authority: Key,
}

impl LeaveStaking {
    /// The user's token account belongs to the signing user and holds the
    /// presented mint.
    pub open spec fn user_account_ok(&self) -> bool {
        self.user_mint_acc_owner@ == self.authority@ && self.user_mint_acc_mint@ == self.mint@
    }
}

/// `after` is `before` with `delta` added to the pool's total and to the
/// user's staked amount, all else unchanged.
pub open spec fn stake_moved(pool0: Pool, user0: UserState, pool1: Pool, user1: UserState, delta: int) -> bool {
    &&& pool1.staked_total == pool0.staked_total + delta
    &&& pool1 == (Pool { staked_total: pool1.staked_total, ..pool0 })
    &&& user1.staked_amount == user0.staked_amount + delta
    &&& user1 == (UserState { staked_amount: user1.staked_amount, ..user0 })
}

/// The first check that a staking request fails, in the order in which
/// they are made, or `None` when all pass. `user_account_ok` says whether
/// the user's token account belongs to the user and holds the mint.
/// Deposits (`deposit`) fail on overflow, withdrawals on underflow.
pub open spec fn staking_error(
    pool: Pool,
    user: UserState,
    mint: Seq<u8>,
    vault: Seq<u8>,
    amount: u64,
    deposit: bool,
    user_account_ok: bool,
) -> Option<PoolError> {
    if amount == 0 {
        Some(PoolError::ZeroAmount)
    } else if !pool.is_valid() {
        Some(PoolError::PoolNotInitialized)
    } else if pool.mint@ != mint {
        Some(PoolError::InvalidMint)
    } else if pool.vault@ != vault {
        Some(PoolError::InvalidVault)
    } else if !user.initialized {
        Some(PoolError::UserNotInitialized)
    } else if !user_account_ok {
        Some(PoolError::InvalidUserMintAccount)
    } else if deposit && (pool.staked_total + amount > u64::MAX || user.staked_amount + amount > u64::MAX) {
        Some(PoolError::ArithmeticOverflow)
    } else if !deposit && (amount > pool.staked_total || amount > user.staked_amount) {
        Some(PoolError::ArithmeticUnderflow)
    } else {
        None
    }
}

/// The checks shared by deposits and withdrawals, up to the arithmetic.
fn check_staking(
    pool: &Pool,
    user: &UserState,
    mint: &Key,
    vault: &Key,
    amount: u64,
    user_account_ok: bool,
) -> (r: Result<(), PoolError>)
    ensures
        r is Err ==> Some(r->Err_0) == staking_error(*pool, *user, mint@, vault@, amount, true, user_account_ok)
            && Some(r->Err_0) == staking_error(*pool, *user, mint@, vault@, amount, false, user_account_ok),
        r is Ok ==> amount > 0 && pool.is_valid() && pool.mint@ == mint@ && pool.vault@ == vault@ && user.initialized
            && user_account_ok,
{
    if amount == 0 {
        return Err(PoolError::ZeroAmount);
    }
    if !pool.is_initialized() {
        return Err(PoolError::PoolNotInitialized);
    }
    if !pool.mint.same(mint) {
        return Err(PoolError::InvalidMint);
    }
    if !pool.vault.same(vault) {
        return Err(PoolError::InvalidVault);
    }
    if !user.initialized {
        return Err(PoolError::UserNotInitialized);
    }
    if !user_account_ok {
        return Err(PoolError::InvalidUserMintAccount);
    }
    Ok(())
}

/// Deposits `amount` of the user's tokens into the pool. On success both
/// balances grow by `amount`, and the transfer from the user's token account
/// into the vault, signed by the user, is returned for the ledger to carry
/// out in the same transaction. On failure nothing changes.
pub fn enter_staking(ctx: &EnterStaking, pool: &mut Pool, user_state: &mut UserState, amount: u64) -> (r: Result<TokenTransfer, PoolError>)
    ensures
        r is Ok <==> staking_error(*old(pool), *old(user_state), ctx.mint@, ctx.vault@, amount, true, ctx.user_account_ok()) is None,
        amount == 0 ==> r == Err::<TokenTransfer, PoolError>(PoolError::ZeroAmount),
        amount > 0 && old(pool).is_valid() && old(pool).mint@ == ctx.mint@ && old(pool).vault@ == ctx.vault@
            && !old(user_state).initialized ==> r == Err::<TokenTransfer, PoolError>(PoolError::UserNotInitialized),
        r is Err ==> Some(r->Err_0) == staking_error(*old(pool), *old(user_state), ctx.mint@, ctx.vault@, amount, true, ctx.user_account_ok()),
        r is Err ==> *final(pool) == *old(pool) && *final(user_state) == *old(user_state),
        r is Ok ==> stake_moved(*old(pool), *old(user_state), *final(pool), *final(user_state), amount as int),
        r matches Ok(t) ==> t.from@ == ctx.user_mint_acc@ && t.to@ == ctx.vault@ && t.authority@ == ctx.authority@
            && t.amount == amount && t.signer_seeds is None,
{
    let user_account_ok = ctx.user_mint_acc_owner.same(&ctx.authority) && ctx.user_mint_acc_mint.same(&ctx.mint);
    check_staking(pool, user_state, &ctx.mint, &ctx.vault, amount, user_account_ok)?;
    let total = match safe_add(pool.staked_total, amount) {
        Some(v) => v,
        None => return Err(PoolError::ArithmeticOverflow),
    };
    let staked = match safe_add(user_state.staked_amount, amount) {
        Some(v) => v,
        None => return Err(PoolError::ArithmeticOverflow),
    };
    pool.staked_total = total;
    user_state.staked_amount = staked;
    Ok(TokenTransfer {
        from: ctx.user_mint_acc,
        to: ctx.vault,
        authority: ctx.authority,
        amount,
        signer_seeds: None,
    })
}

/// Withdraws `amount` from the user's stake. On success both balances
/// shrink by `amount`, and the transfer from the vault to the user's token
/// account, signed with the program signer's seeds, is returned for the
/// ledger to carry out in the same transaction. On failure nothing changes.
pub fn leave_staking(ctx: &LeaveStaking, pool: &mut Pool, user_state: &mut UserState, amount: u64) -> (r: Result<TokenTransfer, PoolError>)
    ensures
        r is Ok <==> staking_error(*old(pool), *old(user_state), ctx.mint@, ctx.vault@, amount, false, ctx.user_account_ok()) is None,
        amount == 0 ==> r == Err::<TokenTransfer, PoolError>(PoolError::ZeroAmount),
        amount > 0 && old(pool).is_valid() && old(pool).mint@ == ctx.mint@ && old(pool).vault@ == ctx.vault@
            && !old(user_state).initialized ==> r == Err::<TokenTransfer, PoolError>(PoolError::UserNotInitialized),
        r is Err ==> Some(r->Err_0) == staking_error(*old(pool), *old(user_state), ctx.mint@, ctx.vault@, amount, false, ctx.user_account_ok()),
        r is Err ==> *final(pool) == *old(pool) && *final(user_state) == *old(user_state),
        r is Ok ==> stake_moved(*old(pool), *old(user_state), *final(pool), *final(user_state), -(amount as int)),
        r matches Ok(t) ==> t.from@ == ctx.vault@ && t.to@ == ctx.user_mint_acc@ && t.authority@ == ctx.program_signer@
            && t.amount == amount && (t.signer_seeds matches Some(s)
            && s.mint@ == ctx.mint@ && s.pool@ == ctx.pool@ && s.nonce == old(pool).nonce),
{
    let user_account_ok = ctx.user_mint_acc_owner.same(&ctx.authority) && ctx.user_mint_acc_mint.same(&ctx.mint);
    check_staking(pool, user_state, &ctx.mint, &ctx.vault, amount, user_account_ok)?;
    let total = match safe_sub(pool.staked_total, amount) {
        Some(v) => v,
        None => return Err(PoolError::ArithmeticUnderflow),
    };
    let staked = match safe_sub(user_state.staked_amount, amount) {
        Some(v) => v,
        None => return Err(PoolError::ArithmeticUnderflow),
    };
    pool.staked_total = total;
    user_state.staked_amount = staked;
    Ok(TokenTransfer {
        from: ctx.vault,
        to: ctx.user_mint_acc,
        authority: ctx.program_signer,
        amount,
        signer_seeds: Some(SignerSeeds { mint: ctx.mint, pool: ctx.pool, nonce: pool.nonce }),
    })
}

/// Accounts presented to mint new tokens to a user.
#[derive(Clone, Copy, Debug)]
pub struct AirDrop {
    pub pool: Key,
    pub program_signer: Key,
    pub mint: Key,
    pub user_mint_acc: Key,
    /// The mint of the tokens that `user_mint_acc` holds.
    pub user_mint_acc_mint: Key,
    /// The owner of `user_mint_acc`.
    pub user_mint_acc_owner: Key,
    pub authority: Key,
}

/// A mint of new tokens for the ledger to carry out, signed with the
/// program signer's seeds.
#[derive(Clone, Copy, Debug)]
pub struct TokenMint {
    pub mint: Key,
    pub to: Key,
    pub authority: Key,
    pub amount: u64,
    pub signer_seeds: SignerSeeds,
}

/// The first check that an airdrop fails, or `None` when all pass.
pub open spec fn airdrop_error(ctx: AirDrop, pool: Pool) -> Option<PoolError> {
    if !pool.is_valid() {
        Some(PoolError::PoolNotInitialized)
    } else if pool.mint@ != ctx.mint@ {
        Some(PoolError::InvalidMint)
    } else if pool.program_signer@ != ctx.program_signer@ {
        Some(PoolError::InvalidProgramSigner)
    } else if pool.mint@ != ctx.user_mint_acc_mint@ || ctx.user_mint_acc_owner@ != ctx.authority@ {
        Some(PoolError::InvalidUserMintAccount)
    } else {
        None
    }
}

/// Checks an airdrop against the pool and returns the mint of `amount` new
/// tokens into the user's token account, signed by the program signer. Any
/// amount, zero included, is accepted. The staking balances are not touched.
pub fn airdrop(ctx: &AirDrop, pool: &Pool, amount: u64) -> (r: Result<TokenMint, PoolError>)
    ensures
        r is Ok <==> airdrop_error(*ctx, *pool) is None,
        r is Err ==> Some(r->Err_0) == airdrop_error(*ctx, *pool),
        r matches Ok(m) ==> m.mint@ == ctx.mint@ && m.to@ == ctx.user_mint_acc@ && m.authority@ == ctx.program_signer@
            && m.amount == amount && m.signer_seeds.mint@ == pool.mint@ && m.signer_seeds.pool@ == ctx.pool@
            && m.signer_seeds.nonce == pool.nonce,
{
    if !pool.is_initialized() {
        return Err(PoolError::PoolNotInitialized);
    }
    if !pool.mint.same(&ctx.mint) {
        return Err(PoolError::InvalidMint);
    }
    if !pool.program_signer.same(&ctx.program_signer) {
        return Err(PoolError::InvalidProgramSigner);
    }
    if !(pool.mint.same(&ctx.user_mint_acc_mint) && ctx.user_mint_acc_owner.same(&ctx.authority)) {
        return Err(PoolError::InvalidUserMintAccount);
    }
    Ok(TokenMint {
        mint: ctx.mint,
        to: ctx.user_mint_acc,
        authority: ctx.program_signer,
        amount,
        signer_seeds: SignerSeeds { mint: pool.mint, pool: ctx.pool, nonce: pool.nonce },
    })
}

/// Accounts presented to create a user's staking record.
#[derive(Clone, Copy, Debug)]
pub struct InitializeUserState {
    pub pool: Key,
    pub authority: Key,
}

impl InitializeUserState {
    /// The address of the user's record: derived from `[pool, authority]`
    /// under `program_id`, so one record exists per pool and user.
    pub fn user_state_address(&self, program_id: &Key) -> (r: Option<(Key, u8)>)
        ensures
            signer_view(r) == program_address(seq![self.pool@, self.authority@], program_id@),
    {
        find_program_address(&self.pool, &self.authority, program_id)
    }
}

/// Initializes a user's staking record with nothing staked. A record that
/// is already initialized is refused and left as it is.
pub fn initialize_user_state(user_state: &mut UserState) -> (r: Result<(), PoolError>)
    ensures
        r is Ok <==> !old(user_state).initialized,
        r is Ok ==> final(user_state).initialized && final(user_state).staked_amount == 0,
        r is Err ==> r == Err::<(), PoolError>(PoolError::UserAlreadyInitialized) && *final(user_state) == *old(user_state),
{
    if user_state.initialized {
        return Err(PoolError::UserAlreadyInitialized);
    }
    user_state.initialized = true;
    user_state.staked_amount = 0;
    Ok(())
}

} // verus!
