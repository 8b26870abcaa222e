use vstd::prelude::*;

use crate::key::Key;

verus! {

/// Marker written into a pool record when it is initialized.
pub const INIT_MAGIC_NUMBER: u64 = 0x6666;

/// Why an operation on a pool was refused.
#[derive(Clone, Copy, Debug, PartialEq, Eq, Structural)]
pub enum PoolError {
    /// The presented mint is not the pool's mint.
    InvalidMint,
    /// The presented vault is not the pool's vault, or does not hold the
    /// mint under the program signer.
    InvalidVault,
    /// The mint's minting authority is not the program signer, or its
    /// freeze authority is not the signing authority.
    InvalidMintAuthority,
    /// The presented signer or nonce is not the derived program signer.
    InvalidProgramSigner,
    /// The user's token account holds another mint than the pool's, or
    /// does not belong to the signing user.
    InvalidUserMintAccount,
    /// The user's staking record was never initialized.
    UserNotInitialized,
    /// The user's staking record is already initialized.
    UserAlreadyInitialized,
    /// The pool record does not carry the initialization marker.
    PoolNotInitialized,
    /// The pool record already carries the initialization marker.
    PoolAlreadyInitialized,
    /// A staking amount of zero was requested.
    ZeroAmount,
    /// A balance would exceed `u64::MAX`.
    ArithmeticOverflow,
    /// A balance would go below zero.
    ArithmeticUnderflow,
}

/// The shared record of one staking pool.
#[derive(Clone, Copy, Debug)]
pub struct Pool {
    pub magic: u64,
    /// Keyless signer that owns the vault.
    pub program_signer: Key,
    /// The mint of the token staked in.
    pub mint: Key,
    /// Token account that holds everything staked.
    pub vault: Key,
    /// Sum of all users' staked amounts.
    pub staked_total: u64,
    /// Bump seed that, with `[mint, pool]`, derives the program signer.
    pub nonce: u8,
}

impl Pool {
    /// A pool record that was allocated and never written.
    pub fn zeroed() -> (r: Pool)
        ensures
            !r.is_valid(),
            r.staked_total == 0,
    {
        Pool {
            magic: 0,
            program_signer: Key::zeroed(),
            mint: Key::zeroed(),
            vault: Key::zeroed(),
            staked_total: 0,
            nonce: 0,
        }
    }

    /// The record carries the initialization marker.
    pub open spec fn is_valid(&self) -> bool {
        self.magic == INIT_MAGIC_NUMBER
    }

    /// Whether the record carries the initialization marker.
    pub fn is_initialized(&self) -> (r: bool)
        ensures
            r == self.is_valid(),
    {
        self.magic == INIT_MAGIC_NUMBER
    }
}

/// The staking record of one user in one pool.
#[derive(Clone, Copy, Debug, PartialEq, Eq, Structural)]
pub struct UserState {
    pub initialized: bool,
    pub staked_amount: u64,
}

impl UserState {
    /// A user record that was allocated and never written.
    pub fn zeroed() -> (r: UserState)
        ensures
            !r.initialized,
            r.staked_amount == 0,
    {
        UserState { initialized: false, staked_amount: 0 }
    }

    /// In-memory size of the record.
    pub fn size() -> (r: usize)
        ensures
            r == vstd::layout::size_of::<UserState>(),
    {
        core::mem::size_of::<UserState>()
    }
}

} // verus!
