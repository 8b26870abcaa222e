//! Accounting and authorization core of a token-staking escrow.
//!
//! A pool custodies one fungible asset in a vault owned by a keyless program
//! signer. Users deposit into the vault and withdraw from it against a
//! per-user balance; the pool keeps the total of those balances. Every
//! operation checks the presented accounts against the pool's record, and
//! returns the ledger instruction (a transfer or a mint) that the caller
//! must carry out in the same atomic transaction as the bookkeeping.
pub mod authority;
pub mod handlers;
pub mod key;
pub mod laws;
mod math;
pub mod state;

pub use authority::{derive_program_signer, verify_derived_signer, verify_program_signer};
pub use handlers::{
    airdrop, enter_staking, initialize, initialize_user_state, leave_staking, AirDrop, EnterStaking, Initialize,
    InitializeUserState, LeaveStaking, SignerSeeds, TokenMint, TokenTransfer,
};
pub use key::Key;
pub use state::{Pool, PoolError, UserState, INIT_MAGIC_NUMBER};
