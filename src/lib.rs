//! A multi-signature custody engine: a group of owners holds pooled assets,
//! and a transfer leaves the group only after a threshold of its owners has
//! approved it.
//!
//! The state machine of a transfer request, the group registry and the checks
//! made on deposits and executions are verified here. Moving funds, storing
//! accounts and reading the clock are left to the caller, which hands the
//! library plain values and applies the decisions it returns.

mod error;
mod events;
mod instructions;
mod laws;
mod pubkey;
mod state;
mod transaction;
mod token_account;

pub use error::ErrorCode;
pub use events::{
    ApproveTransactionEvent, CancelTransactionEvent, CreateTransactionEvent, DepositLamportsEvent,
    DepositTokenEvent, ExecuteTransactionEvent, InitializeMultisigEvent,
};
pub use instructions::{
    assert_unique_owners, deposit, deposit_lamports, deposit_token, initialize_multisig,
    initialize_user, DepositSource,
};
pub use laws::{
    lemma_approvals_grow_transitive, lemma_completed_stays_unapproved, lemma_tx_count_strictly_increases,
};
pub use pubkey::{native_mint, Pubkey};
pub use state::{Multisig, Transaction, TransactionStatus, TransactionType, User, MAX_OWNERS};
pub use token_account::{TokenAccount, TOKEN_ACCOUNT_LEN};
pub use transaction::{
    approve_transaction, cancel_transaction, check_executable, create_transaction,
    execute_token_transaction, execute_transaction, ExecuteAccounts,
};
