use vstd::prelude::*;

use crate::pubkey::Pubkey;

verus! {

/// Audit record of a group's creation.
#[derive(Clone, Debug)]
pub struct InitializeMultisigEvent {
    pub creator: Pubkey,
    pub multisig: Pubkey,
    pub time: i64,
    pub label: String,
}

/// Audit record of a deposit of lamports.
#[derive(Clone, Debug)]
pub struct DepositLamportsEvent {
    pub payer: Pubkey,
    pub multisig: Pubkey,
    pub amount: u64,
    pub time: i64,
    pub label: String,
}

/// Audit record of a deposit of tokens.
#[derive(Clone, Debug)]
pub struct DepositTokenEvent {
    pub payer: Pubkey,
    pub mint: Pubkey,
    pub amount: u64,
    pub time: i64,
    pub label: String,
}

/// Audit record of a request's creation.
#[derive(Clone, Debug)]
pub struct CreateTransactionEvent {
    pub creator: Pubkey,
    pub transaction_account: Pubkey,
    pub amount: u64,
    pub expire: i64,
    pub time: i64,
    pub label: String,
}

/// Audit record of an approval.
#[derive(Clone, Debug)]
pub struct ApproveTransactionEvent {
    pub user: Pubkey,
    pub transaction_account: Pubkey,
    pub time: i64,
    pub label: String,
}

/// Audit record of a cancellation.
#[derive(Clone, Debug)]
pub struct CancelTransactionEvent {
    pub user: Pubkey,
    pub transaction_account: Pubkey,
    pub time: i64,
    pub label: String,
}

/// Audit record of an execution.
#[derive(Clone, Debug)]
pub struct ExecuteTransactionEvent {
    pub user: Pubkey,
    pub mint: Pubkey,
    pub amount: u64,
    pub time: i64,
    pub label: String,
}

} // verus!
