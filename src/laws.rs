use vstd::prelude::*;

use crate::pubkey::Pubkey;
use crate::state::{approvals_grow, Multisig, Transaction, TransactionStatus};
use crate::transaction::{execute_error, ExecuteAccounts};
use crate::error::ErrorCode;

verus! {

/// A completed request stays completed when expiry is checked, and every
/// further execution of it fails with `InsufficientApprovers`, whoever asks
/// and whatever the accounts.
pub proof fn lemma_completed_stays_unapproved(
    tx: Transaction,
    payer: Pubkey,
    multisig_key: Pubkey,
    accounts: ExecuteAccounts,
    now: i64,
)
    requires
        tx.status == TransactionStatus::Completed,
    ensures
        tx.status_at(now) == TransactionStatus::Completed,
        execute_error(tx, payer, multisig_key, accounts) == Some(ErrorCode::InsufficientApprovers),
{
}

/// Along a history of approval records in which each step only adds
/// approvals, an approval once recorded is present in every later record.
pub proof fn lemma_approvals_grow_transitive(history: Seq<Seq<bool>>)
    requires
        forall|k: int| 0 <= k < history.len() - 1 ==> approvals_grow(#[trigger] history[k], history[k + 1]),
    ensures
        forall|i: int, j: int|
            0 <= i <= j < history.len() ==> approvals_grow(#[trigger] history[i], #[trigger] history[j]),
{
    assert forall|i: int, j: int|
        0 <= i <= j < history.len() implies approvals_grow(#[trigger] history[i], #[trigger] history[j]) by {
        lemma_approvals_grow_from(history, i, j);
    }
}

proof fn lemma_approvals_grow_from(history: Seq<Seq<bool>>, i: int, j: int)
    requires
        forall|k: int| 0 <= k < history.len() - 1 ==> approvals_grow(#[trigger] history[k], history[k + 1]),
        0 <= i <= j < history.len(),
    ensures
        approvals_grow(history[i], history[j]),
    decreases j - i,
{
    if i < j {
        lemma_approvals_grow_from(history, i, j - 1);
        assert(approvals_grow(history[j - 1], history[j]));
    }
}

/// Along a history of a group in which each step creates one request, the
/// transaction counter, and so the nonce of each new request, strictly
/// increases.
pub proof fn lemma_tx_count_strictly_increases(history: Seq<Multisig>)
    requires
        forall|k: int|
            0 <= k < history.len() - 1 ==> (#[trigger] history[k]).tx_count + 1 == history[k + 1].tx_count,
    ensures
        forall|i: int, j: int|
            0 <= i < j < history.len() ==> (#[trigger] history[i]).tx_count < (#[trigger] history[j]).tx_count,
{
    assert forall|i: int, j: int|
        0 <= i < j < history.len() implies (#[trigger] history[i]).tx_count < (
        #[trigger] history[j]).tx_count by {
        lemma_tx_count_from(history, i, j);
    }
}

proof fn lemma_tx_count_from(history: Seq<Multisig>, i: int, j: int)
    requires
        forall|k: int|
            0 <= k < history.len() - 1 ==> (#[trigger] history[k]).tx_count + 1 == history[k + 1].tx_count,
        0 <= i < j < history.len(),
    ensures
        history[i].tx_count < history[j].tx_count,
    decreases j - i,
{
    assert(history[j - 1].tx_count + 1 == history[j].tx_count);
    if i < j - 1 {
        lemma_tx_count_from(history, i, j - 1);
    }
}

} // verus!
