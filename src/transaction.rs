use vstd::prelude::*;

use crate::error::ErrorCode;
use crate::instructions::outcome;
use crate::pubkey::{contains_key, native_mint, native_mint_bytes, position, Pubkey};
use crate::state::{
    approvals_grow, count_true, Multisig, Transaction, TransactionStatus, TransactionType,
};
use crate::token_account::{lemma_read_unique, read_from, unpacks, TokenAccount};

verus! {

/// Whether `mint` stands for the native currency.
pub open spec fn is_native_mint(mint: Pubkey) -> bool {
    mint.bytes@ == native_mint_bytes()
}

/// A copy of `keys`.
fn copy_keys(keys: &Vec<Pubkey>) -> (r: Vec<Pubkey>)
    ensures
        r@ == keys@,
{
    let mut r: Vec<Pubkey> = Vec::new();
    let mut i: usize = 0;
    while i < keys.len()
        invariant
            i <= keys@.len(),
            r@ == keys@.take(i as int),
        decreases keys@.len() - i,
    {
        r.push(keys[i]);
        i = i + 1;
        assert(r@ =~= keys@.take(i as int));
    }
    assert(keys@.take(i as int) =~= keys@);
    r
}

/// `n` entries, all false.
fn no_approvals(n: usize) -> (r: Vec<bool>)
    ensures
        r@ == Seq::new(n as nat, |_i: int| false),
{
    let mut r: Vec<bool> = Vec::new();
    let mut i: usize = 0;
    while i < n
        invariant
            i <= n,
            r@ == Seq::new(i as nat, |_i: int| false),
        decreases n - i,
    {
        r.push(false);
        i = i + 1;
        assert(r@ =~= Seq::new(i as nat, |_i: int| false));
    }
    r
}

/// Creates a request to transfer `amount` of `mint` from the group at
/// `multisig_key` to `receiver`, approved by its creator, and approved
/// outright if that one approval meets the threshold. A positive `expire` is
/// the time from which the request times out; zero means never.
pub fn create_transaction(
    creator: &Pubkey,
    multisig: &mut Multisig,
    multisig_key: &Pubkey,
    receiver: &Pubkey,
    mint: &Pubkey,
    amount: u64,
    expire: i64,
) -> (r: Result<Transaction, ErrorCode>)
    requires
        old(multisig).wf(),
    ensures
        expire < 0 ==> r == Err::<Transaction, ErrorCode>(ErrorCode::InvalidExpire),
        expire >= 0 && !contains_key(old(multisig).owners@, *creator) ==> r == Err::<
            Transaction,
            ErrorCode,
        >(ErrorCode::InvalidSigner),
        expire >= 0 && contains_key(old(multisig).owners@, *creator) && old(multisig).tx_count
            == u64::MAX ==> r == Err::<Transaction, ErrorCode>(ErrorCode::Overflow),
        expire >= 0 && contains_key(old(multisig).owners@, *creator) && old(multisig).tx_count
            < u64::MAX ==> r is Ok,
        r is Err ==> *final(multisig) == *old(multisig),
        r matches Ok(t) ==> {
            &&& t.wf()
            &&& t.multisig == *multisig_key
            &&& t.creator == *creator
            &&& t.receiver == *receiver
            &&& t.mint == *mint
            &&& t.ttype == if is_native_mint(*mint) {
                TransactionType::Lamports
            } else {
                TransactionType::Token
            }
            &&& t.amount == amount
            &&& t.tx_count == old(multisig).tx_count
            &&& t.owners@ == old(multisig).owners@
            &&& t.threshold == old(multisig).threshold
            &&& forall|i: int| 0 <= i < t.signs@.len() ==> t.signs@[i] == (t.owners@[i] == *creator)
            &&& !t.is_executed
            &&& t.expire_at == expire
            &&& t.status == if count_true(t.signs@) >= t.threshold {
                TransactionStatus::Approved
            } else {
                TransactionStatus::Active
            }
            &&& final(multisig).tx_count == old(multisig).tx_count + 1
            &&& final(multisig).creator == old(multisig).creator
            &&& final(multisig).owners@ == old(multisig).owners@
            &&& final(multisig).threshold == old(multisig).threshold
            &&& final(multisig).id == old(multisig).id
        },
{
    if expire < 0 {
        return Err(ErrorCode::InvalidExpire);
    }
    let owners = copy_keys(&multisig.owners);
    let signs = no_approvals(owners.len());
    let native = native_mint();
    let ttype = if *mint == native {
        TransactionType::Lamports
    } else {
        TransactionType::Token
    };
    proof {
        assert(mint.bytes@ == native.bytes@ ==> mint.bytes =~= native.bytes);
    }
    let mut t = Transaction {
        multisig: *multisig_key,
        receiver: *receiver,
        mint: *mint,
        is_executed: false,
        ttype,
        amount,
        tx_count: multisig.tx_count,
        owners,
        signs,
        threshold: multisig.threshold,
        expire_at: expire,
        status: TransactionStatus::Active,
        creator: *creator,
    };
    t.approve(creator)?;
    proof {
        assert forall|i: int| 0 <= i < t.signs@.len() implies t.signs@[i] == (t.owners@[i]
            == *creator) by {
            let k = choose|k: int| 0 <= k < t.owners@.len() && t.owners@[k] == *creator;
            if i != k {
                assert(t.owners@[i] != t.owners@[k]);
            }
        }
    }
    if t.is_approved() {
        t.status = TransactionStatus::Approved;
    }
    if multisig.tx_count == u64::MAX {
        return Err(ErrorCode::Overflow);
    }
    multisig.tx_count = multisig.tx_count + 1;
    Ok(t)
}

/// Records the approval of `payer` at time `now`. The request first times
/// out if its expiry time has come; an approval of a request that is not
/// active is skipped without error. Once enough owners have approved, the
/// request is approved.
pub fn approve_transaction(tx: &mut Transaction, payer: &Pubkey, now: i64) -> (r: Result<
    (),
    ErrorCode,
>)
    requires
        old(tx).wf(),
    ensures
        final(tx).wf(),
        final(tx).same_terms(*old(tx)),
        final(tx).is_executed == old(tx).is_executed,
        approvals_grow(old(tx).signs@, final(tx).signs@),
        old(tx).status == TransactionStatus::Approved ==> final(tx).status
            == TransactionStatus::Approved,
        final(tx).status == TransactionStatus::Approved && old(tx).status
            != TransactionStatus::Approved ==> count_true(final(tx).signs@) >= old(tx).threshold,
        old(tx).status_at(now) != TransactionStatus::Active ==> r is Ok && final(tx).status == old(
            tx,
        ).status_at(now) && final(tx).signs@ == old(tx).signs@,
        old(tx).status_at(now) == TransactionStatus::Active && !contains_key(
            old(tx).owners@,
            *payer,
        ) ==> r == Err::<(), ErrorCode>(ErrorCode::InvalidSigner) && *final(tx) == *old(tx),
        forall|i: int|
            0 <= i < old(tx).owners@.len() && old(tx).owners@[i] == *payer && old(tx).status_at(now)
                == TransactionStatus::Active ==> {
                &&& old(tx).signs@[i] ==> r == Err::<(), ErrorCode>(ErrorCode::DuplicateSignature)
                    && *final(tx) == *old(tx)
                &&& !old(tx).signs@[i] ==> {
                    &&& r is Ok
                    &&& final(tx).signs@ == old(tx).signs@.update(i, true)
                    &&& final(tx).status == if count_true(final(tx).signs@) >= old(tx).threshold {
                        TransactionStatus::Approved
                    } else {
                        TransactionStatus::Active
                    }
                }
            },
{
    tx.timeout(now)?;
    if tx.status == TransactionStatus::Active {
        tx.approve(payer)?;
        if tx.is_approved() {
            tx.status = TransactionStatus::Approved;
        }
    }
    Ok(())
}

/// Cancels the request on behalf of `creator`. Only the request's creator may
/// cancel it, and an approved request cannot be canceled.
pub fn cancel_transaction(tx: &mut Transaction, creator: &Pubkey) -> (r: Result<(), ErrorCode>)
    ensures
        *creator != old(tx).creator ==> r == Err::<(), ErrorCode>(ErrorCode::Unauthorized),
        *creator == old(tx).creator && old(tx).status == TransactionStatus::Approved ==> r == Err::<
            (),
            ErrorCode,
        >(ErrorCode::CantCancel),
        *creator == old(tx).creator && old(tx).status != TransactionStatus::Approved ==> r is Ok,
        r is Err ==> *final(tx) == *old(tx),
        old(tx).wf() ==> final(tx).wf(),
        r is Ok ==> {
            &&& final(tx).same_terms(*old(tx))
            &&& final(tx).is_executed == old(tx).is_executed
            &&& final(tx).signs@ == old(tx).signs@
            &&& final(tx).status == TransactionStatus::Canceled
        },
{
    if !(*creator == tx.creator) {
        return Err(ErrorCode::Unauthorized);
    }
    if tx.status == TransactionStatus::Approved {
        return Err(ErrorCode::CantCancel);
    }
    tx.status = TransactionStatus::Canceled;
    Ok(())
}

/// The accounts an execution reads and moves funds between: the lamport
/// balances of the group and the receiver, or the mint, the group's vault and
/// the receiver's token account.
#[derive(Clone, Copy, Debug)]
pub enum ExecuteAccounts {
    Lamports { custody_lamports: u64, receiver_lamports: u64 },
    Token { mint: Pubkey, vault: TokenAccount, token: TokenAccount },
}

/// The accounts are of the kind that a request of type `ttype` moves.
pub open spec fn accounts_fit(ttype: TransactionType, accounts: ExecuteAccounts) -> bool {
    match ttype {
        TransactionType::Lamports => accounts is Lamports,
        TransactionType::Token => accounts is Token,
    }
}

/// The error that executing `tx` on behalf of `payer` meets before any
/// account is looked at, if any.
pub open spec fn executable_error(tx: Transaction, payer: Pubkey) -> Option<ErrorCode> {
    if tx.status != TransactionStatus::Approved {
        Some(ErrorCode::InsufficientApprovers)
    } else if !contains_key(tx.owners@, payer) {
        Some(ErrorCode::InvalidSigner)
    } else {
        None
    }
}

/// The error that executing `tx` on behalf of `payer` meets, if any.
pub open spec fn execute_error(
    tx: Transaction,
    payer: Pubkey,
    multisig_key: Pubkey,
    accounts: ExecuteAccounts,
) -> Option<ErrorCode> {
    if executable_error(tx, payer) is Some {
        executable_error(tx, payer)
    } else if !accounts_fit(tx.ttype, accounts) {
        Some(ErrorCode::AccountKindMismatch)
    } else {
        match accounts {
            ExecuteAccounts::Lamports { custody_lamports, receiver_lamports } => {
                if custody_lamports < tx.amount {
                    Some(ErrorCode::InsufficientCustodyBalance)
                } else if receiver_lamports + tx.amount > u64::MAX {
                    Some(ErrorCode::Overflow)
                } else {
                    None
                }
            },
            ExecuteAccounts::Token { mint, vault, token } => {
                if tx.mint != mint || token.mint != mint || vault.mint != mint {
                    Some(ErrorCode::InvalidMint)
                } else if vault.owner != multisig_key {
                    Some(ErrorCode::InvalidVault)
                } else if token.owner != tx.receiver {
                    Some(ErrorCode::InvalidTokenAccount)
                } else {
                    None
                }
            },
        }
    }
}

/// Fails unless the request is approved and `payer` is one of its owners.
pub fn check_executable(tx: &Transaction, payer: &Pubkey) -> (r: Result<(), ErrorCode>)
    ensures
        r == outcome(executable_error(*tx, *payer)),
{
    if tx.status != TransactionStatus::Approved {
        return Err(ErrorCode::InsufficientApprovers);
    }
    if position(&tx.owners, payer).is_none() {
        return Err(ErrorCode::InvalidSigner);
    }
    Ok(())
}

/// The balances after an execution of `amount`: lamports move from the group
/// to the receiver; token balances are kept by the token ledger.
pub open spec fn after_transfer(accounts: ExecuteAccounts, amount: u64) -> ExecuteAccounts {
    match accounts {
        ExecuteAccounts::Lamports { custody_lamports, receiver_lamports } => {
            ExecuteAccounts::Lamports {
                custody_lamports: (custody_lamports - amount) as u64,
                receiver_lamports: (receiver_lamports + amount) as u64,
            }
        },
        ExecuteAccounts::Token { .. } => accounts,
    }
}

/// Executes an approved request on behalf of `payer`, one of its owners, and
/// marks it completed. `accounts` must be of the request's kind. For the
/// native currency the lamports move between the balances in `accounts`; for
/// tokens the accounts are checked and the caller moves `tx.amount` from the
/// vault to the receiver's token account.
pub fn execute_transaction(
    tx: &mut Transaction,
    payer: &Pubkey,
    multisig_key: &Pubkey,
    accounts: &mut ExecuteAccounts,
) -> (r: Result<(), ErrorCode>)
    requires
        old(tx).wf(),
    ensures
        r == outcome(execute_error(*old(tx), *payer, *multisig_key, *old(accounts))),
        r is Err ==> *final(tx) == *old(tx) && *final(accounts) == *old(accounts),
        r is Ok ==> {
            &&& final(tx).wf()
            &&& final(tx).same_terms(*old(tx))
            &&& final(tx).signs@ == old(tx).signs@
            &&& final(tx).is_executed
            &&& final(tx).status == TransactionStatus::Completed
            &&& *final(accounts) == after_transfer(*old(accounts), old(tx).amount)
        },
{
    check_executable(tx, payer)?;
    let amount = tx.amount;
    match (tx.ttype, *accounts) {
        (TransactionType::Lamports, ExecuteAccounts::Lamports { .. }) => {},
        (TransactionType::Token, ExecuteAccounts::Token { .. }) => {},
        _ => {
            return Err(ErrorCode::AccountKindMismatch);
        },
    }
    match *accounts {
        ExecuteAccounts::Lamports { custody_lamports, receiver_lamports } => {
            if custody_lamports < amount {
                return Err(ErrorCode::InsufficientCustodyBalance);
            }
            if receiver_lamports > u64::MAX - amount {
                return Err(ErrorCode::Overflow);
            }
            *accounts = ExecuteAccounts::Lamports {
                custody_lamports: custody_lamports - amount,
                receiver_lamports: receiver_lamports + amount,
            };
        },
        ExecuteAccounts::Token { mint, vault, token } => {
            if !(tx.mint == mint) || !(token.mint == mint) || !(vault.mint == mint) {
                return Err(ErrorCode::InvalidMint);
            }
            if !(vault.owner == *multisig_key) {
                return Err(ErrorCode::InvalidVault);
            }
            if !(token.owner == tx.receiver) {
                return Err(ErrorCode::InvalidTokenAccount);
            }
        },
    }
    tx.is_executed = true;
    tx.status = TransactionStatus::Completed;
    Ok(())
}

/// Executes an approved token request on behalf of `payer`, reading the
/// group's vault and the receiver's token account from their stored bytes
/// once the request and the payer have been checked.
pub fn execute_token_transaction(
    tx: &mut Transaction,
    payer: &Pubkey,
    multisig_key: &Pubkey,
    mint: &Pubkey,
    vault_data: &[u8],
    token_data: &[u8],
) -> (r: Result<(), ErrorCode>)
    requires
        old(tx).wf(),
    ensures
        executable_error(*old(tx), *payer) matches Some(e) ==> r == Err::<(), ErrorCode>(e),
        executable_error(*old(tx), *payer) is None && !(unpacks(vault_data@) && unpacks(
            token_data@,
        )) ==> r == Err::<(), ErrorCode>(
            ErrorCode::AccountDidNotDeserialize,
        ),
        unpacks(vault_data@) && unpacks(token_data@) ==> r != Err::<(), ErrorCode>(
            ErrorCode::AccountDidNotDeserialize,
        ),
        forall|vault: TokenAccount, token: TokenAccount|
            read_from(vault, vault_data@) && read_from(token, token_data@) && r != Err::<
                (),
                ErrorCode,
            >(ErrorCode::AccountDidNotDeserialize) ==> r == outcome(
                execute_error(
                    *old(tx),
                    *payer,
                    *multisig_key,
                    ExecuteAccounts::Token { mint: *mint, vault, token },
                ),
            ),
        r is Err ==> *final(tx) == *old(tx),
        r is Ok ==> {
            &&& final(tx).wf()
            &&& final(tx).same_terms(*old(tx))
            &&& final(tx).signs@ == old(tx).signs@
            &&& final(tx).is_executed
            &&& final(tx).status == TransactionStatus::Completed
            &&& old(tx).mint.bytes@ == mint.bytes@
            &&& vault_data@.subrange(0, 32) == mint.bytes@
            &&& token_data@.subrange(0, 32) == mint.bytes@
            &&& vault_data@.subrange(32, 64) == multisig_key.bytes@
            &&& token_data@.subrange(32, 64) == old(tx).receiver.bytes@
        },
{
    check_executable(tx, payer)?;
    let vault = TokenAccount::unpack(vault_data)?;
    let token = TokenAccount::unpack(token_data)?;
    proof {
        lemma_read_unique(vault_data@);
        lemma_read_unique(token_data@);
    }
    let mut accounts = ExecuteAccounts::Token { mint: *mint, vault, token };
    execute_transaction(tx, payer, multisig_key, &mut accounts)
}

} // verus!
