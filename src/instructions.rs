use vstd::prelude::*;

use crate::error::ErrorCode;
use crate::pubkey::{all_distinct, Pubkey};
use crate::state::{Multisig, User, MAX_OWNERS};
use crate::token_account::{le_value, lemma_read_unique, read_from, unpacks, TokenAccount};

verus! {

/// `Ok(())` where no error was found, else that error.
pub open spec fn outcome(e: Option<ErrorCode>) -> Result<(), ErrorCode> {
    match e {
        Some(e) => Err(e),
        None => Ok(()),
    }
}

/// A fresh per-creator counter, starting at zero.
pub fn initialize_user() -> (r: User)
    ensures
        r.count == 0,
{
    User { count: 0 }
}

/// Fails with `UniqueOwners` if two entries of `owners` are equal.
pub fn assert_unique_owners(owners: &[Pubkey]) -> (r: Result<(), ErrorCode>)
    ensures
        r is Ok <==> all_distinct(owners@),
        r is Err ==> r == Err::<(), ErrorCode>(ErrorCode::UniqueOwners),
{
    let mut i: usize = 0;
    while i < owners.len()
        invariant
            i <= owners@.len(),
            forall|a: int, b: int|
                0 <= a < i && a < b < owners@.len() ==> owners@[a] != owners@[b],
        decreases owners@.len() - i,
    {
        let mut j: usize = i + 1;
        while j < owners.len()
            invariant
                i < owners@.len(),
                i + 1 <= j <= owners@.len(),
                forall|a: int, b: int|
                    0 <= a < i && a < b < owners@.len() ==> owners@[a] != owners@[b],
                forall|b: int| i < b < j ==> owners@[i as int] != owners@[b],
            decreases owners@.len() - j,
        {
            if owners[i] == owners[j] {
                return Err(ErrorCode::UniqueOwners);
            }
            j = j + 1;
        }
        i = i + 1;
    }
    assert forall|a: int, b: int|
        0 <= a < owners@.len() && 0 <= b < owners@.len() && a != b implies owners@[a]
        != owners@[b] by {
        if b < a {
            assert(owners@[b] != owners@[a]);
        }
    }
    Ok(())
}

/// The error that creating a group with these owners and threshold meets, if any.
pub open spec fn group_error(owners: Seq<Pubkey>, threshold: u8) -> Option<ErrorCode> {
    if !all_distinct(owners) {
        Some(ErrorCode::UniqueOwners)
    } else if !(1 <= owners.len() <= MAX_OWNERS) {
        Some(ErrorCode::InvalidOwnersLen)
    } else if !(1 <= threshold && threshold as int <= owners.len()) {
        Some(ErrorCode::InvalidThreshold)
    } else {
        None
    }
}

/// Creates a group of `owners` that needs `threshold` approvals, with its
/// identity drawn from the creator's counter `user`.
pub fn initialize_multisig(creator: Pubkey, user: &mut User, owners: Vec<Pubkey>, threshold: u8) -> (r:
    Result<Multisig, ErrorCode>)
    ensures
        group_error(owners@, threshold) is None && old(user).count < u64::MAX <==> r is Ok,
        group_error(owners@, threshold) matches Some(e) ==> r == Err::<Multisig, ErrorCode>(e),
        group_error(owners@, threshold) is None && old(user).count == u64::MAX ==> r == Err::<
            Multisig,
            ErrorCode,
        >(ErrorCode::Overflow),
        r is Err ==> *final(user) == *old(user),
        r matches Ok(m) ==> {
            &&& m.wf()
            &&& m.creator == creator
            &&& m.owners@ == owners@
            &&& m.threshold == threshold
            &&& m.id == old(user).count
            &&& m.tx_count == 0
            &&& final(user).count == old(user).count + 1
        },
{
    assert_unique_owners(owners.as_slice())?;
    if !(owners.len() > 0 && owners.len() <= MAX_OWNERS) {
        return Err(ErrorCode::InvalidOwnersLen);
    }
    if !(threshold > 0 && threshold as usize <= owners.len()) {
        return Err(ErrorCode::InvalidThreshold);
    }
    if user.count == u64::MAX {
        return Err(ErrorCode::Overflow);
    }
    let id = user.next_id();
    Ok(Multisig { creator, owners, threshold, id, tx_count: 0 })
}

/// The error that a deposit of `amount` lamports by a payer holding
/// `payer_lamports` meets, if any.
pub open spec fn lamports_deposit_error(payer_lamports: u64, amount: u64) -> Option<ErrorCode> {
    if payer_lamports < amount {
        Some(ErrorCode::InsufficientLamports)
    } else {
        None
    }
}

/// Checks a deposit of `amount` lamports by a payer holding `payer_lamports`.
pub fn deposit_lamports(payer_lamports: u64, amount: u64) -> (r: Result<(), ErrorCode>)
    ensures
        r == outcome(lamports_deposit_error(payer_lamports, amount)),
{
    if payer_lamports < amount {
        return Err(ErrorCode::InsufficientLamports);
    }
    Ok(())
}

/// The error that a deposit of `amount` tokens of `mint` from `token` into
/// the vault `vault` of the group at `multisig_key` meets, if any.
pub open spec fn token_deposit_error(
    multisig_key: Pubkey,
    mint: Pubkey,
    token: TokenAccount,
    vault: TokenAccount,
    amount: u64,
) -> Option<ErrorCode> {
    if token.mint != mint {
        Some(ErrorCode::InvalidMint)
    } else if token.amount < amount {
        Some(ErrorCode::InvalidTokenAmount)
    } else if vault.owner != multisig_key {
        Some(ErrorCode::InvalidVault)
    } else {
        None
    }
}

/// Checks a deposit of `amount` tokens of `mint` from the account `token`
/// into the group's vault `vault`.
pub fn deposit_token(
    multisig_key: &Pubkey,
    mint: &Pubkey,
    token: &TokenAccount,
    vault: &TokenAccount,
    amount: u64,
) -> (r: Result<(), ErrorCode>)
    ensures
        r == outcome(token_deposit_error(*multisig_key, *mint, *token, *vault, amount)),
{
    if !(token.mint == *mint) {
        return Err(ErrorCode::InvalidMint);
    }
    if token.amount < amount {
        return Err(ErrorCode::InvalidTokenAmount);
    }
    if !(vault.owner == *multisig_key) {
        return Err(ErrorCode::InvalidVault);
    }
    Ok(())
}

/// Where a deposit comes from: the payer's lamports, or a token account of
/// the payer, given with the group's vault as stored bytes.
#[derive(Clone, Debug)]
pub enum DepositSource {
    Lamports { payer_lamports: u64 },
    Token { mint: Pubkey, token_data: Vec<u8>, vault_data: Vec<u8> },
}

/// Checks a deposit of `amount` into the group at `multisig_key`.
pub fn deposit(multisig_key: &Pubkey, source: &DepositSource, amount: u64) -> (r: Result<
    (),
    ErrorCode,
>)
    ensures
        source matches DepositSource::Lamports { payer_lamports } ==> r == outcome(
            lamports_deposit_error(*payer_lamports, amount),
        ),
        source matches DepositSource::Token { mint, token_data, vault_data } ==> {
            &&& !(unpacks(token_data@) && unpacks(vault_data@)) ==> r == Err::<(), ErrorCode>(
                ErrorCode::AccountDidNotDeserialize,
            )
            &&& unpacks(token_data@) && unpacks(vault_data@) ==> r != Err::<(), ErrorCode>(
                ErrorCode::AccountDidNotDeserialize,
            )
            &&& r is Ok ==> {
                &&& token_data@.subrange(0, 32) == mint.bytes@
                &&& le_value(token_data@.subrange(64, 72)) >= amount
                &&& vault_data@.subrange(32, 64) == multisig_key.bytes@
            }
            &&& forall|token: TokenAccount, vault: TokenAccount|
                read_from(token, token_data@) && read_from(vault, vault_data@) && r
                    != Err::<(), ErrorCode>(ErrorCode::AccountDidNotDeserialize) ==> r == outcome(
                    token_deposit_error(*multisig_key, *mint, token, vault, amount),
                )
        },
{
    match source {
        DepositSource::Lamports { payer_lamports } => deposit_lamports(*payer_lamports, amount),
        DepositSource::Token { mint, token_data, vault_data } => {
            let token = TokenAccount::unpack(token_data.as_slice())?;
            let vault = TokenAccount::unpack(vault_data.as_slice())?;
            proof {
                lemma_read_unique(token_data@);
                lemma_read_unique(vault_data@);
                assert(mint.bytes@ == token.mint.bytes@ ==> mint.bytes =~= token.mint.bytes);
                assert(multisig_key.bytes@ == vault.owner.bytes@ ==> multisig_key.bytes
                    =~= vault.owner.bytes);
            }
            deposit_token(multisig_key, mint, &token, &vault, amount)
        },
    }
}

} // verus!
