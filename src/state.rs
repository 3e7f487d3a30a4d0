use vstd::prelude::*;

use crate::error::ErrorCode;
use crate::pubkey::{all_distinct, contains_key, position, Pubkey};

verus! {

/// The largest number of owners a group may have.
pub const MAX_OWNERS: usize = 20;

/// The per-creator counter from which group identities are drawn.
#[derive(Clone, Copy, Debug)]
pub struct User {
    pub count: u64,
}

impl User {
    /// Hands out the current value of the counter and moves it on by one.
    pub fn next_id(&mut self) -> (r: u64)
        requires
            old(self).count < u64::MAX,
        ensures
            r == old(self).count,
            final(self).count == old(self).count + 1,
    {
        let r = self.count;
        self.count = self.count + 1;
        r
    }
}

/// A custody group: its owners, how many of them must approve a transfer,
/// and the counter from which request identities are drawn.
#[derive(Clone, Debug)]
pub struct Multisig {
    pub creator: Pubkey,
    pub owners: Vec<Pubkey>,
    pub threshold: u8,
    pub id: u64,
    pub tx_count: u64,
}

/// `owners` and `threshold` describe an acceptable group.
pub open spec fn group_params_valid(owners: Seq<Pubkey>, threshold: u8) -> bool {
    &&& all_distinct(owners)
    &&& 1 <= owners.len() <= MAX_OWNERS
    &&& 1 <= threshold && threshold as int <= owners.len()
}

impl Multisig {
    /// Size in bytes of a stored group, without the account discriminator.
    pub const LEN: usize = 32 + 20 * 32 + 1 + 8;

    pub open spec fn wf(&self) -> bool {
        group_params_valid(self.owners@, self.threshold)
    }
}

/// What a request transfers: tokens of a mint, or the native currency.
#[derive(Clone, Copy, Debug, PartialEq, Eq, Structural)]
pub enum TransactionType {
    Token,
    Lamports,
}

/// Where a request stands in its life.
#[derive(Clone, Copy, Debug, PartialEq, Eq, Structural)]
pub enum TransactionStatus {
    Active,
    Timeout,
    Approved,
    Completed,
    Canceled,
}

/// A proposed transfer out of a group, with the owners and threshold of the
/// group frozen at the time it was made.
#[derive(Clone, Debug)]
pub struct Transaction {
    pub multisig: Pubkey,
    pub receiver: Pubkey,
    pub mint: Pubkey,
    pub is_executed: bool,
    pub ttype: TransactionType,
    pub amount: u64,
    pub tx_count: u64,
    pub owners: Vec<Pubkey>,
    pub signs: Vec<bool>,
    pub threshold: u8,
    pub expire_at: i64,
    pub status: TransactionStatus,
    pub creator: Pubkey,
}

/// How many entries of `s` are true.
pub open spec fn count_true(s: Seq<bool>) -> nat
    decreases s.len(),
{
    if s.len() == 0 {
        0
    } else {
        count_true(s.drop_last()) + if s.last() {
            1nat
        } else {
            0nat
        }
    }
}

/// The same approvals are recorded in `b` as in `a`, and maybe more.
pub open spec fn approvals_grow(a: Seq<bool>, b: Seq<bool>) -> bool {
    &&& a.len() == b.len()
    &&& forall|i: int| 0 <= i < a.len() && #[trigger] a[i] ==> b[i]
}

impl Transaction {
    /// Size in bytes of a stored request, without the account discriminator.
    pub const LEN: usize = 32 + 32 + 32 + 1 + 1 + 8 + 8 + 20 * 32 + 20 + 1 + 8 + 1 + 32;

    pub open spec fn wf(&self) -> bool {
        &&& self.signs@.len() == self.owners@.len()
        &&& all_distinct(self.owners@)
        &&& self.is_executed ==> (self.status == TransactionStatus::Completed || self.status
            == TransactionStatus::Canceled)
    }

    /// The terms of the request are the same in both: every field but the
    /// approvals, the status and whether it was executed.
    pub open spec fn same_terms(&self, other: Transaction) -> bool {
        &&& self.multisig == other.multisig
        &&& self.receiver == other.receiver
        &&& self.mint == other.mint
        &&& self.ttype == other.ttype
        &&& self.amount == other.amount
        &&& self.tx_count == other.tx_count
        &&& self.owners@ == other.owners@
        &&& self.threshold == other.threshold
        &&& self.expire_at == other.expire_at
        &&& self.creator == other.creator
    }

    /// The request is active and its expiry time, if it has one, has come.
    pub open spec fn expired(&self, now: i64) -> bool {
        &&& self.status == TransactionStatus::Active
        &&& self.expire_at > 0
        &&& self.expire_at <= now
    }

    /// The status that the request has once expiry has been checked at `now`.
    pub open spec fn status_at(&self, now: i64) -> TransactionStatus {
        if self.expired(now) {
            TransactionStatus::Timeout
        } else {
            self.status
        }
    }

    /// Enough owners have approved.
    pub open spec fn approved_spec(&self) -> bool {
        count_true(self.signs@) >= self.threshold as nat
    }

    /// Moves an active request whose expiry time has come to `Timeout`.
    pub fn timeout(&mut self, now: i64) -> (r: Result<(), ErrorCode>)
        ensures
            r is Ok,
            final(self).same_terms(*old(self)),
            final(self).is_executed == old(self).is_executed,
            final(self).signs@ == old(self).signs@,
            final(self).status == old(self).status_at(now),
            !old(self).expired(now) ==> *final(self) == *old(self),
            old(self).wf() ==> final(self).wf(),
    {
        if self.status == TransactionStatus::Active && self.expire_at > 0 && self.expire_at <= now {
            self.status = TransactionStatus::Timeout;
        }
        Ok(())
    }

    /// Records the approval of `signer`, who must be one of the owners and
    /// must not have approved before.
    pub fn approve(&mut self, signer: &Pubkey) -> (r: Result<(), ErrorCode>)
        requires
            old(self).wf(),
        ensures
            final(self).wf(),
            final(self).same_terms(*old(self)),
            final(self).is_executed == old(self).is_executed,
            final(self).status == old(self).status,
            approvals_grow(old(self).signs@, final(self).signs@),
            !contains_key(old(self).owners@, *signer) ==> r == Err::<(), ErrorCode>(
                ErrorCode::InvalidSigner) && *final(self) == *old(self),
            forall|i: int|
                0 <= i < old(self).owners@.len() && old(self).owners@[i] == *signer ==> {
                    &&& old(self).signs@[i] ==> r == Err::<(), ErrorCode>(
                        ErrorCode::DuplicateSignature) && *final(self) == *old(self)
                    &&& !old(self).signs@[i] ==> r is Ok && final(self).signs@ == old(
                        self,
                    ).signs@.update(i, true)
                },
    {
        let pos = match position(&self.owners, signer) {
            Some(p) => p,
            None => {
                return Err(ErrorCode::InvalidSigner);
            },
        };
        if self.signs[pos] {
            return Err(ErrorCode::DuplicateSignature);
        }
        self.signs.set(pos, true);
        Ok(())
    }

    /// Whether at least `threshold` owners have approved.
    pub fn is_approved(&self) -> (r: bool)
        ensures
            r == self.approved_spec(),
    {
        let mut count: usize = 0;
        let mut i: usize = 0;
        while i < self.signs.len()
            invariant
                i <= self.signs@.len(),
                count <= i,
                count == count_true(self.signs@.take(i as int)),
            decreases self.signs@.len() - i,
        {
            assert(self.signs@.take(i + 1).drop_last() =~= self.signs@.take(i as int));
            if self.signs[i] {
                count = count + 1;
            }
            i = i + 1;
        }
        assert(self.signs@.take(i as int) =~= self.signs@);
        count >= self.threshold as usize
    }
}

} // verus!
