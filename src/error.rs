use vstd::prelude::*;

verus! {

/// The failures that the engine reports to its callers.
#[derive(Clone, Copy, Debug, PartialEq, Eq, Structural)]
pub enum ErrorCode {
    /// Two entries of an owner list are equal.
    UniqueOwners,
    /// The threshold is zero or larger than the number of owners.
    InvalidThreshold,
    /// The owner list is empty or longer than twenty.
    InvalidOwnersLen,
    /// The payer holds fewer lamports than the deposit.
    InsufficientLamports,
    /// An account holds another mint than the one the operation names.
    InvalidMint,
    /// The source token account holds fewer tokens than the deposit.
    InvalidTokenAmount,
    /// The vault is not owned by the group.
    InvalidVault,
    /// The signer is not among the owners.
    InvalidSigner,
    /// The request has not been approved.
    InsufficientApprovers,
    /// The destination token account is not owned by the receiver.
    InvalidTokenAccount,
    /// The group's bump seed is missing.
    InvalidMultisigBump,
    /// The request's bump seed is missing.
    InvalidTransactionBump,
    /// The expiry time is negative.
    InvalidExpire,
    /// The owner has already approved the request.
    DuplicateSignature,
    /// An approved request cannot be canceled.
    CantCancel,
    /// Only the creator of a request may cancel it.
    Unauthorized,
    /// The group's custody balance is smaller than the amount to transfer.
    InsufficientCustodyBalance,
    /// Account data does not hold an initialized token account.
    AccountDidNotDeserialize,
    /// A counter or a balance would pass its largest value.
    Overflow,
    /// The accounts given to an execution are not of the request's kind.
    AccountKindMismatch,
}

} // verus!
