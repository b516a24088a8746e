use vstd::prelude::*;

verus! {

/// Why an instruction was refused. A refused instruction changes nothing.
#[derive(Clone, Copy, Debug, PartialEq, Eq, Structural)]
pub enum TaskTraderError {
    /// The caller is not the registered admin signer.
    Unauthorized,
    /// A task needs a positive amount and at least one taker.
    InvalidAmount,
    /// The coin mint is not on the list of supported coins.
    InvalidCoinMint,
    /// The caller is not the requester of the task.
    InvalidRequester,
    /// The application belongs to another task.
    InvalidTaskId,
    /// The application is not in the state the instruction needs.
    InvalidApplicationState,
    /// The caller is not the applicant of the application.
    InvalidApplicant,
    /// The pool token account is not held by the pool authority.
    InvalidPoolAccount,
    /// A mint does not match the task's coin mint.
    InvalidMint,
    /// The inviter token account is missing or not held by the recorded inviter.
    InvalidInviter,
    /// The fee receiver or its token account does not match the admin record.
    InvalidFeeReceiverAccount,
    /// An amount does not fit in 64 bits, or a fee exceeds the amount it is taken from.
    NumericalOverflow,
    /// The list of supported coins is longer than its storage allows.
    InvalidLength,
    /// The caller's token account is not held by the caller.
    InvalidTokenAccount,
    /// A record the instruction reads does not exist.
    AccountNotInitialized,
    /// A record the instruction creates exists already.
    AccountAlreadyInitialized,
}

} // verus!
