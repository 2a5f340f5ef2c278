use vstd::prelude::*;

verus! {

/// Every way an operation of the program can be refused.
#[derive(Clone, Copy, Debug, PartialEq, Eq, Structural)]
pub enum VeilProgramError {
    Unauthorized,
    Paused,
    NotPaused,
    InvalidErAuthority,
    InvalidMaxRecipients,
    InsufficientFunds,
    InvalidMint,
    VaultMismatch,
    InvalidTokenAccount,
    VaultAlreadyInitialized,
    InvalidBatchTimeout,
    InvalidScheduleId,
    ScheduleNotActive,
    ScheduleNotPaused,
    ScheduleAlreadyCancelled,
    ExecutionTooEarly,
    InvalidLeafIndex,
    InvalidMerkleProof,
    AlreadyPaid,
}

} // verus!
