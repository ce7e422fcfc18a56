//! The ways an instruction can fail.

use vstd::prelude::*;

verus! {

/// Errors that the escrow program raises itself.
#[derive(Clone, Copy, Debug, PartialEq, Eq, Structural)]
pub enum EscrowError {
    /// Amount must be greater than zero.
    InvalidAmount,
    /// Sender and receiver must be different.
    SenderEqualsReceiver,
    /// Escrow is not in the required status.
    InvalidStatus,
    /// Signer is not the sender.
    InvalidSender,
    /// Signer is not the receiver.
    InvalidReceiver,
    /// Mint does not match the escrow.
    InvalidMint,
    /// Token program must be Token-2022.
    InvalidTokenProgram,
    /// This instruction has already been executed.
    AlreadyProcessed,
}

impl EscrowError {
    /// The error's number as a client sees it: custom errors count up from 6000
    /// in the order in which they are declared.
    pub fn code(&self) -> (r: u32)
        ensures
            r == 6000 + escrow_error_index(*self),
    {
        match self {
            EscrowError::InvalidAmount => 6000,
            EscrowError::SenderEqualsReceiver => 6001,
            EscrowError::InvalidStatus => 6002,
            EscrowError::InvalidSender => 6003,
            EscrowError::InvalidReceiver => 6004,
            EscrowError::InvalidMint => 6005,
            EscrowError::InvalidTokenProgram => 6006,
            EscrowError::AlreadyProcessed => 6007,
        }
    }
}

/// The position of an error in the declaration of `EscrowError`.
pub open spec fn escrow_error_index(e: EscrowError) -> nat {
    match e {
        EscrowError::InvalidAmount => 0,
        EscrowError::SenderEqualsReceiver => 1,
        EscrowError::InvalidStatus => 2,
        EscrowError::InvalidSender => 3,
        EscrowError::InvalidReceiver => 4,
        EscrowError::InvalidMint => 5,
        EscrowError::InvalidTokenProgram => 6,
        EscrowError::AlreadyProcessed => 7,
    }
}

/// Errors that the token starter program raises itself.
#[derive(Clone, Copy, Debug, PartialEq, Eq, Structural)]
pub enum TokenStarterError {
    /// Amount must be greater than zero.
    AmountMustBePositive,
    /// Source and destination token accounts must be different.
    SourceEqualsDestination,
    /// Mint does not match the token account.
    InvalidMint,
    /// Authority does not own the token account.
    InvalidAuthority,
    /// Amount must be greater than zero.
    InvalidAmount,
}

impl TokenStarterError {
    /// The error's number as a client sees it.
    pub fn code(&self) -> (r: u32)
        ensures
            r == 6000 + token_starter_error_index(*self),
    {
        match self {
            TokenStarterError::AmountMustBePositive => 6000,
            TokenStarterError::SourceEqualsDestination => 6001,
            TokenStarterError::InvalidMint => 6002,
            TokenStarterError::InvalidAuthority => 6003,
            TokenStarterError::InvalidAmount => 6004,
        }
    }
}

/// The position of an error in the declaration of `TokenStarterError`.
pub open spec fn token_starter_error_index(e: TokenStarterError) -> nat {
    match e {
        TokenStarterError::AmountMustBePositive => 0,
        TokenStarterError::SourceEqualsDestination => 1,
        TokenStarterError::InvalidMint => 2,
        TokenStarterError::InvalidAuthority => 3,
        TokenStarterError::InvalidAmount => 4,
    }
}

/// The checks of the account framework that these programs' accounts go
/// through before an instruction runs.
#[derive(Clone, Copy, Debug, PartialEq, Eq, Structural)]
pub enum FrameworkError {
    /// A mut constraint was violated.
    ConstraintMut,
    /// A seeds constraint was violated.
    ConstraintSeeds,
    /// An associated constraint was violated.
    ConstraintAssociated,
    /// A close constraint was violated.
    ConstraintClose,
    /// A token mint constraint was violated.
    ConstraintTokenMint,
    /// A token owner constraint was violated.
    ConstraintTokenOwner,
    /// A token account token program constraint was violated.
    ConstraintTokenTokenProgram,
    /// A mint token program constraint was violated.
    ConstraintMintTokenProgram,
    /// A duplicate mutable account constraint was violated.
    ConstraintDuplicateMutableAccount,
    /// The given account is owned by a different program than expected.
    AccountOwnedByWrongProgram,
    /// Program ID was not as expected.
    InvalidProgramId,
    /// Program account is not executable.
    InvalidProgramExecutable,
    /// The given account did not sign.
    AccountNotSigner,
    /// The program expected this account to be already initialized.
    AccountNotInitialized,
    /// The payer cannot be initialized as a program account.
    TryingToInitPayerAsProgramAccount,
    /// The program was called under another address than its own.
    DeclaredProgramIdMismatch,
    /// The instruction data names no instruction of the program.
    InstructionFallbackNotFound,
    /// The instruction data is an event, and events are not handled.
    EventInstructionStub,
    /// The instruction's arguments could not be read.
    InstructionDidNotDeserialize,
}

/// Failures reported by the token program while it carries out a request.
#[derive(Clone, Copy, Debug, PartialEq, Eq, Structural)]
pub enum TokenProgramError {
    /// An account cannot be closed into itself.
    InvalidAccountData,
    /// An account is not owned by the token program that was called.
    IncorrectProgramId,
    /// A token account involved is frozen.
    AccountFrozen,
    /// The source holds fewer tokens than requested.
    InsufficientFunds,
    /// A balance, a supply or a lamport count would leave its range.
    Overflow,
    /// A token account that still holds tokens cannot be closed.
    NonNativeHasBalance,
}

/// Failures reported by the system program or the associated token account
/// program while an account is created.
#[derive(Clone, Copy, Debug, PartialEq, Eq, Structural)]
pub enum CreationError {
    /// The account to create is already in use.
    AccountAlreadyInUse,
    /// The payer cannot cover the rent of the new account.
    InsufficientLamports,
    /// The address given is not the one the seeds derive.
    InvalidSeeds,
    /// The account to create as an associated token account is not owned
    /// by the system program.
    IllegalOwner,
    /// A call takes as writable an account that the instruction did not
    /// receive as writable; the runtime refuses the call.
    PrivilegeEscalation,
}

/// Why an instruction failed. A failed instruction changes no account.
#[derive(Clone, Copy, Debug, PartialEq, Eq, Structural)]
pub enum Failure {
    Escrow(EscrowError),
    TokenStarter(TokenStarterError),
    Framework(FrameworkError),
    TokenProgram(TokenProgramError),
    Creation(CreationError),
    /// Moving lamports to an account would overflow its balance.
    LamportsOverflow,
    /// No bump seed turns the record's seeds into an address off the
    /// curve; the search for one aborts the program.
    NoViableBump,
}

} // verus!
