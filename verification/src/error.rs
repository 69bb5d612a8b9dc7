//! The errors that the fundraiser's rules answer with.

use vstd::prelude::*;

verus! {

/// Why an instruction was refused. Each variant names the program error that
/// the runtime reports for it.
#[derive(Clone, Copy, Debug, PartialEq, Eq, Structural)]
pub enum FundraiserError {
    /// The instruction carried too few accounts, or a contribution too small.
    NotEnoughAccountKeys,
    /// An account does not belong to the expected owner.
    IllegalOwner,
    /// Account data has the wrong size or does not match what it should.
    InvalidAccountData,
    /// Instruction data does not name a known instruction.
    InvalidInstructionData,
    /// A contribution is larger than the per-contribution limit.
    ArithmeticOverflow,
    /// The contribution window does not admit the contribution.
    MaxInstructionTraceLengthExceeded,
    /// A contributor already holds more than the limit and would go further.
    InvalidArgument,
}

/// Why a contribution does not go through: a refusal that the program reports
/// as an error, a read of the runtime that failed (the program reports the
/// runtime's own error), or a state in which the program aborts.
#[derive(Clone, Copy, Debug, PartialEq, Eq, Structural)]
pub enum ContributeRefusal {
    /// Refused with this error.
    Refused(FundraiserError),
    /// The contributor's token account could not be read.
    TokenAccountUnreadable,
    /// The mint account's data could not be borrowed.
    MintUnreadable,
    /// The clock could not be read.
    ClockUnavailable,
    /// The instruction data is shorter than a contribution's; the program aborts.
    DataTooShort,
    /// The contributor account is not the contributor's program address; the
    /// program aborts.
    ContributorAccountMismatch,
    /// An amount or a time difference does not fit its integer type; the
    /// program aborts.
    Overflow,
}

} // verus!
