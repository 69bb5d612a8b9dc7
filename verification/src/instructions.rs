//! The program's instructions: how instruction data names one, and the rules
//! that each applies.

pub mod contribute;
pub mod contribute_laws;

use vstd::prelude::*;
use vstd::slice::slice_subrange;

use crate::error::FundraiserError;

verus! {

/// The instructions of the program, by their one-byte discriminator.
#[derive(Clone, Copy, Debug, PartialEq, Eq, Structural)]
pub enum FundraiserInstructions {
    /// Create the fundraiser account and its vault (discriminator 0).
    Initialize,
    /// Deposit tokens into the vault (discriminator 1).
    Contributor,
    /// Hand the vault to the maker once the target is met (discriminator 2).
    Checker,
    /// Return a contributor's tokens after a failed fundraiser (discriminator 3).
    Refund,
}

/// The instruction that a discriminator byte names, if any.
pub open spec fn spec_instruction_of(discriminator: u8) -> Option<FundraiserInstructions> {
    if discriminator == 0 {
        Some(FundraiserInstructions::Initialize)
    } else if discriminator == 1 {
        Some(FundraiserInstructions::Contributor)
    } else if discriminator == 2 {
        Some(FundraiserInstructions::Checker)
    } else if discriminator == 3 {
        Some(FundraiserInstructions::Refund)
    } else {
        None
    }
}

impl FundraiserInstructions {
    /// The instruction named by a discriminator byte; an unknown byte is
    /// refused as invalid instruction data.
    pub fn try_from(discriminator: &u8) -> (res: Result<FundraiserInstructions, FundraiserError>)
        ensures
            match spec_instruction_of(*discriminator) {
                Some(ix) => res == Ok::<FundraiserInstructions, FundraiserError>(ix),
                None => res == Err::<FundraiserInstructions, FundraiserError>(
                    FundraiserError::InvalidInstructionData,
                ),
            },
    {
        match *discriminator {
            0 => Ok(FundraiserInstructions::Initialize),
            1 => Ok(FundraiserInstructions::Contributor),
            2 => Ok(FundraiserInstructions::Checker),
            3 => Ok(FundraiserInstructions::Refund),
            _ => Err(FundraiserError::InvalidInstructionData),
        }
    }
}

/// Splits instruction data into the instruction its first byte names and the
/// instruction's own data that follows. Empty data is refused as invalid
/// account data; an unknown first byte as invalid instruction data.
pub fn decode_instruction(instruction_data: &[u8]) -> (res: Result<
    (FundraiserInstructions, &[u8]),
    FundraiserError,
>)
    ensures
        instruction_data@.len() == 0 ==> res == Err::<(FundraiserInstructions, &[u8]), FundraiserError>(
            FundraiserError::InvalidAccountData,
        ),
        instruction_data@.len() > 0 ==> match spec_instruction_of(instruction_data@[0]) {
            Some(ix) => res matches Ok((got, rest)) && got == ix && rest@
                == instruction_data@.drop_first(),
            None => res == Err::<(FundraiserInstructions, &[u8]), FundraiserError>(
                FundraiserError::InvalidInstructionData,
            ),
        },
{
    if instruction_data.len() == 0 {
        return Err(FundraiserError::InvalidAccountData);
    }
    let discriminator = instruction_data[0];
    let data = slice_subrange(instruction_data, 1, instruction_data.len());
    let ix = FundraiserInstructions::try_from(&discriminator)?;
    Ok((ix, data))
}

} // verus!
