//! Failure kinds reported to the host.

use vstd::prelude::*;
use vstd::std_specs::convert::FromSpecImpl;

verus! {

/// Failures that are specific to this program. The host sees them as
/// [`ProgramError::Custom`] carrying [`HelloWorldError::code`].
#[derive(Clone, Copy, Debug, PartialEq, Eq, Structural)]
pub enum HelloWorldError {
    /// The instruction buffer is empty or its first byte names no operation.
    InvalidInstruction,
    /// An account does not meet the constraint of the role it was bound to.
    InvalidAccount,
}

impl HelloWorldError {
    /// The number under which the host reports this failure: the position of
    /// the variant in the enum.
    pub open spec fn spec_code(self) -> u32 {
        match self {
            HelloWorldError::InvalidInstruction => 0,
            HelloWorldError::InvalidAccount => 1,
        }
    }

    /// This failure as the host reports it.
    pub open spec fn spec_program_error(self) -> ProgramError {
        ProgramError::Custom(self.spec_code())
    }

    /// The number under which the host reports this failure.
    pub fn code(&self) -> (code: u32)
        ensures
            code == self.spec_code(),
    {
        match self {
            HelloWorldError::InvalidInstruction => 0,
            HelloWorldError::InvalidAccount => 1,
        }
    }

    /// The text shown for this failure.
    pub fn message(&self) -> (text: &'static str)
        ensures
            *self == HelloWorldError::InvalidInstruction ==> text@ == "Invalid instruction"@,
            *self == HelloWorldError::InvalidAccount ==> text@ == "Invalid account"@,
    {
        match self {
            HelloWorldError::InvalidInstruction => "Invalid instruction",
            HelloWorldError::InvalidAccount => "Invalid account",
        }
    }
}

/// The failures the host understands, as far as this program returns them.
#[derive(Clone, Copy, Debug, PartialEq, Eq, Structural)]
pub enum ProgramError {
    /// A failure defined by the program, identified by its number.
    Custom(u32),
    /// The operation is known but its argument record is malformed.
    InvalidInstructionData,
    /// An account buffer cannot be viewed as the record that was asked for.
    InvalidAccountData,
    /// Fewer accounts were supplied than the operation declares roles.
    NotEnoughAccountKeys,
}

impl FromSpecImpl<HelloWorldError> for ProgramError {
    open spec fn obeys_from_spec() -> bool {
        true
    }

    open spec fn from_spec(e: HelloWorldError) -> ProgramError {
        e.spec_program_error()
    }
}

impl From<HelloWorldError> for ProgramError {
    fn from(e: HelloWorldError) -> (err: ProgramError) {
        ProgramError::Custom(e.code())
    }
}

} // verus!
