use vstd::prelude::*;
use vstd::std_specs::convert::FromSpecImpl;

verus! {

/// The failures that are the escrow program's own.
#[derive(Clone, Copy, Debug, PartialEq, Eq, Structural)]
pub enum EscrowError {
    /// The request bytes do not spell an operation.
    InvalidInstruction,
    /// The record storage holds too little to be exempt from rent.
    NotRentExempt,
    /// The taker's declared amount is not the balance held in custody.
    ExpectedAmountMismatch,
    /// A reclaimed balance does not fit on top of the receiving one.
    AmountOverflow,
}

impl EscrowError {
    /// The stable small number under which the host reports the failure.
    pub open spec fn spec_code(self) -> u32 {
        match self {
            EscrowError::InvalidInstruction => 0,
            EscrowError::NotRentExempt => 1,
            EscrowError::ExpectedAmountMismatch => 2,
            EscrowError::AmountOverflow => 3,
        }
    }

    /// The stable small number under which the host reports the failure.
    pub fn code(self) -> (code: u32)
        ensures
            code == self.spec_code(),
    {
        match self {
            EscrowError::InvalidInstruction => 0,
            EscrowError::NotRentExempt => 1,
            EscrowError::ExpectedAmountMismatch => 2,
            EscrowError::AmountOverflow => 3,
        }
    }

    /// The words that describe the failure to a person.
    pub open spec fn spec_message(self) -> Seq<char> {
        match self {
            EscrowError::InvalidInstruction => "Invalid Instruction"@,
            EscrowError::NotRentExempt => "Not Rent Exempt"@,
            EscrowError::ExpectedAmountMismatch => "Expected Amount Mismatch"@,
            EscrowError::AmountOverflow => "Amount Overflow"@,
        }
    }

    /// The words that describe the failure to a person.
    pub fn message(self) -> (text: &'static str)
        ensures
            text@ == self.spec_message(),
    {
        match self {
            EscrowError::InvalidInstruction => "Invalid Instruction",
            EscrowError::NotRentExempt => "Not Rent Exempt",
            EscrowError::ExpectedAmountMismatch => "Expected Amount Mismatch",
            EscrowError::AmountOverflow => "Amount Overflow",
        }
    }
}

/// Why an operation was refused: one of the program's own failures, one of
/// the host's standard failure kinds, or a failure that one of the host's
/// libraries reported while it inspected an account.
#[derive(Clone, Copy, Debug, PartialEq, Eq, Structural)]
pub enum Failure {
    /// A failure of the escrow program's own.
    Escrow(EscrowError),
    /// The party that must authorise the operation did not sign.
    MissingRequiredSignature,
    /// An account is not owned by the token service, or the account given
    /// as the token service is not it.
    IncorrectProgramId,
    /// The record storage already holds an open trade.
    AccountAlreadyInitialized,
    /// The record storage holds no open trade.
    UninitializedAccount,
    /// The record storage is malformed, or an account is not the one that
    /// the record names.
    InvalidAccountData,
    /// The request names fewer accounts than the operation reads.
    NotEnoughAccountKeys,
    /// No custody identity can be derived for the program.
    InvalidSeeds,
    /// A failure reported by one of the host's libraries, under the host's
    /// own numeric code.
    Host(u64),
}

impl From<EscrowError> for Failure {
    fn from(error: EscrowError) -> (failure: Failure) {
        Failure::Escrow(error)
    }
}

impl FromSpecImpl<EscrowError> for Failure {
    open spec fn obeys_from_spec() -> bool {
        true
    }

    open spec fn from_spec(error: EscrowError) -> Failure {
        Failure::Escrow(error)
    }
}

} // verus!
