use vstd::prelude::*;

verus! {

/// The failure kinds of the booth, in the order of their numeric codes.
#[derive(Debug, Copy, Clone, PartialEq, Eq, Structural)]
pub enum ExchangeBoothError {
    MissingRequiredSignature,
    InvalidAccountAddress,
    ComputeError,
    FeeOverMaxError,
    TooSmallAmountError,
    ConversionError,
}

impl ExchangeBoothError {
    /// The numeric code of the error kind, as reported to callers.
    pub open spec fn spec_code(self) -> u32 {
        match self {
            ExchangeBoothError::MissingRequiredSignature => 0,
            ExchangeBoothError::InvalidAccountAddress => 1,
            ExchangeBoothError::ComputeError => 2,
            ExchangeBoothError::FeeOverMaxError => 3,
            ExchangeBoothError::TooSmallAmountError => 4,
            ExchangeBoothError::ConversionError => 5,
        }
    }

    pub fn code(&self) -> (r: u32)
        ensures
            r == self.spec_code(),
    {
        match self {
            ExchangeBoothError::MissingRequiredSignature => 0,
            ExchangeBoothError::InvalidAccountAddress => 1,
            ExchangeBoothError::ComputeError => 2,
            ExchangeBoothError::FeeOverMaxError => 3,
            ExchangeBoothError::TooSmallAmountError => 4,
            ExchangeBoothError::ConversionError => 5,
        }
    }
}

/// Why an instruction was refused.
#[derive(Debug, Copy, Clone, PartialEq, Eq, Structural)]
pub enum ProcessError {
    /// A rule of the booth was broken.
    Booth(ExchangeBoothError),
    /// The instruction bytes do not encode an instruction.
    InvalidArgument,
    /// Fewer accounts were supplied than the instruction reads.
    NotEnoughAccountKeys,
    /// An account's data does not have the layout its role asks for.
    InvalidAccountData,
    /// A token account or mint has not been initialized.
    UninitializedAccount,
}

} // verus!
