use vstd::prelude::*;

use crate::codec::{le_u64_at, read_u64_le};
use crate::error::ProcessError;

verus! {

/// An instruction of the booth, as decoded from its bytes.
#[derive(Debug, Copy, Clone, PartialEq, Eq, Structural)]
pub enum ProgramInstruction {
    InitializeExchangeBooth { exchange_rate: u64, rate_decimals: u8, fee: u64, fee_decimals: u8 },
    Deposit { amount_a: u64, amount_b: u64 },
    CloseExchangeBooth {},
    Exchange { amount: u64 },
    Withdraw {},
}

/// Which asset the trader receives in an exchange.
#[derive(Debug, Copy, Clone, PartialEq, Eq, Structural)]
pub enum Direction {
    ToA,
    ToB,
}

/// The instruction that `input` encodes: a one-byte variant tag (in the order
/// the variants are declared) followed by the variant's fields, integers in
/// little-endian order, with no byte left over.
pub open spec fn spec_decode(input: Seq<u8>) -> Option<ProgramInstruction> {
    if input.len() == 19 && input[0] == 0 {
        Some(
            ProgramInstruction::InitializeExchangeBooth {
                exchange_rate: le_u64_at(input, 1) as u64,
                rate_decimals: input[9],
                fee: le_u64_at(input, 10) as u64,
                fee_decimals: input[18],
            },
        )
    } else if input.len() == 17 && input[0] == 1 {
        Some(
            ProgramInstruction::Deposit {
                amount_a: le_u64_at(input, 1) as u64,
                amount_b: le_u64_at(input, 9) as u64,
            },
        )
    } else if input.len() == 1 && input[0] == 2 {
        Some(ProgramInstruction::CloseExchangeBooth {  })
    } else if input.len() == 9 && input[0] == 3 {
        Some(ProgramInstruction::Exchange { amount: le_u64_at(input, 1) as u64 })
    } else if input.len() == 1 && input[0] == 4 {
        Some(ProgramInstruction::Withdraw {  })
    } else {
        None
    }
}

impl ProgramInstruction {
    /// Decodes an instruction; bytes that encode none are an invalid argument.
    pub fn unpack(input: &[u8]) -> (r: Result<Self, ProcessError>)
        ensures
            match spec_decode(input@) {
                Some(ix) => r == Ok::<Self, ProcessError>(ix),
                None => r == Err::<Self, ProcessError>(ProcessError::InvalidArgument),
            },
    {
        let len = input.len();
        if len == 0 {
            return Err(ProcessError::InvalidArgument);
        }
        let tag = input[0];
        if len == 19 && tag == 0 {
            Ok(
                ProgramInstruction::InitializeExchangeBooth {
                    exchange_rate: read_u64_le(input, 1),
                    rate_decimals: input[9],
                    fee: read_u64_le(input, 10),
                    fee_decimals: input[18],
                },
            )
        } else if len == 17 && tag == 1 {
            Ok(
                ProgramInstruction::Deposit {
                    amount_a: read_u64_le(input, 1),
                    amount_b: read_u64_le(input, 9),
                },
            )
        } else if len == 1 && tag == 2 {
            Ok(ProgramInstruction::CloseExchangeBooth {  })
        } else if len == 9 && tag == 3 {
            Ok(ProgramInstruction::Exchange { amount: read_u64_le(input, 1) })
        } else if len == 1 && tag == 4 {
            Ok(ProgramInstruction::Withdraw {  })
        } else {
            Err(ProcessError::InvalidArgument)
        }
    }
}

} // verus!
