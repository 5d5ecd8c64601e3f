//! The instruction wire format: a leading opcode byte selects one of four
//! operations, and the update opcode carries a 4-byte little-endian value.

use vstd::prelude::*;

use crate::state::u32_from_le;

verus! {

/// The argument of the update instruction: the value the counter is set to.
#[derive(Debug, Clone, Copy, PartialEq, Eq, Structural)]
pub struct UpdateArgs {
    pub value: u32,
}

/// A decoded instruction: one of the four operations on the counter.
#[derive(Debug, Clone, Copy, PartialEq, Eq, Structural)]
pub enum CounterInstructions {
    Increment,
    Decrement,
    Update(UpdateArgs),
    Reset,
}

/// Every failure an invocation can surface. Each error is terminal: when one
/// is returned, no account data has been changed.
#[derive(Debug, Clone, Copy, PartialEq, Eq, Structural)]
pub enum CounterError {
    /// The instruction buffer is empty, or its opcode byte is not 0, 1, 2 or 3.
    InvalidInstruction,
    /// The update opcode was not followed by four bytes of value.
    InvalidInstructionData,
    /// The accounts list is empty.
    NotEnoughAccounts,
    /// The account data buffer does not hold the four bytes of the counter.
    InvalidAccountData,
    /// Incrementing the counter at its maximum value.
    ArithmeticOverflow,
    /// Decrementing the counter at zero.
    ArithmeticUnderflow,
}

/// What decoding an instruction buffer yields. The first byte is the opcode:
/// 0 increments, 1 decrements, 2 sets the counter to the little-endian value
/// in the next four bytes, 3 resets; anything else is invalid. Bytes past
/// what the opcode needs are ignored.
pub open spec fn decode_spec(data: Seq<u8>) -> Result<CounterInstructions, CounterError> {
    if data.len() == 0 {
        Err(CounterError::InvalidInstruction)
    } else if data[0] == 0 {
        Ok(CounterInstructions::Increment)
    } else if data[0] == 1 {
        Ok(CounterInstructions::Decrement)
    } else if data[0] == 2 {
        if data.len() < 5 {
            Err(CounterError::InvalidInstructionData)
        } else {
            Ok(
                CounterInstructions::Update(
                    UpdateArgs { value: u32_from_le(data.subrange(1, 5)) },
                ),
            )
        }
    } else if data[0] == 3 {
        Ok(CounterInstructions::Reset)
    } else {
        Err(CounterError::InvalidInstruction)
    }
}

impl CounterInstructions {
    /// Decodes an instruction buffer into exactly one of the four variants,
    /// or fails as `decode_spec` says: an empty buffer or an opcode above 3
    /// is an invalid instruction, and the update opcode with fewer than four
    /// trailing bytes is truncated instruction data.
    pub fn unpack(input: &[u8]) -> (r: Result<CounterInstructions, CounterError>)
        ensures
            r == decode_spec(input@),
    {
        if input.len() == 0 {
            return Err(CounterError::InvalidInstruction);
        }
        let opcode = input[0];
        if opcode == 0 {
            Ok(CounterInstructions::Increment)
        } else if opcode == 1 {
            Ok(CounterInstructions::Decrement)
        } else if opcode == 2 {
            if input.len() < 5 {
                Err(CounterError::InvalidInstructionData)
            } else {
                let value: u32 = (input[1] as u32) | ((input[2] as u32) << 8) | ((input[3]
                    as u32) << 16) | ((input[4] as u32) << 24);
                proof {
                    assert(input@.subrange(1, 5) =~= seq![
                        input@[1],
                        input@[2],
                        input@[3],
                        input@[4],
                    ]);
                }
                Ok(CounterInstructions::Update(UpdateArgs { value }))
            }
        } else if opcode == 3 {
            Ok(CounterInstructions::Reset)
        } else {
            Err(CounterError::InvalidInstruction)
        }
    }
}

/// Any opcode of 4 or more is rejected as an invalid instruction, whatever
/// follows it.
pub proof fn lemma_unknown_opcode_rejected(data: Seq<u8>)
    requires
        data.len() > 0,
        data[0] >= 4,
    ensures
        decode_spec(data) == Err::<CounterInstructions, CounterError>(
            CounterError::InvalidInstruction,
        ),
{
}

/// The update opcode with fewer than four trailing bytes is rejected as
/// truncated instruction data.
pub proof fn lemma_truncated_update_rejected(data: Seq<u8>)
    requires
        data.len() > 0,
        data[0] == 2,
        data.len() < 5,
    ensures
        decode_spec(data) == Err::<CounterInstructions, CounterError>(
            CounterError::InvalidInstructionData,
        ),
{
}

} // verus!
