//! The entry handler: decode the instruction, read the counter from the first
//! account's data buffer, apply the operation, and write the result back in
//! place. Every failure is terminal and leaves every buffer untouched.

use vstd::prelude::*;

use crate::instructions::{decode_spec, CounterError, CounterInstructions, UpdateArgs};
use crate::state::{u32_from_le, u32_to_le, CounterAccount};

verus! {

/// What applying an instruction to a counter value yields: the new value, or
/// an arithmetic error at the unsigned 32-bit boundaries.
pub open spec fn apply_spec(instruction: CounterInstructions, counter: u32) -> Result<
    u32,
    CounterError,
> {
    match instruction {
        CounterInstructions::Increment => if counter == u32::MAX {
            Err(CounterError::ArithmeticOverflow)
        } else {
            Ok((counter + 1) as u32)
        },
        CounterInstructions::Decrement => if counter == 0 {
            Err(CounterError::ArithmeticUnderflow)
        } else {
            Ok((counter - 1) as u32)
        },
        CounterInstructions::Update(args) => Ok(args.value),
        CounterInstructions::Reset => Ok(0u32),
    }
}

/// Applies one decoded instruction to a counter value. Incrementing at the
/// maximum value and decrementing at zero fail with an arithmetic error: the
/// checked choice for the boundary behaviour, so the counter never wraps.
pub fn apply(instruction: CounterInstructions, counter: u32) -> (r: Result<u32, CounterError>)
    ensures
        r == apply_spec(instruction, counter),
{
    match instruction {
        CounterInstructions::Increment => {
            if counter == u32::MAX {
                Err(CounterError::ArithmeticOverflow)
            } else {
                Ok(counter + 1)
            }
        },
        CounterInstructions::Decrement => {
            if counter == 0 {
                Err(CounterError::ArithmeticUnderflow)
            } else {
                Ok(counter - 1)
            }
        },
        CounterInstructions::Update(args) => Ok(args.value),
        CounterInstructions::Reset => Ok(0u32),
    }
}

/// What one invocation yields: the counter value written back into the first
/// account's data buffer, or the error on which every buffer stays untouched.
pub open spec fn process_spec(accounts: Seq<Seq<u8>>, data: Seq<u8>) -> Result<u32, CounterError> {
    match decode_spec(data) {
        Err(e) => Err(e),
        Ok(instruction) => if accounts.len() == 0 {
            Err(CounterError::NotEnoughAccounts)
        } else if accounts[0].len() != 4 {
            Err(CounterError::InvalidAccountData)
        } else {
            apply_spec(instruction, u32_from_le(accounts[0]))
        },
    }
}

/// The single entry point. `accounts` holds each account's data buffer; only
/// the first is read or written. On success the first buffer holds the new
/// counter value, little-endian, and every other buffer is unchanged; on any
/// error nothing is changed and the error is exactly what `process_spec`
/// names for these inputs.
pub fn process_instruction(accounts: &mut Vec<Vec<u8>>, instruction_data: &[u8]) -> (r: Result<
    (),
    CounterError,
>)
    ensures
        final(accounts)@.len() == old(accounts)@.len(),
        match process_spec(old(accounts).deep_view(), instruction_data@) {
            Ok(v) => r == Ok::<(), CounterError>(()) && old(accounts)@.len() > 0
                && final(accounts)@[0]@ == u32_to_le(v) && (forall|i: int|
                1 <= i < old(accounts)@.len() ==> final(accounts)@[i] == old(accounts)@[i]),
            Err(e) => r == Err::<(), CounterError>(e) && final(accounts)@ == old(accounts)@,
        },
{
    let ghost accounts0 = accounts@;
    let instruction = match CounterInstructions::unpack(instruction_data) {
        Ok(i) => i,
        Err(e) => {
            return Err(e);
        },
    };
    if accounts.len() == 0 {
        return Err(CounterError::NotEnoughAccounts);
    }
    proof {
        assert(old(accounts).deep_view()[0] == old(accounts)@[0]@);
    }
    let mut buf = accounts.remove(0);
    let counter_account = match CounterAccount::try_from_slice(buf.as_slice()) {
        Ok(c) => c,
        Err(e) => {
            accounts.insert(0, buf);
            proof {
                assert(accounts@ =~= accounts0);
            }
            return Err(e);
        },
    };
    let new_counter = match apply(instruction, counter_account.counter) {
        Ok(v) => v,
        Err(e) => {
            accounts.insert(0, buf);
            proof {
                assert(accounts@ =~= accounts0);
            }
            return Err(e);
        },
    };
    let updated = CounterAccount { counter: new_counter };
    match updated.serialize(&mut buf) {
        Ok(()) => {},
        Err(e) => {
            // unreachable: the buffer was just deserialized, so it has four bytes
            proof {
                assert(false);
            }
            accounts.insert(0, buf);
            return Err(e);
        },
    }
    proof {
        assert(buf@ =~= u32_to_le(new_counter));
    }
    accounts.insert(0, buf);
    Ok(())
}

/// An invocation with an empty instruction buffer fails as an invalid
/// instruction, whatever the accounts hold; and since every error leaves the
/// buffers untouched by `process_instruction`'s contract, no account mutation
/// is observed.
pub proof fn lemma_empty_input_rejected(accounts: Seq<Seq<u8>>)
    ensures
        process_spec(accounts, Seq::<u8>::empty()) == Err::<u32, CounterError>(
            CounterError::InvalidInstruction,
        ),
{
}

/// Increment then decrement restores the starting value, for counters
/// strictly between zero and the maximum.
pub proof fn lemma_increment_then_decrement(counter: u32)
    requires
        0 < counter < u32::MAX,
    ensures
        apply_spec(CounterInstructions::Increment, counter) == Ok::<u32, CounterError>(
            (counter + 1) as u32,
        ),
        apply_spec(CounterInstructions::Decrement, (counter + 1) as u32) == Ok::<
            u32,
            CounterError,
        >(counter),
{
}

/// The update instruction sets the counter to exactly its argument, whatever
/// the prior value.
pub proof fn lemma_update_sets_value(value: u32, counter: u32)
    ensures
        apply_spec(CounterInstructions::Update(UpdateArgs { value }), counter) == Ok::<
            u32,
            CounterError,
        >(value),
{
}

/// The reset instruction yields zero, whatever the prior value.
pub proof fn lemma_reset_yields_zero(counter: u32)
    ensures
        apply_spec(CounterInstructions::Reset, counter) == Ok::<u32, CounterError>(0u32),
{
}

} // verus!
