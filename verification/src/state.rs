//! The persisted counter state and its fixed-width binary layout: exactly four
//! bytes, a little-endian unsigned 32-bit integer, no header and no padding.

use vstd::prelude::*;

use crate::instructions::CounterError;

verus! {

/// The little-endian interpretation of a 4-byte sequence as an unsigned
/// 32-bit value.
pub open spec fn u32_from_le(b: Seq<u8>) -> u32
    recommends
        b.len() == 4,
{
    (b[0] as u32) | ((b[1] as u32) << 8) | ((b[2] as u32) << 16) | ((b[3] as u32) << 24)
}

/// The 4-byte little-endian encoding of an unsigned 32-bit value.
pub open spec fn u32_to_le(v: u32) -> Seq<u8> {
    seq![
        (v & 0xff) as u8,
        ((v >> 8) & 0xff) as u8,
        ((v >> 16) & 0xff) as u8,
        ((v >> 24) & 0xff) as u8,
    ]
}

/// Encoding an unsigned 32-bit value and decoding the bytes again restores
/// the value.
pub proof fn lemma_le_round_trip(v: u32)
    ensures
        u32_from_le(u32_to_le(v)) == v,
{
    assert((((v & 0xff) as u8 as u32) | ((((v >> 8) & 0xff) as u8 as u32) << 8) | ((((v >> 16)
        & 0xff) as u8 as u32) << 16) | ((((v >> 24) & 0xff) as u8 as u32) << 24)) == v)
        by (bit_vector);
}

/// Decoding a 4-byte buffer and re-encoding the value restores the buffer,
/// byte for byte.
pub proof fn lemma_bytes_round_trip(b: Seq<u8>)
    requires
        b.len() == 4,
    ensures
        u32_to_le(u32_from_le(b)) == b,
{
    let b0 = b[0];
    let b1 = b[1];
    let b2 = b[2];
    let b3 = b[3];
    let v = u32_from_le(b);
    assert(v == (b0 as u32) | ((b1 as u32) << 8) | ((b2 as u32) << 16) | ((b3 as u32) << 24));
    assert(((((b0 as u32) | ((b1 as u32) << 8) | ((b2 as u32) << 16) | ((b3 as u32) << 24))
        & 0xff) as u8) == b0) by (bit_vector);
    assert((((((b0 as u32) | ((b1 as u32) << 8) | ((b2 as u32) << 16) | ((b3 as u32) << 24)) >> 8)
        & 0xff) as u8) == b1) by (bit_vector);
    assert((((((b0 as u32) | ((b1 as u32) << 8) | ((b2 as u32) << 16) | ((b3 as u32) << 24)) >> 16)
        & 0xff) as u8) == b2) by (bit_vector);
    assert((((((b0 as u32) | ((b1 as u32) << 8) | ((b2 as u32) << 16) | ((b3 as u32) << 24)) >> 24)
        & 0xff) as u8) == b3) by (bit_vector);
    assert(u32_to_le(v) =~= b);
}

/// The persisted state: a single unsigned 32-bit counter, stored as the whole
/// contents of the account's data buffer.
#[derive(Debug, Clone, Copy, PartialEq, Eq, Structural)]
pub struct CounterAccount {
    pub counter: u32,
}

/// Relies on borsh's `BorshDeserialize::try_from_slice` for `u32`: it reads
/// exactly four little-endian bytes and fails unless the whole slice is
/// consumed, so it succeeds if and only if the slice has length four.
#[verifier::external_body]
fn borsh_u32_from_slice(data: &[u8]) -> (r: Result<u32, CounterError>)
    ensures
        match r {
            Ok(v) => data@.len() == 4 && v == u32_from_le(data@),
            Err(e) => data@.len() != 4 && e == CounterError::InvalidAccountData,
        },
{
    match <u32 as borsh::BorshDeserialize>::try_from_slice(data) {
        Ok(v) => Ok(v),
        Err(_) => Err(CounterError::InvalidAccountData),
    }
}

/// Relies on borsh's `BorshSerialize::serialize` for `u32` writing into a byte
/// slice: on success it overwrites the first four bytes with the little-endian
/// encoding and leaves the rest unchanged; it fails when the slice is shorter
/// than four bytes, writing at most what fits and never changing the length.
#[verifier::external_body]
fn borsh_u32_to_slice(buf: &mut Vec<u8>, v: u32) -> (r: Result<(), CounterError>)
    ensures
        final(buf)@.len() == old(buf)@.len(),
        match r {
            Ok(()) => old(buf)@.len() >= 4 && final(buf)@ == u32_to_le(v) + old(buf)@.skip(4),
            Err(e) => old(buf)@.len() < 4 && e == CounterError::InvalidAccountData,
        },
{
    match borsh::BorshSerialize::serialize(&v, &mut &mut buf[..]) {
        Ok(()) => Ok(()),
        Err(_) => Err(CounterError::InvalidAccountData),
    }
}

impl CounterAccount {
    /// Deserializes the persisted state from an account data buffer. The
    /// buffer must be exactly the four little-endian bytes of the counter;
    /// any other length is an account-data error.
    pub fn try_from_slice(data: &[u8]) -> (r: Result<CounterAccount, CounterError>)
        ensures
            match r {
                Ok(acct) => data@.len() == 4 && acct.counter == u32_from_le(data@),
                Err(e) => data@.len() != 4 && e == CounterError::InvalidAccountData,
            },
    {
        match borsh_u32_from_slice(data) {
            Ok(v) => Ok(CounterAccount { counter: v }),
            Err(e) => Err(e),
        }
    }

    /// Serializes the state over the start of an account data buffer in
    /// place, preserving the buffer's length. A buffer shorter than four
    /// bytes is an account-data error.
    pub fn serialize(&self, buf: &mut Vec<u8>) -> (r: Result<(), CounterError>)
        ensures
            final(buf)@.len() == old(buf)@.len(),
            match r {
                Ok(()) => old(buf)@.len() >= 4 && final(buf)@ == u32_to_le(self.counter) + old(
                    buf,
                )@.skip(4),
                Err(e) => old(buf)@.len() < 4 && e == CounterError::InvalidAccountData,
            },
    {
        borsh_u32_to_slice(buf, self.counter)
    }
}

} // verus!
