use vstd::prelude::*;
use vstd::bytes::{spec_u64_from_le_bytes, u64_from_le_bytes};
use vstd::slice::{slice_index_get, slice_subrange};
use crate::error::EscrowError;

verus! {

/// A decoded instruction.  Byte 0 of the wire format is the discriminant
/// tag (0 for [`EscrowInstruction::InitEscrow`], 1 for
/// [`EscrowInstruction::Exchange`]); bytes 1..9 carry the amount as a
/// little-endian unsigned 64-bit integer.
#[derive(Clone, Copy, Debug, PartialEq, Eq, Structural)]
pub enum EscrowInstruction {
    /// Create an escrow; `amount` is the quantity the initializer demands
    /// in return for the escrowed asset.
    InitEscrow { amount: u64 },
    /// Settle an escrow; `amount` is the temporary-account balance the
    /// receiver expects to be escrowed.
    Exchange { amount: u64 },
}

impl EscrowInstruction {
    /// Decodes an instruction payload.  Exactly the buffers of at least
    /// nine bytes whose first byte is 0 or 1 decode; everything else fails
    /// with [`EscrowError::InvalidInstruction`], and no partial result is
    /// ever produced.
    pub fn unpack(input: &[u8]) -> (r: Result<EscrowInstruction, EscrowError>)
        ensures
            r.is_ok() <==> input@.len() >= 9 && (input@[0] == 0 || input@[0] == 1),
            input@.len() >= 9 && input@[0] == 0 ==> r == Ok::<EscrowInstruction, EscrowError>(
                EscrowInstruction::InitEscrow {
                    amount: spec_u64_from_le_bytes(input@.subrange(1, 9)),
                },
            ),
            input@.len() >= 9 && input@[0] == 1 ==> r == Ok::<EscrowInstruction, EscrowError>(
                EscrowInstruction::Exchange {
                    amount: spec_u64_from_le_bytes(input@.subrange(1, 9)),
                },
            ),
            r.is_err() ==> r == Err::<EscrowInstruction, EscrowError>(
                EscrowError::InvalidInstruction,
            ),
    {
        if input.len() == 0 {
            return Err(EscrowError::InvalidInstruction);
        }
        let tag: u8 = *slice_index_get(input, 0);
        let rest: &[u8] = slice_subrange(input, 1, input.len());
        proof {
            if input@.len() >= 9 {
                assert(rest@.subrange(0, 8) =~= input@.subrange(1, 9));
            }
        }
        match tag {
            0 => match Self::unpack_amount(rest) {
                Ok(amount) => Ok(EscrowInstruction::InitEscrow { amount }),
                Err(e) => Err(e),
            },
            1 => match Self::unpack_amount(rest) {
                Ok(amount) => Ok(EscrowInstruction::Exchange { amount }),
                Err(e) => Err(e),
            },
            _ => Err(EscrowError::InvalidInstruction),
        }
    }

    /// Reads the little-endian amount field from the bytes that follow the
    /// tag.
    fn unpack_amount(input: &[u8]) -> (r: Result<u64, EscrowError>)
        ensures
            r.is_ok() <==> input@.len() >= 8,
            input@.len() >= 8 ==> r == Ok::<u64, EscrowError>(
                spec_u64_from_le_bytes(input@.subrange(0, 8)),
            ),
            r.is_err() ==> r == Err::<u64, EscrowError>(EscrowError::InvalidInstruction),
    {
        if input.len() < 8 {
            return Err(EscrowError::InvalidInstruction);
        }
        let bytes: &[u8] = slice_subrange(input, 0, 8);
        Ok(u64_from_le_bytes(bytes))
    }
}

} // verus!
