use vstd::prelude::*;
use vstd::bytes::{
    lemma_auto_spec_u64_to_from_le_bytes, spec_u64_from_le_bytes, spec_u64_to_le_bytes,
    u64_from_le_bytes, u64_to_le_bytes,
};
use vstd::slice::{slice_index_get, slice_subrange, slice_to_vec};
use crate::error::EscrowError;

verus! {

/// Length in bytes of a packed escrow record: a one-byte liveness flag,
/// three 32-byte addresses, and a little-endian 64-bit amount.
pub const RECORD_LEN: usize = 105;

/// The escrow record, the only persisted entity.  It is written into the
/// data buffer of a caller-supplied account by the init transition and
/// read, validated and destroyed by the exchange transition.
#[derive(Debug, Clone, PartialEq, Eq)]
pub struct Escrow {
    /// The record is live.  A buffer that never had a record written
    /// decodes as all zeroes and therefore as not initialized.
    pub is_initialized: bool,
    /// Address of the party who created the escrow.
    pub initializer: Vec<u8>,
    /// Address of the holding account whose authority was handed to the
    /// program-derived address during init.
    pub temp_token_account: Vec<u8>,
    /// Address of the destination for the counterparty's payment.
    pub initializer_wanted_token_account: Vec<u8>,
    /// Quantity the initializer demands in return.
    pub amount: u64,
}

impl Escrow {
    /// Each stored address is exactly 32 bytes.
    pub open spec fn wf(self) -> bool {
        &&& self.initializer@.len() == 32
        &&& self.temp_token_account@.len() == 32
        &&& self.initializer_wanted_token_account@.len() == 32
    }

    /// The record one decodes from the first [`RECORD_LEN`] bytes of `s`.
    pub open spec fn decodes_from(self, s: Seq<u8>) -> bool
        recommends
            s.len() >= 105,
    {
        &&& self.is_initialized == (s[0] == 1)
        &&& self.initializer@ == s.subrange(1, 33)
        &&& self.temp_token_account@ == s.subrange(33, 65)
        &&& self.initializer_wanted_token_account@ == s.subrange(65, 97)
        &&& self.amount == spec_u64_from_le_bytes(s.subrange(97, 105))
    }

    /// The first [`RECORD_LEN`] bytes of `s` are the packed form of the
    /// record.
    pub open spec fn packs_to(self, s: Seq<u8>) -> bool
        recommends
            s.len() >= 105,
    {
        &&& s[0] == (if self.is_initialized { 1u8 } else { 0u8 })
        &&& s.subrange(1, 33) == self.initializer@
        &&& s.subrange(33, 65) == self.temp_token_account@
        &&& s.subrange(65, 97) == self.initializer_wanted_token_account@
        &&& s.subrange(97, 105) == spec_u64_to_le_bytes(self.amount)
    }

    /// Whether the record is live.
    pub fn is_initialized(&self) -> (r: bool)
        ensures
            r == self.is_initialized,
    {
        self.is_initialized
    }

    /// Positional decode of a record from a buffer of at least
    /// [`RECORD_LEN`] bytes.  The liveness byte must be exactly 0 or 1;
    /// any other value fails with [`EscrowError::InvalidAccountData`].
    pub fn unpack_from_slice(src: &[u8]) -> (r: Result<Escrow, EscrowError>)
        requires
            src@.len() >= 105,
        ensures
            r.is_ok() <==> (src@[0] == 0 || src@[0] == 1),
            r.is_err() ==> r == Err::<Escrow, EscrowError>(EscrowError::InvalidAccountData),
            r.is_ok() ==> r.unwrap().wf() && r.unwrap().decodes_from(src@),
    {
        let flag: u8 = *slice_index_get(src, 0);
        let is_initialized: bool;
        if flag == 0 {
            is_initialized = false;
        } else if flag == 1 {
            is_initialized = true;
        } else {
            return Err(EscrowError::InvalidAccountData);
        }
        let initializer: Vec<u8> = slice_to_vec(slice_subrange(src, 1, 33));
        let temp_token_account: Vec<u8> = slice_to_vec(slice_subrange(src, 33, 65));
        let initializer_wanted_token_account: Vec<u8> = slice_to_vec(
            slice_subrange(src, 65, 97),
        );
        let amount: u64 = u64_from_le_bytes(slice_subrange(src, 97, 105));
        Ok(Escrow {
            is_initialized,
            initializer,
            temp_token_account,
            initializer_wanted_token_account,
            amount,
        })
    }

    /// Decode tolerant of a fresh buffer: the buffer must be exactly
    /// [`RECORD_LEN`] bytes and its liveness byte 0 or 1, but the record
    /// may be uninitialized.  The init transition uses this to probe for a
    /// prior record.
    pub fn unpack_unchecked(input: &[u8]) -> (r: Result<Escrow, EscrowError>)
        ensures
            r.is_ok() <==> input@.len() == 105 && (input@[0] == 0 || input@[0] == 1),
            r.is_err() ==> r == Err::<Escrow, EscrowError>(EscrowError::InvalidAccountData),
            r.is_ok() ==> r.unwrap().wf() && r.unwrap().decodes_from(input@),
    {
        if input.len() != RECORD_LEN {
            return Err(EscrowError::InvalidAccountData);
        }
        Self::unpack_from_slice(input)
    }

    /// Strict decode: as [`Escrow::unpack_unchecked`], and additionally the
    /// record must be live, else [`EscrowError::UninitializedAccount`].
    pub fn unpack(input: &[u8]) -> (r: Result<Escrow, EscrowError>)
        ensures
            r.is_ok() <==> input@.len() == 105 && input@[0] == 1,
            r.is_ok() ==> r.unwrap().wf() && r.unwrap().decodes_from(input@)
                && r.unwrap().is_initialized,
            input@.len() == 105 && input@[0] == 0 ==> r == Err::<Escrow, EscrowError>(
                EscrowError::UninitializedAccount,
            ),
            !(input@.len() == 105 && (input@[0] == 0 || input@[0] == 1)) ==> r == Err::<
                Escrow,
                EscrowError,
            >(EscrowError::InvalidAccountData),
    {
        match Self::unpack_unchecked(input) {
            Ok(e) => {
                if e.is_initialized {
                    Ok(e)
                } else {
                    Err(EscrowError::UninitializedAccount)
                }
            },
            Err(e) => Err(e),
        }
    }

    /// Positional encode of the record into the first [`RECORD_LEN`] bytes
    /// of `dst`, which must be at least that long; bytes past the record
    /// are left untouched.
    pub fn pack_into_slice(&self, dst: &mut Vec<u8>)
        requires
            self.wf(),
            old(dst)@.len() >= 105,
        ensures
            final(dst)@.len() == old(dst)@.len(),
            self.packs_to(final(dst)@),
            forall|j: int| 105 <= j < old(dst)@.len() ==> final(dst)@[j] == old(dst)@[j],
    {
        let flag: u8 = if self.is_initialized {
            1
        } else {
            0
        };
        dst[0] = flag;
        write_bytes(dst, 1, &self.initializer);
        write_bytes(dst, 33, &self.temp_token_account);
        write_bytes(dst, 65, &self.initializer_wanted_token_account);
        let amount_bytes: Vec<u8> = u64_to_le_bytes(self.amount);
        write_bytes(dst, 97, &amount_bytes);
        proof {
            assert(dst@.subrange(1, 33) =~= self.initializer@);
            assert(dst@.subrange(33, 65) =~= self.temp_token_account@);
            assert(dst@.subrange(65, 97) =~= self.initializer_wanted_token_account@);
            assert(dst@.subrange(97, 105) =~= spec_u64_to_le_bytes(self.amount));
        }
    }

    /// Encode with a size check: the destination must be exactly
    /// [`RECORD_LEN`] bytes, else [`EscrowError::InvalidAccountData`] and
    /// the destination is left unchanged.
    pub fn pack(src: Escrow, dst: &mut Vec<u8>) -> (r: Result<(), EscrowError>)
        requires
            src.wf(),
        ensures
            r.is_ok() <==> old(dst)@.len() == 105,
            r.is_err() ==> r == Err::<(), EscrowError>(EscrowError::InvalidAccountData)
                && final(dst)@ == old(dst)@,
            r.is_ok() ==> final(dst)@.len() == 105 && src.packs_to(final(dst)@),
    {
        if dst.len() != RECORD_LEN {
            return Err(EscrowError::InvalidAccountData);
        }
        src.pack_into_slice(dst);
        Ok(())
    }
}

/// Copies all of `src` into `dst` starting at `off`, leaving every byte
/// outside that window unchanged.
fn write_bytes(dst: &mut Vec<u8>, off: usize, src: &Vec<u8>)
    requires
        off + src@.len() <= old(dst)@.len(),
    ensures
        final(dst)@.len() == old(dst)@.len(),
        final(dst)@.subrange(off as int, off + src@.len()) == src@,
        forall|j: int|
            0 <= j < old(dst)@.len() && !(off <= j < off + src@.len()) ==> final(dst)@[j]
                == old(dst)@[j],
{
    let n: usize = src.len();
    let dlen: usize = dst.len();
    let mut i: usize = 0;
    while i < n
        invariant
            n == src@.len(),
            off + n <= dlen,
            dlen == old(dst)@.len(),
            dst@.len() == old(dst)@.len(),
            i <= n,
            forall|j: int| off <= j < off + i ==> dst@[j] == src@[j - off],
            forall|j: int|
                0 <= j < dst@.len() && !(off <= j < off + i) ==> dst@[j] == old(dst)@[j],
        decreases n - i,
    {
        dst[off + i] = src[i];
        i += 1;
    }
    proof {
        assert(dst@.subrange(off as int, off + src@.len()) =~= src@);
    }
}

/// Round-trip law of the record codec: the bytes that packing a
/// well-formed record produces decode again, and any record decoded from
/// them is identical to the one that was packed, field for field.
pub proof fn lemma_pack_unpack_roundtrip(e: Escrow, s: Seq<u8>, e2: Escrow)
    requires
        e.wf(),
        s.len() >= 105,
        e.packs_to(s),
        e2.decodes_from(s),
    ensures
        s[0] == 0 || s[0] == 1,
        e2.is_initialized == e.is_initialized,
        e2.initializer@ == e.initializer@,
        e2.temp_token_account@ == e.temp_token_account@,
        e2.initializer_wanted_token_account@ == e.initializer_wanted_token_account@,
        e2.amount == e.amount,
{
    lemma_auto_spec_u64_to_from_le_bytes();
}

} // verus!
