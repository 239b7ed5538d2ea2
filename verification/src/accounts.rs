use vstd::prelude::*;

verus! {

/// One runtime-supplied account as a transition sees it: an addressable,
/// owner-tagged container of a balance and a byte buffer, plus whether its
/// holder signed the enclosing transaction.  The runtime persists the
/// mutated fields only when the whole transaction succeeds.
#[derive(Debug, Clone, PartialEq, Eq)]
pub struct Account {
    /// The account's 32-byte address.
    pub key: Vec<u8>,
    /// The holder signed this transaction.
    pub is_signer: bool,
    /// 32-byte address of the program that owns the account.
    pub owner: Vec<u8>,
    /// The account's balance in the runtime's native unit.
    pub lamports: u64,
    /// The account's data buffer.
    pub data: Vec<u8>,
}

impl Account {
    /// The two addresses are exactly 32 bytes.
    pub open spec fn wf(self) -> bool {
        &&& self.key@.len() == 32
        &&& self.owner@.len() == 32
    }
}

/// How an operation handed to the external token ledger is authorized.
/// The derived-address proof is a capability, not a key: the program
/// re-derives the address from the fixed seed, its own identity and the
/// bump, and the ledger accepts that derivation in place of a signature.
#[derive(Debug, Clone, Copy, PartialEq, Eq, Structural)]
pub enum AuthorityProof {
    /// A real transaction signature by the named authority.
    Signature,
    /// The program's derived-address proof for the escrow seed, with the
    /// bump byte that completes the derivation.
    DerivedSeed { bump: u8 },
}

/// One operation that a successful transition asks the external token
/// ledger to perform.  The transitions return these in the order they must
/// run; the surrounding transaction applies all of them or none.
#[derive(Debug, Clone, PartialEq, Eq)]
pub enum LedgerAction {
    /// Hand account-owner authority over `account` from
    /// `current_authority` (who signs) to `new_authority`.
    SetAuthority {
        token_program: Vec<u8>,
        account: Vec<u8>,
        new_authority: Vec<u8>,
        current_authority: Vec<u8>,
    },
    /// Move `amount` token units from `source` to `destination`,
    /// authorized by `authority` with `proof`.
    Transfer {
        token_program: Vec<u8>,
        source: Vec<u8>,
        destination: Vec<u8>,
        authority: Vec<u8>,
        amount: u64,
        proof: AuthorityProof,
    },
    /// Close `account`, refunding its whole balance to `destination`,
    /// authorized by `authority` with `proof`.
    CloseAccount {
        token_program: Vec<u8>,
        account: Vec<u8>,
        destination: Vec<u8>,
        authority: Vec<u8>,
        proof: AuthorityProof,
    },
}

impl LedgerAction {
    /// The token-ledger program identity the action is addressed to.
    pub open spec fn spec_token_program(self) -> Seq<u8> {
        match self {
            LedgerAction::SetAuthority { token_program, .. } => token_program@,
            LedgerAction::Transfer { token_program, .. } => token_program@,
            LedgerAction::CloseAccount { token_program, .. } => token_program@,
        }
    }

    /// Every address carried by the action is exactly 32 bytes.
    pub open spec fn wf(self) -> bool {
        match self {
            LedgerAction::SetAuthority {
                token_program,
                account,
                new_authority,
                current_authority,
            } => token_program@.len() == 32 && account@.len() == 32 && new_authority@.len() == 32
                && current_authority@.len() == 32,
            LedgerAction::Transfer { token_program, source, destination, authority, .. } =>
                token_program@.len() == 32 && source@.len() == 32 && destination@.len() == 32
                && authority@.len() == 32,
            LedgerAction::CloseAccount { token_program, account, destination, authority, .. } =>
                token_program@.len() == 32 && account@.len() == 32 && destination@.len() == 32
                && authority@.len() == 32,
        }
    }
}

/// Byte-for-byte comparison of two addresses (or any two byte buffers).
pub fn keys_equal(a: &Vec<u8>, b: &Vec<u8>) -> (r: bool)
    ensures
        r <==> a@ == b@,
{
    if a.len() != b.len() {
        return false;
    }
    let n: usize = a.len();
    let mut i: usize = 0;
    while i < n
        invariant
            n == a@.len(),
            n == b@.len(),
            i <= n,
            forall|j: int| 0 <= j < i ==> a@[j] == b@[j],
        decreases n - i,
    {
        if a[i] != b[i] {
            return false;
        }
        i += 1;
    }
    proof {
        assert(a@ =~= b@);
    }
    true
}

} // verus!
