use vstd::prelude::*;

verus! {

/// Every way a transition can fail.  Any error aborts the whole enclosing
/// transaction, so no partial state is ever observable: a handler either
/// succeeds and reports the ledger operations to perform, or returns one of
/// these and leaves every account untouched.
#[derive(Clone, Copy, Debug, PartialEq, Eq, Structural)]
pub enum EscrowError {
    /// The instruction payload is shorter than nine bytes or its tag is
    /// neither 0 nor 1.
    InvalidInstruction,
    /// The escrow record account's balance is too small for the account to
    /// be exempt from rent at its current size.
    NotRentExempt,
    /// The temporary token account's ledger-side balance differs from the
    /// amount the exchange caller declared.
    ExpectedAmountMismatch,
    /// Crediting the record account's balance to the initializer would
    /// overflow the native balance width.
    AmountOverflow,
    /// A required transaction signer did not sign.
    MissingRequiredSignature,
    /// An account is not owned by, or a program id is not, the external
    /// token ledger program.
    IncorrectProgramId,
    /// The escrow record account already holds a live record.
    AccountAlreadyInitialized,
    /// An account's data buffer does not decode, or a supplied account does
    /// not match the binding persisted at initialization.
    InvalidAccountData,
    /// The escrow record account holds no live record.
    UninitializedAccount,
    /// The ordered account list is shorter than the transition requires.
    NotEnoughAccountKeys,
    /// The rent sysvar account could not be read.
    InvalidArgument,
    /// No program-derived address exists for the escrow seed and this
    /// program identity.
    InvalidSeeds,
}

} // verus!
