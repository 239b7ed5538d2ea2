use vstd::prelude::*;
use vstd::bytes::spec_u64_from_le_bytes;
use crate::accounts::LedgerAction;
use crate::error::EscrowError;
use solana_program::instruction::Instruction;
use solana_program::program_pack::Pack;
use solana_program::pubkey::Pubkey;
use solana_program::sysvar::Sysvar;

verus! {

/// A message for the external token ledger, as the runtime transports it.
/// The crate builds these from [`LedgerAction`] values and hands them out
/// opaque; only the runtime interprets them.
#[verifier::external_type_specification]
#[verifier::external_body]
pub struct ExInstruction(Instruction);

/// What `Pubkey::try_find_program_address` returns for one seed and a
/// program identity: the derived address and its bump byte, or nothing in
/// the statistically improbable case that no bump lands the derivation
/// outside the valid-key space.  The result depends on the two arguments
/// alone.
pub uninterp spec fn derived_address_of(seed: Seq<u8>, program_id: Seq<u8>) -> Option<
    (Seq<u8>, u8),
>;

/// Relies on `solana_program::pubkey::Pubkey::try_find_program_address`
/// with the single seed `seed`: a deterministic derivation from the seed
/// and the program identity, with no private key for the result.
#[verifier::external_body]
pub(crate) fn find_derived_address(seed: &Vec<u8>, program_id: &Vec<u8>) -> (r: Option<(Vec<u8>, u8)>)
    requires
        program_id@.len() == 32,
    ensures
        r matches Some(p) ==> derived_address_of(seed@, program_id@) == Some((p.0@, p.1))
            && p.0@.len() == 32,
        r is None ==> derived_address_of(seed@, program_id@) is None,
{
    let pid = Pubkey::try_from(program_id.as_slice()).unwrap();
    match Pubkey::try_find_program_address(&[seed.as_slice()], &pid) {
        Some((pda, bump)) => Some((pda.to_bytes().to_vec(), bump)),
        None => None,
    }
}

/// Whether `key` is the external token ledger's program identity, a fixed
/// constant of the ledger, so the verdict depends on `key` alone.
pub uninterp spec fn is_token_program_id(key: Seq<u8>) -> bool;

/// Relies on `spl_token::check_id`: compares `key` against the token
/// ledger's own program identity.
#[verifier::external_body]
pub(crate) fn token_program_check_id(key: &Vec<u8>) -> (r: bool)
    requires
        key@.len() == 32,
    ensures
        r == is_token_program_id(key@),
{
    spl_token::check_id(&Pubkey::try_from(key.as_slice()).unwrap())
}

/// Whether `data` decodes as an initialized account of the external token
/// ledger; a deterministic verdict on the bytes alone.  It never holds for
/// a buffer that is not exactly 165 bytes.
pub uninterp spec fn token_account_decodes(data: Seq<u8>) -> bool;

/// Relies on `spl_token::state::Account::unpack`: it succeeds exactly on a
/// 165-byte buffer holding an initialized token account, whose balance
/// field is bytes 64..72 of the buffer, little endian.
#[verifier::external_body]
pub(crate) fn token_account_amount(data: &Vec<u8>) -> (r: Result<u64, EscrowError>)
    ensures
        r is Ok <==> token_account_decodes(data@),
        data@.len() != 165 ==> r is Err,
        r matches Ok(v) ==> v == spec_u64_from_le_bytes(data@.subrange(64, 72)),
        r matches Err(e) ==> e == EscrowError::InvalidAccountData,
{
    match spl_token::state::Account::unpack(data.as_slice()) {
        Ok(acc) => Ok(acc.amount),
        Err(_) => Err(EscrowError::InvalidAccountData),
    }
}

/// Whether `key` is the rent sysvar's address and `data` deserializes as
/// the runtime's rent parameters; a deterministic verdict on the two
/// arguments alone.
pub uninterp spec fn rent_sysvar_decodes(key: Seq<u8>, data: Seq<u8>) -> bool;

/// Whether an account with balance `lamports` and `data_len` bytes of
/// data is exempt from rent under the parameters carried in `data`;
/// deterministic in the three arguments.
pub uninterp spec fn rent_exemption_of(data: Seq<u8>, lamports: u64, data_len: usize) -> bool;

/// Relies on `solana_program::rent::Rent`: `Rent::from_account_info`
/// accepts exactly the rent sysvar's address with a buffer that
/// deserializes as rent parameters, and `Rent::is_exempt` then answers
/// from those parameters, the balance and the data size alone.
#[verifier::external_body]
pub(crate) fn rent_exempt_check(
    rent_key: &Vec<u8>,
    rent_data: &Vec<u8>,
    lamports: u64,
    data_len: usize,
) -> (r: Result<bool, EscrowError>)
    requires
        rent_key@.len() == 32,
    ensures
        r is Ok <==> rent_sysvar_decodes(rent_key@, rent_data@),
        r matches Ok(b) ==> b == rent_exemption_of(rent_data@, lamports, data_len),
        r matches Err(e) ==> e == EscrowError::InvalidArgument,
{
    let key = Pubkey::try_from(rent_key.as_slice()).unwrap();
    let owner = Pubkey::default();
    let mut lam: u64 = 0;
    let mut buf = rent_data.clone();
    let info = solana_program::account_info::AccountInfo::new(
        &key, false, false, &mut lam, &mut buf, &owner, false, 0,
    );
    match solana_program::rent::Rent::from_account_info(&info) {
        Ok(rent) => Ok(rent.is_exempt(lamports, data_len)),
        Err(_) => Err(EscrowError::InvalidArgument),
    }
}

/// Relies on `spl_token::instruction::set_authority` with the
/// account-owner authority kind: it builds the ledger's authority-change
/// message for these addresses, signed by `current_authority`, and fails
/// exactly when `token_program` is not the ledger's program identity.
#[verifier::external_body]
fn build_set_authority(
    token_program: &Vec<u8>,
    account: &Vec<u8>,
    new_authority: &Vec<u8>,
    current_authority: &Vec<u8>,
) -> (r: Result<Instruction, EscrowError>)
    requires
        token_program@.len() == 32,
        account@.len() == 32,
        new_authority@.len() == 32,
        current_authority@.len() == 32,
    ensures
        r is Ok <==> is_token_program_id(token_program@),
        r matches Err(e) ==> e == EscrowError::IncorrectProgramId,
{
    let tp = Pubkey::try_from(token_program.as_slice()).unwrap();
    let acct = Pubkey::try_from(account.as_slice()).unwrap();
    let na = Pubkey::try_from(new_authority.as_slice()).unwrap();
    let ca = Pubkey::try_from(current_authority.as_slice()).unwrap();
    spl_token::instruction::set_authority(
        &tp,
        &acct,
        Some(&na),
        spl_token::instruction::AuthorityType::AccountOwner,
        &ca,
        &[&ca],
    ).map_err(|_| EscrowError::IncorrectProgramId)
}

/// Relies on `spl_token::instruction::transfer`: it builds the ledger's
/// transfer message moving `amount` from `source` to `destination` under
/// `authority`, and fails exactly when `token_program` is not the ledger's
/// program identity.
#[verifier::external_body]
fn build_transfer(
    token_program: &Vec<u8>,
    source: &Vec<u8>,
    destination: &Vec<u8>,
    authority: &Vec<u8>,
    amount: u64,
) -> (r: Result<Instruction, EscrowError>)
    requires
        token_program@.len() == 32,
        source@.len() == 32,
        destination@.len() == 32,
        authority@.len() == 32,
    ensures
        r is Ok <==> is_token_program_id(token_program@),
        r matches Err(e) ==> e == EscrowError::IncorrectProgramId,
{
    let tp = Pubkey::try_from(token_program.as_slice()).unwrap();
    let src = Pubkey::try_from(source.as_slice()).unwrap();
    let dst = Pubkey::try_from(destination.as_slice()).unwrap();
    let auth = Pubkey::try_from(authority.as_slice()).unwrap();
    spl_token::instruction::transfer(&tp, &src, &dst, &auth, &[&auth], amount).map_err(
        |_| EscrowError::IncorrectProgramId,
    )
}

/// Relies on `spl_token::instruction::close_account`: it builds the
/// ledger's close message refunding `account`'s balance to `destination`
/// under `authority`, and fails exactly when `token_program` is not the
/// ledger's program identity.
#[verifier::external_body]
fn build_close_account(
    token_program: &Vec<u8>,
    account: &Vec<u8>,
    destination: &Vec<u8>,
    authority: &Vec<u8>,
) -> (r: Result<Instruction, EscrowError>)
    requires
        token_program@.len() == 32,
        account@.len() == 32,
        destination@.len() == 32,
        authority@.len() == 32,
    ensures
        r is Ok <==> is_token_program_id(token_program@),
        r matches Err(e) ==> e == EscrowError::IncorrectProgramId,
{
    let tp = Pubkey::try_from(token_program.as_slice()).unwrap();
    let acct = Pubkey::try_from(account.as_slice()).unwrap();
    let dst = Pubkey::try_from(destination.as_slice()).unwrap();
    let auth = Pubkey::try_from(authority.as_slice()).unwrap();
    spl_token::instruction::close_account(&tp, &acct, &dst, &auth, &[&auth]).map_err(
        |_| EscrowError::IncorrectProgramId,
    )
}

/// Builds the external ledger's message for one action.  It succeeds
/// exactly when the action is addressed to the token ledger's program
/// identity; the caller then submits the message to the runtime with the
/// action's authority proof.
pub fn compile_action(action: &LedgerAction) -> (r: Result<Instruction, EscrowError>)
    requires
        action.wf(),
    ensures
        r.is_ok() <==> is_token_program_id(action.spec_token_program()),
        r.is_err() ==> r == Err::<Instruction, EscrowError>(EscrowError::IncorrectProgramId),
{
    match action {
        LedgerAction::SetAuthority { token_program, account, new_authority, current_authority } =>
            build_set_authority(token_program, account, new_authority, current_authority),
        LedgerAction::Transfer { token_program, source, destination, authority, amount, .. } =>
            build_transfer(token_program, source, destination, authority, *amount),
        LedgerAction::CloseAccount { token_program, account, destination, authority, .. } =>
            build_close_account(token_program, account, destination, authority),
    }
}

} // verus!
