use vstd::prelude::*;
use vstd::bytes::spec_u64_from_le_bytes;
use vstd::slice::slice_to_vec;
use crate::accounts::{keys_equal, Account, AuthorityProof, LedgerAction};
use crate::error::EscrowError;
use crate::instruction::EscrowInstruction;
use crate::ledger::{
    derived_address_of, find_derived_address, is_token_program_id, rent_exempt_check,
    rent_exemption_of, rent_sysvar_decodes, token_account_amount, token_account_decodes,
    token_program_check_id,
};
use crate::state::{Escrow, RECORD_LEN};

verus! {

/// The fixed seed from which the program's authority address is derived.
pub open spec fn spec_escrow_seed() -> Seq<u8> {
    seq![101u8, 115u8, 99u8, 114u8, 111u8, 119u8]
}

/// The seed bytes, spelling "escrow".
pub fn escrow_seed() -> (r: Vec<u8>)
    ensures
        r@ == spec_escrow_seed(),
{
    let mut s: Vec<u8> = Vec::new();
    s.push(101);
    s.push(115);
    s.push(99);
    s.push(114);
    s.push(111);
    s.push(119);
    proof {
        assert(s@ =~= spec_escrow_seed());
    }
    s
}

/// The record a successful init persists: live, bound to the three
/// supplied addresses, demanding `amount` in return.
pub open spec fn init_record(
    initializer: Account,
    wanted: Account,
    temp: Account,
    amount: u64,
) -> Escrow {
    Escrow {
        is_initialized: true,
        initializer: initializer.key,
        temp_token_account: temp.key,
        initializer_wanted_token_account: wanted.key,
        amount,
    }
}

/// Outcome of the init decision cascade, in the order the checks run:
/// signature, wanted-account ownership, rent sysvar, rent exemption,
/// record probe, prior initialization, authority derivation, token
/// program identity.
pub open spec fn spec_init_result(
    program_id: Seq<u8>,
    initializer: Account,
    wanted: Account,
    temp: Account,
    escrow: Account,
    rent: Account,
    token_program: Account,
) -> Result<(), EscrowError> {
    let s = escrow.data@;
    if !initializer.is_signer {
        Err(EscrowError::MissingRequiredSignature)
    } else if !is_token_program_id(wanted.owner@) {
        Err(EscrowError::IncorrectProgramId)
    } else if !rent_sysvar_decodes(rent.key@, rent.data@) {
        Err(EscrowError::InvalidArgument)
    } else if !rent_exemption_of(rent.data@, escrow.lamports, s.len() as usize) {
        Err(EscrowError::NotRentExempt)
    } else if !(s.len() == 105 && (s[0] == 0 || s[0] == 1)) {
        Err(EscrowError::InvalidAccountData)
    } else if s[0] == 1 {
        Err(EscrowError::AccountAlreadyInitialized)
    } else if derived_address_of(spec_escrow_seed(), program_id) is None {
        Err(EscrowError::InvalidSeeds)
    } else if !is_token_program_id(token_program.key@) {
        Err(EscrowError::IncorrectProgramId)
    } else {
        Ok(())
    }
}

/// The escrow-record account after a successful init: the same account,
/// its buffer now holding the packed record.
pub open spec fn init_updates(old_escrow: Account, new_escrow: Account, record: Escrow) -> bool {
    &&& new_escrow.key == old_escrow.key
    &&& new_escrow.is_signer == old_escrow.is_signer
    &&& new_escrow.owner == old_escrow.owner
    &&& new_escrow.lamports == old_escrow.lamports
    &&& new_escrow.data@.len() == 105
    &&& record.packs_to(new_escrow.data@)
}

/// The single follow-on operation of a successful init: account-owner
/// authority over the temporary token account passes from the initializer
/// to the derived address.
pub open spec fn is_init_actions(
    actions: Seq<LedgerAction>,
    program_id: Seq<u8>,
    initializer: Account,
    temp: Account,
    token_program: Account,
) -> bool {
    &&& actions.len() == 1
    &&& (actions[0] matches LedgerAction::SetAuthority {
        token_program: tp,
        account: acct,
        new_authority: na,
        current_authority: ca,
    } && tp@ == token_program.key@ && acct@ == temp.key@ && (derived_address_of(
        spec_escrow_seed(),
        program_id,
    ) matches Some(p) && na@ == p.0) && ca@ == initializer.key@)
}

/// Outcome of the exchange decision cascade, in the order the checks run:
/// signature, temporary-account decode, declared-amount match, record
/// decode and liveness, the three bindings persisted at init, token
/// program identity, authority derivation, balance-credit overflow.
pub open spec fn spec_exchange_result(
    program_id: Seq<u8>,
    receiver: Account,
    temp: Account,
    initializer: Account,
    initializer_wanted: Account,
    escrow: Account,
    token_program: Account,
    expected_amount: u64,
) -> Result<(), EscrowError> {
    let d = temp.data@;
    let s = escrow.data@;
    if !receiver.is_signer {
        Err(EscrowError::MissingRequiredSignature)
    } else if !token_account_decodes(d) {
        Err(EscrowError::InvalidAccountData)
    } else if expected_amount != spec_u64_from_le_bytes(d.subrange(64, 72)) {
        Err(EscrowError::ExpectedAmountMismatch)
    } else if !(s.len() == 105 && (s[0] == 0 || s[0] == 1)) {
        Err(EscrowError::InvalidAccountData)
    } else if s[0] == 0 {
        Err(EscrowError::UninitializedAccount)
    } else if s.subrange(33, 65) != temp.key@ {
        Err(EscrowError::InvalidAccountData)
    } else if s.subrange(1, 33) != initializer.key@ {
        Err(EscrowError::InvalidAccountData)
    } else if s.subrange(65, 97) != initializer_wanted.key@ {
        Err(EscrowError::InvalidAccountData)
    } else if !is_token_program_id(token_program.key@) {
        Err(EscrowError::IncorrectProgramId)
    } else if derived_address_of(spec_escrow_seed(), program_id) is None {
        Err(EscrowError::InvalidSeeds)
    } else if initializer.lamports + escrow.lamports > u64::MAX {
        Err(EscrowError::AmountOverflow)
    } else {
        Ok(())
    }
}

/// The two mutated accounts after a successful exchange: the record
/// account's whole balance moves to the initializer, and the record
/// account itself ends with zero balance and an empty buffer.
pub open spec fn exchange_updates(
    old_initializer: Account,
    new_initializer: Account,
    old_escrow: Account,
    new_escrow: Account,
) -> bool {
    &&& new_initializer.key == old_initializer.key
    &&& new_initializer.is_signer == old_initializer.is_signer
    &&& new_initializer.owner == old_initializer.owner
    &&& new_initializer.data == old_initializer.data
    &&& new_initializer.lamports == old_initializer.lamports + old_escrow.lamports
    &&& new_escrow.key == old_escrow.key
    &&& new_escrow.is_signer == old_escrow.is_signer
    &&& new_escrow.owner == old_escrow.owner
    &&& new_escrow.lamports == 0
    &&& new_escrow.data@.len() == 0
}

/// The three follow-on operations of a successful exchange, in order: the
/// receiver pays the record's stored amount to the initializer's wanted
/// account; the derived authority moves the whole temporary balance to the
/// receiver's wanted account; the derived authority closes the temporary
/// account, refunding its rent balance to the initializer.
pub open spec fn is_exchange_actions(
    actions: Seq<LedgerAction>,
    program_id: Seq<u8>,
    receiver: Account,
    receiver_sending: Account,
    receiver_wanted: Account,
    temp: Account,
    initializer: Account,
    initializer_wanted: Account,
    escrow: Account,
    token_program: Account,
) -> bool {
    let record_amount = spec_u64_from_le_bytes(escrow.data@.subrange(97, 105));
    let temp_balance = spec_u64_from_le_bytes(temp.data@.subrange(64, 72));
    let derived = derived_address_of(spec_escrow_seed(), program_id);
    &&& actions.len() == 3
    &&& (actions[0] matches LedgerAction::Transfer {
        token_program: tp,
        source,
        destination,
        authority,
        amount,
        proof,
    } && tp@ == token_program.key@ && source@ == receiver_sending.key@ && destination@
        == initializer_wanted.key@ && authority@ == receiver.key@ && amount == record_amount
        && proof == AuthorityProof::Signature)
    &&& (actions[1] matches LedgerAction::Transfer {
        token_program: tp,
        source,
        destination,
        authority,
        amount,
        proof,
    } && tp@ == token_program.key@ && source@ == temp.key@ && destination@
        == receiver_wanted.key@ && amount == temp_balance && (derived matches Some(p)
        && authority@ == p.0 && proof == (AuthorityProof::DerivedSeed { bump: p.1 })))
    &&& (actions[2] matches LedgerAction::CloseAccount {
        token_program: tp,
        account,
        destination,
        authority,
        proof,
    } && tp@ == token_program.key@ && account@ == temp.key@ && destination@
        == initializer.key@ && (derived matches Some(p) && authority@ == p.0 && proof
        == (AuthorityProof::DerivedSeed { bump: p.1 })))
}

/// Init is not repeatable: once a successful init has written the live
/// record into the escrow account's buffer, a second init on that account
/// fails with already-initialized — whatever other accounts the second
/// call supplies — provided the second call's earlier checks (signature,
/// ownership, rent sysvar, rent exemption) pass.
pub proof fn lemma_init_twice_fails(
    program_id: Seq<u8>,
    initializer: Account,
    wanted: Account,
    temp: Account,
    escrow: Account,
    rent: Account,
    token_program: Account,
    amount: u64,
    escrow2: Account,
    program_id2: Seq<u8>,
    initializer2: Account,
    wanted2: Account,
    temp2: Account,
    rent2: Account,
    token_program2: Account,
)
    requires
        spec_init_result(program_id, initializer, wanted, temp, escrow, rent, token_program)
            is Ok,
        init_updates(escrow, escrow2, init_record(initializer, wanted, temp, amount)),
        initializer2.is_signer,
        is_token_program_id(wanted2.owner@),
        rent_sysvar_decodes(rent2.key@, rent2.data@),
        rent_exemption_of(rent2.data@, escrow2.lamports, escrow2.data@.len() as usize),
    ensures
        spec_init_result(
            program_id2,
            initializer2,
            wanted2,
            temp2,
            escrow2,
            rent2,
            token_program2,
        ) == Err::<(), EscrowError>(EscrowError::AccountAlreadyInitialized),
{
    assert(escrow2.data@[0] == 1u8);
}

/// The escrow state machine: one entry point and its two transition
/// handlers.
pub struct Processor;

impl Processor {
    /// The single entry point: decodes the instruction and dispatches to
    /// the matching transition over the fixed positional account list.
    /// For init the order is: initializer, initializer's wanted-token
    /// account, temporary token account, escrow-record account, rent
    /// sysvar, token program.  For exchange: receiver, receiver's sending
    /// account, receiver's wanted account, temporary token account,
    /// initializer, initializer's wanted account, escrow-record account,
    /// token program, derived-address placeholder.  Extra trailing
    /// accounts are ignored.  Only the escrow-record account (init) or
    /// the initializer and escrow-record accounts (exchange) are ever
    /// mutated, and only on success.
    pub fn process(
        program_id: &Vec<u8>,
        accounts: &mut Vec<Account>,
        instruction_data: &[u8],
    ) -> (r: Result<Vec<LedgerAction>, EscrowError>)
        requires
            program_id@.len() == 32,
            forall|i: int|
                0 <= i < old(accounts)@.len() ==> (#[trigger] old(accounts)@[i]).wf(),
        ensures
            final(accounts)@.len() == old(accounts)@.len(),
            forall|i: int|
                0 <= i < final(accounts)@.len() ==> (#[trigger] final(accounts)@[i]).wf(),
            !(instruction_data@.len() >= 9 && (instruction_data@[0] == 0 || instruction_data@[0]
                == 1)) ==> r == Err::<Vec<LedgerAction>, EscrowError>(
                EscrowError::InvalidInstruction,
            ) && final(accounts)@ == old(accounts)@,
            instruction_data@.len() >= 9 && instruction_data@[0] == 0 && old(accounts)@.len() < 6
                ==> r == Err::<Vec<LedgerAction>, EscrowError>(EscrowError::NotEnoughAccountKeys)
                && final(accounts)@ == old(accounts)@,
            instruction_data@.len() >= 9 && instruction_data@[0] == 0 && old(accounts)@.len() >= 6
                ==> ({
                let a = old(accounts)@;
                let amount = spec_u64_from_le_bytes(instruction_data@.subrange(1, 9));
                &&& (r is Ok <==> spec_init_result(
                    program_id@,
                    a[0],
                    a[1],
                    a[2],
                    a[3],
                    a[4],
                    a[5],
                ) is Ok)
                &&& (r matches Err(e) ==> spec_init_result(
                    program_id@,
                    a[0],
                    a[1],
                    a[2],
                    a[3],
                    a[4],
                    a[5],
                ) == Err::<(), EscrowError>(e) && final(accounts)@ == a)
                &&& (r is Ok ==> (forall|i: int|
                    0 <= i < a.len() && i != 3 ==> final(accounts)@[i] == a[i]) && init_updates(
                    a[3],
                    final(accounts)@[3],
                    init_record(a[0], a[1], a[2], amount),
                ))
                &&& (r matches Ok(actions) ==> is_init_actions(
                    actions@,
                    program_id@,
                    a[0],
                    a[2],
                    a[5],
                ))
            }),
            instruction_data@.len() >= 9 && instruction_data@[0] == 1 && old(accounts)@.len() < 9
                ==> r == Err::<Vec<LedgerAction>, EscrowError>(EscrowError::NotEnoughAccountKeys)
                && final(accounts)@ == old(accounts)@,
            instruction_data@.len() >= 9 && instruction_data@[0] == 1 && old(accounts)@.len() >= 9
                ==> ({
                let a = old(accounts)@;
                let amount = spec_u64_from_le_bytes(instruction_data@.subrange(1, 9));
                &&& (r is Ok <==> spec_exchange_result(
                    program_id@,
                    a[0],
                    a[3],
                    a[4],
                    a[5],
                    a[6],
                    a[7],
                    amount,
                ) is Ok)
                &&& (r matches Err(e) ==> spec_exchange_result(
                    program_id@,
                    a[0],
                    a[3],
                    a[4],
                    a[5],
                    a[6],
                    a[7],
                    amount,
                ) == Err::<(), EscrowError>(e) && final(accounts)@ == a)
                &&& (r is Ok ==> (forall|i: int|
                    0 <= i < a.len() && i != 4 && i != 6 ==> final(accounts)@[i] == a[i])
                    && exchange_updates(a[4], final(accounts)@[4], a[6], final(accounts)@[6]))
                &&& (r matches Ok(actions) ==> is_exchange_actions(
                    actions@,
                    program_id@,
                    a[0],
                    a[1],
                    a[2],
                    a[3],
                    a[4],
                    a[5],
                    a[6],
                    a[7],
                ))
            }),
    {
        let instruction = match EscrowInstruction::unpack(instruction_data) {
            Ok(ins) => ins,
            Err(e) => { return Err(e); },
        };
        match instruction {
            EscrowInstruction::InitEscrow { amount } => {
                if accounts.len() < 6 {
                    return Err(EscrowError::NotEnoughAccountKeys);
                }
                let ghost a0 = accounts@;
                let mut escrow_acc = accounts.remove(3);
                proof {
                    assert(accounts@[0] == a0[0]);
                    assert(accounts@[1] == a0[1]);
                    assert(accounts@[2] == a0[2]);
                    assert(accounts@[3] == a0[4]);
                    assert(accounts@[4] == a0[5]);
                }
                let r = Self::process_init_escrow(
                    program_id,
                    &accounts[0],
                    &accounts[1],
                    &accounts[2],
                    &mut escrow_acc,
                    &accounts[3],
                    &accounts[4],
                    amount,
                );
                let ghost e2 = escrow_acc;
                accounts.insert(3, escrow_acc);
                proof {
                    assert(accounts@ =~= a0.update(3, e2));
                    if r is Err {
                        assert(accounts@ =~= a0);
                    }
                }
                r
            },
            EscrowInstruction::Exchange { amount } => {
                if accounts.len() < 9 {
                    return Err(EscrowError::NotEnoughAccountKeys);
                }
                let ghost a0 = accounts@;
                let mut escrow_acc = accounts.remove(6);
                let mut initializer_acc = accounts.remove(4);
                proof {
                    assert(accounts@[0] == a0[0]);
                    assert(accounts@[1] == a0[1]);
                    assert(accounts@[2] == a0[2]);
                    assert(accounts@[3] == a0[3]);
                    assert(accounts@[4] == a0[5]);
                    assert(accounts@[5] == a0[7]);
                }
                let r = Self::process_exchange(
                    program_id,
                    &accounts[0],
                    &accounts[1],
                    &accounts[2],
                    &accounts[3],
                    &mut initializer_acc,
                    &accounts[4],
                    &mut escrow_acc,
                    &accounts[5],
                    amount,
                );
                let ghost i2 = initializer_acc;
                let ghost e2 = escrow_acc;
                accounts.insert(4, initializer_acc);
                accounts.insert(6, escrow_acc);
                proof {
                    assert(accounts@ =~= a0.update(4, i2).update(6, e2));
                    if r is Err {
                        assert(accounts@ =~= a0);
                    }
                }
                r
            },
        }
    }
    /// The init transition.  Validates the supplied accounts in the order
    /// given by [`spec_init_result`], persists the record into the escrow
    /// account's buffer, and reports the authority hand-over the caller
    /// must submit to the token ledger.  On any error the escrow account
    /// is left exactly as it was.
    pub fn process_init_escrow(
        program_id: &Vec<u8>,
        initializer: &Account,
        initializer_wanted_token_account: &Account,
        temp_token_account: &Account,
        escrow_account: &mut Account,
        rent_account: &Account,
        token_program: &Account,
        initializer_expected_amount: u64,
    ) -> (r: Result<Vec<LedgerAction>, EscrowError>)
        requires
            program_id@.len() == 32,
            initializer.wf(),
            initializer_wanted_token_account.wf(),
            temp_token_account.wf(),
            old(escrow_account).wf(),
            rent_account.wf(),
            token_program.wf(),
        ensures
            final(escrow_account).wf(),
            r is Ok <==> spec_init_result(
                program_id@,
                *initializer,
                *initializer_wanted_token_account,
                *temp_token_account,
                *old(escrow_account),
                *rent_account,
                *token_program,
            ) is Ok,
            r matches Err(e) ==> spec_init_result(
                program_id@,
                *initializer,
                *initializer_wanted_token_account,
                *temp_token_account,
                *old(escrow_account),
                *rent_account,
                *token_program,
            ) == Err::<(), EscrowError>(e) && *final(escrow_account) == *old(escrow_account),
            r is Ok ==> init_updates(
                *old(escrow_account),
                *final(escrow_account),
                init_record(
                    *initializer,
                    *initializer_wanted_token_account,
                    *temp_token_account,
                    initializer_expected_amount,
                ),
            ),
            r matches Ok(actions) ==> is_init_actions(
                actions@,
                program_id@,
                *initializer,
                *temp_token_account,
                *token_program,
            ),
    {
        if !initializer.is_signer {
            return Err(EscrowError::MissingRequiredSignature);
        }
        if !token_program_check_id(&initializer_wanted_token_account.owner) {
            return Err(EscrowError::IncorrectProgramId);
        }
        let data_len: usize = escrow_account.data.len();
        let exempt: bool = match rent_exempt_check(
            &rent_account.key,
            &rent_account.data,
            escrow_account.lamports,
            data_len,
        ) {
            Ok(b) => b,
            Err(e) => { return Err(e); },
        };
        if !exempt {
            return Err(EscrowError::NotRentExempt);
        }
        let escrow_info = match Escrow::unpack_unchecked(escrow_account.data.as_slice()) {
            Ok(e) => e,
            Err(e) => { return Err(e); },
        };
        if escrow_info.is_initialized {
            return Err(EscrowError::AccountAlreadyInitialized);
        }
        let seed: Vec<u8> = escrow_seed();
        let pda: Vec<u8> = match find_derived_address(&seed, program_id) {
            Some(p) => p.0,
            None => { return Err(EscrowError::InvalidSeeds); },
        };
        if !token_program_check_id(&token_program.key) {
            return Err(EscrowError::IncorrectProgramId);
        }
        let record = Escrow {
            is_initialized: true,
            initializer: slice_to_vec(initializer.key.as_slice()),
            temp_token_account: slice_to_vec(temp_token_account.key.as_slice()),
            initializer_wanted_token_account: slice_to_vec(
                initializer_wanted_token_account.key.as_slice(),
            ),
            amount: initializer_expected_amount,
        };
        let mut buf: Vec<u8> = vec![0u8; RECORD_LEN];
        record.pack_into_slice(&mut buf);
        escrow_account.data = buf;
        let mut actions: Vec<LedgerAction> = Vec::new();
        actions.push(
            LedgerAction::SetAuthority {
                token_program: slice_to_vec(token_program.key.as_slice()),
                account: slice_to_vec(temp_token_account.key.as_slice()),
                new_authority: pda,
                current_authority: slice_to_vec(initializer.key.as_slice()),
            },
        );
        Ok(actions)
    }

    /// The exchange transition.  Validates the supplied accounts against
    /// the persisted record in the order given by
    /// [`spec_exchange_result`], reports the three ledger operations that
    /// settle the swap, credits the record account's balance to the
    /// initializer and destroys the record.  On any error both mutable
    /// accounts are left exactly as they were.
    pub fn process_exchange(
        program_id: &Vec<u8>,
        receiver: &Account,
        receiver_sending_token_account: &Account,
        receiver_wanted_token_account: &Account,
        pda_temp_token_account: &Account,
        initializer: &mut Account,
        initializer_wanted_token_account: &Account,
        escrow_account: &mut Account,
        token_program: &Account,
        receiver_expected_amount: u64,
    ) -> (r: Result<Vec<LedgerAction>, EscrowError>)
        requires
            program_id@.len() == 32,
            receiver.wf(),
            receiver_sending_token_account.wf(),
            receiver_wanted_token_account.wf(),
            pda_temp_token_account.wf(),
            old(initializer).wf(),
            initializer_wanted_token_account.wf(),
            old(escrow_account).wf(),
            token_program.wf(),
        ensures
            final(initializer).wf(),
            final(escrow_account).wf(),
            r is Ok <==> spec_exchange_result(
                program_id@,
                *receiver,
                *pda_temp_token_account,
                *old(initializer),
                *initializer_wanted_token_account,
                *old(escrow_account),
                *token_program,
                receiver_expected_amount,
            ) is Ok,
            r matches Err(e) ==> spec_exchange_result(
                program_id@,
                *receiver,
                *pda_temp_token_account,
                *old(initializer),
                *initializer_wanted_token_account,
                *old(escrow_account),
                *token_program,
                receiver_expected_amount,
            ) == Err::<(), EscrowError>(e) && *final(initializer) == *old(initializer)
                && *final(escrow_account) == *old(escrow_account),
            r is Ok ==> exchange_updates(
                *old(initializer),
                *final(initializer),
                *old(escrow_account),
                *final(escrow_account),
            ),
            r matches Ok(actions) ==> is_exchange_actions(
                actions@,
                program_id@,
                *receiver,
                *receiver_sending_token_account,
                *receiver_wanted_token_account,
                *pda_temp_token_account,
                *old(initializer),
                *initializer_wanted_token_account,
                *old(escrow_account),
                *token_program,
            ),
    {
        if !receiver.is_signer {
            return Err(EscrowError::MissingRequiredSignature);
        }
        let temp_balance: u64 = match token_account_amount(&pda_temp_token_account.data) {
            Ok(a) => a,
            Err(e) => { return Err(e); },
        };
        if receiver_expected_amount != temp_balance {
            return Err(EscrowError::ExpectedAmountMismatch);
        }
        let escrow_info = match Escrow::unpack(escrow_account.data.as_slice()) {
            Ok(e) => e,
            Err(e) => { return Err(e); },
        };
        if !keys_equal(&escrow_info.temp_token_account, &pda_temp_token_account.key) {
            return Err(EscrowError::InvalidAccountData);
        }
        if !keys_equal(&escrow_info.initializer, &initializer.key) {
            return Err(EscrowError::InvalidAccountData);
        }
        if !keys_equal(
            &escrow_info.initializer_wanted_token_account,
            &initializer_wanted_token_account.key,
        ) {
            return Err(EscrowError::InvalidAccountData);
        }
        if !token_program_check_id(&token_program.key) {
            return Err(EscrowError::IncorrectProgramId);
        }
        let seed: Vec<u8> = escrow_seed();
        let (pda, bump): (Vec<u8>, u8) = match find_derived_address(&seed, program_id) {
            Some(p) => p,
            None => { return Err(EscrowError::InvalidSeeds); },
        };
        let new_lamports: u64 = match initializer.lamports.checked_add(escrow_account.lamports) {
            Some(v) => v,
            None => { return Err(EscrowError::AmountOverflow); },
        };
        let mut actions: Vec<LedgerAction> = Vec::new();
        actions.push(
            LedgerAction::Transfer {
                token_program: slice_to_vec(token_program.key.as_slice()),
                source: slice_to_vec(receiver_sending_token_account.key.as_slice()),
                destination: slice_to_vec(initializer_wanted_token_account.key.as_slice()),
                authority: slice_to_vec(receiver.key.as_slice()),
                amount: escrow_info.amount,
                proof: AuthorityProof::Signature,
            },
        );
        actions.push(
            LedgerAction::Transfer {
                token_program: slice_to_vec(token_program.key.as_slice()),
                source: slice_to_vec(pda_temp_token_account.key.as_slice()),
                destination: slice_to_vec(receiver_wanted_token_account.key.as_slice()),
                authority: slice_to_vec(pda.as_slice()),
                amount: temp_balance,
                proof: AuthorityProof::DerivedSeed { bump },
            },
        );
        actions.push(
            LedgerAction::CloseAccount {
                token_program: slice_to_vec(token_program.key.as_slice()),
                account: slice_to_vec(pda_temp_token_account.key.as_slice()),
                destination: slice_to_vec(initializer.key.as_slice()),
                authority: pda,
                proof: AuthorityProof::DerivedSeed { bump },
            },
        );
        initializer.lamports = new_lamports;
        escrow_account.lamports = 0;
        escrow_account.data = Vec::new();
        Ok(actions)
    }
}

} // verus!
