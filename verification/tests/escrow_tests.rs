use escrow::accounts::{Account, AuthorityProof, LedgerAction};
use escrow::error::EscrowError;
use escrow::instruction::EscrowInstruction;
use escrow::ledger::compile_action;
use escrow::processor::Processor;
use escrow::state::Escrow;
use solana_program::program_pack::Pack;
use solana_program::pubkey::Pubkey;
use solana_program::rent::Rent;

fn spl_id() -> Vec<u8> {
    spl_token::id().to_bytes().to_vec()
}

fn plain_account(key_byte: u8, is_signer: bool) -> Account {
    Account {
        key: vec![key_byte; 32],
        is_signer,
        owner: vec![0u8; 32],
        lamports: 0,
        data: Vec::new(),
    }
}

fn rent_account() -> Account {
    Account {
        key: solana_program::sysvar::rent::id().to_bytes().to_vec(),
        is_signer: false,
        owner: vec![0u8; 32],
        lamports: 0,
        data: bincode::serialize(&Rent::default()).unwrap(),
    }
}

fn token_program_account() -> Account {
    Account {
        key: spl_id(),
        is_signer: false,
        owner: vec![0u8; 32],
        lamports: 0,
        data: Vec::new(),
    }
}

/// A packed token-ledger account with the given balance.
fn token_account_data(amount: u64) -> Vec<u8> {
    let mut ta = spl_token::state::Account::default();
    ta.state = spl_token::state::AccountState::Initialized;
    ta.amount = amount;
    ta.mint = Pubkey::new_from_array([42u8; 32]);
    ta.owner = Pubkey::new_from_array([1u8; 32]);
    let mut buf = vec![0u8; 165];
    spl_token::state::Account::pack(ta, &mut buf).unwrap();
    buf
}

fn expected_pda(program_id: &[u8; 32]) -> (Vec<u8>, u8) {
    let (pda, bump) =
        Pubkey::find_program_address(&[b"escrow"], &Pubkey::new_from_array(*program_id));
    (pda.to_bytes().to_vec(), bump)
}

fn instruction_bytes(tag: u8, amount: u64) -> Vec<u8> {
    let mut v = vec![tag];
    v.extend_from_slice(&amount.to_le_bytes());
    v
}

// Wire codec

#[test]
fn unpack_rejects_short_buffers() {
    for len in 0..9usize {
        let buf = vec![0u8; len];
        assert_eq!(
            EscrowInstruction::unpack(&buf),
            Err(EscrowError::InvalidInstruction),
            "length {len}"
        );
    }
}

#[test]
fn unpack_rejects_unknown_tag() {
    for tag in [2u8, 3, 17, 255] {
        let buf = instruction_bytes(tag, 5);
        assert_eq!(EscrowInstruction::unpack(&buf), Err(EscrowError::InvalidInstruction));
    }
}

#[test]
fn unpack_round_trips_amounts() {
    for amount in [0u64, 1, 100, 0xdead_beef, u64::MAX] {
        assert_eq!(
            EscrowInstruction::unpack(&instruction_bytes(0, amount)),
            Ok(EscrowInstruction::InitEscrow { amount })
        );
        assert_eq!(
            EscrowInstruction::unpack(&instruction_bytes(1, amount)),
            Ok(EscrowInstruction::Exchange { amount })
        );
    }
}

#[test]
fn unpack_ignores_trailing_bytes() {
    let mut buf = instruction_bytes(1, 7);
    buf.push(99);
    assert_eq!(EscrowInstruction::unpack(&buf), Ok(EscrowInstruction::Exchange { amount: 7 }));
}

// Record codec

fn sample_record() -> Escrow {
    Escrow {
        is_initialized: true,
        initializer: vec![1u8; 32],
        temp_token_account: vec![3u8; 32],
        initializer_wanted_token_account: vec![2u8; 32],
        amount: 100,
    }
}

#[test]
fn record_pack_unpack_round_trip() {
    let record = sample_record();
    let mut buf = vec![0u8; 105];
    assert_eq!(Escrow::pack(record, &mut buf), Ok(()));
    let back = Escrow::unpack(&buf).unwrap();
    assert_eq!(back, sample_record());
}

#[test]
fn record_round_trip_uninitialized() {
    let record = Escrow { is_initialized: false, amount: u64::MAX, ..sample_record() };
    let mut buf = vec![0u8; 105];
    assert_eq!(Escrow::pack(record, &mut buf), Ok(()));
    assert_eq!(buf[0], 0);
    let back = Escrow::unpack_unchecked(&buf).unwrap();
    assert!(!back.is_initialized());
    assert_eq!(back.amount, u64::MAX);
    assert_eq!(Escrow::unpack(&buf), Err(EscrowError::UninitializedAccount));
}

#[test]
fn record_unpack_rejects_bad_flag() {
    let mut buf = vec![0u8; 105];
    buf[0] = 2;
    assert_eq!(Escrow::unpack_unchecked(&buf), Err(EscrowError::InvalidAccountData));
    assert_eq!(Escrow::unpack(&buf), Err(EscrowError::InvalidAccountData));
}

#[test]
fn record_unpack_rejects_wrong_length() {
    assert_eq!(Escrow::unpack_unchecked(&vec![0u8; 104]), Err(EscrowError::InvalidAccountData));
    assert_eq!(Escrow::unpack_unchecked(&vec![0u8; 106]), Err(EscrowError::InvalidAccountData));
}

#[test]
fn record_pack_rejects_wrong_length() {
    let mut buf = vec![0u8; 104];
    assert_eq!(Escrow::pack(sample_record(), &mut buf), Err(EscrowError::InvalidAccountData));
    assert_eq!(buf, vec![0u8; 104]);
}

#[test]
fn record_amount_is_little_endian() {
    let record = Escrow { amount: 0x0102_0304_0506_0708, ..sample_record() };
    let mut buf = vec![0u8; 105];
    Escrow::pack(record, &mut buf).unwrap();
    assert_eq!(&buf[97..105], &[0x08, 0x07, 0x06, 0x05, 0x04, 0x03, 0x02, 0x01]);
}

// Init transition

struct InitSetup {
    program_id: Vec<u8>,
    initializer: Account,
    wanted: Account,
    temp: Account,
    escrow_account: Account,
    rent: Account,
    token_program: Account,
}

fn init_setup() -> InitSetup {
    let mut wanted = plain_account(2, false);
    wanted.owner = spl_id();
    let mut escrow_account = plain_account(4, false);
    escrow_account.lamports = 2_000_000;
    escrow_account.data = vec![0u8; 105];
    InitSetup {
        program_id: vec![7u8; 32],
        initializer: plain_account(1, true),
        wanted,
        temp: plain_account(3, false),
        escrow_account,
        rent: rent_account(),
        token_program: token_program_account(),
    }
}

fn run_init(s: &mut InitSetup, amount: u64) -> Result<Vec<LedgerAction>, EscrowError> {
    Processor::process_init_escrow(
        &s.program_id,
        &s.initializer,
        &s.wanted,
        &s.temp,
        &mut s.escrow_account,
        &s.rent,
        &s.token_program,
        amount,
    )
}

#[test]
fn init_writes_record_and_hands_over_authority() {
    let mut s = init_setup();
    let actions = run_init(&mut s, 100).unwrap();
    let (pda, _) = expected_pda(&[7u8; 32]);
    assert_eq!(
        actions,
        vec![LedgerAction::SetAuthority {
            token_program: spl_id(),
            account: vec![3u8; 32],
            new_authority: pda,
            current_authority: vec![1u8; 32],
        }]
    );
    let record = Escrow::unpack(&s.escrow_account.data).unwrap();
    assert!(record.is_initialized());
    assert_eq!(record.initializer, vec![1u8; 32]);
    assert_eq!(record.temp_token_account, vec![3u8; 32]);
    assert_eq!(record.initializer_wanted_token_account, vec![2u8; 32]);
    assert_eq!(record.amount, 100);
    assert_eq!(s.escrow_account.lamports, 2_000_000);
}

#[test]
fn init_twice_fails_with_already_initialized() {
    let mut s = init_setup();
    run_init(&mut s, 100).unwrap();
    let before = s.escrow_account.clone();
    assert_eq!(run_init(&mut s, 100), Err(EscrowError::AccountAlreadyInitialized));
    assert_eq!(s.escrow_account, before);
}

#[test]
fn init_without_signature_fails() {
    let mut s = init_setup();
    s.initializer.is_signer = false;
    let before = s.escrow_account.clone();
    assert_eq!(run_init(&mut s, 100), Err(EscrowError::MissingRequiredSignature));
    assert_eq!(s.escrow_account, before);
}

#[test]
fn init_wrong_wanted_account_owner_fails() {
    let mut s = init_setup();
    s.wanted.owner = vec![0u8; 32];
    assert_eq!(run_init(&mut s, 100), Err(EscrowError::IncorrectProgramId));
}

#[test]
fn init_not_rent_exempt_fails_before_any_mutation() {
    let mut s = init_setup();
    s.escrow_account.lamports = 1_000;
    let before = s.escrow_account.clone();
    assert_eq!(run_init(&mut s, 100), Err(EscrowError::NotRentExempt));
    assert_eq!(s.escrow_account, before);
}

#[test]
fn init_bad_rent_sysvar_fails() {
    let mut s = init_setup();
    s.rent.key = vec![5u8; 32];
    assert_eq!(run_init(&mut s, 100), Err(EscrowError::InvalidArgument));
}

#[test]
fn init_wrong_token_program_fails() {
    let mut s = init_setup();
    s.token_program.key = vec![6u8; 32];
    let before = s.escrow_account.clone();
    assert_eq!(run_init(&mut s, 100), Err(EscrowError::IncorrectProgramId));
    assert_eq!(s.escrow_account, before);
}

// Exchange transition

struct ExchangeSetup {
    program_id: Vec<u8>,
    receiver: Account,
    receiver_sending: Account,
    receiver_wanted: Account,
    temp: Account,
    initializer: Account,
    initializer_wanted: Account,
    escrow_account: Account,
    token_program: Account,
}

fn exchange_setup(temp_balance: u64, record_amount: u64) -> ExchangeSetup {
    let mut temp = plain_account(3, false);
    temp.data = token_account_data(temp_balance);
    let mut initializer = plain_account(1, false);
    initializer.lamports = 500;
    let record = Escrow {
        is_initialized: true,
        initializer: vec![1u8; 32],
        temp_token_account: vec![3u8; 32],
        initializer_wanted_token_account: vec![2u8; 32],
        amount: record_amount,
    };
    let mut escrow_account = plain_account(4, false);
    escrow_account.lamports = 2_000_000;
    escrow_account.data = vec![0u8; 105];
    Escrow::pack(record, &mut escrow_account.data).unwrap();
    ExchangeSetup {
        program_id: vec![7u8; 32],
        receiver: plain_account(9, true),
        receiver_sending: plain_account(10, false),
        receiver_wanted: plain_account(11, false),
        temp,
        initializer,
        initializer_wanted: plain_account(2, false),
        escrow_account,
        token_program: token_program_account(),
    }
}

fn run_exchange(s: &mut ExchangeSetup, expected: u64) -> Result<Vec<LedgerAction>, EscrowError> {
    Processor::process_exchange(
        &s.program_id,
        &s.receiver,
        &s.receiver_sending,
        &s.receiver_wanted,
        &s.temp,
        &mut s.initializer,
        &s.initializer_wanted,
        &mut s.escrow_account,
        &s.token_program,
        expected,
    )
}

#[test]
fn exchange_settles_the_swap() {
    let mut s = exchange_setup(250, 100);
    let actions = run_exchange(&mut s, 250).unwrap();
    let (pda, bump) = expected_pda(&[7u8; 32]);
    assert_eq!(
        actions,
        vec![
            LedgerAction::Transfer {
                token_program: spl_id(),
                source: vec![10u8; 32],
                destination: vec![2u8; 32],
                authority: vec![9u8; 32],
                amount: 100,
                proof: AuthorityProof::Signature,
            },
            LedgerAction::Transfer {
                token_program: spl_id(),
                source: vec![3u8; 32],
                destination: vec![11u8; 32],
                authority: pda.clone(),
                amount: 250,
                proof: AuthorityProof::DerivedSeed { bump },
            },
            LedgerAction::CloseAccount {
                token_program: spl_id(),
                account: vec![3u8; 32],
                destination: vec![1u8; 32],
                authority: pda,
                proof: AuthorityProof::DerivedSeed { bump },
            },
        ]
    );
    assert_eq!(s.initializer.lamports, 500 + 2_000_000);
    assert_eq!(s.escrow_account.lamports, 0);
    assert!(s.escrow_account.data.is_empty());
}

#[test]
fn exchange_amount_mismatch_fails_with_no_transfers() {
    let mut s = exchange_setup(250, 100);
    let before_initializer = s.initializer.clone();
    let before_escrow = s.escrow_account.clone();
    assert_eq!(run_exchange(&mut s, 999), Err(EscrowError::ExpectedAmountMismatch));
    assert_eq!(s.initializer, before_initializer);
    assert_eq!(s.escrow_account, before_escrow);
}

#[test]
fn exchange_wrong_temp_account_fails() {
    let mut s = exchange_setup(250, 100);
    s.temp.key = vec![13u8; 32];
    assert_eq!(run_exchange(&mut s, 250), Err(EscrowError::InvalidAccountData));
}

#[test]
fn exchange_wrong_initializer_fails_with_no_transfers() {
    let mut s = exchange_setup(250, 100);
    s.initializer.key = vec![8u8; 32];
    let before_initializer = s.initializer.clone();
    let before_escrow = s.escrow_account.clone();
    assert_eq!(run_exchange(&mut s, 250), Err(EscrowError::InvalidAccountData));
    assert_eq!(s.initializer, before_initializer);
    assert_eq!(s.escrow_account, before_escrow);
}

#[test]
fn exchange_wrong_wanted_account_fails() {
    let mut s = exchange_setup(250, 100);
    s.initializer_wanted.key = vec![14u8; 32];
    assert_eq!(run_exchange(&mut s, 250), Err(EscrowError::InvalidAccountData));
}

#[test]
fn exchange_without_signature_fails() {
    let mut s = exchange_setup(250, 100);
    s.receiver.is_signer = false;
    assert_eq!(run_exchange(&mut s, 250), Err(EscrowError::MissingRequiredSignature));
}

#[test]
fn exchange_unreadable_temp_account_fails() {
    let mut s = exchange_setup(250, 100);
    s.temp.data = vec![0u8; 10];
    assert_eq!(run_exchange(&mut s, 250), Err(EscrowError::InvalidAccountData));
}

#[test]
fn exchange_uninitialized_record_fails() {
    let mut s = exchange_setup(250, 100);
    s.escrow_account.data[0] = 0;
    assert_eq!(run_exchange(&mut s, 250), Err(EscrowError::UninitializedAccount));
}

#[test]
fn exchange_wrong_token_program_fails() {
    let mut s = exchange_setup(250, 100);
    s.token_program.key = vec![6u8; 32];
    assert_eq!(run_exchange(&mut s, 250), Err(EscrowError::IncorrectProgramId));
}

#[test]
fn exchange_overflow_fails_and_no_balance_changes() {
    let mut s = exchange_setup(250, 100);
    s.initializer.lamports = u64::MAX;
    let before_initializer = s.initializer.clone();
    let before_escrow = s.escrow_account.clone();
    assert_eq!(run_exchange(&mut s, 250), Err(EscrowError::AmountOverflow));
    assert_eq!(s.initializer, before_initializer);
    assert_eq!(s.escrow_account, before_escrow);
}

// The entry point

#[test]
fn process_dispatches_init() {
    let s = init_setup();
    let mut accounts = vec![
        s.initializer.clone(),
        s.wanted.clone(),
        s.temp.clone(),
        s.escrow_account.clone(),
        s.rent.clone(),
        s.token_program.clone(),
    ];
    let actions =
        Processor::process(&s.program_id, &mut accounts, &instruction_bytes(0, 100)).unwrap();
    assert_eq!(actions.len(), 1);
    let record = Escrow::unpack(&accounts[3].data).unwrap();
    assert_eq!(record.amount, 100);
    assert_eq!(accounts[0], s.initializer);
    assert_eq!(accounts[5], s.token_program);
}

#[test]
fn process_dispatches_exchange_end_to_end() {
    // The full scenario: the initializer escrows 250 units and demands
    // 100 of the other asset; the receiver expects exactly 250.
    let s = init_setup();
    let mut temp = s.temp.clone();
    temp.data = token_account_data(250);
    let mut accounts = vec![
        s.initializer.clone(),
        s.wanted.clone(),
        temp.clone(),
        s.escrow_account.clone(),
        s.rent.clone(),
        s.token_program.clone(),
    ];
    Processor::process(&s.program_id, &mut accounts, &instruction_bytes(0, 100)).unwrap();
    let escrow_after_init = accounts[3].clone();

    let receiver = plain_account(9, true);
    let mut initializer = s.initializer.clone();
    initializer.is_signer = false;
    initializer.lamports = 500;
    let mut accounts = vec![
        receiver,
        plain_account(10, false),
        plain_account(11, false),
        temp,
        initializer,
        s.wanted.clone(),
        escrow_after_init,
        s.token_program.clone(),
        plain_account(15, false),
    ];
    let actions =
        Processor::process(&s.program_id, &mut accounts, &instruction_bytes(1, 250)).unwrap();
    assert_eq!(actions.len(), 3);
    match &actions[0] {
        LedgerAction::Transfer { destination, amount, .. } => {
            assert_eq!(destination, &vec![2u8; 32]);
            assert_eq!(*amount, 100);
        }
        other => panic!("unexpected first action {other:?}"),
    }
    match &actions[1] {
        LedgerAction::Transfer { destination, amount, .. } => {
            assert_eq!(destination, &vec![11u8; 32]);
            assert_eq!(*amount, 250);
        }
        other => panic!("unexpected second action {other:?}"),
    }
    assert_eq!(accounts[4].lamports, 500 + 2_000_000);
    assert_eq!(accounts[6].lamports, 0);
    assert!(accounts[6].data.is_empty());
}

#[test]
fn process_rejects_bad_instructions() {
    let program_id = vec![7u8; 32];
    let mut accounts = Vec::new();
    assert_eq!(
        Processor::process(&program_id, &mut accounts, &[]),
        Err(EscrowError::InvalidInstruction)
    );
    assert_eq!(
        Processor::process(&program_id, &mut accounts, &instruction_bytes(2, 5)),
        Err(EscrowError::InvalidInstruction)
    );
    assert_eq!(
        Processor::process(&program_id, &mut accounts, &[0, 1, 2]),
        Err(EscrowError::InvalidInstruction)
    );
}

#[test]
fn process_rejects_short_account_lists() {
    let program_id = vec![7u8; 32];
    let mut accounts = vec![plain_account(1, true)];
    assert_eq!(
        Processor::process(&program_id, &mut accounts, &instruction_bytes(0, 5)),
        Err(EscrowError::NotEnoughAccountKeys)
    );
    assert_eq!(accounts.len(), 1);
    assert_eq!(
        Processor::process(&program_id, &mut accounts, &instruction_bytes(1, 5)),
        Err(EscrowError::NotEnoughAccountKeys)
    );
}

// The trusted boundary, exercised against the real outside crates

#[test]
fn compile_action_builds_ledger_messages() {
    let (pda, bump) = expected_pda(&[7u8; 32]);
    let set = LedgerAction::SetAuthority {
        token_program: spl_id(),
        account: vec![3u8; 32],
        new_authority: pda.clone(),
        current_authority: vec![1u8; 32],
    };
    let ix = compile_action(&set).unwrap();
    let expected = spl_token::instruction::set_authority(
        &spl_token::id(),
        &Pubkey::new_from_array([3u8; 32]),
        Some(&Pubkey::try_from(pda.as_slice()).unwrap()),
        spl_token::instruction::AuthorityType::AccountOwner,
        &Pubkey::new_from_array([1u8; 32]),
        &[&Pubkey::new_from_array([1u8; 32])],
    )
    .unwrap();
    assert_eq!(ix, expected);

    let transfer = LedgerAction::Transfer {
        token_program: spl_id(),
        source: vec![10u8; 32],
        destination: vec![2u8; 32],
        authority: vec![9u8; 32],
        amount: 100,
        proof: AuthorityProof::DerivedSeed { bump },
    };
    let ix = compile_action(&transfer).unwrap();
    let expected = spl_token::instruction::transfer(
        &spl_token::id(),
        &Pubkey::new_from_array([10u8; 32]),
        &Pubkey::new_from_array([2u8; 32]),
        &Pubkey::new_from_array([9u8; 32]),
        &[&Pubkey::new_from_array([9u8; 32])],
        100,
    )
    .unwrap();
    assert_eq!(ix, expected);
}

#[test]
fn compile_action_rejects_wrong_token_program() {
    let close = LedgerAction::CloseAccount {
        token_program: vec![6u8; 32],
        account: vec![3u8; 32],
        destination: vec![1u8; 32],
        authority: vec![9u8; 32],
        proof: AuthorityProof::Signature,
    };
    assert_eq!(compile_action(&close), Err(EscrowError::IncorrectProgramId));
}
