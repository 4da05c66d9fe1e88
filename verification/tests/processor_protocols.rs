use royalty_distributor::error::RoyaltyDistributorError;
use royalty_distributor::processor::{Account, DepositVerdict, Effects, Processor, AUTHORITY_SEED};
use royalty_distributor::state::{Member, RoyaltyDistributor};
use royalty_distributor::token::{CpiAccount, CpiInstruction};
use solana_program::instruction::Instruction;
use solana_program::program_option::COption;
use solana_program::program_pack::Pack;
use solana_program::pubkey::Pubkey;
use spl_token::instruction::AuthorityType;
use spl_token::state::{Account as TokenAccount, AccountState};

const PROGRAM_ID: [u8; 32] = [7; 32];
const INITIALIZER: [u8; 32] = [11; 32];
const POOL: [u8; 32] = [12; 32];
const STATE: [u8; 32] = [13; 32];
const RENT: [u8; 32] = [14; 32];
const AUTHORITY_ACCOUNT: [u8; 32] = [15; 32];
const SYSTEM: [u8; 32] = [0; 32];

fn token_program() -> [u8; 32] {
    spl_token::id().to_bytes()
}

fn member_key(k: usize) -> [u8; 32] {
    [0x40 + k as u8; 32]
}

fn member_keys(count: usize) -> Vec<[u8; 32]> {
    (0..count).map(member_key).collect()
}

fn processor(count: usize) -> Processor {
    Processor::new(member_keys(count)).unwrap()
}

fn run(
    count: usize,
    accounts: &[Account],
    data: &[u8],
    deposit: DepositVerdict,
) -> Result<Effects, RoyaltyDistributorError> {
    processor(count).process(&PROGRAM_ID, accounts, data, deposit)
}

fn account(key: [u8; 32], owner: [u8; 32], is_signer: bool, data: Vec<u8>) -> Account {
    Account { key, owner, is_signer, data }
}

fn token_account_data(amount: u64, state: AccountState) -> Vec<u8> {
    let token_account = TokenAccount {
        mint: Pubkey::new_from_array([21; 32]),
        owner: Pubkey::new_from_array(INITIALIZER),
        amount,
        delegate: COption::None,
        state,
        is_native: COption::None,
        delegated_amount: 0,
        close_authority: COption::None,
    };
    let mut data = vec![0u8; TokenAccount::LEN];
    TokenAccount::pack(token_account, &mut data).unwrap();
    data
}

fn init_accounts(count: usize) -> Vec<Account> {
    vec![
        account(INITIALIZER, SYSTEM, true, vec![]),
        account(POOL, token_program(), false, token_account_data(1000, AccountState::Initialized)),
        account(STATE, PROGRAM_ID, false, vec![0u8; 1 + 34 * count]),
        account(RENT, SYSTEM, false, vec![]),
        account(token_program(), SYSTEM, false, vec![]),
    ]
}

fn state_data(shares: &[u16], is_initialized: bool) -> Vec<u8> {
    let members = shares
        .iter()
        .enumerate()
        .map(|(k, &shares)| Member { pubkey: member_key(k), shares })
        .collect();
    RoyaltyDistributor { is_initialized, members }.to_bytes()
}

fn withdraw_accounts(shares: &[u16], balance: u64) -> Vec<Account> {
    vec![
        account(INITIALIZER, SYSTEM, true, vec![]),
        account(STATE, PROGRAM_ID, false, state_data(shares, true)),
        account(
            POOL,
            token_program(),
            false,
            token_account_data(balance, AccountState::Initialized),
        ),
        account(token_program(), SYSTEM, false, vec![]),
        account(AUTHORITY_ACCOUNT, SYSTEM, false, vec![]),
    ]
}

fn init_data(shares: &[u16]) -> Vec<u8> {
    let mut data = vec![0u8];
    for share in shares {
        data.extend_from_slice(&share.to_le_bytes());
    }
    data
}

fn expected_authority() -> (Pubkey, u8) {
    Pubkey::find_program_address(&[b"royalty_distributor"], &Pubkey::new_from_array(PROGRAM_ID))
}

fn as_cpi(instruction: Instruction) -> CpiInstruction {
    CpiInstruction {
        program_id: instruction.program_id.to_bytes(),
        accounts: instruction
            .accounts
            .iter()
            .map(|meta| CpiAccount {
                pubkey: meta.pubkey.to_bytes(),
                is_signer: meta.is_signer,
                is_writable: meta.is_writable,
            })
            .collect(),
        data: instruction.data,
    }
}

fn expected_transfer(destination: [u8; 32], amount: u64) -> CpiInstruction {
    let (authority, _) = expected_authority();
    as_cpi(
        spl_token::instruction::transfer(
            &spl_token::id(),
            &Pubkey::new_from_array(POOL),
            &Pubkey::new_from_array(destination),
            &authority,
            &[&authority],
            amount,
        )
        .unwrap(),
    )
}

fn transfer_amount(transfer: &CpiInstruction) -> u64 {
    assert_eq!(transfer.data.len(), 9);
    assert_eq!(transfer.data[0], 3);
    let mut bytes = [0u8; 8];
    bytes.copy_from_slice(&transfer.data[1..]);
    u64::from_le_bytes(bytes)
}

fn withdrawn(effects: Effects) -> (Vec<CpiInstruction>, u8, Vec<u8>) {
    match effects {
        Effects::Withdrawn { transfers, bump_seed, state_data } => {
            (transfers, bump_seed, state_data)
        }
        Effects::Initialized { .. } => panic!("a withdrawal does not initialize"),
    }
}

fn initialized(effects: Effects) -> (Vec<u8>, CpiInstruction) {
    match effects {
        Effects::Initialized { state_data, set_owner } => (state_data, set_owner),
        Effects::Withdrawn { .. } => panic!("an initialization does not withdraw"),
    }
}

#[test]
fn token_program_address_spelled_out() {
    assert_eq!(
        token_program(),
        [
            6, 221, 246, 225, 215, 101, 161, 147, 217, 203, 225, 70, 206, 235, 121, 172, 28, 180,
            133, 237, 95, 91, 55, 145, 58, 140, 245, 133, 126, 255, 0, 169,
        ]
    );
    let mut accounts = init_accounts(2);
    accounts[1].owner = [
        6, 221, 246, 225, 215, 101, 161, 147, 217, 203, 225, 70, 206, 235, 121, 172, 28, 180, 133,
        237, 95, 91, 55, 145, 58, 140, 245, 133, 126, 255, 0, 169,
    ];
    assert!(run(2, &accounts, &init_data(&[1, 2]), DepositVerdict::Exempt).is_ok());
}

#[test]
fn authority_seed_is_the_name_of_the_program() {
    assert_eq!(&AUTHORITY_SEED[..], &b"royalty_distributor"[..]);
}

#[test]
fn a_processor_has_two_to_eight_members() {
    assert!(Processor::new(member_keys(0)).is_none());
    assert!(Processor::new(member_keys(1)).is_none());
    for count in 2..=8usize {
        let processor = Processor::new(member_keys(count)).unwrap();
        assert_eq!(processor.member_count(), count);
        assert_eq!(processor.members(), &member_keys(count));
    }
    assert!(Processor::new(member_keys(9)).is_none());
}

#[test]
fn authority_derivation_is_repeatable() {
    let first = Processor::authority_address(&PROGRAM_ID);
    let second = Processor::authority_address(&PROGRAM_ID);
    assert!(first.is_some());
    assert_eq!(first, second);
}

#[test]
fn authority_is_the_program_derived_address() {
    let (authority, bump_seed) = expected_authority();
    assert_eq!(
        Processor::authority_address(&PROGRAM_ID),
        Some((authority.to_bytes(), bump_seed))
    );
    assert_ne!(authority.to_bytes(), PROGRAM_ID);
    let other = Processor::authority_address(&[8; 32]).unwrap();
    assert_ne!(other.0, authority.to_bytes());
}

#[test]
fn initialization_writes_the_members_and_hands_the_pool_over() {
    let shares = [6000u16, 4000];
    let effects = run(2, &init_accounts(2), &init_data(&shares), DepositVerdict::Exempt).unwrap();
    let (state_data, set_owner) = initialized(effects);
    let state = RoyaltyDistributor::unpack(&state_data, 2).unwrap();
    assert!(state.is_initialized);
    assert_eq!(
        state.members,
        vec![
            Member { pubkey: member_key(0), shares: 6000 },
            Member { pubkey: member_key(1), shares: 4000 },
        ]
    );
    let (authority, _) = expected_authority();
    let initializer = Pubkey::new_from_array(INITIALIZER);
    let expected = spl_token::instruction::set_authority(
        &spl_token::id(),
        &Pubkey::new_from_array(POOL),
        Some(&authority),
        AuthorityType::AccountOwner,
        &initializer,
        &[&initializer],
    )
    .unwrap();
    assert_eq!(set_owner, as_cpi(expected));
}

#[test]
fn set_owner_instruction_spelled_out() {
    let effects = run(2, &init_accounts(2), &init_data(&[1, 2]), DepositVerdict::Exempt).unwrap();
    let (_, set_owner) = initialized(effects);
    let (authority, _) = expected_authority();
    let mut data = vec![6u8, 2, 1];
    data.extend_from_slice(&authority.to_bytes());
    assert_eq!(
        set_owner,
        CpiInstruction {
            program_id: token_program(),
            accounts: vec![
                CpiAccount { pubkey: POOL, is_signer: false, is_writable: true },
                CpiAccount { pubkey: INITIALIZER, is_signer: false, is_writable: false },
                CpiAccount { pubkey: INITIALIZER, is_signer: true, is_writable: false },
            ],
            data,
        }
    );
}

#[test]
fn initialization_of_eight_members() {
    let shares = [3800u16, 2000, 1000, 700, 700, 600, 600, 600];
    let effects = run(8, &init_accounts(8), &init_data(&shares), DepositVerdict::Exempt).unwrap();
    let (state_data, _) = initialized(effects);
    assert_eq!(state_data.len(), 273);
    assert_eq!(state_data, self::state_data(&shares, true));
}

#[test]
fn initialization_called_directly() {
    let shares = vec![5000u16, 5000];
    let direct = processor(2).process_init_royalty_distributor(
        &init_accounts(2),
        &shares,
        &PROGRAM_ID,
        DepositVerdict::Exempt,
    );
    let dispatched = run(2, &init_accounts(2), &init_data(&shares), DepositVerdict::Exempt);
    assert!(direct.is_ok());
    assert_eq!(direct, dispatched);
}

#[test]
fn initialization_needs_the_initializer_to_sign() {
    let mut accounts = init_accounts(2);
    accounts[0].is_signer = false;
    accounts[1].owner = SYSTEM;
    assert_eq!(
        run(2, &accounts, &init_data(&[1, 2]), DepositVerdict::NotExempt),
        Err(RoyaltyDistributorError::MissingRequiredSignature)
    );
}

#[test]
fn initialization_needs_the_pool_to_belong_to_the_token_program() {
    let mut accounts = init_accounts(2);
    accounts[1].owner = SYSTEM;
    accounts[2].data = vec![];
    assert_eq!(
        run(2, &accounts, &init_data(&[1, 2]), DepositVerdict::NotExempt),
        Err(RoyaltyDistributorError::IncorrectOwnership)
    );
    let mut accounts = init_accounts(2);
    accounts[1].owner[31] ^= 1;
    assert_eq!(
        run(2, &accounts, &init_data(&[1, 2]), DepositVerdict::Exempt),
        Err(RoyaltyDistributorError::IncorrectOwnership)
    );
}

#[test]
fn initialization_needs_a_rent_sysvar() {
    let mut accounts = init_accounts(2);
    accounts[2].data = vec![];
    assert_eq!(
        run(2, &accounts, &init_data(&[1, 2]), DepositVerdict::Unreadable),
        Err(RoyaltyDistributorError::InvalidArgument)
    );
}

#[test]
fn initialization_needs_a_rent_exempt_state_account() {
    let mut accounts = init_accounts(2);
    accounts[2].data = vec![];
    assert_eq!(
        run(2, &accounts, &init_data(&[1, 2]), DepositVerdict::NotExempt),
        Err(RoyaltyDistributorError::NotRentExempt)
    );
}

#[test]
fn initialization_needs_a_state_account_of_the_right_size() {
    for len in [0usize, 68, 70, 273] {
        let mut accounts = init_accounts(2);
        accounts[2].data = vec![0u8; len];
        assert_eq!(
            run(2, &accounts, &init_data(&[1, 2]), DepositVerdict::Exempt),
            Err(RoyaltyDistributorError::InvalidAccountData)
        );
    }
    let mut accounts = init_accounts(2);
    accounts[2].data[0] = 2;
    assert_eq!(
        run(2, &accounts, &init_data(&[1, 2]), DepositVerdict::Exempt),
        Err(RoyaltyDistributorError::InvalidAccountData)
    );
}

#[test]
fn initialization_is_rejected_the_second_time() {
    let processor = processor(2);
    let mut accounts = init_accounts(2);
    let first = processor
        .process(&PROGRAM_ID, &accounts, &init_data(&[6000, 4000]), DepositVerdict::Exempt)
        .unwrap();
    let (state_data, _) = initialized(first);
    accounts[2].data = state_data.clone();
    assert_eq!(
        processor.process(&PROGRAM_ID, &accounts, &init_data(&[1, 9999]), DepositVerdict::Exempt),
        Err(RoyaltyDistributorError::AccountAlreadyInitialized)
    );
    assert_eq!(accounts[2].data, state_data);
    assert_eq!(accounts[2].data, self::state_data(&[6000, 4000], true));
}

#[test]
fn initialization_needs_the_token_program() {
    let mut accounts = init_accounts(2);
    accounts[4].key = SYSTEM;
    assert_eq!(
        run(2, &accounts, &init_data(&[1, 2]), DepositVerdict::Exempt),
        Err(RoyaltyDistributorError::IncorrectProgramId)
    );
}

#[test]
fn initialization_with_too_few_accounts() {
    let accounts = init_accounts(2);
    for len in 0..5usize {
        assert_eq!(
            run(2, &accounts[..len], &init_data(&[1, 2]), DepositVerdict::Exempt),
            Err(RoyaltyDistributorError::NotEnoughAccountKeys)
        );
    }
}

#[test]
fn initialization_checks_come_in_order() {
    let mut accounts = init_accounts(2);
    accounts[0].is_signer = false;
    assert_eq!(
        run(2, &accounts[..1], &init_data(&[1, 2]), DepositVerdict::Exempt),
        Err(RoyaltyDistributorError::MissingRequiredSignature)
    );
    let mut accounts = init_accounts(2);
    accounts[1].owner = SYSTEM;
    assert_eq!(
        run(2, &accounts[..2], &init_data(&[1, 2]), DepositVerdict::Exempt),
        Err(RoyaltyDistributorError::IncorrectOwnership)
    );
    let mut accounts = init_accounts(2);
    accounts[2].data = self::state_data(&[1, 2], true);
    assert_eq!(
        run(2, &accounts[..4], &init_data(&[1, 2]), DepositVerdict::NotExempt),
        Err(RoyaltyDistributorError::NotRentExempt)
    );
    assert_eq!(
        run(2, &accounts[..4], &init_data(&[1, 2]), DepositVerdict::Exempt),
        Err(RoyaltyDistributorError::AccountAlreadyInitialized)
    );
}

#[test]
fn a_bad_instruction_is_refused_before_the_accounts_are_read() {
    for data in [vec![], vec![2u8], vec![0u8, 1, 2, 3]] {
        assert_eq!(
            run(2, &[], &data, DepositVerdict::Exempt),
            Err(RoyaltyDistributorError::InvalidInstruction)
        );
    }
}

#[test]
fn sixty_forty_split_of_a_pool_of_one_thousand() {
    let accounts = withdraw_accounts(&[6000, 4000], 1000);
    let effects = run(2, &accounts, &[1], DepositVerdict::Unreadable).unwrap();
    let (transfers, bump_seed, state_data) = withdrawn(effects);
    assert_eq!(bump_seed, expected_authority().1);
    assert_eq!(
        transfers,
        vec![expected_transfer(member_key(0), 600), expected_transfer(member_key(1), 400)]
    );
    assert_eq!(transfers.iter().map(transfer_amount).sum::<u64>(), 1000);
    assert_eq!(state_data, accounts[1].data);
}

#[test]
fn transfer_instruction_spelled_out() {
    let accounts = withdraw_accounts(&[6000, 4000], 0x0102_0304_0506_0708);
    let effects = processor(2).process_withdraw(&accounts, &PROGRAM_ID).unwrap();
    let (transfers, _, _) = withdrawn(effects);
    let authority = expected_authority().0.to_bytes();
    let amount = (0x0102_0304_0506_0708u128 * 6000 / 10000) as u64;
    let mut data = vec![3u8];
    data.extend_from_slice(&amount.to_le_bytes());
    assert_eq!(
        transfers[0],
        CpiInstruction {
            program_id: token_program(),
            accounts: vec![
                CpiAccount { pubkey: POOL, is_signer: false, is_writable: true },
                CpiAccount { pubkey: member_key(0), is_signer: false, is_writable: true },
                CpiAccount { pubkey: authority, is_signer: false, is_writable: false },
                CpiAccount { pubkey: authority, is_signer: true, is_writable: false },
            ],
            data,
        }
    );
}

#[test]
fn eight_members_with_more_than_the_whole_are_all_paid() {
    let shares = [3000u16, 3000, 3000, 3000, 3000, 3000, 3000, 3000];
    let accounts = withdraw_accounts(&shares, 1000);
    let effects = run(8, &accounts, &[1], DepositVerdict::Exempt).unwrap();
    let (transfers, _, state_data) = withdrawn(effects);
    assert_eq!(transfers.len(), 8);
    for (k, transfer) in transfers.iter().enumerate() {
        assert_eq!(transfer, &expected_transfer(member_key(k), 300));
    }
    assert_eq!(transfers.iter().map(transfer_amount).sum::<u64>(), 2400);
    assert_eq!(state_data, accounts[1].data);
}

#[test]
fn eight_members_of_a_full_split() {
    let shares = [3800u16, 2000, 1000, 700, 700, 600, 600, 600];
    let accounts = withdraw_accounts(&shares, 1_000_000);
    let effects = run(8, &accounts, &[1], DepositVerdict::Exempt).unwrap();
    let (transfers, _, _) = withdrawn(effects);
    let amounts: Vec<u64> = transfers.iter().map(transfer_amount).collect();
    assert_eq!(amounts, vec![380_000, 200_000, 100_000, 70_000, 70_000, 60_000, 60_000, 60_000]);
}

#[test]
fn withdraw_twice_against_the_same_balance() {
    let processor = processor(2);
    let mut accounts = withdraw_accounts(&[6000, 4000], 1000);
    let first = processor.process(&PROGRAM_ID, &accounts, &[1], DepositVerdict::Exempt).unwrap();
    let (_, _, state_data) = withdrawn(first.clone());
    accounts[1].data = state_data;
    let second = processor.process(&PROGRAM_ID, &accounts, &[1], DepositVerdict::Exempt).unwrap();
    assert_eq!(first, second);
    let (transfers, _, _) = withdrawn(second);
    assert_eq!(transfers.iter().map(transfer_amount).collect::<Vec<u64>>(), vec![600, 400]);
}

#[test]
fn withdrawal_from_given_values() {
    let state = RoyaltyDistributor {
        is_initialized: true,
        members: vec![
            Member { pubkey: member_key(0), shares: 6000 },
            Member { pubkey: member_key(1), shares: 4000 },
        ],
    };
    let authority = [99u8; 32];
    let effects =
        Processor::withdrawal(&state, &POOL, &token_program(), 1000, &authority, 250).unwrap();
    let (transfers, bump_seed, state_data) = withdrawn(effects);
    assert_eq!(bump_seed, 250);
    assert_eq!(state_data, state.to_bytes());
    assert_eq!(transfers.len(), 2);
    assert_eq!(transfer_amount(&transfers[0]), 600);
    assert_eq!(transfer_amount(&transfers[1]), 400);
    assert_eq!(transfers[0].accounts[0].pubkey, POOL);
    assert_eq!(transfers[0].accounts[1].pubkey, member_key(0));
    assert_eq!(transfers[1].accounts[1].pubkey, member_key(1));
    assert_eq!(transfers[0].accounts[2].pubkey, authority);
    assert_eq!(transfers[0].accounts[3].pubkey, authority);
    assert_eq!(
        Processor::withdrawal(&state, &POOL, &SYSTEM, 1000, &authority, 250),
        Err(RoyaltyDistributorError::IncorrectProgramId)
    );
}

#[test]
fn initialization_from_given_values() {
    let processor = processor(2);
    let shares = vec![6000u16, 4000];
    let authority = [99u8; 32];
    let effects = processor
        .initialization(&INITIALIZER, &POOL, &token_program(), &shares, Some((authority, 250)))
        .unwrap();
    let (state_data, set_owner) = initialized(effects);
    assert_eq!(state_data, self::state_data(&[6000, 4000], true));
    assert_eq!(&set_owner.data[..3], &[6u8, 2, 1][..]);
    assert_eq!(&set_owner.data[3..], &authority[..]);
    assert_eq!(
        processor.initialization(&INITIALIZER, &POOL, &token_program(), &shares, None),
        Err(RoyaltyDistributorError::InvalidSeeds)
    );
    assert_eq!(
        processor.initialization(&INITIALIZER, &POOL, &SYSTEM, &shares, Some((authority, 250))),
        Err(RoyaltyDistributorError::IncorrectProgramId)
    );
}

#[test]
fn withdrawal_needs_a_signer() {
    let mut accounts = withdraw_accounts(&[6000, 4000], 1000);
    accounts[0].is_signer = false;
    assert_eq!(
        run(2, &accounts, &[1], DepositVerdict::Exempt),
        Err(RoyaltyDistributorError::MissingRequiredSignature)
    );
}

#[test]
fn withdrawal_needs_an_initialized_state() {
    let mut accounts = withdraw_accounts(&[6000, 4000], 1000);
    accounts[1].data = state_data(&[6000, 4000], false);
    assert_eq!(
        run(2, &accounts, &[1], DepositVerdict::Exempt),
        Err(RoyaltyDistributorError::UninitializedAccount)
    );
}

#[test]
fn withdrawal_needs_a_state_that_decodes() {
    let mut accounts = withdraw_accounts(&[6000, 4000], 1000);
    accounts[1].data[0] = 7;
    assert_eq!(
        run(2, &accounts, &[1], DepositVerdict::Exempt),
        Err(RoyaltyDistributorError::InvalidAccountData)
    );
    let mut accounts = withdraw_accounts(&[6000, 4000], 1000);
    accounts[1].data.pop();
    assert_eq!(
        run(2, &accounts, &[1], DepositVerdict::Exempt),
        Err(RoyaltyDistributorError::InvalidAccountData)
    );
    let accounts = withdraw_accounts(&[6000, 4000], 1000);
    assert_eq!(
        run(8, &accounts, &[1], DepositVerdict::Exempt),
        Err(RoyaltyDistributorError::InvalidAccountData)
    );
}

#[test]
fn withdrawal_needs_a_token_account() {
    let mut accounts = withdraw_accounts(&[6000, 4000], 1000);
    accounts[2].data = vec![0u8; 10];
    assert_eq!(
        run(2, &accounts, &[1], DepositVerdict::Exempt),
        Err(RoyaltyDistributorError::InvalidAccountData)
    );
    let mut accounts = withdraw_accounts(&[6000, 4000], 1000);
    accounts[2].data[108] = 9;
    assert_eq!(
        run(2, &accounts, &[1], DepositVerdict::Exempt),
        Err(RoyaltyDistributorError::InvalidAccountData)
    );
    let mut accounts = withdraw_accounts(&[6000, 4000], 1000);
    accounts[2].data = token_account_data(1000, AccountState::Uninitialized);
    assert_eq!(
        run(2, &accounts, &[1], DepositVerdict::Exempt),
        Err(RoyaltyDistributorError::UninitializedAccount)
    );
}

#[test]
fn withdrawal_reads_the_balance_of_the_pool() {
    for balance in [0u64, 1, 9999, 10000, 123_456_789_012] {
        let accounts = withdraw_accounts(&[2500, 7500], balance);
        let effects = processor(2).process_withdraw(&accounts, &PROGRAM_ID).unwrap();
        let (transfers, _, _) = withdrawn(effects);
        assert_eq!(transfer_amount(&transfers[0]), (balance as u128 * 2500 / 10000) as u64);
        assert_eq!(transfer_amount(&transfers[1]), (balance as u128 * 7500 / 10000) as u64);
    }
}

#[test]
fn withdrawal_from_a_frozen_pool_is_still_computed() {
    let mut accounts = withdraw_accounts(&[6000, 4000], 1000);
    accounts[2].data = token_account_data(1000, AccountState::Frozen);
    assert!(run(2, &accounts, &[1], DepositVerdict::Exempt).is_ok());
}

#[test]
fn withdrawal_needs_the_token_program() {
    let mut accounts = withdraw_accounts(&[6000, 4000], 1000);
    accounts[3].key = SYSTEM;
    assert_eq!(
        run(2, &accounts, &[1], DepositVerdict::Exempt),
        Err(RoyaltyDistributorError::IncorrectProgramId)
    );
}

#[test]
fn withdrawal_with_too_few_accounts() {
    let accounts = withdraw_accounts(&[6000, 4000], 1000);
    for len in 0..5usize {
        assert_eq!(
            run(2, &accounts[..len], &[1], DepositVerdict::Exempt),
            Err(RoyaltyDistributorError::NotEnoughAccountKeys)
        );
    }
}

#[test]
fn withdrawal_checks_come_in_order() {
    let mut accounts = withdraw_accounts(&[6000, 4000], 1000);
    accounts[0].is_signer = false;
    assert_eq!(
        run(2, &accounts[..1], &[1], DepositVerdict::Exempt),
        Err(RoyaltyDistributorError::MissingRequiredSignature)
    );
    let mut accounts = withdraw_accounts(&[6000, 4000], 1000);
    accounts[1].data[0] = 0;
    assert_eq!(
        run(2, &accounts[..2], &[1], DepositVerdict::Exempt),
        Err(RoyaltyDistributorError::UninitializedAccount)
    );
    let mut accounts = withdraw_accounts(&[6000, 4000], 1000);
    accounts[2].data = vec![];
    accounts[3].key = SYSTEM;
    assert_eq!(
        run(2, &accounts[..3], &[1], DepositVerdict::Exempt),
        Err(RoyaltyDistributorError::InvalidAccountData)
    );
    let mut accounts = withdraw_accounts(&[6000, 4000], 1000);
    accounts[3].key = SYSTEM;
    assert_eq!(
        run(2, &accounts[..4], &[1], DepositVerdict::Exempt),
        Err(RoyaltyDistributorError::NotEnoughAccountKeys)
    );
}

#[test]
fn the_deposit_verdict_does_not_touch_a_withdrawal() {
    let accounts = withdraw_accounts(&[6000, 4000], 1000);
    let exempt = run(2, &accounts, &[1], DepositVerdict::Exempt);
    let not_exempt = run(2, &accounts, &[1], DepositVerdict::NotExempt);
    let unreadable = run(2, &accounts, &[1], DepositVerdict::Unreadable);
    assert!(exempt.is_ok());
    assert_eq!(exempt, not_exempt);
    assert_eq!(exempt, unreadable);
}
