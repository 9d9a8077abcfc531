use escrow::authority::{seed_label, AuthorityDelegate};
use escrow::error::{EscrowError, ProcessError};
use escrow::instruction::EscrowInstruction;
use escrow::processor::{AccountView, Authority, Outcome, Processor, TokenCall};
use escrow::state::{Escrow, ESCROW_LEN};
use solana_program::pubkey::Pubkey;

fn key(n: u8) -> [u8; 32] {
    [n; 32]
}

fn token_id() -> [u8; 32] {
    spl_token::id().to_bytes()
}

fn program_id() -> [u8; 32] {
    key(200)
}

fn account(k: [u8; 32], owner: [u8; 32], is_signer: bool, lamports: u64, data: Vec<u8>) -> AccountView {
    AccountView { key: k, owner, is_signer, rent_exempt: true, lamports, data }
}

/// Token-account data in the token program's layout.
fn token_data(mint: [u8; 32], owner: [u8; 32], amount: u64, state: u8) -> Vec<u8> {
    let mut d = vec![0u8; 165];
    d[0..32].copy_from_slice(&mint);
    d[32..64].copy_from_slice(&owner);
    d[64..72].copy_from_slice(&amount.to_le_bytes());
    d[108] = state;
    d
}

fn token_balance(data: &[u8]) -> u64 {
    u64::from_le_bytes(data[64..72].try_into().unwrap())
}

fn set_token_balance(data: &mut [u8], amount: u64) {
    data[64..72].copy_from_slice(&amount.to_le_bytes());
}

fn instruction(tag: u8, amount: u64) -> Vec<u8> {
    let mut v = vec![tag];
    v.extend_from_slice(&amount.to_le_bytes());
    v
}

const INITIALIZER: u8 = 1;
const CUSTODY: u8 = 2;
const INIT_RECEIVE: u8 = 3;
const RECORD: u8 = 4;
const TAKER: u8 = 5;
const TAKER_SEND: u8 = 6;
const TAKER_RECEIVE: u8 = 7;
const MINT_A: u8 = 8;
const MINT_B: u8 = 9;

fn init_accounts(custody_amount: u64) -> Vec<AccountView> {
    vec![
        account(key(INITIALIZER), key(0), true, 1_000, vec![]),
        account(key(CUSTODY), token_id(), false, 2_039_280, token_data(key(MINT_A), key(INITIALIZER), custody_amount, 1)),
        account(key(INIT_RECEIVE), token_id(), false, 2_039_280, token_data(key(MINT_B), key(INITIALIZER), 0, 1)),
        account(key(RECORD), program_id(), false, 1_621_680, vec![0u8; ESCROW_LEN]),
        account(token_id(), key(0), false, 1, vec![]),
    ]
}

fn exchange_accounts(init: &[AccountView], taker_b: u64) -> Vec<AccountView> {
    let delegate = AuthorityDelegate::derive(&program_id()).unwrap();
    vec![
        account(key(TAKER), key(0), true, 5_000, vec![]),
        account(key(TAKER_SEND), token_id(), false, 2_039_280, token_data(key(MINT_B), key(TAKER), taker_b, 1)),
        account(key(TAKER_RECEIVE), token_id(), false, 2_039_280, token_data(key(MINT_A), key(TAKER), 0, 1)),
        init[1].clone(),
        init[0].clone(),
        init[2].clone(),
        init[3].clone(),
        init[4].clone(),
        account(delegate.address, key(0), false, 0, vec![]),
    ]
}

/// Carries out token calls on the token accounts among `accounts`.
fn run_calls(accounts: &mut [AccountView], calls: &[TokenCall]) {
    let find = |accounts: &[AccountView], k: [u8; 32]| accounts.iter().position(|a| a.key == k).unwrap();
    for call in calls {
        match *call {
            TokenCall::Transfer { source, destination, amount, .. } => {
                let s = find(accounts, source);
                let d = find(accounts, destination);
                let from = token_balance(&accounts[s].data);
                assert!(from >= amount);
                set_token_balance(&mut accounts[s].data, from - amount);
                let to = token_balance(&accounts[d].data);
                set_token_balance(&mut accounts[d].data, to + amount);
            }
            TokenCall::CloseAccount { account, destination, .. } => {
                let a = find(accounts, account);
                let d = find(accounts, destination);
                assert_eq!(token_balance(&accounts[a].data), 0);
                accounts[d].lamports += accounts[a].lamports;
                accounts[a].lamports = 0;
                accounts[a].data = vec![];
            }
            TokenCall::SetOwner { .. } => {}
        }
    }
}

fn initialized(amount: u64, expected: u64) -> Vec<AccountView> {
    let mut accounts = init_accounts(amount);
    let out = Processor::process(&program_id(), &accounts, &instruction(0, expected)).unwrap();
    match out {
        Outcome::Init(plan) => accounts[3].data = plan.escrow_data,
        _ => panic!("expected an init plan"),
    }
    accounts
}

#[test]
fn decode_rejects_short_input() {
    for n in 0..9usize {
        let bytes = vec![0u8; n];
        assert_eq!(EscrowInstruction::unpack(&bytes), Err(EscrowError::InvalidInstruction));
    }
}

#[test]
fn decode_rejects_unknown_tag() {
    assert_eq!(EscrowInstruction::unpack(&instruction(2, 7)), Err(EscrowError::InvalidInstruction));
    assert_eq!(EscrowInstruction::unpack(&instruction(255, 7)), Err(EscrowError::InvalidInstruction));
}

#[test]
fn decode_reads_little_endian_amount() {
    assert_eq!(
        EscrowInstruction::unpack(&[0, 1, 2, 0, 0, 0, 0, 0, 0]),
        Ok(EscrowInstruction::InitEscrow { amount: 513 })
    );
    let mut bytes = instruction(1, u64::MAX - 5);
    bytes.push(42);
    assert_eq!(EscrowInstruction::unpack(&bytes), Ok(EscrowInstruction::Exchange { amount: u64::MAX - 5 }));
}

#[test]
fn error_codes() {
    assert_eq!(EscrowError::InvalidInstruction.code(), 0);
    assert_eq!(EscrowError::NotRentExempt.code(), 1);
    assert_eq!(EscrowError::EscrowAmountMismatch.code(), 2);
    assert_eq!(EscrowError::AmountOverflow.code(), 3);
}

#[test]
fn record_round_trip() {
    let e = Escrow {
        is_initialized: true,
        initializer_pubkey: key(11),
        temp_token_account_pubkey: key(12),
        initializer_token_to_receive_account_pubkey: key(13),
        expected_amount: 0x0102_0304_0506_0708,
    };
    let bytes = e.to_bytes();
    assert_eq!(bytes.len(), 105);
    assert_eq!(bytes[0], 1);
    assert_eq!(&bytes[1..33], &key(11));
    assert_eq!(&bytes[97..105], &[8, 7, 6, 5, 4, 3, 2, 1]);
    assert_eq!(Escrow::unpack_unchecked(&bytes), Ok(e));
    assert_eq!(Escrow::unpack(&bytes), Ok(e));
    let mut buf = vec![0xffu8; 105];
    assert_eq!(Escrow::pack(e, &mut buf), Ok(()));
    assert_eq!(buf, bytes);
}

#[test]
fn record_decoding_errors() {
    let zeroed = vec![0u8; 105];
    assert_eq!(Escrow::unpack(&zeroed), Err(ProcessError::UninitializedAccount));
    assert!(!Escrow::unpack_unchecked(&zeroed).unwrap().is_initialized);
    assert_eq!(Escrow::unpack_unchecked(&[0u8; 104]), Err(ProcessError::InvalidAccountData));
    let mut bad_flag = vec![0u8; 105];
    bad_flag[0] = 2;
    assert_eq!(Escrow::unpack_unchecked(&bad_flag), Err(ProcessError::InvalidAccountData));
    let e = Escrow::unpack_unchecked(&zeroed).unwrap();
    let mut short = vec![0u8; 10];
    assert_eq!(Escrow::pack(e, &mut short), Err(ProcessError::InvalidAccountData));
    assert_eq!(short, vec![0u8; 10]);
}

#[test]
fn delegate_matches_runtime_derivation() {
    let pid = program_id();
    let d = AuthorityDelegate::derive(&pid).unwrap();
    let (pda, bump) = Pubkey::find_program_address(&[b"escrow"], &Pubkey::new_from_array(pid));
    assert_eq!(d.address, pda.to_bytes());
    assert_eq!(d.bump, bump);
    assert_ne!(d.address, pid);
    assert_eq!(seed_label(), b"escrow".to_vec());
    assert_eq!(d.signer_seeds(), vec![b"escrow".to_vec(), vec![bump]]);
}

#[test]
fn init_writes_record_and_hands_over_custody() {
    let accounts = init_accounts(100);
    let out = Processor::process(&program_id(), &accounts, &instruction(0, 50)).unwrap();
    let delegate = AuthorityDelegate::derive(&program_id()).unwrap();
    match out {
        Outcome::Init(plan) => {
            let rec = Escrow::unpack(&plan.escrow_data).unwrap();
            assert_eq!(
                rec,
                Escrow {
                    is_initialized: true,
                    initializer_pubkey: key(INITIALIZER),
                    temp_token_account_pubkey: key(CUSTODY),
                    initializer_token_to_receive_account_pubkey: key(INIT_RECEIVE),
                    expected_amount: 50,
                }
            );
            assert_eq!(
                plan.call,
                TokenCall::SetOwner {
                    token_program: token_id(),
                    account: key(CUSTODY),
                    new_owner: delegate.address,
                    authority: Authority::Signer(key(INITIALIZER)),
                }
            );
        }
        _ => panic!("expected an init plan"),
    }
}

#[test]
fn init_requires_initializer_signature() {
    let mut accounts = init_accounts(100);
    accounts[0].is_signer = false;
    let before = accounts[3].data.clone();
    assert_eq!(
        Processor::process(&program_id(), &accounts, &instruction(0, 50)).unwrap_err(),
        ProcessError::MissingRequiredSignature
    );
    assert_eq!(accounts[3].data, before);
}

#[test]
fn init_rejects_initialized_record() {
    let accounts = initialized(100, 50);
    assert_eq!(
        Processor::process(&program_id(), &accounts, &instruction(0, 70)).unwrap_err(),
        ProcessError::AccountAlreadyInitialized
    );
}

#[test]
fn init_rejects_receive_account_of_other_program() {
    let mut accounts = init_accounts(100);
    accounts[2].owner = key(77);
    assert_eq!(
        Processor::process(&program_id(), &accounts, &instruction(0, 50)).unwrap_err(),
        ProcessError::IncorrectProgramId
    );
}

#[test]
fn init_rejects_record_below_rent_minimum() {
    let mut accounts = init_accounts(100);
    accounts[3].rent_exempt = false;
    assert_eq!(
        Processor::process(&program_id(), &accounts, &instruction(0, 50)).unwrap_err(),
        ProcessError::Escrow(EscrowError::NotRentExempt)
    );
}

#[test]
fn init_rejects_missing_accounts_and_bad_record_size() {
    let accounts = init_accounts(100);
    assert_eq!(
        Processor::process(&program_id(), &accounts[..4], &instruction(0, 50)).unwrap_err(),
        ProcessError::NotEnoughAccountKeys
    );
    assert_eq!(
        Processor::process(&program_id(), &[], &instruction(0, 50)).unwrap_err(),
        ProcessError::NotEnoughAccountKeys
    );
    let mut odd = init_accounts(100);
    odd[3].data = vec![0u8; 10];
    assert_eq!(
        Processor::process(&program_id(), &odd, &instruction(0, 50)).unwrap_err(),
        ProcessError::InvalidAccountData
    );
}

#[test]
fn process_rejects_bad_instruction() {
    let accounts = init_accounts(100);
    assert_eq!(
        Processor::process(&program_id(), &accounts, &[0, 1, 2]).unwrap_err(),
        ProcessError::Escrow(EscrowError::InvalidInstruction)
    );
}

#[test]
fn exchange_rejects_amount_mismatch() {
    let init = initialized(100, 50);
    let accounts = exchange_accounts(&init, 80);
    assert_eq!(
        Processor::process(&program_id(), &accounts, &instruction(1, 99)).unwrap_err(),
        ProcessError::Escrow(EscrowError::EscrowAmountMismatch)
    );
}

#[test]
fn exchange_rejects_substituted_accounts() {
    let init = initialized(100, 50);
    for index in [3usize, 4, 5] {
        let mut accounts = exchange_accounts(&init, 80);
        accounts[index].key = key(99);
        assert_eq!(
            Processor::process(&program_id(), &accounts, &instruction(1, 100)).unwrap_err(),
            ProcessError::InvalidAccountData
        );
    }
}

#[test]
fn exchange_requires_taker_signature_and_initialized_record() {
    let init = initialized(100, 50);
    let mut unsigned = exchange_accounts(&init, 80);
    unsigned[0].is_signer = false;
    assert_eq!(
        Processor::process(&program_id(), &unsigned, &instruction(1, 100)).unwrap_err(),
        ProcessError::MissingRequiredSignature
    );
    let fresh = init_accounts(100);
    let never = exchange_accounts(&fresh, 80);
    assert_eq!(
        Processor::process(&program_id(), &never, &instruction(1, 100)).unwrap_err(),
        ProcessError::UninitializedAccount
    );
    let mut closed_custody = exchange_accounts(&init, 80);
    closed_custody[3].data = token_data(key(MINT_A), key(INITIALIZER), 100, 0);
    assert_eq!(
        Processor::process(&program_id(), &closed_custody, &instruction(1, 100)).unwrap_err(),
        ProcessError::UninitializedAccount
    );
    assert_eq!(
        Processor::process(&program_id(), &exchange_accounts(&init, 80)[..8], &instruction(1, 100)).unwrap_err(),
        ProcessError::NotEnoughAccountKeys
    );
}

#[test]
fn exchange_end_to_end() {
    let init = initialized(100, 50);
    let mut accounts = exchange_accounts(&init, 80);
    let main_before = accounts[4].lamports;
    let custody_lamports = accounts[3].lamports;
    let record_lamports = accounts[6].lamports;
    let out = Processor::process(&program_id(), &accounts, &instruction(1, 100)).unwrap();
    let plan = match out {
        Outcome::Exchange(plan) => plan,
        _ => panic!("expected an exchange plan"),
    };
    assert_eq!(plan.calls.len(), 3);
    run_calls(&mut accounts, &plan.calls);
    let (left, right) = accounts.split_at_mut(6);
    Processor::close_escrow(&mut left[4], &mut right[0]).unwrap();

    assert_eq!(token_balance(&accounts[5].data), 50);
    assert_eq!(token_balance(&accounts[2].data), 100);
    assert_eq!(token_balance(&accounts[1].data), 30);
    assert_eq!(accounts[3].lamports, 0);
    assert!(accounts[3].data.is_empty());
    assert_eq!(accounts[6].lamports, 0);
    assert!(accounts[6].data.is_empty());
    assert_eq!(accounts[4].lamports, main_before + custody_lamports + record_lamports);

    // The same instruction again finds no record to act on.
    assert!(Processor::process(&program_id(), &accounts, &instruction(1, 100)).is_err());
    let mut replay = exchange_accounts(&init, 80);
    replay[6] = accounts[6].clone();
    assert_eq!(
        Processor::process(&program_id(), &replay, &instruction(1, 100)).unwrap_err(),
        ProcessError::InvalidAccountData
    );
}

#[test]
fn close_escrow_overflow_leaves_accounts() {
    let mut main = account(key(1), key(0), false, u64::MAX - 1, vec![]);
    let mut record = account(key(2), key(0), false, 2, vec![1u8; 105]);
    assert_eq!(
        Processor::close_escrow(&mut main, &mut record),
        Err(ProcessError::Escrow(EscrowError::AmountOverflow))
    );
    assert_eq!(main.lamports, u64::MAX - 1);
    assert_eq!(record.lamports, 2);
    assert_eq!(record.data.len(), 105);
    let mut record = account(key(2), key(0), false, 1, vec![1u8; 105]);
    assert_eq!(Processor::close_escrow(&mut main, &mut record), Ok(()));
    assert_eq!(main.lamports, u64::MAX);
    assert_eq!(record.lamports, 0);
    assert!(record.data.is_empty());
}
