use solana_program::pubkey::Pubkey;

use lockrion_issuance_v1_1::error::LockrionError;
use lockrion_issuance_v1_1::pda::{derive_issuance_pda, derive_user_pda};
use lockrion_issuance_v1_1::processor::{Processor, SuppliedAccount, TokenAccountData};
use lockrion_issuance_v1_1::state::{IssuanceState, UserState};
use lockrion_issuance_v1_1::token::{platform_authority, spl_token_program_id, system_program_id};

const PROGRAM_ID: [u8; 32] = [7u8; 32];
const LOCK_MINT: [u8; 32] = [11u8; 32];
const REWARD_MINT: [u8; 32] = [12u8; 32];
const DEPOSIT_ESCROW_KEY: [u8; 32] = [13u8; 32];
const REWARD_ESCROW_KEY: [u8; 32] = [14u8; 32];
const TREASURY_KEY: [u8; 32] = [15u8; 32];
const ISSUER_ATA_KEY: [u8; 32] = [20u8; 32];

const DAY: i64 = 86_400;

fn token_account_bytes(mint: [u8; 32], authority: [u8; 32], amount: u64) -> Vec<u8> {
    let mut d = vec![0u8; 165];
    d[0..32].copy_from_slice(&mint);
    d[32..64].copy_from_slice(&authority);
    d[64..72].copy_from_slice(&amount.to_le_bytes());
    d[108] = 1;
    d
}

fn init(reserve: u128, start: i64, maturity: i64) -> (IssuanceState, [u8; 32]) {
    let payer = SuppliedAccount {
        key: platform_authority(),
        owner: [0u8; 32],
        is_signer: true,
    };
    let (pda, _bump) = derive_issuance_pda(&PROGRAM_ID, &payer.key, start, reserve).unwrap();
    let issuance_acc = SuppliedAccount {
        key: pda,
        owner: system_program_id(),
        is_signer: false,
    };
    let state = Processor::init_issuance(
        &PROGRAM_ID,
        &payer,
        &issuance_acc,
        0,
        &LOCK_MINT,
        &REWARD_MINT,
        &DEPOSIT_ESCROW_KEY,
        &REWARD_ESCROW_KEY,
        &TREASURY_KEY,
        &system_program_id(),
        reserve,
        start,
        maturity,
    )
    .unwrap();
    (state, pda)
}

fn issuance_account(pda: [u8; 32]) -> SuppliedAccount {
    SuppliedAccount {
        key: pda,
        owner: PROGRAM_ID,
        is_signer: false,
    }
}

fn fund(state: &IssuanceState, pda: [u8; 32], now: i64, amount: u64) -> Result<IssuanceState, LockrionError> {
    let issuer = SuppliedAccount {
        key: state.issuer_address,
        owner: [0u8; 32],
        is_signer: true,
    };
    let ata = TokenAccountData {
        key: ISSUER_ATA_KEY,
        data: token_account_bytes(REWARD_MINT, state.issuer_address, amount),
    };
    let escrow = TokenAccountData {
        key: REWARD_ESCROW_KEY,
        data: token_account_bytes(REWARD_MINT, pda, 0),
    };
    let (parsed, action) = Processor::fund_reserve(
        &PROGRAM_ID,
        &issuance_account(pda),
        &state.pack().unwrap(),
        &issuer,
        &ata,
        &escrow,
        &spl_token_program_id(),
        now,
        amount,
    )?;
    assert_eq!(action.amount, amount);
    assert_eq!(action.source, ISSUER_ATA_KEY);
    assert_eq!(action.dest, REWARD_ESCROW_KEY);
    // the host performs the transfer; the vault then holds the amount
    let escrow_after = token_account_bytes(REWARD_MINT, pda, amount);
    Processor::fund_reserve_finish(&parsed, &escrow_after)
}

struct DepositOutcome {
    state: IssuanceState,
    user: UserState,
    created: bool,
    amount: u64,
}

fn deposit(
    state: &IssuanceState,
    pda: [u8; 32],
    participant: [u8; 32],
    existing: Option<&UserState>,
    now: i64,
    amount: u64,
) -> Result<DepositOutcome, LockrionError> {
    let (upda, _ubump) = derive_user_pda(&PROGRAM_ID, &pda, &participant).unwrap();
    let (user_acc, user_data) = match existing {
        Some(u) => (
            SuppliedAccount {
                key: upda,
                owner: PROGRAM_ID,
                is_signer: false,
            },
            u.pack().unwrap(),
        ),
        None => (
            SuppliedAccount {
                key: upda,
                owner: system_program_id(),
                is_signer: false,
            },
            Vec::new(),
        ),
    };
    let part = SuppliedAccount {
        key: participant,
        owner: [0u8; 32],
        is_signer: true,
    };
    let ata = TokenAccountData {
        key: [21u8; 32],
        data: token_account_bytes(LOCK_MINT, participant, 1_000_000),
    };
    let escrow = TokenAccountData {
        key: DEPOSIT_ESCROW_KEY,
        data: token_account_bytes(LOCK_MINT, pda, 0),
    };
    let (s2, u2, created, action) = Processor::deposit(
        &PROGRAM_ID,
        &issuance_account(pda),
        &state.pack().unwrap(),
        &user_acc,
        &user_data,
        &part,
        &ata,
        &escrow,
        &spl_token_program_id(),
        &system_program_id(),
        now,
        amount,
    )?;
    Ok(DepositOutcome {
        state: s2,
        user: u2,
        created,
        amount: action.amount,
    })
}

fn claim(
    state: &IssuanceState,
    pda: [u8; 32],
    user: &UserState,
    now: i64,
) -> Result<(IssuanceState, UserState, u64), LockrionError> {
    let (upda, _ubump) = derive_user_pda(&PROGRAM_ID, &pda, &user.participant).unwrap();
    let user_acc = SuppliedAccount {
        key: upda,
        owner: PROGRAM_ID,
        is_signer: false,
    };
    let part = SuppliedAccount {
        key: user.participant,
        owner: [0u8; 32],
        is_signer: true,
    };
    let ata = TokenAccountData {
        key: [22u8; 32],
        data: token_account_bytes(REWARD_MINT, user.participant, 0),
    };
    let escrow = TokenAccountData {
        key: REWARD_ESCROW_KEY,
        data: token_account_bytes(REWARD_MINT, pda, state.reserve_total as u64),
    };
    let (s2, u2, action) = Processor::claim_reward(
        &PROGRAM_ID,
        &issuance_account(pda),
        &state.pack().unwrap(),
        &user_acc,
        &user.pack().unwrap(),
        &part,
        &ata,
        &escrow,
        &spl_token_program_id(),
        now,
    )?;
    Ok((s2, u2, action.amount))
}

fn withdraw(
    state: &IssuanceState,
    pda: [u8; 32],
    user: &UserState,
    now: i64,
) -> Result<(IssuanceState, UserState, u64), LockrionError> {
    let (upda, _ubump) = derive_user_pda(&PROGRAM_ID, &pda, &user.participant).unwrap();
    let user_acc = SuppliedAccount {
        key: upda,
        owner: PROGRAM_ID,
        is_signer: false,
    };
    let part = SuppliedAccount {
        key: user.participant,
        owner: [0u8; 32],
        is_signer: true,
    };
    let ata = TokenAccountData {
        key: [23u8; 32],
        data: token_account_bytes(LOCK_MINT, user.participant, 0),
    };
    let escrow = TokenAccountData {
        key: DEPOSIT_ESCROW_KEY,
        data: token_account_bytes(LOCK_MINT, pda, 1_000_000),
    };
    let (s2, u2, action) = Processor::withdraw_deposit(
        &PROGRAM_ID,
        &issuance_account(pda),
        &state.pack().unwrap(),
        &user_acc,
        &user.pack().unwrap(),
        &part,
        &ata,
        &escrow,
        &spl_token_program_id(),
        now,
    )?;
    Ok((s2, u2, action.amount))
}

fn sweep(
    state: &IssuanceState,
    pda: [u8; 32],
    treasury_key: [u8; 32],
    escrow_balance: u64,
    now: i64,
) -> Result<(IssuanceState, Option<u64>), LockrionError> {
    let escrow = TokenAccountData {
        key: REWARD_ESCROW_KEY,
        data: token_account_bytes(REWARD_MINT, pda, escrow_balance),
    };
    let treasury = TokenAccountData {
        key: treasury_key,
        data: token_account_bytes(REWARD_MINT, [30u8; 32], 0),
    };
    let (s2, action) = Processor::sweep(
        &PROGRAM_ID,
        &issuance_account(pda),
        &state.pack().unwrap(),
        &escrow,
        &treasury,
        &spl_token_program_id(),
        now,
    )?;
    Ok((s2, action.map(|a| a.amount)))
}

fn reclaim(
    state: &IssuanceState,
    pda: [u8; 32],
    escrow_balance: u64,
    now: i64,
) -> Result<(IssuanceState, u64), LockrionError> {
    let issuer = SuppliedAccount {
        key: state.issuer_address,
        owner: [0u8; 32],
        is_signer: true,
    };
    let ata = TokenAccountData {
        key: ISSUER_ATA_KEY,
        data: token_account_bytes(REWARD_MINT, state.issuer_address, 0),
    };
    let escrow = TokenAccountData {
        key: REWARD_ESCROW_KEY,
        data: token_account_bytes(REWARD_MINT, pda, escrow_balance),
    };
    let (s2, action) = Processor::reclaim(
        &PROGRAM_ID,
        &issuance_account(pda),
        &state.pack().unwrap(),
        &issuer,
        &ata,
        &escrow,
        &spl_token_program_id(),
        now,
    )?;
    Ok((s2, action.amount))
}

// ==============================
// Happy-path scenarios
// ==============================

#[test]
fn single_participant_claims_whole_reserve() {
    let (state, pda) = init(1000, 10, 10 + DAY);
    let state = fund(&state, pda, 1, 1000).unwrap();
    assert_eq!(state.reserve_funded, 1);

    let d = deposit(&state, pda, [1u8; 32], None, 10, 100).unwrap();
    assert!(d.created);
    assert_eq!(d.amount, 100);
    assert_eq!(d.state.total_locked, 100);
    assert_eq!(d.user.locked_amount, 100);

    let (s2, u2, reward) = claim(&d.state, pda, &d.user, 10 + DAY).unwrap();
    assert_eq!(reward, 1000);
    assert_eq!(u2.reward_claimed, 1);
    assert_eq!(s2.total_weight_accum, 100);
}

#[test]
fn two_participants_split_proportionally() {
    let (state, pda) = init(1000, 10, 10 + DAY);
    let state = fund(&state, pda, 1, 1000).unwrap();

    let d1 = deposit(&state, pda, [1u8; 32], None, 10, 100).unwrap();
    let d2 = deposit(&d1.state, pda, [2u8; 32], None, 10, 300).unwrap();
    assert_eq!(d2.state.total_locked, 400);

    let (s3, _u1, r1) = claim(&d2.state, pda, &d1.user, 10 + DAY).unwrap();
    let (_s4, _u2, r2) = claim(&s3, pda, &d2.user, 10 + DAY).unwrap();
    assert_eq!(r1, 250);
    assert_eq!(r2, 750);
    assert_eq!(r1 + r2, 1000);
}

#[test]
fn withdraw_returns_whole_principal() {
    let (state, pda) = init(1000, 10, 10 + DAY);
    let state = fund(&state, pda, 1, 1000).unwrap();
    let d = deposit(&state, pda, [1u8; 32], None, 10, 100).unwrap();

    let (s2, u2, refunded) = withdraw(&d.state, pda, &d.user, 10 + DAY).unwrap();
    assert_eq!(refunded, 100);
    assert_eq!(u2.locked_amount, 0);
    assert_eq!(s2.total_locked, 0);
}

#[test]
fn zero_participation_reclaim_returns_reserve() {
    let (state, pda) = init(1000, 10, 10 + DAY);
    let state = fund(&state, pda, 1, 1000).unwrap();

    let (s2, amount) = reclaim(&state, pda, 1000, 10 + DAY).unwrap();
    assert_eq!(amount, 1000);
    assert_eq!(s2.reclaim_executed, 1);

    // a later sweep on the reclaimed issuance has no participation to sweep
    let r = sweep(&s2, pda, TREASURY_KEY, 0, 10 + DAY + s2.claim_window);
    // (sweep refuses an issuance whose weight ledger never accumulated)
    assert!(matches!(r, Err(LockrionError::NoParticipation)));
    assert_eq!(LockrionError::NoParticipation.code(), 42);
}

#[test]
fn sweep_transfers_entire_balance() {
    let (state, pda) = init(1000, 10, 10 + DAY);
    let state = fund(&state, pda, 1, 1000).unwrap();
    let d = deposit(&state, pda, [1u8; 32], None, 10, 100).unwrap();
    // the claim finalizes the weight ledger
    let (s2, _u2, _r) = claim(&d.state, pda, &d.user, 10 + DAY).unwrap();
    assert_eq!(s2.total_weight_accum, 100);

    let after_window = 10 + DAY + s2.claim_window;
    let (s3, amount) = sweep(&s2, pda, TREASURY_KEY, 777, after_window).unwrap();
    assert_eq!(amount, Some(777));
    assert_eq!(s3.sweep_executed, 1);

    // a second sweep is rejected by the one-shot latch
    let again = sweep(&s3, pda, TREASURY_KEY, 3, after_window + 1);
    assert!(matches!(again, Err(LockrionError::SweepAlreadyExecuted)));
}

#[test]
fn empty_vault_sweep_succeeds_and_latches() {
    let (state, pda) = init(1000, 10, 10 + DAY);
    let state = fund(&state, pda, 1, 1000).unwrap();
    let d = deposit(&state, pda, [1u8; 32], None, 10, 100).unwrap();
    let (s2, _u2, _r) = claim(&d.state, pda, &d.user, 10 + DAY).unwrap();

    let after_window = 10 + DAY + s2.claim_window;
    let (s3, amount) = sweep(&s2, pda, TREASURY_KEY, 0, after_window).unwrap();
    assert_eq!(amount, None);
    assert_eq!(s3.sweep_executed, 1);
}

#[test]
fn same_inputs_same_outcome() {
    let run = || {
        let (state, pda) = init(1000, 10, 10 + DAY);
        let state = fund(&state, pda, 1, 1000).unwrap();
        let d = deposit(&state, pda, [1u8; 32], None, 10, 100).unwrap();
        let (s2, u2, reward) = claim(&d.state, pda, &d.user, 10 + DAY).unwrap();
        (s2.pack().unwrap(), u2.pack().unwrap(), reward)
    };
    let a = run();
    let b = run();
    assert_eq!(a, b);
}

// ==============================
// Failure gates, with their stable codes
// ==============================

#[test]
fn double_withdraw_rejected_without_changes() {
    let (state, pda) = init(1000, 10, 10 + DAY);
    let state = fund(&state, pda, 1, 1000).unwrap();
    let d = deposit(&state, pda, [1u8; 32], None, 10, 100).unwrap();
    let (s2, u2, _) = withdraw(&d.state, pda, &d.user, 10 + DAY).unwrap();

    let again = withdraw(&s2, pda, &u2, 10 + DAY + 1);
    assert!(matches!(again, Err(LockrionError::InvalidAmount)));
    assert_eq!(LockrionError::InvalidAmount.code(), 23);
}

#[test]
fn deposit_overflow_rejected() {
    let (state, pda) = init(1000, 10, 10 + DAY);
    let mut state = fund(&state, pda, 1, 1000).unwrap();
    state.total_locked = u128::MAX;

    let r = deposit(&state, pda, [1u8; 32], None, 10, 1);
    assert!(matches!(r, Err(LockrionError::ArithmeticOverflow)));
    assert_eq!(LockrionError::ArithmeticOverflow.code(), 60);
}

#[test]
fn mutated_seed_endianness_rejected() {
    let payer = SuppliedAccount {
        key: platform_authority(),
        owner: [0u8; 32],
        is_signer: true,
    };
    let reserve: u128 = 1000;
    let start: i64 = 10;
    // derive with the timestamp's byte order reversed: a different address
    let (wrong, _bump) = Pubkey::find_program_address(
        &[
            b"issuance",
            &payer.key,
            &start.to_be_bytes(),
            &reserve.to_le_bytes(),
        ],
        &Pubkey::new_from_array(PROGRAM_ID),
    );
    let issuance_acc = SuppliedAccount {
        key: wrong.to_bytes(),
        owner: system_program_id(),
        is_signer: false,
    };
    let r = Processor::init_issuance(
        &PROGRAM_ID,
        &payer,
        &issuance_acc,
        0,
        &LOCK_MINT,
        &REWARD_MINT,
        &DEPOSIT_ESCROW_KEY,
        &REWARD_ESCROW_KEY,
        &TREASURY_KEY,
        &system_program_id(),
        reserve,
        start,
        10 + DAY,
    );
    assert!(matches!(r, Err(LockrionError::InvalidPda)));
    assert_eq!(LockrionError::InvalidPda.code(), 51);
}

#[test]
fn deposit_window_boundaries() {
    let (state, pda) = init(1000, 10, 10 + DAY);
    let state = fund(&state, pda, 1, 1000).unwrap();

    // at the exact start the deposit succeeds
    assert!(deposit(&state, pda, [1u8; 32], None, 10, 5).is_ok());
    // one before the start it has not opened
    let early = deposit(&state, pda, [1u8; 32], None, 9, 5);
    assert!(matches!(early, Err(LockrionError::DepositWindowNotStarted)));
    // at maturity it has closed
    let late = deposit(&state, pda, [1u8; 32], None, 10 + DAY, 5);
    assert!(matches!(late, Err(LockrionError::DepositWindowClosed)));
    assert_eq!(LockrionError::DepositWindowClosed.code(), 21);
}

#[test]
fn claim_window_boundaries() {
    let (state, pda) = init(1000, 10, 10 + DAY);
    let state = fund(&state, pda, 1, 1000).unwrap();
    let d = deposit(&state, pda, [1u8; 32], None, 10, 100).unwrap();
    let maturity = 10 + DAY;
    let window_end = maturity + d.state.claim_window;

    // one second before maturity the window has not started
    let early = claim(&d.state, pda, &d.user, maturity - 1);
    assert!(matches!(early, Err(LockrionError::ClaimWindowNotStarted)));
    assert_eq!(LockrionError::ClaimWindowNotStarted.code(), 30);
    // at maturity it succeeds
    assert!(claim(&d.state, pda, &d.user, maturity).is_ok());
    // one second before the window end it still succeeds
    assert!(claim(&d.state, pda, &d.user, window_end - 1).is_ok());
    // at the window end it has closed
    let late = claim(&d.state, pda, &d.user, window_end);
    assert!(matches!(late, Err(LockrionError::ClaimWindowClosed)));
    assert_eq!(LockrionError::ClaimWindowClosed.code(), 31);
}

#[test]
fn funding_gates() {
    let (state, pda) = init(1000, 10, 10 + DAY);

    // the amount must equal the reserve exactly
    let wrong = fund(&state, pda, 1, 999);
    assert!(matches!(wrong, Err(LockrionError::InvalidFundingAmount)));
    assert_eq!(LockrionError::InvalidFundingAmount.code(), 12);

    // funding closes at the start timestamp
    let late = fund(&state, pda, 10, 1000);
    assert!(matches!(late, Err(LockrionError::FundingWindowClosed)));
    assert_eq!(LockrionError::FundingWindowClosed.code(), 13);

    // funding is one-shot
    let state = fund(&state, pda, 1, 1000).unwrap();
    let again = fund(&state, pda, 2, 1000);
    assert!(matches!(again, Err(LockrionError::ReserveAlreadyFunded)));
    assert_eq!(LockrionError::ReserveAlreadyFunded.code(), 10);
}

#[test]
fn funding_balance_verification() {
    let (state, pda) = init(1000, 10, 10 + DAY);
    // the post-transfer vault balance must equal the reserve exactly
    let short = token_account_bytes(REWARD_MINT, pda, 999);
    let r = Processor::fund_reserve_finish(&state, &short);
    assert!(matches!(r, Err(LockrionError::InvariantViolation)));
    assert_eq!(LockrionError::InvariantViolation.code(), 63);
}

#[test]
fn deposit_requires_funded_reserve() {
    let (state, pda) = init(1000, 10, 10 + DAY);
    let r = deposit(&state, pda, [1u8; 32], None, 10, 5);
    assert!(matches!(r, Err(LockrionError::ReserveNotFunded)));
    assert_eq!(LockrionError::ReserveNotFunded.code(), 11);
}

#[test]
fn init_gates() {
    // only the platform authority may initialize
    let outsider = SuppliedAccount {
        key: [9u8; 32],
        owner: [0u8; 32],
        is_signer: true,
    };
    let issuance_acc = SuppliedAccount {
        key: [1u8; 32],
        owner: system_program_id(),
        is_signer: false,
    };
    let r = Processor::init_issuance(
        &PROGRAM_ID,
        &outsider,
        &issuance_acc,
        0,
        &LOCK_MINT,
        &REWARD_MINT,
        &DEPOSIT_ESCROW_KEY,
        &REWARD_ESCROW_KEY,
        &TREASURY_KEY,
        &system_program_id(),
        1000,
        10,
        10 + DAY,
    );
    assert!(matches!(r, Err(LockrionError::UnauthorizedCaller)));
    assert_eq!(LockrionError::UnauthorizedCaller.code(), 50);

    // a zero reserve is rejected
    let payer = SuppliedAccount {
        key: platform_authority(),
        owner: [0u8; 32],
        is_signer: true,
    };
    let r = Processor::init_issuance(
        &PROGRAM_ID,
        &payer,
        &issuance_acc,
        0,
        &LOCK_MINT,
        &REWARD_MINT,
        &DEPOSIT_ESCROW_KEY,
        &REWARD_ESCROW_KEY,
        &TREASURY_KEY,
        &system_program_id(),
        0,
        10,
        10 + DAY,
    );
    assert!(matches!(r, Err(LockrionError::InvalidAmount)));
}

#[test]
fn init_computes_the_day_horizon() {
    let (state, _pda) = init(1000, 10, 10 + 90 * DAY);
    assert_eq!(state.final_day_index, 90);
    assert_eq!(state.claim_window, 90 * DAY);
    let (state, _pda) = init(1000, 100, 50);
    assert_eq!(state.final_day_index, 0);
}

#[test]
fn wrong_token_program_rejected() {
    let (state, pda) = init(1000, 10, 10 + DAY);
    let issuer = SuppliedAccount {
        key: state.issuer_address,
        owner: [0u8; 32],
        is_signer: true,
    };
    let ata = TokenAccountData {
        key: ISSUER_ATA_KEY,
        data: token_account_bytes(REWARD_MINT, state.issuer_address, 1000),
    };
    let escrow = TokenAccountData {
        key: REWARD_ESCROW_KEY,
        data: token_account_bytes(REWARD_MINT, pda, 0),
    };
    let r = Processor::fund_reserve(
        &PROGRAM_ID,
        &issuance_account(pda),
        &state.pack().unwrap(),
        &issuer,
        &ata,
        &escrow,
        &[99u8; 32],
        1,
        1000,
    );
    assert!(matches!(r, Err(LockrionError::InvalidTokenProgram)));
    assert_eq!(LockrionError::InvalidTokenProgram.code(), 52);
}

#[test]
fn substituted_deposit_escrow_rejected() {
    let (state, pda) = init(1000, 10, 10 + DAY);
    let state = fund(&state, pda, 1, 1000).unwrap();
    let (upda, _b) = derive_user_pda(&PROGRAM_ID, &pda, &[1u8; 32]).unwrap();
    let user_acc = SuppliedAccount {
        key: upda,
        owner: system_program_id(),
        is_signer: false,
    };
    let part = SuppliedAccount {
        key: [1u8; 32],
        owner: [0u8; 32],
        is_signer: true,
    };
    let ata = TokenAccountData {
        key: [21u8; 32],
        data: token_account_bytes(LOCK_MINT, [1u8; 32], 500),
    };
    // an escrow account other than the one bound in the record
    let fake_escrow = TokenAccountData {
        key: [77u8; 32],
        data: token_account_bytes(LOCK_MINT, pda, 0),
    };
    let r = Processor::deposit(
        &PROGRAM_ID,
        &issuance_account(pda),
        &state.pack().unwrap(),
        &user_acc,
        &Vec::new(),
        &part,
        &ata,
        &fake_escrow,
        &spl_token_program_id(),
        &system_program_id(),
        10,
        5,
    );
    assert!(matches!(r, Err(LockrionError::InvalidEscrowAccount)));
    assert_eq!(LockrionError::InvalidEscrowAccount.code(), 55);
}

#[test]
fn substituted_platform_treasury_rejected() {
    let (state, pda) = init(1000, 10, 10 + DAY);
    let state = fund(&state, pda, 1, 1000).unwrap();
    let d = deposit(&state, pda, [1u8; 32], None, 10, 100).unwrap();
    let after_window = 10 + DAY + d.state.claim_window;

    let r = sweep(&d.state, pda, [88u8; 32], 500, after_window);
    assert!(matches!(r, Err(LockrionError::InvalidPlatformTreasury)));
    assert_eq!(LockrionError::InvalidPlatformTreasury.code(), 56);
}

#[test]
fn wrong_vault_mint_and_authority_rejected() {
    let (state, pda) = init(1000, 10, 10 + DAY);
    let issuer = SuppliedAccount {
        key: state.issuer_address,
        owner: [0u8; 32],
        is_signer: true,
    };
    let ata = TokenAccountData {
        key: ISSUER_ATA_KEY,
        data: token_account_bytes(REWARD_MINT, state.issuer_address, 1000),
    };
    // vault of the wrong asset type
    let wrong_mint = TokenAccountData {
        key: REWARD_ESCROW_KEY,
        data: token_account_bytes(LOCK_MINT, pda, 0),
    };
    let r = Processor::fund_reserve(
        &PROGRAM_ID,
        &issuance_account(pda),
        &state.pack().unwrap(),
        &issuer,
        &ata,
        &wrong_mint,
        &spl_token_program_id(),
        1,
        1000,
    );
    assert!(matches!(r, Err(LockrionError::InvalidMint)));
    assert_eq!(LockrionError::InvalidMint.code(), 53);

    // vault whose authority is not the issuance address
    let wrong_auth = TokenAccountData {
        key: REWARD_ESCROW_KEY,
        data: token_account_bytes(REWARD_MINT, [66u8; 32], 0),
    };
    let r = Processor::fund_reserve(
        &PROGRAM_ID,
        &issuance_account(pda),
        &state.pack().unwrap(),
        &issuer,
        &ata,
        &wrong_auth,
        &spl_token_program_id(),
        1,
        1000,
    );
    assert!(matches!(r, Err(LockrionError::InvalidAuthority)));
    assert_eq!(LockrionError::InvalidAuthority.code(), 54);
}

#[test]
fn mismatched_user_record_rejected() {
    let (state, pda) = init(1000, 10, 10 + DAY);
    let state = fund(&state, pda, 1, 1000).unwrap();
    let d = deposit(&state, pda, [1u8; 32], None, 10, 100).unwrap();

    // a record with broken cross-references is rejected as a user record
    let (upda, ubump) = derive_user_pda(&PROGRAM_ID, &pda, &[1u8; 32]).unwrap();
    let mut broken = d.user;
    broken.bump = ubump;
    broken.issuance = [55u8; 32];
    let user_acc = SuppliedAccount {
        key: upda,
        owner: PROGRAM_ID,
        is_signer: false,
    };
    let part = SuppliedAccount {
        key: [1u8; 32],
        owner: [0u8; 32],
        is_signer: true,
    };
    let ata = TokenAccountData {
        key: [22u8; 32],
        data: token_account_bytes(REWARD_MINT, [1u8; 32], 0),
    };
    let escrow = TokenAccountData {
        key: REWARD_ESCROW_KEY,
        data: token_account_bytes(REWARD_MINT, pda, 1000),
    };
    let r = Processor::claim_reward(
        &PROGRAM_ID,
        &issuance_account(pda),
        &d.state.pack().unwrap(),
        &user_acc,
        &broken.pack().unwrap(),
        &part,
        &ata,
        &escrow,
        &spl_token_program_id(),
        10 + DAY,
    );
    assert!(matches!(r, Err(LockrionError::InvalidUserStateAccount)));
    assert_eq!(LockrionError::InvalidUserStateAccount.code(), 57);
}

#[test]
fn claim_is_one_shot() {
    let (state, pda) = init(1000, 10, 10 + DAY);
    let state = fund(&state, pda, 1, 1000).unwrap();
    let d = deposit(&state, pda, [1u8; 32], None, 10, 100).unwrap();
    let (s2, u2, _) = claim(&d.state, pda, &d.user, 10 + DAY).unwrap();

    let again = claim(&s2, pda, &u2, 10 + DAY + 1);
    assert!(matches!(again, Err(LockrionError::AlreadyClaimed)));
    assert_eq!(LockrionError::AlreadyClaimed.code(), 32);
}

#[test]
fn reclaim_gates() {
    let (state, pda) = init(1000, 10, 10 + DAY);
    let state = fund(&state, pda, 1, 1000).unwrap();

    // with participation, reclaim is inappropriate
    let d = deposit(&state, pda, [1u8; 32], None, 10, 100).unwrap();
    let r = reclaim(&d.state, pda, 1000, 10 + DAY);
    assert!(matches!(r, Err(LockrionError::NoParticipation)));

    // reclaim is one-shot
    let (s2, _) = reclaim(&state, pda, 1000, 10 + DAY).unwrap();
    let again = reclaim(&s2, pda, 1000, 10 + DAY + 1);
    assert!(matches!(again, Err(LockrionError::ReclaimAlreadyExecuted)));
    assert_eq!(LockrionError::ReclaimAlreadyExecuted.code(), 41);

    // an empty vault cannot be reclaimed
    let r = reclaim(&state, pda, 0, 10 + DAY);
    assert!(matches!(r, Err(LockrionError::InvalidAmount)));
}

#[test]
fn withdraw_before_maturity_rejected() {
    let (state, pda) = init(1000, 10, 10 + DAY);
    let state = fund(&state, pda, 1, 1000).unwrap();
    let d = deposit(&state, pda, [1u8; 32], None, 10, 100).unwrap();

    let r = withdraw(&d.state, pda, &d.user, 10 + DAY - 1);
    assert!(matches!(r, Err(LockrionError::DepositWindowNotClosed)));
    assert_eq!(LockrionError::DepositWindowNotClosed.code(), 22);
}

#[test]
fn sweep_before_window_end_rejected() {
    let (state, pda) = init(1000, 10, 10 + DAY);
    let state = fund(&state, pda, 1, 1000).unwrap();
    let d = deposit(&state, pda, [1u8; 32], None, 10, 100).unwrap();
    let (s2, _u2, _r) = claim(&d.state, pda, &d.user, 10 + DAY).unwrap();

    let before = 10 + DAY + s2.claim_window - 1;
    let r = sweep(&s2, pda, TREASURY_KEY, 500, before);
    assert!(matches!(r, Err(LockrionError::ClaimWindowClosed)));
    assert_eq!(LockrionError::SweepAlreadyExecuted.code(), 40);
}

#[test]
fn repeated_deposits_accumulate_weight_daily() {
    // deposits made during a day contribute their full amount to the next
    // day's weight tick, whatever their order within the day
    let (state, pda) = init(1000, 0, 10 * DAY);
    let state = fund(&state, pda, -5, 1000).unwrap();

    let d1 = deposit(&state, pda, [1u8; 32], None, 100, 40).unwrap();
    let d2 = deposit(&d1.state, pda, [1u8; 32], Some(&d1.user), 200, 60).unwrap();
    assert!(!d2.created);
    assert_eq!(d2.user.locked_amount, 100);
    assert_eq!(d2.state.total_weight_accum, 0);

    // a day later, the whole locked amount earns one day of weight
    let d3 = deposit(&d2.state, pda, [1u8; 32], Some(&d2.user), DAY + 1, 1).unwrap();
    assert_eq!(d3.state.total_weight_accum, 100);
    assert_eq!(d3.user.user_weight_accum, 100);
    assert_eq!(d3.state.last_day_index, 1);
}
