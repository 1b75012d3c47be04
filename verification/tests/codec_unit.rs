use lockrion_issuance_v1_1::error::LockrionError;
use lockrion_issuance_v1_1::instruction::{parse_instruction, serialize_instruction, LockrionInstruction};
use lockrion_issuance_v1_1::state::{
    IssuanceState, UserState, ISSUANCE_STATE_SIZE, USER_STATE_SIZE, STATE_VERSION,
};

fn sample_issuance() -> IssuanceState {
    IssuanceState {
        version: STATE_VERSION,
        bump: 254,
        issuer_address: [3u8; 32],
        lock_mint: [4u8; 32],
        reward_mint: [5u8; 32],
        deposit_escrow: [6u8; 32],
        reward_escrow: [7u8; 32],
        platform_treasury: [8u8; 32],
        reserve_total: 123_456_789_012_345_678_901_234_567_890,
        start_ts: -12345,
        maturity_ts: 9_999_999_999,
        claim_window: 7_776_000,
        final_day_index: 115_826,
        total_locked: 42,
        total_weight_accum: 99,
        last_day_index: 17,
        reserve_funded: 1,
        sweep_executed: 0,
        reclaim_executed: 1,
        reserved_padding: [0u8; 7],
    }
}

#[test]
fn issuance_pack_then_unpack_is_identity() {
    let s = sample_issuance();
    let bytes = s.pack().unwrap();
    assert_eq!(bytes.len(), ISSUANCE_STATE_SIZE);
    let back = IssuanceState::unpack(&bytes).unwrap();
    assert_eq!(back, s);
}

#[test]
fn issuance_unpack_then_pack_reproduces_buffer() {
    // Any valid buffer, including nonzero reserved padding, comes back
    // byte for byte.
    let mut buf = vec![0u8; ISSUANCE_STATE_SIZE];
    buf[0] = STATE_VERSION;
    for i in 1..ISSUANCE_STATE_SIZE {
        buf[i] = (i % 251) as u8;
    }
    let s = IssuanceState::unpack(&buf).unwrap();
    let again = s.pack().unwrap();
    assert_eq!(again, buf);
}

#[test]
fn issuance_field_offsets_are_fixed() {
    let s = sample_issuance();
    let bytes = s.pack().unwrap();
    assert_eq!(bytes[0], STATE_VERSION);
    assert_eq!(bytes[1], 254);
    assert_eq!(&bytes[2..34], &[3u8; 32]);
    assert_eq!(&bytes[162..194], &[8u8; 32]);
    assert_eq!(
        &bytes[194..210],
        &123_456_789_012_345_678_901_234_567_890u128.to_le_bytes()
    );
    assert_eq!(&bytes[210..218], &(-12345i64).to_le_bytes());
    assert_eq!(&bytes[226..234], &7_776_000i64.to_le_bytes());
    assert_eq!(&bytes[234..242], &115_826u64.to_le_bytes());
    assert_eq!(&bytes[242..258], &42u128.to_le_bytes());
    assert_eq!(&bytes[274..282], &17u64.to_le_bytes());
    assert_eq!(bytes[282], 1);
    assert_eq!(bytes[283], 0);
    assert_eq!(bytes[284], 1);
    assert_eq!(&bytes[285..292], &[0u8; 7]);
}

#[test]
fn issuance_unpack_rejects_wrong_size() {
    let buf = vec![STATE_VERSION; ISSUANCE_STATE_SIZE - 1];
    let r = IssuanceState::unpack(&buf);
    assert!(matches!(r, Err(LockrionError::InvalidAccountSize)));
    assert_eq!(LockrionError::InvalidAccountSize.code(), 71);
}

#[test]
fn issuance_unpack_rejects_wrong_version() {
    let mut buf = vec![0u8; ISSUANCE_STATE_SIZE];
    buf[0] = 2;
    let r = IssuanceState::unpack(&buf);
    assert!(matches!(r, Err(LockrionError::InvalidStateVersion)));
    assert_eq!(LockrionError::InvalidStateVersion.code(), 70);
}

#[test]
fn user_pack_then_unpack_is_identity() {
    let u = UserState {
        version: STATE_VERSION,
        bump: 250,
        issuance: [9u8; 32],
        participant: [10u8; 32],
        locked_amount: 77,
        user_weight_accum: 88,
        user_last_day_index: 3,
        reward_claimed: 1,
        reserved_padding: [0u8; 5],
    };
    let bytes = u.pack().unwrap();
    assert_eq!(bytes.len(), USER_STATE_SIZE);
    let back = UserState::unpack(&bytes).unwrap();
    assert_eq!(back, u);
}

#[test]
fn user_unpack_then_pack_reproduces_buffer() {
    let mut buf = vec![0u8; USER_STATE_SIZE];
    buf[0] = STATE_VERSION;
    for i in 1..USER_STATE_SIZE {
        buf[i] = (255 - i) as u8;
    }
    let u = UserState::unpack(&buf).unwrap();
    let again = u.pack().unwrap();
    assert_eq!(again, buf);
}

#[test]
fn user_unpack_rejects_wrong_size_and_version() {
    let r = UserState::unpack(&[STATE_VERSION]);
    assert!(matches!(r, Err(LockrionError::InvalidAccountSize)));
    let mut buf = vec![0u8; USER_STATE_SIZE];
    buf[0] = 9;
    let r = UserState::unpack(&buf);
    assert!(matches!(r, Err(LockrionError::InvalidStateVersion)));
}

#[test]
fn instruction_parse_init_issuance() {
    let mut payload = vec![0u8];
    payload.extend_from_slice(&1000u128.to_le_bytes());
    payload.extend_from_slice(&10i64.to_le_bytes());
    payload.extend_from_slice(&(10i64 + 86400).to_le_bytes());
    let ix = parse_instruction(&payload).unwrap();
    assert_eq!(
        ix,
        LockrionInstruction::InitIssuance {
            reserve_total: 1000,
            start_ts: 10,
            maturity_ts: 10 + 86400,
        }
    );
    assert_eq!(serialize_instruction(&ix), payload);
}

#[test]
fn instruction_parse_fund_and_deposit() {
    let mut payload = vec![1u8];
    payload.extend_from_slice(&777u64.to_le_bytes());
    assert_eq!(
        parse_instruction(&payload).unwrap(),
        LockrionInstruction::FundReserve { amount: 777 }
    );
    payload[0] = 2;
    assert_eq!(
        parse_instruction(&payload).unwrap(),
        LockrionInstruction::Deposit { amount: 777 }
    );
    assert_eq!(serialize_instruction(&LockrionInstruction::Deposit { amount: 777 }), payload);
}

#[test]
fn instruction_parse_bare_tags() {
    assert_eq!(parse_instruction(&[3]).unwrap(), LockrionInstruction::ClaimReward);
    assert_eq!(parse_instruction(&[4]).unwrap(), LockrionInstruction::WithdrawDeposit);
    assert_eq!(parse_instruction(&[5]).unwrap(), LockrionInstruction::Sweep);
    assert_eq!(
        parse_instruction(&[6]).unwrap(),
        LockrionInstruction::ZeroParticipationReclaim
    );
}

#[test]
fn instruction_rejects_malformed_payloads() {
    assert!(matches!(parse_instruction(&[]), Err(LockrionError::InvalidInstruction)));
    assert!(matches!(parse_instruction(&[7]), Err(LockrionError::InvalidInstruction)));
    // a trailing byte is rejected: the payload must be exactly the parameters
    assert!(matches!(parse_instruction(&[3, 0]), Err(LockrionError::InvalidInstruction)));
    assert!(matches!(parse_instruction(&[1, 1, 2, 3]), Err(LockrionError::InvalidInstruction)));
    assert_eq!(LockrionError::InvalidInstruction.code(), 0);
}

#[test]
fn error_codes_are_stable() {
    let expected: [(LockrionError, u32); 29] = [
        (LockrionError::InvalidInstruction, 0),
        (LockrionError::ReserveAlreadyFunded, 10),
        (LockrionError::ReserveNotFunded, 11),
        (LockrionError::InvalidFundingAmount, 12),
        (LockrionError::FundingWindowClosed, 13),
        (LockrionError::DepositWindowNotStarted, 20),
        (LockrionError::DepositWindowClosed, 21),
        (LockrionError::DepositWindowNotClosed, 22),
        (LockrionError::InvalidAmount, 23),
        (LockrionError::ClaimWindowNotStarted, 30),
        (LockrionError::ClaimWindowClosed, 31),
        (LockrionError::AlreadyClaimed, 32),
        (LockrionError::SweepAlreadyExecuted, 40),
        (LockrionError::ReclaimAlreadyExecuted, 41),
        (LockrionError::NoParticipation, 42),
        (LockrionError::UnauthorizedCaller, 50),
        (LockrionError::InvalidPda, 51),
        (LockrionError::InvalidTokenProgram, 52),
        (LockrionError::InvalidMint, 53),
        (LockrionError::InvalidAuthority, 54),
        (LockrionError::InvalidEscrowAccount, 55),
        (LockrionError::InvalidPlatformTreasury, 56),
        (LockrionError::InvalidUserStateAccount, 57),
        (LockrionError::ArithmeticOverflow, 60),
        (LockrionError::ArithmeticUnderflow, 61),
        (LockrionError::DivisionByZero, 62),
        (LockrionError::InvariantViolation, 63),
        (LockrionError::InvalidStateVersion, 70),
        (LockrionError::InvalidAccountSize, 71),
    ];
    for (e, code) in expected {
        assert_eq!(e.code(), code);
    }
}
