//! The lifecycle engine: seven operation handlers, each a pure transition.
//!
//! Every handler is a function from the supplied accounts, the records they
//! hold, the clock reading and the operation parameters to either an error
//! code or the new records plus the asset transfer the host must perform.
//! Nothing is mutated on failure; the host persists records and performs the
//! transfer only on success, so a failed downstream transfer rolls the whole
//! operation back.

use vstd::prelude::*;

use crate::accumulator::{
    raw_day_index, bounded_day_index, spec_raw_day_index, spec_bounded_day_index,
};
use crate::addr::{addr_eq, Address};
use crate::error::LockrionError;
use crate::state::{IssuanceState, IssuanceView, UserState, UserView};

verus! {

/// Fixed claim window: 90 accounting days.
pub const CLAIM_WINDOW_SECONDS: i64 = 90 * 86_400;

/// An externally supplied account as the handlers see it: its address, the
/// program that owns it, and whether it signed the operation.
#[derive(Clone, Copy, Debug, PartialEq, Eq)]
pub struct SuppliedAccount {
    pub key: Address,
    pub owner: Address,
    pub is_signer: bool,
}

/// Model of a supplied account.
#[verifier::ext_equal]
pub struct SuppliedAccountView {
    pub key: Seq<u8>,
    pub owner: Seq<u8>,
    pub is_signer: bool,
}

impl View for SuppliedAccount {
    type V = SuppliedAccountView;

    open spec fn view(&self) -> SuppliedAccountView {
        SuppliedAccountView { key: self.key@, owner: self.owner@, is_signer: self.is_signer }
    }
}

/// An asset account as supplied to a handler: its address and its raw
/// account bytes.
#[derive(Clone, Debug, PartialEq, Eq)]
pub struct TokenAccountData {
    pub key: Address,
    pub data: Vec<u8>,
}

/// Model of a supplied asset account.
#[verifier::ext_equal]
pub struct TokenAccountDataView {
    pub key: Seq<u8>,
    pub data: Seq<u8>,
}

impl View for TokenAccountData {
    type V = TokenAccountDataView;

    open spec fn view(&self) -> TokenAccountDataView {
        TokenAccountDataView { key: self.key@, data: self.data@ }
    }
}

/// The one asset transfer a successful operation asks the host to perform.
#[derive(Clone, Copy, Debug, PartialEq, Eq)]
pub struct TransferAction {
    pub source: Address,
    pub dest: Address,
    pub authority: Address,
    /// Whether the transfer is signed by the issuance record's derived
    /// address rather than by a caller.
    pub pda_signed: bool,
    pub amount: u64,
}

/// Model of a transfer action.
#[verifier::ext_equal]
pub struct TransferView {
    pub source: Seq<u8>,
    pub dest: Seq<u8>,
    pub authority: Seq<u8>,
    pub pda_signed: bool,
    pub amount: u64,
}

impl View for TransferAction {
    type V = TransferView;

    open spec fn view(&self) -> TransferView {
        TransferView {
            source: self.source@,
            dest: self.dest@,
            authority: self.authority@,
            pda_signed: self.pda_signed,
            amount: self.amount,
        }
    }
}

/// What finalizing the global accumulator at `now` yields: the bounded
/// current day index, and the record with the weight ledger advanced to it.
/// Weight grows by `total_locked` per elapsed day; a clock at or before the
/// last seen day changes nothing.
pub open spec fn spec_finalize_global(v: IssuanceView, now: i64) -> Result<
    (IssuanceView, u64),
    LockrionError,
> {
    match spec_raw_day_index(now, v.start_ts) {
        Err(e) => Err(e),
        Ok(raw) => {
            let current = spec_bounded_day_index(raw, v.final_day_index);
            if current > v.last_day_index {
                let inc = v.total_locked * (current - v.last_day_index);
                if inc > u128::MAX {
                    Err(LockrionError::ArithmeticOverflow)
                } else if v.total_weight_accum + inc > u128::MAX {
                    Err(LockrionError::ArithmeticOverflow)
                } else {
                    let v2 = IssuanceView {
                        total_weight_accum: (v.total_weight_accum + inc) as u128,
                        last_day_index: current,
                        ..v
                    };
                    if v2.last_day_index > v.final_day_index {
                        Err(LockrionError::InvariantViolation)
                    } else {
                        Ok((v2, current))
                    }
                }
            } else {
                if v.last_day_index > v.final_day_index {
                    Err(LockrionError::InvariantViolation)
                } else {
                    Ok((v, current))
                }
            }
        },
    }
}

/// What advancing a participant's accumulator to the bounded day index
/// `current` yields: weight grows by `locked_amount` per day since the
/// participant was last refreshed; an index at or before the last seen one
/// changes nothing.
pub open spec fn spec_advance_user(u: UserView, current: u64) -> Result<UserView, LockrionError> {
    if current > u.user_last_day_index {
        let inc = u.locked_amount * (current - u.user_last_day_index);
        if inc > u128::MAX {
            Err(LockrionError::ArithmeticOverflow)
        } else if u.user_weight_accum + inc > u128::MAX {
            Err(LockrionError::ArithmeticOverflow)
        } else {
            Ok(UserView {
                user_weight_accum: (u.user_weight_accum + inc) as u128,
                user_last_day_index: current,
                ..u
            })
        }
    } else {
        Ok(u)
    }
}

/// Both accumulators finalized in order: global first, then the participant
/// advanced to the resulting day index.
pub open spec fn spec_apply_accumulators(v: IssuanceView, u: UserView, now: i64) -> Result<
    (IssuanceView, UserView),
    LockrionError,
> {
    match spec_finalize_global(v, now) {
        Err(e) => Err(e),
        Ok((v2, current)) => match spec_advance_user(u, current) {
            Err(e) => Err(e),
            Ok(u2) => Ok((v2, u2)),
        },
    }
}

/// The stateless engine: the seven operation handlers and the accumulator
/// steps they share.
pub struct Processor;

impl Processor {
    /// Advance the global weight ledger to the clock reading `now` and
    /// return the bounded current day index. On any error the record is
    /// unchanged.
    pub fn finalize_global(issuance: &mut IssuanceState, now: i64) -> (r: Result<
        u64,
        LockrionError,
    >)
        ensures
            match spec_finalize_global(old(issuance)@, now) {
                Ok((v2, cur)) => r == Ok::<u64, LockrionError>(cur) && final(issuance)@ == v2,
                Err(e) => r == Err::<u64, LockrionError>(e) && final(issuance)@ == old(issuance)@,
            },
    {
        let raw = match raw_day_index(now, issuance.start_ts) {
            Ok(raw) => raw,
            Err(e) => {
                return Err(e);
            },
        };
        let current = bounded_day_index(raw, issuance.final_day_index);
        if current > issuance.last_day_index {
            let days_elapsed = current - issuance.last_day_index;
            let inc = match issuance.total_locked.checked_mul(days_elapsed as u128) {
                Some(inc) => inc,
                None => {
                    return Err(LockrionError::ArithmeticOverflow);
                },
            };
            let new_weight = match issuance.total_weight_accum.checked_add(inc) {
                Some(w) => w,
                None => {
                    return Err(LockrionError::ArithmeticOverflow);
                },
            };
            if current > issuance.final_day_index {
                return Err(LockrionError::InvariantViolation);
            }
            issuance.total_weight_accum = new_weight;
            issuance.last_day_index = current;
            assert(issuance@ =~= spec_finalize_global(old(issuance)@, now)->Ok_0.0);
            Ok(current)
        } else {
            if issuance.last_day_index > issuance.final_day_index {
                return Err(LockrionError::InvariantViolation);
            }
            Ok(current)
        }
    }

    /// Advance one participant's weight to the bounded day index `current`.
    /// On any error the record is unchanged.
    pub fn update_user_with_current(user: &mut UserState, current: u64) -> (r: Result<
        (),
        LockrionError,
    >)
        ensures
            match spec_advance_user(old(user)@, current) {
                Ok(u2) => r == Ok::<(), LockrionError>(()) && final(user)@ == u2,
                Err(e) => r == Err::<(), LockrionError>(e) && final(user)@ == old(user)@,
            },
    {
        if current > user.user_last_day_index {
            let days_elapsed = current - user.user_last_day_index;
            let inc = match user.locked_amount.checked_mul(days_elapsed as u128) {
                Some(inc) => inc,
                None => {
                    return Err(LockrionError::ArithmeticOverflow);
                },
            };
            let new_weight = match user.user_weight_accum.checked_add(inc) {
                Some(w) => w,
                None => {
                    return Err(LockrionError::ArithmeticOverflow);
                },
            };
            user.user_weight_accum = new_weight;
            user.user_last_day_index = current;
            assert(user@ =~= spec_advance_user(old(user)@, current)->Ok_0);
        }
        Ok(())
    }

    /// Finalize the global ledger, then refresh the participant to the
    /// resulting day index. On any error both records are unchanged.
    pub fn apply_accumulators(issuance: &mut IssuanceState, user: &mut UserState, now: i64) -> (r:
        Result<(), LockrionError>)
        ensures
            match spec_apply_accumulators(old(issuance)@, old(user)@, now) {
                Ok((v2, u2)) => r == Ok::<(), LockrionError>(()) && final(issuance)@ == v2
                    && final(user)@ == u2,
                Err(e) => r == Err::<(), LockrionError>(e) && final(issuance)@ == old(issuance)@
                    && final(user)@ == old(user)@,
            },
    {
        let mut issuance2 = *issuance;
        let mut user2 = *user;
        let current = match Self::finalize_global(&mut issuance2, now) {
            Ok(c) => c,
            Err(e) => {
                return Err(e);
            },
        };
        match Self::update_user_with_current(&mut user2, current) {
            Ok(()) => {
                *issuance = issuance2;
                *user = user2;
                Ok(())
            },
            Err(e) => Err(e),
        }
    }
}

/// What funding the reserve decides, in validation order: the supplied
/// asset subprogram, record ownership, the record bytes, the address
/// binding, the one-shot latch, the caller's authority, the funding window,
/// the exact amount, and the vault bindings; on success, the parsed record
/// and the issuer-signed transfer of the full reserve into the reward
/// vault.
pub open spec fn spec_fund_reserve(
    program_id: Seq<u8>,
    issuance: SuppliedAccountView,
    issuance_data: Seq<u8>,
    issuer: SuppliedAccountView,
    issuer_reward_ata: TokenAccountDataView,
    reward_escrow: TokenAccountDataView,
    token_program: Seq<u8>,
    now: i64,
    amount: u64,
) -> Result<(IssuanceView, TransferView), LockrionError> {
    if token_program != crate::token::spec_spl_token_id() {
        Err(LockrionError::InvalidTokenProgram)
    } else if issuance.owner != program_id {
        Err(LockrionError::InvalidEscrowAccount)
    } else if issuance_data.len() != 292 {
        Err(LockrionError::InvalidAccountSize)
    } else if issuance_data[0] != crate::state::STATE_VERSION {
        Err(LockrionError::InvalidStateVersion)
    } else {
        let v = crate::state::spec_parse_issuance(issuance_data);
        let pda = crate::pda::spec_issuance_pda(
            program_id,
            v.issuer_address,
            v.start_ts,
            v.reserve_total,
        );
        let pda_key = match pda {
            Some(p) => p.0,
            None => Seq::<u8>::empty(),
        };
        let pda_bump = match pda {
            Some(p) => p.1,
            None => 0u8,
        };
        if pda is None || issuance.key != pda_key || v.bump != pda_bump {
            Err(LockrionError::InvalidPda)
        } else if v.reserve_funded == 1 {
            Err(LockrionError::ReserveAlreadyFunded)
        } else if !issuer.is_signer {
            Err(LockrionError::UnauthorizedCaller)
        } else if issuer.key != v.issuer_address {
            Err(LockrionError::UnauthorizedCaller)
        } else if now >= v.start_ts {
            Err(LockrionError::FundingWindowClosed)
        } else if amount as u128 != v.reserve_total {
            Err(LockrionError::InvalidFundingAmount)
        } else if crate::token::spec_validate_mint(reward_escrow.data, v.reward_mint) is Err {
            Err(crate::token::spec_validate_mint(reward_escrow.data, v.reward_mint)->Err_0)
        } else if crate::token::spec_validate_mint(issuer_reward_ata.data, v.reward_mint) is Err {
            Err(crate::token::spec_validate_mint(issuer_reward_ata.data, v.reward_mint)->Err_0)
        } else if crate::token::spec_validate_authority(reward_escrow.data, pda_key) is Err {
            Err(crate::token::spec_validate_authority(reward_escrow.data, pda_key)->Err_0)
        } else {
            Ok(
                (
                    v,
                    TransferView {
                        source: issuer_reward_ata.key,
                        dest: reward_escrow.key,
                        authority: issuer.key,
                        pda_signed: false,
                        amount,
                    },
                ),
            )
        }
    }
}

/// What completing the funding decides, once the host reports the
/// post-transfer vault bytes: the vault balance must equal the reserve
/// exactly, and the funding latch is then set.
pub open spec fn spec_fund_reserve_finish(v: IssuanceView, reward_escrow_data: Seq<u8>) -> Result<
    IssuanceView,
    LockrionError,
> {
    if !crate::token::spec_token_account_ok(reward_escrow_data) {
        Err(LockrionError::InvalidEscrowAccount)
    } else if vstd::bytes::spec_u64_from_le_bytes(reward_escrow_data.subrange(64, 72)) as u128
        != v.reserve_total {
        Err(LockrionError::InvariantViolation)
    } else {
        Ok(IssuanceView { reserve_funded: 1u8, ..v })
    }
}

impl Processor {
    /// Validate a reserve-funding operation and decide the transfer it
    /// requires. Nothing is mutated here: on success the host performs the
    /// returned issuer-signed transfer, then completes with
    /// `fund_reserve_finish`.
    pub fn fund_reserve(
        program_id: &Address,
        issuance: &SuppliedAccount,
        issuance_data: &[u8],
        issuer: &SuppliedAccount,
        issuer_reward_ata: &TokenAccountData,
        reward_escrow: &TokenAccountData,
        token_program: &Address,
        now: i64,
        amount: u64,
    ) -> (r: Result<(IssuanceState, TransferAction), LockrionError>)
        ensures
            match r {
                Ok(p) => spec_fund_reserve(
                    program_id@,
                    issuance@,
                    issuance_data@,
                    issuer@,
                    issuer_reward_ata@,
                    reward_escrow@,
                    token_program@,
                    now,
                    amount,
                ) == Ok::<(IssuanceView, TransferView), LockrionError>((p.0@, p.1@)),
                Err(e) => spec_fund_reserve(
                    program_id@,
                    issuance@,
                    issuance_data@,
                    issuer@,
                    issuer_reward_ata@,
                    reward_escrow@,
                    token_program@,
                    now,
                    amount,
                ) == Err::<(IssuanceView, TransferView), LockrionError>(e),
            },
    {
        match crate::token::validate_token_program(token_program) {
            Err(e) => {
                return Err(e);
            },
            Ok(()) => {},
        }
        if !addr_eq(&issuance.owner, program_id) {
            return Err(LockrionError::InvalidEscrowAccount);
        }
        let state = match IssuanceState::unpack(issuance_data) {
            Ok(s) => s,
            Err(e) => {
                return Err(e);
            },
        };
        let pda = match crate::pda::derive_issuance_pda(
            program_id,
            &state.issuer_address,
            state.start_ts,
            state.reserve_total,
        ) {
            Some(p) => p,
            None => {
                return Err(LockrionError::InvalidPda);
            },
        };
        if !addr_eq(&issuance.key, &pda.0) || state.bump != pda.1 {
            return Err(LockrionError::InvalidPda);
        }
        if state.reserve_funded == 1 {
            return Err(LockrionError::ReserveAlreadyFunded);
        }
        if !issuer.is_signer {
            return Err(LockrionError::UnauthorizedCaller);
        }
        if !addr_eq(&issuer.key, &state.issuer_address) {
            return Err(LockrionError::UnauthorizedCaller);
        }
        if now >= state.start_ts {
            return Err(LockrionError::FundingWindowClosed);
        }
        if (amount as u128) != state.reserve_total {
            return Err(LockrionError::InvalidFundingAmount);
        }
        match crate::token::validate_token_account_mint(
            reward_escrow.data.as_slice(),
            &state.reward_mint,
        ) {
            Err(e) => {
                return Err(e);
            },
            Ok(()) => {},
        }
        match crate::token::validate_token_account_mint(
            issuer_reward_ata.data.as_slice(),
            &state.reward_mint,
        ) {
            Err(e) => {
                return Err(e);
            },
            Ok(()) => {},
        }
        match crate::token::validate_token_account_authority(
            reward_escrow.data.as_slice(),
            &pda.0,
        ) {
            Err(e) => {
                return Err(e);
            },
            Ok(()) => {},
        }
        let action = TransferAction {
            source: issuer_reward_ata.key,
            dest: reward_escrow.key,
            authority: issuer.key,
            pda_signed: false,
            amount,
        };
        proof {
            assert(action@ =~= TransferView {
                source: issuer_reward_ata@.key,
                dest: reward_escrow@.key,
                authority: issuer@.key,
                pda_signed: false,
                amount,
            });
        }
        Ok((state, action))
    }

    /// Complete a reserve funding after the host performed the transfer:
    /// verify that the vault now holds exactly the reserve, and set the
    /// one-shot funding latch.
    pub fn fund_reserve_finish(issuance: &IssuanceState, reward_escrow_data: &[u8]) -> (r: Result<
        IssuanceState,
        LockrionError,
    >)
        ensures
            match r {
                Ok(s) => spec_fund_reserve_finish(issuance@, reward_escrow_data@) == Ok::<
                    IssuanceView,
                    LockrionError,
                >(s@),
                Err(e) => spec_fund_reserve_finish(issuance@, reward_escrow_data@) == Err::<
                    IssuanceView,
                    LockrionError,
                >(e),
            },
    {
        let escrow = match crate::token::token_account_view(reward_escrow_data) {
            Some(v) => v,
            None => {
                return Err(LockrionError::InvalidEscrowAccount);
            },
        };
        if (escrow.amount as u128) != issuance.reserve_total {
            return Err(LockrionError::InvariantViolation);
        }
        let s = IssuanceState { reserve_funded: 1, ..*issuance };
        proof {
            assert(s@ =~= IssuanceView { reserve_funded: 1u8, ..issuance@ });
        }
        Ok(s)
    }
}

/// A fresh participant record as a first deposit creates it: zero amounts,
/// the claim latch clear, and the starting day index set to the issuance's
/// last seen day, so no weight accrues for days before the participant
/// existed.
pub open spec fn spec_fresh_user(
    bump: u8,
    issuance_key: Seq<u8>,
    participant: Seq<u8>,
    last_day_index: u64,
) -> UserView {
    UserView {
        version: crate::state::STATE_VERSION,
        bump: bump,
        issuance: issuance_key,
        participant: participant,
        locked_amount: 0u128,
        user_weight_accum: 0u128,
        user_last_day_index: last_day_index,
        reward_claimed: 0u8,
        reserved_padding: Seq::new(5, |i: int| 0u8),
    }
}

/// The record buffer a deposit works on for an account that already exists:
/// the supplied bytes unchanged when already initialized (version byte 1),
/// else initialized in place: version, bump, the cross-references, and the
/// participant's starting day index set to the issuance's last seen day;
/// amounts, the claim latch and the padding keep their bytes.
pub open spec fn spec_user_init_bytes(
    data: Seq<u8>,
    bump: u8,
    issuance_key: Seq<u8>,
    participant: Seq<u8>,
    last_day_index: u64,
) -> Seq<u8>
    recommends
        data.len() == 112,
        issuance_key.len() == 32,
        participant.len() == 32,
{
    if data[0] == crate::state::STATE_VERSION {
        data
    } else {
        seq![crate::state::STATE_VERSION, bump] + issuance_key + participant + data.subrange(
            66,
            98,
        ) + vstd::bytes::spec_u64_to_le_bytes(last_day_index) + data.subrange(106, 112)
    }
}

/// What a deposit decides, in validation order; on success: the issuance
/// with the ledger finalized and the amount added to the total, the
/// participant record (created lazily on first deposit) refreshed and
/// increased, whether the record account must first be allocated, and the
/// participant-signed transfer into the deposit vault.
pub open spec fn spec_deposit(
    program_id: Seq<u8>,
    issuance: SuppliedAccountView,
    issuance_data: Seq<u8>,
    user: SuppliedAccountView,
    user_data: Seq<u8>,
    participant: SuppliedAccountView,
    participant_lock_ata: TokenAccountDataView,
    deposit_escrow: TokenAccountDataView,
    token_program: Seq<u8>,
    system_program: Seq<u8>,
    now: i64,
    amount: u64,
) -> Result<(IssuanceView, UserView, bool, TransferView), LockrionError> {
    if amount == 0 {
        Err(LockrionError::InvalidAmount)
    } else if system_program != crate::token::spec_system_program_id() {
        Err(LockrionError::InvalidInstruction)
    } else if token_program != crate::token::spec_spl_token_id() {
        Err(LockrionError::InvalidTokenProgram)
    } else if issuance.owner != program_id {
        Err(LockrionError::InvalidEscrowAccount)
    } else if issuance_data.len() != 292 {
        Err(LockrionError::InvalidAccountSize)
    } else if issuance_data[0] != crate::state::STATE_VERSION {
        Err(LockrionError::InvalidStateVersion)
    } else {
        let v = crate::state::spec_parse_issuance(issuance_data);
        let pda = crate::pda::spec_issuance_pda(
            program_id,
            v.issuer_address,
            v.start_ts,
            v.reserve_total,
        );
        let pda_key = match pda {
            Some(p) => p.0,
            None => Seq::<u8>::empty(),
        };
        let pda_bump = match pda {
            Some(p) => p.1,
            None => 0u8,
        };
        if pda is None || issuance.key != pda_key || v.bump != pda_bump {
            Err(LockrionError::InvalidPda)
        } else if v.reserve_funded != 1 {
            Err(LockrionError::ReserveNotFunded)
        } else if now < v.start_ts {
            Err(LockrionError::DepositWindowNotStarted)
        } else if now >= v.maturity_ts {
            Err(LockrionError::DepositWindowClosed)
        } else if deposit_escrow.key != v.deposit_escrow {
            Err(LockrionError::InvalidEscrowAccount)
        } else if crate::token::spec_validate_mint(deposit_escrow.data, v.lock_mint) is Err {
            Err(crate::token::spec_validate_mint(deposit_escrow.data, v.lock_mint)->Err_0)
        } else if crate::token::spec_validate_mint(participant_lock_ata.data, v.lock_mint)
            is Err {
            Err(crate::token::spec_validate_mint(participant_lock_ata.data, v.lock_mint)->Err_0)
        } else if crate::token::spec_validate_authority(deposit_escrow.data, pda_key) is Err {
            Err(crate::token::spec_validate_authority(deposit_escrow.data, pda_key)->Err_0)
        } else {
            let upda = crate::pda::spec_user_pda(program_id, pda_key, participant.key);
            let upda_key = match upda {
                Some(p) => p.0,
                None => Seq::<u8>::empty(),
            };
            let upda_bump = match upda {
                Some(p) => p.1,
                None => 0u8,
            };
            if upda is None || user.key != upda_key {
                Err(LockrionError::InvalidPda)
            } else {
                let created = user.owner != program_id;
                if created && user.owner != crate::token::spec_system_program_id() {
                    Err(LockrionError::InvalidUserStateAccount)
                } else if !created && user_data.len() != 112 {
                    Err(LockrionError::InvalidAccountSize)
                } else {
                    let u0 = if created {
                        spec_fresh_user(upda_bump, issuance.key, participant.key, v.last_day_index)
                    } else {
                        crate::state::spec_parse_user(
                            spec_user_init_bytes(
                                user_data,
                                upda_bump,
                                issuance.key,
                                participant.key,
                                v.last_day_index,
                            ),
                        )
                    };
                    if u0.bump != upda_bump {
                        Err(LockrionError::InvalidPda)
                    } else if u0.issuance != issuance.key || u0.participant != participant.key {
                        Err(LockrionError::InvalidUserStateAccount)
                    } else if !participant.is_signer {
                        Err(LockrionError::UnauthorizedCaller)
                    } else {
                        match spec_apply_accumulators(v, u0, now) {
                            Err(e) => Err(e),
                            Ok((v2, u2)) => {
                                if v2.total_locked + amount > u128::MAX {
                                    Err(LockrionError::ArithmeticOverflow)
                                } else if u2.locked_amount + amount > u128::MAX {
                                    Err(LockrionError::ArithmeticOverflow)
                                } else {
                                    Ok(
                                        (
                                            IssuanceView {
                                                total_locked: (v2.total_locked + amount) as u128,
                                                ..v2
                                            },
                                            UserView {
                                                locked_amount: (u2.locked_amount + amount) as u128,
                                                ..u2
                                            },
                                            created,
                                            TransferView {
                                                source: participant_lock_ata.key,
                                                dest: deposit_escrow.key,
                                                authority: participant.key,
                                                pda_signed: false,
                                                amount,
                                            },
                                        ),
                                    )
                                }
                            },
                        }
                    }
                }
            }
        }
    }
}

impl Processor {
    /// Handle a deposit: validate every supplied account, create the
    /// participant record lazily on first deposit, finalize both
    /// accumulators, add the amount to both records, and decide the
    /// participant-signed transfer into the deposit vault. Nothing is
    /// mutated on failure.
    pub fn deposit(
        program_id: &Address,
        issuance: &SuppliedAccount,
        issuance_data: &[u8],
        user: &SuppliedAccount,
        user_data: &[u8],
        participant: &SuppliedAccount,
        participant_lock_ata: &TokenAccountData,
        deposit_escrow: &TokenAccountData,
        token_program: &Address,
        system_program: &Address,
        now: i64,
        amount: u64,
    ) -> (r: Result<(IssuanceState, UserState, bool, TransferAction), LockrionError>)
        ensures
            match r {
                Ok(p) => spec_deposit(
                    program_id@,
                    issuance@,
                    issuance_data@,
                    user@,
                    user_data@,
                    participant@,
                    participant_lock_ata@,
                    deposit_escrow@,
                    token_program@,
                    system_program@,
                    now,
                    amount,
                ) == Ok::<(IssuanceView, UserView, bool, TransferView), LockrionError>(
                    (p.0@, p.1@, p.2, p.3@),
                ),
                Err(e) => spec_deposit(
                    program_id@,
                    issuance@,
                    issuance_data@,
                    user@,
                    user_data@,
                    participant@,
                    participant_lock_ata@,
                    deposit_escrow@,
                    token_program@,
                    system_program@,
                    now,
                    amount,
                ) == Err::<(IssuanceView, UserView, bool, TransferView), LockrionError>(e),
            },
    {
        if amount == 0 {
            return Err(LockrionError::InvalidAmount);
        }
        let sys_id = crate::token::system_program_id();
        if !addr_eq(system_program, &sys_id) {
            return Err(LockrionError::InvalidInstruction);
        }
        match crate::token::validate_token_program(token_program) {
            Err(e) => {
                return Err(e);
            },
            Ok(()) => {},
        }
        if !addr_eq(&issuance.owner, program_id) {
            return Err(LockrionError::InvalidEscrowAccount);
        }
        let state = match IssuanceState::unpack(issuance_data) {
            Ok(s) => s,
            Err(e) => {
                return Err(e);
            },
        };
        let pda = match crate::pda::derive_issuance_pda(
            program_id,
            &state.issuer_address,
            state.start_ts,
            state.reserve_total,
        ) {
            Some(p) => p,
            None => {
                return Err(LockrionError::InvalidPda);
            },
        };
        if !addr_eq(&issuance.key, &pda.0) || state.bump != pda.1 {
            return Err(LockrionError::InvalidPda);
        }
        if state.reserve_funded != 1 {
            return Err(LockrionError::ReserveNotFunded);
        }
        if now < state.start_ts {
            return Err(LockrionError::DepositWindowNotStarted);
        }
        if now >= state.maturity_ts {
            return Err(LockrionError::DepositWindowClosed);
        }
        if !addr_eq(&deposit_escrow.key, &state.deposit_escrow) {
            return Err(LockrionError::InvalidEscrowAccount);
        }
        match crate::token::validate_token_account_mint(
            deposit_escrow.data.as_slice(),
            &state.lock_mint,
        ) {
            Err(e) => {
                return Err(e);
            },
            Ok(()) => {},
        }
        match crate::token::validate_token_account_mint(
            participant_lock_ata.data.as_slice(),
            &state.lock_mint,
        ) {
            Err(e) => {
                return Err(e);
            },
            Ok(()) => {},
        }
        match crate::token::validate_token_account_authority(
            deposit_escrow.data.as_slice(),
            &pda.0,
        ) {
            Err(e) => {
                return Err(e);
            },
            Ok(()) => {},
        }
        let upda = match crate::pda::derive_user_pda(program_id, &pda.0, &participant.key) {
            Some(p) => p,
            None => {
                return Err(LockrionError::InvalidPda);
            },
        };
        if !addr_eq(&user.key, &upda.0) {
            return Err(LockrionError::InvalidPda);
        }
        let created = !addr_eq(&user.owner, program_id);
        if created && !addr_eq(&user.owner, &sys_id) {
            return Err(LockrionError::InvalidUserStateAccount);
        }
        if !created && user_data.len() != 112 {
            return Err(LockrionError::InvalidAccountSize);
        }
        let user_state: UserState = if created {
            let fresh = UserState {
                version: crate::state::STATE_VERSION,
                bump: upda.1,
                issuance: issuance.key,
                participant: participant.key,
                locked_amount: 0,
                user_weight_accum: 0,
                user_last_day_index: state.last_day_index,
                reward_claimed: 0,
                reserved_padding: [0u8; 5],
            };
            proof {
                assert(fresh@ =~= spec_fresh_user(
                    upda.1,
                    issuance.key@,
                    participant.key@,
                    state.last_day_index,
                ));
            }
            fresh
        } else {
            let buf: Vec<u8> = if user_data[0] != crate::state::STATE_VERSION {
                let mut b: Vec<u8> = Vec::new();
                b.push(crate::state::STATE_VERSION);
                b.push(upda.1);
                crate::addr::push_bytes(&mut b, &issuance.key);
                crate::addr::push_bytes(&mut b, &participant.key);
                let mut mid = vstd::slice::slice_to_vec(
                    vstd::slice::slice_subrange(user_data, 66, 98),
                );
                b.append(&mut mid);
                let mut le = vstd::bytes::u64_to_le_bytes(state.last_day_index);
                b.append(&mut le);
                let mut tail = vstd::slice::slice_to_vec(
                    vstd::slice::slice_subrange(user_data, 106, 112),
                );
                b.append(&mut tail);
                proof {
                    assert(b@ =~= spec_user_init_bytes(
                        user_data@,
                        upda.1,
                        issuance.key@,
                        participant.key@,
                        state.last_day_index,
                    ));
                }
                b
            } else {
                vstd::slice::slice_to_vec(user_data)
            };
            match UserState::unpack(buf.as_slice()) {
                Ok(u) => u,
                Err(e) => {
                    return Err(e);
                },
            }
        };
        if user_state.bump != upda.1 {
            return Err(LockrionError::InvalidPda);
        }
        if !addr_eq(&user_state.issuance, &issuance.key) || !addr_eq(
            &user_state.participant,
            &participant.key,
        ) {
            return Err(LockrionError::InvalidUserStateAccount);
        }
        if !participant.is_signer {
            return Err(LockrionError::UnauthorizedCaller);
        }
        let mut state2 = state;
        let mut user2 = user_state;
        match Self::apply_accumulators(&mut state2, &mut user2, now) {
            Err(e) => {
                return Err(e);
            },
            Ok(()) => {},
        }
        let new_total = match state2.total_locked.checked_add(amount as u128) {
            Some(t) => t,
            None => {
                return Err(LockrionError::ArithmeticOverflow);
            },
        };
        let new_locked = match user2.locked_amount.checked_add(amount as u128) {
            Some(l) => l,
            None => {
                return Err(LockrionError::ArithmeticOverflow);
            },
        };
        state2.total_locked = new_total;
        user2.locked_amount = new_locked;
        let action = TransferAction {
            source: participant_lock_ata.key,
            dest: deposit_escrow.key,
            authority: participant.key,
            pda_signed: false,
            amount,
        };
        proof {
            let sr = spec_deposit(
                program_id@,
                issuance@,
                issuance_data@,
                user@,
                user_data@,
                participant@,
                participant_lock_ata@,
                deposit_escrow@,
                token_program@,
                system_program@,
                now,
                amount,
            );
            assert(sr is Ok);
            assert(state2@ =~= sr->Ok_0.0);
            assert(user2@ =~= sr->Ok_0.1);
            assert(action@ =~= sr->Ok_0.3);
        }
        Ok((state2, user2, created, action))
    }
}

/// The proportional reward of one participant, with floor division:
/// `floor(reserve_total * user_weight / total_weight)`. The rounding
/// residue stays in the vault and is later swept.
pub open spec fn spec_reward_amount(
    reserve_total: u128,
    user_weight: u128,
    total_weight: u128,
) -> int
    recommends
        total_weight > 0,
{
    (reserve_total * user_weight) / (total_weight as int)
}

/// What a reward claim decides, in validation order; on success: both
/// records with the ledger finalized, the claim latch set, and the
/// program-signed transfer of `floor(reserve_total * user_weight /
/// total_weight)` reward units to the participant. Floor division is part
/// of the contract: residual dust stays in the vault for the sweep.
pub open spec fn spec_claim_reward(
    program_id: Seq<u8>,
    issuance: SuppliedAccountView,
    issuance_data: Seq<u8>,
    user: SuppliedAccountView,
    user_data: Seq<u8>,
    participant: SuppliedAccountView,
    participant_reward_ata: TokenAccountDataView,
    reward_escrow: TokenAccountDataView,
    token_program: Seq<u8>,
    now: i64,
) -> Result<(IssuanceView, UserView, TransferView), LockrionError> {
    if token_program != crate::token::spec_spl_token_id() {
        Err(LockrionError::InvalidTokenProgram)
    } else if issuance.owner != program_id {
        Err(LockrionError::InvalidEscrowAccount)
    } else if user.owner != program_id {
        Err(LockrionError::InvalidUserStateAccount)
    } else if !participant.is_signer {
        Err(LockrionError::UnauthorizedCaller)
    } else if issuance_data.len() != 292 {
        Err(LockrionError::InvalidAccountSize)
    } else if issuance_data[0] != crate::state::STATE_VERSION {
        Err(LockrionError::InvalidStateVersion)
    } else if user_data.len() != 112 {
        Err(LockrionError::InvalidAccountSize)
    } else if user_data[0] != crate::state::STATE_VERSION {
        Err(LockrionError::InvalidStateVersion)
    } else {
        let v = crate::state::spec_parse_issuance(issuance_data);
        let u = crate::state::spec_parse_user(user_data);
        let pda = crate::pda::spec_issuance_pda(
            program_id,
            v.issuer_address,
            v.start_ts,
            v.reserve_total,
        );
        let pda_key = match pda {
            Some(p) => p.0,
            None => Seq::<u8>::empty(),
        };
        let pda_bump = match pda {
            Some(p) => p.1,
            None => 0u8,
        };
        if pda is None || issuance.key != pda_key || v.bump != pda_bump {
            Err(LockrionError::InvalidPda)
        } else {
            let upda = crate::pda::spec_user_pda(program_id, pda_key, participant.key);
            let upda_key = match upda {
                Some(p) => p.0,
                None => Seq::<u8>::empty(),
            };
            let upda_bump = match upda {
                Some(p) => p.1,
                None => 0u8,
            };
            if upda is None || user.key != upda_key || u.bump != upda_bump {
                Err(LockrionError::InvalidPda)
            } else if u.issuance != issuance.key || u.participant != participant.key {
                Err(LockrionError::InvalidUserStateAccount)
            } else if reward_escrow.key != v.reward_escrow {
                Err(LockrionError::InvalidEscrowAccount)
            } else if crate::token::spec_validate_mint(reward_escrow.data, v.reward_mint)
                is Err {
                Err(crate::token::spec_validate_mint(reward_escrow.data, v.reward_mint)->Err_0)
            } else if crate::token::spec_validate_mint(participant_reward_ata.data, v.reward_mint)
                is Err {
                Err(
                    crate::token::spec_validate_mint(
                        participant_reward_ata.data,
                        v.reward_mint,
                    )->Err_0,
                )
            } else if crate::token::spec_validate_authority(reward_escrow.data, pda_key) is Err {
                Err(crate::token::spec_validate_authority(reward_escrow.data, pda_key)->Err_0)
            } else if now < v.maturity_ts {
                Err(LockrionError::ClaimWindowNotStarted)
            } else if v.maturity_ts + v.claim_window > i64::MAX || v.maturity_ts + v.claim_window
                < i64::MIN {
                Err(LockrionError::ArithmeticOverflow)
            } else if now >= v.maturity_ts + v.claim_window {
                Err(LockrionError::ClaimWindowClosed)
            } else if u.reward_claimed == 1 {
                Err(LockrionError::AlreadyClaimed)
            } else {
                match spec_apply_accumulators(v, u, now) {
                    Err(e) => Err(e),
                    Ok((v2, u2)) => {
                        if v2.total_weight_accum == 0 {
                            Err(LockrionError::NoParticipation)
                        } else if v2.reserve_total > u64::MAX as u128 {
                            Err(LockrionError::InvariantViolation)
                        } else if v2.reserve_total * u2.user_weight_accum > u128::MAX {
                            Err(LockrionError::ArithmeticOverflow)
                        } else {
                            let reward = spec_reward_amount(
                                v2.reserve_total,
                                u2.user_weight_accum,
                                v2.total_weight_accum,
                            );
                            if reward > u64::MAX {
                                Err(LockrionError::ArithmeticOverflow)
                            } else {
                                Ok(
                                    (
                                        v2,
                                        UserView { reward_claimed: 1u8, ..u2 },
                                        TransferView {
                                            source: reward_escrow.key,
                                            dest: participant_reward_ata.key,
                                            authority: issuance.key,
                                            pda_signed: true,
                                            amount: reward as u64,
                                        },
                                    ),
                                )
                            }
                        }
                    },
                }
            }
        }
    }
}

/// What a principal withdrawal decides, in validation order; on success:
/// the issuance with the ledger finalized and the participant's locked
/// amount removed from the total, the participant record refreshed and
/// emptied, and the program-signed transfer of the principal back to the
/// participant. Withdrawal is independent of the claim latch.
pub open spec fn spec_withdraw_deposit(
    program_id: Seq<u8>,
    issuance: SuppliedAccountView,
    issuance_data: Seq<u8>,
    user: SuppliedAccountView,
    user_data: Seq<u8>,
    participant: SuppliedAccountView,
    participant_lock_ata: TokenAccountDataView,
    deposit_escrow: TokenAccountDataView,
    token_program: Seq<u8>,
    now: i64,
) -> Result<(IssuanceView, UserView, TransferView), LockrionError> {
    if token_program != crate::token::spec_spl_token_id() {
        Err(LockrionError::InvalidTokenProgram)
    } else if issuance.owner != program_id {
        Err(LockrionError::InvalidEscrowAccount)
    } else if user.owner != program_id {
        Err(LockrionError::InvalidUserStateAccount)
    } else if !participant.is_signer {
        Err(LockrionError::UnauthorizedCaller)
    } else if issuance_data.len() != 292 {
        Err(LockrionError::InvalidAccountSize)
    } else if issuance_data[0] != crate::state::STATE_VERSION {
        Err(LockrionError::InvalidStateVersion)
    } else if user_data.len() != 112 {
        Err(LockrionError::InvalidAccountSize)
    } else if user_data[0] != crate::state::STATE_VERSION {
        Err(LockrionError::InvalidStateVersion)
    } else {
        let v = crate::state::spec_parse_issuance(issuance_data);
        let u = crate::state::spec_parse_user(user_data);
        let pda = crate::pda::spec_issuance_pda(
            program_id,
            v.issuer_address,
            v.start_ts,
            v.reserve_total,
        );
        let pda_key = match pda {
            Some(p) => p.0,
            None => Seq::<u8>::empty(),
        };
        let pda_bump = match pda {
            Some(p) => p.1,
            None => 0u8,
        };
        if pda is None || issuance.key != pda_key || v.bump != pda_bump {
            Err(LockrionError::InvalidPda)
        } else {
            let upda = crate::pda::spec_user_pda(program_id, pda_key, participant.key);
            let upda_key = match upda {
                Some(p) => p.0,
                None => Seq::<u8>::empty(),
            };
            let upda_bump = match upda {
                Some(p) => p.1,
                None => 0u8,
            };
            if upda is None || user.key != upda_key || u.bump != upda_bump {
                Err(LockrionError::InvalidPda)
            } else if u.issuance != issuance.key || u.participant != participant.key {
                Err(LockrionError::InvalidUserStateAccount)
            } else if deposit_escrow.key != v.deposit_escrow {
                Err(LockrionError::InvalidEscrowAccount)
            } else if crate::token::spec_validate_mint(deposit_escrow.data, v.lock_mint) is Err {
                Err(crate::token::spec_validate_mint(deposit_escrow.data, v.lock_mint)->Err_0)
            } else if crate::token::spec_validate_mint(participant_lock_ata.data, v.lock_mint)
                is Err {
                Err(
                    crate::token::spec_validate_mint(participant_lock_ata.data, v.lock_mint)->Err_0,
                )
            } else if crate::token::spec_validate_authority(deposit_escrow.data, pda_key) is Err {
                Err(crate::token::spec_validate_authority(deposit_escrow.data, pda_key)->Err_0)
            } else if now < v.maturity_ts {
                Err(LockrionError::DepositWindowNotClosed)
            } else if u.locked_amount == 0 {
                Err(LockrionError::InvalidAmount)
            } else {
                match spec_apply_accumulators(v, u, now) {
                    Err(e) => Err(e),
                    Ok((v2, u2)) => {
                        if v2.total_locked < u2.locked_amount {
                            Err(LockrionError::ArithmeticUnderflow)
                        } else if u2.locked_amount > u64::MAX as u128 {
                            Err(LockrionError::ArithmeticOverflow)
                        } else {
                            Ok(
                                (
                                    IssuanceView {
                                        total_locked: (v2.total_locked - u2.locked_amount) as u128,
                                        ..v2
                                    },
                                    UserView { locked_amount: 0u128, ..u2 },
                                    TransferView {
                                        source: deposit_escrow.key,
                                        dest: participant_lock_ata.key,
                                        authority: issuance.key,
                                        pda_signed: true,
                                        amount: u2.locked_amount as u64,
                                    },
                                ),
                            )
                        }
                    },
                }
            }
        }
    }
}

impl Processor {
    /// Handle a reward claim: validate, finalize both accumulators, compute
    /// the proportional reward with floor division, set the claim latch,
    /// and decide the program-signed payout. Nothing is mutated on failure.
    pub fn claim_reward(
        program_id: &Address,
        issuance: &SuppliedAccount,
        issuance_data: &[u8],
        user: &SuppliedAccount,
        user_data: &[u8],
        participant: &SuppliedAccount,
        participant_reward_ata: &TokenAccountData,
        reward_escrow: &TokenAccountData,
        token_program: &Address,
        now: i64,
    ) -> (r: Result<(IssuanceState, UserState, TransferAction), LockrionError>)
        ensures
            match r {
                Ok(p) => spec_claim_reward(
                    program_id@,
                    issuance@,
                    issuance_data@,
                    user@,
                    user_data@,
                    participant@,
                    participant_reward_ata@,
                    reward_escrow@,
                    token_program@,
                    now,
                ) == Ok::<(IssuanceView, UserView, TransferView), LockrionError>(
                    (p.0@, p.1@, p.2@),
                ),
                Err(e) => spec_claim_reward(
                    program_id@,
                    issuance@,
                    issuance_data@,
                    user@,
                    user_data@,
                    participant@,
                    participant_reward_ata@,
                    reward_escrow@,
                    token_program@,
                    now,
                ) == Err::<(IssuanceView, UserView, TransferView), LockrionError>(e),
            },
    {
        match crate::token::validate_token_program(token_program) {
            Err(e) => {
                return Err(e);
            },
            Ok(()) => {},
        }
        if !addr_eq(&issuance.owner, program_id) {
            return Err(LockrionError::InvalidEscrowAccount);
        }
        if !addr_eq(&user.owner, program_id) {
            return Err(LockrionError::InvalidUserStateAccount);
        }
        if !participant.is_signer {
            return Err(LockrionError::UnauthorizedCaller);
        }
        let state = match IssuanceState::unpack(issuance_data) {
            Ok(s) => s,
            Err(e) => {
                return Err(e);
            },
        };
        let user_state = match UserState::unpack(user_data) {
            Ok(u) => u,
            Err(e) => {
                return Err(e);
            },
        };
        let pda = match crate::pda::derive_issuance_pda(
            program_id,
            &state.issuer_address,
            state.start_ts,
            state.reserve_total,
        ) {
            Some(p) => p,
            None => {
                return Err(LockrionError::InvalidPda);
            },
        };
        if !addr_eq(&issuance.key, &pda.0) || state.bump != pda.1 {
            return Err(LockrionError::InvalidPda);
        }
        let upda = match crate::pda::derive_user_pda(program_id, &pda.0, &participant.key) {
            Some(p) => p,
            None => {
                return Err(LockrionError::InvalidPda);
            },
        };
        if !addr_eq(&user.key, &upda.0) || user_state.bump != upda.1 {
            return Err(LockrionError::InvalidPda);
        }
        if !addr_eq(&user_state.issuance, &issuance.key) || !addr_eq(
            &user_state.participant,
            &participant.key,
        ) {
            return Err(LockrionError::InvalidUserStateAccount);
        }
        if !addr_eq(&reward_escrow.key, &state.reward_escrow) {
            return Err(LockrionError::InvalidEscrowAccount);
        }
        match crate::token::validate_token_account_mint(
            reward_escrow.data.as_slice(),
            &state.reward_mint,
        ) {
            Err(e) => {
                return Err(e);
            },
            Ok(()) => {},
        }
        match crate::token::validate_token_account_mint(
            participant_reward_ata.data.as_slice(),
            &state.reward_mint,
        ) {
            Err(e) => {
                return Err(e);
            },
            Ok(()) => {},
        }
        match crate::token::validate_token_account_authority(
            reward_escrow.data.as_slice(),
            &pda.0,
        ) {
            Err(e) => {
                return Err(e);
            },
            Ok(()) => {},
        }
        if now < state.maturity_ts {
            return Err(LockrionError::ClaimWindowNotStarted);
        }
        let claim_end = match state.maturity_ts.checked_add(state.claim_window) {
            Some(t) => t,
            None => {
                return Err(LockrionError::ArithmeticOverflow);
            },
        };
        if now >= claim_end {
            return Err(LockrionError::ClaimWindowClosed);
        }
        if user_state.reward_claimed == 1 {
            return Err(LockrionError::AlreadyClaimed);
        }
        let mut state2 = state;
        let mut user2 = user_state;
        match Self::apply_accumulators(&mut state2, &mut user2, now) {
            Err(e) => {
                return Err(e);
            },
            Ok(()) => {},
        }
        if state2.total_weight_accum == 0 {
            return Err(LockrionError::NoParticipation);
        }
        if state2.reserve_total > u64::MAX as u128 {
            return Err(LockrionError::InvariantViolation);
        }
        let numerator = match state2.reserve_total.checked_mul(user2.user_weight_accum) {
            Some(n) => n,
            None => {
                return Err(LockrionError::ArithmeticOverflow);
            },
        };
        let reward_u128 = match numerator.checked_div(state2.total_weight_accum) {
            Some(q) => q,
            None => {
                return Err(LockrionError::DivisionByZero);
            },
        };
        if reward_u128 > u64::MAX as u128 {
            return Err(LockrionError::ArithmeticOverflow);
        }
        let reward = reward_u128 as u64;
        user2.reward_claimed = 1;
        let action = TransferAction {
            source: reward_escrow.key,
            dest: participant_reward_ata.key,
            authority: issuance.key,
            pda_signed: true,
            amount: reward,
        };
        proof {
            let sr = spec_claim_reward(
                program_id@,
                issuance@,
                issuance_data@,
                user@,
                user_data@,
                participant@,
                participant_reward_ata@,
                reward_escrow@,
                token_program@,
                now,
            );
            assert(sr is Ok);
            assert(state2@ =~= sr->Ok_0.0);
            assert(user2@ =~= sr->Ok_0.1);
            assert(action@ =~= sr->Ok_0.2);
        }
        Ok((state2, user2, action))
    }

    /// Handle a principal withdrawal: validate, finalize both accumulators,
    /// remove the participant's whole locked amount from the total, empty
    /// the record, and decide the program-signed refund. Nothing is mutated
    /// on failure.
    pub fn withdraw_deposit(
        program_id: &Address,
        issuance: &SuppliedAccount,
        issuance_data: &[u8],
        user: &SuppliedAccount,
        user_data: &[u8],
        participant: &SuppliedAccount,
        participant_lock_ata: &TokenAccountData,
        deposit_escrow: &TokenAccountData,
        token_program: &Address,
        now: i64,
    ) -> (r: Result<(IssuanceState, UserState, TransferAction), LockrionError>)
        ensures
            match r {
                Ok(p) => spec_withdraw_deposit(
                    program_id@,
                    issuance@,
                    issuance_data@,
                    user@,
                    user_data@,
                    participant@,
                    participant_lock_ata@,
                    deposit_escrow@,
                    token_program@,
                    now,
                ) == Ok::<(IssuanceView, UserView, TransferView), LockrionError>(
                    (p.0@, p.1@, p.2@),
                ),
                Err(e) => spec_withdraw_deposit(
                    program_id@,
                    issuance@,
                    issuance_data@,
                    user@,
                    user_data@,
                    participant@,
                    participant_lock_ata@,
                    deposit_escrow@,
                    token_program@,
                    now,
                ) == Err::<(IssuanceView, UserView, TransferView), LockrionError>(e),
            },
    {
        match crate::token::validate_token_program(token_program) {
            Err(e) => {
                return Err(e);
            },
            Ok(()) => {},
        }
        if !addr_eq(&issuance.owner, program_id) {
            return Err(LockrionError::InvalidEscrowAccount);
        }
        if !addr_eq(&user.owner, program_id) {
            return Err(LockrionError::InvalidUserStateAccount);
        }
        if !participant.is_signer {
            return Err(LockrionError::UnauthorizedCaller);
        }
        let state = match IssuanceState::unpack(issuance_data) {
            Ok(s) => s,
            Err(e) => {
                return Err(e);
            },
        };
        let user_state = match UserState::unpack(user_data) {
            Ok(u) => u,
            Err(e) => {
                return Err(e);
            },
        };
        let pda = match crate::pda::derive_issuance_pda(
            program_id,
            &state.issuer_address,
            state.start_ts,
            state.reserve_total,
        ) {
            Some(p) => p,
            None => {
                return Err(LockrionError::InvalidPda);
            },
        };
        if !addr_eq(&issuance.key, &pda.0) || state.bump != pda.1 {
            return Err(LockrionError::InvalidPda);
        }
        let upda = match crate::pda::derive_user_pda(program_id, &pda.0, &participant.key) {
            Some(p) => p,
            None => {
                return Err(LockrionError::InvalidPda);
            },
        };
        if !addr_eq(&user.key, &upda.0) || user_state.bump != upda.1 {
            return Err(LockrionError::InvalidPda);
        }
        if !addr_eq(&user_state.issuance, &issuance.key) || !addr_eq(
            &user_state.participant,
            &participant.key,
        ) {
            return Err(LockrionError::InvalidUserStateAccount);
        }
        if !addr_eq(&deposit_escrow.key, &state.deposit_escrow) {
            return Err(LockrionError::InvalidEscrowAccount);
        }
        match crate::token::validate_token_account_mint(
            deposit_escrow.data.as_slice(),
            &state.lock_mint,
        ) {
            Err(e) => {
                return Err(e);
            },
            Ok(()) => {},
        }
        match crate::token::validate_token_account_mint(
            participant_lock_ata.data.as_slice(),
            &state.lock_mint,
        ) {
            Err(e) => {
                return Err(e);
            },
            Ok(()) => {},
        }
        match crate::token::validate_token_account_authority(
            deposit_escrow.data.as_slice(),
            &pda.0,
        ) {
            Err(e) => {
                return Err(e);
            },
            Ok(()) => {},
        }
        if now < state.maturity_ts {
            return Err(LockrionError::DepositWindowNotClosed);
        }
        if user_state.locked_amount == 0 {
            return Err(LockrionError::InvalidAmount);
        }
        let mut state2 = state;
        let mut user2 = user_state;
        match Self::apply_accumulators(&mut state2, &mut user2, now) {
            Err(e) => {
                return Err(e);
            },
            Ok(()) => {},
        }
        let amount_u128 = user2.locked_amount;
        let new_total = match state2.total_locked.checked_sub(amount_u128) {
            Some(t) => t,
            None => {
                return Err(LockrionError::ArithmeticUnderflow);
            },
        };
        if amount_u128 > u64::MAX as u128 {
            return Err(LockrionError::ArithmeticOverflow);
        }
        state2.total_locked = new_total;
        user2.locked_amount = 0;
        let action = TransferAction {
            source: deposit_escrow.key,
            dest: participant_lock_ata.key,
            authority: issuance.key,
            pda_signed: true,
            amount: amount_u128 as u64,
        };
        proof {
            let sr = spec_withdraw_deposit(
                program_id@,
                issuance@,
                issuance_data@,
                user@,
                user_data@,
                participant@,
                participant_lock_ata@,
                deposit_escrow@,
                token_program@,
                now,
            );
            assert(sr is Ok);
            assert(state2@ =~= sr->Ok_0.0);
            assert(user2@ =~= sr->Ok_0.1);
            assert(action@ =~= sr->Ok_0.2);
        }
        Ok((state2, user2, action))
    }
}

/// The view of an optional transfer action.
pub open spec fn spec_opt_transfer_view(o: Option<TransferAction>) -> Option<TransferView> {
    match o {
        Some(a) => Some(a@),
        None => None,
    }
}

/// What a sweep decides, in validation order; on success: the issuance
/// with the ledger finalized and the sweep latch set, and the
/// program-signed transfer of the reward vault's entire remaining balance
/// to the platform sink — or no transfer at all when the vault is already
/// empty, which still succeeds and latches.
pub open spec fn spec_sweep(
    program_id: Seq<u8>,
    issuance: SuppliedAccountView,
    issuance_data: Seq<u8>,
    reward_escrow: TokenAccountDataView,
    platform_treasury: TokenAccountDataView,
    token_program: Seq<u8>,
    now: i64,
) -> Result<(IssuanceView, Option<TransferView>), LockrionError> {
    if token_program != crate::token::spec_spl_token_id() {
        Err(LockrionError::InvalidTokenProgram)
    } else if issuance.owner != program_id {
        Err(LockrionError::InvalidEscrowAccount)
    } else if issuance_data.len() != 292 {
        Err(LockrionError::InvalidAccountSize)
    } else if issuance_data[0] != crate::state::STATE_VERSION {
        Err(LockrionError::InvalidStateVersion)
    } else {
        let v = crate::state::spec_parse_issuance(issuance_data);
        let pda = crate::pda::spec_issuance_pda(
            program_id,
            v.issuer_address,
            v.start_ts,
            v.reserve_total,
        );
        let pda_key = match pda {
            Some(p) => p.0,
            None => Seq::<u8>::empty(),
        };
        let pda_bump = match pda {
            Some(p) => p.1,
            None => 0u8,
        };
        if pda is None || issuance.key != pda_key || v.bump != pda_bump {
            Err(LockrionError::InvalidPda)
        } else if platform_treasury.key != v.platform_treasury {
            Err(LockrionError::InvalidPlatformTreasury)
        } else if reward_escrow.key != v.reward_escrow {
            Err(LockrionError::InvalidEscrowAccount)
        } else if crate::token::spec_validate_mint(reward_escrow.data, v.reward_mint) is Err {
            Err(crate::token::spec_validate_mint(reward_escrow.data, v.reward_mint)->Err_0)
        } else if crate::token::spec_validate_mint(platform_treasury.data, v.reward_mint) is Err {
            Err(crate::token::spec_validate_mint(platform_treasury.data, v.reward_mint)->Err_0)
        } else if crate::token::spec_validate_authority(reward_escrow.data, pda_key) is Err {
            Err(crate::token::spec_validate_authority(reward_escrow.data, pda_key)->Err_0)
        } else if v.total_weight_accum == 0 {
            Err(LockrionError::NoParticipation)
        } else if v.sweep_executed == 1 {
            Err(LockrionError::SweepAlreadyExecuted)
        } else if v.maturity_ts + v.claim_window > i64::MAX || v.maturity_ts + v.claim_window
            < i64::MIN {
            Err(LockrionError::ArithmeticOverflow)
        } else if now < v.maturity_ts + v.claim_window {
            Err(LockrionError::ClaimWindowClosed)
        } else {
            match spec_finalize_global(v, now) {
                Err(e) => Err(e),
                Ok((v2, current)) => {
                    let bal = vstd::bytes::spec_u64_from_le_bytes(
                        reward_escrow.data.subrange(64, 72),
                    );
                    let latched = IssuanceView { sweep_executed: 1u8, ..v2 };
                    if bal == 0 {
                        Ok((latched, None))
                    } else {
                        Ok(
                            (
                                latched,
                                Some(
                                    TransferView {
                                        source: reward_escrow.key,
                                        dest: platform_treasury.key,
                                        authority: issuance.key,
                                        pda_signed: true,
                                        amount: bal,
                                    },
                                ),
                            ),
                        )
                    }
                },
            }
        }
    }
}

/// What a zero-participation reclaim decides, in validation order; on
/// success: the issuance with the ledger finalized and the reclaim latch
/// set, and the program-signed transfer of the vault's entire balance back
/// to the issuer.
pub open spec fn spec_reclaim(
    program_id: Seq<u8>,
    issuance: SuppliedAccountView,
    issuance_data: Seq<u8>,
    issuer: SuppliedAccountView,
    issuer_reward_ata: TokenAccountDataView,
    reward_escrow: TokenAccountDataView,
    token_program: Seq<u8>,
    now: i64,
) -> Result<(IssuanceView, TransferView), LockrionError> {
    if token_program != crate::token::spec_spl_token_id() {
        Err(LockrionError::InvalidTokenProgram)
    } else if issuance.owner != program_id {
        Err(LockrionError::InvalidEscrowAccount)
    } else if !issuer.is_signer {
        Err(LockrionError::UnauthorizedCaller)
    } else if issuance_data.len() != 292 {
        Err(LockrionError::InvalidAccountSize)
    } else if issuance_data[0] != crate::state::STATE_VERSION {
        Err(LockrionError::InvalidStateVersion)
    } else {
        let v = crate::state::spec_parse_issuance(issuance_data);
        let pda = crate::pda::spec_issuance_pda(
            program_id,
            v.issuer_address,
            v.start_ts,
            v.reserve_total,
        );
        let pda_key = match pda {
            Some(p) => p.0,
            None => Seq::<u8>::empty(),
        };
        let pda_bump = match pda {
            Some(p) => p.1,
            None => 0u8,
        };
        if pda is None || issuance.key != pda_key || v.bump != pda_bump {
            Err(LockrionError::InvalidPda)
        } else if issuer.key != v.issuer_address {
            Err(LockrionError::UnauthorizedCaller)
        } else if v.reclaim_executed == 1 {
            Err(LockrionError::ReclaimAlreadyExecuted)
        } else if reward_escrow.key != v.reward_escrow {
            Err(LockrionError::InvalidEscrowAccount)
        } else if crate::token::spec_validate_mint(reward_escrow.data, v.reward_mint) is Err {
            Err(crate::token::spec_validate_mint(reward_escrow.data, v.reward_mint)->Err_0)
        } else if crate::token::spec_validate_authority(reward_escrow.data, pda_key) is Err {
            Err(crate::token::spec_validate_authority(reward_escrow.data, pda_key)->Err_0)
        } else if crate::token::spec_validate_mint(issuer_reward_ata.data, v.reward_mint) is Err {
            Err(crate::token::spec_validate_mint(issuer_reward_ata.data, v.reward_mint)->Err_0)
        } else if now < v.maturity_ts {
            Err(LockrionError::ClaimWindowNotStarted)
        } else {
            match spec_finalize_global(v, now) {
                Err(e) => Err(e),
                Ok((v2, current)) => {
                    if v2.total_weight_accum != 0 {
                        Err(LockrionError::NoParticipation)
                    } else {
                        let bal = vstd::bytes::spec_u64_from_le_bytes(
                            reward_escrow.data.subrange(64, 72),
                        );
                        if bal == 0 {
                            Err(LockrionError::InvalidAmount)
                        } else {
                            Ok(
                                (
                                    IssuanceView { reclaim_executed: 1u8, ..v2 },
                                    TransferView {
                                        source: reward_escrow.key,
                                        dest: issuer_reward_ata.key,
                                        authority: issuance.key,
                                        pda_signed: true,
                                        amount: bal,
                                    },
                                ),
                            )
                        }
                    }
                },
            }
        }
    }
}

/// What initializing an issuance decides, in validation order: the caller
/// must be the compiled-in platform authority and a signer, the reserve
/// positive, the supplied account unallocated at the derived address; on
/// success, the fresh record with the computed day horizon, the fixed
/// 90-day claim window, all accounting fields zero and all latches clear.
pub open spec fn spec_init_issuance(
    program_id: Seq<u8>,
    payer: SuppliedAccountView,
    issuance: SuppliedAccountView,
    issuance_data_len: usize,
    lock_mint: Seq<u8>,
    reward_mint: Seq<u8>,
    deposit_escrow: Seq<u8>,
    reward_escrow: Seq<u8>,
    platform_treasury: Seq<u8>,
    system_program: Seq<u8>,
    reserve_total: u128,
    start_ts: i64,
    maturity_ts: i64,
) -> Result<IssuanceView, LockrionError> {
    if !payer.is_signer {
        Err(LockrionError::UnauthorizedCaller)
    } else if payer.key != crate::token::spec_platform_authority() {
        Err(LockrionError::UnauthorizedCaller)
    } else if system_program != crate::token::spec_system_program_id() {
        Err(LockrionError::InvalidTokenProgram)
    } else if reserve_total == 0 {
        Err(LockrionError::InvalidAmount)
    } else {
        let pda = crate::pda::spec_issuance_pda(program_id, payer.key, start_ts, reserve_total);
        let pda_key = match pda {
            Some(p) => p.0,
            None => Seq::<u8>::empty(),
        };
        let pda_bump = match pda {
            Some(p) => p.1,
            None => 0u8,
        };
        if pda is None || issuance.key != pda_key {
            Err(LockrionError::InvalidPda)
        } else if issuance.owner != crate::token::spec_system_program_id() || issuance_data_len
            != 0 {
            Err(LockrionError::InvalidEscrowAccount)
        } else {
            let final_day_index = if maturity_ts > start_ts {
                ((maturity_ts - start_ts) / (86400 as int)) as u64
            } else {
                0u64
            };
            Ok(
                IssuanceView {
                    version: crate::state::STATE_VERSION,
                    bump: pda_bump,
                    issuer_address: payer.key,
                    lock_mint: lock_mint,
                    reward_mint: reward_mint,
                    deposit_escrow: deposit_escrow,
                    reward_escrow: reward_escrow,
                    platform_treasury: platform_treasury,
                    reserve_total: reserve_total,
                    start_ts: start_ts,
                    maturity_ts: maturity_ts,
                    claim_window: CLAIM_WINDOW_SECONDS,
                    final_day_index: final_day_index,
                    total_locked: 0u128,
                    total_weight_accum: 0u128,
                    last_day_index: 0u64,
                    reserve_funded: 0u8,
                    sweep_executed: 0u8,
                    reclaim_executed: 0u8,
                    reserved_padding: Seq::new(7, |i: int| 0u8),
                },
            )
        }
    }
}

impl Processor {
    /// Handle a sweep: after the claim window, move whatever remains in the
    /// reward vault to the platform sink and set the one-shot sweep latch.
    /// An empty vault still succeeds and latches, with no transfer.
    pub fn sweep(
        program_id: &Address,
        issuance: &SuppliedAccount,
        issuance_data: &[u8],
        reward_escrow: &TokenAccountData,
        platform_treasury: &TokenAccountData,
        token_program: &Address,
        now: i64,
    ) -> (r: Result<(IssuanceState, Option<TransferAction>), LockrionError>)
        ensures
            match r {
                Ok(p) => spec_sweep(
                    program_id@,
                    issuance@,
                    issuance_data@,
                    reward_escrow@,
                    platform_treasury@,
                    token_program@,
                    now,
                ) == Ok::<(IssuanceView, Option<TransferView>), LockrionError>(
                    (p.0@, spec_opt_transfer_view(p.1)),
                ),
                Err(e) => spec_sweep(
                    program_id@,
                    issuance@,
                    issuance_data@,
                    reward_escrow@,
                    platform_treasury@,
                    token_program@,
                    now,
                ) == Err::<(IssuanceView, Option<TransferView>), LockrionError>(e),
            },
    {
        match crate::token::validate_token_program(token_program) {
            Err(e) => {
                return Err(e);
            },
            Ok(()) => {},
        }
        if !addr_eq(&issuance.owner, program_id) {
            return Err(LockrionError::InvalidEscrowAccount);
        }
        let state = match IssuanceState::unpack(issuance_data) {
            Ok(s) => s,
            Err(e) => {
                return Err(e);
            },
        };
        let pda = match crate::pda::derive_issuance_pda(
            program_id,
            &state.issuer_address,
            state.start_ts,
            state.reserve_total,
        ) {
            Some(p) => p,
            None => {
                return Err(LockrionError::InvalidPda);
            },
        };
        if !addr_eq(&issuance.key, &pda.0) || state.bump != pda.1 {
            return Err(LockrionError::InvalidPda);
        }
        if !addr_eq(&platform_treasury.key, &state.platform_treasury) {
            return Err(LockrionError::InvalidPlatformTreasury);
        }
        if !addr_eq(&reward_escrow.key, &state.reward_escrow) {
            return Err(LockrionError::InvalidEscrowAccount);
        }
        match crate::token::validate_token_account_mint(
            reward_escrow.data.as_slice(),
            &state.reward_mint,
        ) {
            Err(e) => {
                return Err(e);
            },
            Ok(()) => {},
        }
        match crate::token::validate_token_account_mint(
            platform_treasury.data.as_slice(),
            &state.reward_mint,
        ) {
            Err(e) => {
                return Err(e);
            },
            Ok(()) => {},
        }
        match crate::token::validate_token_account_authority(
            reward_escrow.data.as_slice(),
            &pda.0,
        ) {
            Err(e) => {
                return Err(e);
            },
            Ok(()) => {},
        }
        if state.total_weight_accum == 0 {
            return Err(LockrionError::NoParticipation);
        }
        if state.sweep_executed == 1 {
            return Err(LockrionError::SweepAlreadyExecuted);
        }
        let sweep_start = match state.maturity_ts.checked_add(state.claim_window) {
            Some(t) => t,
            None => {
                return Err(LockrionError::ArithmeticOverflow);
            },
        };
        if now < sweep_start {
            return Err(LockrionError::ClaimWindowClosed);
        }
        let mut state2 = state;
        match Self::finalize_global(&mut state2, now) {
            Err(e) => {
                return Err(e);
            },
            Ok(_) => {},
        }
        let escrow_view = match crate::token::token_account_view(reward_escrow.data.as_slice()) {
            Some(v) => v,
            None => {
                return Err(LockrionError::InvalidEscrowAccount);
            },
        };
        state2.sweep_executed = 1;
        if escrow_view.amount == 0 {
            return Ok((state2, None));
        }
        let action = TransferAction {
            source: reward_escrow.key,
            dest: platform_treasury.key,
            authority: issuance.key,
            pda_signed: true,
            amount: escrow_view.amount,
        };
        proof {
            let sr = spec_sweep(
                program_id@,
                issuance@,
                issuance_data@,
                reward_escrow@,
                platform_treasury@,
                token_program@,
                now,
            );
            assert(sr is Ok);
            assert(state2@ =~= sr->Ok_0.0);
            assert(action@ =~= sr->Ok_0.1->0);
        }
        Ok((state2, Some(action)))
    }

    /// Handle a zero-participation reclaim: after maturity with no weight
    /// accumulated, return the vault's whole balance to the issuer and set
    /// the one-shot reclaim latch.
    pub fn reclaim(
        program_id: &Address,
        issuance: &SuppliedAccount,
        issuance_data: &[u8],
        issuer: &SuppliedAccount,
        issuer_reward_ata: &TokenAccountData,
        reward_escrow: &TokenAccountData,
        token_program: &Address,
        now: i64,
    ) -> (r: Result<(IssuanceState, TransferAction), LockrionError>)
        ensures
            match r {
                Ok(p) => spec_reclaim(
                    program_id@,
                    issuance@,
                    issuance_data@,
                    issuer@,
                    issuer_reward_ata@,
                    reward_escrow@,
                    token_program@,
                    now,
                ) == Ok::<(IssuanceView, TransferView), LockrionError>((p.0@, p.1@)),
                Err(e) => spec_reclaim(
                    program_id@,
                    issuance@,
                    issuance_data@,
                    issuer@,
                    issuer_reward_ata@,
                    reward_escrow@,
                    token_program@,
                    now,
                ) == Err::<(IssuanceView, TransferView), LockrionError>(e),
            },
    {
        match crate::token::validate_token_program(token_program) {
            Err(e) => {
                return Err(e);
            },
            Ok(()) => {},
        }
        if !addr_eq(&issuance.owner, program_id) {
            return Err(LockrionError::InvalidEscrowAccount);
        }
        if !issuer.is_signer {
            return Err(LockrionError::UnauthorizedCaller);
        }
        let state = match IssuanceState::unpack(issuance_data) {
            Ok(s) => s,
            Err(e) => {
                return Err(e);
            },
        };
        let pda = match crate::pda::derive_issuance_pda(
            program_id,
            &state.issuer_address,
            state.start_ts,
            state.reserve_total,
        ) {
            Some(p) => p,
            None => {
                return Err(LockrionError::InvalidPda);
            },
        };
        if !addr_eq(&issuance.key, &pda.0) || state.bump != pda.1 {
            return Err(LockrionError::InvalidPda);
        }
        if !addr_eq(&issuer.key, &state.issuer_address) {
            return Err(LockrionError::UnauthorizedCaller);
        }
        if state.reclaim_executed == 1 {
            return Err(LockrionError::ReclaimAlreadyExecuted);
        }
        if !addr_eq(&reward_escrow.key, &state.reward_escrow) {
            return Err(LockrionError::InvalidEscrowAccount);
        }
        match crate::token::validate_token_account_mint(
            reward_escrow.data.as_slice(),
            &state.reward_mint,
        ) {
            Err(e) => {
                return Err(e);
            },
            Ok(()) => {},
        }
        match crate::token::validate_token_account_authority(
            reward_escrow.data.as_slice(),
            &pda.0,
        ) {
            Err(e) => {
                return Err(e);
            },
            Ok(()) => {},
        }
        match crate::token::validate_token_account_mint(
            issuer_reward_ata.data.as_slice(),
            &state.reward_mint,
        ) {
            Err(e) => {
                return Err(e);
            },
            Ok(()) => {},
        }
        if now < state.maturity_ts {
            return Err(LockrionError::ClaimWindowNotStarted);
        }
        let mut state2 = state;
        match Self::finalize_global(&mut state2, now) {
            Err(e) => {
                return Err(e);
            },
            Ok(_) => {},
        }
        if state2.total_weight_accum != 0 {
            return Err(LockrionError::NoParticipation);
        }
        let escrow_view = match crate::token::token_account_view(reward_escrow.data.as_slice()) {
            Some(v) => v,
            None => {
                return Err(LockrionError::InvalidEscrowAccount);
            },
        };
        if escrow_view.amount == 0 {
            return Err(LockrionError::InvalidAmount);
        }
        state2.reclaim_executed = 1;
        let action = TransferAction {
            source: reward_escrow.key,
            dest: issuer_reward_ata.key,
            authority: issuance.key,
            pda_signed: true,
            amount: escrow_view.amount,
        };
        proof {
            let sr = spec_reclaim(
                program_id@,
                issuance@,
                issuance_data@,
                issuer@,
                issuer_reward_ata@,
                reward_escrow@,
                token_program@,
                now,
            );
            assert(sr is Ok);
            assert(state2@ =~= sr->Ok_0.0);
            assert(action@ =~= sr->Ok_0.1);
        }
        Ok((state2, action))
    }

    /// Handle issuance initialization: gate on the compiled-in platform
    /// authority, check the derived address and that the account is still
    /// unallocated, and build the fresh record. The host allocates the
    /// account and persists the record.
    pub fn init_issuance(
        program_id: &Address,
        payer: &SuppliedAccount,
        issuance: &SuppliedAccount,
        issuance_data_len: usize,
        lock_mint: &Address,
        reward_mint: &Address,
        deposit_escrow: &Address,
        reward_escrow: &Address,
        platform_treasury: &Address,
        system_program: &Address,
        reserve_total: u128,
        start_ts: i64,
        maturity_ts: i64,
    ) -> (r: Result<IssuanceState, LockrionError>)
        ensures
            match r {
                Ok(s) => spec_init_issuance(
                    program_id@,
                    payer@,
                    issuance@,
                    issuance_data_len,
                    lock_mint@,
                    reward_mint@,
                    deposit_escrow@,
                    reward_escrow@,
                    platform_treasury@,
                    system_program@,
                    reserve_total,
                    start_ts,
                    maturity_ts,
                ) == Ok::<IssuanceView, LockrionError>(s@),
                Err(e) => spec_init_issuance(
                    program_id@,
                    payer@,
                    issuance@,
                    issuance_data_len,
                    lock_mint@,
                    reward_mint@,
                    deposit_escrow@,
                    reward_escrow@,
                    platform_treasury@,
                    system_program@,
                    reserve_total,
                    start_ts,
                    maturity_ts,
                ) == Err::<IssuanceView, LockrionError>(e),
            },
    {
        if !payer.is_signer {
            return Err(LockrionError::UnauthorizedCaller);
        }
        let platform = crate::token::platform_authority();
        if !addr_eq(&payer.key, &platform) {
            return Err(LockrionError::UnauthorizedCaller);
        }
        let sys_id = crate::token::system_program_id();
        if !addr_eq(system_program, &sys_id) {
            return Err(LockrionError::InvalidTokenProgram);
        }
        if reserve_total == 0 {
            return Err(LockrionError::InvalidAmount);
        }
        let pda = match crate::pda::derive_issuance_pda(
            program_id,
            &payer.key,
            start_ts,
            reserve_total,
        ) {
            Some(p) => p,
            None => {
                return Err(LockrionError::InvalidPda);
            },
        };
        if !addr_eq(&issuance.key, &pda.0) {
            return Err(LockrionError::InvalidPda);
        }
        if !addr_eq(&issuance.owner, &sys_id) || issuance_data_len != 0 {
            return Err(LockrionError::InvalidEscrowAccount);
        }
        let final_day_index: u64 = if maturity_ts > start_ts {
            let diff: i128 = (maturity_ts as i128) - (start_ts as i128);
            (diff / 86400) as u64
        } else {
            0
        };
        let s = IssuanceState {
            version: crate::state::STATE_VERSION,
            bump: pda.1,
            issuer_address: payer.key,
            lock_mint: *lock_mint,
            reward_mint: *reward_mint,
            deposit_escrow: *deposit_escrow,
            reward_escrow: *reward_escrow,
            platform_treasury: *platform_treasury,
            reserve_total,
            start_ts,
            maturity_ts,
            claim_window: CLAIM_WINDOW_SECONDS,
            final_day_index,
            total_locked: 0,
            total_weight_accum: 0,
            last_day_index: 0,
            reserve_funded: 0,
            sweep_executed: 0,
            reclaim_executed: 0,
            reserved_padding: [0u8; 7],
        };
        proof {
            let sr = spec_init_issuance(
                program_id@,
                payer@,
                issuance@,
                issuance_data_len,
                lock_mint@,
                reward_mint@,
                deposit_escrow@,
                reward_escrow@,
                platform_treasury@,
                system_program@,
                reserve_total,
                start_ts,
                maturity_ts,
            );
            assert(sr is Ok);
            assert(s.reserved_padding@ =~= Seq::new(7, |i: int| 0u8));
            assert(s@ =~= sr->Ok_0);
        }
        Ok(s)
    }
}

/// Advancing a participant to their own last seen day index changes
/// nothing.
pub proof fn lemma_advance_user_noop(u: UserView)
    ensures
        spec_advance_user(u, u.user_last_day_index) == Ok::<UserView, LockrionError>(u),
{
}

} // verus!
