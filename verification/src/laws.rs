//! Invariants of the accounting engine and the laws the operations obey.
//!
//! The joint invariant ties one participant record to the issuance record:
//! day indices bounded by the horizon, the participant never ahead of the
//! global ledger, and the global weight accumulator covering the
//! participant's realized weight plus the unrealized weight of days not yet
//! refreshed. Every operation preserves it; the proportional payout formula
//! can then never hand out more than the reserve.

use vstd::prelude::*;

use vstd::arithmetic::div_mod::{
    lemma_fundamental_div_mod, lemma_div_is_ordered, lemma_div_multiples_vanish,
};
use vstd::arithmetic::mul::{
    lemma_mul_is_distributive_add, lemma_mul_inequality, lemma_mul_nonnegative,
    lemma_mul_is_commutative,
};

use crate::error::LockrionError;
use crate::state::{IssuanceView, UserView};
use crate::processor::{
    spec_finalize_global, spec_advance_user, spec_apply_accumulators, spec_reward_amount,
};

verus! {

/// The issuance record's own invariant: the ledger never advances past the
/// day horizon.
pub open spec fn spec_issuance_inv(v: IssuanceView) -> bool {
    v.last_day_index <= v.final_day_index
}

/// The weight half of the joint invariant: the participant is never ahead
/// of the global ledger, and the global weight accumulator covers the
/// participant's realized weight plus the unrealized weight of the days
/// not yet refreshed.
pub open spec fn spec_weight_inv(v: IssuanceView, u: UserView) -> bool {
    &&& u.user_last_day_index <= v.last_day_index
    &&& u.user_weight_accum + u.locked_amount * (v.last_day_index - u.user_last_day_index)
        <= v.total_weight_accum
}

/// The joint invariant of the issuance record and one participant record:
/// the weight half, plus the participant holding no more than the total.
pub open spec fn spec_pair_inv(v: IssuanceView, u: UserView) -> bool {
    &&& spec_weight_inv(v, u)
    &&& u.locked_amount <= v.total_locked
}

/// Finalizing the global ledger preserves the invariants for any
/// participant whose lock does not exceed the total: the ledger and the
/// weight accumulator only grow, everything else is untouched.
pub proof fn lemma_finalize_global_preserves_inv(v: IssuanceView, u: UserView, now: i64)
    requires
        spec_pair_inv(v, u),
        spec_finalize_global(v, now) is Ok,
    ensures
        ({
            let (v2, cur) = spec_finalize_global(v, now)->Ok_0;
            &&& spec_issuance_inv(v2)
            &&& spec_pair_inv(v2, u)
            &&& v2.last_day_index >= v.last_day_index
            &&& cur <= v2.last_day_index
            &&& v2.total_weight_accum >= v.total_weight_accum
            &&& v2 == IssuanceView {
                total_weight_accum: v2.total_weight_accum,
                last_day_index: v2.last_day_index,
                ..v
            }
        }),
{
    let (v2, cur) = spec_finalize_global(v, now)->Ok_0;
    let last = v.last_day_index as int;
    let ulast = u.user_last_day_index as int;
    if cur > v.last_day_index {
        let d = cur - last;
        assert(u.locked_amount * ((cur - ulast) as int) == u.locked_amount * (last - ulast)
            + u.locked_amount * d) by {
            lemma_mul_is_distributive_add(u.locked_amount as int, last - ulast, d);
        }
        assert(u.locked_amount * d <= v.total_locked * d) by {
            lemma_mul_inequality(u.locked_amount as int, v.total_locked as int, d);
        }
    }
}

/// Under the joint invariant, advancing a participant to any day index the
/// global ledger has already reached cannot overflow, and preserves the
/// invariant; only the participant's weight and day index change.
pub proof fn lemma_advance_user_preserves_inv(v: IssuanceView, u: UserView, current: u64)
    requires
        spec_pair_inv(v, u),
        current <= v.last_day_index,
    ensures
        spec_advance_user(u, current) is Ok,
        ({
            let u2 = spec_advance_user(u, current)->Ok_0;
            &&& spec_pair_inv(v, u2)
            &&& u2 == UserView {
                user_weight_accum: u2.user_weight_accum,
                user_last_day_index: u2.user_last_day_index,
                ..u
            }
        }),
{
    let last = v.last_day_index as int;
    let ulast = u.user_last_day_index as int;
    let cur = current as int;
    if current > u.user_last_day_index {
        assert(u.locked_amount * (last - ulast) == u.locked_amount * (cur - ulast)
            + u.locked_amount * (last - cur)) by {
            lemma_mul_is_distributive_add(u.locked_amount as int, cur - ulast, last - cur);
        }
        assert(u.locked_amount * (last - cur) >= 0) by {
            lemma_mul_nonnegative(u.locked_amount as int, last - cur);
        }
    }
}

/// Under the joint invariant, applying both accumulators succeeds exactly
/// when the global step does, and preserves the invariant; afterward the
/// participant's lock and weight relation to the ledger is intact.
pub proof fn lemma_apply_accumulators_preserves_inv(v: IssuanceView, u: UserView, now: i64)
    requires
        spec_pair_inv(v, u),
    ensures
        spec_apply_accumulators(v, u, now) is Ok <==> spec_finalize_global(v, now) is Ok,
        spec_apply_accumulators(v, u, now) is Ok ==> ({
            let (v2, u2) = spec_apply_accumulators(v, u, now)->Ok_0;
            &&& spec_issuance_inv(v2)
            &&& spec_pair_inv(v2, u2)
            &&& v2.last_day_index >= v.last_day_index
            &&& u2.user_last_day_index >= u.user_last_day_index
            &&& (v2 == IssuanceView {
                total_weight_accum: v2.total_weight_accum,
                last_day_index: v2.last_day_index,
                ..v
            })
            &&& (u2 == UserView {
                user_weight_accum: u2.user_weight_accum,
                user_last_day_index: u2.user_last_day_index,
                ..u
            })
        }),
{
    if spec_finalize_global(v, now) is Ok {
        let (v2, cur) = spec_finalize_global(v, now)->Ok_0;
        lemma_finalize_global_preserves_inv(v, u, now);
        lemma_advance_user_preserves_inv(v2, u, cur);
    }
}

/// Sub-additivity of floor division: for non-negative `x`, `y` and a
/// positive divisor, `x/d + y/d <= (x+y)/d`.
pub proof fn lemma_div_subadditive(x: int, y: int, d: int)
    requires
        x >= 0,
        y >= 0,
        d > 0,
    ensures
        x / d + y / d <= (x + y) / d,
{
    lemma_fundamental_div_mod(x, d);
    lemma_fundamental_div_mod(y, d);
    let q = x / d + y / d;
    assert(d * q == d * (x / d) + d * (y / d)) by {
        lemma_mul_is_distributive_add(d, x / d, y / d);
    }
    assert(x + y >= d * q);
    assert((d * q) / d == q) by {
        lemma_div_multiples_vanish(q, d);
    }
    lemma_div_is_ordered(d * q, x + y, d);
}

/// A floor share of the reserve never exceeds the reserve itself when the
/// participant's weight is at most the total weight.
pub proof fn lemma_reward_le_reserve(reserve: u128, user_weight: u128, total_weight: u128)
    requires
        total_weight > 0,
        user_weight <= total_weight,
    ensures
        0 <= spec_reward_amount(reserve, user_weight, total_weight) <= reserve,
{
    let r = reserve as int;
    let w = user_weight as int;
    let t = total_weight as int;
    assert(r * w <= r * t) by {
        lemma_mul_inequality(w, t, r);
        lemma_mul_is_commutative(w, r);
        lemma_mul_is_commutative(t, r);
    }
    lemma_div_is_ordered(r * w, r * t, t);
    assert((r * t) / t == r) by {
        lemma_mul_is_commutative(r, t);
        lemma_div_multiples_vanish(r, t);
    }
    assert(r * w >= 0) by {
        lemma_mul_nonnegative(r, w);
    }
    assert(r * w / t >= 0) by {
        vstd::arithmetic::div_mod::lemma_div_pos_is_pos(r * w, t);
    }
}

/// Two participants with identical accounting state (same locked amount,
/// accumulated weight and last refreshed day) are advanced identically and
/// receive identical rewards, whatever their identities.
pub proof fn lemma_equal_histories_equal_rewards(
    v: IssuanceView,
    u_p: UserView,
    u_q: UserView,
    current: u64,
)
    requires
        u_p.locked_amount == u_q.locked_amount,
        u_p.user_weight_accum == u_q.user_weight_accum,
        u_p.user_last_day_index == u_q.user_last_day_index,
        spec_advance_user(u_p, current) is Ok,
    ensures
        spec_advance_user(u_q, current) is Ok,
        ({
            let p2 = spec_advance_user(u_p, current)->Ok_0;
            let q2 = spec_advance_user(u_q, current)->Ok_0;
            &&& p2.user_weight_accum == q2.user_weight_accum
            &&& p2.user_last_day_index == q2.user_last_day_index
            &&& spec_reward_amount(v.reserve_total, p2.user_weight_accum, v.total_weight_accum)
                == spec_reward_amount(v.reserve_total, q2.user_weight_accum, v.total_weight_accum)
        }),
{
}

/// A fresh issuance record satisfies the invariants: the ledger starts at
/// day zero, both accumulators at zero, every latch clear, and the day
/// horizon equal to the whole days between start and maturity.
pub proof fn lemma_init_issuance_establishes_inv(
    program_id: Seq<u8>,
    payer: crate::processor::SuppliedAccountView,
    issuance: crate::processor::SuppliedAccountView,
    issuance_data_len: usize,
    lock_mint: Seq<u8>,
    reward_mint: Seq<u8>,
    deposit_escrow: Seq<u8>,
    reward_escrow: Seq<u8>,
    platform_treasury: Seq<u8>,
    system_program: Seq<u8>,
    reserve_total: u128,
    start_ts: i64,
    maturity_ts: i64,
)
    requires
        crate::processor::spec_init_issuance(
            program_id,
            payer,
            issuance,
            issuance_data_len,
            lock_mint,
            reward_mint,
            deposit_escrow,
            reward_escrow,
            platform_treasury,
            system_program,
            reserve_total,
            start_ts,
            maturity_ts,
        ) is Ok,
    ensures
        ({
            let v = crate::processor::spec_init_issuance(
                program_id,
                payer,
                issuance,
                issuance_data_len,
                lock_mint,
                reward_mint,
                deposit_escrow,
                reward_escrow,
                platform_treasury,
                system_program,
                reserve_total,
                start_ts,
                maturity_ts,
            )->Ok_0;
            &&& spec_issuance_inv(v)
            &&& v.total_locked == 0 && v.total_weight_accum == 0 && v.last_day_index == 0
            &&& v.reserve_funded == 0 && v.sweep_executed == 0 && v.reclaim_executed == 0
            &&& v.reserve_total > 0
            &&& v.final_day_index == (if maturity_ts > start_ts {
                ((maturity_ts - start_ts) / 86400) as u64
            } else {
                0u64
            })
        }),
{
}

/// Funding is one-shot: the first phase succeeds only while the latch is
/// clear, and the completing phase sets the latch and changes nothing
/// else.
pub proof fn lemma_fund_reserve_latch(v: IssuanceView, reward_escrow_data: Seq<u8>)
    requires
        crate::processor::spec_fund_reserve_finish(v, reward_escrow_data) is Ok,
    ensures
        (crate::processor::spec_fund_reserve_finish(v, reward_escrow_data)->Ok_0 == IssuanceView {
            reserve_funded: 1u8,
            ..v
        }),
        (spec_issuance_inv(v) ==> spec_issuance_inv(
            crate::processor::spec_fund_reserve_finish(v, reward_escrow_data)->Ok_0,
        )),
{
}

/// A successful sweep requires participation, a clear latch, and sets the
/// latch; the ledger invariant holds afterward and the accounting totals
/// are untouched.
pub proof fn lemma_sweep_latch(
    program_id: Seq<u8>,
    issuance: crate::processor::SuppliedAccountView,
    issuance_data: Seq<u8>,
    reward_escrow: crate::processor::TokenAccountDataView,
    platform_treasury: crate::processor::TokenAccountDataView,
    token_program: Seq<u8>,
    now: i64,
)
    requires
        crate::processor::spec_sweep(
            program_id,
            issuance,
            issuance_data,
            reward_escrow,
            platform_treasury,
            token_program,
            now,
        ) is Ok,
    ensures
        ({
            let v = crate::state::spec_parse_issuance(issuance_data);
            let (v2, act) = crate::processor::spec_sweep(
                program_id,
                issuance,
                issuance_data,
                reward_escrow,
                platform_treasury,
                token_program,
                now,
            )->Ok_0;
            &&& v.total_weight_accum != 0
            &&& v.sweep_executed != 1
            &&& v2.sweep_executed == 1
            &&& v2.reclaim_executed == v.reclaim_executed
            &&& v2.total_locked == v.total_locked
            &&& spec_issuance_inv(v2)
        }),
{
}

/// A successful reclaim requires zero participation — before and after the
/// ledger is finalized — a clear latch, and sets the latch; the ledger
/// invariant holds afterward.
pub proof fn lemma_reclaim_latch(
    program_id: Seq<u8>,
    issuance: crate::processor::SuppliedAccountView,
    issuance_data: Seq<u8>,
    issuer: crate::processor::SuppliedAccountView,
    issuer_reward_ata: crate::processor::TokenAccountDataView,
    reward_escrow: crate::processor::TokenAccountDataView,
    token_program: Seq<u8>,
    now: i64,
)
    requires
        crate::processor::spec_reclaim(
            program_id,
            issuance,
            issuance_data,
            issuer,
            issuer_reward_ata,
            reward_escrow,
            token_program,
            now,
        ) is Ok,
    ensures
        ({
            let v = crate::state::spec_parse_issuance(issuance_data);
            let (v2, act) = crate::processor::spec_reclaim(
                program_id,
                issuance,
                issuance_data,
                issuer,
                issuer_reward_ata,
                reward_escrow,
                token_program,
                now,
            )->Ok_0;
            &&& v.total_weight_accum == 0
            &&& v.reclaim_executed != 1
            &&& v2.reclaim_executed == 1
            &&& v2.sweep_executed == v.sweep_executed
            &&& v2.total_weight_accum == 0
            &&& spec_issuance_inv(v2)
        }),
{
    let v = crate::state::spec_parse_issuance(issuance_data);
    let r = crate::processor::spec_reclaim(
        program_id,
        issuance,
        issuance_data,
        issuer,
        issuer_reward_ata,
        reward_escrow,
        token_program,
        now,
    );
    let (v2, act) = r->Ok_0;
    match spec_finalize_global(v, now) {
        Ok((vf, cur)) => {
            if cur > v.last_day_index {
                assert(v.total_locked * ((cur - v.last_day_index) as int) >= 0) by {
                    lemma_mul_nonnegative(
                        v.total_locked as int,
                        cur - v.last_day_index,
                    );
                }
            }
        },
        Err(_) => {},
    }
}

/// Sweep and reclaim are mutually exclusive outcomes: on one record state,
/// at most one of the two can succeed, since sweep demands accumulated
/// weight and reclaim demands none — and the weight ledger never
/// decreases.
pub proof fn lemma_sweep_reclaim_exclusive(
    program_id: Seq<u8>,
    issuance: crate::processor::SuppliedAccountView,
    issuance_data: Seq<u8>,
    reward_escrow: crate::processor::TokenAccountDataView,
    platform_treasury: crate::processor::TokenAccountDataView,
    issuer: crate::processor::SuppliedAccountView,
    issuer_reward_ata: crate::processor::TokenAccountDataView,
    token_program: Seq<u8>,
    now_s: i64,
    now_r: i64,
)
    ensures
        !(crate::processor::spec_sweep(
            program_id,
            issuance,
            issuance_data,
            reward_escrow,
            platform_treasury,
            token_program,
            now_s,
        ) is Ok && crate::processor::spec_reclaim(
            program_id,
            issuance,
            issuance_data,
            issuer,
            issuer_reward_ata,
            reward_escrow,
            token_program,
            now_r,
        ) is Ok),
{
    if crate::processor::spec_reclaim(
        program_id,
        issuance,
        issuance_data,
        issuer,
        issuer_reward_ata,
        reward_escrow,
        token_program,
        now_r,
    ) is Ok {
        lemma_reclaim_latch(
            program_id,
            issuance,
            issuance_data,
            issuer,
            issuer_reward_ata,
            reward_escrow,
            token_program,
            now_r,
        );
    }
}

/// The host clock is not behind the ledger: the bounded day index of `now`
/// is at least the record's last seen day. The host guarantees this by
/// providing a monotonic clock at per-operation granularity.
pub open spec fn spec_clock_fresh(v: IssuanceView, now: i64) -> bool {
    &&& crate::accumulator::spec_raw_day_index(now, v.start_ts) is Ok
    &&& crate::accumulator::spec_bounded_day_index(
        crate::accumulator::spec_raw_day_index(now, v.start_ts)->Ok_0,
        v.final_day_index,
    ) >= v.last_day_index
}

/// A successful deposit preserves the invariants and grows both records by
/// exactly the deposited amount, leaving the participant fully refreshed.
/// For an account that already holds a record, that record must be valid
/// and satisfy the joint invariant; the clock must not be behind the
/// ledger.
pub proof fn lemma_deposit_preserves_inv(
    program_id: Seq<u8>,
    issuance: crate::processor::SuppliedAccountView,
    issuance_data: Seq<u8>,
    user: crate::processor::SuppliedAccountView,
    user_data: Seq<u8>,
    participant: crate::processor::SuppliedAccountView,
    participant_lock_ata: crate::processor::TokenAccountDataView,
    deposit_escrow: crate::processor::TokenAccountDataView,
    token_program: Seq<u8>,
    system_program: Seq<u8>,
    now: i64,
    amount: u64,
)
    requires
        crate::processor::spec_deposit(
            program_id,
            issuance,
            issuance_data,
            user,
            user_data,
            participant,
            participant_lock_ata,
            deposit_escrow,
            token_program,
            system_program,
            now,
            amount,
        ) is Ok,
        spec_clock_fresh(crate::state::spec_parse_issuance(issuance_data), now),
        user.owner == program_id ==> user_data.len() == 112 && user_data[0]
            == crate::state::STATE_VERSION && spec_pair_inv(
            crate::state::spec_parse_issuance(issuance_data),
            crate::state::spec_parse_user(user_data),
        ),
    ensures
        ({
            let v = crate::state::spec_parse_issuance(issuance_data);
            let (v3, u3, created, act) = crate::processor::spec_deposit(
                program_id,
                issuance,
                issuance_data,
                user,
                user_data,
                participant,
                participant_lock_ata,
                deposit_escrow,
                token_program,
                system_program,
                now,
                amount,
            )->Ok_0;
            &&& spec_issuance_inv(v3)
            &&& spec_pair_inv(v3, u3)
            &&& created == (user.owner != program_id)
            &&& v3.total_locked == v.total_locked + amount
            &&& u3.locked_amount == (if created {
                0int
            } else {
                crate::state::spec_parse_user(user_data).locked_amount as int
            }) + amount
            &&& u3.user_last_day_index == v3.last_day_index
            &&& act.amount == amount
            &&& v3.reserve_funded == v.reserve_funded
            &&& v3.sweep_executed == v.sweep_executed
            &&& v3.reclaim_executed == v.reclaim_executed
            &&& u3.reward_claimed == (if created {
                0u8
            } else {
                crate::state::spec_parse_user(user_data).reward_claimed
            })
        }),
{
    let v = crate::state::spec_parse_issuance(issuance_data);
    let pda = crate::pda::spec_issuance_pda(
        program_id,
        v.issuer_address,
        v.start_ts,
        v.reserve_total,
    );
    let pda_key = match pda {
        Some(p) => p.0,
        None => Seq::<u8>::empty(),
    };
    let upda = crate::pda::spec_user_pda(program_id, pda_key, participant.key);
    let upda_bump = match upda {
        Some(p) => p.1,
        None => 0u8,
    };
    let created = user.owner != program_id;
    let u0 = if created {
        crate::processor::spec_fresh_user(upda_bump, issuance.key, participant.key,
            v.last_day_index)
    } else {
        crate::state::spec_parse_user(
            crate::processor::spec_user_init_bytes(
                user_data,
                upda_bump,
                issuance.key,
                participant.key,
                v.last_day_index,
            ),
        )
    };
    assert(spec_pair_inv(v, u0));
    lemma_apply_accumulators_preserves_inv(v, u0, now);
    let (v2, u2) = spec_apply_accumulators(v, u0, now)->Ok_0;
    let cur = crate::accumulator::spec_bounded_day_index(
        crate::accumulator::spec_raw_day_index(now, v.start_ts)->Ok_0,
        v.final_day_index,
    );
    assert(v2.last_day_index == cur);
    assert(u2.user_last_day_index == cur);
    assert(u2.locked_amount * ((v2.last_day_index - u2.user_last_day_index) as int) == 0) by {
        vstd::arithmetic::mul::lemma_mul_by_zero_is_zero(u2.locked_amount as int);
    }
    let (v3, u3, created_r, act) = crate::processor::spec_deposit(
        program_id,
        issuance,
        issuance_data,
        user,
        user_data,
        participant,
        participant_lock_ata,
        deposit_escrow,
        token_program,
        system_program,
        now,
        amount,
    )->Ok_0;
    assert(v3.last_day_index == u3.user_last_day_index);
    assert(u3.locked_amount * ((v3.last_day_index - u3.user_last_day_index) as int) == 0) by {
        vstd::arithmetic::mul::lemma_mul_by_zero_is_zero(u3.locked_amount as int);
    }
}

/// A successful claim preserves the invariants, changes no locked amounts,
/// sets the one-shot claim latch, and pays out at most the whole reserve.
pub proof fn lemma_claim_preserves_inv(
    program_id: Seq<u8>,
    issuance: crate::processor::SuppliedAccountView,
    issuance_data: Seq<u8>,
    user: crate::processor::SuppliedAccountView,
    user_data: Seq<u8>,
    participant: crate::processor::SuppliedAccountView,
    participant_reward_ata: crate::processor::TokenAccountDataView,
    reward_escrow: crate::processor::TokenAccountDataView,
    token_program: Seq<u8>,
    now: i64,
)
    requires
        crate::processor::spec_claim_reward(
            program_id,
            issuance,
            issuance_data,
            user,
            user_data,
            participant,
            participant_reward_ata,
            reward_escrow,
            token_program,
            now,
        ) is Ok,
        spec_pair_inv(
            crate::state::spec_parse_issuance(issuance_data),
            crate::state::spec_parse_user(user_data),
        ),
    ensures
        ({
            let v = crate::state::spec_parse_issuance(issuance_data);
            let u = crate::state::spec_parse_user(user_data);
            let (v3, u3, act) = crate::processor::spec_claim_reward(
                program_id,
                issuance,
                issuance_data,
                user,
                user_data,
                participant,
                participant_reward_ata,
                reward_escrow,
                token_program,
                now,
            )->Ok_0;
            &&& spec_issuance_inv(v3)
            &&& spec_pair_inv(v3, u3)
            &&& u.reward_claimed != 1 && u3.reward_claimed == 1
            &&& v3.total_locked == v.total_locked
            &&& u3.locked_amount == u.locked_amount
            &&& v3.reserve_total == v.reserve_total
            &&& act.amount <= v.reserve_total
        }),
{
    let v = crate::state::spec_parse_issuance(issuance_data);
    let u = crate::state::spec_parse_user(user_data);
    lemma_apply_accumulators_preserves_inv(v, u, now);
    let (v2, u2) = spec_apply_accumulators(v, u, now)->Ok_0;
    assert(u2.locked_amount * ((v2.last_day_index - u2.user_last_day_index) as int) >= 0) by {
        lemma_mul_nonnegative(
            u2.locked_amount as int,
            v2.last_day_index - u2.user_last_day_index,
        );
    }
    assert(u2.user_weight_accum <= v2.total_weight_accum);
    lemma_reward_le_reserve(v2.reserve_total, u2.user_weight_accum, v2.total_weight_accum);
}

/// A successful withdrawal preserves the invariants, removes exactly the
/// participant's locked amount from the total, and empties the record; the
/// refunded amount is the participant's whole principal.
pub proof fn lemma_withdraw_preserves_inv(
    program_id: Seq<u8>,
    issuance: crate::processor::SuppliedAccountView,
    issuance_data: Seq<u8>,
    user: crate::processor::SuppliedAccountView,
    user_data: Seq<u8>,
    participant: crate::processor::SuppliedAccountView,
    participant_lock_ata: crate::processor::TokenAccountDataView,
    deposit_escrow: crate::processor::TokenAccountDataView,
    token_program: Seq<u8>,
    now: i64,
)
    requires
        crate::processor::spec_withdraw_deposit(
            program_id,
            issuance,
            issuance_data,
            user,
            user_data,
            participant,
            participant_lock_ata,
            deposit_escrow,
            token_program,
            now,
        ) is Ok,
        spec_pair_inv(
            crate::state::spec_parse_issuance(issuance_data),
            crate::state::spec_parse_user(user_data),
        ),
    ensures
        ({
            let v = crate::state::spec_parse_issuance(issuance_data);
            let u = crate::state::spec_parse_user(user_data);
            let (v3, u3, act) = crate::processor::spec_withdraw_deposit(
                program_id,
                issuance,
                issuance_data,
                user,
                user_data,
                participant,
                participant_lock_ata,
                deposit_escrow,
                token_program,
                now,
            )->Ok_0;
            &&& spec_issuance_inv(v3)
            &&& spec_pair_inv(v3, u3)
            &&& u.locked_amount > 0
            &&& v3.total_locked == v.total_locked - u.locked_amount
            &&& u3.locked_amount == 0
            &&& act.amount == u.locked_amount
            &&& u3.reward_claimed == u.reward_claimed
            &&& v3.reserve_funded == v.reserve_funded
            &&& v3.sweep_executed == v.sweep_executed
            &&& v3.reclaim_executed == v.reclaim_executed
        }),
{
    let v = crate::state::spec_parse_issuance(issuance_data);
    let u = crate::state::spec_parse_user(user_data);
    lemma_apply_accumulators_preserves_inv(v, u, now);
    let (v2, u2) = spec_apply_accumulators(v, u, now)->Ok_0;
    assert(u2.locked_amount * ((v2.last_day_index - u2.user_last_day_index) as int) >= 0) by {
        lemma_mul_nonnegative(
            u2.locked_amount as int,
            v2.last_day_index - u2.user_last_day_index,
        );
    }
    let (v3, u3, act) = crate::processor::spec_withdraw_deposit(
        program_id,
        issuance,
        issuance_data,
        user,
        user_data,
        participant,
        participant_lock_ata,
        deposit_escrow,
        token_program,
        now,
    )->Ok_0;
    assert(u3.locked_amount * ((v3.last_day_index - u3.user_last_day_index) as int) == 0) by {
        lemma_mul_is_commutative(
            u3.locked_amount as int,
            v3.last_day_index - u3.user_last_day_index,
        );
        vstd::arithmetic::mul::lemma_mul_by_zero_is_zero(
            v3.last_day_index - u3.user_last_day_index,
        );
    }
}

/// The sum of a sequence of weights.
pub open spec fn seq_sum(ws: Seq<u128>) -> int
    decreases ws.len(),
{
    if ws.len() == 0 {
        0
    } else {
        ws[0] + seq_sum(ws.subrange(1, ws.len() as int))
    }
}

/// The sum of the floor shares of a common reserve over a sequence of
/// weights.
pub open spec fn seq_reward_sum(ws: Seq<u128>, reserve: u128, total_weight: u128) -> int
    decreases ws.len(),
{
    if ws.len() == 0 {
        0
    } else {
        spec_reward_amount(reserve, ws[0], total_weight) + seq_reward_sum(
            ws.subrange(1, ws.len() as int),
            reserve,
            total_weight,
        )
    }
}

/// A sum of weights is never negative.
pub proof fn lemma_seq_sum_nonneg(ws: Seq<u128>)
    ensures
        seq_sum(ws) >= 0,
    decreases ws.len(),
{
    if ws.len() > 0 {
        lemma_seq_sum_nonneg(ws.subrange(1, ws.len() as int));
    }
}

/// The floor shares of a common reserve sum to at most the share of the
/// summed weight.
pub proof fn lemma_reward_sum_le_share_of_sum(ws: Seq<u128>, reserve: u128, total_weight: u128)
    requires
        total_weight > 0,
    ensures
        seq_reward_sum(ws, reserve, total_weight) <= (reserve * seq_sum(ws)) / (
        total_weight as int),
        seq_reward_sum(ws, reserve, total_weight) >= 0,
    decreases ws.len(),
{
    let r = reserve as int;
    let t = total_weight as int;
    if ws.len() == 0 {
        assert((r * 0) / t == 0) by {
            vstd::arithmetic::div_mod::lemma_div_of0(t);
        }
    } else {
        let rest = ws.subrange(1, ws.len() as int);
        lemma_reward_sum_le_share_of_sum(rest, reserve, total_weight);
        lemma_seq_sum_nonneg(rest);
        assert(r * (ws[0] + seq_sum(rest)) == r * ws[0] + r * seq_sum(rest)) by {
            lemma_mul_is_distributive_add(r, ws[0] as int, seq_sum(rest));
        }
        assert(r * ws[0] >= 0) by {
            lemma_mul_nonnegative(r, ws[0] as int);
        }
        assert(r * seq_sum(rest) >= 0) by {
            lemma_mul_nonnegative(r, seq_sum(rest));
        }
        lemma_div_subadditive(r * ws[0], r * seq_sum(rest), t);
        assert((r * ws[0]) / t >= 0) by {
            vstd::arithmetic::div_mod::lemma_div_pos_is_pos(r * ws[0], t);
        }
    }
}

/// The payout bound: when the participants' weights sum to at most the
/// total weight, the floor shares of the reserve sum to at most the
/// reserve. The rounding residue stays in the vault for the sweep.
pub proof fn lemma_floor_shares_bounded(ws: Seq<u128>, reserve: u128, total_weight: u128)
    requires
        total_weight > 0,
        seq_sum(ws) <= total_weight,
    ensures
        0 <= seq_reward_sum(ws, reserve, total_weight) <= reserve,
{
    let r = reserve as int;
    let t = total_weight as int;
    let s = seq_sum(ws);
    lemma_reward_sum_le_share_of_sum(ws, reserve, total_weight);
    lemma_seq_sum_nonneg(ws);
    assert(r * s <= r * t) by {
        lemma_mul_inequality(s, t, r);
        lemma_mul_is_commutative(s, r);
        lemma_mul_is_commutative(t, r);
    }
    lemma_div_is_ordered(r * s, r * t, t);
    assert((r * t) / t == r) by {
        lemma_mul_is_commutative(r, t);
        lemma_div_multiples_vanish(r, t);
    }
}

} // verus!
