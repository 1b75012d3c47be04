//! Discrete-day time accumulator.
//!
//! A timestamp maps to a bounded day index: `floor((block_ts - start_ts) /
//! 86400)`, clamped to zero below `start_ts` and to `final_day_index` above
//! the horizon. Forcing whole days and integer math keeps the weight ledger
//! bit-reproducible on every node that executes the same operation sequence.

use vstd::prelude::*;

use crate::error::LockrionError;

verus! {

/// Length of one accounting day in seconds.
pub const ACCOUNTING_PERIOD: i64 = 86_400;

/// What `raw_day_index` returns: 0 before `start_ts`; otherwise the whole
/// days elapsed since `start_ts`, unless the subtraction cannot be
/// represented in a signed 64-bit value.
pub open spec fn spec_raw_day_index(block_ts: i64, start_ts: i64) -> Result<u64, LockrionError> {
    if block_ts < start_ts {
        Ok(0u64)
    } else if block_ts - start_ts > i64::MAX {
        Err(LockrionError::ArithmeticUnderflow)
    } else {
        Ok((((block_ts - start_ts) as int) / (ACCOUNTING_PERIOD as int)) as u64)
    }
}

/// Day index of `block_ts` relative to `start_ts`, before clamping.
pub fn raw_day_index(block_ts: i64, start_ts: i64) -> (r: Result<u64, LockrionError>)
    ensures
        r == spec_raw_day_index(block_ts, start_ts),
{
    if block_ts < start_ts {
        return Ok(0);
    }
    if start_ts < 0 && block_ts > i64::MAX + start_ts {
        return Err(LockrionError::ArithmeticUnderflow);
    }
    let delta = block_ts - start_ts;
    let d = delta / ACCOUNTING_PERIOD;
    if d < 0 {
        // unreachable given the checks above; kept as a deterministic guard
        return Err(LockrionError::InvariantViolation);
    }
    Ok(d as u64)
}

/// `min(raw, final_day_index)`: the ledger closes exactly at the horizon, so
/// late operations cannot inflate weights.
pub open spec fn spec_bounded_day_index(raw: u64, final_day_index: u64) -> u64 {
    if raw > final_day_index {
        final_day_index
    } else {
        raw
    }
}

/// Clamp a raw day index to the issuance horizon.
#[verifier::when_used_as_spec(spec_bounded_day_index)]
pub fn bounded_day_index(raw: u64, final_day_index: u64) -> (r: u64)
    ensures
        r == spec_bounded_day_index(raw, final_day_index),
{
    if raw > final_day_index {
        final_day_index
    } else {
        raw
    }
}

/// Clamping is idempotent: clamping an already clamped index changes nothing.
pub proof fn lemma_bounded_day_index_idempotent(raw: u64, final_day_index: u64)
    ensures
        spec_bounded_day_index(spec_bounded_day_index(raw, final_day_index), final_day_index)
            == spec_bounded_day_index(raw, final_day_index),
{
}

/// At or past `start_ts + 86400 * final_day_index`, the bounded day index is
/// clamped to exactly `final_day_index`.
pub proof fn lemma_day_index_clamped(block_ts: i64, start_ts: i64, final_day_index: u64)
    requires
        block_ts >= start_ts,
        block_ts - start_ts <= i64::MAX,
        block_ts - start_ts >= ACCOUNTING_PERIOD * final_day_index,
    ensures
        spec_raw_day_index(block_ts, start_ts) is Ok,
        spec_bounded_day_index(spec_raw_day_index(block_ts, start_ts).unwrap(), final_day_index)
            == final_day_index,
{
    let delta = (block_ts - start_ts) as int;
    assert(delta / (ACCOUNTING_PERIOD as int) >= final_day_index) by {
        vstd::arithmetic::div_mod::lemma_div_is_ordered(
            ACCOUNTING_PERIOD * final_day_index,
            delta,
            ACCOUNTING_PERIOD as int,
        );
        vstd::arithmetic::div_mod::lemma_div_multiples_vanish(
            final_day_index as int,
            ACCOUNTING_PERIOD as int,
        );
    }
}

} // verus!
