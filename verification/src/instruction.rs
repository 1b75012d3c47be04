//! Operation payload decoding.
//!
//! An operation arrives as an opaque payload: one tag byte, then the
//! little-endian concatenation of the operation's parameters in declaration
//! order. Nothing may trail the last parameter.

use vstd::prelude::*;

use crate::error::LockrionError;
use crate::state::{spec_i64_from_le_bytes, spec_i64_to_le_bytes};

verus! {

/// The seven operations and their parameters.
#[derive(Clone, Copy, Debug, PartialEq, Eq, Structural)]
pub enum LockrionInstruction {
    /// Create and initialize the issuance record.
    InitIssuance { reserve_total: u128, start_ts: i64, maturity_ts: i64 },
    /// Move the full reward reserve into escrow; `amount` must equal the
    /// stored `reserve_total`.
    FundReserve { amount: u64 },
    /// Lock `amount` units of the deposit asset.
    Deposit { amount: u64 },
    /// Pay out the caller's proportional share of the reserve.
    ClaimReward,
    /// Return the caller's locked principal after maturity.
    WithdrawDeposit,
    /// Move what remains in the reward escrow to the platform sink after the
    /// claim window.
    Sweep,
    /// Return the whole reserve to the issuer when nobody participated.
    ZeroParticipationReclaim,
}

/// The instruction encoded by a payload: the tag byte selects the operation
/// and the rest must be exactly its parameters.
pub open spec fn spec_parse_instruction(b: Seq<u8>) -> Result<
    LockrionInstruction,
    LockrionError,
> {
    if b.len() == 0 {
        Err(LockrionError::InvalidInstruction)
    } else if b[0] == 0 {
        if b.len() == 33 {
            Ok(LockrionInstruction::InitIssuance {
                reserve_total: vstd::bytes::spec_u128_from_le_bytes(b.subrange(1, 17)),
                start_ts: spec_i64_from_le_bytes(b.subrange(17, 25)),
                maturity_ts: spec_i64_from_le_bytes(b.subrange(25, 33)),
            })
        } else {
            Err(LockrionError::InvalidInstruction)
        }
    } else if b[0] == 1 {
        if b.len() == 9 {
            Ok(LockrionInstruction::FundReserve {
                amount: vstd::bytes::spec_u64_from_le_bytes(b.subrange(1, 9)),
            })
        } else {
            Err(LockrionError::InvalidInstruction)
        }
    } else if b[0] == 2 {
        if b.len() == 9 {
            Ok(LockrionInstruction::Deposit {
                amount: vstd::bytes::spec_u64_from_le_bytes(b.subrange(1, 9)),
            })
        } else {
            Err(LockrionError::InvalidInstruction)
        }
    } else if b[0] == 3 && b.len() == 1 {
        Ok(LockrionInstruction::ClaimReward)
    } else if b[0] == 4 && b.len() == 1 {
        Ok(LockrionInstruction::WithdrawDeposit)
    } else if b[0] == 5 && b.len() == 1 {
        Ok(LockrionInstruction::Sweep)
    } else if b[0] == 6 && b.len() == 1 {
        Ok(LockrionInstruction::ZeroParticipationReclaim)
    } else {
        Err(LockrionError::InvalidInstruction)
    }
}

/// The canonical payload of an instruction.
pub open spec fn spec_instruction_bytes(ix: LockrionInstruction) -> Seq<u8> {
    match ix {
        LockrionInstruction::InitIssuance { reserve_total, start_ts, maturity_ts } => seq![0u8]
            + vstd::bytes::spec_u128_to_le_bytes(reserve_total) + spec_i64_to_le_bytes(start_ts)
            + spec_i64_to_le_bytes(maturity_ts),
        LockrionInstruction::FundReserve { amount } => seq![1u8]
            + vstd::bytes::spec_u64_to_le_bytes(amount),
        LockrionInstruction::Deposit { amount } => seq![2u8] + vstd::bytes::spec_u64_to_le_bytes(
            amount,
        ),
        LockrionInstruction::ClaimReward => seq![3u8],
        LockrionInstruction::WithdrawDeposit => seq![4u8],
        LockrionInstruction::Sweep => seq![5u8],
        LockrionInstruction::ZeroParticipationReclaim => seq![6u8],
    }
}

/// Decode an operation payload.
pub fn parse_instruction(data: &[u8]) -> (r: Result<LockrionInstruction, LockrionError>)
    ensures
        r == spec_parse_instruction(data@),
{
    if data.len() == 0 {
        return Err(LockrionError::InvalidInstruction);
    }
    let tag = data[0];
    if tag == 0 {
        if data.len() != 33 {
            return Err(LockrionError::InvalidInstruction);
        }
        let reserve_total = vstd::bytes::u128_from_le_bytes(
            vstd::slice::slice_subrange(data, 1, 17),
        );
        let start_ts = crate::state::i64_from_le(vstd::slice::slice_subrange(data, 17, 25));
        let maturity_ts = crate::state::i64_from_le(vstd::slice::slice_subrange(data, 25, 33));
        Ok(LockrionInstruction::InitIssuance { reserve_total, start_ts, maturity_ts })
    } else if tag == 1 {
        if data.len() != 9 {
            return Err(LockrionError::InvalidInstruction);
        }
        let amount = vstd::bytes::u64_from_le_bytes(vstd::slice::slice_subrange(data, 1, 9));
        Ok(LockrionInstruction::FundReserve { amount })
    } else if tag == 2 {
        if data.len() != 9 {
            return Err(LockrionError::InvalidInstruction);
        }
        let amount = vstd::bytes::u64_from_le_bytes(vstd::slice::slice_subrange(data, 1, 9));
        Ok(LockrionInstruction::Deposit { amount })
    } else if tag == 3 && data.len() == 1 {
        Ok(LockrionInstruction::ClaimReward)
    } else if tag == 4 && data.len() == 1 {
        Ok(LockrionInstruction::WithdrawDeposit)
    } else if tag == 5 && data.len() == 1 {
        Ok(LockrionInstruction::Sweep)
    } else if tag == 6 && data.len() == 1 {
        Ok(LockrionInstruction::ZeroParticipationReclaim)
    } else {
        Err(LockrionError::InvalidInstruction)
    }
}

/// Encode an instruction as its canonical payload.
pub fn serialize_instruction(ix: &LockrionInstruction) -> (r: Vec<u8>)
    ensures
        r@ == spec_instruction_bytes(*ix),
{
    let mut out: Vec<u8> = Vec::new();
    match ix {
        LockrionInstruction::InitIssuance { reserve_total, start_ts, maturity_ts } => {
            out.push(0);
            let mut piece = vstd::bytes::u128_to_le_bytes(*reserve_total);
            out.append(&mut piece);
            let mut piece = vstd::bytes::u64_to_le_bytes(crate::state::i64_bits(*start_ts));
            out.append(&mut piece);
            let mut piece = vstd::bytes::u64_to_le_bytes(crate::state::i64_bits(*maturity_ts));
            out.append(&mut piece);
        },
        LockrionInstruction::FundReserve { amount } => {
            out.push(1);
            let mut piece = vstd::bytes::u64_to_le_bytes(*amount);
            out.append(&mut piece);
        },
        LockrionInstruction::Deposit { amount } => {
            out.push(2);
            let mut piece = vstd::bytes::u64_to_le_bytes(*amount);
            out.append(&mut piece);
        },
        LockrionInstruction::ClaimReward => out.push(3),
        LockrionInstruction::WithdrawDeposit => out.push(4),
        LockrionInstruction::Sweep => out.push(5),
        LockrionInstruction::ZeroParticipationReclaim => out.push(6),
    }
    proof {
        assert(out@ =~= spec_instruction_bytes(*ix));
    }
    out
}

/// Decoding a valid payload and re-encoding the decoded instruction
/// reproduces the payload byte for byte.
pub proof fn lemma_instruction_roundtrip(b: Seq<u8>)
    requires
        spec_parse_instruction(b) is Ok,
    ensures
        spec_instruction_bytes(spec_parse_instruction(b)->Ok_0) == b,
{
    vstd::bytes::lemma_auto_spec_u64_to_from_le_bytes();
    vstd::bytes::lemma_auto_spec_u128_to_from_le_bytes();
    assert forall|sub: Seq<u8>| sub.len() == 8 implies #[trigger] vstd::bytes::spec_u64_to_le_bytes(
        spec_i64_from_le_bytes(sub) as u64,
    ) == sub by {
        let u = vstd::bytes::spec_u64_from_le_bytes(sub);
        assert((u as i64) as u64 == u) by (bit_vector);
    }
    assert(spec_instruction_bytes(spec_parse_instruction(b)->Ok_0) =~= b);
}

/// Encoding any instruction and decoding the payload yields back the
/// instruction.
pub proof fn lemma_instruction_bytes_parse(ix: LockrionInstruction)
    ensures
        spec_parse_instruction(spec_instruction_bytes(ix)) == Ok::<
            LockrionInstruction,
            LockrionError,
        >(ix),
{
    vstd::bytes::lemma_auto_spec_u64_to_from_le_bytes();
    vstd::bytes::lemma_auto_spec_u128_to_from_le_bytes();
    assert forall|x: i64| #[trigger] spec_i64_from_le_bytes(spec_i64_to_le_bytes(x)) == x by {
        assert(vstd::bytes::spec_u64_from_le_bytes(
            vstd::bytes::spec_u64_to_le_bytes(x as u64),
        ) == x as u64);
        assert(((x as u64) as i64) == x) by (bit_vector);
    }
    let b = spec_instruction_bytes(ix);
    match ix {
        LockrionInstruction::InitIssuance { reserve_total, start_ts, maturity_ts } => {
            assert(b.subrange(1, 17) =~= vstd::bytes::spec_u128_to_le_bytes(reserve_total));
            assert(b.subrange(17, 25) =~= spec_i64_to_le_bytes(start_ts));
            assert(b.subrange(25, 33) =~= spec_i64_to_le_bytes(maturity_ts));
        },
        LockrionInstruction::FundReserve { amount } => {
            assert(b.subrange(1, 9) =~= vstd::bytes::spec_u64_to_le_bytes(amount));
        },
        LockrionInstruction::Deposit { amount } => {
            assert(b.subrange(1, 9) =~= vstd::bytes::spec_u64_to_le_bytes(amount));
        },
        _ => {},
    }
}

} // verus!
