//! Byte-exact persistent record layout.
//!
//! Two record types: the issuance record (292 bytes) and the per-participant
//! record (112 bytes). All integers are little-endian at fixed offsets; the
//! first byte is the layout version and must be 1. Reserved padding is
//! written as zero on creation but not validated on read.

use vstd::prelude::*;

use crate::addr::{read_bytes, push_bytes, Address};
use crate::error::LockrionError;

verus! {

/// Size in bytes of a packed issuance record.
pub const ISSUANCE_STATE_SIZE: usize = 292;

/// Size in bytes of a packed participant record.
pub const USER_STATE_SIZE: usize = 112;

/// The only record layout version this engine reads or writes.
pub const STATE_VERSION: u8 = 1;

/// The little-endian bytes of a signed 64-bit value (its two's-complement
/// bit pattern).
pub open spec fn spec_i64_to_le_bytes(x: i64) -> Seq<u8> {
    vstd::bytes::spec_u64_to_le_bytes(x as u64)
}

/// The signed 64-bit value whose two's-complement bit pattern is the given
/// little-endian bytes.
pub open spec fn spec_i64_from_le_bytes(b: Seq<u8>) -> i64 {
    vstd::bytes::spec_u64_from_le_bytes(b) as i64
}

/// The bit pattern of a signed 64-bit value.
pub(crate) fn i64_bits(x: i64) -> (r: u64)
    ensures
        r == x as u64,
{
    #[verifier::truncate]
    (x as u64)
}

/// Read a signed 64-bit little-endian field.
pub(crate) fn i64_from_le(s: &[u8]) -> (r: i64)
    requires
        s@.len() == 8,
    ensures
        r == spec_i64_from_le_bytes(s@),
{
    let u = vstd::bytes::u64_from_le_bytes(s);
    #[verifier::truncate]
    (u as i64)
}

/// The issuance record: immutable identity and terms, plus the mutable
/// global accounting fields and one-shot latches.
#[derive(Clone, Copy, Debug, PartialEq, Eq)]
pub struct IssuanceState {
    pub version: u8,
    pub bump: u8,
    pub issuer_address: Address,
    pub lock_mint: Address,
    pub reward_mint: Address,
    pub deposit_escrow: Address,
    pub reward_escrow: Address,
    pub platform_treasury: Address,
    pub reserve_total: u128,
    pub start_ts: i64,
    pub maturity_ts: i64,
    pub claim_window: i64,
    pub final_day_index: u64,
    pub total_locked: u128,
    pub total_weight_accum: u128,
    pub last_day_index: u64,
    pub reserve_funded: u8,
    pub sweep_executed: u8,
    pub reclaim_executed: u8,
    pub reserved_padding: [u8; 7],
}

/// Mathematical model of an issuance record: addresses as byte sequences.
#[verifier::ext_equal]
pub struct IssuanceView {
    pub version: u8,
    pub bump: u8,
    pub issuer_address: Seq<u8>,
    pub lock_mint: Seq<u8>,
    pub reward_mint: Seq<u8>,
    pub deposit_escrow: Seq<u8>,
    pub reward_escrow: Seq<u8>,
    pub platform_treasury: Seq<u8>,
    pub reserve_total: u128,
    pub start_ts: i64,
    pub maturity_ts: i64,
    pub claim_window: i64,
    pub final_day_index: u64,
    pub total_locked: u128,
    pub total_weight_accum: u128,
    pub last_day_index: u64,
    pub reserve_funded: u8,
    pub sweep_executed: u8,
    pub reclaim_executed: u8,
    pub reserved_padding: Seq<u8>,
}

impl View for IssuanceState {
    type V = IssuanceView;

    open spec fn view(&self) -> IssuanceView {
        IssuanceView {
            version: self.version,
            bump: self.bump,
            issuer_address: self.issuer_address@,
            lock_mint: self.lock_mint@,
            reward_mint: self.reward_mint@,
            deposit_escrow: self.deposit_escrow@,
            reward_escrow: self.reward_escrow@,
            platform_treasury: self.platform_treasury@,
            reserve_total: self.reserve_total,
            start_ts: self.start_ts,
            maturity_ts: self.maturity_ts,
            claim_window: self.claim_window,
            final_day_index: self.final_day_index,
            total_locked: self.total_locked,
            total_weight_accum: self.total_weight_accum,
            last_day_index: self.last_day_index,
            reserve_funded: self.reserve_funded,
            sweep_executed: self.sweep_executed,
            reclaim_executed: self.reclaim_executed,
            reserved_padding: self.reserved_padding@,
        }
    }
}

/// The issuance record parsed from a 292-byte buffer, by fixed offsets.
pub open spec fn spec_parse_issuance(b: Seq<u8>) -> IssuanceView
    recommends
        b.len() == 292,
{
    IssuanceView {
        version: b[0],
        bump: b[1],
        issuer_address: b.subrange(2, 34),
        lock_mint: b.subrange(34, 66),
        reward_mint: b.subrange(66, 98),
        deposit_escrow: b.subrange(98, 130),
        reward_escrow: b.subrange(130, 162),
        platform_treasury: b.subrange(162, 194),
        reserve_total: vstd::bytes::spec_u128_from_le_bytes(b.subrange(194, 210)),
        start_ts: spec_i64_from_le_bytes(b.subrange(210, 218)),
        maturity_ts: spec_i64_from_le_bytes(b.subrange(218, 226)),
        claim_window: spec_i64_from_le_bytes(b.subrange(226, 234)),
        final_day_index: vstd::bytes::spec_u64_from_le_bytes(b.subrange(234, 242)),
        total_locked: vstd::bytes::spec_u128_from_le_bytes(b.subrange(242, 258)),
        total_weight_accum: vstd::bytes::spec_u128_from_le_bytes(b.subrange(258, 274)),
        last_day_index: vstd::bytes::spec_u64_from_le_bytes(b.subrange(274, 282)),
        reserve_funded: b[282],
        sweep_executed: b[283],
        reclaim_executed: b[284],
        reserved_padding: b.subrange(285, 292),
    }
}

/// The 292-byte serialized form of an issuance record.
pub open spec fn spec_issuance_bytes(v: IssuanceView) -> Seq<u8> {
    seq![v.version, v.bump] + v.issuer_address + v.lock_mint + v.reward_mint + v.deposit_escrow
        + v.reward_escrow + v.platform_treasury + vstd::bytes::spec_u128_to_le_bytes(v.reserve_total)
        + spec_i64_to_le_bytes(v.start_ts) + spec_i64_to_le_bytes(v.maturity_ts)
        + spec_i64_to_le_bytes(v.claim_window) + vstd::bytes::spec_u64_to_le_bytes(v.final_day_index)
        + vstd::bytes::spec_u128_to_le_bytes(v.total_locked)
        + vstd::bytes::spec_u128_to_le_bytes(v.total_weight_accum)
        + vstd::bytes::spec_u64_to_le_bytes(v.last_day_index)
        + seq![v.reserve_funded, v.sweep_executed, v.reclaim_executed] + v.reserved_padding
}

/// An issuance view with well-formed field widths, as every parsed or
/// serialized record has.
pub open spec fn issuance_view_wf(v: IssuanceView) -> bool {
    v.issuer_address.len() == 32 && v.lock_mint.len() == 32 && v.reward_mint.len() == 32
        && v.deposit_escrow.len() == 32 && v.reward_escrow.len() == 32
        && v.platform_treasury.len() == 32 && v.reserved_padding.len() == 7
}

impl IssuanceState {
    /// Parse a 292-byte buffer; rejects any other length, then any version
    /// byte other than 1.
    pub fn unpack(input: &[u8]) -> (r: Result<IssuanceState, LockrionError>)
        ensures
            input@.len() != 292 ==> r == Err::<IssuanceState, LockrionError>(
                LockrionError::InvalidAccountSize,
            ),
            input@.len() == 292 && input@[0] != STATE_VERSION ==> r == Err::<
                IssuanceState,
                LockrionError,
            >(LockrionError::InvalidStateVersion),
            input@.len() == 292 && input@[0] == STATE_VERSION ==> r is Ok && r->Ok_0@
                == spec_parse_issuance(input@),
    {
        if input.len() != ISSUANCE_STATE_SIZE {
            return Err(LockrionError::InvalidAccountSize);
        }
        let version = input[0];
        if version != STATE_VERSION {
            return Err(LockrionError::InvalidStateVersion);
        }
        let s = IssuanceState {
            version,
            bump: input[1],
            issuer_address: read_bytes::<32>(input, 2),
            lock_mint: read_bytes::<32>(input, 34),
            reward_mint: read_bytes::<32>(input, 66),
            deposit_escrow: read_bytes::<32>(input, 98),
            reward_escrow: read_bytes::<32>(input, 130),
            platform_treasury: read_bytes::<32>(input, 162),
            reserve_total: vstd::bytes::u128_from_le_bytes(
                vstd::slice::slice_subrange(input, 194, 210),
            ),
            start_ts: i64_from_le(vstd::slice::slice_subrange(input, 210, 218)),
            maturity_ts: i64_from_le(vstd::slice::slice_subrange(input, 218, 226)),
            claim_window: i64_from_le(vstd::slice::slice_subrange(input, 226, 234)),
            final_day_index: vstd::bytes::u64_from_le_bytes(
                vstd::slice::slice_subrange(input, 234, 242),
            ),
            total_locked: vstd::bytes::u128_from_le_bytes(
                vstd::slice::slice_subrange(input, 242, 258),
            ),
            total_weight_accum: vstd::bytes::u128_from_le_bytes(
                vstd::slice::slice_subrange(input, 258, 274),
            ),
            last_day_index: vstd::bytes::u64_from_le_bytes(
                vstd::slice::slice_subrange(input, 274, 282),
            ),
            reserve_funded: input[282],
            sweep_executed: input[283],
            reclaim_executed: input[284],
            reserved_padding: read_bytes::<7>(input, 285),
        };
        assert(s@ =~= spec_parse_issuance(input@));
        Ok(s)
    }

    /// Serialize to the 292-byte layout; rejects a record whose version byte
    /// is not 1.
    pub fn pack(&self) -> (r: Result<Vec<u8>, LockrionError>)
        ensures
            self.version != STATE_VERSION ==> r == Err::<Vec<u8>, LockrionError>(
                LockrionError::InvalidStateVersion,
            ),
            self.version == STATE_VERSION ==> r is Ok && r->Ok_0@ == spec_issuance_bytes(self@)
                && r->Ok_0@.len() == 292,
    {
        if self.version != STATE_VERSION {
            return Err(LockrionError::InvalidStateVersion);
        }
        let mut out: Vec<u8> = Vec::new();
        out.push(self.version);
        out.push(self.bump);
        push_bytes(&mut out, &self.issuer_address);
        push_bytes(&mut out, &self.lock_mint);
        push_bytes(&mut out, &self.reward_mint);
        push_bytes(&mut out, &self.deposit_escrow);
        push_bytes(&mut out, &self.reward_escrow);
        push_bytes(&mut out, &self.platform_treasury);
        let mut piece = vstd::bytes::u128_to_le_bytes(self.reserve_total);
        out.append(&mut piece);
        let mut piece = vstd::bytes::u64_to_le_bytes(i64_bits(self.start_ts));
        out.append(&mut piece);
        let mut piece = vstd::bytes::u64_to_le_bytes(i64_bits(self.maturity_ts));
        out.append(&mut piece);
        let mut piece = vstd::bytes::u64_to_le_bytes(i64_bits(self.claim_window));
        out.append(&mut piece);
        let mut piece = vstd::bytes::u64_to_le_bytes(self.final_day_index);
        out.append(&mut piece);
        let mut piece = vstd::bytes::u128_to_le_bytes(self.total_locked);
        out.append(&mut piece);
        let mut piece = vstd::bytes::u128_to_le_bytes(self.total_weight_accum);
        out.append(&mut piece);
        let mut piece = vstd::bytes::u64_to_le_bytes(self.last_day_index);
        out.append(&mut piece);
        out.push(self.reserve_funded);
        out.push(self.sweep_executed);
        out.push(self.reclaim_executed);
        push_bytes(&mut out, &self.reserved_padding);
        proof {
            vstd::bytes::lemma_auto_spec_u64_to_from_le_bytes();
            vstd::bytes::lemma_auto_spec_u128_to_from_le_bytes();
            assert(out@ =~= spec_issuance_bytes(self@));
        }
        Ok(out)
    }

    /// Whether the one-shot funding latch is set.
    pub fn is_reserve_funded(&self) -> (r: bool)
        ensures
            r <==> self.reserve_funded == 1,
    {
        self.reserve_funded == 1
    }

    /// Whether the one-shot sweep latch is set.
    pub fn is_sweep_executed(&self) -> (r: bool)
        ensures
            r <==> self.sweep_executed == 1,
    {
        self.sweep_executed == 1
    }

    /// Whether the one-shot reclaim latch is set.
    pub fn is_reclaim_executed(&self) -> (r: bool)
        ensures
            r <==> self.reclaim_executed == 1,
    {
        self.reclaim_executed == 1
    }
}

/// The per-participant record: cross-references to the issuance, the
/// participant's locked amount, accumulated weight, and the claim latch.
#[derive(Clone, Copy, Debug, PartialEq, Eq)]
pub struct UserState {
    pub version: u8,
    pub bump: u8,
    pub issuance: Address,
    pub participant: Address,
    pub locked_amount: u128,
    pub user_weight_accum: u128,
    pub user_last_day_index: u64,
    pub reward_claimed: u8,
    pub reserved_padding: [u8; 5],
}

/// Mathematical model of a participant record.
#[verifier::ext_equal]
pub struct UserView {
    pub version: u8,
    pub bump: u8,
    pub issuance: Seq<u8>,
    pub participant: Seq<u8>,
    pub locked_amount: u128,
    pub user_weight_accum: u128,
    pub user_last_day_index: u64,
    pub reward_claimed: u8,
    pub reserved_padding: Seq<u8>,
}

impl View for UserState {
    type V = UserView;

    open spec fn view(&self) -> UserView {
        UserView {
            version: self.version,
            bump: self.bump,
            issuance: self.issuance@,
            participant: self.participant@,
            locked_amount: self.locked_amount,
            user_weight_accum: self.user_weight_accum,
            user_last_day_index: self.user_last_day_index,
            reward_claimed: self.reward_claimed,
            reserved_padding: self.reserved_padding@,
        }
    }
}

/// The participant record parsed from a 112-byte buffer, by fixed offsets.
pub open spec fn spec_parse_user(b: Seq<u8>) -> UserView
    recommends
        b.len() == 112,
{
    UserView {
        version: b[0],
        bump: b[1],
        issuance: b.subrange(2, 34),
        participant: b.subrange(34, 66),
        locked_amount: vstd::bytes::spec_u128_from_le_bytes(b.subrange(66, 82)),
        user_weight_accum: vstd::bytes::spec_u128_from_le_bytes(b.subrange(82, 98)),
        user_last_day_index: vstd::bytes::spec_u64_from_le_bytes(b.subrange(98, 106)),
        reward_claimed: b[106],
        reserved_padding: b.subrange(107, 112),
    }
}

/// The 112-byte serialized form of a participant record.
pub open spec fn spec_user_bytes(v: UserView) -> Seq<u8> {
    seq![v.version, v.bump] + v.issuance + v.participant + vstd::bytes::spec_u128_to_le_bytes(
        v.locked_amount,
    ) + vstd::bytes::spec_u128_to_le_bytes(v.user_weight_accum)
        + vstd::bytes::spec_u64_to_le_bytes(v.user_last_day_index) + seq![v.reward_claimed]
        + v.reserved_padding
}

/// A participant view with well-formed field widths.
pub open spec fn user_view_wf(v: UserView) -> bool {
    v.issuance.len() == 32 && v.participant.len() == 32 && v.reserved_padding.len() == 5
}

impl UserState {
    /// Parse a 112-byte buffer; rejects any other length, then any version
    /// byte other than 1.
    pub fn unpack(input: &[u8]) -> (r: Result<UserState, LockrionError>)
        ensures
            input@.len() != 112 ==> r == Err::<UserState, LockrionError>(
                LockrionError::InvalidAccountSize,
            ),
            input@.len() == 112 && input@[0] != STATE_VERSION ==> r == Err::<
                UserState,
                LockrionError,
            >(LockrionError::InvalidStateVersion),
            input@.len() == 112 && input@[0] == STATE_VERSION ==> r is Ok && r->Ok_0@
                == spec_parse_user(input@),
    {
        if input.len() != USER_STATE_SIZE {
            return Err(LockrionError::InvalidAccountSize);
        }
        let version = input[0];
        if version != STATE_VERSION {
            return Err(LockrionError::InvalidStateVersion);
        }
        let s = UserState {
            version,
            bump: input[1],
            issuance: read_bytes::<32>(input, 2),
            participant: read_bytes::<32>(input, 34),
            locked_amount: vstd::bytes::u128_from_le_bytes(
                vstd::slice::slice_subrange(input, 66, 82),
            ),
            user_weight_accum: vstd::bytes::u128_from_le_bytes(
                vstd::slice::slice_subrange(input, 82, 98),
            ),
            user_last_day_index: vstd::bytes::u64_from_le_bytes(
                vstd::slice::slice_subrange(input, 98, 106),
            ),
            reward_claimed: input[106],
            reserved_padding: read_bytes::<5>(input, 107),
        };
        assert(s@ =~= spec_parse_user(input@));
        Ok(s)
    }

    /// Serialize to the 112-byte layout; rejects a record whose version byte
    /// is not 1.
    pub fn pack(&self) -> (r: Result<Vec<u8>, LockrionError>)
        ensures
            self.version != STATE_VERSION ==> r == Err::<Vec<u8>, LockrionError>(
                LockrionError::InvalidStateVersion,
            ),
            self.version == STATE_VERSION ==> r is Ok && r->Ok_0@ == spec_user_bytes(self@)
                && r->Ok_0@.len() == 112,
    {
        if self.version != STATE_VERSION {
            return Err(LockrionError::InvalidStateVersion);
        }
        let mut out: Vec<u8> = Vec::new();
        out.push(self.version);
        out.push(self.bump);
        push_bytes(&mut out, &self.issuance);
        push_bytes(&mut out, &self.participant);
        let mut piece = vstd::bytes::u128_to_le_bytes(self.locked_amount);
        out.append(&mut piece);
        let mut piece = vstd::bytes::u128_to_le_bytes(self.user_weight_accum);
        out.append(&mut piece);
        let mut piece = vstd::bytes::u64_to_le_bytes(self.user_last_day_index);
        out.append(&mut piece);
        out.push(self.reward_claimed);
        push_bytes(&mut out, &self.reserved_padding);
        proof {
            vstd::bytes::lemma_auto_spec_u64_to_from_le_bytes();
            vstd::bytes::lemma_auto_spec_u128_to_from_le_bytes();
            assert(out@ =~= spec_user_bytes(self@));
        }
        Ok(out)
    }

    /// Whether the one-shot claim latch is set.
    pub fn is_reward_claimed(&self) -> (r: bool)
        ensures
            r <==> self.reward_claimed == 1,
    {
        self.reward_claimed == 1
    }
}

/// Parsing a valid 112-byte buffer and serializing the parse reproduces the
/// buffer byte for byte.
pub proof fn lemma_user_roundtrip(b: Seq<u8>)
    requires
        b.len() == 112,
    ensures
        spec_user_bytes(spec_parse_user(b)) == b,
{
    vstd::bytes::lemma_auto_spec_u64_to_from_le_bytes();
    vstd::bytes::lemma_auto_spec_u128_to_from_le_bytes();
    let v = spec_parse_user(b);
    assert(spec_user_bytes(v) =~= b);
}

/// Serializing any participant record and parsing the bytes yields back the
/// record's view.
pub proof fn lemma_user_bytes_parse(v: UserView)
    requires
        user_view_wf(v),
    ensures
        spec_user_bytes(v).len() == 112,
        spec_parse_user(spec_user_bytes(v)) == v,
{
    vstd::bytes::lemma_auto_spec_u64_to_from_le_bytes();
    vstd::bytes::lemma_auto_spec_u128_to_from_le_bytes();
    let b = spec_user_bytes(v);
    let p = spec_parse_user(b);
    assert(p.issuance =~= v.issuance);
    assert(p.participant =~= v.participant);
    assert(p.reserved_padding =~= v.reserved_padding);
    assert(b.subrange(66, 82) =~= vstd::bytes::spec_u128_to_le_bytes(v.locked_amount));
    assert(b.subrange(82, 98) =~= vstd::bytes::spec_u128_to_le_bytes(v.user_weight_accum));
    assert(b.subrange(98, 106) =~= vstd::bytes::spec_u64_to_le_bytes(v.user_last_day_index));
    assert(p =~= v);
}

/// Parsing a valid 292-byte buffer and serializing the parse reproduces the
/// buffer byte for byte.
pub proof fn lemma_issuance_roundtrip(b: Seq<u8>)
    requires
        b.len() == 292,
    ensures
        spec_issuance_bytes(spec_parse_issuance(b)) == b,
{
    vstd::bytes::lemma_auto_spec_u64_to_from_le_bytes();
    vstd::bytes::lemma_auto_spec_u128_to_from_le_bytes();
    let v = spec_parse_issuance(b);
    assert forall|sub: Seq<u8>| sub.len() == 8 implies #[trigger] vstd::bytes::spec_u64_to_le_bytes(
        spec_i64_from_le_bytes(sub) as u64,
    ) == sub by {
        let u = vstd::bytes::spec_u64_from_le_bytes(sub);
        assert((u as i64) as u64 == u) by (bit_vector);
    }
    assert(spec_issuance_bytes(v) =~= b);
}

/// Serializing any record and parsing the bytes yields back the record's
/// view.
pub proof fn lemma_issuance_bytes_parse(v: IssuanceView)
    requires
        issuance_view_wf(v),
    ensures
        spec_issuance_bytes(v).len() == 292,
        spec_parse_issuance(spec_issuance_bytes(v)) == v,
{
    vstd::bytes::lemma_auto_spec_u64_to_from_le_bytes();
    vstd::bytes::lemma_auto_spec_u128_to_from_le_bytes();
    let b = spec_issuance_bytes(v);
    assert forall|x: i64| #[trigger] spec_i64_from_le_bytes(spec_i64_to_le_bytes(x)) == x by {
        assert(vstd::bytes::spec_u64_from_le_bytes(
            vstd::bytes::spec_u64_to_le_bytes(x as u64),
        ) == x as u64);
        assert(((x as u64) as i64) == x) by (bit_vector);
    }
    let p = spec_parse_issuance(b);
    assert(p.issuer_address =~= v.issuer_address);
    assert(p.lock_mint =~= v.lock_mint);
    assert(p.reward_mint =~= v.reward_mint);
    assert(p.deposit_escrow =~= v.deposit_escrow);
    assert(p.reward_escrow =~= v.reward_escrow);
    assert(p.platform_treasury =~= v.platform_treasury);
    assert(p.reserved_padding =~= v.reserved_padding);
    assert(b.subrange(194, 210) =~= vstd::bytes::spec_u128_to_le_bytes(v.reserve_total));
    assert(b.subrange(210, 218) =~= spec_i64_to_le_bytes(v.start_ts));
    assert(b.subrange(218, 226) =~= spec_i64_to_le_bytes(v.maturity_ts));
    assert(b.subrange(226, 234) =~= spec_i64_to_le_bytes(v.claim_window));
    assert(b.subrange(234, 242) =~= vstd::bytes::spec_u64_to_le_bytes(v.final_day_index));
    assert(b.subrange(242, 258) =~= vstd::bytes::spec_u128_to_le_bytes(v.total_locked));
    assert(b.subrange(258, 274) =~= vstd::bytes::spec_u128_to_le_bytes(v.total_weight_accum));
    assert(b.subrange(274, 282) =~= vstd::bytes::spec_u64_to_le_bytes(v.last_day_index));
    assert(p =~= v);
}

} // verus!
