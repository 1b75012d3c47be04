//! Deterministic derivation of record addresses.
//!
//! The issuance record's address is derived from the program identity and
//! the canonical seed sequence ("issuance", issuer, start_ts little-endian,
//! reserve_total little-endian); a participant record's address from
//! ("user", issuance address, participant). Byte order and field order are
//! part of the on-wire contract: any change yields a different address and
//! the validator rejects the operation.

use vstd::prelude::*;

use crate::addr::Address;
use crate::state::spec_i64_to_le_bytes;

verus! {

/// The result of the host's program-address derivation: a function of the
/// seed slices and the program identity alone, when one exists.
pub uninterp spec fn program_address_of(program_id: Seq<u8>, seeds: Seq<Seq<u8>>) -> Option<
    (Seq<u8>, u8),
>;

/// Relies on solana_program's `Pubkey::try_find_program_address`: a pure
/// hash-based search over bump seeds, deterministic in the seed slices and
/// program id; `None` only when no viable bump seed exists.
#[verifier::external_body]
fn find_program_address(seeds: &Vec<Vec<u8>>, program_id: &Address) -> (r: Option<(Address, u8)>)
    ensures
        match r {
            Some(p) => program_address_of(program_id@, seeds.deep_view()) == Some((p.0@, p.1)),
            None => program_address_of(program_id@, seeds.deep_view()) is None,
        },
{
    let seed_refs: Vec<&[u8]> = seeds.iter().map(|s| s.as_slice()).collect();
    let pk = solana_program::pubkey::Pubkey::new_from_array(*program_id);
    solana_program::pubkey::Pubkey::try_find_program_address(&seed_refs, &pk)
        .map(|(a, bump)| (a.to_bytes(), bump))
}

/// The seed prefix of an issuance record address: the bytes of "issuance".
pub open spec fn seed_issuance() -> Seq<u8> {
    seq![105u8, 115u8, 115u8, 117u8, 97u8, 110u8, 99u8, 101u8]
}

/// The seed prefix of a participant record address: the bytes of "user".
pub open spec fn seed_user() -> Seq<u8> {
    seq![117u8, 115u8, 101u8, 114u8]
}

/// The canonical seed sequence of an issuance record address.
pub open spec fn spec_issuance_seeds(issuer: Seq<u8>, start_ts: i64, reserve_total: u128) -> Seq<
    Seq<u8>,
> {
    seq![
        seed_issuance(),
        issuer,
        spec_i64_to_le_bytes(start_ts),
        vstd::bytes::spec_u128_to_le_bytes(reserve_total),
    ]
}

/// The canonical seed sequence of a participant record address.
pub open spec fn spec_user_seeds(issuance_pda: Seq<u8>, participant: Seq<u8>) -> Seq<Seq<u8>> {
    seq![seed_user(), issuance_pda, participant]
}

/// The derived address and bump of an issuance record, from its immutable
/// identity inputs.
pub open spec fn spec_issuance_pda(
    program_id: Seq<u8>,
    issuer: Seq<u8>,
    start_ts: i64,
    reserve_total: u128,
) -> Option<(Seq<u8>, u8)> {
    program_address_of(program_id, spec_issuance_seeds(issuer, start_ts, reserve_total))
}

/// The derived address and bump of a participant record.
pub open spec fn spec_user_pda(
    program_id: Seq<u8>,
    issuance_pda: Seq<u8>,
    participant: Seq<u8>,
) -> Option<(Seq<u8>, u8)> {
    program_address_of(program_id, spec_user_seeds(issuance_pda, participant))
}

/// Bytes of the "issuance" seed prefix.
fn seed_issuance_bytes() -> (r: Vec<u8>)
    ensures
        r@ == seed_issuance(),
{
    let mut v: Vec<u8> = Vec::new();
    v.push(105);
    v.push(115);
    v.push(115);
    v.push(117);
    v.push(97);
    v.push(110);
    v.push(99);
    v.push(101);
    proof {
        assert(v@ =~= seed_issuance());
    }
    v
}

/// Bytes of the "user" seed prefix.
fn seed_user_bytes() -> (r: Vec<u8>)
    ensures
        r@ == seed_user(),
{
    let mut v: Vec<u8> = Vec::new();
    v.push(117);
    v.push(115);
    v.push(101);
    v.push(114);
    proof {
        assert(v@ =~= seed_user());
    }
    v
}

/// Derive the canonical issuance record address and bump.
pub fn derive_issuance_pda(
    program_id: &Address,
    issuer_address: &Address,
    start_ts: i64,
    reserve_total: u128,
) -> (r: Option<(Address, u8)>)
    ensures
        match r {
            Some(p) => spec_issuance_pda(program_id@, issuer_address@, start_ts, reserve_total)
                == Some((p.0@, p.1)),
            None => spec_issuance_pda(program_id@, issuer_address@, start_ts, reserve_total)
                is None,
        },
{
    let mut seeds: Vec<Vec<u8>> = Vec::new();
    seeds.push(seed_issuance_bytes());
    let mut issuer: Vec<u8> = Vec::new();
    crate::addr::push_bytes(&mut issuer, issuer_address);
    seeds.push(issuer);
    seeds.push(vstd::bytes::u64_to_le_bytes(crate::state::i64_bits(start_ts)));
    seeds.push(vstd::bytes::u128_to_le_bytes(reserve_total));
    proof {
        assert(seeds.deep_view()[0] =~= seed_issuance());
        assert(seeds.deep_view()[1] =~= issuer_address@);
        assert(seeds.deep_view()[2] =~= spec_i64_to_le_bytes(start_ts));
        assert(seeds.deep_view()[3] =~= vstd::bytes::spec_u128_to_le_bytes(reserve_total));
        assert(seeds.deep_view() =~= spec_issuance_seeds(
            issuer_address@,
            start_ts,
            reserve_total,
        ));
    }
    find_program_address(&seeds, program_id)
}

/// Derive the canonical participant record address and bump.
pub fn derive_user_pda(program_id: &Address, issuance_pda: &Address, participant: &Address) -> (r:
    Option<(Address, u8)>)
    ensures
        match r {
            Some(p) => spec_user_pda(program_id@, issuance_pda@, participant@) == Some(
                (p.0@, p.1),
            ),
            None => spec_user_pda(program_id@, issuance_pda@, participant@) is None,
        },
{
    let mut seeds: Vec<Vec<u8>> = Vec::new();
    seeds.push(seed_user_bytes());
    let mut ipda: Vec<u8> = Vec::new();
    crate::addr::push_bytes(&mut ipda, issuance_pda);
    seeds.push(ipda);
    let mut part: Vec<u8> = Vec::new();
    crate::addr::push_bytes(&mut part, participant);
    seeds.push(part);
    proof {
        assert(seeds.deep_view()[0] =~= seed_user());
        assert(seeds.deep_view()[1] =~= issuance_pda@);
        assert(seeds.deep_view()[2] =~= participant@);
        assert(seeds.deep_view() =~= spec_user_seeds(issuance_pda@, participant@));
    }
    find_program_address(&seeds, program_id)
}

} // verus!
