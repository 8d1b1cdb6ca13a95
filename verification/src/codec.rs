//! The stored shape of a pool record, and instruction-payload parsing.
//!
//! The record is a fixed-size, versioned byte layout: a version tag, the
//! supply and the rate in little-endian order, the 32 admin bytes, and one
//! byte for each flag. Encoding and decoding are exact inverses, proved in
//! [`lemma_pool_record_round_trip`].

use vstd::prelude::*;

use crate::errors::PoolError;
use crate::identity::Identity;
use crate::ledger::Pool;
use crate::ledger::PoolView;

verus! {

/// The version tag written at the head of every stored record, so fields
/// can be added later without breaking existing stored instances.
pub const POOL_RECORD_VERSION: u8 = 1;

/// The stored size: tag, supply, rate, admin, and the two flags.
pub const POOL_RECORD_LEN: usize = 51;

/// How a flag is stored.
pub open spec fn bool_byte(b: bool) -> u8 {
    if b {
        1u8
    } else {
        0u8
    }
}

/// Whether a stored byte is a valid flag.
pub open spec fn is_bool_byte(x: u8) -> bool {
    x == 0 || x == 1
}

/// The exact bytes a pool record is stored as.
pub open spec fn spec_encode_pool(v: PoolView) -> Seq<u8> {
    seq![POOL_RECORD_VERSION] + vstd::bytes::spec_u64_to_le_bytes(v.total_supply)
        + vstd::bytes::spec_u64_to_le_bytes(v.interest_rate) + v.admin.spec_bytes() + seq![
        bool_byte(v.emergency_withdraw_enabled),
        bool_byte(v.operation_in_progress),
    ]
}

/// Whether stored bytes are a well-formed record of the current version.
pub open spec fn record_well_formed(data: Seq<u8>) -> bool {
    data.len() == POOL_RECORD_LEN && data[0] == POOL_RECORD_VERSION && is_bool_byte(data[49])
        && is_bool_byte(data[50])
}

/// Writes the pool record in its stored shape.
pub fn encode_pool(pool: &Pool) -> (r: Vec<u8>)
    ensures
        r@ == spec_encode_pool(pool@),
        r@.len() == POOL_RECORD_LEN,
{
    let mut out: Vec<u8> = Vec::new();
    out.push(POOL_RECORD_VERSION);
    let mut supply_bytes = vstd::bytes::u64_to_le_bytes(pool.total_supply());
    out.append(&mut supply_bytes);
    let mut rate_bytes = vstd::bytes::u64_to_le_bytes(pool.interest_rate());
    out.append(&mut rate_bytes);
    let admin = pool.admin().to_bytes();
    let mut admin_bytes = vstd::slice::slice_to_vec(admin.as_slice());
    out.append(&mut admin_bytes);
    out.push(if pool.emergency_withdraw_enabled() { 1 } else { 0 });
    out.push(if pool.operation_in_progress() { 1 } else { 0 });
    proof {
        assert(out@ =~= spec_encode_pool(pool@));
    }
    out
}

/// Reads a pool record back from its stored shape, failing with
/// `InvalidInput` exactly when the bytes are no well-formed record.
pub fn decode_pool(data: &[u8]) -> (r: Result<Pool, PoolError>)
    ensures
        record_well_formed(data@) <==> r is Ok,
        !record_well_formed(data@) ==> r == Err::<Pool, PoolError>(PoolError::InvalidInput),
        r is Ok ==> r.unwrap()@.total_supply == vstd::bytes::spec_u64_from_le_bytes(
            data@.subrange(1, 9),
        ),
        r is Ok ==> r.unwrap()@.interest_rate == vstd::bytes::spec_u64_from_le_bytes(
            data@.subrange(9, 17),
        ),
        r is Ok ==> r.unwrap()@.admin.spec_bytes() == data@.subrange(17, 49),
        r is Ok ==> r.unwrap()@.emergency_withdraw_enabled == (data@[49] == 1),
        r is Ok ==> r.unwrap()@.operation_in_progress == (data@[50] == 1),
{
    if data.len() != POOL_RECORD_LEN {
        return Err(PoolError::InvalidInput);
    }
    let version = *vstd::slice::slice_index_get(data, 0);
    if version != POOL_RECORD_VERSION {
        return Err(PoolError::InvalidInput);
    }
    let emergency_byte = *vstd::slice::slice_index_get(data, 49);
    let progress_byte = *vstd::slice::slice_index_get(data, 50);
    if emergency_byte > 1 || progress_byte > 1 {
        return Err(PoolError::InvalidInput);
    }
    let total_supply = vstd::bytes::u64_from_le_bytes(vstd::slice::slice_subrange(data, 1, 9));
    let interest_rate = vstd::bytes::u64_from_le_bytes(vstd::slice::slice_subrange(data, 9, 17));
    let admin = Identity::from_slice(vstd::slice::slice_subrange(data, 17, 49));
    Ok(
        Pool::from_parts(
            total_supply,
            interest_rate,
            admin,
            emergency_byte == 1,
            progress_byte == 1,
        ),
    )
}

/// Encoding then decoding gives the record back: the encoded bytes are a
/// well-formed record and every stored field reads back as written.
pub proof fn lemma_pool_record_round_trip(v: PoolView)
    ensures
        record_well_formed(spec_encode_pool(v)),
        vstd::bytes::spec_u64_from_le_bytes(spec_encode_pool(v).subrange(1, 9)) == v.total_supply,
        vstd::bytes::spec_u64_from_le_bytes(spec_encode_pool(v).subrange(9, 17))
            == v.interest_rate,
        spec_encode_pool(v).subrange(17, 49) == v.admin.spec_bytes(),
        (spec_encode_pool(v)[49] == 1) == v.emergency_withdraw_enabled,
        (spec_encode_pool(v)[50] == 1) == v.operation_in_progress,
{
    v.admin.lemma_bytes_len();
    vstd::bytes::lemma_auto_spec_u64_to_from_le_bytes();
    let e = spec_encode_pool(v);
    assert(e.subrange(1, 9) =~= vstd::bytes::spec_u64_to_le_bytes(v.total_supply));
    assert(e.subrange(9, 17) =~= vstd::bytes::spec_u64_to_le_bytes(v.interest_rate));
    assert(e.subrange(17, 49) =~= v.admin.spec_bytes());
}

/// Reads the little-endian amount from the head of an instruction payload,
/// failing with `InvalidInput` exactly when fewer than 8 bytes arrived.
pub fn read_amount(data: &[u8]) -> (r: Result<u64, PoolError>)
    ensures
        data@.len() >= 8 ==> r == Ok::<u64, PoolError>(
            vstd::bytes::spec_u64_from_le_bytes(data@.subrange(0, 8)),
        ),
        data@.len() < 8 ==> r == Err::<u64, PoolError>(PoolError::InvalidInput),
{
    if data.len() < 8 {
        return Err(PoolError::InvalidInput);
    }
    let head = vstd::slice::slice_subrange(data, 0, 8);
    Ok(vstd::bytes::u64_from_le_bytes(head))
}

} // verus!
