//! Verified reads of the two token-account fields the swap flow needs.
//!
//! A ledger token account stores its state as raw bytes: the mint address
//! of the asset at offsets 0..32 and the unsigned 64-bit balance,
//! little-endian, at offsets 64..72. The surrounding code hands the raw
//! bytes in; these functions extract the fields exactly.

use vstd::prelude::*;

use crate::guard::AssetId;

verus! {

/// Little-endian value of the eight bytes at `off .. off + 8`.
pub open spec fn spec_u64_le(data: Seq<u8>, off: int) -> int {
    data[off] + 0x100 * (data[off + 1] + 0x100 * (data[off + 2] + 0x100 * (data[off + 3] + 0x100
        * (data[off + 4] + 0x100 * (data[off + 5] + 0x100 * (data[off + 6] + 0x100 * data[off
        + 7]))))))
}

/// Reads the little-endian 64-bit word at `off`.
pub fn read_u64_le(data: &[u8], off: usize) -> (r: u64)
    requires
        off + 8 <= data@.len(),
    ensures
        r == spec_u64_le(data@, off as int),
{
    let n = data.len();
    assert(off + 8 <= n);
    let mut acc: u64 = data[off + 7] as u64;
    acc = acc * 0x100 + data[off + 6] as u64;
    acc = acc * 0x100 + data[off + 5] as u64;
    acc = acc * 0x100 + data[off + 4] as u64;
    acc = acc * 0x100 + data[off + 3] as u64;
    acc = acc * 0x100 + data[off + 2] as u64;
    acc = acc * 0x100 + data[off + 1] as u64;
    acc = acc * 0x100 + data[off] as u64;
    acc
}

/// The balance a token account stores at bytes 64..72.
pub open spec fn spec_token_amount(data: Seq<u8>) -> int {
    spec_u64_le(data, 64)
}

/// The asset identifier a token account stores at bytes 0..32.
pub open spec fn spec_token_mint(data: Seq<u8>) -> AssetId {
    AssetId {
        w0: spec_u64_le(data, 0) as u64,
        w1: spec_u64_le(data, 8) as u64,
        w2: spec_u64_le(data, 16) as u64,
        w3: spec_u64_le(data, 24) as u64,
    }
}

/// Extracts the balance of a token account from its raw bytes.
pub fn token_amount(data: &[u8]) -> (r: u64)
    requires
        data@.len() >= 72,
    ensures
        r == spec_token_amount(data@),
{
    read_u64_le(data, 64)
}

/// Extracts the asset identifier (the mint address) of a token account
/// from its raw bytes.
pub fn token_mint(data: &[u8]) -> (r: AssetId)
    requires
        data@.len() >= 32,
    ensures
        r == spec_token_mint(data@),
{
    AssetId {
        w0: read_u64_le(data, 0),
        w1: read_u64_le(data, 8),
        w2: read_u64_le(data, 16),
        w3: read_u64_le(data, 24),
    }
}

} // verus!
