//! AssetIdentityGuard: rejects a swap whose two sides resolve to the same
//! underlying asset, before any quote is computed.

use vstd::prelude::*;

use crate::ErrorCode;

verus! {

/// Identifier of the underlying asset type of a token account: the mint
/// address of the asset, read as four little-endian words. Two accounts
/// hold the same asset exactly when their identifiers are equal.
#[derive(Clone, Copy, Debug, PartialEq, Eq, Structural)]
pub struct AssetId {
    pub w0: u64,
    pub w1: u64,
    pub w2: u64,
    pub w3: u64,
}

/// Validates that the two sides of a swap hold different underlying
/// assets: accepts every pair of distinct identifiers and rejects every
/// pair of identical ones, independent of any balance.
pub fn is_valid_swap(from_asset: AssetId, to_asset: AssetId) -> (r: Result<(), ErrorCode>)
    ensures
        r is Ok <==> from_asset != to_asset,
        from_asset == to_asset ==> r == Err::<(), ErrorCode>(ErrorCode::SwapTokensCannotMatch),
{
    if from_asset.w0 == to_asset.w0 && from_asset.w1 == to_asset.w1 && from_asset.w2
        == to_asset.w2 && from_asset.w3 == to_asset.w3 {
        Err(ErrorCode::SwapTokensCannotMatch)
    } else {
        Ok(())
    }
}

} // verus!
