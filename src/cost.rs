//! The storage-cost model: what a new account must hold to keep its program
//! image and its runtime state alive.
use vstd::prelude::*;

verus! {

/// Bytes reserved beyond the image itself, for state that the runtime
/// allocates on the account.
pub const STORAGE_MARGIN_BYTES: u128 = 5120;

/// The ledger's storage price, in yoctoNEAR per byte (10^19).
pub const NEAR_PER_STORAGE: u128 = 10_000_000_000_000_000_000;

/// `price_per_byte * (image_len + 5120)`, over unbounded integers.
pub open spec fn minimum_escrow_spec(image_len: nat, price_per_byte: nat) -> int {
    price_per_byte * (image_len + STORAGE_MARGIN_BYTES)
}

/// The minimum escrow for an image of `image_len` bytes, or `None` where it
/// does not fit in a `u128`.
pub fn minimum_escrow(image_len: usize, price_per_byte: u128) -> (r: Option<u128>)
    ensures
        r matches Some(v) ==> v == minimum_escrow_spec(image_len as nat, price_per_byte as nat),
        r is None <==> minimum_escrow_spec(image_len as nat, price_per_byte as nat) > u128::MAX,
{
    let bytes: u128 = image_len as u128 + STORAGE_MARGIN_BYTES;
    price_per_byte.checked_mul(bytes)
}

} // verus!
