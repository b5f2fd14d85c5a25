//! The USDC mints of the public clusters.
use vstd::prelude::*;
use crate::keys::PublicKey;

verus! {

/// The development cluster's USDC mint.
pub const DEVNET: &'static str = "4zMMC9srt5Ri5X14GAgXhaHii3GnPAEERYPJgZJDncDU";

/// The main cluster's USDC mint.
pub const MAINNET: &'static str = "EPjFWdd5AufqSSqeM2qN1xzybapC8G4wEGGkZwyTDt1v";

/// Bytes of the development cluster's USDC mint,
/// `4zMMC9srt5Ri5X14GAgXhaHii3GnPAEERYPJgZJDncDU`.
pub open spec fn devnet_bytes() -> Seq<u8> {
    seq![
        59u8, 68, 44, 179, 145, 33, 87, 241, 58, 147, 61, 1, 52, 40, 45, 3,
        43, 95, 254, 205, 1, 162, 219, 241, 183, 121, 6, 8, 223, 0, 46, 167,
    ]
}

/// Bytes of the main cluster's USDC mint,
/// `EPjFWdd5AufqSSqeM2qN1xzybapC8G4wEGGkZwyTDt1v`.
pub open spec fn mainnet_bytes() -> Seq<u8> {
    seq![
        198u8, 250, 122, 243, 190, 219, 173, 58, 61, 101, 243, 106, 171, 201, 116, 49,
        177, 187, 228, 194, 210, 246, 224, 228, 124, 166, 2, 3, 69, 47, 93, 97,
    ]
}

pub fn devnet_mint() -> (r: PublicKey)
    ensures
        r@ == devnet_bytes(),
{
    let r = PublicKey::from_bytes([
        59u8, 68, 44, 179, 145, 33, 87, 241, 58, 147, 61, 1, 52, 40, 45, 3,
        43, 95, 254, 205, 1, 162, 219, 241, 183, 121, 6, 8, 223, 0, 46, 167,
    ]);
    assert(r@ =~= devnet_bytes());
    r
}

pub fn mainnet_mint() -> (r: PublicKey)
    ensures
        r@ == mainnet_bytes(),
{
    let r = PublicKey::from_bytes([
        198u8, 250, 122, 243, 190, 219, 173, 58, 61, 101, 243, 106, 171, 201, 116, 49,
        177, 187, 228, 194, 210, 246, 224, 228, 124, 166, 2, 3, 69, 47, 93, 97,
    ]);
    assert(r@ =~= mainnet_bytes());
    r
}

} // verus!
