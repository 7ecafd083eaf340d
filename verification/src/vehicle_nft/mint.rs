use vstd::prelude::*;
use crate::key::Pubkey;
use crate::vehicle_nft::state::{VehicleMetadata, VehicleStatus};

verus! {

/// Records the metadata of a new vehicle token: the vehicle is reserved for `buyer`
/// under the order at `order_pda`.
pub fn mint_vehicle_nft(
    mint: Pubkey,
    vin: String,
    model: String,
    color: String,
    delivery_est: String,
    order_pda: Pubkey,
    buyer: Pubkey,
    bump: u8,
) -> (m: VehicleMetadata)
    ensures
        m == (VehicleMetadata {
            mint,
            vin,
            model,
            color,
            status: VehicleStatus::Reserved.code(),
            order_pda,
            buyer_wallet: buyer,
            delivery_est,
            bump,
        }),
{
    VehicleMetadata {
        mint,
        vin,
        model,
        color,
        status: VehicleStatus::Reserved.to_u8(),
        order_pda,
        buyer_wallet: buyer,
        delivery_est,
        bump,
    }
}

} // verus!
