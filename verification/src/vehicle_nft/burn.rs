use vstd::prelude::*;
use crate::token::{Authority, Role, TokenCall};
use crate::vehicle_nft::state::VehicleMetadata;

verus! {

/// Retires a vehicle token: its metadata is consumed (the account is closed to the payer)
/// and the one token is burned from the payer's account.
pub fn burn_vehicle_nft(metadata: VehicleMetadata) -> (calls: Vec<TokenCall>)
    ensures
        calls@ == seq![
            TokenCall::Burn { mint: Role::NftMint, from: Role::NftToken, authority: Authority::Payer, amount: 1 },
        ],
{
    let _closed = metadata;
    vec![TokenCall::Burn { mint: Role::NftMint, from: Role::NftToken, authority: Authority::Payer, amount: 1 }]
}

} // verus!
