use vstd::prelude::*;
use crate::vehicle_nft::state::VehicleMetadata;

verus! {

/// Sets the production stage of a vehicle to `new_status`, whatever it was; the code is
/// taken as given.
pub fn update_vehicle_status(metadata: &mut VehicleMetadata, new_status: u8)
    ensures
        *final(metadata) == (VehicleMetadata { status: new_status, ..*old(metadata) }),
{
    metadata.status = new_status;
}

} // verus!
