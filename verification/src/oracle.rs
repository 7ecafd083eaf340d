use vstd::prelude::*;
use crate::error::ErrorCode;
use crate::instructions::complete_milestone::{complete_milestone, complete_milestone_refusal};
use crate::key::Pubkey;
use crate::state::order::{
    order_keeps_terms, order_transition, order_wf, processing, Milestone, Order,
};
use crate::vehicle_nft::state::{VehicleMetadata, VehicleStatus};
use crate::vehicle_nft::update::update_vehicle_status;

verus! {

/// The vehicle stage that a completed milestone leads to: ready for delivery after the
/// last milestone, in production otherwise.
pub open spec fn stage_after(is_last_milestone: bool) -> u8 {
    if is_last_milestone {
        VehicleStatus::ReadyForDelivery.code()
    } else {
        VehicleStatus::InProduction.code()
    }
}

/// The last milestone leads the vehicle to ready for delivery (code 2), any other to in
/// production (code 1).
pub proof fn law_stage_after_milestone(is_last_milestone: bool)
    ensures
        is_last_milestone ==> stage_after(is_last_milestone) == 2,
        !is_last_milestone ==> stage_after(is_last_milestone) == 1,
{
}

/// Returns the vehicle stage that a completed milestone leads to.
pub fn vehicle_status_after_milestone(is_last_milestone: bool) -> (s: u8)
    ensures
        s == stage_after(is_last_milestone),
{
    if is_last_milestone {
        VehicleStatus::ReadyForDelivery.to_u8()
    } else {
        VehicleStatus::InProduction.to_u8()
    }
}

/// Reports a finished production milestone, signed by `oracle_signer` at time `now`: the
/// milestone of the order is completed, and the vehicle moves to ready for delivery after
/// the last milestone, to in production otherwise. Where the order refuses, nothing changes.
pub fn submit_milestone(
    order: &mut Order,
    milestone: &mut Milestone,
    vehicle_metadata: &mut VehicleMetadata,
    oracle_signer: Pubkey,
    is_last_milestone: bool,
    now: i64,
) -> (r: Result<(), ErrorCode>)
    ensures
        match complete_milestone_refusal(*old(order), *old(milestone), oracle_signer) {
            Some(err) => {
                &&& r == Err::<(), ErrorCode>(err)
                &&& *final(order) == *old(order)
                &&& *final(milestone) == *old(milestone)
                &&& *final(vehicle_metadata) == *old(vehicle_metadata)
            },
            None => {
                &&& r == Ok::<(), ErrorCode>(())
                &&& *final(order) == (Order { status: processing(), ..*old(order) })
                &&& *final(milestone) == (Milestone { is_completed: true, completed_at: now, ..*old(milestone) })
                &&& *final(vehicle_metadata) == (VehicleMetadata {
                    status: stage_after(is_last_milestone),
                    ..*old(vehicle_metadata)
                })
            },
        },
        r is Ok ==> order_transition(old(order).status, final(order).status),
        order_wf(*old(order)) ==> order_wf(*final(order)),
        order_keeps_terms(*old(order), *final(order)),
{
    match complete_milestone(order, milestone, oracle_signer, now) {
        Ok(()) => {},
        Err(e) => { return Err(e); },
    }
    let new_status = vehicle_status_after_milestone(is_last_milestone);
    update_vehicle_status(vehicle_metadata, new_status);
    Ok(())
}

} // verus!
