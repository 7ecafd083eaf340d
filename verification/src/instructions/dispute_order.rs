use vstd::prelude::*;
use crate::error::ErrorCode;
use crate::key::Pubkey;
use crate::state::order::{
    disputed, order_keeps_terms, order_transition, order_wf, processing, ready_for_delivery,
    Order, OrderStatus,
};

verus! {

/// The error with which `dispute_order` refuses, checked in this order, or `None`.
pub open spec fn dispute_order_refusal(o: Order, arbitrator: Pubkey) -> Option<ErrorCode> {
    if arbitrator != o.arbitrator {
        Some(ErrorCode::UnauthorizedArbitrator)
    } else if o.status != processing() && o.status != ready_for_delivery() {
        Some(ErrorCode::InvalidOrderState)
    } else {
        None
    }
}

/// A dispute of an order goes ahead exactly when its arbitrator asks and the order is in
/// production or ready for delivery (codes 2 and 3).
pub proof fn law_dispute_order_accepts_exactly(o: Order, arbitrator: Pubkey)
    ensures
        dispute_order_refusal(o, arbitrator) is None <==> arbitrator == o.arbitrator
            && (o.status == 2 || o.status == 3),
{
}

/// Puts an order in production or awaiting delivery in dispute, on the request of its
/// arbitrator.
pub fn dispute_order(order: &mut Order, arbitrator: Pubkey) -> (r: Result<(), ErrorCode>)
    ensures
        match dispute_order_refusal(*old(order), arbitrator) {
            Some(err) => r == Err::<(), ErrorCode>(err) && *final(order) == *old(order),
            None => r == Ok::<(), ErrorCode>(())
                && *final(order) == (Order { status: disputed(), ..*old(order) }),
        },
        r is Ok ==> order_transition(old(order).status, final(order).status),
        order_wf(*old(order)) ==> order_wf(*final(order)),
        order_keeps_terms(*old(order), *final(order)),
{
    if !arbitrator.same(&order.arbitrator) {
        return Err(ErrorCode::UnauthorizedArbitrator);
    }
    if !(order.status == OrderStatus::Processing.to_u8() || order.status == OrderStatus::ReadyForDelivery.to_u8()) {
        return Err(ErrorCode::InvalidOrderState);
    }
    order.status = OrderStatus::Disputed.to_u8();
    Ok(())
}

} // verus!
