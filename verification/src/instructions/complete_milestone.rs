use vstd::prelude::*;
use crate::error::ErrorCode;
use crate::key::Pubkey;
use crate::state::order::{
    approved, order_keeps_terms, order_transition, order_wf, processing, Milestone, Order,
    OrderStatus,
};

verus! {

/// The error with which `complete_milestone` refuses, checked in this order, or `None`.
pub open spec fn complete_milestone_refusal(o: Order, m: Milestone, oracle_signer: Pubkey) -> Option<ErrorCode> {
    if oracle_signer != o.oracle_signer {
        Some(ErrorCode::UnauthorizedOracle)
    } else if o.status != approved() && o.status != processing() {
        Some(ErrorCode::InvalidOrderState)
    } else if m.is_completed {
        Some(ErrorCode::MilestoneAlreadyCompleted)
    } else {
        None
    }
}

/// Completion goes ahead exactly when the order's oracle signs, the order is approved or in
/// production (codes 1 and 2), and the milestone is not yet completed.
pub proof fn law_complete_milestone_accepts_exactly(o: Order, m: Milestone, oracle_signer: Pubkey)
    ensures
        complete_milestone_refusal(o, m, oracle_signer) is None <==> oracle_signer == o.oracle_signer
            && (o.status == 1 || o.status == 2) && !m.is_completed,
{
}

/// Marks a milestone of an order completed at time `now`, signed off by the order's
/// oracle; an approved order thereby moves to processing.
pub fn complete_milestone(
    order: &mut Order,
    milestone: &mut Milestone,
    oracle_signer: Pubkey,
    now: i64,
) -> (r: Result<(), ErrorCode>)
    ensures
        match complete_milestone_refusal(*old(order), *old(milestone), oracle_signer) {
            Some(err) => r == Err::<(), ErrorCode>(err) && *final(order) == *old(order)
                && *final(milestone) == *old(milestone),
            None => {
                &&& r == Ok::<(), ErrorCode>(())
                &&& *final(order) == (Order { status: processing(), ..*old(order) })
                &&& *final(milestone) == (Milestone { is_completed: true, completed_at: now, ..*old(milestone) })
            },
        },
        r is Ok ==> order_transition(old(order).status, final(order).status),
        order_wf(*old(order)) ==> order_wf(*final(order)),
        order_keeps_terms(*old(order), *final(order)),
{
    if !oracle_signer.same(&order.oracle_signer) {
        return Err(ErrorCode::UnauthorizedOracle);
    }
    if !(order.status == OrderStatus::Approved.to_u8() || order.status == OrderStatus::Processing.to_u8()) {
        return Err(ErrorCode::InvalidOrderState);
    }
    if milestone.is_completed {
        return Err(ErrorCode::MilestoneAlreadyCompleted);
    }
    if order.status == OrderStatus::Approved.to_u8() {
        order.status = OrderStatus::Processing.to_u8();
    }
    milestone.is_completed = true;
    milestone.completed_at = now;
    Ok(())
}

} // verus!
