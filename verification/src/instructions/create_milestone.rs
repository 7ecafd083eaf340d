use vstd::prelude::*;
use crate::error::ErrorCode;
use crate::key::Pubkey;
use crate::state::order::{
    approved, order_keeps_terms, order_transition, order_wf, Milestone, Order, OrderStatus,
};

verus! {

/// The error with which `create_milestone` refuses, checked in this order, or `None`.
pub open spec fn create_milestone_refusal(o: Order, seller: Pubkey) -> Option<ErrorCode> {
    if seller != o.seller {
        Some(ErrorCode::UnauthorizedOracle)
    } else if o.status != approved() {
        Some(ErrorCode::InvalidOrderState)
    } else if o.milestone_count == u8::MAX {
        Some(ErrorCode::NumericalOverflow)
    } else {
        None
    }
}

/// A milestone is created exactly when the order's seller asks, the order is approved
/// (code 1), and its milestone count can still grow; for the seller and any other stage the
/// refusal is `InvalidOrderState`.
pub proof fn law_create_milestone_accepts_exactly(o: Order, seller: Pubkey)
    ensures
        create_milestone_refusal(o, seller) is None <==> seller == o.seller && o.status == 1
            && o.milestone_count < 255,
        seller == o.seller && o.status != 1 ==> create_milestone_refusal(o, seller)
            == Some(ErrorCode::InvalidOrderState),
{
}

/// Creates milestone `index` of an approved order (whose address is `order_key`), on the
/// request of its seller, and counts it in the order.
pub fn create_milestone(
    order: &mut Order,
    order_key: Pubkey,
    seller: Pubkey,
    index: u8,
    name: [u8; 32],
    funding_bps: u16,
) -> (r: Result<Milestone, ErrorCode>)
    ensures
        match create_milestone_refusal(*old(order), seller) {
            Some(err) => r == Err::<Milestone, ErrorCode>(err) && *final(order) == *old(order),
            None => {
                &&& r == Ok::<Milestone, ErrorCode>(Milestone {
                    order: order_key,
                    index,
                    name,
                    funding_bps,
                    is_completed: false,
                    is_funded: false,
                    completed_at: 0,
                })
                &&& *final(order) == (Order {
                    milestone_count: (old(order).milestone_count + 1) as u8,
                    ..*old(order)
                })
            },
        },
        r is Ok ==> order_transition(old(order).status, final(order).status),
        order_wf(*old(order)) ==> order_wf(*final(order)),
        order_keeps_terms(*old(order), *final(order)),
{
    if !seller.same(&order.seller) {
        return Err(ErrorCode::UnauthorizedOracle);
    }
    if order.status != OrderStatus::Approved.to_u8() {
        return Err(ErrorCode::InvalidOrderState);
    }
    let milestone = Milestone {
        order: order_key,
        index,
        name,
        funding_bps,
        is_completed: false,
        is_funded: false,
        completed_at: 0,
    };
    let count = match order.milestone_count.checked_add(1) {
        Some(c) => c,
        None => { return Err(ErrorCode::NumericalOverflow); },
    };
    order.milestone_count = count;
    Ok(milestone)
}

} // verus!
