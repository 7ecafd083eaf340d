use vstd::prelude::*;
use crate::error::ErrorCode;
use crate::instructions::approve_order::approve_order_refusal;
use crate::instructions::complete_milestone::complete_milestone_refusal;
use crate::instructions::create_milestone::create_milestone_refusal;
use crate::instructions::dispute_order::dispute_order_refusal;
use crate::instructions::fund_milestone::fund_milestone_refusal;
use crate::key::Pubkey;
use crate::state::order::{
    completed, order_keeps_terms, order_transition, order_wf, ready_for_delivery, Milestone,
    Order, OrderStatus,
};
use crate::token::{Authority, Role, TokenCall};

verus! {

/// In a well-formed order ready for delivery, the vouchers that settlement burns (the
/// total amount) are no more than the vouchers that funding minted (the funded amount).
pub proof fn law_settlement_burns_no_more_than_minted(o: Order)
    requires
        order_wf(o),
        o.status == ready_for_delivery(),
    ensures
        o.total_amount <= o.funded_amount,
{
}

/// The error with which `settle_order` refuses, checked in this order, or `None`: the
/// order must be ready for delivery, the signer its buyer, and the account that receives
/// the vehicle token the buyer's.
pub open spec fn settle_refusal(o: Order, buyer: Pubkey, receiver_owner: Pubkey) -> Option<ErrorCode> {
    if o.status != ready_for_delivery() {
        Some(ErrorCode::InvalidOrderState)
    } else if buyer != o.buyer {
        Some(ErrorCode::UnauthorizedOracle)
    } else if receiver_owner != o.buyer {
        Some(ErrorCode::InvalidTokenAccount)
    } else {
        None
    }
}

/// Settlement goes ahead exactly when the order is ready for delivery (code 3), its buyer
/// signs, and the vehicle token goes to an account of the buyer.
pub proof fn law_settle_accepts_exactly(o: Order, buyer: Pubkey, receiver_owner: Pubkey)
    ensures
        settle_refusal(o, buyer, receiver_owner) is None <==> o.status == 3 && buyer == o.buyer
            && receiver_owner == o.buyer,
{
}

/// A settled order is closed to everything but cancellation: once a settlement went ahead,
/// every later settlement, funding, approval, milestone creation or completion and dispute
/// of the order is refused, whoever asks, so the vehicle token is delivered at most once.
pub proof fn law_settled_order_is_closed(
    o: Order,
    buyer: Pubkey,
    receiver_owner: Pubkey,
    later_signer: Pubkey,
    later_owner: Pubkey,
    m: Milestone,
    amount: u64,
)
    requires
        settle_refusal(o, buyer, receiver_owner) is None,
    ensures
        settle_refusal(Order { status: completed(), ..o }, later_signer, later_owner) is Some,
        fund_milestone_refusal(Order { status: completed(), ..o }, m, amount) is Some,
        approve_order_refusal(Order { status: completed(), ..o }) is Some,
        create_milestone_refusal(Order { status: completed(), ..o }, later_signer) is Some,
        complete_milestone_refusal(Order { status: completed(), ..o }, m, later_signer) is Some,
        dispute_order_refusal(Order { status: completed(), ..o }, later_signer) is Some,
{
}

/// Settles an order that is ready for delivery, on the request of its buyer (`buyer`),
/// into a vehicle-token account owned by `receiver_owner`: the buyer's vouchers for the
/// total amount are burned, the vehicle token goes to the buyer, and the order is completed.
pub fn settle_order(order: &mut Order, buyer: Pubkey, receiver_owner: Pubkey) -> (r: Result<Vec<TokenCall>, ErrorCode>)
    ensures
        settle_refusal(*old(order), buyer, receiver_owner) matches Some(err) ==> r == Err::<Vec<TokenCall>, ErrorCode>(err)
            && *final(order) == *old(order),
        settle_refusal(*old(order), buyer, receiver_owner) is None ==> {
            &&& r is Ok
            &&& r->Ok_0@ == seq![
                TokenCall::Burn {
                    mint: Role::VoucherMint,
                    from: Role::BuyerVoucherToken,
                    authority: Authority::Buyer,
                    amount: old(order).total_amount,
                },
                TokenCall::Transfer {
                    from: Role::ProgramNftToken,
                    to: Role::BuyerNftToken,
                    authority: Authority::OrderPda,
                    amount: 1,
                },
            ]
            &&& *final(order) == (Order { status: completed(), ..*old(order) })
        },
        r is Ok ==> order_transition(old(order).status, final(order).status),
        order_wf(*old(order)) ==> order_wf(*final(order)),
        order_keeps_terms(*old(order), *final(order)),
{
    if order.status != OrderStatus::ReadyForDelivery.to_u8() {
        return Err(ErrorCode::InvalidOrderState);
    }
    if !buyer.same(&order.buyer) {
        return Err(ErrorCode::UnauthorizedOracle);
    }
    if !receiver_owner.same(&order.buyer) {
        return Err(ErrorCode::InvalidTokenAccount);
    }
    let calls = vec![
        TokenCall::Burn {
            mint: Role::VoucherMint,
            from: Role::BuyerVoucherToken,
            authority: Authority::Buyer,
            amount: order.total_amount,
        },
        TokenCall::Transfer {
            from: Role::ProgramNftToken,
            to: Role::BuyerNftToken,
            authority: Authority::OrderPda,
            amount: 1,
        },
    ];
    order.status = OrderStatus::Completed.to_u8();
    Ok(calls)
}

} // verus!
