use vstd::prelude::*;
use crate::error::ErrorCode;
use crate::key::Pubkey;
use crate::state::order::{
    approved, cancelled, created, order_keeps_terms, order_transition, order_wf, Order,
    OrderStatus,
};
use crate::token::{Authority, Role, TokenCall};

verus! {

/// The error with which `cancel_order` refuses, checked in this order, or `None` where it
/// goes ahead: only the buyer or the oracle may cancel, the buyer only before production
/// starts, and only into an account of the buyer.
pub open spec fn cancel_order_refusal(o: Order, authority: Pubkey, receiver_owner: Pubkey) -> Option<ErrorCode> {
    if authority != o.buyer && authority != o.oracle_signer {
        Some(ErrorCode::UnauthorizedOracle)
    } else if authority == o.buyer && o.status != created() && o.status != approved() {
        Some(ErrorCode::InvalidOrderState)
    } else if receiver_owner != o.buyer {
        Some(ErrorCode::InvalidTokenAccount)
    } else {
        None
    }
}

/// The token calls of a cancellation: the funded amount goes back to the buyer, and where
/// the buyer cancels, as many vouchers are burned from the buyer.
pub open spec fn cancel_order_calls(o: Order, authority: Pubkey) -> Seq<TokenCall> {
    let refund = if o.funded_amount > 0 {
        seq![TokenCall::Transfer {
            from: Role::OrderToken,
            to: Role::BuyerToken,
            authority: Authority::OrderPda,
            amount: o.funded_amount,
        }]
    } else {
        Seq::empty()
    };
    let burn = if authority == o.buyer && o.funded_amount > 0 {
        seq![TokenCall::Burn {
            mint: Role::VoucherMint,
            from: Role::BuyerVoucherToken,
            authority: Authority::Caller,
            amount: o.funded_amount,
        }]
    } else {
        Seq::empty()
    };
    refund + burn
}

/// A cancellation of an order goes ahead exactly when the buyer or the oracle asks, the
/// buyer only while the order is created or approved (codes 0 and 1), and the money goes
/// back to the buyer.
pub proof fn law_cancel_order_accepts_exactly(o: Order, authority: Pubkey, receiver_owner: Pubkey)
    ensures
        cancel_order_refusal(o, authority, receiver_owner) is None <==> {
            &&& authority == o.buyer || authority == o.oracle_signer
            &&& authority == o.buyer ==> o.status == 0 || o.status == 1
            &&& receiver_owner == o.buyer
        },
        authority == o.buyer && o.status != 0 && o.status != 1
            ==> cancel_order_refusal(o, authority, receiver_owner) == Some(ErrorCode::InvalidOrderState),
{
}

/// What a cancellation moves: nothing where nothing was funded; where the oracle (not
/// also the buyer) cancels a funded order, only the funded amount back to the buyer.
pub proof fn law_cancel_order_moves_the_funded_amount(o: Order, authority: Pubkey)
    ensures
        o.funded_amount == 0 ==> cancel_order_calls(o, authority).len() == 0,
        o.funded_amount > 0 && authority != o.buyer ==> cancel_order_calls(o, authority) == seq![
            TokenCall::Transfer {
                from: Role::OrderToken,
                to: Role::BuyerToken,
                authority: Authority::OrderPda,
                amount: o.funded_amount,
            },
        ],
{
    if o.funded_amount > 0 && authority != o.buyer {
        assert(cancel_order_calls(o, authority) =~= seq![
            TokenCall::Transfer {
                from: Role::OrderToken,
                to: Role::BuyerToken,
                authority: Authority::OrderPda,
                amount: o.funded_amount,
            },
        ]);
    }
}

/// Where the buyer cancels a funded order, the tokens refunded to the buyer and the
/// vouchers burned from the buyer both equal the funded amount, and nothing else moves.
pub proof fn law_buyer_cancel_returns_funding(o: Order, authority: Pubkey, receiver_owner: Pubkey)
    requires
        authority == o.buyer,
        cancel_order_refusal(o, authority, receiver_owner) is None,
        o.funded_amount > 0,
    ensures
        cancel_order_calls(o, authority) == seq![
            TokenCall::Transfer {
                from: Role::OrderToken,
                to: Role::BuyerToken,
                authority: Authority::OrderPda,
                amount: o.funded_amount,
            },
            TokenCall::Burn {
                mint: Role::VoucherMint,
                from: Role::BuyerVoucherToken,
                authority: Authority::Caller,
                amount: o.funded_amount,
            },
        ],
{
    assert(cancel_order_calls(o, authority) =~= seq![
        TokenCall::Transfer {
            from: Role::OrderToken,
            to: Role::BuyerToken,
            authority: Authority::OrderPda,
            amount: o.funded_amount,
        },
        TokenCall::Burn {
            mint: Role::VoucherMint,
            from: Role::BuyerVoucherToken,
            authority: Authority::Caller,
            amount: o.funded_amount,
        },
    ]);
}

/// Cancels an order on the request of `authority` (the buyer or the oracle): refunds the
/// funded amount into a token account owned by `receiver_owner`, which must be the buyer, burns the buyer's vouchers where the buyer cancels, and marks the order
/// cancelled. The funded amount stays recorded.
pub fn cancel_order(order: &mut Order, authority: Pubkey, receiver_owner: Pubkey) -> (r: Result<Vec<TokenCall>, ErrorCode>)
    ensures
        match cancel_order_refusal(*old(order), authority, receiver_owner) {
            Some(err) => r == Err::<Vec<TokenCall>, ErrorCode>(err) && *final(order) == *old(order),
            None => {
                &&& r is Ok
                &&& r->Ok_0@ == cancel_order_calls(*old(order), authority)
                &&& *final(order) == (Order { status: cancelled(), ..*old(order) })
            },
        },
        r is Ok ==> order_transition(old(order).status, final(order).status),
        order_wf(*old(order)) ==> order_wf(*final(order)),
        order_keeps_terms(*old(order), *final(order)),
{
    let is_buyer = authority.same(&order.buyer);
    let is_oracle = authority.same(&order.oracle_signer);
    if !(is_buyer || is_oracle) {
        return Err(ErrorCode::UnauthorizedOracle);
    }
    if is_buyer {
        if !(order.status == OrderStatus::Created.to_u8() || order.status == OrderStatus::Approved.to_u8()) {
            return Err(ErrorCode::InvalidOrderState);
        }
    }
    if !receiver_owner.same(&order.buyer) {
        return Err(ErrorCode::InvalidTokenAccount);
    }
    let mut calls: Vec<TokenCall> = Vec::new();
    if order.funded_amount > 0 {
        calls.push(TokenCall::Transfer {
            from: Role::OrderToken,
            to: Role::BuyerToken,
            authority: Authority::OrderPda,
            amount: order.funded_amount,
        });
    }
    if is_buyer && order.funded_amount > 0 {
        calls.push(TokenCall::Burn {
            mint: Role::VoucherMint,
            from: Role::BuyerVoucherToken,
            authority: Authority::Caller,
            amount: order.funded_amount,
        });
    }
    proof {
        assert(calls@ =~= cancel_order_calls(*old(order), authority));
    }
    order.status = OrderStatus::Cancelled.to_u8();
    Ok(calls)
}

} // verus!
