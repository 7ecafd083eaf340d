use vstd::prelude::*;
use crate::error::ErrorCode;
use crate::events::MilestoneFunded;
use crate::key::Pubkey;
use crate::state::order::{
    approved, order_keeps_terms, order_transition, order_wf, processing, ready_for_delivery,
    Milestone, Order, OrderStatus,
};
use crate::token::{Authority, Role, TokenCall};

verus! {

/// What funding a milestone of `bps` basis points of `total` costs: the product divided by
/// 10000, rounded down.
pub open spec fn funding_target(total: u64, bps: u16) -> int {
    total as int * bps as int / 10000
}

/// The error with which `fund_milestone` refuses, checked in this order, or `None`: the
/// order must be approved or in production, the milestone not yet funded, the amount
/// exactly the milestone's share, and the funded total must not overflow.
pub open spec fn fund_milestone_refusal(o: Order, m: Milestone, amount: u64) -> Option<ErrorCode> {
    if o.status != approved() && o.status != processing() {
        Some(ErrorCode::InvalidOrderState)
    } else if m.is_funded {
        Some(ErrorCode::MilestoneAlreadyFunded)
    } else if amount != funding_target(o.total_amount, m.funding_bps) {
        Some(ErrorCode::IncorrectFundingAmount)
    } else if o.funded_amount + amount > u64::MAX {
        Some(ErrorCode::NumericalOverflow)
    } else {
        None
    }
}

/// Funding goes ahead exactly when the order is approved or in production (codes 1 and 2),
/// the milestone is not yet funded, the amount is the milestone's share of the total
/// rounded down, and the funded total fits in 64 bits.
pub proof fn law_fund_milestone_accepts_exactly(o: Order, m: Milestone, amount: u64)
    ensures
        fund_milestone_refusal(o, m, amount) is None <==> {
            &&& o.status == 1 || o.status == 2
            &&& !m.is_funded
            &&& amount as int * 10000 <= o.total_amount as int * m.funding_bps as int
            &&& (o.total_amount as int * m.funding_bps as int) < amount as int * 10000 + 10000
            &&& o.funded_amount + amount <= 0xffff_ffff_ffff_ffff
        },
{
    let p: int = o.total_amount as int * m.funding_bps as int;
    let a: int = amount as int;
    assert(p >= 0) by (nonlinear_arith)
        requires
            p == o.total_amount as int * m.funding_bps as int,
    ;
    assert((a == p / 10000) <==> (a * 10000 <= p && p < a * 10000 + 10000)) by (nonlinear_arith)
        requires
            p >= 0,
            a >= 0,
    ;
}

/// A milestone is funded at most once: once funding it went ahead, every later funding of
/// it is refused, whatever the amount.
pub proof fn law_milestone_funded_at_most_once(o: Order, m: Milestone, amount: u64, o2: Order, later: u64)
    requires
        fund_milestone_refusal(o, m, amount) is None,
    ensures
        fund_milestone_refusal(o2, Milestone { is_funded: true, ..m }, later) is Some,
{
}

/// Returns the cost of funding a milestone: `total * bps / 10000`, in 128-bit arithmetic.
pub fn milestone_funding_target(total: u64, bps: u16) -> (t: u128)
    ensures
        t == funding_target(total, bps),
{
    let a: u128 = total as u128;
    let b: u128 = bps as u128;
    assert(a * b <= 0xffff_ffff_ffff_ffff * 0xffff) by (nonlinear_arith)
        requires
            a <= 0xffff_ffff_ffff_ffff,
            b <= 0xffff,
    ;
    a * b / 10000
}

/// Funds milestone `milestone` of an order (whose address is `order_key`) with `amount`
/// of the payment currency at time `now`: the buyer's tokens move to the order's account,
/// as many vouchers are minted to the buyer, the milestone is marked funded, and the order
/// goes to processing, or ready for delivery once the funded amount reaches the total.
pub fn fund_milestone(
    order: &mut Order,
    milestone: &mut Milestone,
    order_key: Pubkey,
    amount: u64,
    now: i64,
) -> (r: Result<(Vec<TokenCall>, MilestoneFunded), ErrorCode>)
    ensures
        match fund_milestone_refusal(*old(order), *old(milestone), amount) {
            Some(err) => r == Err::<(Vec<TokenCall>, MilestoneFunded), ErrorCode>(err)
                && *final(order) == *old(order) && *final(milestone) == *old(milestone),
            None => {
                let funded = (old(order).funded_amount + amount) as u64;
                &&& r is Ok
                &&& r->Ok_0.0@ == seq![
                    TokenCall::Transfer {
                        from: Role::BuyerToken,
                        to: Role::OrderToken,
                        authority: Authority::Buyer,
                        amount,
                    },
                    TokenCall::MintTo {
                        mint: Role::VoucherMint,
                        to: Role::BuyerVoucherToken,
                        authority: Authority::OrderPda,
                        amount,
                    },
                ]
                &&& r->Ok_0.1 == (MilestoneFunded {
                    order: order_key,
                    milestone_index: old(milestone).index,
                    amount,
                    funded_at: now,
                })
                &&& *final(order) == (Order {
                    funded_amount: funded,
                    status: if funded >= old(order).total_amount { ready_for_delivery() } else { processing() },
                    ..*old(order)
                })
                &&& *final(milestone) == (Milestone { is_funded: true, ..*old(milestone) })
            },
        },
        r is Ok ==> order_transition(old(order).status, final(order).status),
        order_wf(*old(order)) ==> order_wf(*final(order)),
        order_keeps_terms(*old(order), *final(order)),
{
    if !(order.status == OrderStatus::Approved.to_u8() || order.status == OrderStatus::Processing.to_u8()) {
        return Err(ErrorCode::InvalidOrderState);
    }
    if milestone.is_funded {
        return Err(ErrorCode::MilestoneAlreadyFunded);
    }
    if amount as u128 != milestone_funding_target(order.total_amount, milestone.funding_bps) {
        return Err(ErrorCode::IncorrectFundingAmount);
    }
    let funded = match order.funded_amount.checked_add(amount) {
        Some(f) => f,
        None => { return Err(ErrorCode::NumericalOverflow); },
    };
    let calls = vec![
        TokenCall::Transfer {
            from: Role::BuyerToken,
            to: Role::OrderToken,
            authority: Authority::Buyer,
            amount,
        },
        TokenCall::MintTo {
            mint: Role::VoucherMint,
            to: Role::BuyerVoucherToken,
            authority: Authority::OrderPda,
            amount,
        },
    ];
    order.funded_amount = funded;
    order.status = OrderStatus::Processing.to_u8();
    if order.funded_amount >= order.total_amount {
        order.status = OrderStatus::ReadyForDelivery.to_u8();
    }
    milestone.is_funded = true;
    Ok((calls, MilestoneFunded { order: order_key, milestone_index: milestone.index, amount, funded_at: now }))
}

} // verus!
