use vstd::prelude::*;
use crate::error::ErrorCode;
use crate::key::Pubkey;
use crate::token::{Authority, Role, TokenCall};
use crate::state::order::{
    approved, created, order_keeps_terms, order_transition, order_wf, Order, OrderStatus,
};

verus! {

/// The error with which `approve_order` refuses, or `None`: only a created order is
/// approved.
pub open spec fn approve_order_refusal(o: Order) -> Option<ErrorCode> {
    if o.status != created() {
        Some(ErrorCode::InvalidOrderState)
    } else {
        None
    }
}

/// Approval goes ahead exactly when the order is created (code 0).
pub proof fn law_approve_accepts_exactly(o: Order)
    ensures
        approve_order_refusal(o) is None <==> o.status == 0,
{
}

/// The decimals of a voucher mint: one voucher per smallest unit of the payment currency,
/// which has six decimals.
pub const VOUCHER_DECIMALS: u8 = 6;

/// Approves a created order: initializes its voucher mint, with the order's address as the
/// only minting authority, records that mint, the oracle and the arbitrator (the accounts
/// that the instruction names), and moves the order to approved.
pub fn approve_order(
    order: &mut Order,
    voucher_mint: Pubkey,
    oracle_signer: Pubkey,
    arbitrator: Pubkey,
) -> (r: Result<Vec<TokenCall>, ErrorCode>)
    ensures
        approve_order_refusal(*old(order)) matches Some(err) ==> r == Err::<Vec<TokenCall>, ErrorCode>(err)
            && *final(order) == *old(order),
        approve_order_refusal(*old(order)) is None ==> r is Ok && r->Ok_0@ == seq![
            TokenCall::InitializeMint {
                mint: Role::VoucherMint,
                mint_authority: Authority::OrderPda,
                decimals: VOUCHER_DECIMALS,
            },
        ] && *final(order) == (Order {
            oracle_signer,
            arbitrator,
            voucher_mint,
            status: approved(),
            ..*old(order)
        }),
        r is Ok ==> order_transition(old(order).status, final(order).status),
        order_wf(*old(order)) ==> order_wf(*final(order)),
        order_keeps_terms(*old(order), *final(order)),
{
    if order.status != OrderStatus::Created.to_u8() {
        return Err(ErrorCode::InvalidOrderState);
    }
    order.oracle_signer = oracle_signer;
    order.arbitrator = arbitrator;
    order.voucher_mint = voucher_mint;
    order.status = OrderStatus::Approved.to_u8();
    Ok(vec![
        TokenCall::InitializeMint {
            mint: Role::VoucherMint,
            mint_authority: Authority::OrderPda,
            decimals: VOUCHER_DECIMALS,
        },
    ])
}

} // verus!
