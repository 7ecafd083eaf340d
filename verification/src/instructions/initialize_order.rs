use vstd::prelude::*;
use crate::key::Pubkey;
use crate::state::order::{created, order_wf, Order, OrderStatus};

verus! {

/// Creates order `order_id` of `buyer` with `seller`, for `total_amount` of the currency of
/// `token_mint`, at time `now`. Nothing is funded yet, no milestone exists, and the voucher
/// mint, oracle and arbitrator are still the zero address until the order is approved.
pub fn initialize_order(
    buyer: Pubkey,
    seller: Pubkey,
    token_mint: Pubkey,
    order_id: String,
    total_amount: u64,
    bump: u8,
    now: i64,
) -> (order: Order)
    ensures
        order == (Order {
            buyer,
            seller,
            total_amount,
            funded_amount: 0,
            token_mint,
            voucher_mint: order.voucher_mint,
            oracle_signer: order.oracle_signer,
            arbitrator: order.arbitrator,
            status: created(),
            bump,
            created_at: now,
            milestone_count: 0,
            order_id,
        }),
        forall|i: int| 0 <= i < 32 ==> order.voucher_mint.bytes@[i] == 0u8,
        forall|i: int| 0 <= i < 32 ==> order.oracle_signer.bytes@[i] == 0u8,
        forall|i: int| 0 <= i < 32 ==> order.arbitrator.bytes@[i] == 0u8,
        order_wf(order),
{
    Order {
        buyer,
        seller,
        total_amount,
        funded_amount: 0,
        token_mint,
        voucher_mint: Pubkey::zeroed(),
        oracle_signer: Pubkey::zeroed(),
        arbitrator: Pubkey::zeroed(),
        status: OrderStatus::Created.to_u8(),
        bump,
        created_at: now,
        milestone_count: 0,
        order_id,
    }
}

} // verus!
