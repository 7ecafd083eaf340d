use escrow_program::error::ErrorCode;
use escrow_program::instructions::approve_order::{approve_order, VOUCHER_DECIMALS};
use escrow_program::instructions::cancel_order::cancel_order;
use escrow_program::instructions::complete_milestone::complete_milestone;
use escrow_program::instructions::create_milestone::create_milestone;
use escrow_program::instructions::dispute_order::dispute_order;
use escrow_program::instructions::fund_milestone::{fund_milestone, milestone_funding_target};
use escrow_program::instructions::initialize_order::initialize_order;
use escrow_program::instructions::settle_order::settle_order;
use escrow_program::key::Pubkey;
use escrow_program::state::order::{Milestone, Order, OrderStatus};
use escrow_program::token::{Authority, Role, TokenCall};

fn key(n: u8) -> Pubkey {
    Pubkey { bytes: [n; 32] }
}

const BUYER: u8 = 1;
const SELLER: u8 = 2;
const MINT: u8 = 3;
const VOUCHER: u8 = 4;
const ORACLE: u8 = 5;
const ARBITER: u8 = 6;
const ORDER_KEY: u8 = 7;

fn new_order(total: u64) -> Order {
    initialize_order(key(BUYER), key(SELLER), key(MINT), "ERP-42".to_string(), total, 254, 1_700_000_000)
}

fn approved_order(total: u64) -> Order {
    let mut o = new_order(total);
    approve_order(&mut o, key(VOUCHER), key(ORACLE), key(ARBITER)).unwrap();
    o
}

fn milestone(o: &mut Order, index: u8, bps: u16) -> Milestone {
    create_milestone(o, key(ORDER_KEY), key(SELLER), index, [index; 32], bps).unwrap()
}

/// Funds the milestone with exactly its share and returns the share.
fn fund(o: &mut Order, m: &mut Milestone) -> u64 {
    let amount: u64 = milestone_funding_target(o.total_amount, m.funding_bps) as u64;
    fund_milestone(o, m, key(ORDER_KEY), amount, 42).unwrap();
    amount
}

#[test]
fn initialize_order_records_the_order() {
    let o = new_order(5_000);
    assert_eq!(o.buyer, key(BUYER));
    assert_eq!(o.seller, key(SELLER));
    assert_eq!(o.token_mint, key(MINT));
    assert_eq!(o.total_amount, 5_000);
    assert_eq!(o.funded_amount, 0);
    assert_eq!(o.status, OrderStatus::Created.to_u8());
    assert_eq!(o.status, 0);
    assert_eq!(o.bump, 254);
    assert_eq!(o.created_at, 1_700_000_000);
    assert_eq!(o.milestone_count, 0);
    assert_eq!(o.order_id, "ERP-42");
    assert_eq!(o.voucher_mint, key(0));
    assert_eq!(o.oracle_signer, key(0));
    assert_eq!(o.arbitrator, key(0));
}

#[test]
fn approve_order_initializes_voucher_mint_and_sets_roles() {
    let mut o = new_order(5_000);
    let calls = approve_order(&mut o, key(VOUCHER), key(ORACLE), key(ARBITER)).unwrap();
    assert_eq!(
        calls,
        vec![TokenCall::InitializeMint { mint: Role::VoucherMint, mint_authority: Authority::OrderPda, decimals: 6 }]
    );
    assert_eq!(VOUCHER_DECIMALS, 6);
    assert_eq!(o.status, 1);
    assert_eq!(o.voucher_mint, key(VOUCHER));
    assert_eq!(o.oracle_signer, key(ORACLE));
    assert_eq!(o.arbitrator, key(ARBITER));
}

#[test]
fn approve_order_twice_is_refused() {
    let mut o = approved_order(5_000);
    let before = o.clone();
    assert_eq!(approve_order(&mut o, key(9), key(9), key(9)), Err(ErrorCode::InvalidOrderState));
    assert_eq!(o.oracle_signer, before.oracle_signer);
    assert_eq!(o.status, before.status);
}

#[test]
fn create_milestone_by_seller() {
    let mut o = approved_order(5_000);
    let m = create_milestone(&mut o, key(ORDER_KEY), key(SELLER), 0, [7u8; 32], 2_500).unwrap();
    assert_eq!(m.order, key(ORDER_KEY));
    assert_eq!(m.index, 0);
    assert_eq!(m.name, [7u8; 32]);
    assert_eq!(m.funding_bps, 2_500);
    assert!(!m.is_completed);
    assert!(!m.is_funded);
    assert_eq!(m.completed_at, 0);
    assert_eq!(o.milestone_count, 1);
}

#[test]
fn create_milestone_refusals() {
    let mut o = approved_order(5_000);
    assert_eq!(
        create_milestone(&mut o, key(ORDER_KEY), key(BUYER), 0, [0u8; 32], 100),
        Err(ErrorCode::UnauthorizedOracle)
    );
    let mut fresh = new_order(5_000);
    assert_eq!(
        create_milestone(&mut fresh, key(ORDER_KEY), key(SELLER), 0, [0u8; 32], 100),
        Err(ErrorCode::InvalidOrderState)
    );
    o.milestone_count = 255;
    assert_eq!(
        create_milestone(&mut o, key(ORDER_KEY), key(SELLER), 0, [0u8; 32], 100),
        Err(ErrorCode::NumericalOverflow)
    );
    assert_eq!(o.milestone_count, 255);
}

#[test]
fn complete_milestone_moves_to_processing() {
    let mut o = approved_order(5_000);
    let mut m = milestone(&mut o, 0, 10_000);
    assert_eq!(complete_milestone(&mut o, &mut m, key(ORACLE), 99), Ok(()));
    assert_eq!(o.status, 2);
    assert!(m.is_completed);
    assert_eq!(m.completed_at, 99);
    assert_eq!(complete_milestone(&mut o, &mut m, key(ORACLE), 100), Err(ErrorCode::MilestoneAlreadyCompleted));
    assert_eq!(m.completed_at, 99);
}

#[test]
fn complete_milestone_refusals() {
    let mut o = approved_order(5_000);
    let mut m = milestone(&mut o, 0, 10_000);
    assert_eq!(complete_milestone(&mut o, &mut m, key(BUYER), 1), Err(ErrorCode::UnauthorizedOracle));
    let mut created = new_order(5_000);
    created.oracle_signer = key(ORACLE);
    assert_eq!(complete_milestone(&mut created, &mut m, key(ORACLE), 1), Err(ErrorCode::InvalidOrderState));
    assert_eq!(created.status, 0);
    assert!(!m.is_completed);
}

#[test]
fn funding_target_formula() {
    assert_eq!(milestone_funding_target(5_000, 4_000), 2_000);
    assert_eq!(milestone_funding_target(999, 3_333), 332);
    assert_eq!(milestone_funding_target(u64::MAX, 65_535), (u64::MAX as u128) * 65_535 / 10_000);
}

#[test]
fn fund_milestone_partial_then_full() {
    let mut o = approved_order(5_000);
    let mut first = milestone(&mut o, 0, 4_000);
    let mut second = milestone(&mut o, 1, 6_000);
    let (calls, ev) = fund_milestone(&mut o, &mut first, key(ORDER_KEY), 2_000, 77).unwrap();
    assert_eq!(
        calls,
        vec![
            TokenCall::Transfer { from: Role::BuyerToken, to: Role::OrderToken, authority: Authority::Buyer, amount: 2_000 },
            TokenCall::MintTo { mint: Role::VoucherMint, to: Role::BuyerVoucherToken, authority: Authority::OrderPda, amount: 2_000 },
        ]
    );
    assert_eq!(ev.order, key(ORDER_KEY));
    assert_eq!(ev.milestone_index, 0);
    assert_eq!(ev.amount, 2_000);
    assert_eq!(ev.funded_at, 77);
    assert!(first.is_funded);
    assert_eq!(o.funded_amount, 2_000);
    assert_eq!(o.status, OrderStatus::Processing.to_u8());
    fund_milestone(&mut o, &mut second, key(ORDER_KEY), 3_000, 78).unwrap();
    assert_eq!(o.funded_amount, 5_000);
    assert_eq!(o.status, OrderStatus::ReadyForDelivery.to_u8());
}

#[test]
fn fund_milestone_refusals() {
    let mut fresh = new_order(5_000);
    let mut m = Milestone {
        order: key(ORDER_KEY),
        index: 0,
        name: [0u8; 32],
        funding_bps: 10_000,
        is_completed: false,
        is_funded: false,
        completed_at: 0,
    };
    assert_eq!(fund_milestone(&mut fresh, &mut m, key(ORDER_KEY), 5_000, 1).err(), Some(ErrorCode::InvalidOrderState));
    let mut o = approved_order(5_000);
    let mut m = milestone(&mut o, 0, 4_000);
    assert_eq!(fund_milestone(&mut o, &mut m, key(ORDER_KEY), 1_999, 1).err(), Some(ErrorCode::IncorrectFundingAmount));
    assert_eq!(fund_milestone(&mut o, &mut m, key(ORDER_KEY), 2_001, 1).err(), Some(ErrorCode::IncorrectFundingAmount));
    assert!(!m.is_funded);
    assert_eq!(o.funded_amount, 0);
    fund_milestone(&mut o, &mut m, key(ORDER_KEY), 2_000, 1).unwrap();
    assert_eq!(fund_milestone(&mut o, &mut m, key(ORDER_KEY), 2_000, 2).err(), Some(ErrorCode::MilestoneAlreadyFunded));
    assert_eq!(o.funded_amount, 2_000);
}

#[test]
fn fund_milestone_overflow_is_a_numerical_overflow() {
    let mut o = approved_order(u64::MAX);
    let mut m = milestone(&mut o, 0, 10_000);
    o.funded_amount = 1;
    assert_eq!(fund_milestone(&mut o, &mut m, key(ORDER_KEY), u64::MAX, 1).err(), Some(ErrorCode::NumericalOverflow));
    assert_eq!(o.status, 1);
    assert_eq!(o.funded_amount, 1);
    assert!(!m.is_funded);
}

fn ready_order(total: u64) -> Order {
    let mut o = approved_order(total);
    let mut m = milestone(&mut o, 0, 10_000);
    fund(&mut o, &mut m);
    o
}

#[test]
fn settle_order_swaps_vouchers_for_vehicle() {
    let mut o = ready_order(5_000);
    assert!(o.total_amount <= o.funded_amount);
    let calls = settle_order(&mut o, key(BUYER), key(BUYER)).unwrap();
    assert_eq!(
        calls,
        vec![
            TokenCall::Burn { mint: Role::VoucherMint, from: Role::BuyerVoucherToken, authority: Authority::Buyer, amount: 5_000 },
            TokenCall::Transfer { from: Role::ProgramNftToken, to: Role::BuyerNftToken, authority: Authority::OrderPda, amount: 1 },
        ]
    );
    assert_eq!(o.status, OrderStatus::Completed.to_u8());
    assert_eq!(settle_order(&mut o, key(BUYER), key(BUYER)), Err(ErrorCode::InvalidOrderState));
}

#[test]
fn settle_order_only_for_the_buyer() {
    let mut o = ready_order(5_000);
    assert_eq!(settle_order(&mut o, key(SELLER), key(BUYER)), Err(ErrorCode::UnauthorizedOracle));
    assert_eq!(settle_order(&mut o, key(BUYER), key(SELLER)), Err(ErrorCode::InvalidTokenAccount));
    assert_eq!(o.status, OrderStatus::ReadyForDelivery.to_u8());
}

#[test]
fn buyer_cancel_refunds_and_burns() {
    let mut o = approved_order(5_000);
    o.funded_amount = 700;
    let calls = cancel_order(&mut o, key(BUYER), key(BUYER)).unwrap();
    assert_eq!(
        calls,
        vec![
            TokenCall::Transfer { from: Role::OrderToken, to: Role::BuyerToken, authority: Authority::OrderPda, amount: 700 },
            TokenCall::Burn { mint: Role::VoucherMint, from: Role::BuyerVoucherToken, authority: Authority::Caller, amount: 700 },
        ]
    );
    assert_eq!(o.status, OrderStatus::Cancelled.to_u8());
    assert_eq!(o.funded_amount, 700);
}

#[test]
fn buyer_cancel_of_unfunded_order_moves_nothing() {
    let mut o = new_order(5_000);
    assert_eq!(cancel_order(&mut o, key(BUYER), key(BUYER)), Ok(vec![]));
    assert_eq!(o.status, 6);
}

#[test]
fn oracle_cancel_refunds_without_burning() {
    let mut o = approved_order(5_000);
    let mut m = milestone(&mut o, 0, 2_000);
    fund(&mut o, &mut m);
    let calls = cancel_order(&mut o, key(ORACLE), key(BUYER)).unwrap();
    assert_eq!(
        calls,
        vec![TokenCall::Transfer { from: Role::OrderToken, to: Role::BuyerToken, authority: Authority::OrderPda, amount: 1_000 }]
    );
    assert_eq!(o.status, 6);
}

#[test]
fn cancel_order_refusals() {
    let mut o = approved_order(5_000);
    assert_eq!(cancel_order(&mut o, key(SELLER), key(BUYER)), Err(ErrorCode::UnauthorizedOracle));
    let mut m = milestone(&mut o, 0, 2_000);
    fund(&mut o, &mut m);
    assert_eq!(cancel_order(&mut o, key(BUYER), key(BUYER)), Err(ErrorCode::InvalidOrderState));
    assert_eq!(o.status, 2);
}

#[test]
fn dispute_order_by_arbitrator() {
    let mut o = approved_order(5_000);
    assert_eq!(dispute_order(&mut o, key(ARBITER)), Err(ErrorCode::InvalidOrderState));
    let mut m = milestone(&mut o, 0, 1);
    fund(&mut o, &mut m);
    assert_eq!(dispute_order(&mut o, key(ORACLE)), Err(ErrorCode::UnauthorizedArbitrator));
    assert_eq!(dispute_order(&mut o, key(ARBITER)), Ok(()));
    assert_eq!(o.status, OrderStatus::Disputed.to_u8());
}

#[test]
fn closed_orders_only_cancel() {
    let mut o = approved_order(10);
    let mut m = milestone(&mut o, 0, 10_000);
    let mut extra = milestone(&mut o, 1, 10_000);
    fund(&mut o, &mut m);
    settle_order(&mut o, key(BUYER), key(BUYER)).unwrap();
    assert_eq!(fund_milestone(&mut o, &mut extra, key(ORDER_KEY), 10, 1).err(), Some(ErrorCode::InvalidOrderState));
    assert_eq!(dispute_order(&mut o, key(ARBITER)), Err(ErrorCode::InvalidOrderState));
    assert_eq!(cancel_order(&mut o, key(BUYER), key(BUYER)), Err(ErrorCode::InvalidOrderState));
    assert!(cancel_order(&mut o, key(ORACLE), key(BUYER)).is_ok());
    assert_eq!(o.status, OrderStatus::Cancelled.to_u8());
}

#[test]
fn order_status_codes_round_trip() {
    for s in [
        OrderStatus::Created,
        OrderStatus::Approved,
        OrderStatus::Processing,
        OrderStatus::ReadyForDelivery,
        OrderStatus::Completed,
        OrderStatus::Disputed,
        OrderStatus::Cancelled,
    ] {
        assert_eq!(OrderStatus::from_u8(s.to_u8()), Some(s));
    }
    assert_eq!(OrderStatus::from_u8(7), None);
    assert_eq!(OrderStatus::Cancelled.to_u8(), 6);
}

#[test]
fn order_space_matches_layout() {
    assert_eq!(Order::SPACE, 295);
    assert_eq!(Milestone::SPACE, 85);
}

#[test]
fn order_terms_hold_through_a_full_flow() {
    let mut o = approved_order(3_000);
    let terms = o.clone();
    let mut a = milestone(&mut o, 0, 5_000);
    let mut b = milestone(&mut o, 1, 5_000);
    complete_milestone(&mut o, &mut a, key(ORACLE), 5).unwrap();
    let mut funded_before: u64 = o.funded_amount;
    fund(&mut o, &mut a);
    assert!(o.funded_amount >= funded_before);
    funded_before = o.funded_amount;
    fund(&mut o, &mut b);
    assert!(o.funded_amount >= funded_before);
    assert_eq!(o.status, OrderStatus::ReadyForDelivery.to_u8());
    assert!(o.funded_amount >= o.total_amount);
    settle_order(&mut o, key(BUYER), key(BUYER)).unwrap();
    assert_eq!(o.buyer, terms.buyer);
    assert_eq!(o.seller, terms.seller);
    assert_eq!(o.total_amount, terms.total_amount);
    assert_eq!(o.token_mint, terms.token_mint);
    assert_eq!(o.order_id, terms.order_id);
    assert_eq!(o.bump, terms.bump);
    assert_eq!(o.created_at, terms.created_at);
    assert_eq!(o.funded_amount, 3_000);
}

#[test]
fn cancel_order_only_into_the_buyers_account() {
    let mut o = approved_order(5_000);
    assert_eq!(cancel_order(&mut o, key(ORACLE), key(SELLER)), Err(ErrorCode::InvalidTokenAccount));
    assert_eq!(o.status, OrderStatus::Approved.to_u8());
}

#[test]
fn settled_order_is_closed() {
    let mut o = ready_order(5_000);
    let mut m = milestone_of(0);
    settle_order(&mut o, key(BUYER), key(BUYER)).unwrap();
    assert!(settle_order(&mut o, key(BUYER), key(BUYER)).is_err());
    assert!(fund_milestone(&mut o, &mut m, key(ORDER_KEY), 5_000, 1).is_err());
    assert!(approve_order(&mut o, key(VOUCHER), key(ORACLE), key(ARBITER)).is_err());
    assert!(create_milestone(&mut o, key(ORDER_KEY), key(SELLER), 1, [0u8; 32], 1).is_err());
    assert!(complete_milestone(&mut o, &mut m, key(ORACLE), 1).is_err());
    assert!(dispute_order(&mut o, key(ARBITER)).is_err());
    assert_eq!(o.status, OrderStatus::Completed.to_u8());
}

fn milestone_of(index: u8) -> Milestone {
    Milestone {
        order: key(ORDER_KEY),
        index,
        name: [0u8; 32],
        funding_bps: 10_000,
        is_completed: false,
        is_funded: false,
        completed_at: 0,
    }
}
