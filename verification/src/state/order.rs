use vstd::prelude::*;
use crate::key::Pubkey;

verus! {

/// The stages of an order, stored in `Order::status` by their codes.
#[derive(Clone, Copy, Debug, PartialEq, Eq, Structural)]
pub enum OrderStatus {
    Created,
    Approved,
    Processing,
    ReadyForDelivery,
    Completed,
    Disputed,
    Cancelled,
}

impl OrderStatus {
    /// The code under which the status is stored.
    pub open spec fn code(self) -> u8 {
        match self {
            OrderStatus::Created => 0,
            OrderStatus::Approved => 1,
            OrderStatus::Processing => 2,
            OrderStatus::ReadyForDelivery => 3,
            OrderStatus::Completed => 4,
            OrderStatus::Disputed => 5,
            OrderStatus::Cancelled => 6,
        }
    }

    /// The status that a stored code stands for, if any.
    pub open spec fn of_code(c: u8) -> Option<OrderStatus> {
        if c == 0 {
            Some(OrderStatus::Created)
        } else if c == 1 {
            Some(OrderStatus::Approved)
        } else if c == 2 {
            Some(OrderStatus::Processing)
        } else if c == 3 {
            Some(OrderStatus::ReadyForDelivery)
        } else if c == 4 {
            Some(OrderStatus::Completed)
        } else if c == 5 {
            Some(OrderStatus::Disputed)
        } else if c == 6 {
            Some(OrderStatus::Cancelled)
        } else {
            None
        }
    }

    /// Returns the code under which the status is stored.
    pub fn to_u8(self) -> (c: u8)
        ensures
            c == self.code(),
    {
        match self {
            OrderStatus::Created => 0,
            OrderStatus::Approved => 1,
            OrderStatus::Processing => 2,
            OrderStatus::ReadyForDelivery => 3,
            OrderStatus::Completed => 4,
            OrderStatus::Disputed => 5,
            OrderStatus::Cancelled => 6,
        }
    }

    /// Reads a stored code; `None` for a code that names no status.
    pub fn from_u8(c: u8) -> (s: Option<OrderStatus>)
        ensures
            s == OrderStatus::of_code(c),
    {
        if c == 0 {
            Some(OrderStatus::Created)
        } else if c == 1 {
            Some(OrderStatus::Approved)
        } else if c == 2 {
            Some(OrderStatus::Processing)
        } else if c == 3 {
            Some(OrderStatus::ReadyForDelivery)
        } else if c == 4 {
            Some(OrderStatus::Completed)
        } else if c == 5 {
            Some(OrderStatus::Disputed)
        } else if c == 6 {
            Some(OrderStatus::Cancelled)
        } else {
            None
        }
    }
}

/// Stored codes of the order stages, as `spec` shorthands for contracts.
pub open spec fn created() -> u8 { OrderStatus::Created.code() }
pub open spec fn approved() -> u8 { OrderStatus::Approved.code() }
pub open spec fn processing() -> u8 { OrderStatus::Processing.code() }
pub open spec fn ready_for_delivery() -> u8 { OrderStatus::ReadyForDelivery.code() }
pub open spec fn completed() -> u8 { OrderStatus::Completed.code() }
pub open spec fn disputed() -> u8 { OrderStatus::Disputed.code() }
pub open spec fn cancelled() -> u8 { OrderStatus::Cancelled.code() }

/// The stored codes of the order stages: created 0, approved 1, processing 2, ready for
/// delivery 3, completed 4, disputed 5, cancelled 6.
pub proof fn law_order_stage_codes()
    ensures
        created() == 0 && OrderStatus::Created.code() == 0,
        approved() == 1 && OrderStatus::Approved.code() == 1,
        processing() == 2 && OrderStatus::Processing.code() == 2,
        ready_for_delivery() == 3 && OrderStatus::ReadyForDelivery.code() == 3,
        completed() == 4 && OrderStatus::Completed.code() == 4,
        disputed() == 5 && OrderStatus::Disputed.code() == 5,
        cancelled() == 6 && OrderStatus::Cancelled.code() == 6,
{
}

/// The moves of an order's stage that accepted instructions make: approval of a created
/// order, production and funding of an approved one, delivery readiness, settlement,
/// disputes in production or before delivery, and cancellation from anywhere.
pub open spec fn order_transition(from: u8, to: u8) -> bool {
    ||| to == cancelled()
    ||| from == created() && to == approved()
    ||| from == approved() && (to == approved() || to == processing() || to == ready_for_delivery())
    ||| from == processing() && (to == processing() || to == ready_for_delivery() || to == disputed())
    ||| from == ready_for_delivery() && (to == completed() || to == disputed())
}

/// A completed, disputed or cancelled order can only go on to be cancelled.
pub proof fn law_closed_order_only_cancels(from: u8, to: u8)
    requires
        order_transition(from, to),
        from == completed() || from == disputed() || from == cancelled(),
    ensures
        to == cancelled(),
{
}

/// An order completes only out of readiness for delivery.
pub proof fn law_order_completes_only_when_ready(from: u8, to: u8)
    requires
        order_transition(from, to),
        to == completed(),
    ensures
        from == ready_for_delivery(),
{
}

/// What no instruction changes in an order once it exists: its parties, amount, currency,
/// identifier, bump and creation time; and its funded amount never shrinks.
pub open spec fn order_keeps_terms(old: Order, new: Order) -> bool {
    &&& new.buyer == old.buyer
    &&& new.seller == old.seller
    &&& new.total_amount == old.total_amount
    &&& new.token_mint == old.token_mint
    &&& new.order_id == old.order_id
    &&& new.bump == old.bump
    &&& new.created_at == old.created_at
    &&& new.funded_amount >= old.funded_amount
}

/// The invariant that every order keeps: an order ready for delivery has been funded
/// with at least its total amount.
pub open spec fn order_wf(o: Order) -> bool {
    o.status == ready_for_delivery() ==> o.funded_amount >= o.total_amount
}

/// Each status has a code, and that code reads back as the same status; a code that
/// reads as a status is that status's code.
pub proof fn law_order_status_codes(s: OrderStatus, c: u8)
    ensures
        OrderStatus::of_code(s.code()) == Some(s),
        OrderStatus::of_code(c) == Some(s) ==> s.code() == c,
        OrderStatus::of_code(c) is None <==> c > 6,
{
}

/// A purchase order paid in milestones and settled against a vehicle token.
#[derive(Clone, Debug)]
pub struct Order {
    /// The buyer who initiates the order.
    pub buyer: Pubkey,
    /// The seller (OEM treasury).
    pub seller: Pubkey,
    /// The total purchase amount, in units of the payment currency.
    pub total_amount: u64,
    /// The amount funded by the buyer so far.
    pub funded_amount: u64,
    /// The mint of the payment currency.
    pub token_mint: Pubkey,
    /// The voucher mint of this order.
    pub voucher_mint: Pubkey,
    /// The oracle that signs off production milestones.
    pub oracle_signer: Pubkey,
    /// The arbitrator that resolves disputes.
    pub arbitrator: Pubkey,
    /// The stage of the order, as an `OrderStatus` code.
    pub status: u8,
    /// Bump seed of the order's program address.
    pub bump: u8,
    /// Unix timestamp of the order's creation.
    pub created_at: i64,
    /// The number of milestones created for this order.
    pub milestone_count: u8,
    /// The order's identifier (such as the ERP order id).
    pub order_id: String,
}

impl Order {
    /// Bytes of the stored account: discriminator, six keys, the amounts, status, bump,
    /// timestamp, milestone count and an order id of up to 64 bytes.
    pub const SPACE: usize = 8 + 32 + 32 + 8 + 8 + 32 + 32 + 32 + 32 + 1 + 1 + 8 + 1 + (4 + 64);
}

/// A production milestone of an order.
#[derive(Clone, Copy, Debug, PartialEq, Eq)]
pub struct Milestone {
    /// The order this milestone belongs to.
    pub order: Pubkey,
    /// The index of this milestone (0, 1, 2, ...).
    pub index: u8,
    /// The name of the milestone (such as "Chassis Built").
    pub name: [u8; 32],
    /// The share of the total amount that this milestone stands for, in basis points.
    pub funding_bps: u16,
    /// Whether production has completed this milestone.
    pub is_completed: bool,
    /// Whether the buyer has funded this milestone.
    pub is_funded: bool,
    /// Unix timestamp of completion.
    pub completed_at: i64,
}

impl Milestone {
    /// Bytes of the stored account.
    pub const SPACE: usize = 8 + 32 + 1 + 32 + 2 + 1 + 1 + 8;
}

} // verus!
