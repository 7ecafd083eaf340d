use vstd::prelude::*;
use crate::key::Pubkey;

verus! {

/// Logged when an escrow is created; off-chain services start minting the vehicle token on it.
#[derive(Clone, Debug, PartialEq, Eq)]
pub struct EscrowInitialized {
    pub escrow_key: Pubkey,
    pub buyer: Pubkey,
    pub total_amount: u64,
    pub vehicle_id: String,
}

/// Logged when a deposit reaches an escrow.
#[derive(Clone, Copy, Debug, PartialEq, Eq)]
pub struct EscrowFunded {
    pub escrow_key: Pubkey,
    pub amount: u64,
}

/// Logged when a milestone's share is paid to the seller.
#[derive(Clone, Copy, Debug, PartialEq, Eq)]
pub struct MilestoneReleased {
    pub escrow_key: Pubkey,
    pub milestone_index: u8,
    pub amount: u64,
}

/// Logged when the funds of an escrow go back to the buyer.
#[derive(Clone, Copy, Debug, PartialEq, Eq)]
pub struct EscrowRefunded {
    pub escrow_key: Pubkey,
    pub amount: u64,
}

/// Logged when a milestone of an order is funded.
#[derive(Clone, Copy, Debug, PartialEq, Eq)]
pub struct MilestoneFunded {
    pub order: Pubkey,
    pub milestone_index: u8,
    pub amount: u64,
    pub funded_at: i64,
}

} // verus!
