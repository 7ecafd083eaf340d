pub mod escrow;
pub mod order;
