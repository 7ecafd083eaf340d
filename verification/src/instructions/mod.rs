pub mod approve_order;
pub mod cancel;
pub mod cancel_order;
pub mod complete_milestone;
pub mod create_milestone;
pub mod dispute;
pub mod dispute_order;
pub mod fund;
pub mod fund_milestone;
pub mod initialize;
pub mod initialize_order;
pub mod refund;
pub mod release;
pub mod settle_order;
