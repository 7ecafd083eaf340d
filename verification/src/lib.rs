//! Order and escrow logic for electric-vehicle reservations: the state of
//! orders, milestones and escrows, and the rules by which each instruction
//! moves that state and which token operations it asks for.
pub mod key;
pub mod error;
pub mod token;
pub mod state;
pub mod events;
pub mod instructions;
pub mod vehicle_nft;
pub mod oracle;
