pub mod burn;
pub mod mint;
pub mod state;
pub mod update;
