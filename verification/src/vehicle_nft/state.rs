use vstd::prelude::*;
use crate::key::Pubkey;

verus! {

/// The production stages of a vehicle, stored in `VehicleMetadata::status` by their codes.
#[derive(Clone, Copy, Debug, PartialEq, Eq, Structural)]
pub enum VehicleStatus {
    Reserved,
    InProduction,
    ReadyForDelivery,
    Delivered,
    Cancelled,
}

impl VehicleStatus {
    /// The code under which the status is stored.
    pub open spec fn code(self) -> u8 {
        match self {
            VehicleStatus::Reserved => 0,
            VehicleStatus::InProduction => 1,
            VehicleStatus::ReadyForDelivery => 2,
            VehicleStatus::Delivered => 3,
            VehicleStatus::Cancelled => 4,
        }
    }

    /// The status that a stored code stands for, if any.
    pub open spec fn of_code(c: u8) -> Option<VehicleStatus> {
        if c == 0 {
            Some(VehicleStatus::Reserved)
        } else if c == 1 {
            Some(VehicleStatus::InProduction)
        } else if c == 2 {
            Some(VehicleStatus::ReadyForDelivery)
        } else if c == 3 {
            Some(VehicleStatus::Delivered)
        } else if c == 4 {
            Some(VehicleStatus::Cancelled)
        } else {
            None
        }
    }

    /// Returns the code under which the status is stored.
    pub fn to_u8(self) -> (c: u8)
        ensures
            c == self.code(),
    {
        match self {
            VehicleStatus::Reserved => 0,
            VehicleStatus::InProduction => 1,
            VehicleStatus::ReadyForDelivery => 2,
            VehicleStatus::Delivered => 3,
            VehicleStatus::Cancelled => 4,
        }
    }

    /// Reads a stored code; `None` for a code that names no status.
    pub fn from_u8(c: u8) -> (s: Option<VehicleStatus>)
        ensures
            s == VehicleStatus::of_code(c),
    {
        if c == 0 {
            Some(VehicleStatus::Reserved)
        } else if c == 1 {
            Some(VehicleStatus::InProduction)
        } else if c == 2 {
            Some(VehicleStatus::ReadyForDelivery)
        } else if c == 3 {
            Some(VehicleStatus::Delivered)
        } else if c == 4 {
            Some(VehicleStatus::Cancelled)
        } else {
            None
        }
    }
}

/// Each status has a code, and that code reads back as the same status; a code that
/// reads as a status is that status's code.
pub proof fn law_vehicle_status_codes(s: VehicleStatus, c: u8)
    ensures
        VehicleStatus::of_code(s.code()) == Some(s),
        VehicleStatus::of_code(c) == Some(s) ==> s.code() == c,
        VehicleStatus::of_code(c) is None <==> c > 4,
{
}

/// The stored codes of the vehicle stages: reserved 0, in production 1, ready for
/// delivery 2, delivered 3, cancelled 4.
pub proof fn law_vehicle_stage_codes()
    ensures
        VehicleStatus::Reserved.code() == 0,
        VehicleStatus::InProduction.code() == 1,
        VehicleStatus::ReadyForDelivery.code() == 2,
        VehicleStatus::Delivered.code() == 3,
        VehicleStatus::Cancelled.code() == 4,
{
}

/// What the vehicle token of a reservation records about the vehicle.
#[derive(Clone, Debug)]
pub struct VehicleMetadata {
    /// The vehicle token's mint.
    pub mint: Pubkey,
    /// The vehicle identification number.
    pub vin: String,
    pub model: String,
    pub color: String,
    /// The production stage, as a `VehicleStatus` code.
    pub status: u8,
    /// The order that the vehicle belongs to.
    pub order_pda: Pubkey,
    /// The buyer's wallet.
    pub buyer_wallet: Pubkey,
    /// The estimated delivery date.
    pub delivery_est: String,
    /// Bump seed of the metadata's program address.
    pub bump: u8,
}

impl VehicleMetadata {
    /// Bytes of the stored account: discriminator, mint, three strings of up to 32 bytes,
    /// status, two keys, a delivery estimate of up to 32 bytes and the bump.
    pub const SPACE: usize = 8 + 32 + (4 + 32) + (4 + 32) + (4 + 32) + 1 + 32 + 32 + (4 + 32) + 1;
}

} // verus!
