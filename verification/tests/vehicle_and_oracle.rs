use escrow_program::error::ErrorCode;
use escrow_program::instructions::approve_order::approve_order;
use escrow_program::instructions::create_milestone::create_milestone;
use escrow_program::instructions::initialize_order::initialize_order;
use escrow_program::key::Pubkey;
use escrow_program::oracle::{submit_milestone, vehicle_status_after_milestone};
use escrow_program::token::{Authority, Role, TokenCall};
use escrow_program::vehicle_nft::burn::burn_vehicle_nft;
use escrow_program::vehicle_nft::mint::mint_vehicle_nft;
use escrow_program::vehicle_nft::state::{VehicleMetadata, VehicleStatus};
use escrow_program::vehicle_nft::update::update_vehicle_status;

fn key(n: u8) -> Pubkey {
    Pubkey { bytes: [n; 32] }
}

fn metadata() -> VehicleMetadata {
    mint_vehicle_nft(
        key(21),
        "1HGCM82633A004352".to_string(),
        "Model S".to_string(),
        "Red".to_string(),
        "2025-Q3".to_string(),
        key(22),
        key(23),
        250,
    )
}

#[test]
fn mint_vehicle_nft_reserves_vehicle() {
    let m = metadata();
    assert_eq!(m.mint, key(21));
    assert_eq!(m.vin, "1HGCM82633A004352");
    assert_eq!(m.model, "Model S");
    assert_eq!(m.color, "Red");
    assert_eq!(m.delivery_est, "2025-Q3");
    assert_eq!(m.order_pda, key(22));
    assert_eq!(m.buyer_wallet, key(23));
    assert_eq!(m.bump, 250);
    assert_eq!(m.status, VehicleStatus::Reserved.to_u8());
}

#[test]
fn update_vehicle_status_takes_any_code() {
    let mut m = metadata();
    update_vehicle_status(&mut m, 3);
    assert_eq!(m.status, 3);
    update_vehicle_status(&mut m, 200);
    assert_eq!(m.status, 200);
    assert_eq!(VehicleStatus::from_u8(200), None);
    assert_eq!(m.model, "Model S");
}

#[test]
fn burn_vehicle_nft_burns_one() {
    assert_eq!(
        burn_vehicle_nft(metadata()),
        vec![TokenCall::Burn { mint: Role::NftMint, from: Role::NftToken, authority: Authority::Payer, amount: 1 }]
    );
}

#[test]
fn vehicle_status_codes_round_trip() {
    for s in [
        VehicleStatus::Reserved,
        VehicleStatus::InProduction,
        VehicleStatus::ReadyForDelivery,
        VehicleStatus::Delivered,
        VehicleStatus::Cancelled,
    ] {
        assert_eq!(VehicleStatus::from_u8(s.to_u8()), Some(s));
    }
    assert_eq!(vehicle_status_after_milestone(true), 2);
    assert_eq!(vehicle_status_after_milestone(false), 1);
}

#[test]
fn submit_milestone_completes_and_updates_vehicle() {
    let mut o = initialize_order(key(1), key(2), key(3), "A-1".to_string(), 100, 1, 0);
    approve_order(&mut o, key(4), key(5), key(6)).unwrap();
    let mut ms = create_milestone(&mut o, key(7), key(2), 0, [0u8; 32], 5_000).unwrap();
    let mut last = create_milestone(&mut o, key(7), key(2), 1, [1u8; 32], 5_000).unwrap();
    let mut meta = metadata();
    assert_eq!(submit_milestone(&mut o, &mut ms, &mut meta, key(5), false, 10), Ok(()));
    assert_eq!(o.status, 2);
    assert!(ms.is_completed);
    assert_eq!(meta.status, VehicleStatus::InProduction.to_u8());
    assert_eq!(submit_milestone(&mut o, &mut last, &mut meta, key(5), true, 11), Ok(()));
    assert_eq!(meta.status, VehicleStatus::ReadyForDelivery.to_u8());
    assert_eq!(last.completed_at, 11);
}

#[test]
fn submit_milestone_refused_leaves_vehicle_alone() {
    let mut o = initialize_order(key(1), key(2), key(3), "A-1".to_string(), 100, 1, 0);
    approve_order(&mut o, key(4), key(5), key(6)).unwrap();
    let mut ms = create_milestone(&mut o, key(7), key(2), 0, [0u8; 32], 5_000).unwrap();
    let mut meta = metadata();
    assert_eq!(submit_milestone(&mut o, &mut ms, &mut meta, key(9), true, 10), Err(ErrorCode::UnauthorizedOracle));
    assert_eq!(meta.status, 0);
    assert!(!ms.is_completed);
    assert_eq!(o.status, 1);
}
