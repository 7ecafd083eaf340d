use vstd::prelude::*;
use crate::error::ErrorCode;
use crate::events::EscrowInitialized;
use crate::key::Pubkey;
use crate::state::escrow::{
    active, bps_total, escrow_wf, lemma_bps_total_prefix, lemma_paid_out_none_completed, Escrow,
    EscrowStatus, Milestone,
};

verus! {

/// The smallest deposit that counts as a down payment: 100 units of a currency with
/// six decimals.
pub const MIN_DOWN: u64 = 100 * 1_000_000;

/// Whether `initialize_escrow` accepts the milestones: five of them, whose basis points
/// sum to 10000.
pub open spec fn milestones_valid(ms: Seq<Milestone>) -> bool {
    ms.len() == 5 && bps_total(ms) == 10000
}

/// The milestones are accepted exactly when there are five and their basis points add up
/// to 10000.
pub proof fn law_milestones_accepted_exactly(ms: Seq<Milestone>)
    ensures
        milestones_valid(ms) <==> ms.len() == 5 && ms[0].release_bps + ms[1].release_bps
            + ms[2].release_bps + ms[3].release_bps + ms[4].release_bps == 10000,
{
    if ms.len() == 5 {
        assert(ms.drop_last().drop_last().drop_last().drop_last().drop_last().len() == 0);
        assert(ms.drop_last().last() == ms[3]);
        assert(ms.drop_last().drop_last().last() == ms[2]);
        assert(ms.drop_last().drop_last().drop_last().last() == ms[1]);
        assert(ms.drop_last().drop_last().drop_last().drop_last().last() == ms[0]);
        reveal_with_fuel(bps_total, 6);
    }
}

/// Creates an escrow for `vehicle_id` between `buyer` and `seller` at time `now`, with
/// its five milestones; refused unless there are five whose basis points sum to 10000.
/// The escrow starts active, with nothing deposited or released.
pub fn initialize_escrow(
    buyer: Pubkey,
    seller: Pubkey,
    token_mint: Pubkey,
    oracle_signer: Pubkey,
    arbitrator: Pubkey,
    escrow_key: Pubkey,
    vehicle_id: String,
    total_amount: u64,
    milestones: Vec<Milestone>,
    bump: u8,
    now: i64,
) -> (r: Result<(Escrow, EscrowInitialized), ErrorCode>)
    ensures
        !milestones_valid(milestones@) ==> r == Err::<(Escrow, EscrowInitialized), ErrorCode>(ErrorCode::InvalidMilestones),
        milestones_valid(milestones@) ==> {
            &&& r is Ok
            &&& r->Ok_0.0 == (Escrow {
                buyer,
                seller,
                total_amount,
                deposited_amount: 0,
                released_amount: 0,
                token_mint,
                milestones: r->Ok_0.0.milestones,
                oracle_signer,
                arbitrator,
                status: active(),
                bump: r->Ok_0.0.bump,
                created_at: now,
            })
            &&& r->Ok_0.0.milestones@ == milestones@
            &&& r->Ok_0.0.bump@ == seq![bump]
            &&& r->Ok_0.1 == (EscrowInitialized { escrow_key, buyer, total_amount, vehicle_id })
            &&& (forall|i: int| 0 <= i < 5 ==> !(#[trigger] milestones@[i]).completed) ==> escrow_wf(r->Ok_0.0)
        },
{
    if milestones.len() != 5 {
        return Err(ErrorCode::InvalidMilestones);
    }
    let mut total_bps: u16 = 0;
    let mut i: usize = 0;
    while i < milestones.len()
        invariant
            0 <= i <= milestones.len(),
            total_bps == bps_total(milestones@.take(i as int)),
        decreases milestones.len() - i,
    {
        proof {
            assert(milestones@.take(i + 1).drop_last() =~= milestones@.take(i as int));
        }
        match total_bps.checked_add(milestones[i].release_bps) {
            Some(t) => {
                total_bps = t;
            },
            None => {
                proof {
                    lemma_bps_total_prefix(milestones@, i + 1, milestones@.len() as int);
                    assert(milestones@.take(milestones@.len() as int) =~= milestones@);
                }
                return Err(ErrorCode::InvalidMilestones);
            },
        }
        i = i + 1;
    }
    proof {
        assert(milestones@.take(milestones@.len() as int) =~= milestones@);
    }
    if total_bps != 10000 {
        return Err(ErrorCode::InvalidMilestones);
    }
    let arr: [Milestone; 5] = [milestones[0], milestones[1], milestones[2], milestones[3], milestones[4]];
    proof {
        assert(arr@ =~= milestones@);
    }
    let escrow = Escrow {
        buyer,
        seller,
        total_amount,
        deposited_amount: 0,
        released_amount: 0,
        token_mint,
        milestones: arr,
        oracle_signer,
        arbitrator,
        status: EscrowStatus::Active.to_u8(),
        bump: [bump],
        created_at: now,
    };
    proof {
        assert(escrow.bump@ =~= seq![bump]);
        if forall|i: int| 0 <= i < 5 ==> !(#[trigger] milestones@[i]).completed {
            lemma_paid_out_none_completed(milestones@, total_amount);
            assert(!milestones@[0].completed);
        }
    }
    Ok((escrow, EscrowInitialized { escrow_key, buyer, total_amount, vehicle_id }))
}

} // verus!
