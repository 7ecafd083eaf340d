use vstd::prelude::*;
use crate::error::ErrorCode;
use crate::events::MilestoneReleased;
use crate::key::Pubkey;
use crate::state::escrow::{
    active, all_completed, all_milestones_completed, available, escrow_keeps_terms, escrow_wf,
    lemma_bps_le_total, lemma_bps_total_update, lemma_paid_out_update, lemma_share_fits,
    milestone_release_amount, release_amount, released, Escrow, EscrowStatus,
};
use crate::token::{Authority, Role, TokenCall};

verus! {

/// The error with which `release_milestone` refuses, checked in this order, or `None`
/// where it goes ahead.
pub open spec fn release_refusal(
    e: Escrow,
    oracle_signer: Pubkey,
    receiver_owner: Pubkey,
    milestone_index: u8,
) -> Option<ErrorCode> {
    if oracle_signer != e.oracle_signer {
        Some(ErrorCode::UnauthorizedOracle)
    } else if milestone_index >= 5 {
        Some(ErrorCode::InvalidEscrowState)
    } else if e.milestones@[milestone_index as int].completed {
        Some(ErrorCode::MilestoneAlreadyCompleted)
    } else if e.status != active() {
        Some(ErrorCode::InvalidEscrowState)
    } else if receiver_owner != e.seller {
        Some(ErrorCode::InvalidTokenAccount)
    } else if available(e) < release_amount(e.total_amount, e.milestones@[milestone_index as int].release_bps) {
        Some(ErrorCode::InsufficientAmount)
    } else {
        None
    }
}

/// The escrow after the milestone at `i` has been paid `amount` at time `now`.
pub open spec fn released_state(old: Escrow, new: Escrow, i: int, amount: u64, now: i64) -> bool {
    &&& new.milestones@ == old.milestones@.update(
        i,
        crate::state::escrow::Milestone { completed: true, completed_at: now, ..old.milestones@[i] },
    )
    &&& new.released_amount == old.released_amount + amount
    &&& new.status == (if all_completed(new.milestones) { released() } else { old.status })
    &&& new.buyer == old.buyer
    &&& new.seller == old.seller
    &&& new.total_amount == old.total_amount
    &&& new.deposited_amount == old.deposited_amount
    &&& new.token_mint == old.token_mint
    &&& new.oracle_signer == old.oracle_signer
    &&& new.arbitrator == old.arbitrator
    &&& new.bump == old.bump
    &&& new.created_at == old.created_at
}

/// A release goes ahead exactly when the oracle signs, the index names one of the five
/// milestones, that milestone is still open, the escrow is active (code 0), the money goes
/// to the seller, and the funds held for release cover the milestone's share.
pub proof fn law_release_accepts_exactly(e: Escrow, oracle_signer: Pubkey, receiver_owner: Pubkey, milestone_index: u8)
    ensures
        release_refusal(e, oracle_signer, receiver_owner, milestone_index) is None <==> {
            &&& oracle_signer == e.oracle_signer
            &&& milestone_index < 5
            &&& !e.milestones@[milestone_index as int].completed
            &&& e.status == 0
            &&& receiver_owner == e.seller
            &&& release_amount(e.total_amount, e.milestones@[milestone_index as int].release_bps) as int
                <= if e.deposited_amount >= e.released_amount {
                    e.deposited_amount - e.released_amount
                } else {
                    0
                }
        },
        oracle_signer == e.oracle_signer && milestone_index < 5
            && e.milestones@[milestone_index as int].completed
            ==> release_refusal(e, oracle_signer, receiver_owner, milestone_index)
                == Some(ErrorCode::MilestoneAlreadyCompleted),
{
}

/// What a release does: the named milestone, and no other, becomes completed at `now`;
/// the released amount grows by that milestone's share and, where it was, stays within the
/// deposits; and
/// the escrow is released (code 1) exactly when all five milestones are then completed,
/// staying active (code 0) otherwise.
pub proof fn law_release_effect(
    old: Escrow,
    new: Escrow,
    oracle_signer: Pubkey,
    receiver_owner: Pubkey,
    milestone_index: u8,
    now: i64,
)
    requires
        release_refusal(old, oracle_signer, receiver_owner, milestone_index) is None,
        released_state(
            old,
            new,
            milestone_index as int,
            release_amount(old.total_amount, old.milestones@[milestone_index as int].release_bps),
            now,
        ),
    ensures
        new.milestones@[milestone_index as int].completed,
        new.milestones@[milestone_index as int].completed_at == now,
        new.milestones@[milestone_index as int].release_bps == old.milestones@[milestone_index as int].release_bps,
        forall|j: int| 0 <= j < 5 && j != milestone_index ==> #[trigger] new.milestones@[j] == old.milestones@[j],
        new.released_amount == old.released_amount
            + release_amount(old.total_amount, old.milestones@[milestone_index as int].release_bps),
        old.released_amount <= old.deposited_amount ==> new.released_amount <= new.deposited_amount,
        new.status == 1 <==> (forall|j: int| 0 <= j < 5 ==> #[trigger] new.milestones@[j].completed),
        new.status == 0 || new.status == 1,
{
    assert(new.milestones@.len() == 5);
}

/// Pays the seller the share of milestone `milestone_index`, signed off by `oracle_signer`
/// at time `now`, into a token account owned by `receiver_owner`, which must be the
/// seller: the escrow's token account sends `total * bps / 10000` to the seller's,
/// the milestone is marked completed, and once all five are, the escrow is released.
pub fn release_milestone(
    escrow: &mut Escrow,
    escrow_key: Pubkey,
    oracle_signer: Pubkey,
    receiver_owner: Pubkey,
    milestone_index: u8,
    now: i64,
) -> (r: Result<(Vec<TokenCall>, MilestoneReleased), ErrorCode>)
    ensures
        match release_refusal(*old(escrow), oracle_signer, receiver_owner, milestone_index) {
            Some(err) => r == Err::<(Vec<TokenCall>, MilestoneReleased), ErrorCode>(err)
                && *final(escrow) == *old(escrow),
            None => {
                let amount = release_amount(
                    old(escrow).total_amount,
                    old(escrow).milestones@[milestone_index as int].release_bps,
                );
                &&& r is Ok
                &&& r->Ok_0.0@ == seq![
                    TokenCall::Transfer {
                        from: Role::EscrowToken,
                        to: Role::SellerToken,
                        authority: Authority::EscrowPda,
                        amount,
                    },
                ]
                &&& r->Ok_0.1 == (MilestoneReleased { escrow_key, milestone_index, amount })
                &&& released_state(*old(escrow), *final(escrow), milestone_index as int, amount, now)
            },
        },
        escrow_wf(*old(escrow)) ==> escrow_wf(*final(escrow)),
        escrow_keeps_terms(*old(escrow), *final(escrow)),
{
    if !oracle_signer.same(&escrow.oracle_signer) {
        return Err(ErrorCode::UnauthorizedOracle);
    }
    if milestone_index >= 5 {
        return Err(ErrorCode::InvalidEscrowState);
    }
    let i: usize = milestone_index as usize;
    if escrow.milestones[i].completed {
        return Err(ErrorCode::MilestoneAlreadyCompleted);
    }
    if escrow.status != EscrowStatus::Active.to_u8() {
        return Err(ErrorCode::InvalidEscrowState);
    }
    if !receiver_owner.same(&escrow.seller) {
        return Err(ErrorCode::InvalidTokenAccount);
    }
    let amount = milestone_release_amount(escrow.total_amount, escrow.milestones[i].release_bps);
    let available_now: u64 = escrow.deposited_amount.checked_sub(escrow.released_amount).unwrap_or(0);
    if available_now < amount {
        return Err(ErrorCode::InsufficientAmount);
    }
    let calls = vec![
        TokenCall::Transfer {
            from: Role::EscrowToken,
            to: Role::SellerToken,
            authority: Authority::EscrowPda,
            amount,
        },
    ];
    let mut m = escrow.milestones[i];
    m.completed = true;
    m.completed_at = now;
    escrow.milestones[i] = m;
    escrow.released_amount = escrow.released_amount + amount;
    if all_milestones_completed(&escrow.milestones) {
        escrow.status = EscrowStatus::Released.to_u8();
    }
    proof {
        if escrow_wf(*old(escrow)) {
            let ms = old(escrow).milestones@;
            lemma_bps_le_total(ms, i as int);
            lemma_share_fits(old(escrow).total_amount, m.release_bps);
            lemma_paid_out_update(ms, i as int, m, old(escrow).total_amount);
            lemma_bps_total_update(ms, i as int, m);
        }
    }
    Ok((calls, MilestoneReleased { escrow_key, milestone_index, amount }))
}

} // verus!
