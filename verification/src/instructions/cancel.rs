use vstd::prelude::*;
use crate::error::ErrorCode;
use crate::events::EscrowRefunded;
use crate::instructions::dispute::dispute_escrow_refusal;
use crate::instructions::refund::refund_refusal;
use crate::instructions::release::release_refusal;
use crate::key::Pubkey;
use crate::state::escrow::{
    active, any_completed, any_milestone_completed, available, escrow_keeps_terms, escrow_wf,
    refunded, Escrow, EscrowStatus,
};
use crate::token::{Authority, Role, TokenCall};

verus! {

/// The error with which `cancel_escrow` refuses, checked in this order, or `None` where it
/// goes ahead: only the buyer or the oracle may cancel, the buyer only before any
/// milestone is released, only an active escrow, and only into an account of the buyer.
pub open spec fn cancel_escrow_refusal(e: Escrow, authority: Pubkey, receiver_owner: Pubkey) -> Option<ErrorCode> {
    if authority != e.buyer && authority != e.oracle_signer {
        Some(ErrorCode::UnauthorizedOracle)
    } else if authority == e.buyer && any_completed(e.milestones) {
        Some(ErrorCode::InvalidEscrowState)
    } else if e.status != active() {
        Some(ErrorCode::AlreadyReleased)
    } else if receiver_owner != e.buyer {
        Some(ErrorCode::InvalidTokenAccount)
    } else {
        None
    }
}

/// The transfer that gives back `amount` to the buyer, if there is anything to give back.
pub open spec fn refund_calls(amount: u64) -> Seq<TokenCall> {
    if amount > 0 {
        seq![TokenCall::Transfer {
            from: Role::EscrowToken,
            to: Role::BuyerToken,
            authority: Authority::EscrowPda,
            amount,
        }]
    } else {
        Seq::empty()
    }
}

/// A cancellation goes ahead exactly when the buyer or the oracle asks, the buyer only
/// while no milestone is completed, the escrow is active (code 0), and the money goes back
/// to the buyer.
pub proof fn law_cancel_escrow_accepts_exactly(e: Escrow, authority: Pubkey, receiver_owner: Pubkey)
    ensures
        cancel_escrow_refusal(e, authority, receiver_owner) is None <==> {
            &&& authority == e.buyer || authority == e.oracle_signer
            &&& authority == e.buyer ==> forall|i: int| 0 <= i < 5 ==> !(#[trigger] e.milestones@[i]).completed
            &&& e.status == 0
            &&& receiver_owner == e.buyer
        },
{
}

/// A cancellation moves exactly what is left: nothing when nothing is left, otherwise one
/// transfer of it from the escrow's account to the buyer's, signed by the escrow.
pub proof fn law_cancel_escrow_moves_what_is_left(amount: u64)
    ensures
        amount == 0 ==> refund_calls(amount).len() == 0,
        amount > 0 ==> refund_calls(amount) == seq![
            TokenCall::Transfer {
                from: Role::EscrowToken,
                to: Role::BuyerToken,
                authority: Authority::EscrowPda,
                amount,
            },
        ],
{
}

/// Once any milestone has been released, the buyer can no longer cancel: the refusal is
/// `InvalidEscrowState`.
pub proof fn law_buyer_cannot_cancel_after_a_release(e: Escrow, receiver_owner: Pubkey, i: int)
    requires
        0 <= i < 5,
        e.milestones@[i].completed,
    ensures
        cancel_escrow_refusal(e, e.buyer, receiver_owner) == Some(ErrorCode::InvalidEscrowState),
{
}

/// A cancelled escrow is closed: once a cancellation went ahead, every later release,
/// cancellation, refund or dispute of the escrow is refused, whoever asks, so the cancelled
/// funds are never released or refunded again.
pub proof fn law_cancelled_escrow_is_closed(
    e: Escrow,
    authority: Pubkey,
    receiver_owner: Pubkey,
    later_signer: Pubkey,
    later_owner: Pubkey,
    milestone_index: u8,
)
    requires
        cancel_escrow_refusal(e, authority, receiver_owner) is None,
    ensures
        release_refusal(Escrow { status: refunded(), ..e }, later_signer, later_owner, milestone_index) is Some,
        cancel_escrow_refusal(Escrow { status: refunded(), ..e }, later_signer, later_owner) is Some,
        refund_refusal(Escrow { status: refunded(), ..e }, later_signer, later_owner) is Some,
        dispute_escrow_refusal(Escrow { status: refunded(), ..e }, later_signer) is Some,
{
}

/// Cancels an escrow on the request of `authority` (the buyer or the oracle): what is
/// still deposited and unreleased goes back to the buyer, into a token account owned by
/// `receiver_owner`, which must be the buyer, and the escrow is refunded.
pub fn cancel_escrow(escrow: &mut Escrow, escrow_key: Pubkey, authority: Pubkey, receiver_owner: Pubkey) -> (r: Result<
    (Vec<TokenCall>, EscrowRefunded),
    ErrorCode,
>)
    ensures
        match cancel_escrow_refusal(*old(escrow), authority, receiver_owner) {
            Some(err) => r == Err::<(Vec<TokenCall>, EscrowRefunded), ErrorCode>(err)
                && *final(escrow) == *old(escrow),
            None => {
                let amount = available(*old(escrow)) as u64;
                &&& r is Ok
                &&& r->Ok_0.0@ == refund_calls(amount)
                &&& r->Ok_0.1 == (EscrowRefunded { escrow_key, amount })
                &&& *final(escrow) == (Escrow { status: refunded(), ..*old(escrow) })
            },
        },
        escrow_wf(*old(escrow)) ==> escrow_wf(*final(escrow)),
        escrow_keeps_terms(*old(escrow), *final(escrow)),
{
    let is_buyer = authority.same(&escrow.buyer);
    let is_oracle = authority.same(&escrow.oracle_signer);
    if !(is_buyer || is_oracle) {
        return Err(ErrorCode::UnauthorizedOracle);
    }
    if is_buyer {
        if any_milestone_completed(&escrow.milestones) {
            return Err(ErrorCode::InvalidEscrowState);
        }
    }
    if escrow.status != EscrowStatus::Active.to_u8() {
        return Err(ErrorCode::AlreadyReleased);
    }
    if !receiver_owner.same(&escrow.buyer) {
        return Err(ErrorCode::InvalidTokenAccount);
    }
    let amount: u64 = escrow.deposited_amount.checked_sub(escrow.released_amount).unwrap_or(0);
    let mut calls: Vec<TokenCall> = Vec::new();
    if amount > 0 {
        calls.push(TokenCall::Transfer {
            from: Role::EscrowToken,
            to: Role::BuyerToken,
            authority: Authority::EscrowPda,
            amount,
        });
    }
    proof {
        assert(calls@ =~= refund_calls(amount));
    }
    escrow.status = EscrowStatus::Refunded.to_u8();
    Ok((calls, EscrowRefunded { escrow_key, amount }))
}

} // verus!
