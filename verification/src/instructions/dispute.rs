use vstd::prelude::*;
use crate::error::ErrorCode;
use crate::key::Pubkey;
use crate::state::escrow::{active, disputed, escrow_keeps_terms, escrow_wf, Escrow, EscrowStatus};

verus! {

/// The error with which `dispute_escrow` refuses, checked in this order, or `None`.
pub open spec fn dispute_escrow_refusal(e: Escrow, arbitrator: Pubkey) -> Option<ErrorCode> {
    if arbitrator != e.arbitrator {
        Some(ErrorCode::UnauthorizedArbitrator)
    } else if e.status != active() {
        Some(ErrorCode::InvalidEscrowState)
    } else {
        None
    }
}

/// A dispute of an escrow goes ahead exactly when its arbitrator asks and it is active
/// (code 0).
pub proof fn law_dispute_escrow_accepts_exactly(e: Escrow, arbitrator: Pubkey)
    ensures
        dispute_escrow_refusal(e, arbitrator) is None <==> arbitrator == e.arbitrator && e.status == 0,
{
}

/// Puts an active escrow in dispute, on the request of its arbitrator.
pub fn dispute_escrow(escrow: &mut Escrow, arbitrator: Pubkey) -> (r: Result<(), ErrorCode>)
    ensures
        match dispute_escrow_refusal(*old(escrow), arbitrator) {
            Some(err) => r == Err::<(), ErrorCode>(err) && *final(escrow) == *old(escrow),
            None => r == Ok::<(), ErrorCode>(())
                && *final(escrow) == (Escrow { status: disputed(), ..*old(escrow) }),
        },
        escrow_wf(*old(escrow)) ==> escrow_wf(*final(escrow)),
        escrow_keeps_terms(*old(escrow), *final(escrow)),
{
    if !arbitrator.same(&escrow.arbitrator) {
        return Err(ErrorCode::UnauthorizedArbitrator);
    }
    if escrow.status != EscrowStatus::Active.to_u8() {
        return Err(ErrorCode::InvalidEscrowState);
    }
    escrow.status = EscrowStatus::Disputed.to_u8();
    Ok(())
}

} // verus!
