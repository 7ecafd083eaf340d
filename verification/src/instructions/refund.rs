use vstd::prelude::*;
use crate::error::ErrorCode;
use crate::events::EscrowRefunded;
use crate::instructions::cancel::cancel_escrow_refusal;
use crate::instructions::release::release_refusal;
use crate::key::Pubkey;
use crate::state::escrow::{
    active, available, escrow_keeps_terms, escrow_wf, refunded, Escrow, EscrowStatus,
};
use crate::token::{Authority, Role, TokenCall};

verus! {

/// The error with which `refund_escrow` refuses, checked in this order, or `None`: only
/// the buyer may refund, only an active escrow, and only into an account of the buyer.
pub open spec fn refund_refusal(e: Escrow, signer: Pubkey, receiver_owner: Pubkey) -> Option<ErrorCode> {
    if signer != e.buyer {
        Some(ErrorCode::UnauthorizedOracle)
    } else if e.status != active() {
        Some(ErrorCode::AlreadyReleased)
    } else if receiver_owner != e.buyer {
        Some(ErrorCode::InvalidTokenAccount)
    } else {
        None
    }
}

/// A refund goes ahead exactly when the buyer signs, the escrow is active (code 0), and the
/// money goes to an account of the buyer.
pub proof fn law_refund_accepts_exactly(e: Escrow, signer: Pubkey, receiver_owner: Pubkey)
    ensures
        refund_refusal(e, signer, receiver_owner) is None <==> signer == e.buyer && e.status == 0
            && receiver_owner == e.buyer,
{
}

/// An escrow is refunded at most once: once a refund went ahead, every later refund,
/// release or cancellation of the escrow is refused, whoever asks.
pub proof fn law_escrow_refunded_at_most_once(
    e: Escrow,
    signer: Pubkey,
    receiver_owner: Pubkey,
    later_signer: Pubkey,
    later_owner: Pubkey,
    oracle_signer: Pubkey,
    milestone_index: u8,
)
    requires
        refund_refusal(e, signer, receiver_owner) is None,
    ensures
        refund_refusal(Escrow { status: refunded(), ..e }, later_signer, later_owner) is Some,
        release_refusal(Escrow { status: refunded(), ..e }, oracle_signer, later_owner, milestone_index) is Some,
        cancel_escrow_refusal(Escrow { status: refunded(), ..e }, later_signer, later_owner) is Some,
{
}

/// Gives the locked funds of an active escrow back to its buyer, on the buyer's request
/// (`signer`), into a token account owned by `receiver_owner`: the escrow's token account
/// sends what is deposited and not yet released, and the escrow is refunded, so that it
/// refuses any later refund or release.
pub fn refund_escrow(escrow: &mut Escrow, escrow_key: Pubkey, signer: Pubkey, receiver_owner: Pubkey) -> (r: Result<
    (Vec<TokenCall>, EscrowRefunded),
    ErrorCode,
>)
    ensures
        match refund_refusal(*old(escrow), signer, receiver_owner) {
            Some(err) => r == Err::<(Vec<TokenCall>, EscrowRefunded), ErrorCode>(err)
                && *final(escrow) == *old(escrow),
            None => {
                let amount = available(*old(escrow)) as u64;
                &&& r is Ok
                &&& r->Ok_0.0@ == seq![
                    TokenCall::Transfer {
                        from: Role::EscrowToken,
                        to: Role::BuyerToken,
                        authority: Authority::EscrowPda,
                        amount,
                    },
                ]
                &&& r->Ok_0.1 == (EscrowRefunded { escrow_key, amount })
                &&& *final(escrow) == (Escrow { status: refunded(), ..*old(escrow) })
            },
        },
        escrow_wf(*old(escrow)) ==> escrow_wf(*final(escrow)),
        escrow_keeps_terms(*old(escrow), *final(escrow)),
{
    if !signer.same(&escrow.buyer) {
        return Err(ErrorCode::UnauthorizedOracle);
    }
    if escrow.status != EscrowStatus::Active.to_u8() {
        return Err(ErrorCode::AlreadyReleased);
    }
    if !receiver_owner.same(&escrow.buyer) {
        return Err(ErrorCode::InvalidTokenAccount);
    }
    let amount: u64 = escrow.deposited_amount.checked_sub(escrow.released_amount).unwrap_or(0);
    let calls = vec![
        TokenCall::Transfer {
            from: Role::EscrowToken,
            to: Role::BuyerToken,
            authority: Authority::EscrowPda,
            amount,
        },
    ];
    escrow.status = EscrowStatus::Refunded.to_u8();
    Ok((calls, EscrowRefunded { escrow_key, amount }))
}

} // verus!
