use vstd::prelude::*;
use crate::error::ErrorCode;
use crate::events::EscrowFunded;
use crate::instructions::initialize::MIN_DOWN;
use crate::key::Pubkey;
use crate::state::escrow::{escrow_keeps_terms, escrow_wf, Escrow};
use crate::token::{Authority, Role, TokenCall};

verus! {

/// The error with which `fund_escrow` refuses, checked in this order, or `None`: the
/// deposit must be in the escrow's currency, at least the minimum down payment, and must
/// not overflow the deposited total.
pub open spec fn fund_escrow_refusal(e: Escrow, mint: Pubkey, amount: u64) -> Option<ErrorCode> {
    if mint != e.token_mint {
        Some(ErrorCode::InvalidToken)
    } else if amount < MIN_DOWN {
        Some(ErrorCode::InsufficientAmount)
    } else if e.deposited_amount + amount > u64::MAX {
        Some(ErrorCode::NumericalOverflow)
    } else {
        None
    }
}

/// A deposit goes ahead exactly when it is in the escrow's currency, at least 100 units of
/// a six-decimal currency (100_000_000), and the new deposited total fits in 64 bits,
/// whatever the escrow's total amount.
pub proof fn law_fund_escrow_accepts_exactly(e: Escrow, mint: Pubkey, amount: u64)
    ensures
        fund_escrow_refusal(e, mint, amount) is None <==> mint == e.token_mint && amount >= 100_000_000
            && e.deposited_amount + amount <= 0xffff_ffff_ffff_ffff,
        mint == e.token_mint && amount < 100_000_000 ==> fund_escrow_refusal(e, mint, amount)
            == Some(ErrorCode::InsufficientAmount),
{
}

/// Deposits `amount` of the currency of `mint` into an escrow: the buyer's tokens move to
/// the escrow's account and the deposited amount grows by `amount`.
pub fn fund_escrow(escrow: &mut Escrow, escrow_key: Pubkey, mint: Pubkey, amount: u64) -> (r: Result<
    (Vec<TokenCall>, EscrowFunded),
    ErrorCode,
>)
    ensures
        match fund_escrow_refusal(*old(escrow), mint, amount) {
            Some(err) => r == Err::<(Vec<TokenCall>, EscrowFunded), ErrorCode>(err)
                && *final(escrow) == *old(escrow),
            None => {
                &&& r is Ok
                &&& r->Ok_0.0@ == seq![
                    TokenCall::Transfer {
                        from: Role::BuyerToken,
                        to: Role::EscrowToken,
                        authority: Authority::Buyer,
                        amount,
                    },
                ]
                &&& r->Ok_0.1 == (EscrowFunded { escrow_key, amount })
                &&& *final(escrow) == (Escrow {
                    deposited_amount: (old(escrow).deposited_amount + amount) as u64,
                    ..*old(escrow)
                })
            },
        },
        escrow_wf(*old(escrow)) ==> escrow_wf(*final(escrow)),
        escrow_keeps_terms(*old(escrow), *final(escrow)),
{
    if !mint.same(&escrow.token_mint) {
        return Err(ErrorCode::InvalidToken);
    }
    if amount < MIN_DOWN {
        return Err(ErrorCode::InsufficientAmount);
    }
    let deposited = match escrow.deposited_amount.checked_add(amount) {
        Some(d) => d,
        None => { return Err(ErrorCode::NumericalOverflow); },
    };
    let calls = vec![
        TokenCall::Transfer {
            from: Role::BuyerToken,
            to: Role::EscrowToken,
            authority: Authority::Buyer,
            amount,
        },
    ];
    escrow.deposited_amount = deposited;
    Ok((calls, EscrowFunded { escrow_key, amount }))
}

} // verus!
