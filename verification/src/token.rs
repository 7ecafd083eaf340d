use vstd::prelude::*;

verus! {

/// The token accounts and mints that an instruction names, by the part they play.
#[derive(Clone, Copy, Debug, PartialEq, Eq, Structural)]
pub enum Role {
    /// The buyer's account of the payment currency.
    BuyerToken,
    /// The escrow's account of the payment currency, owned by the escrow address.
    EscrowToken,
    /// The seller's account of the payment currency.
    SellerToken,
    /// The order's account of the payment currency, owned by the order address.
    OrderToken,
    /// The buyer's account of the order's vouchers.
    BuyerVoucherToken,
    /// The order's voucher mint.
    VoucherMint,
    /// The program's account that holds the vehicle token before settlement.
    ProgramNftToken,
    /// The buyer's account of the vehicle token.
    BuyerNftToken,
    /// The vehicle token's mint.
    NftMint,
    /// The account from which a vehicle token is burned.
    NftToken,
}

/// Who signs a token-program call.
#[derive(Clone, Copy, Debug, PartialEq, Eq, Structural)]
pub enum Authority {
    /// The buyer, as signer of the instruction.
    Buyer,
    /// The signer that the instruction calls its authority.
    Caller,
    /// The payer of the instruction.
    Payer,
    /// The escrow's program address, signing with its seeds.
    EscrowPda,
    /// The order's program address, signing with its seeds.
    OrderPda,
}

/// A call into the token program that an instruction asks for.
#[derive(Clone, Copy, Debug, PartialEq, Eq, Structural)]
pub enum TokenCall {
    /// Move `amount` tokens from one account to another.
    Transfer { from: Role, to: Role, authority: Authority, amount: u64 },
    /// Create `amount` new tokens of `mint` in `to`.
    MintTo { mint: Role, to: Role, authority: Authority, amount: u64 },
    /// Destroy `amount` tokens of `mint` held in `from`.
    Burn { mint: Role, from: Role, authority: Authority, amount: u64 },
    /// Create the account `mint` and initialize it as a mint of `decimals` decimals whose
    /// tokens only `mint_authority` can mint, with no freeze authority.
    InitializeMint { mint: Role, mint_authority: Authority, decimals: u8 },
}

} // verus!
