//! The ways in which a vault operation is refused.

use vstd::prelude::*;

verus! {

/// Why the vault refused an operation. A refused operation changes nothing.
#[derive(Clone, Copy, Debug, PartialEq, Eq, Structural)]
pub enum ErrorCode {
    /// The asset to unlock has no entry in the registry.
    NFTNotFound,
    /// The vault holds no asset to give out.
    NoNFTsAvailable,
    /// The vault's balance does not cover a payout.
    InsufficientFunds,
    /// No rent has accrued since the last claim.
    NoRentToClaim,
    /// The caller is not the vault's authority.
    Unauthorized,
    /// The reward unit was bound before.
    AlreadyInitialized,
    /// The reward unit named by a claim is not the one bound to the vault.
    RentTokenMismatch,
}

impl ErrorCode {
    /// The text shown for each refusal.
    pub open spec fn message_text(self) -> Seq<char> {
        match self {
            ErrorCode::NFTNotFound => "NFT not found in the vault"@,
            ErrorCode::NoNFTsAvailable => "No NFTs available in the vault"@,
            ErrorCode::InsufficientFunds => "Insufficient funds in the vault"@,
            ErrorCode::NoRentToClaim => "No rent to claim"@,
            ErrorCode::Unauthorized => "Caller is not the vault authority"@,
            ErrorCode::AlreadyInitialized => "Rent token is already initialized"@,
            ErrorCode::RentTokenMismatch => "Rent token does not belong to the vault"@,
        }
    }

    /// A short description of the refusal, for people.
    pub fn message(&self) -> (text: &'static str)
        ensures
            text@ == self.message_text(),
    {
        match self {
            ErrorCode::NFTNotFound => "NFT not found in the vault",
            ErrorCode::NoNFTsAvailable => "No NFTs available in the vault",
            ErrorCode::InsufficientFunds => "Insufficient funds in the vault",
            ErrorCode::NoRentToClaim => "No rent to claim",
            ErrorCode::Unauthorized => "Caller is not the vault authority",
            ErrorCode::AlreadyInitialized => "Rent token is already initialized",
            ErrorCode::RentTokenMismatch => "Rent token does not belong to the vault",
        }
    }
}

} // verus!
