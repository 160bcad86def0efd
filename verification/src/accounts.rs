//! The identities that each operation is given.

use vstd::prelude::*;
use crate::pubkey::Pubkey;

verus! {

/// Who creates the vault.
#[derive(Clone, Copy, Debug)]
pub struct InitializeVault {
    /// The caller, who becomes the vault's authority.
    pub authority: Pubkey,
}

/// The accounts of minting a fresh asset.
#[derive(Clone, Copy, Debug)]
pub struct MintNFT {
    /// The fresh asset's identity.
    pub mint: Pubkey,
    /// The caller's sub-account for the asset.
    pub token_account: Pubkey,
    /// The caller, who pays and receives the asset.
    pub payer: Pubkey,
}

/// The accounts of locking an asset.
#[derive(Clone, Copy, Debug)]
pub struct LockNFT {
    /// The caller, who holds the asset.
    pub user: Pubkey,
    /// The asset's identity.
    pub nft_mint: Pubkey,
    /// The caller's sub-account for the asset.
    pub user_nft_account: Pubkey,
    /// The vault's sub-account for the asset.
    pub vault_nft_account: Pubkey,
}

/// The accounts of unlocking an asset.
#[derive(Clone, Copy, Debug)]
pub struct UnlockNFT {
    /// The caller, who receives the asset.
    pub user: Pubkey,
    /// The asset's identity.
    pub nft_mint: Pubkey,
    /// The caller's sub-account for the asset.
    pub user_nft_account: Pubkey,
    /// The vault's sub-account for the asset.
    pub vault_nft_account: Pubkey,
    /// The bump of the vault's own address, with which it signs.
    pub bump: u8,
}

/// The accounts of binding the reward unit.
#[derive(Clone, Copy, Debug)]
pub struct InitializeRentToken {
    /// The unit in which rent will be paid out.
    pub rent_token_mint: Pubkey,
    /// The caller.
    pub authority: Pubkey,
}

/// The accounts of claiming the accrued rent.
#[derive(Clone, Copy, Debug)]
pub struct ClaimRent {
    /// The caller, who receives the payout.
    pub user: Pubkey,
    /// The reward unit that the caller names.
    pub rent_token_mint: Pubkey,
    /// The caller's sub-account for the reward unit.
    pub user_rent_token_account: Pubkey,
    /// The bump of the vault's own address, with which it signs.
    pub bump: u8,
}

/// The accounts of buying an asset out of the vault.
#[derive(Clone, Copy, Debug)]
pub struct SwapSolForNFT {
    /// The vault's own address, which receives the payment.
    pub vault: Pubkey,
    /// The caller, who pays.
    pub user: Pubkey,
    /// The identity of the asset that the caller names.
    pub nft_mint: Pubkey,
    /// The caller's sub-account for the asset.
    pub user_nft_account: Pubkey,
    /// The vault's sub-account for the asset.
    pub vault_nft_account: Pubkey,
    /// The bump of the vault's own address, with which it signs.
    pub bump: u8,
}

} // verus!
