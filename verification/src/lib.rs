//! Custody vault for unique ledger assets: the accounting and custody state
//! machine, with every transition stated over a mathematical model and proved.
//!
//! The vault's record is an explicit value, handed to every operation. An
//! operation changes the record and hands back the transfers that the caller
//! is to carry out on the ledger; the library itself moves nothing.

pub mod accounts;
pub mod error;
pub mod laws;
pub mod model;
pub mod orders;
pub mod program;
pub mod pubkey;
pub mod rent;
pub mod state;

pub use accounts::{
    ClaimRent, InitializeRentToken, InitializeVault, LockNFT, MintNFT, SwapSolForNFT, UnlockNFT,
};
pub use error::ErrorCode;
pub use orders::{
    vault_signer_seeds, AccountMeta, Authority, Instruction, MintTo, Swap, Transfer,
};
pub use program::{
    claim_rent, initialize_rent_token, initialize_vault, lock_fits, lock_nft, mint_nft,
    swap_sol_for_nft, unlock_fits, unlock_nft,
};
pub use pubkey::Pubkey;
pub use rent::{calculate_rent, rent_between, RENT_PER_DAY, SECONDS_PER_DAY};
pub use state::{position, LockedNFT, NFTData, Vault};
