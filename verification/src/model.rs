//! The vault's transitions as functions on its model.
//!
//! Each function gives the record after one operation, or the refusal. The
//! operations of the library are stated against them.

use vstd::prelude::*;
use crate::error::ErrorCode;
use crate::pubkey::Pubkey;
use crate::rent::rent_due;
use crate::state::{LockedNFT, VaultView, first_match, holds};

verus! {

/// A fresh vault: nothing in custody, nothing accrued, no reward unit bound.
pub open spec fn initialized(authority: Pubkey) -> VaultView {
    VaultView {
        authority,
        nft_count: 0,
        total_rent: 0,
        locked_nfts: Seq::empty(),
        rent_token_mint: None,
    }
}

/// Binding the reward unit: once only, and by the authority only.
pub open spec fn rent_token_bound(v: VaultView, caller: Pubkey, rent_token_mint: Pubkey) -> Result<
    VaultView,
    ErrorCode,
> {
    if v.rent_token_mint is Some {
        Err(ErrorCode::AlreadyInitialized)
    } else if caller != v.authority {
        Err(ErrorCode::Unauthorized)
    } else {
        Ok(VaultView { rent_token_mint: Some(rent_token_mint), ..v })
    }
}

/// Locking `mint` at time `now`: one more entry at the end of the registry
/// and one more asset counted.
pub open spec fn locked(v: VaultView, mint: Pubkey, now: i64) -> VaultView {
    VaultView {
        nft_count: v.nft_count + 1,
        locked_nfts: v.locked_nfts.push(LockedNFT { mint, lock_time: now }),
        ..v
    }
}

/// Unlocking `mint` at time `now`: the oldest entry for it leaves the
/// registry, its rent is accrued, and one asset fewer is counted.
pub open spec fn unlocked(v: VaultView, mint: Pubkey, now: i64) -> Result<VaultView, ErrorCode> {
    if !holds(v.locked_nfts, mint) {
        Err(ErrorCode::NFTNotFound)
    } else if v.nft_count == 0 {
        Err(ErrorCode::NoNFTsAvailable)
    } else {
        let i = first_match(v.locked_nfts, mint);
        Ok(
            VaultView {
                nft_count: (v.nft_count - 1) as nat,
                total_rent: v.total_rent + rent_due(now - v.locked_nfts[i].lock_time),
                locked_nfts: v.locked_nfts.remove(i),
                ..v
            },
        )
    }
}

/// Whether one more asset can be counted in 32 bits.
pub open spec fn lock_in_range(v: VaultView) -> bool {
    v.nft_count < u32::MAX
}

/// Whether the fee ledger after unlocking `mint` at time `now` can be
/// recorded in 64 bits. A refused unlock records nothing, and is in range.
pub open spec fn unlock_in_range(v: VaultView, mint: Pubkey, now: i64) -> bool {
    unlocked(v, mint, now) matches Ok(next) ==> next.total_rent <= u64::MAX
}

/// Claiming the accrued rent in the unit `rent_token_mint`: the fee ledger
/// goes to zero.
pub open spec fn claimed(v: VaultView, rent_token_mint: Pubkey) -> Result<VaultView, ErrorCode> {
    if v.total_rent == 0 {
        Err(ErrorCode::NoRentToClaim)
    } else if v.rent_token_mint != Some(rent_token_mint) {
        Err(ErrorCode::RentTokenMismatch)
    } else {
        Ok(VaultView { total_rent: 0, ..v })
    }
}

/// Buying an asset out of the vault: one asset fewer is counted. The registry
/// is not consulted.
pub open spec fn swapped(v: VaultView) -> Result<VaultView, ErrorCode> {
    if v.nft_count == 0 {
        Err(ErrorCode::NoNFTsAvailable)
    } else {
        Ok(VaultView { nft_count: (v.nft_count - 1) as nat, ..v })
    }
}

} // verus!
