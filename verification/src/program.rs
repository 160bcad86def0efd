//! The vault's operations.
//!
//! Each operation takes the vault's record and the identities it concerns,
//! changes the record, and hands back the transfers that the caller is to
//! carry out. A refused operation leaves the record as it was.

use vstd::prelude::*;
use crate::accounts::{
    ClaimRent,
    InitializeRentToken,
    InitializeVault,
    LockNFT,
    MintNFT,
    SwapSolForNFT,
    UnlockNFT,
};
use crate::error::ErrorCode;
use crate::model::{
    claimed,
    initialized,
    lock_in_range,
    locked,
    rent_token_bound,
    swapped,
    unlock_in_range,
    unlocked,
};
use crate::orders::{Authority, MintTo, Swap, Transfer, is_system_transfer, system_transfer};
use crate::pubkey::Pubkey;
use crate::rent::{calculate_rent, lemma_rent_bounds_duration, rent_between};
use crate::state::{
    LockedNFT,
    NFTData,
    Vault,
    VaultView,
    lemma_first_match_unique,
    position,
};

verus! {

/// Creates the vault of `ctx.authority`: nothing in custody, nothing accrued,
/// no reward unit bound.
pub fn initialize_vault(ctx: &InitializeVault) -> (vault: Vault)
    ensures
        vault@ == initialized(ctx.authority),
{
    let vault = Vault {
        authority: ctx.authority,
        nft_count: 0,
        total_rent: 0,
        locked_nfts: Vec::new(),
        rent_token_mint: None,
    };
    assert(vault@.locked_nfts =~= Seq::empty());
    vault
}

/// Mints one unit of the fresh asset `ctx.mint` to the caller: gives the
/// asset's record, owned by the caller, and the order that issues the unit
/// into the caller's sub-account under the caller's own signature.
pub fn mint_nft(ctx: &MintNFT, name: String, symbol: String, uri: String) -> (minted: (
    NFTData,
    MintTo,
))
    ensures
        minted.0 == (NFTData { name, symbol, uri, mint: ctx.mint, owner: ctx.payer }),
        minted.1 == (MintTo {
            mint: ctx.mint,
            to: ctx.token_account,
            authority: Authority::User(ctx.payer),
            amount: 1,
        }),
{
    let order = MintTo {
        mint: ctx.mint,
        to: ctx.token_account,
        authority: Authority::User(ctx.payer),
        amount: 1,
    };
    let nft_data = NFTData { name, symbol, uri, mint: ctx.mint, owner: ctx.payer };
    (nft_data, order)
}

/// Tells whether the vault can count one more asset, which `lock_nft` asks.
pub fn lock_fits(vault: &Vault) -> (fits: bool)
    ensures
        fits == lock_in_range(vault@),
{
    vault.nft_count < u32::MAX
}

/// Locks the asset `ctx.nft_mint` at time `now`: appends its entry, counts
/// it, and orders one unit moved from the caller's sub-account to the
/// vault's under the caller's own signature.
///
/// The count is kept in 32 bits: the vault must be able to count one more.
pub fn lock_nft(vault: &mut Vault, ctx: &LockNFT, now: i64) -> (order: Transfer)
    requires
        lock_in_range(old(vault)@),
    ensures
        final(vault)@ == locked(old(vault)@, ctx.nft_mint, now),
        order == (Transfer {
            from: ctx.user_nft_account,
            to: ctx.vault_nft_account,
            authority: Authority::User(ctx.user),
            amount: 1,
        }),
{
    vault.nft_count = vault.nft_count + 1;
    vault.locked_nfts.push(LockedNFT { mint: ctx.nft_mint, lock_time: now });
    Transfer {
        from: ctx.user_nft_account,
        to: ctx.vault_nft_account,
        authority: Authority::User(ctx.user),
        amount: 1,
    }
}

/// Tells whether the fee ledger can record the rent that unlocking `mint` at
/// time `now` would accrue, which `unlock_nft` asks.
pub fn unlock_fits(vault: &Vault, mint: &Pubkey, now: i64) -> (fits: bool)
    ensures
        fits == unlock_in_range(vault@, *mint, now),
{
    match position(&vault.locked_nfts, mint) {
        Some(i) => {
            proof {
                lemma_first_match_unique(vault.locked_nfts@, *mint, i as int);
            }
            if vault.nft_count == 0 {
                true
            } else {
                let rent = rent_between(vault.locked_nfts[i].lock_time, now);
                rent <= (u64::MAX - vault.total_rent) as u128
            }
        },
        None => true,
    }
}

/// Unlocks the asset `ctx.nft_mint` at time `now`.
///
/// Refused with `NFTNotFound` where the registry has no entry for the asset,
/// and with `NoNFTsAvailable` where it has one but no asset is counted.
/// Otherwise the oldest entry for the asset leaves the registry, the rent for
/// its time in custody is accrued, one asset fewer is counted, and one unit is
/// ordered from the vault's sub-account to the caller's under the vault's own
/// signature.
///
/// The fee ledger is kept in 64 bits: the rent accrued must fit it.
pub fn unlock_nft(vault: &mut Vault, ctx: &UnlockNFT, now: i64) -> (result: Result<
    Transfer,
    ErrorCode,
>)
    requires
        unlock_in_range(old(vault)@, ctx.nft_mint, now),
    ensures
        result matches Ok(order) ==> {
            &&& unlocked(old(vault)@, ctx.nft_mint, now) == Ok::<VaultView, ErrorCode>(
                final(vault)@,
            )
            &&& order == (Transfer {
                from: ctx.vault_nft_account,
                to: ctx.user_nft_account,
                authority: Authority::Vault { bump: ctx.bump },
                amount: 1,
            })
        },
        result matches Err(e) ==> {
            &&& unlocked(old(vault)@, ctx.nft_mint, now) == Err::<VaultView, ErrorCode>(e)
            &&& *final(vault) == *old(vault)
        },
{
    let nft_position = match position(&vault.locked_nfts, &ctx.nft_mint) {
        Some(i) => i,
        None => {
            return Err(ErrorCode::NFTNotFound);
        },
    };
    proof {
        lemma_first_match_unique(vault.locked_nfts@, ctx.nft_mint, nft_position as int);
    }
    if vault.nft_count == 0 {
        return Err(ErrorCode::NoNFTsAvailable);
    }
    let lock_time = vault.locked_nfts[nft_position].lock_time;
    let rent = if now <= lock_time {
        0
    } else {
        proof {
            lemma_rent_bounds_duration(now - lock_time);
        }
        calculate_rent(now - lock_time)
    };
    vault.locked_nfts.remove(nft_position);
    vault.nft_count = vault.nft_count - 1;
    vault.total_rent = vault.total_rent + rent;
    Ok(
        Transfer {
            from: ctx.vault_nft_account,
            to: ctx.user_nft_account,
            authority: Authority::Vault { bump: ctx.bump },
            amount: 1,
        },
    )
}

/// Binds the unit in which rent is paid out.
///
/// Refused with `AlreadyInitialized` where a unit is bound already, and
/// otherwise with `Unauthorized` where the caller is not the vault's
/// authority.
pub fn initialize_rent_token(vault: &mut Vault, ctx: &InitializeRentToken) -> (result: Result<
    (),
    ErrorCode,
>)
    ensures
        result is Ok ==> rent_token_bound(old(vault)@, ctx.authority, ctx.rent_token_mint) == Ok::<
            VaultView,
            ErrorCode,
        >(final(vault)@),
        result matches Err(e) ==> {
            &&& rent_token_bound(old(vault)@, ctx.authority, ctx.rent_token_mint) == Err::<
                VaultView,
                ErrorCode,
            >(e)
            &&& *final(vault) == *old(vault)
        },
{
    if vault.rent_token_mint.is_some() {
        return Err(ErrorCode::AlreadyInitialized);
    }
    if ctx.authority != vault.authority {
        return Err(ErrorCode::Unauthorized);
    }
    vault.rent_token_mint = Some(ctx.rent_token_mint);
    Ok(())
}

/// Claims all accrued rent for the caller.
///
/// Refused with `NoRentToClaim` where nothing has accrued, and otherwise with
/// `RentTokenMismatch` where the unit that the caller names is not the one
/// bound to the vault. Otherwise the fee ledger goes to zero and the amount it
/// held is ordered to be issued, in the bound unit, into the caller's
/// sub-account under the vault's own signature.
pub fn claim_rent(vault: &mut Vault, ctx: &ClaimRent) -> (result: Result<MintTo, ErrorCode>)
    ensures
        result matches Ok(order) ==> {
            &&& claimed(old(vault)@, ctx.rent_token_mint) == Ok::<VaultView, ErrorCode>(
                final(vault)@,
            )
            &&& order == (MintTo {
                mint: ctx.rent_token_mint,
                to: ctx.user_rent_token_account,
                authority: Authority::Vault { bump: ctx.bump },
                amount: old(vault).total_rent,
            })
        },
        result matches Err(e) ==> {
            &&& claimed(old(vault)@, ctx.rent_token_mint) == Err::<VaultView, ErrorCode>(e)
            &&& *final(vault) == *old(vault)
        },
{
    let rent_to_claim = vault.total_rent;
    if rent_to_claim == 0 {
        return Err(ErrorCode::NoRentToClaim);
    }
    let bound = match vault.rent_token_mint {
        Some(mint) => mint == ctx.rent_token_mint,
        None => false,
    };
    if !bound {
        return Err(ErrorCode::RentTokenMismatch);
    }
    vault.total_rent = 0;
    Ok(
        MintTo {
            mint: ctx.rent_token_mint,
            to: ctx.user_rent_token_account,
            authority: Authority::Vault { bump: ctx.bump },
            amount: rent_to_claim,
        },
    )
}

/// Sells one asset out of the vault for `amount` of the ledger's currency.
///
/// Refused with `NoNFTsAvailable` where no asset is counted. Otherwise one
/// asset fewer is counted, and two transfers are ordered: first the system
/// program's instruction that moves `amount` from the caller to the vault,
/// then one unit of the asset that the caller names from the vault's
/// sub-account to the caller's under the vault's own signature. The price is the caller's to name, and the registry is left as
/// it is.
pub fn swap_sol_for_nft(vault: &mut Vault, ctx: &SwapSolForNFT, amount: u64) -> (result: Result<
    Swap,
    ErrorCode,
>)
    ensures
        result matches Ok(orders) ==> {
            &&& swapped(old(vault)@) == Ok::<VaultView, ErrorCode>(final(vault)@)
            &&& is_system_transfer(orders.payment, ctx.user, ctx.vault, amount)
            &&& orders.release == (Transfer {
                from: ctx.vault_nft_account,
                to: ctx.user_nft_account,
                authority: Authority::Vault { bump: ctx.bump },
                amount: 1,
            })
        },
        result matches Err(e) ==> {
            &&& swapped(old(vault)@) == Err::<VaultView, ErrorCode>(e)
            &&& *final(vault) == *old(vault)
        },
{
    if vault.nft_count == 0 {
        return Err(ErrorCode::NoNFTsAvailable);
    }
    let payment = system_transfer(&ctx.user, &ctx.vault, amount);
    let release = Transfer {
        from: ctx.vault_nft_account,
        to: ctx.user_nft_account,
        authority: Authority::Vault { bump: ctx.bump },
        amount: 1,
    };
    vault.nft_count = vault.nft_count - 1;
    Ok(Swap { payment, release })
}

} // verus!
