//! What holds of the vault over whole histories of operations.

use vstd::prelude::*;
use crate::error::ErrorCode;
use crate::model::{claimed, initialized, locked, rent_token_bound, swapped, unlocked};
use crate::pubkey::Pubkey;
use crate::rent::{RENT_PER_DAY, SECONDS_PER_DAY};
use crate::state::{
    LockedNFT,
    VaultView,
    count_of,
    first_match,
    is_first_match,
    lemma_count_push,
    lemma_count_remove,
    lemma_first_match_unique,
    lemma_holds_has_first,
    lemma_holds_iff_counted,
};

verus! {

/// One request made of a vault, with the time at which it is made where the
/// operation reads the clock.
pub enum Op {
    InitializeRentToken { caller: Pubkey, rent_token_mint: Pubkey },
    Lock { mint: Pubkey, now: i64 },
    Unlock { mint: Pubkey, now: i64 },
    Claim { rent_token_mint: Pubkey },
    Swap,
}

/// The vault after one request, or the refusal.
pub open spec fn step(v: VaultView, op: Op) -> Result<VaultView, ErrorCode> {
    match op {
        Op::InitializeRentToken { caller, rent_token_mint } => rent_token_bound(
            v,
            caller,
            rent_token_mint,
        ),
        Op::Lock { mint, now } => Ok(locked(v, mint, now)),
        Op::Unlock { mint, now } => unlocked(v, mint, now),
        Op::Claim { rent_token_mint } => claimed(v, rent_token_mint),
        Op::Swap => swapped(v),
    }
}

/// The vault after a history of requests, each refused request leaving it as
/// it was.
pub open spec fn after(v: VaultView, ops: Seq<Op>) -> VaultView
    decreases ops.len(),
{
    if ops.len() == 0 {
        v
    } else {
        let before = after(v, ops.drop_last());
        match step(before, ops.last()) {
            Ok(next) => next,
            Err(_) => before,
        }
    }
}

/// How many requests of one kind in a history were carried out.
pub open spec fn successes(v: VaultView, ops: Seq<Op>, kind: spec_fn(Op) -> bool) -> nat
    decreases ops.len(),
{
    if ops.len() == 0 {
        0
    } else {
        let earlier = successes(v, ops.drop_last(), kind);
        if kind(ops.last()) && step(after(v, ops.drop_last()), ops.last()) is Ok {
            earlier + 1
        } else {
            earlier
        }
    }
}

/// The kind of the lock requests.
pub open spec fn is_lock() -> spec_fn(Op) -> bool {
    |op: Op| op is Lock
}

/// The kind of the unlock requests.
pub open spec fn is_unlock() -> spec_fn(Op) -> bool {
    |op: Op| op is Unlock
}

/// The kind of the swap requests.
pub open spec fn is_swap() -> spec_fn(Op) -> bool {
    |op: Op| op is Swap
}

/// Conservation: after any history, the assets counted are those counted
/// before, plus the locks carried out, less the unlocks and the swaps carried
/// out.
pub proof fn lemma_count_conserved(v: VaultView, ops: Seq<Op>)
    ensures
        after(v, ops).nft_count + successes(v, ops, is_unlock()) + successes(v, ops, is_swap())
            == v.nft_count + successes(v, ops, is_lock()),
    decreases ops.len(),
{
    if ops.len() > 0 {
        lemma_count_conserved(v, ops.drop_last());
    }
}

/// Conservation from a fresh vault: the assets counted are the locks carried
/// out less the unlocks and the swaps carried out, and that is never negative.
pub proof fn lemma_count_conserved_from_start(authority: Pubkey, ops: Seq<Op>)
    ensures
        after(initialized(authority), ops).nft_count == successes(
            initialized(authority),
            ops,
            is_lock(),
        ) - successes(initialized(authority), ops, is_unlock()) - successes(
            initialized(authority),
            ops,
            is_swap(),
        ),
        successes(initialized(authority), ops, is_lock()) - successes(
            initialized(authority),
            ops,
            is_unlock(),
        ) - successes(initialized(authority), ops, is_swap()) >= 0,
{
    lemma_count_conserved(initialized(authority), ops);
}

/// The authority is set when the vault is created and no request changes it;
/// a reward unit, once bound, stays bound to the same unit.
pub proof fn lemma_identities_fixed(v: VaultView, ops: Seq<Op>)
    ensures
        after(v, ops).authority == v.authority,
        v.rent_token_mint is Some ==> after(v, ops).rent_token_mint == v.rent_token_mint,
    decreases ops.len(),
{
    if ops.len() > 0 {
        lemma_identities_fixed(v, ops.drop_last());
    }
}

/// The fee ledger grows at an unlock only and goes to zero at a claim only:
/// any other request carried out leaves it as it was.
pub proof fn lemma_fee_ledger_moves(v: VaultView, op: Op)
    requires
        step(v, op) is Ok,
    ensures
        op is Unlock ==> step(v, op)->Ok_0.total_rent >= v.total_rent,
        op is Claim ==> step(v, op)->Ok_0.total_rent == 0,
        !(op is Unlock) && !(op is Claim) ==> step(v, op)->Ok_0.total_rent == v.total_rent,
{
}

/// A lock adds exactly one entry for its asset and none for any other.
pub proof fn lemma_lock_registers_once(v: VaultView, mint: Pubkey, now: i64, other: Pubkey)
    ensures
        count_of(locked(v, mint, now).locked_nfts, mint) == count_of(v.locked_nfts, mint) + 1,
        other != mint ==> count_of(locked(v, mint, now).locked_nfts, other) == count_of(
            v.locked_nfts,
            other,
        ),
{
    let entry = LockedNFT { mint, lock_time: now };
    lemma_count_push(v.locked_nfts, entry, mint);
    lemma_count_push(v.locked_nfts, entry, other);
}

/// An unlock that is carried out removes exactly one entry for its asset and
/// none for any other.
pub proof fn lemma_unlock_removes_once(v: VaultView, mint: Pubkey, now: i64, other: Pubkey)
    requires
        unlocked(v, mint, now) is Ok,
    ensures
        count_of(unlocked(v, mint, now)->Ok_0.locked_nfts, mint) + 1 == count_of(
            v.locked_nfts,
            mint,
        ),
        other != mint ==> count_of(unlocked(v, mint, now)->Ok_0.locked_nfts, other) == count_of(
            v.locked_nfts,
            other,
        ),
{
    lemma_holds_has_first(v.locked_nfts, mint);
    let i = first_match(v.locked_nfts, mint);
    lemma_count_remove(v.locked_nfts, i, mint);
    lemma_count_remove(v.locked_nfts, i, other);
}

/// An asset with no entry in the registry cannot be unlocked: the request is
/// refused with `NFTNotFound`, whatever else the vault holds.
pub proof fn lemma_unlock_unknown_refused(v: VaultView, mint: Pubkey, now: i64)
    requires
        count_of(v.locked_nfts, mint) == 0,
    ensures
        unlocked(v, mint, now) == Err::<VaultView, ErrorCode>(ErrorCode::NFTNotFound),
{
    lemma_holds_iff_counted(v.locked_nfts, mint);
}

/// The rent accrued at an unlock is exact: where the oldest entry for the
/// asset was locked at `lock_time`, the unlock is at `now`, not earlier, and
/// an asset is counted, the fee ledger grows by the whole fee units per day
/// of custody, prorated by the second and rounded down.
pub proof fn lemma_unlock_fee_exact(v: VaultView, mint: Pubkey, i: int, now: i64)
    requires
        is_first_match(v.locked_nfts, mint, i),
        v.nft_count > 0,
        now >= v.locked_nfts[i].lock_time,
    ensures
        unlocked(v, mint, now) is Ok,
        unlocked(v, mint, now)->Ok_0.total_rent == v.total_rent + (now
            - v.locked_nfts[i].lock_time) * RENT_PER_DAY / (SECONDS_PER_DAY as int),
{
    lemma_first_match_unique(v.locked_nfts, mint, i);
}

/// Lock, then the matching unlock: where the registry has no entry for the
/// asset, a lock at `locked_at` leaves exactly one; the unlock at
/// `unlocked_at`, not earlier, is carried out, leaves none, gives back the
/// registry and the count as they were, and accrues the exact rent for the
/// time between.
pub proof fn lemma_lock_then_unlock(v: VaultView, mint: Pubkey, locked_at: i64, unlocked_at: i64)
    requires
        count_of(v.locked_nfts, mint) == 0,
        locked_at <= unlocked_at,
    ensures
        count_of(locked(v, mint, locked_at).locked_nfts, mint) == 1,
        unlocked(locked(v, mint, locked_at), mint, unlocked_at) is Ok,
        ({
            let end = unlocked(locked(v, mint, locked_at), mint, unlocked_at)->Ok_0;
            &&& count_of(end.locked_nfts, mint) == 0
            &&& end.locked_nfts == v.locked_nfts
            &&& end.nft_count == v.nft_count
            &&& end.total_rent == v.total_rent + (unlocked_at - locked_at) * RENT_PER_DAY / (
            SECONDS_PER_DAY as int)
            &&& end.authority == v.authority
            &&& end.rent_token_mint == v.rent_token_mint
        }),
{
    let mid = locked(v, mint, locked_at);
    let last = v.locked_nfts.len() as int;
    lemma_lock_registers_once(v, mint, locked_at, mint);
    lemma_holds_iff_counted(v.locked_nfts, mint);
    assert forall|j: int| 0 <= j < last implies (#[trigger] mid.locked_nfts[j]).mint != mint by {
        assert(v.locked_nfts[j].mint != mint);
    }
    assert(is_first_match(mid.locked_nfts, mint, last));
    lemma_first_match_unique(mid.locked_nfts, mint, last);
    assert(mid.locked_nfts.remove(last) =~= v.locked_nfts);
}

/// A claim that is carried out leaves nothing accrued, and a second claim
/// straight after it is refused with `NoRentToClaim`, whichever unit it names.
pub proof fn lemma_claim_once(v: VaultView, first: Pubkey, second: Pubkey)
    requires
        claimed(v, first) is Ok,
    ensures
        claimed(v, first)->Ok_0.total_rent == 0,
        claimed(claimed(v, first)->Ok_0, second) == Err::<VaultView, ErrorCode>(
            ErrorCode::NoRentToClaim,
        ),
{
}

/// A swap against a vault that counts no asset is refused with
/// `NoNFTsAvailable`, and the vault is as it was.
pub proof fn lemma_swap_guard(v: VaultView)
    requires
        v.nft_count == 0,
    ensures
        swapped(v) == Err::<VaultView, ErrorCode>(ErrorCode::NoNFTsAvailable),
        after(v, seq![Op::Swap]) == v,
{
    let ops = seq![Op::Swap];
    assert(ops.drop_last().len() == 0);
    assert(after(v, ops.drop_last()) == v);
}

} // verus!
