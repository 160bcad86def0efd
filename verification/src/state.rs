//! The vault's record, the registry of locked assets, and their model.

use vstd::prelude::*;
use crate::pubkey::Pubkey;

verus! {

/// One asset in custody: which asset, and when it was locked.
#[derive(Clone, Copy, Debug, Default, PartialEq, Eq)]
pub struct LockedNFT {
    pub mint: Pubkey,
    pub lock_time: i64,
}

/// The single shared record of a pool.
#[derive(Clone, Debug, PartialEq, Eq)]
pub struct Vault {
    /// The pool's administrator, set when the vault is created.
    pub authority: Pubkey,
    /// How many assets the pool holds.
    pub nft_count: u32,
    /// Rent accrued and not yet claimed.
    pub total_rent: u64,
    /// The assets in custody, oldest first.
    pub locked_nfts: Vec<LockedNFT>,
    /// The unit in which claimed rent is paid out, once it is bound.
    pub rent_token_mint: Option<Pubkey>,
}

/// The record written for each minted asset. Nothing updates it afterwards.
#[derive(Clone, Debug, PartialEq, Eq)]
pub struct NFTData {
    pub name: String,
    pub symbol: String,
    pub uri: String,
    pub mint: Pubkey,
    pub owner: Pubkey,
}

/// A vault as a mathematical value: counters without machine bounds and the
/// registry as a sequence.
pub struct VaultView {
    pub authority: Pubkey,
    pub nft_count: nat,
    pub total_rent: nat,
    pub locked_nfts: Seq<LockedNFT>,
    pub rent_token_mint: Option<Pubkey>,
}

impl View for Vault {
    type V = VaultView;

    open spec fn view(&self) -> VaultView {
        VaultView {
            authority: self.authority,
            nft_count: self.nft_count as nat,
            total_rent: self.total_rent as nat,
            locked_nfts: self.locked_nfts@,
            rent_token_mint: self.rent_token_mint,
        }
    }
}

/// The test "this entry is for `mint`".
pub open spec fn names(mint: Pubkey) -> spec_fn(LockedNFT) -> bool {
    |entry: LockedNFT| entry.mint == mint
}

/// How many entries of the registry are for `mint`.
pub open spec fn count_of(registry: Seq<LockedNFT>, mint: Pubkey) -> nat {
    registry.filter(names(mint)).len()
}

/// Whether the registry has an entry for `mint`.
pub open spec fn holds(registry: Seq<LockedNFT>, mint: Pubkey) -> bool {
    exists|i: int| 0 <= i < registry.len() && (#[trigger] registry[i]).mint == mint
}

/// Whether `i` is the place of the oldest entry for `mint`.
pub open spec fn is_first_match(registry: Seq<LockedNFT>, mint: Pubkey, i: int) -> bool {
    &&& 0 <= i < registry.len()
    &&& registry[i].mint == mint
    &&& forall|j: int| 0 <= j < i ==> (#[trigger] registry[j]).mint != mint
}

/// The place of the oldest entry for `mint`, where the registry holds one.
pub open spec fn first_match(registry: Seq<LockedNFT>, mint: Pubkey) -> int {
    choose|i: int| is_first_match(registry, mint, i)
}

/// The oldest entry for `mint` is at one place only.
pub proof fn lemma_first_match_unique(registry: Seq<LockedNFT>, mint: Pubkey, i: int)
    requires
        is_first_match(registry, mint, i),
    ensures
        holds(registry, mint),
        first_match(registry, mint) == i,
{
    let k = first_match(registry, mint);
    assert(is_first_match(registry, mint, k));
    if k < i {
        assert(registry[k].mint != mint);
    }
    if i < k {
        assert(registry[i].mint != mint);
    }
}

/// A registry that holds `mint` has an oldest entry for it.
pub proof fn lemma_holds_has_first(registry: Seq<LockedNFT>, mint: Pubkey)
    requires
        holds(registry, mint),
    ensures
        is_first_match(registry, mint, first_match(registry, mint)),
{
    let w = choose|i: int| 0 <= i < registry.len() && (#[trigger] registry[i]).mint == mint;
    lemma_least_match(registry, mint, w);
}

proof fn lemma_least_match(registry: Seq<LockedNFT>, mint: Pubkey, w: int)
    requires
        0 <= w < registry.len(),
        registry[w].mint == mint,
    ensures
        exists|i: int| is_first_match(registry, mint, i),
    decreases w,
{
    if exists|j: int| 0 <= j < w && (#[trigger] registry[j]).mint == mint {
        let j = choose|j: int| 0 <= j < w && (#[trigger] registry[j]).mint == mint;
        lemma_least_match(registry, mint, j);
    } else {
        assert(is_first_match(registry, mint, w));
    }
}

/// An appended entry counts once for its own asset and not for any other.
pub proof fn lemma_count_push(registry: Seq<LockedNFT>, entry: LockedNFT, mint: Pubkey)
    ensures
        count_of(registry.push(entry), mint) == count_of(registry, mint) + (if entry.mint
            == mint {
            1nat
        } else {
            0nat
        }),
{
    registry.lemma_filter_len_push(names(mint), entry);
}

/// A removed entry is missed once by its own asset and not by any other.
pub proof fn lemma_count_remove(registry: Seq<LockedNFT>, i: int, mint: Pubkey)
    requires
        0 <= i < registry.len(),
    ensures
        count_of(registry, mint) == count_of(registry.remove(i), mint) + (if registry[i].mint
            == mint {
            1nat
        } else {
            0nat
        }),
{
    let head = registry.take(i);
    let tail = registry.skip(i + 1);
    let p = names(mint);
    assert(registry =~= head.push(registry[i]) + tail);
    assert(registry.remove(i) =~= head + tail);
    Seq::filter_distributes_over_add(head.push(registry[i]), tail, p);
    Seq::filter_distributes_over_add(head, tail, p);
    head.lemma_filter_len_push(p, registry[i]);
}

/// A registry holds an asset exactly when it counts an entry for it.
pub proof fn lemma_holds_iff_counted(registry: Seq<LockedNFT>, mint: Pubkey)
    ensures
        holds(registry, mint) <==> count_of(registry, mint) > 0,
    decreases registry.len(),
{
    if registry.len() == 0 {
        reveal(Seq::filter);
    } else {
        let front = registry.drop_last();
        lemma_holds_iff_counted(front, mint);
        assert(registry =~= front.push(registry.last()));
        lemma_count_push(front, registry.last(), mint);
        if holds(registry, mint) {
            let w = choose|i: int| 0 <= i < registry.len() && (#[trigger] registry[i]).mint == mint;
            if w < front.len() {
                assert(front[w].mint == mint);
            }
        }
        if holds(front, mint) {
            let w = choose|i: int| 0 <= i < front.len() && (#[trigger] front[i]).mint == mint;
            assert(registry[w].mint == mint);
        }
        if registry.last().mint == mint {
            assert(registry[registry.len() - 1].mint == mint);
        }
    }
}

/// Finds the oldest entry for `mint` in the registry.
pub fn position(registry: &Vec<LockedNFT>, mint: &Pubkey) -> (found: Option<usize>)
    ensures
        match found {
            Some(i) => is_first_match(registry@, *mint, i as int),
            None => !holds(registry@, *mint),
        },
{
    let mut i: usize = 0;
    while i < registry.len()
        invariant
            i <= registry.len(),
            forall|j: int| 0 <= j < i ==> (#[trigger] registry@[j]).mint != *mint,
        decreases registry.len() - i,
    {
        if registry[i].mint == *mint {
            return Some(i);
        }
        i += 1;
    }
    None
}

} // verus!
