//! What an operation asks of the asset-transfer service.
//!
//! An operation changes the vault's record and hands back the transfers that
//! belong to it. The caller carries them out in the order given; if one of them
//! fails, the changed record is to be discarded with it.

use vstd::prelude::*;
use crate::pubkey::Pubkey;

verus! {

/// Who authorises a transfer.
#[derive(Clone, Copy, Debug, PartialEq, Eq)]
pub enum Authority {
    /// The named caller, by their own signature.
    User(Pubkey),
    /// The vault, signing for itself with the seeds of its own address.
    Vault { bump: u8 },
}

/// Moves `amount` units of an asset between two sub-accounts.
#[derive(Clone, Copy, Debug, PartialEq, Eq)]
pub struct Transfer {
    pub from: Pubkey,
    pub to: Pubkey,
    pub authority: Authority,
    pub amount: u64,
}

/// Issues `amount` new units of `mint` into a sub-account.
#[derive(Clone, Copy, Debug, PartialEq, Eq)]
pub struct MintTo {
    pub mint: Pubkey,
    pub to: Pubkey,
    pub authority: Authority,
    pub amount: u64,
}

/// One account that an instruction touches.
#[derive(Clone, Copy, Debug, PartialEq, Eq)]
pub struct AccountMeta {
    pub pubkey: Pubkey,
    /// Whether the account must sign.
    pub is_signer: bool,
    /// Whether the instruction may change the account.
    pub is_writable: bool,
}

/// An instruction for a program of the ledger, ready to be invoked.
#[derive(Clone, Debug, PartialEq, Eq)]
pub struct Instruction {
    /// The program that carries the instruction out.
    pub program_id: Pubkey,
    /// The accounts it touches, in the order the program expects.
    pub accounts: Vec<AccountMeta>,
    /// The program's own encoding of what to do.
    pub data: Vec<u8>,
}

/// The two transfers of a swap: first the payment, then the asset.
#[derive(Clone, Debug, PartialEq, Eq)]
pub struct Swap {
    /// The system program's instruction that pays the vault.
    pub payment: Instruction,
    pub release: Transfer,
}

/// The identity of the ledger's system program: 32 zero bytes.
pub open spec fn system_program_id() -> Seq<u8> {
    Seq::new(32, |i: int| 0u8)
}

/// Whether `ix` is the system program's instruction that moves `lamports`
/// from `from`, who signs, to `to`: both accounts writable, and as data the
/// number 2 in four bytes, then the amount in eight, lowest byte first.
pub open spec fn is_system_transfer(ix: Instruction, from: Pubkey, to: Pubkey, lamports: u64) -> bool {
    &&& ix.program_id.bytes@ == system_program_id()
    &&& ix.accounts@ == seq![
        AccountMeta { pubkey: from, is_signer: true, is_writable: true },
        AccountMeta { pubkey: to, is_signer: false, is_writable: true },
    ]
    &&& ix.data@ == seq![2u8, 0u8, 0u8, 0u8] + vstd::bytes::spec_u64_to_le_bytes(lamports)
}

/// Builds the payment instruction with the ledger's own
/// `system_instruction::transfer`. Not proved: that the instruction it makes
/// names the system program, lists the sender as a writable signer and the
/// receiver as writable, and encodes the transfer as `is_system_transfer`
/// says.
#[verifier::external_body]
pub(crate) fn system_transfer(from: &Pubkey, to: &Pubkey, lamports: u64) -> (ix: Instruction)
    ensures
        is_system_transfer(ix, *from, *to, lamports),
{
    let made = anchor_lang::solana_program::system_instruction::transfer(
        &anchor_lang::prelude::Pubkey::new_from_array(from.bytes),
        &anchor_lang::prelude::Pubkey::new_from_array(to.bytes),
        lamports,
    );
    Instruction {
        program_id: Pubkey { bytes: made.program_id.to_bytes() },
        accounts: made.accounts.iter().map(|meta| AccountMeta {
            pubkey: Pubkey { bytes: meta.pubkey.to_bytes() },
            is_signer: meta.is_signer,
            is_writable: meta.is_writable,
        }).collect(),
        data: made.data,
    }
}

/// The fixed seed of the vault's own address: the bytes of `vault`.
pub open spec fn vault_seed() -> Seq<u8> {
    seq![118u8, 97u8, 117u8, 108u8, 116u8]
}

/// Builds the seeds with which the vault signs for itself: the fixed seed,
/// then the bump alone.
pub fn vault_signer_seeds(bump: u8) -> (seeds: Vec<Vec<u8>>)
    ensures
        seeds@.len() == 2,
        seeds@[0]@ == vault_seed(),
        seeds@[1]@ == seq![bump],
{
    let mut fixed: Vec<u8> = Vec::new();
    fixed.push(118);
    fixed.push(97);
    fixed.push(117);
    fixed.push(108);
    fixed.push(116);
    let mut last: Vec<u8> = Vec::new();
    last.push(bump);
    let mut seeds: Vec<Vec<u8>> = Vec::new();
    seeds.push(fixed);
    seeds.push(last);
    assert(seeds@[0]@ =~= vault_seed());
    assert(seeds@[1]@ =~= seq![bump]);
    seeds
}

} // verus!
