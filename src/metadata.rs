//! Instructions of the token-metadata program: update the metadata of a token,
//! freeze or thaw a delegated token account. The builders here say exactly
//! which accounts an instruction names and how; the caller invokes it.
use vstd::prelude::*;

use mpl_token_metadata::instructions::{
    FreezeDelegatedAccount as MplFreeze, ThawDelegatedAccount as MplThaw,
    UpdateMetadataAccountV2 as MplUpdate, UpdateMetadataAccountV2InstructionArgs,
};
use mpl_token_metadata::types::DataV2;

use crate::address::Address;

verus! {

/// The metadata fields written by an update: name, symbol, uri, royalties,
/// creators, collection and uses, as the metadata program defines them.
#[verifier::external_type_specification]
#[verifier::external_body]
pub struct ExDataV2(DataV2);

/// One account named by an instruction.
#[derive(Clone, Copy, Debug, PartialEq, Eq)]
pub struct AccountMeta {
    pub pubkey: Address,
    pub is_signer: bool,
    pub is_writable: bool,
}

/// An instruction for a ledger program: the program, the accounts it touches
/// in order, and its encoded arguments.
#[derive(Clone, Debug)]
pub struct Instruction {
    pub program_id: Address,
    pub accounts: Vec<AccountMeta>,
    pub data: Vec<u8>,
}

/// The account entry for `key`, signing or not, writable or not.
pub open spec fn meta(key: Address, is_signer: bool, is_writable: bool) -> AccountMeta {
    AccountMeta { pubkey: key, is_signer, is_writable }
}

/// The bytes of the token-metadata program's address.
pub open spec fn metadata_program_bytes() -> Seq<u8> {
    seq![
        11u8, 112, 101, 177, 227, 209, 124, 69, 56, 157, 82, 127, 107, 4, 195, 205,
        88, 184, 108, 115, 26, 160, 253, 181, 73, 182, 209, 188, 3, 248, 41, 70,
    ]
}

/// The bytes of the token program's address.
pub open spec fn token_program_bytes() -> Seq<u8> {
    seq![
        6u8, 221, 246, 225, 215, 101, 161, 147, 217, 203, 225, 70, 206, 235, 121, 172,
        28, 180, 133, 237, 95, 91, 55, 145, 58, 140, 245, 133, 126, 255, 0, 169,
    ]
}

/// The token program, which holds the accounts that the metadata program freezes and thaws.
pub fn token_program_id() -> (r: Address)
    ensures
        r@ == token_program_bytes(),
{
    let r = Address {
        bytes: [
            6u8, 221, 246, 225, 215, 101, 161, 147, 217, 203, 225, 70, 206, 235, 121, 172,
            28, 180, 133, 237, 95, 91, 55, 145, 58, 140, 245, 133, 126, 255, 0, 169,
        ],
    };
    assert(r@ =~= token_program_bytes());
    r
}

/// The accounts of a delegated freeze or thaw, in the order that the program reads them.
pub open spec fn delegated_metas(
    delegate: Address,
    token_account: Address,
    edition: Address,
    mint: Address,
    token_program: Address,
) -> Seq<AccountMeta> {
    seq![
        meta(delegate, true, true),
        meta(token_account, false, true),
        meta(edition, false, false),
        meta(mint, false, false),
        meta(token_program, false, false),
    ]
}

/// Relies on mpl_token_metadata::instructions::FreezeDelegatedAccount::instruction:
/// the metadata program, the five accounts in this order and flags, and the
/// one-byte discriminator 26.
#[verifier::external_body]
fn freeze_instruction(d: &Address, t: &Address, e: &Address, m: &Address, p: &Address) -> (r: Instruction)
    ensures
        r.program_id@ == metadata_program_bytes(),
        r.accounts@ == delegated_metas(*d, *t, *e, *m, *p),
        r.data@ == seq![26u8],
{
    let ix = MplFreeze {
        delegate: d.bytes.into(), token_account: t.bytes.into(), edition: e.bytes.into(),
        mint: m.bytes.into(), token_program: p.bytes.into(),
    }.instruction();
    let accounts = ix.accounts.iter().map(|a| AccountMeta {
        pubkey: Address { bytes: a.pubkey.to_bytes() }, is_signer: a.is_signer, is_writable: a.is_writable,
    }).collect();
    Instruction { program_id: Address { bytes: ix.program_id.to_bytes() }, accounts, data: ix.data }
}

/// Relies on mpl_token_metadata::instructions::ThawDelegatedAccount::instruction:
/// the metadata program, the five accounts in this order and flags, and the
/// one-byte discriminator 27.
#[verifier::external_body]
fn thaw_instruction(d: &Address, t: &Address, e: &Address, m: &Address, p: &Address) -> (r: Instruction)
    ensures
        r.program_id@ == metadata_program_bytes(),
        r.accounts@ == delegated_metas(*d, *t, *e, *m, *p),
        r.data@ == seq![27u8],
{
    let ix = MplThaw {
        delegate: d.bytes.into(), token_account: t.bytes.into(), edition: e.bytes.into(),
        mint: m.bytes.into(), token_program: p.bytes.into(),
    }.instruction();
    let accounts = ix.accounts.iter().map(|a| AccountMeta {
        pubkey: Address { bytes: a.pubkey.to_bytes() }, is_signer: a.is_signer, is_writable: a.is_writable,
    }).collect();
    Instruction { program_id: Address { bytes: ix.program_id.to_bytes() }, accounts, data: ix.data }
}

/// Relies on mpl_token_metadata::instructions::UpdateMetadataAccountV2::instruction:
/// the metadata program, the writable metadata account and the signing update
/// authority, and data made of the discriminator 15, the tag of a present
/// `data`, its Borsh encoding, and three absent options.
#[verifier::external_body]
fn update_instruction(md: &Address, ua: &Address, data: DataV2) -> (r: Instruction)
    ensures
        r.program_id@ == metadata_program_bytes(),
        r.accounts@ == seq![meta(*md, false, true), meta(*ua, true, false)],
        r.data@.len() >= 5,
        r.data@[0] == 15u8,
        r.data@[1] == 1u8,
        r.data@.subrange(r.data@.len() - 3, r.data@.len() as int) == seq![0u8, 0u8, 0u8],
{
    let args = UpdateMetadataAccountV2InstructionArgs {
        data: Some(data), new_update_authority: None, primary_sale_happened: None, is_mutable: None,
    };
    let ix = MplUpdate { metadata: md.bytes.into(), update_authority: ua.bytes.into() }.instruction(args);
    let accounts = ix.accounts.iter().map(|a| AccountMeta {
        pubkey: Address { bytes: a.pubkey.to_bytes() }, is_signer: a.is_signer, is_writable: a.is_writable,
    }).collect();
    Instruction { program_id: Address { bytes: ix.program_id.to_bytes() }, accounts, data: ix.data }
}

/// The accounts of a metadata update.
#[derive(Clone, Copy, Debug, PartialEq, Eq)]
pub struct UpdateMetadataAccountV2 {
    pub metadata_account: Address,
    pub update_authority: Address,
}

/// The accounts of a delegated freeze.
#[derive(Clone, Copy, Debug, PartialEq, Eq)]
pub struct FreezeDelegatedAccount {
    pub delegate: Address,
    pub token_account: Address,
    pub edition: Address,
    pub mint: Address,
}

/// The accounts of a delegated thaw.
#[derive(Clone, Copy, Debug, PartialEq, Eq)]
pub struct ThawDelegatedAccount {
    pub delegate: Address,
    pub token_account: Address,
    pub edition: Address,
    pub mint: Address,
}

/// The instruction that replaces the metadata of `accounts.metadata_account`
/// with `data`, signed by the update authority, leaving the authority, the
/// primary-sale flag and mutability as they are.
pub fn update_metadata_accounts_v2(accounts: &UpdateMetadataAccountV2, data: DataV2) -> (r: Instruction)
    ensures
        r.program_id@ == metadata_program_bytes(),
        r.accounts@ == seq![
            meta(accounts.metadata_account, false, true),
            meta(accounts.update_authority, true, false),
        ],
        r.data@.len() >= 5,
        r.data@[0] == 15u8,
        r.data@[1] == 1u8,
        r.data@.subrange(r.data@.len() - 3, r.data@.len() as int) == seq![0u8, 0u8, 0u8],
{
    update_instruction(&accounts.metadata_account, &accounts.update_authority, data)
}

/// The instruction by which a delegate freezes `accounts.token_account`
/// through the mint's edition, under the token program.
pub fn freeze_delegated_account(accounts: &FreezeDelegatedAccount) -> (r: Instruction)
    ensures
        r.program_id@ == metadata_program_bytes(),
        r.accounts@.len() == 5,
        r.accounts@.subrange(0, 4) == seq![
            meta(accounts.delegate, true, true),
            meta(accounts.token_account, false, true),
            meta(accounts.edition, false, false),
            meta(accounts.mint, false, false),
        ],
        r.accounts@[4].pubkey@ == token_program_bytes(),
        !r.accounts@[4].is_signer && !r.accounts@[4].is_writable,
        r.data@ == seq![26u8],
{
    let program = token_program_id();
    let r = freeze_instruction(
        &accounts.delegate,
        &accounts.token_account,
        &accounts.edition,
        &accounts.mint,
        &program,
    );
    assert(r.accounts@.subrange(0, 4) =~= seq![
        meta(accounts.delegate, true, true),
        meta(accounts.token_account, false, true),
        meta(accounts.edition, false, false),
        meta(accounts.mint, false, false),
    ]);
    r
}

/// The instruction by which a delegate thaws `accounts.token_account`
/// through the mint's edition, under the token program.
pub fn thaw_delegated_account(accounts: &ThawDelegatedAccount) -> (r: Instruction)
    ensures
        r.program_id@ == metadata_program_bytes(),
        r.accounts@.len() == 5,
        r.accounts@.subrange(0, 4) == seq![
            meta(accounts.delegate, true, true),
            meta(accounts.token_account, false, true),
            meta(accounts.edition, false, false),
            meta(accounts.mint, false, false),
        ],
        r.accounts@[4].pubkey@ == token_program_bytes(),
        !r.accounts@[4].is_signer && !r.accounts@[4].is_writable,
        r.data@ == seq![27u8],
{
    let program = token_program_id();
    let r = thaw_instruction(
        &accounts.delegate,
        &accounts.token_account,
        &accounts.edition,
        &accounts.mint,
        &program,
    );
    assert(r.accounts@.subrange(0, 4) =~= seq![
        meta(accounts.delegate, true, true),
        meta(accounts.token_account, false, true),
        meta(accounts.edition, false, false),
        meta(accounts.mint, false, false),
    ]);
    r
}

} // verus!
