//! The fee charger: decides whether a token fee may be taken from a payer and
//! which transfer the token program must then carry out.
use vstd::prelude::*;

use crate::address::{associated_address_of, is_associated_token_address, Address};

verus! {

/// Errors raised before any transfer is issued.
#[derive(Clone, Copy, Debug, PartialEq, Eq)]
pub enum FeeError {
    /// A token account is not the canonical associated token account of its
    /// owner and mint.
    InvalidAssociatedTokenAddress,
}

/// The first error code of this library's error space.
pub const FEE_ERROR_OFFSET: u32 = 200;

impl FeeError {
    /// The numeric code under which the error is reported to the ledger.
    pub fn code(&self) -> (r: u32)
        ensures
            r == FEE_ERROR_OFFSET + 1000,
    {
        match self {
            FeeError::InvalidAssociatedTokenAddress => FEE_ERROR_OFFSET + 1000,
        }
    }

    /// The human-readable message of the error.
    pub fn message(&self) -> (r: &'static str)
        ensures
            r@ == "Invalid associated token address."@,
    {
        match self {
            FeeError::InvalidAssociatedTokenAddress => "Invalid associated token address.",
        }
    }
}

/// The addresses of the five accounts that take part in charging a fee.
#[derive(Clone, Copy, Debug, PartialEq, Eq)]
pub struct FeeAccounts {
    /// The signer who pays the fee.
    pub authority: Address,
    /// The payer's token account, debited by the fee.
    pub user_ata: Address,
    /// The mint of the fee token.
    pub mint: Address,
    /// The burn token account, credited with the fee.
    pub incinerator: Address,
    /// The token program that executes the transfer.
    pub token_program: Address,
}

/// A token-program transfer of `amount` units from `from` to `to`, signed by `authority`.
#[derive(Clone, Copy, Debug, PartialEq, Eq)]
pub struct TokenTransfer {
    pub program: Address,
    pub from: Address,
    pub to: Address,
    pub authority: Address,
    pub amount: u64,
}

/// The bytes of the ledger's incinerator address, the owner of every burn token account.
pub open spec fn incinerator_owner_bytes() -> Seq<u8> {
    seq![
        0u8, 51, 144, 114, 141, 52, 17, 96, 121, 189, 201, 17, 191, 255, 0, 219,
        212, 77, 46, 205, 204, 247, 156, 166, 225, 0, 56, 225, 0, 0, 0, 0,
    ]
}

/// The ledger's incinerator address: tokens held by its associated accounts
/// can never be moved again.
pub fn incinerator_owner() -> (r: Address)
    ensures
        r@ == incinerator_owner_bytes(),
{
    let r = Address {
        bytes: [
            0u8, 51, 144, 114, 141, 52, 17, 96, 121, 189, 201, 17, 191, 255, 0, 219,
            212, 77, 46, 205, 204, 247, 156, 166, 225, 0, 56, 225, 0, 0, 0, 0,
        ],
    };
    assert(r@ =~= incinerator_owner_bytes());
    r
}

/// The burn account is the incinerator's associated token account for the fee mint.
pub open spec fn burn_account_valid(accounts: FeeAccounts) -> bool {
    accounts.incinerator@ == associated_address_of(incinerator_owner_bytes(), accounts.mint@)
}

/// The payer's token account is the authority's associated token account for the fee mint.
pub open spec fn payer_account_valid(accounts: FeeAccounts) -> bool {
    accounts.user_ata@ == associated_address_of(accounts.authority@, accounts.mint@)
}

/// The transfer that charges `amount` to the payer of `accounts`.
pub open spec fn fee_transfer(accounts: FeeAccounts, amount: u64) -> TokenTransfer {
    TokenTransfer {
        program: accounts.token_program,
        from: accounts.user_ata,
        to: accounts.incinerator,
        authority: accounts.authority,
        amount,
    }
}

/// Checks that both token accounts are the canonical associated accounts and, if
/// they are, returns the one transfer that moves `amount` from the payer to the
/// burn account. No transfer is handed out when either check fails.
pub fn token_fee(accounts: &FeeAccounts, amount: u64) -> (r: Result<TokenTransfer, FeeError>)
    ensures
        r is Ok <==> (burn_account_valid(*accounts) && payer_account_valid(*accounts)),
        r matches Ok(t) ==> t == fee_transfer(*accounts, amount),
        r matches Err(e) ==> e == FeeError::InvalidAssociatedTokenAddress,
{
    let burn_owner = incinerator_owner();
    if !is_associated_token_address(&accounts.incinerator, &burn_owner, &accounts.mint) {
        return Err(FeeError::InvalidAssociatedTokenAddress);
    }
    if !is_associated_token_address(&accounts.user_ata, &accounts.authority, &accounts.mint) {
        return Err(FeeError::InvalidAssociatedTokenAddress);
    }
    Ok(
        TokenTransfer {
            program: accounts.token_program,
            from: accounts.user_ata,
            to: accounts.incinerator,
            authority: accounts.authority,
            amount,
        },
    )
}

} // verus!
