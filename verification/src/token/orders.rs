//! What the issuance operations ask of the asset ledger.

use vstd::prelude::*;
use crate::identity::Identity;

verus! {

/// Set a mint account up.
#[derive(Clone, Copy, Debug, PartialEq, Eq)]
pub struct InitializeMint {
    /// The mint account.
    pub mint: Identity,
    /// How many decimal places an amount has.
    pub decimals: u8,
    /// Who may mint.
    pub mint_authority: Identity,
    /// Who may freeze token accounts, if anyone.
    pub freeze_authority: Option<Identity>,
}

/// Create the token account of `authority` for `mint`, paid for by `payer`.
#[derive(Clone, Copy, Debug, PartialEq, Eq)]
pub struct CreateTokenAccount {
    /// Who pays for the account.
    pub payer: Identity,
    /// The token account to create.
    pub associated_token: Identity,
    /// Who owns the token account.
    pub authority: Identity,
    /// The mint whose tokens it holds.
    pub mint: Identity,
}

/// Mint `amount` new tokens into `to`.
#[derive(Clone, Copy, Debug, PartialEq, Eq)]
pub struct MintTo {
    /// The mint account.
    pub mint: Identity,
    /// The token account that receives the tokens.
    pub to: Identity,
    /// Who signs as the mint authority.
    pub authority: Identity,
    /// How many tokens.
    pub amount: u64,
}

/// Burn `amount` tokens out of `from`.
#[derive(Clone, Copy, Debug, PartialEq, Eq)]
pub struct Burn {
    /// The mint account.
    pub mint: Identity,
    /// The token account that loses the tokens.
    pub from: Identity,
    /// Who signs as the owner of `from`.
    pub authority: Identity,
    /// How many tokens.
    pub amount: u64,
}

/// Move `amount` tokens from `from` to `to`, stating the mint's decimals.
#[derive(Clone, Copy, Debug, PartialEq, Eq)]
pub struct TransferChecked {
    /// The token account that pays.
    pub from: Identity,
    /// The mint account.
    pub mint: Identity,
    /// The token account that is paid.
    pub to: Identity,
    /// Who signs as the owner of `from`.
    pub authority: Identity,
    /// How many tokens.
    pub amount: u64,
    /// The decimals that the mint is expected to have.
    pub decimals: u8,
}

/// Let `delegate` spend up to `amount` tokens out of `to`.
#[derive(Clone, Copy, Debug, PartialEq, Eq)]
pub struct Approve {
    /// The token account that the delegate may spend from.
    pub to: Identity,
    /// Who may spend.
    pub delegate: Identity,
    /// Who signs as the owner of `to`.
    pub authority: Identity,
    /// Up to how many tokens.
    pub amount: u64,
}

/// The three requests that issue an asset, in the order in which they are made.
#[derive(Clone, Copy, Debug, PartialEq, Eq)]
pub struct TokenLaunch {
    /// First, set the mint up.
    pub initialize_mint: InitializeMint,
    /// Then create the authority's token account.
    pub create_account: CreateTokenAccount,
    /// Then mint the whole supply into it.
    pub mint_to: MintTo,
}

} // verus!
