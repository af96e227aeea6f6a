//! What each issuance operation is handed, as plain values.

use vstd::prelude::*;
use crate::identity::Identity;
use crate::token::state::TokenState;

verus! {

/// What `initialize_token` works on.
#[derive(Debug, PartialEq, Eq)]
pub struct InitializeToken {
    /// The caller, who becomes the issuance authority.
    pub authority: Identity,
    /// The asset record to fill.
    pub token_state: TokenState,
    /// The mint account to set up.
    pub mint: Identity,
    /// The token account that receives the supply.
    pub token_account: Identity,
}

/// What `mint_tokens` works on.
#[derive(Debug, PartialEq, Eq)]
pub struct MintTokens {
    /// The caller.
    pub authority: Identity,
    /// The asset record.
    pub token_state: TokenState,
    /// The mint account.
    pub mint: Identity,
    /// The token account that receives the new tokens.
    pub token_account: Identity,
}

/// What `burn_tokens` works on.
#[derive(Debug, PartialEq, Eq)]
pub struct BurnTokens {
    /// The caller.
    pub owner: Identity,
    /// The asset record.
    pub token_state: TokenState,
    /// The mint account.
    pub mint: Identity,
    /// The token account that loses the tokens.
    pub token_account: Identity,
}

/// What `transfer_tokens` reads.
#[derive(Debug, PartialEq, Eq)]
pub struct TransferTokens {
    /// The caller, who owns `from`.
    pub owner: Identity,
    /// The token account that pays.
    pub from: Identity,
    /// The token account that is paid.
    pub to: Identity,
    /// The mint account.
    pub mint: Identity,
    /// The asset record.
    pub token_state: TokenState,
}

/// What `approve_tokens` reads.
#[derive(Debug, PartialEq, Eq)]
pub struct ApproveTokens {
    /// The caller, who owns `token_account`.
    pub owner: Identity,
    /// The asset record.
    pub token_state: TokenState,
    /// The token account that the delegate may spend from.
    pub token_account: Identity,
    /// Who may spend.
    pub delegate: Identity,
}

} // verus!
