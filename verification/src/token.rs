//! Issuance of the asset that contributors claim: minting, burning, moving
//! and approving, all carried out by the asset ledger on request.

pub mod accounts;
pub mod error;
pub mod instructions;
pub mod orders;
pub mod state;

pub use self::accounts::{ApproveTokens, BurnTokens, InitializeToken, MintTokens, TransferTokens};
pub use self::error::MyError;
pub use self::instructions::{
    approve_tokens, burn_tokens, initialize_token, mint_tokens, transfer_tokens,
};
pub use self::state::TokenState;
