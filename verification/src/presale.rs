//! The campaign: its records, its operations and what holds of them.

pub mod accounts;
pub mod error;
pub mod escrow;
pub mod instructions;
pub mod laws;
pub mod state;

pub use self::accounts::{
    AdminAction, ClaimTokens, Contribute, DerivedAccount, FinalizePresale, GetContribution,
    InitializePresale, Refund,
};
pub use self::error::PresaleError;
pub use self::instructions::{
    claim_tokens, contribute, enable_claims, enable_refunds, finalize_presale, get_contribution,
    initialize_presale, refund, ContributionReport,
};
pub use self::state::{PresaleState, UserContribution};
