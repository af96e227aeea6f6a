//! What each operation is handed: the caller and the records and accounts
//! that it works on, as plain values.

use vstd::prelude::*;
use crate::identity::Identity;
use crate::presale::state::{PresaleState, UserContribution};

verus! {

/// An account at an address that the program derives from seeds, as an
/// operation sees it.
#[derive(Clone, Copy, Debug, PartialEq, Eq)]
pub struct DerivedAccount {
    /// Its address.
    pub key: Identity,
    /// The bump that completes its seeds.
    pub bump: u8,
    /// The lamports that it holds when the operation starts.
    pub lamports: u64,
}

/// What `initialize_presale` works on.
#[derive(Clone, Copy, Debug, PartialEq, Eq)]
pub struct InitializePresale {
    /// The caller, who becomes the administrator.
    pub authority: Identity,
    /// The campaign record to fill.
    pub presale_state: PresaleState,
    /// The lamport escrow.
    pub treasury: DerivedAccount,
}

/// What `contribute` works on.
#[derive(Clone, Copy, Debug, PartialEq, Eq)]
pub struct Contribute {
    /// The caller.
    pub contributor: Identity,
    /// The campaign record.
    pub presale_state: PresaleState,
    /// The lamport escrow.
    pub treasury: DerivedAccount,
    /// The caller's ledger entry, vacant before the first contribution.
    pub user_contribution: UserContribution,
}

/// What `get_contribution` reads.
#[derive(Clone, Copy, Debug, PartialEq, Eq)]
pub struct GetContribution {
    /// The contributor who is asked about.
    pub contributor: Identity,
    /// That contributor's ledger entry.
    pub user_contribution: UserContribution,
    /// The campaign record.
    pub presale_state: PresaleState,
}

/// What `enable_claims` and `enable_refunds` work on.
#[derive(Clone, Copy, Debug, PartialEq, Eq)]
pub struct AdminAction {
    /// The caller.
    pub authority: Identity,
    /// The campaign record.
    pub presale_state: PresaleState,
}

/// What `claim_tokens` works on.
#[derive(Clone, Copy, Debug, PartialEq, Eq)]
pub struct ClaimTokens {
    /// The caller.
    pub contributor: Identity,
    /// The campaign record.
    pub presale_state: PresaleState,
    /// The ledger entry to pay out.
    pub user_contribution: UserContribution,
    /// The token escrow.
    pub treasury_token_account: DerivedAccount,
    /// The token account that receives the tokens.
    pub user_token_account: Identity,
}

/// What `refund` works on.
#[derive(Clone, Copy, Debug, PartialEq, Eq)]
pub struct Refund {
    /// The caller.
    pub contributor: Identity,
    /// The campaign record.
    pub presale_state: PresaleState,
    /// The ledger entry to pay back.
    pub user_contribution: UserContribution,
    /// The lamport escrow.
    pub treasury: DerivedAccount,
}

/// What `finalize_presale` works on.
#[derive(Clone, Copy, Debug, PartialEq, Eq)]
pub struct FinalizePresale {
    /// The caller.
    pub authority: Identity,
    /// The campaign record.
    pub presale_state: PresaleState,
    /// The lamport escrow.
    pub treasury: DerivedAccount,
    /// The account that receives what the escrow holds.
    pub admin_wallet: Identity,
}

} // verus!
