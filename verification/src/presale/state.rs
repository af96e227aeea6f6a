//! The records that a campaign keeps: one for the campaign, one for each
//! contributor.

use vstd::prelude::*;
use crate::identity::Identity;

verus! {

/// The campaign record: its parameters, the running total and the phase flags.
#[derive(Clone, Copy, Debug, PartialEq, Eq)]
pub struct PresaleState {
    /// The administrator. Never changes once the campaign exists.
    pub authority: Identity,
    /// The least total, in lamports, at which the campaign counts as funded.
    pub soft_cap: u64,
    /// The most that the campaign may ever hold, in lamports.
    pub hard_cap: u64,
    /// Lamports per token.
    pub token_price: u64,
    /// First moment at which contributions are taken.
    pub start_time: i64,
    /// Last moment at which contributions are taken.
    pub end_time: i64,
    /// The least single contribution, in lamports.
    pub min_contribution: u64,
    /// The sum of all contributions taken so far, in lamports.
    pub total_contributions: u64,
    /// Whether contributors may claim tokens.
    pub claims_enabled: bool,
    /// Whether contributors may take their lamports back.
    pub refunds_enabled: bool,
    /// Whether the escrow has been swept to the administrator.
    pub finalized: bool,
    /// The escrow account that holds the pooled lamports.
    pub treasury: Identity,
}

impl PresaleState {
    /// Bytes that the record takes when stored.
    pub const SIZE: usize = 32 + 8 + 8 + 8 + 8 + 8 + 8 + 8 + 1 + 1 + 1 + 32;

    /// What holds of every campaign record that the operations produce: the
    /// caps and the window are ordered, the total is within the hard cap,
    /// claims and refunds are never open together, and a finalized campaign
    /// is in its claims phase.
    pub open spec fn wf(&self) -> bool {
        &&& self.soft_cap <= self.hard_cap
        &&& self.start_time < self.end_time
        &&& self.total_contributions <= self.hard_cap
        &&& !(self.claims_enabled && self.refunds_enabled)
        &&& self.finalized ==> self.claims_enabled
    }
}

/// The ledger entry of one contributor.
#[derive(Clone, Copy, Debug, PartialEq, Eq)]
pub struct UserContribution {
    /// The owner. Set by the first contribution and never changed after it.
    pub contributor: Identity,
    /// All that the owner has contributed, in lamports.
    pub amount: u64,
    /// Whether the owner has been paid out in tokens.
    pub claimed: bool,
    /// Whether the owner has been paid back.
    pub refunded: bool,
}

impl UserContribution {
    /// Bytes that the entry takes when stored.
    pub const SIZE: usize = 32 + 8 + 1 + 1;

    /// An entry is paid out at most one way.
    pub open spec fn wf(&self) -> bool {
        !(self.claimed && self.refunded)
    }

    /// An entry as it is allocated, before anyone has contributed to it: all
    /// zeroes.
    pub open spec fn is_vacant(&self) -> bool {
        &&& self.contributor.is_zero()
        &&& self.amount == 0
        &&& !self.claimed
        &&& !self.refunded
    }

    /// A vacant entry.
    pub fn vacant() -> (entry: UserContribution)
        ensures
            entry.is_vacant(),
            entry.wf(),
    {
        UserContribution {
            contributor: Identity::default(),
            amount: 0,
            claimed: false,
            refunded: false,
        }
    }

    /// Whether nobody has contributed to this entry yet.
    pub fn vacancy(&self) -> (vacant: bool)
        ensures
            vacant == self.is_vacant(),
    {
        self.contributor.is_unset() && self.amount == 0 && !self.claimed && !self.refunded
    }
}

} // verus!
