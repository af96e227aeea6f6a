//! Why a campaign operation was rejected.

use vstd::prelude::*;

verus! {

/// The reasons for which a campaign operation is rejected. A rejected
/// operation leaves every record as it found it.
#[derive(Clone, Copy, Debug, PartialEq, Eq, Structural)]
pub enum PresaleError {
    /// A contribution arrived before the window opened.
    PresaleNotStarted,
    /// A contribution arrived after the window closed.
    PresaleEnded,
    /// The campaign is finalized and takes no further contribution or phase change.
    PresaleFinalized,
    /// Refunds are open, so contributions are closed.
    RefundsEnabled,
    /// A contribution is below the campaign's minimum.
    ContributionTooSmall,
    /// A contribution would lift the total above the hard cap.
    HardCapExceeded,
    /// A counter would leave its range, or the price is zero.
    AmountOverflow,
    /// The entitlement rounds down to no token at all.
    InsufficientTokenBalance,
    /// A claim arrived while claims are closed.
    ClaimsNotEnabled,
    /// A refund arrived while refunds are closed.
    RefundsNotEnabled,
    /// The caller is not the principal that the operation is reserved for.
    Unauthorized,
    /// The ledger entry has been paid out in tokens.
    AlreadyClaimed,
    /// The ledger entry has been paid back.
    AlreadyRefunded,
    /// The total raised is below the soft cap.
    SoftCapNotReached,
    /// The ledger entry holds nothing to pay back.
    NoRefundAvailable,
    /// Finalization was asked for outside the claims phase.
    CannotFinalize,
    /// The campaign's parameters contradict each other.
    ConfigInvalid,
}

impl PresaleError {
    /// The text shown to the caller for each reason.
    pub open spec fn message_spec(self) -> Seq<char> {
        match self {
            PresaleError::PresaleNotStarted => "Presale has not started yet"@,
            PresaleError::PresaleEnded => "Presale has ended"@,
            PresaleError::PresaleFinalized => "Presale has been finalized"@,
            PresaleError::RefundsEnabled => "Refunds are enabled, no more contributions accepted"@,
            PresaleError::ContributionTooSmall => "Contribution amount is below minimum"@,
            PresaleError::HardCapExceeded => "Hard cap would be exceeded"@,
            PresaleError::AmountOverflow => "Arithmetic overflow"@,
            PresaleError::InsufficientTokenBalance => "Not enough tokens to claim"@,
            PresaleError::ClaimsNotEnabled => "Claims are not enabled yet"@,
            PresaleError::RefundsNotEnabled => "Refunds are not enabled"@,
            PresaleError::Unauthorized => "Only authority can perform this action"@,
            PresaleError::AlreadyClaimed => "Already claimed"@,
            PresaleError::AlreadyRefunded => "Already refunded"@,
            PresaleError::SoftCapNotReached => "Soft cap not reached"@,
            PresaleError::NoRefundAvailable => "No refund available"@,
            PresaleError::CannotFinalize => "Cannot finalize presale"@,
            PresaleError::ConfigInvalid => "Presale configuration is invalid"@,
        }
    }

    /// The text shown to the caller.
    pub fn message(&self) -> (text: &'static str)
        ensures
            text@ == self.message_spec(),
    {
        match self {
            PresaleError::PresaleNotStarted => "Presale has not started yet",
            PresaleError::PresaleEnded => "Presale has ended",
            PresaleError::PresaleFinalized => "Presale has been finalized",
            PresaleError::RefundsEnabled => "Refunds are enabled, no more contributions accepted",
            PresaleError::ContributionTooSmall => "Contribution amount is below minimum",
            PresaleError::HardCapExceeded => "Hard cap would be exceeded",
            PresaleError::AmountOverflow => "Arithmetic overflow",
            PresaleError::InsufficientTokenBalance => "Not enough tokens to claim",
            PresaleError::ClaimsNotEnabled => "Claims are not enabled yet",
            PresaleError::RefundsNotEnabled => "Refunds are not enabled",
            PresaleError::Unauthorized => "Only authority can perform this action",
            PresaleError::AlreadyClaimed => "Already claimed",
            PresaleError::AlreadyRefunded => "Already refunded",
            PresaleError::SoftCapNotReached => "Soft cap not reached",
            PresaleError::NoRefundAvailable => "No refund available",
            PresaleError::CannotFinalize => "Cannot finalize presale",
            PresaleError::ConfigInvalid => "Presale configuration is invalid",
        }
    }
}

} // verus!
