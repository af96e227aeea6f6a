//! Why an issuance operation was rejected.

use vstd::prelude::*;

verus! {

/// The reasons for which an issuance operation is rejected.
#[derive(Clone, Copy, Debug, PartialEq, Eq, Structural)]
pub enum MyError {
    /// The caller is not the authority that may mint.
    UnauthorizedMintAuthority,
    /// The caller is not the authority that may burn.
    UnauthorizedBurnAuthority,
    /// The supply would rise above what the counter can hold.
    OverflowError,
    /// The supply would fall below zero.
    UnderflowError,
    /// The caller is not the authority that may approve a delegate.
    UnauthorizedApproveAuthority,
}

impl MyError {
    /// The text shown to the caller for each reason.
    pub open spec fn message_spec(self) -> Seq<char> {
        match self {
            MyError::UnauthorizedMintAuthority => "Only the mint authority can mint new tokens"@,
            MyError::UnauthorizedBurnAuthority => "Only the owner can burn tokens"@,
            MyError::OverflowError => "Arithmetic overflow"@,
            MyError::UnderflowError => "Arithmetic underflow"@,
            MyError::UnauthorizedApproveAuthority => "Only the authority can approve a delegate"@,
        }
    }

    /// The text shown to the caller.
    pub fn message(&self) -> (text: &'static str)
        ensures
            text@ == self.message_spec(),
    {
        match self {
            MyError::UnauthorizedMintAuthority => "Only the mint authority can mint new tokens",
            MyError::UnauthorizedBurnAuthority => "Only the owner can burn tokens",
            MyError::OverflowError => "Arithmetic overflow",
            MyError::UnderflowError => "Arithmetic underflow",
            MyError::UnauthorizedApproveAuthority => "Only the authority can approve a delegate",
        }
    }
}

} // verus!
