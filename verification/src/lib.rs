//! A fundraising escrow: a campaign collects contributions from many
//! contributors between a floor and a ceiling, and then either lets each
//! contributor claim an allocation of the issued asset or gives the
//! contribution back. Every operation is a total function from the records it
//! is handed to the records it leaves and the payment it orders; the caller
//! carries the payment out and stores the new records only when it went
//! through.

pub mod identity;
pub mod instruction;
pub mod presale;
pub mod token;
