//! The record of an issued asset.

use vstd::prelude::*;
use crate::identity::Identity;

verus! {

/// What is recorded of an issued asset.
#[derive(Debug, PartialEq, Eq)]
pub struct TokenState {
    /// The principal that may mint and burn.
    pub authority: Identity,
    /// The mint account of the asset.
    pub mint: Identity,
    /// The asset's name.
    pub name: String,
    /// The asset's ticker symbol.
    pub symbol: String,
    /// Where the asset's description is found.
    pub uri: String,
    /// How many decimal places an amount has. Fixed at issuance.
    pub decimals: u8,
    /// The tokens in existence, as this record tracks them.
    pub total_supply: u64,
}

impl Default for TokenState {
    /// The empty record: zero identities, empty texts, no decimals, no supply.
    fn default() -> (state: TokenState)
        ensures
            state.authority.is_zero(),
            state.mint.is_zero(),
            state.name@ == Seq::<char>::empty(),
            state.symbol@ == Seq::<char>::empty(),
            state.uri@ == Seq::<char>::empty(),
            state.decimals == 0,
            state.total_supply == 0,
    {
        TokenState {
            authority: Identity::default(),
            mint: Identity::default(),
            name: String::new(),
            symbol: String::new(),
            uri: String::new(),
            decimals: 0,
            total_supply: 0,
        }
    }
}

} // verus!
