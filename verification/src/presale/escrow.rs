//! The escrow accounts. No key holder owns them: the program alone signs for
//! them, by the seeds from which their addresses are derived.

use vstd::prelude::*;
use crate::instruction::seeds_view;

verus! {

/// The seed of the lamport escrow: the ASCII letters of `treasury`.
pub open spec fn treasury_seed() -> Seq<u8> {
    seq![116u8, 114u8, 101u8, 97u8, 115u8, 117u8, 114u8, 121u8]
}

/// The seed of the token escrow: the ASCII letters of `treasury_token_account`.
pub open spec fn treasury_token_seed() -> Seq<u8> {
    seq![
        116u8, 114u8, 101u8, 97u8, 115u8, 117u8, 114u8, 121u8, 95u8, 116u8, 111u8, 107u8, 101u8,
        110u8, 95u8, 97u8, 99u8, 99u8, 111u8, 117u8, 110u8, 116u8,
    ]
}

/// The seeds that sign for the lamport escrow: its seed, then its bump.
pub open spec fn treasury_signer(bump: u8) -> Seq<Seq<u8>> {
    seq![treasury_seed(), seq![bump]]
}

/// The seeds that sign for the token escrow: its seed, then its bump.
pub open spec fn treasury_token_signer(bump: u8) -> Seq<Seq<u8>> {
    seq![treasury_token_seed(), seq![bump]]
}

/// The seeds that sign for the lamport escrow.
pub fn treasury_signer_seeds(bump: u8) -> (seeds: Vec<Vec<u8>>)
    ensures
        seeds_view(seeds@) == treasury_signer(bump),
{
    let seed: Vec<u8> = vec![116u8, 114u8, 101u8, 97u8, 115u8, 117u8, 114u8, 121u8];
    let tail: Vec<u8> = vec![bump];
    let seeds: Vec<Vec<u8>> = vec![seed, tail];
    proof {
        assert(seed@ =~= treasury_seed());
        assert(tail@ =~= seq![bump]);
        assert(seeds_view(seeds@) =~= treasury_signer(bump));
    }
    seeds
}

/// The seeds that sign for the token escrow.
pub fn treasury_token_signer_seeds(bump: u8) -> (seeds: Vec<Vec<u8>>)
    ensures
        seeds_view(seeds@) == treasury_token_signer(bump),
{
    let seed: Vec<u8> = vec![
        116u8, 114u8, 101u8, 97u8, 115u8, 117u8, 114u8, 121u8, 95u8, 116u8, 111u8, 107u8, 101u8,
        110u8, 95u8, 97u8, 99u8, 99u8, 111u8, 117u8, 110u8, 116u8,
    ];
    let tail: Vec<u8> = vec![bump];
    let seeds: Vec<Vec<u8>> = vec![seed, tail];
    proof {
        assert(seed@ =~= treasury_token_seed());
        assert(tail@ =~= seq![bump]);
        assert(seeds_view(seeds@) =~= treasury_token_signer(bump));
    }
    seeds
}

} // verus!
