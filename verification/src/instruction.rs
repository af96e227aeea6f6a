//! Orders to move lamports, and the system-program instructions that carry
//! them out.

use anchor_lang::solana_program::pubkey::Pubkey;
use anchor_lang::solana_program::system_instruction;
use vstd::bytes::spec_u64_to_le_bytes;
use vstd::prelude::*;
use crate::identity::Identity;

verus! {

/// One account that an instruction touches.
#[derive(Clone, Copy, Debug, PartialEq, Eq)]
pub struct AccountMeta {
    /// The account.
    pub pubkey: Identity,
    /// Whether the account has to sign.
    pub is_signer: bool,
    /// Whether the instruction may change the account.
    pub is_writable: bool,
}

/// An instruction for a program on the chain, in plain values.
#[derive(Debug, PartialEq, Eq)]
pub struct Instruction {
    /// The program that executes the instruction.
    pub program_id: Identity,
    /// The accounts that it touches, in the order in which the program expects them.
    pub accounts: Vec<AccountMeta>,
    /// The program's own encoding of what it is asked to do.
    pub data: Vec<u8>,
}

/// The bytes in which the system program reads "transfer this many lamports":
/// the number 2 in four bytes, then the amount in eight, both with the least
/// significant byte first.
pub open spec fn system_transfer_data(lamports: u64) -> Seq<u8> {
    seq![2u8, 0u8, 0u8, 0u8] + spec_u64_to_le_bytes(lamports)
}

/// The accounts of a system transfer: the payer signs and is debited, the
/// payee is credited.
pub open spec fn system_transfer_accounts(from: Identity, to: Identity) -> Seq<AccountMeta> {
    seq![
        AccountMeta { pubkey: from, is_signer: true, is_writable: true },
        AccountMeta { pubkey: to, is_signer: false, is_writable: true },
    ]
}

/// Calls `system_instruction::transfer` of `solana_program`, as `anchor_lang`
/// hands it on, and copies what comes back into plain values. Trusted: the
/// instruction is addressed to the system program, whose identity is all
/// zeroes; it lists the payer as a writable signer and then the payee as
/// writable; its data is the transfer tag followed by the amount, twelve
/// bytes in all.
#[verifier::external_body]
fn system_transfer(from: &Identity, to: &Identity, lamports: u64) -> (ix: Instruction)
    ensures
        ix.program_id.is_zero(),
        ix.accounts@ == system_transfer_accounts(*from, *to),
        ix.data@ == system_transfer_data(lamports),
{
    let from = Pubkey::new_from_array(from.bytes);
    let to = Pubkey::new_from_array(to.bytes);
    let ix = system_instruction::transfer(&from, &to, lamports);
    let accounts = ix.accounts.iter().map(|meta| AccountMeta {
        pubkey: Identity { bytes: meta.pubkey.to_bytes() },
        is_signer: meta.is_signer,
        is_writable: meta.is_writable,
    });
    Instruction {
        program_id: Identity { bytes: ix.program_id.to_bytes() },
        accounts: accounts.collect(),
        data: ix.data,
    }
}

/// What a list of seeds holds.
pub open spec fn seeds_view(seeds: Seq<Vec<u8>>) -> Seq<Seq<u8>> {
    seeds.map_values(|seed: Vec<u8>| seed@)
}

/// An order to move lamports from one account to another. Where the payer is
/// an account that the program controls, the order carries the seeds that
/// prove it.
#[derive(Debug, PartialEq, Eq)]
pub struct Transfer {
    /// The account that pays.
    pub from: Identity,
    /// The account that is paid.
    pub to: Identity,
    /// How much.
    pub lamports: u64,
    /// The seeds of the paying account where the program signs for it; empty
    /// where the payer signs for itself.
    pub signer_seeds: Vec<Vec<u8>>,
}

/// A transfer order as a mathematical value.
pub struct TransferView {
    pub from: Identity,
    pub to: Identity,
    pub lamports: u64,
    pub signer_seeds: Seq<Seq<u8>>,
}

impl View for Transfer {
    type V = TransferView;

    open spec fn view(&self) -> TransferView {
        TransferView {
            from: self.from,
            to: self.to,
            lamports: self.lamports,
            signer_seeds: seeds_view(self.signer_seeds@),
        }
    }
}

/// An order to the asset ledger to move tokens from one token account to
/// another.
#[derive(Debug, PartialEq, Eq)]
pub struct TokenTransfer {
    /// The token account that pays.
    pub from: Identity,
    /// The token account that is paid.
    pub to: Identity,
    /// The account with the right to spend from `from`.
    pub authority: Identity,
    /// How many tokens.
    pub amount: u64,
    /// The seeds of `authority` where the program signs for it.
    pub signer_seeds: Vec<Vec<u8>>,
}

/// A token transfer order as a mathematical value.
pub struct TokenTransferView {
    pub from: Identity,
    pub to: Identity,
    pub authority: Identity,
    pub amount: u64,
    pub signer_seeds: Seq<Seq<u8>>,
}

impl View for TokenTransfer {
    type V = TokenTransferView;

    open spec fn view(&self) -> TokenTransferView {
        TokenTransferView {
            from: self.from,
            to: self.to,
            authority: self.authority,
            amount: self.amount,
            signer_seeds: seeds_view(self.signer_seeds@),
        }
    }
}

impl Transfer {
    /// The system-program instruction that carries this order out.
    pub fn instruction(&self) -> (ix: Instruction)
        ensures
            ix.program_id.is_zero(),
            ix.accounts@ == system_transfer_accounts(self.from, self.to),
            ix.data@ == system_transfer_data(self.lamports),
    {
        system_transfer(&self.from, &self.to, self.lamports)
    }
}

} // verus!
