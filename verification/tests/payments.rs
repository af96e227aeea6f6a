use anchor_lang::solana_program::instruction::AccountMeta as ChainAccountMeta;
use anchor_lang::solana_program::pubkey::Pubkey;
use anchor_lang::solana_program::{system_instruction, system_program};
use presale::identity::Identity;
use presale::instruction::{AccountMeta, Transfer};
use presale::presale::escrow::{treasury_signer_seeds, treasury_token_signer_seeds};

fn id(byte: u8) -> Identity {
    Identity::new([byte; 32])
}

#[test]
fn identity_equality_is_byte_for_byte() {
    let mut bytes = [7u8; 32];
    assert_eq!(Identity::new(bytes), id(7));
    bytes[31] = 8;
    assert_ne!(Identity::new(bytes), id(7));
    bytes[31] = 7;
    bytes[0] = 0;
    assert_ne!(Identity::new(bytes), id(7));
    assert_eq!(Identity::new(bytes).to_bytes(), bytes);
}

#[test]
fn default_identity_is_all_zero() {
    assert_eq!(Identity::default().to_bytes(), [0u8; 32]);
    assert!(Identity::default().is_unset());
    assert!(!id(1).is_unset());
    let mut bytes = [0u8; 32];
    bytes[31] = 1;
    assert!(!Identity::new(bytes).is_unset());
}

#[test]
fn transfer_instruction_is_a_system_transfer() {
    let order = Transfer { from: id(3), to: id(4), lamports: 0x0102_0304_0506_0708, signer_seeds: vec![] };
    let ix = order.instruction();
    assert_eq!(ix.program_id, Identity::new([0u8; 32]));
    assert_eq!(ix.program_id.to_bytes(), system_program::ID.to_bytes());
    assert_eq!(
        ix.accounts,
        vec![
            AccountMeta { pubkey: id(3), is_signer: true, is_writable: true },
            AccountMeta { pubkey: id(4), is_signer: false, is_writable: true },
        ]
    );
    assert_eq!(ix.data, vec![2, 0, 0, 0, 8, 7, 6, 5, 4, 3, 2, 1]);
}

#[test]
fn transfer_instruction_matches_the_chain_library() {
    let order = Transfer { from: id(30), to: id(40), lamports: 12_345, signer_seeds: vec![] };
    let ix = order.instruction();
    let chain = system_instruction::transfer(
        &Pubkey::new_from_array([30; 32]),
        &Pubkey::new_from_array([40; 32]),
        12_345,
    );
    assert_eq!(Pubkey::new_from_array(ix.program_id.to_bytes()), chain.program_id);
    let accounts: Vec<ChainAccountMeta> = ix
        .accounts
        .iter()
        .map(|meta| ChainAccountMeta {
            pubkey: Pubkey::new_from_array(meta.pubkey.to_bytes()),
            is_signer: meta.is_signer,
            is_writable: meta.is_writable,
        })
        .collect();
    assert_eq!(accounts, chain.accounts);
    assert_eq!(ix.data, chain.data);
}

#[test]
fn transfer_instruction_data_is_the_tag_and_the_amount() {
    for (lamports, bytes) in [
        (0u64, [0u8; 8]),
        (1, [1, 0, 0, 0, 0, 0, 0, 0]),
        (256, [0, 1, 0, 0, 0, 0, 0, 0]),
        (u64::MAX, [255; 8]),
        (1 << 63, [0, 0, 0, 0, 0, 0, 0, 128]),
    ] {
        let ix = Transfer { from: id(3), to: id(4), lamports, signer_seeds: vec![] }.instruction();
        assert_eq!(ix.data.len(), 12);
        assert_eq!(ix.data[..4], [2, 0, 0, 0]);
        assert_eq!(ix.data[4..], bytes);
        assert_eq!(ix.data[4..], lamports.to_le_bytes());
    }
}

#[test]
fn transfer_instruction_data_depends_on_the_amount_alone() {
    let one = Transfer { from: id(3), to: id(4), lamports: 9, signer_seeds: vec![] }.instruction();
    let other = Transfer {
        from: id(5),
        to: id(6),
        lamports: 9,
        signer_seeds: vec![b"treasury".to_vec(), vec![1]],
    }
    .instruction();
    assert_eq!(one.data, other.data);
    let more = Transfer { from: id(3), to: id(4), lamports: 10, signer_seeds: vec![] }.instruction();
    assert_ne!(one.data, more.data);
}

#[test]
fn escrow_signer_seeds() {
    assert_eq!(treasury_signer_seeds(0), vec![b"treasury".to_vec(), vec![0u8]]);
    assert_eq!(treasury_signer_seeds(255), vec![b"treasury".to_vec(), vec![255u8]]);
    assert_eq!(
        treasury_token_signer_seeds(7),
        vec![b"treasury_token_account".to_vec(), vec![7u8]]
    );
}
