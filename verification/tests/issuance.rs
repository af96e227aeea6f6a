use presale::identity::Identity;
use presale::token::orders::{
    Approve, Burn, CreateTokenAccount, InitializeMint, MintTo, TokenLaunch, TransferChecked,
};
use presale::token::{
    approve_tokens, burn_tokens, initialize_token, mint_tokens, transfer_tokens, ApproveTokens,
    BurnTokens, InitializeToken, MintTokens, MyError, TokenState, TransferTokens,
};

fn id(byte: u8) -> Identity {
    Identity::new([byte; 32])
}

fn issued(supply: u64) -> TokenState {
    let mut ctx = InitializeToken {
        authority: id(1),
        token_state: TokenState::default(),
        mint: id(2),
        token_account: id(3),
    };
    initialize_token(&mut ctx, "Zero".to_string(), "ZL".to_string(), "uri".to_string(), 6, supply);
    ctx.token_state
}

#[test]
fn default_token_state_is_empty() {
    let state = TokenState::default();
    assert_eq!(
        state,
        TokenState {
            authority: Identity::new([0; 32]),
            mint: Identity::new([0; 32]),
            name: String::new(),
            symbol: String::new(),
            uri: String::new(),
            decimals: 0,
            total_supply: 0,
        }
    );
}

#[test]
fn initialize_token_records_the_asset_and_orders_its_issue() {
    let mut ctx = InitializeToken {
        authority: id(1),
        token_state: TokenState::default(),
        mint: id(2),
        token_account: id(3),
    };
    let launch = initialize_token(
        &mut ctx,
        "ZL Token".to_string(),
        "ZL".to_string(),
        "https://example.org/zl.json".to_string(),
        9,
        1_000_000,
    );
    assert_eq!(
        ctx,
        InitializeToken {
            authority: id(1),
            token_state: TokenState {
                authority: id(1),
                mint: id(2),
                name: "ZL Token".to_string(),
                symbol: "ZL".to_string(),
                uri: "https://example.org/zl.json".to_string(),
                decimals: 9,
                total_supply: 1_000_000,
            },
            mint: id(2),
            token_account: id(3),
        }
    );
    assert_eq!(
        launch,
        TokenLaunch {
            initialize_mint: InitializeMint {
                mint: id(2),
                decimals: 9,
                mint_authority: id(1),
                freeze_authority: Some(id(1)),
            },
            create_account: CreateTokenAccount {
                payer: id(1),
                associated_token: id(3),
                authority: id(1),
                mint: id(2),
            },
            mint_to: MintTo { mint: id(2), to: id(3), authority: id(1), amount: 1_000_000 },
        }
    );
}

#[test]
fn mint_raises_the_supply() {
    let mut ctx =
        MintTokens { authority: id(1), token_state: issued(100), mint: id(2), token_account: id(4) };
    assert_eq!(
        mint_tokens(&mut ctx, 50),
        Ok(MintTo { mint: id(2), to: id(4), authority: id(1), amount: 50 })
    );
    assert_eq!(ctx.token_state.total_supply, 150);
    assert_eq!(ctx.token_state.name, "Zero");
    assert_eq!(ctx.token_state.decimals, 6);
}

#[test]
fn mint_rejects_other_callers() {
    let mut ctx =
        MintTokens { authority: id(5), token_state: issued(100), mint: id(2), token_account: id(4) };
    assert_eq!(mint_tokens(&mut ctx, 50), Err(MyError::UnauthorizedMintAuthority));
    assert_eq!(ctx.token_state, issued(100));
    assert_eq!(mint_tokens(&mut ctx, u64::MAX), Err(MyError::UnauthorizedMintAuthority));
}

#[test]
fn mint_rejects_overflow() {
    let mut ctx = MintTokens {
        authority: id(1),
        token_state: issued(u64::MAX - 10),
        mint: id(2),
        token_account: id(4),
    };
    assert_eq!(mint_tokens(&mut ctx, 11), Err(MyError::OverflowError));
    assert_eq!(ctx.token_state.total_supply, u64::MAX - 10);
    assert!(mint_tokens(&mut ctx, 10).is_ok());
    assert_eq!(ctx.token_state.total_supply, u64::MAX);
}

#[test]
fn burn_lowers_the_supply() {
    let mut ctx =
        BurnTokens { owner: id(1), token_state: issued(100), mint: id(2), token_account: id(4) };
    assert_eq!(
        burn_tokens(&mut ctx, 30),
        Ok(Burn { mint: id(2), from: id(4), authority: id(1), amount: 30 })
    );
    assert_eq!(ctx.token_state.total_supply, 70);
    assert!(burn_tokens(&mut ctx, 70).is_ok());
    assert_eq!(ctx.token_state.total_supply, 0);
}

#[test]
fn burn_rejects_other_callers() {
    let mut ctx =
        BurnTokens { owner: id(5), token_state: issued(100), mint: id(2), token_account: id(4) };
    assert_eq!(burn_tokens(&mut ctx, 30), Err(MyError::UnauthorizedBurnAuthority));
    assert_eq!(ctx.token_state.total_supply, 100);
    assert_eq!(burn_tokens(&mut ctx, 101), Err(MyError::UnauthorizedBurnAuthority));
}

#[test]
fn burn_rejects_underflow() {
    let mut ctx =
        BurnTokens { owner: id(1), token_state: issued(100), mint: id(2), token_account: id(4) };
    assert_eq!(burn_tokens(&mut ctx, 101), Err(MyError::UnderflowError));
    assert_eq!(ctx.token_state, issued(100));
}

#[test]
fn transfer_states_the_decimals_of_the_asset() {
    let ctx = TransferTokens {
        owner: id(7),
        from: id(8),
        to: id(9),
        mint: id(2),
        token_state: issued(100),
    };
    assert_eq!(
        transfer_tokens(&ctx, 12),
        TransferChecked { from: id(8), mint: id(2), to: id(9), authority: id(7), amount: 12, decimals: 6 }
    );
}

#[test]
fn approve_names_the_delegate() {
    let ctx = ApproveTokens {
        owner: id(1),
        token_state: issued(100),
        token_account: id(8),
        delegate: id(9),
    };
    assert_eq!(
        approve_tokens(&ctx, 12),
        Ok(Approve { to: id(8), delegate: id(9), authority: id(1), amount: 12 })
    );
    assert_eq!(
        approve_tokens(&ctx, u64::MAX),
        Ok(Approve { to: id(8), delegate: id(9), authority: id(1), amount: u64::MAX })
    );
    assert_eq!(ctx.token_state, issued(100));
}

#[test]
fn approve_rejects_other_callers() {
    for stranger in [0u8, 2, 8, 9, 255] {
        let ctx = ApproveTokens {
            owner: id(stranger),
            token_state: issued(100),
            token_account: id(8),
            delegate: id(9),
        };
        assert_eq!(approve_tokens(&ctx, 12), Err(MyError::UnauthorizedApproveAuthority));
        assert_eq!(approve_tokens(&ctx, 0), Err(MyError::UnauthorizedApproveAuthority));
        assert_eq!(ctx.token_state, issued(100));
    }
}

#[test]
fn issuance_error_messages() {
    assert_eq!(
        MyError::UnauthorizedMintAuthority.message(),
        "Only the mint authority can mint new tokens"
    );
    assert_eq!(MyError::UnauthorizedBurnAuthority.message(), "Only the owner can burn tokens");
    assert_eq!(MyError::OverflowError.message(), "Arithmetic overflow");
    assert_eq!(MyError::UnderflowError.message(), "Arithmetic underflow");
    assert_eq!(
        MyError::UnauthorizedApproveAuthority.message(),
        "Only the authority can approve a delegate"
    );
}
