//! The issuance operations. Each one checks the caller, keeps the tracked
//! supply, and returns what to ask of the asset ledger.

use vstd::prelude::*;
use crate::token::accounts::{
    ApproveTokens, BurnTokens, InitializeToken, MintTokens, TransferTokens,
};
use crate::token::error::MyError;
use crate::token::orders::{
    Approve, Burn, CreateTokenAccount, InitializeMint, MintTo, TokenLaunch, TransferChecked,
};
use crate::token::state::TokenState;

verus! {

/// The requests that issue an asset: set the mint up with the caller as mint
/// and freeze authority, create the caller's token account, and mint the
/// whole supply into it.
pub open spec fn token_launch(ctx: InitializeToken, decimals: u8, supply: u64) -> TokenLaunch {
    TokenLaunch {
        initialize_mint: InitializeMint {
            mint: ctx.mint,
            decimals,
            mint_authority: ctx.authority,
            freeze_authority: Some(ctx.authority),
        },
        create_account: CreateTokenAccount {
            payer: ctx.authority,
            associated_token: ctx.token_account,
            authority: ctx.authority,
            mint: ctx.mint,
        },
        mint_to: MintTo {
            mint: ctx.mint,
            to: ctx.token_account,
            authority: ctx.authority,
            amount: supply,
        },
    }
}

/// Records a new asset, with the caller as its authority, and returns the
/// requests that issue it.
pub fn initialize_token(
    ctx: &mut InitializeToken,
    name: String,
    symbol: String,
    uri: String,
    decimals: u8,
    supply: u64,
) -> (launch: TokenLaunch)
    ensures
        launch == token_launch(*old(ctx), decimals, supply),
        final(ctx).token_state.authority == old(ctx).authority,
        final(ctx).token_state.mint == old(ctx).mint,
        final(ctx).token_state.name@ == name@,
        final(ctx).token_state.symbol@ == symbol@,
        final(ctx).token_state.uri@ == uri@,
        final(ctx).token_state.decimals == decimals,
        final(ctx).token_state.total_supply == supply,
        final(ctx).authority == old(ctx).authority,
        final(ctx).mint == old(ctx).mint,
        final(ctx).token_account == old(ctx).token_account,
{
    ctx.token_state.authority = ctx.authority;
    ctx.token_state.mint = ctx.mint;
    ctx.token_state.name = name;
    ctx.token_state.symbol = symbol;
    ctx.token_state.uri = uri;
    ctx.token_state.decimals = decimals;
    ctx.token_state.total_supply = supply;
    TokenLaunch {
        initialize_mint: InitializeMint {
            mint: ctx.mint,
            decimals,
            mint_authority: ctx.authority,
            freeze_authority: Some(ctx.authority),
        },
        create_account: CreateTokenAccount {
            payer: ctx.authority,
            associated_token: ctx.token_account,
            authority: ctx.authority,
            mint: ctx.mint,
        },
        mint_to: MintTo {
            mint: ctx.mint,
            to: ctx.token_account,
            authority: ctx.authority,
            amount: supply,
        },
    }
}

/// Why `mint_tokens` rejects, or `None` where it accepts: the caller is not
/// the authority, or else the supply would overflow.
pub open spec fn mint_tokens_error(ctx: MintTokens, amount: u64) -> Option<MyError> {
    if ctx.authority != ctx.token_state.authority {
        Some(MyError::UnauthorizedMintAuthority)
    } else if ctx.token_state.total_supply + amount > u64::MAX {
        Some(MyError::OverflowError)
    } else {
        None
    }
}

/// The records after an accepted mint: the tracked supply is `amount` higher.
pub open spec fn mint_tokens_effect(ctx: MintTokens, amount: u64) -> MintTokens {
    MintTokens {
        token_state: TokenState {
            total_supply: (ctx.token_state.total_supply + amount) as u64,
            ..ctx.token_state
        },
        ..ctx
    }
}

/// Mints `amount` new tokens into the given token account.
pub fn mint_tokens(ctx: &mut MintTokens, amount: u64) -> (result: Result<MintTo, MyError>)
    ensures
        match mint_tokens_error(*old(ctx), amount) {
            Some(error) => result == Err::<MintTo, MyError>(error) && *final(ctx) == *old(ctx),
            None => result == Ok::<MintTo, MyError>(
                MintTo {
                    mint: old(ctx).mint,
                    to: old(ctx).token_account,
                    authority: old(ctx).authority,
                    amount,
                },
            ) && *final(ctx) == mint_tokens_effect(*old(ctx), amount),
        },
{
    if ctx.authority != ctx.token_state.authority {
        return Err(MyError::UnauthorizedMintAuthority);
    }
    let supply: u64 = match ctx.token_state.total_supply.checked_add(amount) {
        Some(supply) => supply,
        None => {
            return Err(MyError::OverflowError);
        },
    };
    ctx.token_state.total_supply = supply;
    Ok(MintTo { mint: ctx.mint, to: ctx.token_account, authority: ctx.authority, amount })
}

/// Why `burn_tokens` rejects, or `None` where it accepts: the caller is not
/// the authority, or else more would be burnt than the supply holds.
pub open spec fn burn_tokens_error(ctx: BurnTokens, amount: u64) -> Option<MyError> {
    if ctx.owner != ctx.token_state.authority {
        Some(MyError::UnauthorizedBurnAuthority)
    } else if amount > ctx.token_state.total_supply {
        Some(MyError::UnderflowError)
    } else {
        None
    }
}

/// The records after an accepted burn: the tracked supply is `amount` lower.
pub open spec fn burn_tokens_effect(ctx: BurnTokens, amount: u64) -> BurnTokens {
    BurnTokens {
        token_state: TokenState {
            total_supply: (ctx.token_state.total_supply - amount) as u64,
            ..ctx.token_state
        },
        ..ctx
    }
}

/// Burns `amount` tokens out of the given token account.
pub fn burn_tokens(ctx: &mut BurnTokens, amount: u64) -> (result: Result<Burn, MyError>)
    ensures
        match burn_tokens_error(*old(ctx), amount) {
            Some(error) => result == Err::<Burn, MyError>(error) && *final(ctx) == *old(ctx),
            None => result == Ok::<Burn, MyError>(
                Burn {
                    mint: old(ctx).mint,
                    from: old(ctx).token_account,
                    authority: old(ctx).owner,
                    amount,
                },
            ) && *final(ctx) == burn_tokens_effect(*old(ctx), amount),
        },
{
    if ctx.owner != ctx.token_state.authority {
        return Err(MyError::UnauthorizedBurnAuthority);
    }
    let supply: u64 = match ctx.token_state.total_supply.checked_sub(amount) {
        Some(supply) => supply,
        None => {
            return Err(MyError::UnderflowError);
        },
    };
    ctx.token_state.total_supply = supply;
    Ok(Burn { mint: ctx.mint, from: ctx.token_account, authority: ctx.owner, amount })
}

/// The request that moves `amount` tokens between two token accounts, signed
/// by the owner and stating the decimals that the asset was issued with.
pub fn transfer_tokens(ctx: &TransferTokens, amount: u64) -> (order: TransferChecked)
    ensures
        order == (TransferChecked {
            from: ctx.from,
            mint: ctx.mint,
            to: ctx.to,
            authority: ctx.owner,
            amount,
            decimals: ctx.token_state.decimals,
        }),
{
    TransferChecked {
        from: ctx.from,
        mint: ctx.mint,
        to: ctx.to,
        authority: ctx.owner,
        amount,
        decimals: ctx.token_state.decimals,
    }
}

/// Why `approve_tokens` rejects, or `None` where it accepts: the caller is
/// not the authority.
pub open spec fn approve_tokens_error(ctx: ApproveTokens) -> Option<MyError> {
    if ctx.owner != ctx.token_state.authority {
        Some(MyError::UnauthorizedApproveAuthority)
    } else {
        None
    }
}

/// The request that lets the delegate spend up to `amount` tokens out of the
/// caller's token account. Only the asset's authority may ask for it.
pub fn approve_tokens(ctx: &ApproveTokens, amount: u64) -> (result: Result<Approve, MyError>)
    ensures
        match approve_tokens_error(*ctx) {
            Some(error) => result == Err::<Approve, MyError>(error),
            None => result == Ok::<Approve, MyError>(
                Approve {
                    to: ctx.token_account,
                    delegate: ctx.delegate,
                    authority: ctx.owner,
                    amount,
                },
            ),
        },
{
    if ctx.owner != ctx.token_state.authority {
        return Err(MyError::UnauthorizedApproveAuthority);
    }
    Ok(Approve { to: ctx.token_account, delegate: ctx.delegate, authority: ctx.owner, amount })
}

} // verus!
