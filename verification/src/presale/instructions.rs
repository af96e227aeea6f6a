//! The operations of a campaign. Each one checks, then changes the records
//! it was handed and returns the payment to make; a rejected operation
//! changes nothing.

use vstd::prelude::*;
use crate::identity::Identity;
use crate::instruction::{seeds_view, TokenTransfer, TokenTransferView, Transfer, TransferView};
use crate::presale::accounts::{
    AdminAction, ClaimTokens, Contribute, FinalizePresale, GetContribution, InitializePresale,
    Refund,
};
use crate::presale::escrow::{
    treasury_signer, treasury_signer_seeds, treasury_token_signer, treasury_token_signer_seeds,
};
use crate::presale::error::PresaleError;
use crate::presale::state::{PresaleState, UserContribution};

verus! {

/// Why `initialize_presale` rejects, or `None` where it accepts: the soft cap
/// is above the hard cap, or the window is empty.
pub open spec fn initialize_presale_error(
    soft_cap: u64,
    hard_cap: u64,
    start_time: i64,
    end_time: i64,
) -> Option<PresaleError> {
    if soft_cap > hard_cap || start_time >= end_time {
        Some(PresaleError::ConfigInvalid)
    } else {
        None
    }
}

/// The records after an accepted initialization: the caller administers the
/// campaign, the escrow is recorded, nothing is raised and no phase is open.
pub open spec fn initialize_presale_effect(
    ctx: InitializePresale,
    soft_cap: u64,
    hard_cap: u64,
    token_price: u64,
    start_time: i64,
    end_time: i64,
    min_contribution: u64,
) -> InitializePresale {
    InitializePresale {
        presale_state: PresaleState {
            authority: ctx.authority,
            soft_cap,
            hard_cap,
            token_price,
            start_time,
            end_time,
            min_contribution,
            total_contributions: 0,
            claims_enabled: false,
            refunds_enabled: false,
            finalized: false,
            treasury: ctx.treasury.key,
        },
        ..ctx
    }
}

/// Fills in the campaign record of a new campaign. Moves no funds.
pub fn initialize_presale(
    ctx: &mut InitializePresale,
    soft_cap: u64,
    hard_cap: u64,
    token_price: u64,
    start_time: i64,
    end_time: i64,
    min_contribution: u64,
) -> (result: Result<(), PresaleError>)
    ensures
        match initialize_presale_error(soft_cap, hard_cap, start_time, end_time) {
            Some(error) => result == Err::<(), PresaleError>(error) && *final(ctx) == *old(ctx),
            None => result is Ok && *final(ctx) == initialize_presale_effect(
                *old(ctx),
                soft_cap,
                hard_cap,
                token_price,
                start_time,
                end_time,
                min_contribution,
            ),
        },
        result is Ok ==> final(ctx).presale_state.wf(),
{
    if soft_cap > hard_cap || start_time >= end_time {
        return Err(PresaleError::ConfigInvalid);
    }
    ctx.presale_state.authority = ctx.authority;
    ctx.presale_state.soft_cap = soft_cap;
    ctx.presale_state.hard_cap = hard_cap;
    ctx.presale_state.token_price = token_price;
    ctx.presale_state.start_time = start_time;
    ctx.presale_state.end_time = end_time;
    ctx.presale_state.min_contribution = min_contribution;
    ctx.presale_state.total_contributions = 0;
    ctx.presale_state.claims_enabled = false;
    ctx.presale_state.refunds_enabled = false;
    ctx.presale_state.finalized = false;
    ctx.presale_state.treasury = ctx.treasury.key;
    Ok(())
}

/// Why `contribute` rejects, or `None` where it accepts. The checks come in
/// this order: the entry belongs to someone else; the window has not opened;
/// it has closed; the campaign is finalized; refunds are open; the amount is
/// below the minimum; the hard cap would be passed; the entry has been paid
/// out; the entry's amount would leave its range.
pub open spec fn contribute_error(ctx: Contribute, amount: u64, now: i64) -> Option<PresaleError> {
    let state = ctx.presale_state;
    let entry = ctx.user_contribution;
    if !entry.is_vacant() && entry.contributor != ctx.contributor {
        Some(PresaleError::Unauthorized)
    } else if now < state.start_time {
        Some(PresaleError::PresaleNotStarted)
    } else if now > state.end_time {
        Some(PresaleError::PresaleEnded)
    } else if state.finalized {
        Some(PresaleError::PresaleFinalized)
    } else if state.refunds_enabled {
        Some(PresaleError::RefundsEnabled)
    } else if amount < state.min_contribution {
        Some(PresaleError::ContributionTooSmall)
    } else if state.total_contributions + amount > state.hard_cap {
        Some(PresaleError::HardCapExceeded)
    } else if entry.claimed {
        Some(PresaleError::AlreadyClaimed)
    } else if entry.refunded {
        Some(PresaleError::AlreadyRefunded)
    } else if entry.amount + amount > u64::MAX {
        Some(PresaleError::AmountOverflow)
    } else {
        None
    }
}

/// The records after an accepted contribution: the entry belongs to the
/// caller and holds `amount` more, and so does the campaign's total.
pub open spec fn contribute_effect(ctx: Contribute, amount: u64) -> Contribute {
    Contribute {
        presale_state: PresaleState {
            total_contributions: (ctx.presale_state.total_contributions + amount) as u64,
            ..ctx.presale_state
        },
        user_contribution: UserContribution {
            contributor: ctx.contributor,
            amount: (ctx.user_contribution.amount + amount) as u64,
            ..ctx.user_contribution
        },
        ..ctx
    }
}

/// The payment that an accepted contribution orders: `amount` lamports from
/// the caller into the escrow, signed by the caller alone.
pub open spec fn contribute_payment(ctx: Contribute, amount: u64) -> TransferView {
    TransferView {
        from: ctx.contributor,
        to: ctx.treasury.key,
        lamports: amount,
        signer_seeds: Seq::empty(),
    }
}

/// Takes a contribution of `amount` lamports at the moment `now`.
pub fn contribute(ctx: &mut Contribute, amount: u64, now: i64) -> (result: Result<Transfer, PresaleError>)
    ensures
        match contribute_error(*old(ctx), amount, now) {
            Some(error) => result == Err::<Transfer, PresaleError>(error) && *final(ctx) == *old(ctx),
            None => result is Ok && result->Ok_0@ == contribute_payment(*old(ctx), amount)
                && *final(ctx) == contribute_effect(*old(ctx), amount),
        },
        old(ctx).presale_state.wf() ==> final(ctx).presale_state.wf(),
        old(ctx).user_contribution.wf() ==> final(ctx).user_contribution.wf(),
{
    if !ctx.user_contribution.vacancy() && ctx.user_contribution.contributor != ctx.contributor {
        return Err(PresaleError::Unauthorized);
    }
    if now < ctx.presale_state.start_time {
        return Err(PresaleError::PresaleNotStarted);
    }
    if now > ctx.presale_state.end_time {
        return Err(PresaleError::PresaleEnded);
    }
    if ctx.presale_state.finalized {
        return Err(PresaleError::PresaleFinalized);
    }
    if ctx.presale_state.refunds_enabled {
        return Err(PresaleError::RefundsEnabled);
    }
    if amount < ctx.presale_state.min_contribution {
        return Err(PresaleError::ContributionTooSmall);
    }
    let total: u64 = match ctx.presale_state.total_contributions.checked_add(amount) {
        Some(total) => total,
        None => {
            return Err(PresaleError::HardCapExceeded);
        },
    };
    if total > ctx.presale_state.hard_cap {
        return Err(PresaleError::HardCapExceeded);
    }
    if ctx.user_contribution.claimed {
        return Err(PresaleError::AlreadyClaimed);
    }
    if ctx.user_contribution.refunded {
        return Err(PresaleError::AlreadyRefunded);
    }
    let owned: u64 = match ctx.user_contribution.amount.checked_add(amount) {
        Some(owned) => owned,
        None => {
            return Err(PresaleError::AmountOverflow);
        },
    };
    let payment = Transfer {
        from: ctx.contributor,
        to: ctx.treasury.key,
        lamports: amount,
        signer_seeds: Vec::new(),
    };
    ctx.user_contribution.contributor = ctx.contributor;
    ctx.user_contribution.amount = owned;
    ctx.presale_state.total_contributions = total;
    proof {
        assert(seeds_view(payment.signer_seeds@) =~= Seq::<Seq<u8>>::empty());
    }
    Ok(payment)
}

/// The tokens that `amount` lamports buy at `token_price` lamports each,
/// rounded down; `None` where the price is zero.
pub open spec fn tokens_entitled(amount: u64, token_price: u64) -> Option<u64> {
    if token_price > 0 {
        Some((amount / token_price) as u64)
    } else {
        None
    }
}

/// What `get_contribution` reports of a ledger entry.
#[derive(Clone, Copy, Debug, PartialEq, Eq)]
pub struct ContributionReport {
    /// The entry's owner.
    pub contributor: Identity,
    /// All that the owner has contributed, in lamports.
    pub amount: u64,
    /// Whether the owner has been paid out in tokens.
    pub claimed: bool,
    /// Whether the owner has been paid back.
    pub refunded: bool,
    /// The tokens that the amount buys; `None` where the price is zero.
    pub tokens_entitled: Option<u64>,
}

/// Reads a ledger entry, with the tokens that it entitles to. Changes nothing.
pub fn get_contribution(ctx: &GetContribution) -> (report: ContributionReport)
    ensures
        report == (ContributionReport {
            contributor: ctx.user_contribution.contributor,
            amount: ctx.user_contribution.amount,
            claimed: ctx.user_contribution.claimed,
            refunded: ctx.user_contribution.refunded,
            tokens_entitled: tokens_entitled(
                ctx.user_contribution.amount,
                ctx.presale_state.token_price,
            ),
        }),
{
    let entitled: Option<u64> = if ctx.presale_state.token_price > 0 {
        Some(ctx.user_contribution.amount / ctx.presale_state.token_price)
    } else {
        None
    };
    ContributionReport {
        contributor: ctx.user_contribution.contributor,
        amount: ctx.user_contribution.amount,
        claimed: ctx.user_contribution.claimed,
        refunded: ctx.user_contribution.refunded,
        tokens_entitled: entitled,
    }
}

/// Why `enable_claims` rejects, or `None` where it accepts. In this order:
/// the caller is not the administrator; the campaign is finalized; the soft
/// cap has not been reached.
pub open spec fn enable_claims_error(ctx: AdminAction) -> Option<PresaleError> {
    if ctx.authority != ctx.presale_state.authority {
        Some(PresaleError::Unauthorized)
    } else if ctx.presale_state.finalized {
        Some(PresaleError::PresaleFinalized)
    } else if ctx.presale_state.total_contributions < ctx.presale_state.soft_cap {
        Some(PresaleError::SoftCapNotReached)
    } else {
        None
    }
}

/// The records after claims were opened: claims are open, refunds closed.
pub open spec fn enable_claims_effect(ctx: AdminAction) -> AdminAction {
    AdminAction {
        presale_state: PresaleState {
            claims_enabled: true,
            refunds_enabled: false,
            ..ctx.presale_state
        },
        ..ctx
    }
}

/// Opens the claims phase and closes refunds. Opening claims that are open
/// already is accepted and changes nothing.
pub fn enable_claims(ctx: &mut AdminAction) -> (result: Result<(), PresaleError>)
    ensures
        match enable_claims_error(*old(ctx)) {
            Some(error) => result == Err::<(), PresaleError>(error) && *final(ctx) == *old(ctx),
            None => result is Ok && *final(ctx) == enable_claims_effect(*old(ctx)),
        },
        old(ctx).presale_state.wf() ==> final(ctx).presale_state.wf(),
        !(final(ctx).presale_state.claims_enabled && final(ctx).presale_state.refunds_enabled)
            || *final(ctx) == *old(ctx),
{
    if ctx.authority != ctx.presale_state.authority {
        return Err(PresaleError::Unauthorized);
    }
    if ctx.presale_state.finalized {
        return Err(PresaleError::PresaleFinalized);
    }
    if ctx.presale_state.total_contributions < ctx.presale_state.soft_cap {
        return Err(PresaleError::SoftCapNotReached);
    }
    ctx.presale_state.claims_enabled = true;
    ctx.presale_state.refunds_enabled = false;
    Ok(())
}

/// Why `claim_tokens` rejects, or `None` where it accepts. In this order: the
/// caller does not own the entry; the entry has been claimed; claims are
/// closed; the price is zero; the entitlement is zero; the entry has been
/// refunded.
pub open spec fn claim_tokens_error(ctx: ClaimTokens) -> Option<PresaleError> {
    let state = ctx.presale_state;
    let entry = ctx.user_contribution;
    if ctx.contributor != entry.contributor {
        Some(PresaleError::Unauthorized)
    } else if entry.claimed {
        Some(PresaleError::AlreadyClaimed)
    } else if !state.claims_enabled {
        Some(PresaleError::ClaimsNotEnabled)
    } else if state.token_price == 0 {
        Some(PresaleError::AmountOverflow)
    } else if entry.amount / state.token_price == 0 {
        Some(PresaleError::InsufficientTokenBalance)
    } else if entry.refunded {
        Some(PresaleError::AlreadyRefunded)
    } else {
        None
    }
}

/// The records after an accepted claim: the entry is marked as claimed, and
/// nothing else changes.
pub open spec fn claim_tokens_effect(ctx: ClaimTokens) -> ClaimTokens {
    ClaimTokens {
        user_contribution: UserContribution { claimed: true, ..ctx.user_contribution },
        ..ctx
    }
}

/// The payment that an accepted claim orders: the entitled tokens, out of the
/// token escrow and into the caller's token account, signed for by the token
/// escrow's own seeds.
pub open spec fn claim_tokens_payment(ctx: ClaimTokens) -> TokenTransferView {
    TokenTransferView {
        from: ctx.treasury_token_account.key,
        to: ctx.user_token_account,
        authority: ctx.treasury_token_account.key,
        amount: (ctx.user_contribution.amount / ctx.presale_state.token_price) as u64,
        signer_seeds: treasury_token_signer(ctx.treasury_token_account.bump),
    }
}

/// Pays a ledger entry out in tokens.
pub fn claim_tokens(ctx: &mut ClaimTokens) -> (result: Result<TokenTransfer, PresaleError>)
    ensures
        match claim_tokens_error(*old(ctx)) {
            Some(error) => result == Err::<TokenTransfer, PresaleError>(error) && *final(ctx)
                == *old(ctx),
            None => result is Ok && result->Ok_0@ == claim_tokens_payment(*old(ctx)) && *final(ctx) == claim_tokens_effect(*old(ctx)),
        },
        old(ctx).user_contribution.wf() ==> final(ctx).user_contribution.wf(),
        result is Ok ==> result->Ok_0.amount > 0,
{
    if ctx.contributor != ctx.user_contribution.contributor {
        return Err(PresaleError::Unauthorized);
    }
    if ctx.user_contribution.claimed {
        return Err(PresaleError::AlreadyClaimed);
    }
    if !ctx.presale_state.claims_enabled {
        return Err(PresaleError::ClaimsNotEnabled);
    }
    let token_amount: u64 = match ctx.user_contribution.amount.checked_div(
        ctx.presale_state.token_price,
    ) {
        Some(token_amount) => token_amount,
        None => {
            return Err(PresaleError::AmountOverflow);
        },
    };
    if token_amount == 0 {
        return Err(PresaleError::InsufficientTokenBalance);
    }
    if ctx.user_contribution.refunded {
        return Err(PresaleError::AlreadyRefunded);
    }
    let payment = TokenTransfer {
        from: ctx.treasury_token_account.key,
        to: ctx.user_token_account,
        authority: ctx.treasury_token_account.key,
        amount: token_amount,
        signer_seeds: treasury_token_signer_seeds(ctx.treasury_token_account.bump),
    };
    ctx.user_contribution.claimed = true;
    Ok(payment)
}

/// Why `enable_refunds` rejects, or `None` where it accepts. In this order:
/// the caller is not the administrator; the campaign is finalized.
pub open spec fn enable_refunds_error(ctx: AdminAction) -> Option<PresaleError> {
    if ctx.authority != ctx.presale_state.authority {
        Some(PresaleError::Unauthorized)
    } else if ctx.presale_state.finalized {
        Some(PresaleError::PresaleFinalized)
    } else {
        None
    }
}

/// The records after refunds were opened: refunds are open, claims closed.
pub open spec fn enable_refunds_effect(ctx: AdminAction) -> AdminAction {
    AdminAction {
        presale_state: PresaleState {
            refunds_enabled: true,
            claims_enabled: false,
            ..ctx.presale_state
        },
        ..ctx
    }
}

/// Opens the refunds phase and closes claims, whatever has been raised.
pub fn enable_refunds(ctx: &mut AdminAction) -> (result: Result<(), PresaleError>)
    ensures
        match enable_refunds_error(*old(ctx)) {
            Some(error) => result == Err::<(), PresaleError>(error) && *final(ctx) == *old(ctx),
            None => result is Ok && *final(ctx) == enable_refunds_effect(*old(ctx)),
        },
        old(ctx).presale_state.wf() ==> final(ctx).presale_state.wf(),
        !(final(ctx).presale_state.claims_enabled && final(ctx).presale_state.refunds_enabled)
            || *final(ctx) == *old(ctx),
{
    if ctx.authority != ctx.presale_state.authority {
        return Err(PresaleError::Unauthorized);
    }
    if ctx.presale_state.finalized {
        return Err(PresaleError::PresaleFinalized);
    }
    ctx.presale_state.refunds_enabled = true;
    ctx.presale_state.claims_enabled = false;
    Ok(())
}

/// Why `refund` rejects, or `None` where it accepts. In this order: the
/// caller does not own the entry; the entry has been refunded; refunds are
/// closed; the entry holds nothing; the entry has been claimed.
pub open spec fn refund_error(ctx: Refund) -> Option<PresaleError> {
    let state = ctx.presale_state;
    let entry = ctx.user_contribution;
    if ctx.contributor != entry.contributor {
        Some(PresaleError::Unauthorized)
    } else if entry.refunded {
        Some(PresaleError::AlreadyRefunded)
    } else if !state.refunds_enabled {
        Some(PresaleError::RefundsNotEnabled)
    } else if entry.amount == 0 {
        Some(PresaleError::NoRefundAvailable)
    } else if entry.claimed {
        Some(PresaleError::AlreadyClaimed)
    } else {
        None
    }
}

/// The records after an accepted refund: the entry is marked as refunded, and
/// nothing else changes.
pub open spec fn refund_effect(ctx: Refund) -> Refund {
    Refund { user_contribution: UserContribution { refunded: true, ..ctx.user_contribution }, ..ctx }
}

/// The payment that an accepted refund orders: all that the entry holds, out
/// of the escrow and back to the caller, signed for by the escrow's own seeds.
pub open spec fn refund_payment(ctx: Refund) -> TransferView {
    TransferView {
        from: ctx.treasury.key,
        to: ctx.contributor,
        lamports: ctx.user_contribution.amount,
        signer_seeds: treasury_signer(ctx.treasury.bump),
    }
}

/// Pays a ledger entry back.
pub fn refund(ctx: &mut Refund) -> (result: Result<Transfer, PresaleError>)
    ensures
        match refund_error(*old(ctx)) {
            Some(error) => result == Err::<Transfer, PresaleError>(error) && *final(ctx) == *old(ctx),
            None => result is Ok && result->Ok_0@ == refund_payment(*old(ctx)) && *final(ctx)
                == refund_effect(*old(ctx)),
        },
        old(ctx).user_contribution.wf() ==> final(ctx).user_contribution.wf(),
{
    if ctx.contributor != ctx.user_contribution.contributor {
        return Err(PresaleError::Unauthorized);
    }
    if ctx.user_contribution.refunded {
        return Err(PresaleError::AlreadyRefunded);
    }
    if !ctx.presale_state.refunds_enabled {
        return Err(PresaleError::RefundsNotEnabled);
    }
    let refund_amount: u64 = ctx.user_contribution.amount;
    if refund_amount == 0 {
        return Err(PresaleError::NoRefundAvailable);
    }
    if ctx.user_contribution.claimed {
        return Err(PresaleError::AlreadyClaimed);
    }
    let payment = Transfer {
        from: ctx.treasury.key,
        to: ctx.contributor,
        lamports: refund_amount,
        signer_seeds: treasury_signer_seeds(ctx.treasury.bump),
    };
    ctx.user_contribution.refunded = true;
    Ok(payment)
}

/// Why `finalize_presale` rejects, or `None` where it accepts. In this order:
/// the caller is not the administrator; the campaign is not in its claims
/// phase; the soft cap has not been reached.
pub open spec fn finalize_presale_error(ctx: FinalizePresale) -> Option<PresaleError> {
    let state = ctx.presale_state;
    if ctx.authority != state.authority {
        Some(PresaleError::Unauthorized)
    } else if !(state.claims_enabled && !state.refunds_enabled) {
        Some(PresaleError::CannotFinalize)
    } else if state.total_contributions < state.soft_cap {
        Some(PresaleError::SoftCapNotReached)
    } else {
        None
    }
}

/// The records after finalization: the campaign is finalized, and nothing
/// else changes.
pub open spec fn finalize_presale_effect(ctx: FinalizePresale) -> FinalizePresale {
    FinalizePresale { presale_state: PresaleState { finalized: true, ..ctx.presale_state }, ..ctx }
}

/// The payment that finalization orders: all that the escrow holds, to the
/// administrator's wallet, signed for by the escrow's own seeds.
pub open spec fn finalize_presale_payment(ctx: FinalizePresale) -> TransferView {
    TransferView {
        from: ctx.treasury.key,
        to: ctx.admin_wallet,
        lamports: ctx.treasury.lamports,
        signer_seeds: treasury_signer(ctx.treasury.bump),
    }
}

/// Sweeps the escrow to the administrator and closes the campaign for good.
pub fn finalize_presale(ctx: &mut FinalizePresale) -> (result: Result<Transfer, PresaleError>)
    ensures
        match finalize_presale_error(*old(ctx)) {
            Some(error) => result == Err::<Transfer, PresaleError>(error) && *final(ctx) == *old(ctx),
            None => result is Ok && result->Ok_0@ == finalize_presale_payment(*old(ctx))
                && *final(ctx) == finalize_presale_effect(*old(ctx)),
        },
        old(ctx).presale_state.wf() ==> final(ctx).presale_state.wf(),
{
    if ctx.authority != ctx.presale_state.authority {
        return Err(PresaleError::Unauthorized);
    }
    if !(ctx.presale_state.claims_enabled && !ctx.presale_state.refunds_enabled) {
        return Err(PresaleError::CannotFinalize);
    }
    if ctx.presale_state.total_contributions < ctx.presale_state.soft_cap {
        return Err(PresaleError::SoftCapNotReached);
    }
    let payment = Transfer {
        from: ctx.treasury.key,
        to: ctx.admin_wallet,
        lamports: ctx.treasury.lamports,
        signer_seeds: treasury_signer_seeds(ctx.treasury.bump),
    };
    ctx.presale_state.finalized = true;
    Ok(payment)
}

} // verus!
