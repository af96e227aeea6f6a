//! What holds of a campaign over any sequence of operations.
//!
//! A campaign is taken as a whole here: its record, all its ledger entries
//! and its escrow. Operations arrive one at a time, each on the records as
//! the one before left them. An operation that orders a payment takes effect
//! only if the payment goes through; otherwise the records stay as they were.

use vstd::prelude::*;
use crate::identity::Identity;
use crate::presale::accounts::{
    AdminAction, ClaimTokens, Contribute, DerivedAccount, FinalizePresale, Refund,
};
use crate::presale::error::PresaleError;
use crate::presale::instructions::{
    claim_tokens_effect, claim_tokens_error, contribute_effect, contribute_error,
    contribute_payment, enable_claims_effect, enable_claims_error, enable_refunds_effect,
    enable_refunds_error, finalize_presale_effect, finalize_presale_error,
    finalize_presale_payment, refund_effect, refund_error, refund_payment,
};
use crate::presale::state::{PresaleState, UserContribution};

verus! {

/// A campaign as a whole.
pub struct Campaign {
    /// The campaign record.
    pub state: PresaleState,
    /// Every ledger entry that has been allocated, vacant ones included.
    pub entries: Seq<UserContribution>,
    /// The lamport escrow and what it holds.
    pub treasury: DerivedAccount,
    /// The token escrow.
    pub treasury_token_account: DerivedAccount,
}

/// One operation as it is submitted. `slot` says which ledger entry the
/// caller brought; `settled` says whether the payment that the operation
/// ordered went through.
pub enum Call {
    Contribute { slot: int, contributor: Identity, amount: u64, now: i64, settled: bool },
    EnableClaims { authority: Identity },
    ClaimTokens { slot: int, contributor: Identity, user_token_account: Identity, settled: bool },
    EnableRefunds { authority: Identity },
    Refund { slot: int, contributor: Identity, settled: bool },
    FinalizePresale { authority: Identity, admin_wallet: Identity, settled: bool },
}

/// The sum of the amounts of all entries.
pub open spec fn ledger_total(entries: Seq<UserContribution>) -> int
    decreases entries.len(),
{
    if entries.len() == 0 {
        0
    } else {
        ledger_total(entries.drop_last()) + entries.last().amount
    }
}

impl Campaign {
    /// What `contribute` is handed when a caller brings the entry at `slot`.
    pub open spec fn contribute_ctx(self, slot: int, contributor: Identity) -> Contribute {
        Contribute {
            contributor,
            presale_state: self.state,
            treasury: self.treasury,
            user_contribution: self.entries[slot],
        }
    }

    /// What `claim_tokens` is handed when a caller brings the entry at `slot`.
    pub open spec fn claim_ctx(
        self,
        slot: int,
        contributor: Identity,
        user_token_account: Identity,
    ) -> ClaimTokens {
        ClaimTokens {
            contributor,
            presale_state: self.state,
            user_contribution: self.entries[slot],
            treasury_token_account: self.treasury_token_account,
            user_token_account,
        }
    }

    /// What `refund` is handed when a caller brings the entry at `slot`.
    pub open spec fn refund_ctx(self, slot: int, contributor: Identity) -> Refund {
        Refund {
            contributor,
            presale_state: self.state,
            user_contribution: self.entries[slot],
            treasury: self.treasury,
        }
    }

    /// What `finalize_presale` is handed.
    pub open spec fn finalize_ctx(self, authority: Identity, admin_wallet: Identity) -> FinalizePresale {
        FinalizePresale { authority, presale_state: self.state, treasury: self.treasury, admin_wallet }
    }

    /// The campaign with `lamports` in its escrow.
    pub open spec fn with_balance(self, lamports: int) -> Campaign {
        Campaign { treasury: DerivedAccount { lamports: lamports as u64, ..self.treasury }, ..self }
    }

    /// Whether a contribution takes effect: the caller's entry exists, the
    /// operation accepts, and the lamports arrive in the escrow.
    pub open spec fn contribution_lands(
        self,
        slot: int,
        contributor: Identity,
        amount: u64,
        now: i64,
        settled: bool,
    ) -> bool {
        &&& 0 <= slot < self.entries.len()
        &&& settled
        &&& contribute_error(self.contribute_ctx(slot, contributor), amount, now) is None
        &&& self.treasury.lamports + amount <= u64::MAX
    }

    /// Whether a claim takes effect: the entry exists, the operation accepts,
    /// and the tokens arrive.
    pub open spec fn claim_lands(
        self,
        slot: int,
        contributor: Identity,
        user_token_account: Identity,
        settled: bool,
    ) -> bool {
        &&& 0 <= slot < self.entries.len()
        &&& settled
        &&& claim_tokens_error(self.claim_ctx(slot, contributor, user_token_account)) is None
    }

    /// Whether a refund takes effect: the entry exists, the operation accepts,
    /// and the escrow holds what it has to pay.
    pub open spec fn refund_lands(self, slot: int, contributor: Identity, settled: bool) -> bool {
        &&& 0 <= slot < self.entries.len()
        &&& settled
        &&& refund_error(self.refund_ctx(slot, contributor)) is None
        &&& refund_payment(self.refund_ctx(slot, contributor)).lamports <= self.treasury.lamports
    }

    /// Whether finalization takes effect.
    pub open spec fn finalization_lands(
        self,
        authority: Identity,
        admin_wallet: Identity,
        settled: bool,
    ) -> bool {
        settled && finalize_presale_error(self.finalize_ctx(authority, admin_wallet)) is None
    }

    /// The campaign after one operation.
    pub open spec fn step(self, call: Call) -> Campaign {
        match call {
            Call::Contribute { slot, contributor, amount, now, settled } => {
                let ctx = self.contribute_ctx(slot, contributor);
                if self.contribution_lands(slot, contributor, amount, now, settled) {
                    let next = contribute_effect(ctx, amount);
                    (Campaign {
                        state: next.presale_state,
                        entries: self.entries.update(slot, next.user_contribution),
                        ..self
                    }).with_balance(
                        self.treasury.lamports + contribute_payment(ctx, amount).lamports,
                    )
                } else {
                    self
                }
            },
            Call::EnableClaims { authority } => {
                let ctx = AdminAction { authority, presale_state: self.state };
                if enable_claims_error(ctx) is None {
                    Campaign { state: enable_claims_effect(ctx).presale_state, ..self }
                } else {
                    self
                }
            },
            Call::ClaimTokens { slot, contributor, user_token_account, settled } => {
                let ctx = self.claim_ctx(slot, contributor, user_token_account);
                if self.claim_lands(slot, contributor, user_token_account, settled) {
                    Campaign {
                        entries: self.entries.update(
                            slot,
                            claim_tokens_effect(ctx).user_contribution,
                        ),
                        ..self
                    }
                } else {
                    self
                }
            },
            Call::EnableRefunds { authority } => {
                let ctx = AdminAction { authority, presale_state: self.state };
                if enable_refunds_error(ctx) is None {
                    Campaign { state: enable_refunds_effect(ctx).presale_state, ..self }
                } else {
                    self
                }
            },
            Call::Refund { slot, contributor, settled } => {
                let ctx = self.refund_ctx(slot, contributor);
                if self.refund_lands(slot, contributor, settled) {
                    (Campaign {
                        entries: self.entries.update(slot, refund_effect(ctx).user_contribution),
                        ..self
                    }).with_balance(self.treasury.lamports - refund_payment(ctx).lamports)
                } else {
                    self
                }
            },
            Call::FinalizePresale { authority, admin_wallet, settled } => {
                let ctx = self.finalize_ctx(authority, admin_wallet);
                if self.finalization_lands(authority, admin_wallet, settled) {
                    (Campaign { state: finalize_presale_effect(ctx).presale_state, ..self }).with_balance(
                        self.treasury.lamports - finalize_presale_payment(ctx).lamports,
                    )
                } else {
                    self
                }
            },
        }
    }

    /// The campaign after a sequence of operations, first to last.
    pub open spec fn run(self, calls: Seq<Call>) -> Campaign
        decreases calls.len(),
    {
        if calls.len() == 0 {
            self
        } else {
            self.run(calls.drop_last()).step(calls.last())
        }
    }

    /// The ledger entries add up to the campaign's total.
    pub open spec fn ledger_balanced(self) -> bool {
        ledger_total(self.entries) == self.state.total_contributions
    }

    /// The escrow holds exactly the campaign's total.
    pub open spec fn escrow_balanced(self) -> bool {
        self.treasury.lamports == self.state.total_contributions
    }

    /// Whether `call`, arriving now, pays the entry at `slot` out: a claim or
    /// a refund on that entry that takes effect.
    pub open spec fn pays_out(self, call: Call, slot: int) -> bool {
        match call {
            Call::ClaimTokens { slot: at, contributor, user_token_account, settled } => at == slot
                && self.claim_lands(at, contributor, user_token_account, settled),
            Call::Refund { slot: at, contributor, settled } => at == slot && self.refund_lands(
                at,
                contributor,
                settled,
            ),
            _ => false,
        }
    }

    /// How often the entry at `slot` is paid out in the course of `calls`.
    pub open spec fn payouts(self, calls: Seq<Call>, slot: int) -> nat
        decreases calls.len(),
    {
        if calls.len() == 0 {
            0
        } else {
            let before = self.payouts(calls.drop_last(), slot);
            if self.run(calls.drop_last()).pays_out(calls.last(), slot) {
                before + 1
            } else {
                before
            }
        }
    }
}

/// Whether an operation takes lamports out of the escrow.
pub open spec fn draws_on_escrow(call: Call) -> bool {
    call is Refund || call is FinalizePresale
}

/// How many ways an entry has been paid out: claimed, refunded.
pub open spec fn times_paid(entry: UserContribution) -> nat {
    (if entry.claimed { 1nat } else { 0nat }) + (if entry.refunded { 1nat } else { 0nat })
}

proof fn lemma_ledger_total_update(entries: Seq<UserContribution>, slot: int, entry: UserContribution)
    requires
        0 <= slot < entries.len(),
    ensures
        ledger_total(entries.update(slot, entry)) == ledger_total(entries) - entries[slot].amount
            + entry.amount,
    decreases entries.len(),
{
    let updated = entries.update(slot, entry);
    if slot == entries.len() - 1 {
        assert(updated.drop_last() =~= entries.drop_last());
    } else {
        assert(updated.drop_last() =~= entries.drop_last().update(slot, entry));
        lemma_ledger_total_update(entries.drop_last(), slot, entry);
    }
}

proof fn lemma_ledger_total_vacant(entries: Seq<UserContribution>)
    requires
        forall|i: int| 0 <= i < entries.len() ==> entries[i].amount == 0,
    ensures
        ledger_total(entries) == 0,
    decreases entries.len(),
{
    if entries.len() > 0 {
        lemma_ledger_total_vacant(entries.drop_last());
    }
}

/// One operation keeps the ledger entries adding up to the total.
proof fn lemma_step_ledger_balanced(c: Campaign, call: Call)
    requires
        c.ledger_balanced(),
    ensures
        c.step(call).ledger_balanced(),
{
    match call {
        Call::Contribute { slot, contributor, amount, now, settled } => {
            if c.contribution_lands(slot, contributor, amount, now, settled) {
                let next = contribute_effect(c.contribute_ctx(slot, contributor), amount);
                lemma_ledger_total_update(c.entries, slot, next.user_contribution);
            }
        },
        Call::ClaimTokens { slot, contributor, user_token_account, settled } => {
            if c.claim_lands(slot, contributor, user_token_account, settled) {
                let ctx = c.claim_ctx(slot, contributor, user_token_account);
                lemma_ledger_total_update(c.entries, slot, claim_tokens_effect(ctx).user_contribution);
            }
        },
        Call::Refund { slot, contributor, settled } => {
            if c.refund_lands(slot, contributor, settled) {
                let ctx = c.refund_ctx(slot, contributor);
                lemma_ledger_total_update(c.entries, slot, refund_effect(ctx).user_contribution);
            }
        },
        _ => {},
    }
}

/// A campaign that has just been created is in balance: with nothing raised,
/// an empty escrow and only vacant entries, the entries add up to the total
/// and the escrow holds it.
pub proof fn lemma_new_campaign_balanced(c: Campaign)
    requires
        c.state.total_contributions == 0,
        c.treasury.lamports == 0,
        forall|i: int| 0 <= i < c.entries.len() ==> c.entries[i].is_vacant(),
    ensures
        c.ledger_balanced(),
        c.escrow_balanced(),
{
    lemma_ledger_total_vacant(c.entries);
}

/// Conservation, ledger side: after any sequence of operations on a campaign
/// whose entries add up to its total, they still do.
pub proof fn lemma_ledger_conserved(c: Campaign, calls: Seq<Call>)
    requires
        c.ledger_balanced(),
    ensures
        c.run(calls).ledger_balanced(),
    decreases calls.len(),
{
    if calls.len() > 0 {
        lemma_ledger_conserved(c, calls.drop_last());
        lemma_step_ledger_balanced(c.run(calls.drop_last()), calls.last());
    }
}

/// Conservation, escrow side: as long as no operation draws on the escrow,
/// the escrow holds exactly the campaign's total, which is the sum of the
/// ledger entries.
pub proof fn lemma_escrow_conserved(c: Campaign, calls: Seq<Call>)
    requires
        c.ledger_balanced(),
        c.escrow_balanced(),
        forall|i: int| 0 <= i < calls.len() ==> !draws_on_escrow(calls[i]),
    ensures
        c.run(calls).escrow_balanced(),
        c.run(calls).ledger_balanced(),
        c.run(calls).treasury.lamports == ledger_total(c.run(calls).entries),
    decreases calls.len(),
{
    lemma_ledger_conserved(c, calls);
    if calls.len() > 0 {
        lemma_escrow_conserved(c, calls.drop_last());
    }
}

/// Cap enforcement: no sequence of operations lifts the total above the hard
/// cap.
pub proof fn lemma_total_within_hard_cap(c: Campaign, calls: Seq<Call>)
    requires
        c.state.total_contributions <= c.state.hard_cap,
    ensures
        c.run(calls).state.total_contributions <= c.run(calls).state.hard_cap,
        c.run(calls).state.hard_cap == c.state.hard_cap,
    decreases calls.len(),
{
    if calls.len() > 0 {
        lemma_total_within_hard_cap(c, calls.drop_last());
    }
}

/// No partial fill: a contribution that would lift the total above the hard
/// cap is rejected, and the campaign stays exactly as it was.
pub proof fn lemma_over_cap_rejected(
    c: Campaign,
    slot: int,
    contributor: Identity,
    amount: u64,
    now: i64,
    settled: bool,
)
    requires
        c.state.total_contributions + amount > c.state.hard_cap,
    ensures
        contribute_error(c.contribute_ctx(slot, contributor), amount, now) is Some,
        c.step(Call::Contribute { slot, contributor, amount, now, settled }) == c,
{
}

/// No double payout: over any sequence of operations, an entry is paid out
/// at most once, by a claim or by a refund and never by both; an entry that
/// was already paid out is never paid out again.
pub proof fn lemma_no_double_payout(c: Campaign, calls: Seq<Call>, slot: int)
    requires
        0 <= slot < c.entries.len(),
        c.entries[slot].wf(),
    ensures
        c.run(calls).entries.len() == c.entries.len(),
        c.run(calls).entries[slot].wf(),
        times_paid(c.run(calls).entries[slot]) == times_paid(c.entries[slot]) + c.payouts(
            calls,
            slot,
        ),
        c.payouts(calls, slot) + times_paid(c.entries[slot]) <= 1,
    decreases calls.len(),
{
    if calls.len() > 0 {
        lemma_no_double_payout(c, calls.drop_last(), slot);
    }
}

/// Phase exclusivity: after any sequence of operations, claims and refunds
/// are not both open.
pub proof fn lemma_phases_exclusive(c: Campaign, calls: Seq<Call>)
    requires
        !(c.state.claims_enabled && c.state.refunds_enabled),
    ensures
        !(c.run(calls).state.claims_enabled && c.run(calls).state.refunds_enabled),
    decreases calls.len(),
{
    if calls.len() > 0 {
        lemma_phases_exclusive(c, calls.drop_last());
    }
}

/// A well-formed campaign record stays well formed, and a finalized campaign
/// stays finalized and in its claims phase.
pub proof fn lemma_finalization_irreversible(c: Campaign, calls: Seq<Call>)
    requires
        c.state.wf(),
    ensures
        c.run(calls).state.wf(),
        c.state.finalized ==> c.run(calls).state.finalized && c.run(calls).state.claims_enabled
            && !c.run(calls).state.refunds_enabled,
    decreases calls.len(),
{
    if calls.len() > 0 {
        lemma_finalization_irreversible(c, calls.drop_last());
    }
}

/// The administrator and the campaign's parameters never change.
pub proof fn lemma_parameters_fixed(c: Campaign, calls: Seq<Call>)
    ensures
        c.run(calls).state.authority == c.state.authority,
        c.run(calls).state.soft_cap == c.state.soft_cap,
        c.run(calls).state.hard_cap == c.state.hard_cap,
        c.run(calls).state.token_price == c.state.token_price,
        c.run(calls).state.start_time == c.state.start_time,
        c.run(calls).state.end_time == c.state.end_time,
        c.run(calls).state.min_contribution == c.state.min_contribution,
        c.run(calls).state.treasury == c.state.treasury,
    decreases calls.len(),
{
    if calls.len() > 0 {
        lemma_parameters_fixed(c, calls.drop_last());
    }
}

/// Authorization of the administrator's operations: from any caller but the
/// recorded authority, each is rejected as unauthorized.
pub proof fn lemma_only_the_authority(
    state: PresaleState,
    caller: Identity,
    treasury: DerivedAccount,
    admin_wallet: Identity,
)
    requires
        caller != state.authority,
    ensures
        enable_claims_error(AdminAction { authority: caller, presale_state: state }) == Some(
            PresaleError::Unauthorized,
        ),
        enable_refunds_error(AdminAction { authority: caller, presale_state: state }) == Some(
            PresaleError::Unauthorized,
        ),
        finalize_presale_error(
            FinalizePresale { authority: caller, presale_state: state, treasury, admin_wallet },
        ) == Some(PresaleError::Unauthorized),
{
}

/// Authorization of payouts: from any caller but the entry's contributor, a
/// claim and a refund are rejected as unauthorized.
pub proof fn lemma_only_the_contributor(
    state: PresaleState,
    entry: UserContribution,
    caller: Identity,
    treasury: DerivedAccount,
    treasury_token_account: DerivedAccount,
    user_token_account: Identity,
)
    requires
        caller != entry.contributor,
    ensures
        claim_tokens_error(
            ClaimTokens {
                contributor: caller,
                presale_state: state,
                user_contribution: entry,
                treasury_token_account,
                user_token_account,
            },
        ) == Some(PresaleError::Unauthorized),
        refund_error(
            Refund {
                contributor: caller,
                presale_state: state,
                user_contribution: entry,
                treasury,
            },
        ) == Some(PresaleError::Unauthorized),
{
}

} // verus!
