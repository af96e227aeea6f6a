use presale::identity::Identity;
use presale::presale::{
    claim_tokens, contribute, enable_claims, enable_refunds, finalize_presale, initialize_presale,
    refund, AdminAction, ClaimTokens, Contribute, DerivedAccount, FinalizePresale,
    InitializePresale, PresaleState, Refund, UserContribution,
};

/// A campaign with all its entries and its escrow, driven through the
/// library's operations the way the platform would drive them.
struct Book {
    state: PresaleState,
    entries: Vec<UserContribution>,
    treasury: DerivedAccount,
    claims: Vec<u32>,
    refunds: Vec<u32>,
}

fn id(byte: u8) -> Identity {
    Identity::new([byte; 32])
}

fn open_book(slots: usize) -> Book {
    let treasury = DerivedAccount { key: id(200), bump: 255, lamports: 0 };
    let blank = PresaleState {
        authority: Identity::default(),
        soft_cap: 0,
        hard_cap: 0,
        token_price: 0,
        start_time: 0,
        end_time: 0,
        min_contribution: 0,
        total_contributions: 0,
        claims_enabled: false,
        refunds_enabled: false,
        finalized: false,
        treasury: Identity::default(),
    };
    let mut ctx = InitializePresale { authority: id(1), presale_state: blank, treasury };
    initialize_presale(&mut ctx, 100, 500, 10, 0, 1_000, 5).unwrap();
    Book {
        state: ctx.presale_state,
        entries: vec![UserContribution::vacant(); slots],
        treasury,
        claims: vec![0; slots],
        refunds: vec![0; slots],
    }
}

impl Book {
    fn check(&self, escrow_untouched: bool) {
        let sum: u128 = self.entries.iter().map(|entry| u128::from(entry.amount)).sum();
        assert_eq!(sum, u128::from(self.state.total_contributions));
        assert!(self.state.total_contributions <= self.state.hard_cap);
        assert!(!(self.state.claims_enabled && self.state.refunds_enabled));
        if escrow_untouched {
            assert_eq!(self.treasury.lamports, self.state.total_contributions);
        }
        for slot in 0..self.entries.len() {
            assert!(self.claims[slot] + self.refunds[slot] <= 1);
            assert!(!(self.entries[slot].claimed && self.entries[slot].refunded));
        }
    }

    fn contribute(&mut self, slot: usize, who: u8, amount: u64, now: i64) -> bool {
        let mut ctx = Contribute {
            contributor: id(who),
            presale_state: self.state,
            treasury: self.treasury,
            user_contribution: self.entries[slot],
        };
        match contribute(&mut ctx, amount, now) {
            Ok(payment) => {
                assert_eq!(payment.to, self.treasury.key);
                self.treasury.lamports += payment.lamports;
                self.state = ctx.presale_state;
                self.entries[slot] = ctx.user_contribution;
                true
            }
            Err(_) => {
                assert_eq!(ctx.presale_state, self.state);
                assert_eq!(ctx.user_contribution, self.entries[slot]);
                false
            }
        }
    }

    fn admin(&mut self, who: u8, claims: bool) -> bool {
        let mut ctx = AdminAction { authority: id(who), presale_state: self.state };
        let result = if claims { enable_claims(&mut ctx) } else { enable_refunds(&mut ctx) };
        if result.is_err() {
            assert_eq!(ctx.presale_state, self.state);
        }
        self.state = ctx.presale_state;
        result.is_ok()
    }

    fn claim(&mut self, slot: usize, who: u8) -> bool {
        let mut ctx = ClaimTokens {
            contributor: id(who),
            presale_state: self.state,
            user_contribution: self.entries[slot],
            treasury_token_account: DerivedAccount { key: id(201), bump: 250, lamports: 0 },
            user_token_account: id(who),
        };
        let paid = claim_tokens(&mut ctx).is_ok();
        if paid {
            self.claims[slot] += 1;
        } else {
            assert_eq!(ctx.user_contribution, self.entries[slot]);
        }
        self.entries[slot] = ctx.user_contribution;
        paid
    }

    fn refund(&mut self, slot: usize, who: u8) -> bool {
        let mut ctx = Refund {
            contributor: id(who),
            presale_state: self.state,
            user_contribution: self.entries[slot],
            treasury: self.treasury,
        };
        match refund(&mut ctx) {
            Ok(payment) if payment.lamports <= self.treasury.lamports => {
                assert_eq!(payment.lamports, self.entries[slot].amount);
                self.treasury.lamports -= payment.lamports;
                self.refunds[slot] += 1;
                self.entries[slot] = ctx.user_contribution;
                true
            }
            _ => false,
        }
    }

    fn finalize(&mut self, who: u8) -> bool {
        let mut ctx = FinalizePresale {
            authority: id(who),
            presale_state: self.state,
            treasury: self.treasury,
            admin_wallet: id(9),
        };
        match finalize_presale(&mut ctx) {
            Ok(payment) => {
                assert_eq!(payment.lamports, self.treasury.lamports);
                self.treasury.lamports = 0;
                self.state = ctx.presale_state;
                true
            }
            Err(_) => false,
        }
    }
}

#[test]
fn contributions_conserve_funds() {
    let mut book = open_book(4);
    book.check(true);
    let calls: [(usize, u8, u64, i64); 12] = [
        (0, 10, 40, 0),
        (1, 11, 60, 5),
        (2, 12, 5, 10),
        (0, 10, 4, 20),
        (0, 11, 50, 20),
        (3, 13, 300, 30),
        (1, 11, 100, 40),
        (2, 12, 90, 50),
        (2, 12, 92, 50),
        (3, 13, 5, 1_000),
        (3, 13, 5, 1_001),
        (1, 11, 86, 999),
    ];
    let accepted: Vec<bool> = calls
        .iter()
        .map(|&(slot, who, amount, now)| {
            let accepted = book.contribute(slot, who, amount, now);
            book.check(true);
            accepted
        })
        .collect();
    assert_eq!(
        accepted,
        vec![true, true, true, false, false, true, false, true, false, true, false, false]
    );
    assert_eq!(book.state.total_contributions, 40 + 60 + 5 + 300 + 90 + 5);
    assert_eq!(book.treasury.lamports, 500);
    assert_eq!(
        book.entries.iter().map(|entry| entry.amount).collect::<Vec<u64>>(),
        vec![40, 60, 95, 305]
    );
}

#[test]
fn hard_cap_is_never_passed() {
    let mut book = open_book(3);
    for round in 0..200u64 {
        let slot = (round % 3) as usize;
        book.contribute(slot, 10 + slot as u8, 5 + round % 7, (round % 50) as i64);
        book.check(true);
    }
    let reached = book.state.total_contributions;
    assert!(reached <= 500);
    assert!(reached + 5 > 500);
    assert!(!book.contribute(0, 10, 5, 0));
    assert_eq!(book.state.total_contributions, reached);
}

#[test]
fn no_entry_is_paid_out_twice() {
    let mut book = open_book(3);
    assert!(book.contribute(0, 10, 50, 0));
    assert!(book.contribute(1, 11, 60, 0));
    assert!(book.contribute(2, 12, 70, 0));
    assert!(book.admin(1, true));
    assert!(book.claim(0, 10));
    assert!(!book.claim(0, 10));
    assert!(!book.claim(1, 10));
    assert!(book.admin(1, false));
    assert!(!book.refund(0, 10));
    assert!(book.refund(1, 11));
    assert!(!book.refund(1, 11));
    assert!(book.admin(1, true));
    assert!(!book.claim(1, 11));
    assert!(!book.contribute(0, 10, 50, 0));
    assert!(!book.claim(0, 10));
    assert!(book.claim(2, 12));
    book.check(false);
    assert_eq!(book.claims, vec![1, 0, 1]);
    assert_eq!(book.refunds, vec![0, 1, 0]);
    assert_eq!(book.treasury.lamports, 120);
}

#[test]
fn phases_stay_exclusive() {
    let mut book = open_book(1);
    assert!(!book.admin(1, true));
    book.check(true);
    assert!(book.admin(1, false));
    book.check(true);
    assert!(!book.finalize(1));
    assert!(!book.contribute(0, 10, 100, 0));
    assert!(!book.admin(1, true));
    book.state.refunds_enabled = false;
    assert!(book.contribute(0, 10, 100, 0));
    for claims in [true, false, false, true, true, false, true] {
        assert!(book.admin(1, claims));
        assert_eq!(book.state.claims_enabled, claims);
        assert_eq!(book.state.refunds_enabled, !claims);
        book.check(true);
    }
    assert!(book.finalize(1));
    assert!(book.state.finalized);
    assert_eq!(book.treasury.lamports, 0);
    for claims in [true, false] {
        assert!(!book.admin(1, claims));
        assert!(book.state.finalized);
        assert!(book.state.claims_enabled);
        assert!(!book.state.refunds_enabled);
    }
    book.check(false);
}

#[test]
fn only_the_named_principal_is_served() {
    let mut book = open_book(1);
    assert!(book.contribute(0, 10, 120, 0));
    for stranger in [0u8, 2, 10, 200, 255] {
        assert!(!book.admin(stranger, true));
        assert!(!book.admin(stranger, false));
        assert!(!book.finalize(stranger));
    }
    assert!(book.admin(1, true));
    for stranger in [0u8, 1, 11, 200, 255] {
        assert!(!book.claim(0, stranger));
    }
    for stranger in [0u8, 2, 10, 200, 255] {
        assert!(!book.finalize(stranger));
    }
    assert!(book.admin(1, false));
    for stranger in [0u8, 1, 11, 200, 255] {
        assert!(!book.refund(0, stranger));
    }
    assert!(book.refund(0, 10));
    book.check(false);
}
